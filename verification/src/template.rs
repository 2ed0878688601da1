use vstd::prelude::*;

verus! {

/// A piece of a template made only of text and variable tags.
pub enum TemplatePiece {
    /// Text copied to the output as it is.
    Text(Seq<char>),
    /// A variable tag `{{ name }}`, replaced by the variable's value.
    Var(Seq<char>),
}

/// Characters that may start a variable name.
pub open spec fn is_name_start(c: char) -> bool {
    ('a' <= c && c <= 'z') || ('A' <= c && c <= 'Z') || c == '_'
}

/// Characters that may continue a variable name.
pub open spec fn is_name_char(c: char) -> bool {
    is_name_start(c) || ('0' <= c && c <= '9')
}

/// Words that the template language reads as something other than a
/// variable.
pub open spec fn is_reserved_word(n: Seq<char>) -> bool {
    n == "true"@ || n == "false"@ || n == "True"@ || n == "False"@ || n == "and"@ || n == "or"@
        || n == "not"@ || n == "is"@ || n == "in"@
}

/// Whether `n` begins with `w`.
pub open spec fn starts_with(n: Seq<char>, w: Seq<char>) -> bool {
    w.len() <= n.len() && n.subrange(0, w.len() as int) == w
}

/// A plain variable name: letters, digits and `_`, not starting with a
/// digit, not a reserved word, not beginning with a boolean literal (the
/// template language reads `true_x` as `true` followed by `_x`), and not
/// starting with `__` (the template engine reserves such names).
pub open spec fn is_simple_variable(n: Seq<char>) -> bool {
    &&& n.len() > 0
    &&& is_name_start(n[0])
    &&& forall|i: int| 0 <= i < n.len() ==> is_name_char(#[trigger] n[i])
    &&& !is_reserved_word(n)
    &&& !starts_with(n, "true"@)
    &&& !starts_with(n, "false"@)
    &&& !starts_with(n, "True"@)
    &&& !starts_with(n, "False"@)
    &&& !(n.len() >= 2 && n[0] == '_' && n[1] == '_')
}

/// Text in which no tag starts: every `{` is followed by a character other
/// than `{`, `%` and `#`.
pub open spec fn is_plain_text(t: Seq<char>) -> bool {
    forall|i: int|
        0 <= i < t.len() && #[trigger] t[i] == '{' ==> i + 1 < t.len() && t[i + 1] != '{' && t[i
            + 1] != '%' && t[i + 1] != '#'
}

/// Whether a piece is plain text or a tag of a plain variable.
pub open spec fn is_simple_piece(p: TemplatePiece) -> bool {
    match p {
        TemplatePiece::Text(t) => is_plain_text(t),
        TemplatePiece::Var(n) => is_simple_variable(n),
    }
}

/// Whether every piece is simple.
pub open spec fn is_simple_template(ps: Seq<TemplatePiece>) -> bool {
    forall|i: int| 0 <= i < ps.len() ==> is_simple_piece(#[trigger] ps[i])
}

/// The source text of a piece.
pub open spec fn piece_source(p: TemplatePiece) -> Seq<char> {
    match p {
        TemplatePiece::Text(t) => t,
        TemplatePiece::Var(n) => "{{ "@ + n + " }}"@,
    }
}

/// The source text of a template given as pieces.
pub open spec fn pieces_source(ps: Seq<TemplatePiece>) -> Seq<char>
    decreases ps.len(),
{
    if ps.len() == 0 {
        Seq::empty()
    } else {
        pieces_source(ps.drop_last()) + piece_source(ps.last())
    }
}

/// Whether every variable that the pieces name has a value in `vars`.
pub open spec fn pieces_defined(ps: Seq<TemplatePiece>, vars: Map<Seq<char>, Seq<char>>) -> bool {
    forall|i: int|
        0 <= i < ps.len() ==> (#[trigger] ps[i] matches TemplatePiece::Var(n) ==> vars.dom().contains(
            n,
        ))
}

/// The text the pieces render to: text as it is, each variable tag replaced
/// by the variable's value.
pub open spec fn pieces_rendered(ps: Seq<TemplatePiece>, vars: Map<Seq<char>, Seq<char>>) -> Seq<
    char,
>
    decreases ps.len(),
{
    if ps.len() == 0 {
        Seq::empty()
    } else {
        pieces_rendered(ps.drop_last(), vars) + match ps.last() {
            TemplatePiece::Text(t) => t,
            TemplatePiece::Var(n) => vars[n],
        }
    }
}

/// What rendering a template made of simple pieces gives, with the string
/// variables `vars`: the rendered text when every variable is defined, a
/// failure otherwise.
pub open spec fn simple_rendering(ps: Seq<TemplatePiece>, vars: Map<Seq<char>, Seq<char>>) -> Option<
    Seq<char>,
> {
    if pieces_defined(ps, vars) {
        Some(pieces_rendered(ps, vars))
    } else {
        None
    }
}

/// Whether a tag starts at `i`: `{{` or `{%`.
pub open spec fn tag_opens_at(t: Seq<char>, i: int) -> bool {
    0 <= i && i + 1 < t.len() && t[i] == '{' && (t[i + 1] == '{' || t[i + 1] == '%')
}

/// Whether a tag ends at `i`: `}}` or `%}`.
pub open spec fn tag_closes_at(t: Seq<char>, i: int) -> bool {
    0 <= i && i + 1 < t.len() && (t[i] == '}' || t[i] == '%') && t[i + 1] == '}'
}

/// Characters that no tag of a checked template holds: quotes (so no string
/// literal can hide the end of a tag), arithmetic operators, `|` (filters),
/// `(` (function calls) and `[` (indexing).
pub open spec fn is_refused_tag_char(c: char) -> bool {
    c == '"' || c == '\'' || c == '`' || c == '+' || c == '-' || c == '*' || c == '/' || c == '%'
        || c == '|' || c == '(' || c == '['
}

/// Whether character `i`, inside a tag, is allowed there: a digit only as
/// part of a name (after a letter, `_` or digit), so that no number literal
/// occurs, and no refused character.
pub open spec fn tag_char_allowed(t: Seq<char>, i: int) -> bool {
    if '0' <= t[i] && t[i] <= '9' {
        i > 0 && is_name_char(t[i - 1])
    } else {
        !is_refused_tag_char(t[i])
    }
}

/// Scanning `t` from `i`, inside a tag or not: whether every character met
/// inside a tag is allowed.
pub open spec fn checked_from(t: Seq<char>, i: int, inside: bool) -> bool
    decreases t.len() - i,
{
    if i < 0 || i >= t.len() {
        true
    } else if !inside {
        if tag_opens_at(t, i) {
            checked_from(t, i + 2, true)
        } else {
            checked_from(t, i + 1, false)
        }
    } else if tag_closes_at(t, i) {
        checked_from(t, i + 2, false)
    } else {
        tag_char_allowed(t, i) && checked_from(t, i + 1, true)
    }
}

/// A checked template: no tag holds a number literal, an arithmetic
/// operator, a filter, a function call, an index or quoted text. Such a
/// template computes no number and calls no function, so the engine renders
/// it without panicking and its output depends only on the text and the
/// variables.
pub open spec fn is_checked_template(t: Seq<char>) -> bool {
    checked_from(t, 0, false)
}

/// The source of a non-empty template is its first piece's source followed
/// by the source of the rest.
proof fn lemma_pieces_source_front(ps: Seq<TemplatePiece>)
    requires
        ps.len() > 0,
    ensures
        pieces_source(ps) == piece_source(ps[0]) + pieces_source(ps.drop_first()),
    decreases ps.len(),
{
    if ps.len() == 1 {
        assert(ps.drop_last() =~= Seq::<TemplatePiece>::empty());
        assert(ps.drop_first() =~= Seq::<TemplatePiece>::empty());
        assert(pieces_source(ps.drop_last()) == Seq::<char>::empty());
        assert(pieces_source(ps.drop_first()) == Seq::<char>::empty());
        assert(pieces_source(ps) =~= piece_source(ps[0]));
    } else {
        let init = ps.drop_last();
        lemma_pieces_source_front(init);
        assert(ps.drop_first().drop_last() =~= init.drop_first());
        assert(ps.drop_first().last() == ps.last());
        assert(pieces_source(ps) =~= piece_source(ps[0]) + pieces_source(ps.drop_first()));
    }
}

/// Scanning `p + r` from a position inside `r` goes as scanning `r` alone,
/// except that a digit at the very start of `r`, inside a tag, would look
/// back into `p`.
proof fn lemma_checked_shift(p: Seq<char>, r: Seq<char>, j: int, inside: bool)
    requires
        0 <= j,
        j >= 1 || !inside,
    ensures
        checked_from(p + r, p.len() + j, inside) == checked_from(r, j, inside),
    decreases r.len() - j,
{
    let t = p + r;
    let i = p.len() + j;
    if j < r.len() {
        assert(t[i] == r[j]);
        if j + 1 < r.len() {
            assert(t[i + 1] == r[j + 1]);
        }
        if j >= 1 {
            assert(t[i - 1] == r[j - 1]);
        }
        assert(tag_opens_at(t, i) == tag_opens_at(r, j));
        assert(tag_closes_at(t, i) == tag_closes_at(r, j));
        if inside {
            assert(tag_char_allowed(t, i) == tag_char_allowed(r, j));
        }
        lemma_checked_shift(p, r, j + 1, inside);
        lemma_checked_shift(p, r, j + 1, !inside);
        if j + 2 <= r.len() {
            lemma_checked_shift(p, r, j + 2, inside);
            lemma_checked_shift(p, r, j + 2, !inside);
        }
    }
}

/// Plain text opens no tag: scanning it leads on to what follows.
proof fn lemma_plain_text_scan(t: Seq<char>, r: Seq<char>, k: int)
    requires
        is_plain_text(t),
        0 <= k <= t.len(),
    ensures
        checked_from(t + r, k, false) == checked_from(r, 0, false),
    decreases t.len() - k,
{
    if k == t.len() {
        lemma_checked_shift(t, r, 0, false);
    } else {
        let u = t + r;
        assert(u[k] == t[k]);
        if t[k] == '{' {
            assert(u[k + 1] == t[k + 1]);
        }
        assert(!tag_opens_at(u, k));
        lemma_plain_text_scan(t, r, k + 1);
    }
}

/// The inside of a variable tag, from position `k` of the name on, is
/// allowed, and the tag closes after the name.
proof fn lemma_var_tag_scan(n: Seq<char>, r: Seq<char>, k: int)
    requires
        is_simple_variable(n),
        0 <= k <= n.len(),
    ensures
        checked_from(("{{ "@ + n + " }}"@) + r, 3 + k, true) == checked_from(r, 0, false),
    decreases n.len() - k,
{
    reveal_strlit("{{ ");
    reveal_strlit(" }}");
    let v = "{{ "@ + n + " }}"@;
    let u = v + r;
    assert(v.len() == n.len() + 6);
    if k == n.len() {
        assert(u[3 + k] == ' ');
        assert(u[4 + k] == '}' && u[5 + k] == '}');
        assert(tag_char_allowed(u, 3 + k));
        assert(!tag_closes_at(u, 3 + k));
        assert(tag_closes_at(u, 4 + k));
        assert(v.len() == 6 + k);
        lemma_checked_shift(v, r, 0, false);
        assert(checked_from(u, 4 + k, true) == checked_from(u, 6 + k, false));
        assert(checked_from(u, 3 + k, true) == checked_from(u, 4 + k, true));
    } else {
        assert(u[3 + k] == n[k]);
        assert(is_name_char(n[k]));
        if k > 0 {
            assert(u[2 + k] == n[k - 1]);
            assert(is_name_char(n[k - 1]));
        }
        assert(tag_char_allowed(u, 3 + k));
        assert(!tag_closes_at(u, 3 + k));
        lemma_var_tag_scan(n, r, k + 1);
        assert(checked_from(u, 3 + k, true) == checked_from(u, 3 + (k + 1), true));
    }
}

/// A simple piece leads the scan on, outside any tag, to what follows it.
proof fn lemma_simple_piece_scan(p: TemplatePiece, r: Seq<char>)
    requires
        is_simple_piece(p),
    ensures
        checked_from(piece_source(p) + r, 0, false) == checked_from(r, 0, false),
{
    match p {
        TemplatePiece::Text(t) => {
            lemma_plain_text_scan(t, r, 0);
        },
        TemplatePiece::Var(n) => {
            reveal_strlit("{{ ");
            let u = piece_source(p) + r;
            assert(u[0] == '{' && u[1] == '{' && u[2] == ' ');
            assert(tag_opens_at(u, 0));
            assert(!tag_closes_at(u, 2));
            assert(tag_char_allowed(u, 2));
            lemma_var_tag_scan(n, r, 0);
            assert(checked_from(u, 0, false) == checked_from(u, 2, true));
            assert(checked_from(u, 2, true) == checked_from(u, 3, true));
        },
    }
}

/// Every template made of simple pieces is a checked template.
pub proof fn lemma_simple_template_checked(ps: Seq<TemplatePiece>)
    requires
        is_simple_template(ps),
    ensures
        is_checked_template(pieces_source(ps)),
    decreases ps.len(),
{
    if ps.len() > 0 {
        lemma_pieces_source_front(ps);
        let rest = ps.drop_first();
        assert(is_simple_template(rest)) by {
            assert forall|i: int| 0 <= i < rest.len() implies is_simple_piece(#[trigger] rest[i]) by {
                assert(rest[i] == ps[i + 1]);
            }
        }
        assert(is_simple_piece(ps[0]));
        lemma_simple_template_checked(rest);
        lemma_simple_piece_scan(ps[0], pieces_source(rest));
    }
}

/// A text without `{` is a checked template.
pub proof fn lemma_brace_free_checked(t: Seq<char>)
    requires
        !t.contains('{'),
    ensures
        is_checked_template(t),
{
    assert(is_plain_text(t)) by {
        assert forall|i: int| 0 <= i < t.len() && #[trigger] t[i] == '{' implies false by {
            assert(t.contains('{'));
        }
    }
    lemma_plain_text_scan(t, Seq::empty(), 0);
    assert(t + Seq::<char>::empty() =~= t);
}

/// Whether `c` may continue a variable name.
fn char_is_name_char(c: char) -> (r: bool)
    ensures
        r == is_name_char(c),
{
    ('a' <= c && c <= 'z') || ('A' <= c && c <= 'Z') || c == '_' || ('0' <= c && c <= '9')
}

/// The characters of `s`.
fn chars_of(s: &str) -> (r: Vec<char>)
    ensures
        r@ == s@,
{
    broadcast use vstd::string::group_string_axioms;

    let mut r: Vec<char> = Vec::new();
    for c in it: s.chars()
        invariant
            it.seq() == s@,
            r@ == s@.take(it.index() as int),
    {
        assert(s@.take(it.index() + 1) =~= s@.take(it.index() as int).push(c));
        r.push(c);
    }
    assert(s@.take(s@.len() as int) =~= s@);
    r
}

/// Whether `template` is a checked template.
pub fn template_is_checked(template: &str) -> (r: bool)
    ensures
        r == is_checked_template(template@),
{
    let t = chars_of(template);
    let n = t.len();
    let mut i: usize = 0;
    let mut inside = false;
    while i < n
        invariant
            n == t@.len(),
            t@ == template@,
            i <= n + 1,
            checked_from(t@, 0, false) == checked_from(t@, i as int, inside),
        decreases n + 1 - i,
    {
        if !inside {
            if i + 1 < n && t[i] == '{' && (t[i + 1] == '{' || t[i + 1] == '%') {
                inside = true;
                i = i + 2;
            } else {
                i = i + 1;
            }
        } else if i + 1 < n && (t[i] == '}' || t[i] == '%') && t[i + 1] == '}' {
            inside = false;
            i = i + 2;
        } else {
            let c = t[i];
            let ok = if '0' <= c && c <= '9' {
                i > 0 && char_is_name_char(t[i - 1])
            } else {
                !(c == '"' || c == '\'' || c == '`' || c == '+' || c == '-' || c == '*' || c == '/'
                    || c == '%' || c == '|' || c == '(' || c == '[')
            };
            if !ok {
                return false;
            }
            i = i + 1;
        }
    }
    true
}

} // verus!
