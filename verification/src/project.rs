use vstd::prelude::*;
use vstd::utf8::encode_utf8;

verus! {

/// Characters that are never allowed in a file name.
pub open spec fn is_illegal_name_char(c: char) -> bool {
    c == '/' || c == '?' || c == '<' || c == '>' || c == '\\' || c == ':' || c == '*' || c == '|'
        || c == '"'
}

/// Control characters: U+0000 to U+001F and U+0080 to U+009F.
pub open spec fn is_control_name_char(c: char) -> bool {
    ('\u{0}' <= c && c <= '\u{1f}') || ('\u{80}' <= c && c <= '\u{9f}')
}

/// Whether `a` is `b` with some characters left out.
pub open spec fn is_subsequence(a: Seq<char>, b: Seq<char>) -> bool
    decreases b.len(),
{
    if a.len() == 0 {
        true
    } else if b.len() == 0 {
        false
    } else if a.last() == b.last() {
        is_subsequence(a.drop_last(), b.drop_last())
    } else {
        is_subsequence(a, b.drop_last())
    }
}

/// What holds of a file name sanitized from `input`: it keeps some of the
/// characters of `input` in order, has no illegal or control character, and
/// its UTF-8 encoding is at most 255 bytes long.
pub open spec fn is_sanitized_from(out: Seq<char>, input: Seq<char>) -> bool {
    &&& is_subsequence(out, input)
    &&& forall|i: int| 0 <= i < out.len() ==> !is_illegal_name_char(#[trigger] out[i])
    &&& forall|i: int| 0 <= i < out.len() ==> !is_control_name_char(#[trigger] out[i])
    &&& encode_utf8(out).len() <= 255
}

/// `s` with its illegal and control characters left out.
pub open spec fn strip_name_chars(s: Seq<char>) -> Seq<char>
    decreases s.len(),
{
    if s.len() == 0 {
        s
    } else {
        let rest = strip_name_chars(s.drop_last());
        if is_illegal_name_char(s.last()) || is_control_name_char(s.last()) {
            rest
        } else {
            rest.push(s.last())
        }
    }
}

/// The part of a file name before its first `.`.
pub open spec fn name_base(s: Seq<char>) -> Seq<char>
    decreases s.len(),
{
    if s.len() == 0 {
        s
    } else if s[0] == '.' {
        Seq::empty()
    } else {
        seq![s[0]] + name_base(s.drop_first())
    }
}

/// Whether `c` is the ASCII lower-case letter `lower` or its upper case.
pub open spec fn ascii_ci(c: char, lower: char) -> bool {
    c == lower || c as int == lower as int - 32
}

/// Whether the three characters `b` spell `word`, ignoring ASCII case.
pub open spec fn spells3(b: Seq<char>, word: Seq<char>) -> bool {
    ascii_ci(b[0], word[0]) && ascii_ci(b[1], word[1]) && ascii_ci(b[2], word[2])
}

/// Whether a name may be a Windows device name (`con`, `prn`, `aux`, `nul`,
/// `com0`-`com9`, `lpt0`-`lpt9`, in any case, possibly followed by `.` and an
/// extension). A base of three or four characters with a non-ASCII character
/// is counted as one too, since case-insensitive matching may fold it.
pub open spec fn may_be_device_name(s: Seq<char>) -> bool {
    let b = name_base(s);
    ||| (b.len() == 3 || b.len() == 4) && exists|i: int| 0 <= i < b.len() && (b[i] as int) > 0x7f
    ||| b.len() == 3 && (spells3(b, "con"@) || spells3(b, "prn"@) || spells3(b, "aux"@) || spells3(
        b,
        "nul"@,
    ))
    ||| b.len() == 4 && (spells3(b, "com"@) || spells3(b, "lpt"@)) && '0' <= b[3] <= '9'
}

/// A name that sanitizing keeps as it is on every platform: it has no illegal
/// or control character, its UTF-8 encoding is at most 255 bytes, it does not
/// end in `.` or a space (so it is not made only of dots), and it is not a
/// Windows device name.
pub open spec fn is_plain_file_name(s: Seq<char>) -> bool {
    &&& forall|i: int| 0 <= i < s.len() ==> !is_illegal_name_char(#[trigger] s[i])
    &&& forall|i: int| 0 <= i < s.len() ==> !is_control_name_char(#[trigger] s[i])
    &&& encode_utf8(s).len() <= 255
    &&& s.len() > 0 ==> s.last() != '.' && s.last() != ' '
    &&& !may_be_device_name(s)
}

/// `sanitize_filename::sanitize`: `name` made safe to use as a file name.
///
/// Illegal characters (`/ ? < > \ : * | "`) and control characters are
/// removed, a name made only of dots becomes empty, and the result is cut to
/// at most 255 bytes at a character boundary. On Windows reserved device
/// names and trailing dots and spaces are removed as well; since that part
/// depends on the platform, the contract states what holds on every
/// platform: in general what a sanitized name is like, and exactly the
/// result where removing the illegal and control characters already leaves a
/// plain name, which no later step changes.
#[verifier::external_body]
fn sanitize(name: &str) -> (r: String)
    ensures
        is_sanitized_from(r@, name@),
        is_plain_file_name(strip_name_chars(name@)) ==> r@ == strip_name_chars(name@),
{
    sanitize_filename::sanitize(name)
}

/// The project name used when a single component is emitted into a
/// directory: the directory's name, sanitized, or `project` when the
/// directory has no name that is valid text.
pub fn project_name_for_component(dir_name: Option<&str>) -> (r: String)
    ensures
        match dir_name {
            Some(n) => is_sanitized_from(r@, n@),
            None => r@ == "project"@,
        },
        match dir_name {
            Some(n) => is_plain_file_name(strip_name_chars(n@)) ==> r@ == strip_name_chars(n@),
            None => true,
        },
{
    match dir_name {
        Some(n) => sanitize(n),
        None => "project".to_string(),
    }
}

/// The name a new project is created under, before sanitizing: the name
/// given on the command line, else the destination directory's name, else
/// `new_project`.
pub open spec fn chosen_project_name(given: Option<&str>, destination_name: Option<&str>) -> Seq<
    char,
> {
    match given {
        Some(g) => g@,
        None => match destination_name {
            Some(d) => d@,
            None => "new_project"@,
        },
    }
}

/// The sanitized name of a new project.
pub fn project_name_for_new(given: Option<&str>, destination_name: Option<&str>) -> (r: String)
    ensures
        is_sanitized_from(r@, chosen_project_name(given, destination_name)),
        is_plain_file_name(strip_name_chars(chosen_project_name(given, destination_name)))
            ==> r@ == strip_name_chars(chosen_project_name(given, destination_name)),
{
    let chosen = match given {
        Some(g) => g,
        None => match destination_name {
            Some(d) => d,
            None => "new_project",
        },
    };
    sanitize(chosen)
}

/// What to do before writing a new project into a destination directory.
#[derive(Debug, PartialEq, Eq, Structural)]
pub enum DestinationStep {
    /// The directory does not exist: create it.
    Create,
    /// The directory holds files: ask whether to continue and possibly
    /// overwrite them; a refusal aborts.
    Confirm,
    /// The directory exists and is empty: nothing to do.
    Ready,
}

/// Decide how to make `destination` ready, from whether it exists and
/// whether it is empty.
pub fn destination_step(exists: bool, is_empty: bool) -> (r: DestinationStep)
    ensures
        !exists ==> r == DestinationStep::Create,
        exists && !is_empty ==> r == DestinationStep::Confirm,
        exists && is_empty ==> r == DestinationStep::Ready,
{
    if !exists {
        DestinationStep::Create
    } else if !is_empty {
        DestinationStep::Confirm
    } else {
        DestinationStep::Ready
    }
}

/// What to do before writing a component's file.
#[derive(Debug, PartialEq, Eq, Structural)]
pub enum OutputStep {
    /// The file exists: ask whether to overwrite it; a refusal aborts.
    Confirm,
    /// The file does not exist: write it.
    Write,
}

/// Decide what to do before writing a component's file, from whether the
/// file exists.
pub fn output_step(output_exists: bool) -> (r: OutputStep)
    ensures
        output_exists ==> r == OutputStep::Confirm,
        !output_exists ==> r == OutputStep::Write,
{
    if output_exists {
        OutputStep::Confirm
    } else {
        OutputStep::Write
    }
}

} // verus!
