use crate::components::{
    find_field_def, first_field_named, known_fields, lemma_component_fields_known,
    spec_components, spec_known_fields, Component, ComponentView, FieldDef, FieldDefView,
};
use crate::manifest::{Field, FieldsManifest};
use crate::text::{is_blank, is_blank_text, str_eq};
use vstd::prelude::*;

verus! {

/// Whether no two entries share a key.
pub open spec fn keys_distinct(s: Seq<(String, String)>) -> bool {
    forall|i: int, j: int| 0 <= i < j < s.len() ==> #[trigger] s[i].0@ != #[trigger] s[j].0@
}

/// Whether some entry has key `k`.
pub open spec fn has_key(s: Seq<(String, String)>, k: Seq<char>) -> bool {
    exists|i: int| 0 <= i < s.len() && #[trigger] s[i].0@ == k
}

/// The map from keys to values that a list of entries stands for.
pub open spec fn entries_map(s: Seq<(String, String)>) -> Map<Seq<char>, Seq<char>> {
    Map::new(
        |k: Seq<char>| has_key(s, k),
        |k: Seq<char>| s[choose|i: int| 0 <= i < s.len() && #[trigger] s[i].0@ == k].1@,
    )
}

/// With distinct keys, the entry at `i` gives the value of its key.
pub proof fn lemma_entries_map_at(s: Seq<(String, String)>, i: int)
    requires
        keys_distinct(s),
        0 <= i < s.len(),
    ensures
        entries_map(s).dom().contains(s[i].0@),
        entries_map(s)[s[i].0@] == s[i].1@,
{
    let k = s[i].0@;
    assert(has_key(s, k));
    let j = choose|j: int| 0 <= j < s.len() && #[trigger] s[j].0@ == k;
    if j != i {
        if j < i {
            assert(s[j].0@ != s[i].0@);
        } else {
            assert(s[i].0@ != s[j].0@);
        }
    }
}

/// Values collected for template variables: a map from variable names to
/// values, in which a later insertion of a name replaces the earlier value.
pub struct FieldValues {
    entries: Vec<(String, String)>,
}

impl View for FieldValues {
    type V = Map<Seq<char>, Seq<char>>;

    closed spec fn view(&self) -> Map<Seq<char>, Seq<char>> {
        entries_map(self.entries@)
    }
}

impl FieldValues {
    #[verifier::type_invariant]
    spec fn inv(self) -> bool {
        keys_distinct(self.entries@)
    }

    /// No values.
    pub fn new() -> (r: Self)
        ensures
            r@ == Map::<Seq<char>, Seq<char>>::empty(),
    {
        let r = FieldValues { entries: Vec::new() };
        assert(r@ =~= Map::<Seq<char>, Seq<char>>::empty());
        r
    }

    /// Set the value of `key`, replacing any earlier value.
    pub fn insert(&mut self, key: String, value: String)
        ensures
            final(self)@ == old(self)@.insert(key@, value@),
    {
        proof {
            use_type_invariant(&*self);
        }
        let mut entries: Vec<(String, String)> = Vec::new();
        std::mem::swap(&mut entries, &mut self.entries);
        let ghost old_entries = entries@;
        assert(old_entries == old(self).entries@);
        let n = entries.len();
        let mut i: usize = 0;
        while i < n
            invariant
                n == entries@.len(),
                entries@ == old_entries,
                old_entries == old(self).entries@,
                keys_distinct(old_entries),
                i <= n,
                forall|j: int| 0 <= j < i ==> #[trigger] old_entries[j].0@ != key@,
            decreases n - i,
        {
            if str_eq(entries[i].0.as_str(), key.as_str()) {
                let ghost new_entries = old_entries.update(i as int, (key, value));
                proof {
                    assert(keys_distinct(new_entries)) by {
                        assert forall|a: int, b: int|
                            0 <= a < b < new_entries.len() implies #[trigger] new_entries[a].0@
                            != #[trigger] new_entries[b].0@ by {
                            assert(old_entries[a].0@ != old_entries[b].0@);
                        }
                    }
                    lemma_update_entries_map(old_entries, i as int, key, value);
                }
                entries[i] = (key, value);
                assert(entries@ == new_entries);
                self.entries = entries;
                return;
            }
            i = i + 1;
        }
        proof {
            lemma_push_entries_map(old_entries, key, value);
        }
        entries.push((key, value));
        self.entries = entries;
    }

    /// The value of `key`, if it has one.
    pub fn get(&self, key: &str) -> (r: Option<&String>)
        ensures
            match r {
                Some(v) => self@.dom().contains(key@) && self@[key@] == v@,
                None => !self@.dom().contains(key@),
            },
    {
        proof {
            use_type_invariant(self);
        }
        let n = self.entries.len();
        let mut i: usize = 0;
        while i < n
            invariant
                n == self.entries@.len(),
                keys_distinct(self.entries@),
                i <= n,
                forall|j: int| 0 <= j < i ==> #[trigger] self.entries@[j].0@ != key@,
            decreases n - i,
        {
            if str_eq(self.entries[i].0.as_str(), key) {
                proof {
                    lemma_entries_map_at(self.entries@, i as int);
                }
                return Some(&self.entries[i].1);
            }
            i = i + 1;
        }
        None
    }

    /// The entries, each key once.
    pub fn entries(&self) -> (r: &Vec<(String, String)>)
        ensures
            keys_distinct(r@),
            entries_map(r@) == self@,
    {
        proof {
            use_type_invariant(self);
        }
        &self.entries
    }
}

/// After an insertion the variable holds the inserted value and every other
/// variable is unchanged.
pub proof fn lemma_insert_then_get(
    m: Map<Seq<char>, Seq<char>>,
    key: Seq<char>,
    value: Seq<char>,
    other: Seq<char>,
)
    requires
        other != key,
    ensures
        m.insert(key, value).dom().contains(key),
        m.insert(key, value)[key] == value,
        m.insert(key, value).dom().contains(other) == m.dom().contains(other),
        m.dom().contains(other) ==> m.insert(key, value)[other] == m[other],
{
}

/// Replacing the value of the entry at `i` replaces the value of its key.
proof fn lemma_update_entries_map(s: Seq<(String, String)>, i: int, key: String, value: String)
    requires
        keys_distinct(s),
        0 <= i < s.len(),
        s[i].0@ == key@,
        keys_distinct(s.update(i, (key, value))),
    ensures
        entries_map(s.update(i, (key, value))) == entries_map(s).insert(key@, value@),
{
    let t = s.update(i, (key, value));
    let m = entries_map(s).insert(key@, value@);
    assert forall|k: Seq<char>| #[trigger] entries_map(t).dom().contains(k) == m.dom().contains(k) by {
        if has_key(t, k) {
            let j = choose|j: int| 0 <= j < t.len() && #[trigger] t[j].0@ == k;
            if j != i {
                assert(s[j].0@ == k);
            }
        }
        if has_key(s, k) {
            let j = choose|j: int| 0 <= j < s.len() && #[trigger] s[j].0@ == k;
            assert(t[j].0@ == k);
        }
        if k == key@ {
            assert(t[i].0@ == k);
        }
    }
    assert forall|k: Seq<char>| entries_map(t).dom().contains(k) implies #[trigger] entries_map(t)[k] == m[k] by {
        let j = choose|j: int| 0 <= j < t.len() && #[trigger] t[j].0@ == k;
        lemma_entries_map_at(t, j);
        if j != i {
            lemma_entries_map_at(s, j);
        }
    }
    assert(entries_map(t) =~= m);
}

/// Appending an entry with a new key adds that key.
pub proof fn lemma_push_entries_map(s: Seq<(String, String)>, key: String, value: String)
    requires
        keys_distinct(s),
        forall|j: int| 0 <= j < s.len() ==> #[trigger] s[j].0@ != key@,
    ensures
        keys_distinct(s.push((key, value))),
        entries_map(s.push((key, value))) == entries_map(s).insert(key@, value@),
{
    let t = s.push((key, value));
    let m = entries_map(s).insert(key@, value@);
    assert forall|a: int, b: int| 0 <= a < b < t.len() implies #[trigger] t[a].0@ != #[trigger] t[b].0@ by {
        if b == s.len() {
            assert(s[a].0@ != key@);
        }
    }
    assert forall|k: Seq<char>| #[trigger] entries_map(t).dom().contains(k) == m.dom().contains(k) by {
        if has_key(t, k) {
            let j = choose|j: int| 0 <= j < t.len() && #[trigger] t[j].0@ == k;
            if j < s.len() {
                assert(s[j].0@ == k);
            }
        }
        if has_key(s, k) {
            let j = choose|j: int| 0 <= j < s.len() && #[trigger] s[j].0@ == k;
            assert(t[j].0@ == k);
        }
        if k == key@ {
            assert(t[s.len() as int].0@ == k);
        }
    }
    assert forall|k: Seq<char>| entries_map(t).dom().contains(k) implies #[trigger] entries_map(t)[k] == m[k] by {
        let j = choose|j: int| 0 <= j < t.len() && #[trigger] t[j].0@ == k;
        lemma_entries_map_at(t, j);
        if j < s.len() {
            lemma_entries_map_at(s, j);
        }
    }
    assert(entries_map(t) =~= m);
}

/// One variable to ask the user for, with how to ask.
#[derive(Debug)]
pub struct FieldRequest {
    /// The variable's name.
    pub name: String,
    /// The question shown to the user.
    pub prompt: String,
    /// The answer pre-filled in the prompt, if any.
    pub default: Option<String>,
    /// The help line shown under the prompt, if any.
    pub help: Option<String>,
    /// Whether a blank answer is refused.
    pub required: bool,
}

/// What a [`FieldRequest`] stands for.
pub struct FieldRequestView {
    pub name: Seq<char>,
    pub prompt: Seq<char>,
    pub default: Option<Seq<char>>,
    pub help: Option<Seq<char>>,
    pub required: bool,
}

/// The view of an optional string.
pub open spec fn string_option_view(s: Option<String>) -> Option<Seq<char>> {
    match s {
        Some(s) => Some(s@),
        None => None,
    }
}

impl View for FieldRequest {
    type V = FieldRequestView;

    open spec fn view(&self) -> FieldRequestView {
        FieldRequestView {
            name: self.name@,
            prompt: self.prompt@,
            default: string_option_view(self.default),
            help: string_option_view(self.help),
            required: self.required,
        }
    }
}

/// The help line of a request: `Required` for required fields, none otherwise.
pub open spec fn help_for(required: bool) -> Option<Seq<char>> {
    if required {
        Some("Required"@)
    } else {
        None
    }
}

/// How to ask for a known variable: its default is offered only when it is
/// not empty.
pub open spec fn request_for_def(d: FieldDefView) -> FieldRequestView {
    FieldRequestView {
        name: d.name,
        prompt: d.prompt,
        default: if d.default.len() == 0 {
            None
        } else {
            Some(d.default)
        },
        help: help_for(d.required),
        required: d.required,
    }
}

/// How to ask for a variable of a manifest: its default is offered whenever
/// the manifest gives one.
pub open spec fn request_for_manifest_field(f: Field) -> FieldRequestView {
    FieldRequestView {
        name: f.name@,
        prompt: f.prompt@,
        default: string_option_view(f.default),
        help: help_for(f.required),
        required: f.required,
    }
}

fn help_line(required: bool) -> (r: Option<String>)
    ensures
        string_option_view(r) == help_for(required),
{
    if required {
        Some("Required".to_string())
    } else {
        None
    }
}

/// The request for a known variable.
pub fn field_def_request(d: &FieldDef) -> (r: FieldRequest)
    ensures
        r@ == request_for_def(d@),
{
    let default = if d.default.is_empty() {
        None
    } else {
        Some(d.default.to_string())
    };
    FieldRequest {
        name: d.name.to_string(),
        prompt: d.prompt.to_string(),
        default,
        help: help_line(d.required),
        required: d.required,
    }
}

/// Whether every variable that `c` asks for is a known variable.
pub open spec fn component_fields_known(c: ComponentView) -> bool {
    forall|j: int|
        0 <= j < c.fields.len() ==> #[trigger] first_field_named(
            spec_known_fields(),
            c.fields[j],
            0,
        ) is Some
}

/// Whether every variable that `c` asks for is a known variable.
pub fn component_fields_are_known(c: &Component) -> (r: bool)
    ensures
        r == component_fields_known(c@),
{
    let defs = known_fields();
    let n = c.fields.len();
    for i in 0..n
        invariant
            n == c.fields@.len(),
            defs@.map_values(|d: FieldDef| d@) == spec_known_fields(),
            forall|j: int|
                0 <= j < i ==> #[trigger] first_field_named(
                    spec_known_fields(),
                    c@.fields[j],
                    0,
                ) is Some,
    {
        assert(c@.fields[i as int] == c.fields@[i as int]@);
        if find_field_def(&defs, c.fields[i]).is_none() {
            return false;
        }
    }
    true
}

/// Every registered component asks only for known variables.
pub proof fn lemma_registry_fields_known()
    ensures
        forall|i: int|
            0 <= i < spec_components().len() ==> #[trigger] component_fields_known(
                spec_components()[i],
            ),
{
    lemma_component_fields_known();
    assert forall|i: int| 0 <= i < spec_components().len() implies #[trigger] component_fields_known(
        spec_components()[i],
    ) by {
        assert forall|j: int| 0 <= j < spec_components()[i].fields.len() implies #[trigger] first_field_named(
            spec_known_fields(),
            spec_components()[i].fields[j],
            0,
        ) is Some by {
            assert(first_field_named(spec_known_fields(), spec_components()[i].fields[j], 0) matches Some(d)
                && d.name == spec_components()[i].fields[j]);
        }
    }
}

/// A field definition found by name has that name.
pub proof fn lemma_first_field_named_name(defs: Seq<FieldDefView>, name: Seq<char>, from: int)
    ensures
        first_field_named(defs, name, from) matches Some(d) ==> d.name == name,
    decreases defs.len() - from,
{
    if 0 <= from < defs.len() && defs[from].name != name {
        lemma_first_field_named_name(defs, name, from + 1);
    }
}

/// No registered component asks for the same variable twice.
pub proof fn lemma_component_fields_distinct()
    ensures
        forall|i: int, j: int, k: int|
            0 <= i < spec_components().len() && 0 <= j < k < spec_components()[i].fields.len()
                ==> #[trigger] spec_components()[i].fields[j] != #[trigger] spec_components()[i].fields[k],
{
    reveal_strlit("title");
    reveal_strlit("author");
    reveal_strlit("affiliation");
    reveal_strlit("main_file");
    reveal_strlit("latex_engine");
    assert("title"@.len() == 5 && "author"@.len() == 6 && "affiliation"@.len() == 11);
    assert("main_file"@.len() == 9 && "latex_engine"@.len() == 12);
}

/// Collecting the values of a registered component's variables: when the
/// requests are the component's (one per variable, in order) and collection
/// succeeds, each variable holds its own answer and nothing else is set.
pub proof fn lemma_component_collection(
    i: int,
    reqs: Seq<FieldRequestView>,
    answers: Seq<Seq<char>>,
)
    requires
        0 <= i < spec_components().len(),
        reqs.len() == spec_components()[i].fields.len(),
        forall|j: int| 0 <= j < reqs.len() ==> #[trigger] reqs[j].name == spec_components()[i].fields[j],
        answers.len() <= reqs.len(),
        collect_spec(reqs, answers) is Ok,
    ensures
        forall|j: int|
            0 <= j < answers.len() ==> {
                let m = collect_spec(reqs, answers)->Ok_0;
                &&& m.dom().contains(#[trigger] spec_components()[i].fields[j])
                &&& m[spec_components()[i].fields[j]] == answers[j]
            },
        forall|k: Seq<char>|
            #[trigger] collect_spec(reqs, answers)->Ok_0.dom().contains(k) ==> exists|j: int|
                0 <= j < answers.len() && spec_components()[i].fields[j] == k,
{
    lemma_component_fields_distinct();
    assert forall|a: int, b: int| 0 <= a < b < reqs.len() implies #[trigger] reqs[a].name
        != #[trigger] reqs[b].name by {
        assert(spec_components()[i].fields[a] != spec_components()[i].fields[b]);
    }
    lemma_collected_values(reqs, answers);
    let m = collect_spec(reqs, answers)->Ok_0;
    assert forall|j: int| 0 <= j < answers.len() implies {
        &&& m.dom().contains(#[trigger] spec_components()[i].fields[j])
        &&& m[spec_components()[i].fields[j]] == answers[j]
    } by {
        assert(reqs[j].name == spec_components()[i].fields[j]);
    }
    assert forall|k: Seq<char>| #[trigger] m.dom().contains(k) implies exists|j: int|
        0 <= j < answers.len() && spec_components()[i].fields[j] == k by {
        let j = choose|j: int| 0 <= j < answers.len() && reqs[j].name == k;
        assert(reqs[j].name == spec_components()[i].fields[j]);
    }
}

/// The requests for the variables that a component asks for, in the
/// component's order, each built from the known variable of that name.
pub fn requests_for_component(c: &Component) -> (r: Vec<FieldRequest>)
    requires
        component_fields_known(c@),
    ensures
        r@.len() == c@.fields.len(),
        forall|j: int|
            0 <= j < r@.len() ==> #[trigger] r@[j]@ == request_for_def(
                first_field_named(spec_known_fields(), c@.fields[j], 0)->0,
            ),
        forall|j: int| 0 <= j < r@.len() ==> #[trigger] r@[j]@.name == c@.fields[j],
{
    proof {
        assert forall|j: int| 0 <= j < c@.fields.len() implies (#[trigger] first_field_named(
            spec_known_fields(),
            c@.fields[j],
            0,
        ))->0.name == c@.fields[j] by {
            lemma_first_field_named_name(spec_known_fields(), c@.fields[j], 0);
        }
    }
    let defs = known_fields();
    let mut r: Vec<FieldRequest> = Vec::new();
    let n = c.fields.len();
    for i in 0..n
        invariant
            n == c.fields@.len(),
            defs@.map_values(|d: FieldDef| d@) == spec_known_fields(),
            component_fields_known(c@),
            r@.len() == i,
            forall|j: int|
                0 <= j < i ==> #[trigger] r@[j]@ == request_for_def(
                    first_field_named(spec_known_fields(), c@.fields[j], 0)->0,
                ),
    {
        let needed = c.fields[i];
        assert(c@.fields[i as int] == needed@);
        let def = find_field_def(&defs, needed);
        assert(first_field_named(spec_known_fields(), c@.fields[i as int], 0) is Some);
        match def {
            Some(d) => {
                r.push(field_def_request(&d));
            },
            None => {},
        }
    }
    r
}

/// The request for a variable of a manifest.
pub fn manifest_field_request(f: &Field) -> (r: FieldRequest)
    ensures
        r@ == request_for_manifest_field(*f),
        r.name@ == f.name@,
        r.required == f.required,
        r.help is Some <==> f.required,
        r.help matches Some(h) ==> h@ == "Required"@,
        string_option_view(r.default) == string_option_view(f.default),
{
    FieldRequest {
        name: f.name.clone(),
        prompt: f.prompt.clone(),
        default: match &f.default {
            Some(d) => Some(d.clone()),
            None => None,
        },
        help: help_line(f.required),
        required: f.required,
    }
}

/// A manifest field is asked for as the manifest says: it is required
/// exactly when the manifest marks it so, whether or not it gives a default;
/// only required fields carry the help line `Required`; its default is
/// offered exactly when the manifest gives one.
pub proof fn lemma_manifest_request_follows_field(f: Field)
    ensures
        request_for_manifest_field(f).name == f.name@,
        request_for_manifest_field(f).prompt == f.prompt@,
        request_for_manifest_field(f).required == f.required,
        request_for_manifest_field(f).help is Some <==> f.required,
        request_for_manifest_field(f).help matches Some(h) ==> h == "Required"@,
        request_for_manifest_field(f).default is Some <==> f.default is Some,
{
}

/// Collecting the values of a manifest's fields, answered in order, fails
/// exactly when some answer is blank and its field is marked required.
pub proof fn lemma_manifest_blank_answers(fields: Seq<Field>, answers: Seq<Seq<char>>)
    requires
        answers.len() <= fields.len(),
    ensures
        collect_spec(fields.map_values(|f: Field| request_for_manifest_field(f)), answers) is Ok
            <==> forall|i: int|
            0 <= i < answers.len() ==> !(fields[i].required && #[trigger] is_blank_text(
                answers[i],
            )),
{
    let reqs = fields.map_values(|f: Field| request_for_manifest_field(f));
    lemma_collect_refusal(reqs, answers);
    if collect_spec(reqs, answers) is Ok {
        assert forall|i: int| 0 <= i < answers.len() implies !(fields[i].required
            && #[trigger] is_blank_text(answers[i])) by {
            assert(reqs[i] == request_for_manifest_field(fields[i]));
            assert(!refused_at(reqs, answers, i));
        }
    } else {
        let i = choose|i: int| 0 <= i < answers.len() && #[trigger] refused_at(reqs, answers, i);
        assert(reqs[i] == request_for_manifest_field(fields[i]));
        assert(fields[i].required && is_blank_text(answers[i]));
    }
}

/// The requests for the variables of a manifest, in manifest order.
pub fn requests_for_manifest(m: &FieldsManifest) -> (r: Vec<FieldRequest>)
    ensures
        r@.len() == m.fields@.len(),
        forall|j: int|
            0 <= j < r@.len() ==> #[trigger] r@[j]@ == request_for_manifest_field(m.fields@[j]),
{
    let mut r: Vec<FieldRequest> = Vec::new();
    let n = m.fields.len();
    for i in 0..n
        invariant
            n == m.fields@.len(),
            r@.len() == i,
            forall|j: int|
                0 <= j < i ==> #[trigger] r@[j]@ == request_for_manifest_field(m.fields@[j]),
    {
        r.push(manifest_field_request(&m.fields[i]));
    }
    r
}

/// Why collecting values stopped.
#[derive(Debug)]
pub enum CollectError {
    /// A required variable was answered with blank text.
    RequiredFieldEmpty { name: String },
}

/// The outcome of answering the requests `reqs`, in order, with `answers`:
/// each answer sets its request's variable, a later answer for the same name
/// replacing an earlier one; the first blank answer to a required request
/// stops collection with that request's name.
pub open spec fn collect_spec(reqs: Seq<FieldRequestView>, answers: Seq<Seq<char>>) -> Result<
    Map<Seq<char>, Seq<char>>,
    Seq<char>,
>
    decreases answers.len(),
{
    if answers.len() == 0 {
        Ok(Map::empty())
    } else {
        match collect_spec(reqs, answers.drop_last()) {
            Err(name) => Err(name),
            Ok(m) => {
                let i = answers.len() - 1;
                if reqs[i].required && is_blank_text(answers[i]) {
                    Err(reqs[i].name)
                } else {
                    Ok(m.insert(reqs[i].name, answers[i]))
                }
            },
        }
    }
}

/// Whether the requests ask for pairwise distinct variables.
pub open spec fn request_names_distinct(reqs: Seq<FieldRequestView>) -> bool {
    forall|i: int, j: int| 0 <= i < j < reqs.len() ==> #[trigger] reqs[i].name != #[trigger] reqs[j].name
}

/// Whether answer `i` is a blank answer to a required request.
pub open spec fn refused_at(reqs: Seq<FieldRequestView>, answers: Seq<Seq<char>>, i: int) -> bool {
    reqs[i].required && is_blank_text(answers[i])
}

/// Collection fails exactly when some answer is a blank answer to a required
/// request, and then it names the request of the first such answer.
pub proof fn lemma_collect_refusal(reqs: Seq<FieldRequestView>, answers: Seq<Seq<char>>)
    requires
        answers.len() <= reqs.len(),
    ensures
        collect_spec(reqs, answers) is Ok <==> forall|i: int|
            0 <= i < answers.len() ==> !#[trigger] refused_at(reqs, answers, i),
        collect_spec(reqs, answers) matches Err(name) ==> exists|i: int|
            0 <= i < answers.len() && #[trigger] refused_at(reqs, answers, i) && name == reqs[i].name
                && forall|j: int| 0 <= j < i ==> !#[trigger] refused_at(reqs, answers, j),
    decreases answers.len(),
{
    if answers.len() > 0 {
        let prev = answers.drop_last();
        lemma_collect_refusal(reqs, prev);
        assert forall|i: int|
            #![trigger refused_at(reqs, prev, i)]
            #![trigger refused_at(reqs, answers, i)]
            0 <= i < prev.len() implies refused_at(reqs, prev, i) == refused_at(reqs, answers, i) by {
            assert(prev[i] == answers[i]);
        }
        let last = answers.len() - 1;
        if collect_spec(reqs, prev) is Ok && refused_at(reqs, answers, last) {
            assert(forall|j: int| 0 <= j < last ==> !#[trigger] refused_at(reqs, answers, j));
        }
        if collect_spec(reqs, prev) is Err {
            let name = collect_spec(reqs, prev)->Err_0;
            let i = choose|i: int|
                0 <= i < prev.len() && #[trigger] refused_at(reqs, prev, i) && name == reqs[i].name
                    && forall|j: int| 0 <= j < i ==> !#[trigger] refused_at(reqs, prev, j);
            assert(refused_at(reqs, answers, i));
            assert forall|j: int| 0 <= j < i implies !#[trigger] refused_at(reqs, answers, j) by {
                assert(!refused_at(reqs, prev, j));
            }
        }
    }
}

/// Whether no request after answer `j` asks for the same variable.
pub open spec fn last_for_its_name(reqs: Seq<FieldRequestView>, n: int, j: int) -> bool {
    forall|j2: int| j < j2 < n ==> #[trigger] reqs[j2].name != reqs[j].name
}

/// When collection succeeds, the variables set are exactly those asked for,
/// and each holds the last answer given for its name.
pub proof fn lemma_collected_last_answers(reqs: Seq<FieldRequestView>, answers: Seq<Seq<char>>)
    requires
        answers.len() <= reqs.len(),
        collect_spec(reqs, answers) is Ok,
    ensures
        forall|k: Seq<char>|
            #[trigger] collect_spec(reqs, answers)->Ok_0.dom().contains(k) <==> exists|j: int|
                0 <= j < answers.len() && reqs[j].name == k,
        forall|j: int|
            0 <= j < answers.len() && #[trigger] last_for_its_name(reqs, answers.len() as int, j)
                ==> collect_spec(reqs, answers)->Ok_0[reqs[j].name] == answers[j],
    decreases answers.len(),
{
    if answers.len() > 0 {
        let prev = answers.drop_last();
        lemma_collected_last_answers(reqs, prev);
        let m0 = collect_spec(reqs, prev)->Ok_0;
        let m = collect_spec(reqs, answers)->Ok_0;
        let n = answers.len() as int;
        let last = n - 1;
        assert forall|k: Seq<char>| #[trigger] m.dom().contains(k) <==> exists|j: int|
            0 <= j < answers.len() && reqs[j].name == k by {
            if m.dom().contains(k) && k != reqs[last].name {
                assert(m0.dom().contains(k));
                let j = choose|j: int| 0 <= j < prev.len() && reqs[j].name == k;
                assert(0 <= j < answers.len() && reqs[j].name == k);
            }
            if exists|j: int| 0 <= j < answers.len() && reqs[j].name == k {
                let j = choose|j: int| 0 <= j < answers.len() && reqs[j].name == k;
                if j < last {
                    assert(exists|j: int| 0 <= j < prev.len() && reqs[j].name == k);
                }
            }
        }
        assert forall|j: int|
            0 <= j < answers.len() && #[trigger] last_for_its_name(reqs, n, j) implies m[reqs[j].name]
            == answers[j] by {
            if j < last {
                assert(reqs[last].name != reqs[j].name);
                assert(last_for_its_name(reqs, last, j));
                assert(prev[j] == answers[j]);
            }
        }
    }
}

/// When the requests ask for distinct variables and collection succeeds,
/// every answered variable holds its answer, no required variable is blank,
/// and no other variable is set.
pub proof fn lemma_collected_values(reqs: Seq<FieldRequestView>, answers: Seq<Seq<char>>)
    requires
        answers.len() <= reqs.len(),
        request_names_distinct(reqs),
        collect_spec(reqs, answers) is Ok,
    ensures
        forall|i: int|
            0 <= i < answers.len() ==> {
                let m = collect_spec(reqs, answers)->Ok_0;
                &&& m.dom().contains(#[trigger] reqs[i].name)
                &&& m[reqs[i].name] == answers[i]
                &&& reqs[i].required ==> !is_blank_text(answers[i])
            },
        forall|k: Seq<char>|
            #[trigger] collect_spec(reqs, answers)->Ok_0.dom().contains(k) ==> exists|i: int|
                0 <= i < answers.len() && reqs[i].name == k,
    decreases answers.len(),
{
    if answers.len() > 0 {
        let prev = answers.drop_last();
        lemma_collected_values(reqs, prev);
        let m0 = collect_spec(reqs, prev)->Ok_0;
        let m = collect_spec(reqs, answers)->Ok_0;
        let last = answers.len() - 1;
        assert forall|i: int| 0 <= i < answers.len() implies {
            &&& m.dom().contains(#[trigger] reqs[i].name)
            &&& m[reqs[i].name] == answers[i]
            &&& reqs[i].required ==> !is_blank_text(answers[i])
        } by {
            if i < last {
                assert(prev[i] == answers[i]);
                assert(reqs[i].name != reqs[last].name);
            }
        }
        assert forall|k: Seq<char>| #[trigger] m.dom().contains(k) implies exists|i: int|
            0 <= i < answers.len() && reqs[i].name == k by {
            if k != reqs[last].name {
                assert(m0.dom().contains(k));
                let i = choose|i: int| 0 <= i < prev.len() && reqs[i].name == k;
                assert(0 <= i < answers.len() && reqs[i].name == k);
            }
        }
    }
}

/// Asks for the values of a list of variables one at a time: the caller
/// shows [`FieldCollector::next_request`] to the user and hands the reply to
/// [`FieldCollector::answer`].
pub struct FieldCollector {
    requests: Vec<FieldRequest>,
    values: FieldValues,
    next: usize,
    answered: Ghost<Seq<Seq<char>>>,
}

impl FieldCollector {
    /// The requests, in the order they are asked.
    pub closed spec fn requests(&self) -> Seq<FieldRequestView> {
        self.requests@.map_values(|r: FieldRequest| r@)
    }

    /// The answers accepted so far, in order.
    pub closed spec fn answered(&self) -> Seq<Seq<char>> {
        self.answered@
    }

    /// The values collected so far.
    pub closed spec fn values(&self) -> Map<Seq<char>, Seq<char>> {
        self.values@
    }

    /// Well-formedness: the values are those that the accepted answers give.
    pub closed spec fn wf(&self) -> bool {
        &&& self.answered@.len() == self.next
        &&& self.next <= self.requests@.len()
        &&& collect_spec(self.requests(), self.answered@) == Ok::<
            Map<Seq<char>, Seq<char>>,
            Seq<char>,
        >(self.values@)
    }

    /// A collector that has asked nothing yet.
    pub fn new(requests: Vec<FieldRequest>) -> (r: Self)
        ensures
            r.wf(),
            r.requests() == requests@.map_values(|q: FieldRequest| q@),
            r.answered() == Seq::<Seq<char>>::empty(),
            r.values() == Map::<Seq<char>, Seq<char>>::empty(),
    {
        let r = FieldCollector {
            requests,
            values: FieldValues::new(),
            next: 0,
            answered: Ghost(Seq::empty()),
        };
        assert(r.requests() =~= requests@.map_values(|q: FieldRequest| q@));
        r
    }

    /// The request to show next, or `None` once every request is answered.
    pub fn next_request(&self) -> (r: Option<&FieldRequest>)
        requires
            self.wf(),
        ensures
            match r {
                Some(q) => self.answered().len() < self.requests().len() && q@ == self.requests()[self.answered().len() as int],
                None => self.answered().len() == self.requests().len(),
            },
    {
        let n = self.requests.len();
        let i = self.answered_count();
        if i < n {
            Some(&self.requests[i])
        } else {
            None
        }
    }

    /// The values collected so far.
    pub fn into_values(self) -> (r: FieldValues)
        requires
            self.wf(),
        ensures
            r@ == self.values(),
    {
        self.values
    }

    /// How many requests have been answered.
    pub fn answered_count(&self) -> (r: usize)
        requires
            self.wf(),
        ensures
            r == self.answered().len(),
    {
        self.next
    }

    /// Accept `value` as the answer to the next request.
    ///
    /// A blank answer to a required request is refused with that request's
    /// name, and nothing changes; any other answer sets the variable.
    pub fn answer(&mut self, value: String) -> (r: Result<(), CollectError>)
        requires
            old(self).wf(),
            old(self).answered().len() < old(self).requests().len(),
        ensures
            final(self).wf(),
            final(self).requests() == old(self).requests(),
            match r {
                Ok(()) => {
                    &&& !(old(self).requests()[old(self).answered().len() as int].required
                        && is_blank_text(value@))
                    &&& final(self).values() == old(self).values().insert(
                        old(self).requests()[old(self).answered().len() as int].name,
                        value@,
                    )
                    &&& final(self).answered() == old(self).answered().push(value@)
                    &&& collect_spec(final(self).requests(), final(self).answered()) == Ok::<
                        Map<Seq<char>, Seq<char>>,
                        Seq<char>,
                    >(final(self).values())
                },
                Err(CollectError::RequiredFieldEmpty { name }) => {
                    &&& name@ == old(self).requests()[old(self).answered().len() as int].name
                    &&& old(self).requests()[old(self).answered().len() as int].required
                    &&& is_blank_text(value@)
                    &&& *final(self) == *old(self)
                    &&& collect_spec(old(self).requests(), old(self).answered().push(value@))
                        == Err::<Map<Seq<char>, Seq<char>>, Seq<char>>(name@)
                },
            },
    {
        let i = self.next;
        let n = self.requests.len();
        assert(i < n);
        let ghost answers = self.answered@.push(value@);
        assert(answers.drop_last() =~= self.answered@);
        assert(self.requests()[i as int] == self.requests@[i as int]@);
        if self.requests[i].required && is_blank(value.as_str()) {
            let name = self.requests[i].name.clone();
            return Err(CollectError::RequiredFieldEmpty { name });
        }
        let name = self.requests[i].name.clone();
        self.values.insert(name, value);
        self.next = i + 1;
        self.answered = Ghost(answers);
        Ok(())
    }
}

} // verus!
