use crate::fields::{entries_map, keys_distinct, lemma_push_entries_map, FieldValues};
use crate::date::{format_iso_date, format_year, iso_date, year_text, LocalDate};
use crate::template::{
    is_checked_template, is_simple_template, lemma_brace_free_checked, lemma_simple_template_checked, pieces_source, simple_rendering, template_is_checked,
    TemplatePiece,
};
use crate::text::str_eq;
use crate::utf8::is_text_utf8;
use vstd::prelude::*;
use vstd::utf8::{decode_utf8, valid_utf8};

verus! {

/// The variables of a template rendering context (`tera::Context`).
#[verifier::external_type_specification]
#[verifier::external_body]
pub struct ExContext(tera::Context);

/// A template parsing or rendering failure (`tera::Error`).
#[verifier::external_type_specification]
#[verifier::external_body]
pub struct ExTeraError(tera::Error);

/// The string variables that a rendering context holds, by name.
pub uninterp spec fn context_entries(ctx: tera::Context) -> Map<Seq<char>, Seq<char>>;

/// Whether every variable of a rendering context holds a string.
pub uninterp spec fn context_only_strings(ctx: tera::Context) -> bool;

/// `tera::Context::new`: a context that holds no variables.
#[verifier::external_body]
fn context_new() -> (r: tera::Context)
    ensures
        context_entries(r).dom() == Set::<Seq<char>>::empty(),
        context_only_strings(r),
{
    tera::Context::new()
}

/// `tera::Context::insert` with a string value: sets the variable `key` to
/// `value`, replacing an earlier value of `key`. A context whose variables
/// all held strings still does.
#[verifier::external_body]
fn context_insert(ctx: &mut tera::Context, key: &str, value: &str)
    ensures
        context_entries(*final(ctx)) == context_entries(*old(ctx)).insert(key@, value@),
        context_only_strings(*old(ctx)) ==> context_only_strings(*final(ctx)),
{
    ctx.insert(key, value)
}

/// What the template engine makes of a checked template (see
/// [`crate::template::is_checked_template`]) rendered with string variables:
/// the output text, or `None` where the engine refuses the template or
/// misses a variable.
pub uninterp spec fn tera_rendering(template: Seq<char>, vars: Map<Seq<char>, Seq<char>>) -> Option<
    Seq<char>,
>;

/// `tera::Tera::one_off` without autoescaping: parses `template` and renders
/// it with the variables of `ctx`.
///
/// Only checked templates are handed to it: they hold no number literal,
/// no arithmetic, no filter and no function call, so the engine's float
/// handling (which panics on an infinite value) is never reached, and
/// `now()`, `get_random()` and `get_env()` cannot be called. With a context
/// of string variables the output is then a function of the template text
/// and the variables alone, named `tera_rendering`.
///
/// Two facts of that function are stated: a text without `{` holds no tag
/// and renders to itself; a template made only of text and `{{ name }}` tags
/// of plain variable names (see [`crate::template`]) gives the text with each
/// tag replaced by its variable's string, and fails when a variable is not
/// defined.
#[verifier::external_body]
fn tera_one_off(template: &str, ctx: &tera::Context) -> (r: Result<String, tera::Error>)
    requires
        is_checked_template(template@),
    ensures
        context_only_strings(*ctx) ==> match tera_rendering(template@, context_entries(*ctx)) {
            Some(out) => r is Ok && r->Ok_0@ == out,
            None => r is Err,
        },
        !template@.contains('{') ==> (r is Ok && r->Ok_0@ == template@),
        forall|ps: Seq<TemplatePiece>|
            #[trigger] pieces_source(ps) == template@ && is_simple_template(ps)
                && context_only_strings(*ctx) ==> match simple_rendering(
                ps,
                context_entries(*ctx),
            ) {
                Some(out) => r is Ok && r->Ok_0@ == out,
                None => r is Err,
            },
{
    tera::Tera::one_off(template, ctx, false)
}

/// `std::str::from_utf8` on well-formed UTF-8: the text that `bytes`
/// encode.
#[verifier::external_body]
fn str_from_utf8(bytes: &[u8]) -> (r: &str)
    requires
        valid_utf8(bytes@),
    ensures
        r@ == decode_utf8(bytes@),
{
    std::str::from_utf8(bytes).unwrap()
}

/// Why a template could not be rendered.
#[derive(Debug)]
pub enum RenderError {
    /// The template is not a checked template (see
    /// [`crate::template::is_checked_template`]): it uses numbers,
    /// arithmetic, filters, function calls, indexing or quoted text, which
    /// this library does not hand to the engine.
    Unsupported,
    /// The template engine refused the template; `detail` is its message.
    Template { detail: String },
}

/// The variables of the rendering context: the collected values, then the
/// built-in `project_name`, `today` and `year`, which replace collected values
/// of the same names.
pub open spec fn context_with_builtins(
    values: Map<Seq<char>, Seq<char>>,
    project_name: Seq<char>,
    today: Seq<char>,
    year: Seq<char>,
) -> Map<Seq<char>, Seq<char>> {
    values.insert("project_name"@, project_name).insert("today"@, today).insert("year"@, year)
}

/// The built-in variables hold the given values, and every other variable
/// holds exactly the collected value, if any.
pub proof fn lemma_context_builtins(
    values: Map<Seq<char>, Seq<char>>,
    project_name: Seq<char>,
    today: Seq<char>,
    year: Seq<char>,
)
    ensures
        ({
            let c = context_with_builtins(values, project_name, today, year);
            &&& c.dom().contains("project_name"@) && c["project_name"@] == project_name
            &&& c.dom().contains("today"@) && c["today"@] == today
            &&& c.dom().contains("year"@) && c["year"@] == year
            &&& forall|k: Seq<char>|
                k != "project_name"@ && k != "today"@ && k != "year"@ ==> (#[trigger] c.dom().contains(k)
                    == values.dom().contains(k) && (values.dom().contains(k) ==> c[k] == values[k]))
        }),
{
    reveal_strlit("project_name");
    reveal_strlit("today");
    reveal_strlit("year");
    assert("project_name"@.len() == 12);
    assert("project_name"@ != "today"@);
    assert("project_name"@ != "year"@);
    assert("today"@.len() == 5 && "year"@.len() == 4);
    assert("today"@ != "year"@);
}

/// Build the rendering context from collected field values.
///
/// Injects the built-in variables `project_name`, `today` (the date as
/// `YYYY-MM-DD`) and `year` (its year), in addition to the collected values.
/// Every variable holds a string.
pub fn make_tera_context(values: FieldValues, project_name: &str, date: LocalDate) -> (r:
    tera::Context)
    ensures
        context_entries(r) == context_with_builtins(
            values@,
            project_name@,
            iso_date(date),
            year_text(date.year()),
        ),
        context_only_strings(r),
{
    let today = format_iso_date(&date);
    let year = format_year(&date);
    let entries = values.entries();
    let mut ctx = context_new();
    let n = entries.len();
    for i in 0..n
        invariant
            n == entries@.len(),
            keys_distinct(entries@),
            entries_map(entries@) == values@,
            context_entries(ctx) == entries_map(entries@.take(i as int)),
            context_only_strings(ctx),
    {
        proof {
            let s = entries@;
            let prefix = s.take(i as int);
            assert(keys_distinct(prefix));
            assert forall|j: int| 0 <= j < prefix.len() implies #[trigger] prefix[j].0@ != s[i as int].0@ by {
                assert(s[j].0@ != s[i as int].0@);
            }
            lemma_push_entries_map(prefix, s[i as int].0, s[i as int].1);
            assert(s.take(i + 1) =~= prefix.push(s[i as int]));
        }
        context_insert(&mut ctx, entries[i].0.as_str(), entries[i].1.as_str());
    }
    assert(entries@.take(n as int) =~= entries@);
    context_insert(&mut ctx, "project_name", project_name);
    context_insert(&mut ctx, "today", today.as_str());
    context_insert(&mut ctx, "year", year.as_str());
    ctx
}

/// Render `template` with the variables of `ctx`.
///
/// Only checked templates are rendered (see
/// [`crate::template::is_checked_template`]); any other template is refused
/// with [`RenderError::Unsupported`]. A checked template, rendered with string
/// variables, gives what the engine makes of it (`tera_rendering`); a text
/// without `{` renders to itself, and templates made of text and
/// `{{ name }}` tags render as [`crate::template::simple_rendering`] says.
pub fn render_template(template: &str, ctx: &tera::Context) -> (r: Result<String, RenderError>)
    ensures
        (r matches Err(RenderError::Unsupported)) <==> !is_checked_template(template@),
        is_checked_template(template@) && context_only_strings(*ctx) ==> match tera_rendering(
            template@,
            context_entries(*ctx),
        ) {
            Some(out) => r matches Ok(s) && s@ == out,
            None => r matches Err(RenderError::Template { .. }),
        },
        !template@.contains('{') ==> (r matches Ok(s) && s@ == template@),
        forall|ps: Seq<TemplatePiece>|
            #[trigger] pieces_source(ps) == template@ && is_simple_template(ps)
                && context_only_strings(*ctx) ==> match simple_rendering(
                ps,
                context_entries(*ctx),
            ) {
                Some(out) => r matches Ok(s) && s@ == out,
                None => r matches Err(RenderError::Template { .. }),
            },
{
    if !template_is_checked(template) {
        proof {
            if !template@.contains('{') {
                lemma_brace_free_checked(template@);
            }
            assert forall|ps: Seq<TemplatePiece>|
                #[trigger] pieces_source(ps) == template@ implies !is_simple_template(ps) by {
                if is_simple_template(ps) {
                    lemma_simple_template_checked(ps);
                }
            }
        }
        return Err(RenderError::Unsupported);
    }
    match tera_one_off(template, ctx) {
        Ok(s) => Ok(s),
        Err(e) => Err(RenderError::Template { detail: e.to_string() }),
    }
}

/// What becomes of one file of a template directory.
#[derive(Debug)]
pub enum FileOutcome {
    /// The file is the template's manifest and is not copied.
    Skipped,
    /// The file is copied byte for byte.
    Copied,
    /// The file is written with this rendered text.
    Rendered(String),
}

/// What to do with one entry met while walking a template directory.
#[derive(Debug, PartialEq, Eq, Structural)]
pub enum EntryStep {
    /// The entry is the template root itself: nothing to do.
    Ignore,
    /// The entry is a subdirectory: create it at the destination.
    CreateDir,
    /// The entry is a file: render or copy it, see [`render_or_copy_file`].
    ProcessFile,
}

/// Decide what to do with an entry of a template directory.
pub fn template_entry_step(is_root: bool, is_dir: bool) -> (r: EntryStep)
    ensures
        is_root ==> r == EntryStep::Ignore,
        !is_root && is_dir ==> r == EntryStep::CreateDir,
        !is_root && !is_dir ==> r == EntryStep::ProcessFile,
{
    if is_root {
        EntryStep::Ignore
    } else if is_dir {
        EntryStep::CreateDir
    } else {
        EntryStep::ProcessFile
    }
}

/// Whether a file of this name is the manifest of a template.
pub open spec fn is_manifest_name(file_name: Option<&str>) -> bool {
    file_name matches Some(n) && n@ == "fields.toml"@
}

/// Only a file named exactly `fields.toml` is a manifest: every other file
/// of a template directory, hidden files such as `.gitignore` among them,
/// goes into the new project.
pub proof fn lemma_only_fields_toml_is_manifest(file_name: Option<&str>)
    ensures
        is_manifest_name(file_name) <==> (file_name matches Some(n) && n@ == "fields.toml"@),
{
}

/// Whether `file_name` names the manifest of a template, `fields.toml`.
pub fn is_manifest_file(file_name: Option<&str>) -> (r: bool)
    ensures
        r == is_manifest_name(file_name),
        r <==> (file_name matches Some(n) && n@ == "fields.toml"@),
{
    match file_name {
        Some(n) => str_eq(n, "fields.toml"),
        None => false,
    }
}

/// Process a single file from the template directory, given its name and
/// contents.
///
/// - Skips `fields.toml` entirely.
/// - Renders UTF-8 files when `enable_rendering` is true, as
///   [`render_template`] does: a text that is not a checked template is
///   refused with [`RenderError::Unsupported`].
/// - Copies non-UTF-8 files as they are, and every file when rendering is
///   disabled.
pub fn render_or_copy_file(
    file_name: Option<&str>,
    contents: &[u8],
    tera_ctx: &tera::Context,
    enable_rendering: bool,
) -> (r: Result<FileOutcome, RenderError>)
    ensures
        is_manifest_name(file_name) ==> r matches Ok(FileOutcome::Skipped),
        (r matches Ok(FileOutcome::Skipped)) <==> (file_name matches Some(n) && n@ == "fields.toml"@),
        !(file_name matches Some(n) && n@ == "fields.toml"@) && enable_rendering && valid_utf8(
            contents@,
        ) && !decode_utf8(contents@).contains('{') ==> (r matches Ok(FileOutcome::Rendered(s))
            && s@ == decode_utf8(contents@)),
        !is_manifest_name(file_name) && !(enable_rendering && valid_utf8(contents@)) ==> r matches Ok(
            FileOutcome::Copied,
        ),
        !is_manifest_name(file_name) && enable_rendering && valid_utf8(contents@) ==> ({
            let text = decode_utf8(contents@);
            &&& (r matches Err(RenderError::Unsupported)) <==> !is_checked_template(text)
            &&& is_checked_template(text) && context_only_strings(*tera_ctx) ==> match tera_rendering(
                text,
                context_entries(*tera_ctx),
            ) {
                Some(out) => r matches Ok(FileOutcome::Rendered(s)) && s@ == out,
                None => r matches Err(RenderError::Template { .. }),
            }
            &&& !text.contains('{') ==> (r matches Ok(FileOutcome::Rendered(s)) && s@ == text)
            &&& (r matches Ok(FileOutcome::Rendered(_)) || r is Err)
        }),
        forall|ps: Seq<TemplatePiece>|
            !is_manifest_name(file_name) && enable_rendering && valid_utf8(contents@)
                && #[trigger] pieces_source(ps) == decode_utf8(contents@) && is_simple_template(ps)
                && context_only_strings(*tera_ctx) ==> match simple_rendering(
                ps,
                context_entries(*tera_ctx),
            ) {
                Some(out) => r matches Ok(FileOutcome::Rendered(s)) && s@ == out,
                None => r matches Err(RenderError::Template { .. }),
            },
{
    if is_manifest_file(file_name) {
        return Ok(FileOutcome::Skipped);
    }
    if enable_rendering && is_text_utf8(contents) {
        let text = str_from_utf8(contents);
        match render_template(text, tera_ctx) {
            Ok(s) => Ok(FileOutcome::Rendered(s)),
            Err(e) => Err(e),
        }
    } else {
        Ok(FileOutcome::Copied)
    }
}

} // verus!
