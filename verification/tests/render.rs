use chrono::Datelike;
use ptmp::date::LocalDate;
use ptmp::fields::FieldValues;
use ptmp::render::{
    is_manifest_file, make_tera_context, render_or_copy_file, render_template, template_entry_step,
    EntryStep, FileOutcome, RenderError,
};

fn today() -> LocalDate {
    let now = chrono::Local::now();
    LocalDate::new(now.year(), now.month(), now.day()).unwrap()
}

fn date(y: i32, m: u32, d: u32) -> LocalDate {
    LocalDate::new(y, m, d).unwrap()
}

fn simple_ctx() -> tera::Context {
    let mut vals = FieldValues::new();
    vals.insert("title".to_string(), "Test Title".to_string());
    make_tera_context(vals, "test_project", today())
}

#[test]
fn make_tera_context_injects_builtins() {
    let ctx = make_tera_context(FieldValues::new(), "myproject", today());
    let json = ctx.clone().into_json();
    assert_eq!(json["project_name"], "myproject");
    let today = json["today"].as_str().unwrap();
    assert!(today.len() == 10, "today should be YYYY-MM-DD, got {today}");
    assert!(today.chars().nth(4) == Some('-'));
    let year = json["year"].as_str().unwrap();
    assert_eq!(year.len(), 4);
}

#[test]
fn make_tera_context_preserves_user_values() {
    let mut vals = FieldValues::new();
    vals.insert("author".to_string(), "Jane Doe".to_string());
    let ctx = make_tera_context(vals, "proj", today());
    let json = ctx.into_json();
    assert_eq!(json["author"], "Jane Doe");
}

#[test]
fn make_tera_context_builtins_replace_user_values() {
    let mut vals = FieldValues::new();
    vals.insert("year".to_string(), "1999".to_string());
    vals.insert("project_name".to_string(), "old".to_string());
    let ctx = make_tera_context(vals, "new", date(2024, 5, 6));
    let json = ctx.into_json();
    assert_eq!(json["year"], "2024");
    assert_eq!(json["today"], "2024-05-06");
    assert_eq!(json["project_name"], "new");
}

#[test]
fn render_or_copy_file_renders_template() {
    let out = render_or_copy_file(Some("file.md"), b"# {{ title }}", &simple_ctx(), true).unwrap();
    match out {
        FileOutcome::Rendered(s) => assert_eq!(s, "# Test Title"),
        other => panic!("expected rendering, got {other:?}"),
    }
}

#[test]
fn render_or_copy_file_skips_fields_toml() {
    let out = render_or_copy_file(Some("fields.toml"), b"[[fields]]", &simple_ctx(), true).unwrap();
    assert!(matches!(out, FileOutcome::Skipped), "fields.toml should not be copied to destination");
}

#[test]
fn render_or_copy_file_copies_without_rendering() {
    let raw = "{{ title }} is not rendered";
    let out = render_or_copy_file(Some("file.txt"), raw.as_bytes(), &simple_ctx(), false).unwrap();
    assert!(matches!(out, FileOutcome::Copied));
}

#[test]
fn render_or_copy_file_binary_copy() {
    let bytes: Vec<u8> = vec![0x89, 0x50, 0x4e, 0x47, 0xff, 0xfe];
    let out = render_or_copy_file(Some("image.png"), &bytes, &simple_ctx(), true).unwrap();
    assert!(matches!(out, FileOutcome::Copied));
}

#[test]
fn render_or_copy_file_reports_bad_template() {
    let out = render_or_copy_file(Some("bad.md"), b"{{ unclosed", &simple_ctx(), true);
    assert!(out.is_err());
}

#[test]
fn manifest_name_is_exact() {
    assert!(is_manifest_file(Some("fields.toml")));
    assert!(!is_manifest_file(Some("fields.toml.bak")));
    assert!(!is_manifest_file(Some("Fields.toml")));
    assert!(!is_manifest_file(None));
}

#[test]
fn text_without_braces_renders_to_itself() {
    let ctx = simple_ctx();
    for t in ["", "plain", "line\r\nnext\n", "  spaced  \n\n", "% comment } and #", "ünïcode"] {
        assert_eq!(render_template(t, &ctx).unwrap(), t);
    }
}

#[test]
fn render_template_uses_builtins() {
    let ctx = make_tera_context(FieldValues::new(), "demo", date(2024, 1, 2));
    assert_eq!(render_template("{{ project_name }} {{ year }}", &ctx).unwrap(), "demo 2024");
}

#[test]
fn template_entry_steps() {
    assert_eq!(template_entry_step(true, true), EntryStep::Ignore);
    assert_eq!(template_entry_step(false, true), EntryStep::CreateDir);
    assert_eq!(template_entry_step(false, false), EntryStep::ProcessFile);
}

#[test]
fn undefined_variable_fails() {
    let out = render_or_copy_file(Some("a.md"), b"# {{ nowhere }}", &simple_ctx(), true);
    assert!(out.is_err());
    assert!(render_template("{{ nowhere }}", &simple_ctx()).is_err());
}

#[test]
fn simple_templates_substitute_variables() {
    let mut vals = FieldValues::new();
    vals.insert("title".to_string(), "T {{ x }} %}".to_string());
    vals.insert("author".to_string(), "A".to_string());
    let ctx = make_tera_context(vals, "p", date(2024, 1, 2));
    assert_eq!(
        render_template("\\title{ {{ title }} } by {{ author }}{{ year }}}", &ctx).unwrap(),
        "\\title{ T {{ x }} %} } by A2024}"
    );
}

#[test]
fn builtin_templates_render_with_all_fields() {
    let mut vals = FieldValues::new();
    for f in ["title", "author", "affiliation", "main_file", "latex_engine"] {
        vals.insert(f.to_string(), format!("<{f}>"));
    }
    let ctx = make_tera_context(vals, "proj", date(2024, 1, 2));
    for c in ptmp::components::components() {
        let out = render_template(c.template, &ctx).unwrap();
        assert!(!out.contains("{{"), "{}", c.name);
    }
}

#[test]
fn make_tera_context_formats_the_date() {
    let json = make_tera_context(FieldValues::new(), "p", date(987, 3, 9)).into_json();
    assert_eq!(json["today"], "0987-03-09");
    assert_eq!(json["year"], "0987");
    let json = make_tera_context(FieldValues::new(), "p", date(2025, 12, 31)).into_json();
    assert_eq!(json["today"], "2025-12-31");
    assert_eq!(json["year"], "2025");
}

#[test]
fn today_matches_the_clock() {
    let now = chrono::Local::now();
    let json = make_tera_context(FieldValues::new(), "p", today()).into_json();
    assert_eq!(json["today"], now.format("%Y-%m-%d").to_string());
    assert_eq!(json["year"], now.format("%Y").to_string());
}

#[test]
fn unchecked_templates_are_refused() {
    let ctx = simple_ctx();
    for t in ["{{ title | upper }}", "{{ 1.0 }}", "{{ now() }}", "{{- title -}}", "{{ a + b }}"] {
        assert!(matches!(render_template(t, &ctx), Err(RenderError::Unsupported)), "{t}");
    }
    let out = render_or_copy_file(Some("a.md"), b"x {{ 1e400 }}", &ctx, true);
    assert!(matches!(out, Err(RenderError::Unsupported)));
}

#[test]
fn checked_templates_with_blocks_render() {
    let ctx = simple_ctx();
    let t = "{% if title %}T={{ title }}{% endif %}{# note #}";
    assert_eq!(render_template(t, &ctx).unwrap(), "T=Test Title");
    assert_eq!(render_template("{{title}}", &ctx).unwrap(), "Test Title");
}

#[test]
fn boolean_prefixed_name_is_refused_by_the_engine() {
    let mut vals = FieldValues::new();
    vals.insert("true_x".to_string(), "v".to_string());
    let ctx = make_tera_context(vals, "p", date(2024, 1, 2));
    assert!(matches!(render_template("{{ true_x }}", &ctx), Err(RenderError::Template { .. })));
}
