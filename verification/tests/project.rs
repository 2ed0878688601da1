use ptmp::project::{
    destination_step, output_step, project_name_for_component, project_name_for_new,
    DestinationStep, OutputStep,
};
use ptmp::skeleton::{skeleton_dirs, skeleton_files};

#[test]
fn component_project_name_is_sanitized() {
    assert_eq!(project_name_for_component(Some("my:proj*")), "myproj");
    assert_eq!(project_name_for_component(Some("plain")), "plain");
    assert_eq!(project_name_for_component(None), "project");
}

#[test]
fn new_project_name_prefers_given_name() {
    assert_eq!(project_name_for_new(Some("a/b"), Some("dest")), "ab");
    assert_eq!(project_name_for_new(None, Some("dest?")), "dest");
    assert_eq!(project_name_for_new(None, None), "new_project");
    assert_eq!(project_name_for_new(Some(".."), Some("dest")), "");
}

#[test]
fn destination_steps() {
    assert_eq!(destination_step(false, true), DestinationStep::Create);
    assert_eq!(destination_step(false, false), DestinationStep::Create);
    assert_eq!(destination_step(true, false), DestinationStep::Confirm);
    assert_eq!(destination_step(true, true), DestinationStep::Ready);
}

#[test]
fn skeleton_lists_dirs_and_files() {
    let dirs = skeleton_dirs();
    for d in ["src", "figures", "R", "output", "notes"] {
        assert!(dirs.contains(&d), "missing subdirectory: {d}");
    }
    let files: Vec<&str> = skeleton_files().iter().map(|f| f.path).collect();
    for name in [
        "README.md",
        "main.tex",
        "Makefile",
        "Taskfile.yml",
        "fields.toml",
        "Project.toml",
        "references.bib",
        ".here",
        "R/example.R",
        "src/example.jl",
    ] {
        assert!(files.contains(&name), "missing file: {name}");
    }
}

#[test]
fn plain_names_keep_all_other_characters() {
    assert_eq!(project_name_for_new(Some("Study 2024 (draft)"), None), "Study 2024 (draft)");
    assert_eq!(project_name_for_new(None, Some("a\u{1}b|c")), "abc");
}

#[test]
fn output_steps() {
    assert_eq!(output_step(true), OutputStep::Confirm);
    assert_eq!(output_step(false), OutputStep::Write);
}
