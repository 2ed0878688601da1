use ptmp::cli::Commands;
use ptmp::components::{component_for_command, components, find_field_def, known_fields};
use std::path::PathBuf;

#[test]
fn component_for_command_taskfile() {
    let cmd = Commands::Taskfile;
    let comp = component_for_command(&cmd).expect("Taskfile should resolve");
    assert_eq!(comp.name, "taskfile");
    assert_eq!(comp.output_path, "Taskfile.yml");
}

#[test]
fn component_for_command_all_emit_variants() {
    let cases: &[(Commands, &str)] = &[
        (Commands::Taskfile, "taskfile"),
        (Commands::Latex, "latex"),
        (Commands::Makefile, "makefile"),
        (Commands::Readme, "readme"),
        (Commands::R, "r"),
        (Commands::Julia, "julia"),
        (Commands::ProjectToml, "project-toml"),
    ];
    for (cmd, expected_name) in cases {
        let comp = component_for_command(cmd)
            .unwrap_or_else(|| panic!("Expected component for {expected_name}"));
        assert_eq!(comp.name, *expected_name);
    }
}

#[test]
fn component_for_command_init_returns_none() {
    let cmd = Commands::Init {
        template_path: PathBuf::from("/tmp"),
    };
    assert!(component_for_command(&cmd).is_none());
}

#[test]
fn component_for_command_new_returns_none() {
    let cmd = Commands::New {
        template_path: PathBuf::from("/tmp"),
        destination: PathBuf::from("/tmp/out"),
        project_name: None,
    };
    assert!(component_for_command(&cmd).is_none());
}

#[test]
fn known_fields_covers_all_component_fields() {
    for comp in components() {
        for &field_name in comp.fields {
            let found = known_fields().iter().any(|f| f.name == field_name);
            assert!(
                found,
                "Component '{}' references field '{}' not in KNOWN_FIELDS",
                comp.name, field_name
            );
        }
    }
}

#[test]
fn every_file_command_has_a_component() {
    let cases: &[(Commands, &str, &str)] = &[
        (Commands::Slurm, "slurm", "example.slurm"),
        (Commands::Gitignore, "gitignore", ".gitignore"),
        (Commands::Editorconfig, "editorconfig", ".editorconfig"),
        (Commands::Citation, "citation", "CITATION.cff"),
        (Commands::License, "license", "LICENSE"),
        (Commands::Quarto, "quarto", "report.qmd"),
        (Commands::Slides, "slides", "slides.qmd"),
    ];
    for (cmd, name, path) in cases {
        let comp = component_for_command(cmd).unwrap_or_else(|| panic!("Expected component for {name}"));
        assert_eq!(comp.name, *name);
        assert_eq!(comp.output_path, *path);
    }
}

#[test]
fn component_output_paths_and_fields() {
    let latex = component_for_command(&Commands::Latex).unwrap();
    assert_eq!(latex.output_path, "main.tex");
    assert_eq!(latex.fields, &["title", "author", "affiliation"]);
    let makefile = component_for_command(&Commands::Makefile).unwrap();
    assert_eq!(makefile.fields, &["main_file", "latex_engine"]);
    let r = component_for_command(&Commands::R).unwrap();
    assert_eq!(r.output_path, "R/example.R");
    let julia = component_for_command(&Commands::Julia).unwrap();
    assert_eq!(julia.output_path, "src/example.jl");
    let toml = component_for_command(&Commands::ProjectToml).unwrap();
    assert_eq!(toml.output_path, "Project.toml");
    let readme = component_for_command(&Commands::Readme).unwrap();
    assert_eq!(readme.output_path, "README.md");
}

#[test]
fn registry_names_are_distinct() {
    let reg = components();
    assert_eq!(reg.len(), 14);
    for i in 0..reg.len() {
        for j in (i + 1)..reg.len() {
            assert_ne!(reg[i].name, reg[j].name);
        }
    }
}

#[test]
fn find_field_def_finds_known_and_rejects_unknown() {
    let defs = known_fields();
    let title = find_field_def(&defs, "title").unwrap();
    assert_eq!(title.prompt, "Project title");
    assert_eq!(title.default, "My Analysis");
    assert!(title.required);
    let aff = find_field_def(&defs, "affiliation").unwrap();
    assert!(!aff.required);
    assert_eq!(aff.default, "");
    assert!(find_field_def(&defs, "nope").is_none());
    assert!(find_field_def(&defs, "").is_none());
}
