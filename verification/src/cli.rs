use std::path::PathBuf;
use vstd::prelude::*;

verus! {

/// A filesystem path, carried through the command model unchanged.
#[verifier::external_type_specification]
#[verifier::external_body]
pub struct ExPathBuf(PathBuf);

/// The parsed command line: one subcommand.
#[derive(Debug)]
pub struct Cli {
    pub command: Commands,
}

/// The subcommands of the tool.
#[derive(Debug)]
pub enum Commands {
    /// Initialize a default template skeleton at the given path
    Init { template_path: PathBuf },
    /// Create a new project from a template directory
    New { template_path: PathBuf, destination: PathBuf, project_name: Option<String> },
    /// Emit a Taskfile.yml into the current directory
    Taskfile,
    /// Emit a main.tex into the current directory
    Latex,
    /// Emit a Makefile into the current directory
    Makefile,
    /// Emit a README.md into the current directory
    Readme,
    /// Emit R/example.R into the current directory
    R,
    /// Emit src/example.jl into the current directory
    Julia,
    /// Emit a Project.toml into the current directory
    ProjectToml,
    /// Emit an example.slurm job script into the current directory
    Slurm,
    /// Emit a .gitignore into the current directory
    Gitignore,
    /// Emit an .editorconfig into the current directory
    Editorconfig,
    /// Emit a CITATION.cff into the current directory
    Citation,
    /// Emit an MIT LICENSE into the current directory
    License,
    /// Emit a Quarto report (report.qmd) into the current directory
    Quarto,
    /// Emit a Quarto revealjs slide deck (slides.qmd) into the current directory
    Slides,
}

} // verus!
