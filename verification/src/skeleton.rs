use crate::components::{lemma_components_write_their_files, spec_components};
use crate::templates;
use vstd::prelude::*;

verus! {

/// A file of the default template skeleton: its path relative to the
/// template root, with `/` between directories, and its contents.
#[derive(Clone, Copy, Debug)]
pub struct SkeletonFile {
    pub path: &'static str,
    pub contents: &'static str,
}

/// The subdirectories of the default template skeleton, in creation order.
pub open spec fn spec_skeleton_dirs() -> Seq<Seq<char>> {
    seq!["src"@, "figures"@, "R"@, "output"@, "notes"@]
}

/// The files of the default template skeleton, as (path, contents), in
/// writing order.
pub open spec fn spec_skeleton_files() -> Seq<(Seq<char>, Seq<char>)> {
    seq![
        (".here"@, ""@),
        ("README.md"@, templates::README@),
        ("main.tex"@, templates::MAIN_TEX@),
        ("references.bib"@, templates::REFERENCES_BIB@),
        ("R/example.R"@, templates::R_EXAMPLE@),
        ("fields.toml"@, templates::FIELDS_TOML@),
        ("Makefile"@, templates::MAKEFILE@),
        ("Project.toml"@, templates::PROJECT_TOML@),
        ("src/example.jl"@, templates::JULIA_EXAMPLE@),
        ("Taskfile.yml"@, templates::TASKFILE@),
    ]
}

/// The subdirectories created inside a new default template.
pub fn skeleton_dirs() -> (r: Vec<&'static str>)
    ensures
        r@.map_values(|d: &str| d@) == spec_skeleton_dirs(),
{
    let r = vec!["src", "figures", "R", "output", "notes"];
    assert(r@.map_values(|d: &str| d@) =~= spec_skeleton_dirs());
    r
}

/// The files written into a new default template.
pub fn skeleton_files() -> (r: Vec<SkeletonFile>)
    ensures
        r@.map_values(|f: SkeletonFile| (f.path@, f.contents@)) == spec_skeleton_files(),
{
    let r = vec![
        SkeletonFile { path: ".here", contents: "" },
        SkeletonFile { path: "README.md", contents: templates::README },
        SkeletonFile { path: "main.tex", contents: templates::MAIN_TEX },
        SkeletonFile { path: "references.bib", contents: templates::REFERENCES_BIB },
        SkeletonFile { path: "R/example.R", contents: templates::R_EXAMPLE },
        SkeletonFile { path: "fields.toml", contents: templates::FIELDS_TOML },
        SkeletonFile { path: "Makefile", contents: templates::MAKEFILE },
        SkeletonFile { path: "Project.toml", contents: templates::PROJECT_TOML },
        SkeletonFile { path: "src/example.jl", contents: templates::JULIA_EXAMPLE },
        SkeletonFile { path: "Taskfile.yml", contents: templates::TASKFILE },
    ];
    assert(r@.map_values(|f: SkeletonFile| (f.path@, f.contents@)) =~= spec_skeleton_files());
    r
}

/// The directory part of a skeleton path: what precedes its last `/`, if
/// it has one.
pub open spec fn parent_of(path: Seq<char>) -> Option<Seq<char>>
    decreases path.len(),
{
    if path.len() == 0 {
        None
    } else if path.last() == '/' {
        Some(path.drop_last())
    } else {
        parent_of(path.drop_last())
    }
}

/// Every skeleton file that lies in a subdirectory lies in one that the
/// skeleton creates, so writing the files never needs another directory.
pub proof fn lemma_skeleton_files_have_dirs()
    ensures
        forall|i: int|
            0 <= i < spec_skeleton_files().len() ==> (#[trigger] parent_of(
                spec_skeleton_files()[i].0,
            ) matches Some(d) ==> spec_skeleton_dirs().contains(d)),
{
    reveal_strlit(".here");
    reveal_strlit("README.md");
    reveal_strlit("main.tex");
    reveal_strlit("references.bib");
    reveal_strlit("R/example.R");
    reveal_strlit("fields.toml");
    reveal_strlit("Makefile");
    reveal_strlit("Project.toml");
    reveal_strlit("src/example.jl");
    reveal_strlit("Taskfile.yml");
    reveal_strlit("src");
    reveal_strlit("R");
    reveal_with_fuel(parent_of, 16);
    let files = spec_skeleton_files();
    let dirs = spec_skeleton_dirs();
    assert(parent_of(files[4].0) == Some("R"@)) by {
        assert(files[4].0.subrange(0, 1) =~= "R"@);
    }
    assert(dirs[2] == "R"@);
    assert(parent_of(files[8].0) == Some("src"@)) by {
        assert(files[8].0.subrange(0, 3) =~= "src"@);
    }
    assert(dirs[0] == "src"@);
}

/// Each file of the default template is written with the text that file
/// starts out with: `main.tex` with the LaTeX manuscript, `README.md` with
/// the README, and so on for every path.
pub proof fn lemma_skeleton_files_hold_their_texts()
    ensures
        forall|i: int|
            0 <= i < spec_skeleton_files().len() ==> templates::starting_text(
                #[trigger] spec_skeleton_files()[i].0,
            ) == Some(spec_skeleton_files()[i].1),
{
    templates::lemma_starting_texts();
    let files = spec_skeleton_files();
    assert(templates::starting_text(files[0].0) == Some(files[0].1));
    assert(templates::starting_text(files[1].0) == Some(files[1].1));
    assert(templates::starting_text(files[2].0) == Some(files[2].1));
    assert(templates::starting_text(files[3].0) == Some(files[3].1));
    assert(templates::starting_text(files[4].0) == Some(files[4].1));
    assert(templates::starting_text(files[5].0) == Some(files[5].1));
    assert(templates::starting_text(files[6].0) == Some(files[6].1));
    assert(templates::starting_text(files[7].0) == Some(files[7].1));
    assert(templates::starting_text(files[8].0) == Some(files[8].1));
    assert(templates::starting_text(files[9].0) == Some(files[9].1));
}

/// A file that both `ptmp init` and an emit command write gets the same text
/// from both.
pub proof fn lemma_skeleton_agrees_with_components()
    ensures
        forall|i: int, j: int|
            0 <= i < spec_skeleton_files().len() && 0 <= j < spec_components().len()
                && #[trigger] spec_skeleton_files()[i].0 == #[trigger] spec_components()[j].output_path
                ==> spec_skeleton_files()[i].1 == spec_components()[j].template,
{
    lemma_skeleton_files_hold_their_texts();
    lemma_components_write_their_files();
}

} // verus!
