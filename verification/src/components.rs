use crate::cli::Commands;
use crate::templates;
use crate::text::str_eq;
use vstd::prelude::*;

verus! {

/// A template variable that a component may ask for.
#[derive(Clone, Copy, Debug)]
pub struct FieldDef {
    pub name: &'static str,
    pub prompt: &'static str,
    pub default: &'static str,
    pub required: bool,
}

/// What a [`FieldDef`] stands for.
pub struct FieldDefView {
    pub name: Seq<char>,
    pub prompt: Seq<char>,
    pub default: Seq<char>,
    pub required: bool,
}

impl View for FieldDef {
    type V = FieldDefView;

    open spec fn view(&self) -> FieldDefView {
        FieldDefView {
            name: self.name@,
            prompt: self.prompt@,
            default: self.default@,
            required: self.required,
        }
    }
}

/// A single file that can be emitted into the current directory.
#[derive(Clone, Copy, Debug)]
pub struct Component {
    pub name: &'static str,
    pub output_path: &'static str,
    pub template: &'static str,
    pub fields: &'static [&'static str],
}

/// What a [`Component`] stands for.
pub struct ComponentView {
    pub name: Seq<char>,
    pub output_path: Seq<char>,
    pub template: Seq<char>,
    pub fields: Seq<Seq<char>>,
}

impl View for Component {
    type V = ComponentView;

    open spec fn view(&self) -> ComponentView {
        ComponentView {
            name: self.name@,
            output_path: self.output_path@,
            template: self.template@,
            fields: self.fields@.map_values(|f: &str| f@),
        }
    }
}

/// The variables known to the component registry, in registry order.
pub open spec fn spec_known_fields() -> Seq<FieldDefView> {
    seq![
        FieldDefView {
            name: "title"@,
            prompt: "Project title"@,
            default: "My Analysis"@,
            required: true,
        },
        FieldDefView { name: "author"@, prompt: "Author name"@, default: ""@, required: true },
        FieldDefView {
            name: "affiliation"@,
            prompt: "Affiliation (e.g., Institution/Lab)"@,
            default: ""@,
            required: false,
        },
        FieldDefView {
            name: "main_file"@,
            prompt: "Main LaTeX file name"@,
            default: "main.tex"@,
            required: false,
        },
        FieldDefView {
            name: "latex_engine"@,
            prompt: "LaTeX engine (pdf/xelatex/lualatex)"@,
            default: "pdf"@,
            required: true,
        },
    ]
}

/// The registered components, in registry order.
pub open spec fn spec_components() -> Seq<ComponentView> {
    seq![
        ComponentView {
            name: "taskfile"@,
            output_path: "Taskfile.yml"@,
            template: templates::TASKFILE@,
            fields: seq!["title"@, "main_file"@, "latex_engine"@],
        },
        ComponentView {
            name: "latex"@,
            output_path: "main.tex"@,
            template: templates::MAIN_TEX@,
            fields: seq!["title"@, "author"@, "affiliation"@],
        },
        ComponentView {
            name: "makefile"@,
            output_path: "Makefile"@,
            template: templates::MAKEFILE@,
            fields: seq!["main_file"@, "latex_engine"@],
        },
        ComponentView {
            name: "readme"@,
            output_path: "README.md"@,
            template: templates::README@,
            fields: seq!["title"@, "author"@, "affiliation"@],
        },
        ComponentView {
            name: "r"@,
            output_path: "R/example.R"@,
            template: templates::R_EXAMPLE@,
            fields: seq!["title"@, "author"@],
        },
        ComponentView {
            name: "julia"@,
            output_path: "src/example.jl"@,
            template: templates::JULIA_EXAMPLE@,
            fields: seq!["title"@, "author"@],
        },
        ComponentView {
            name: "project-toml"@,
            output_path: "Project.toml"@,
            template: templates::PROJECT_TOML@,
            fields: seq!["title"@, "author"@],
        },
        ComponentView {
            name: "slurm"@,
            output_path: "example.slurm"@,
            template: templates::SLURM@,
            fields: seq!["title"@],
        },
        ComponentView {
            name: "gitignore"@,
            output_path: ".gitignore"@,
            template: templates::GITIGNORE@,
            fields: Seq::<Seq<char>>::empty(),
        },
        ComponentView {
            name: "editorconfig"@,
            output_path: ".editorconfig"@,
            template: templates::EDITORCONFIG@,
            fields: Seq::<Seq<char>>::empty(),
        },
        ComponentView {
            name: "citation"@,
            output_path: "CITATION.cff"@,
            template: templates::CITATION@,
            fields: seq!["title"@, "author"@],
        },
        ComponentView {
            name: "license"@,
            output_path: "LICENSE"@,
            template: templates::LICENSE@,
            fields: seq!["author"@],
        },
        ComponentView {
            name: "quarto"@,
            output_path: "report.qmd"@,
            template: templates::QUARTO@,
            fields: seq!["title"@, "author"@, "affiliation"@],
        },
        ComponentView {
            name: "slides"@,
            output_path: "slides.qmd"@,
            template: templates::SLIDES@,
            fields: seq!["title"@, "author"@],
        },
    ]
}

/// The known template variables.
pub fn known_fields() -> (r: Vec<FieldDef>)
    ensures
        r@.map_values(|d: FieldDef| d@) == spec_known_fields(),
{
    let r = vec![
        FieldDef {
            name: "title",
            prompt: "Project title",
            default: "My Analysis",
            required: true,
        },
        FieldDef { name: "author", prompt: "Author name", default: "", required: true },
        FieldDef {
            name: "affiliation",
            prompt: "Affiliation (e.g., Institution/Lab)",
            default: "",
            required: false,
        },
        FieldDef {
            name: "main_file",
            prompt: "Main LaTeX file name",
            default: "main.tex",
            required: false,
        },
        FieldDef {
            name: "latex_engine",
            prompt: "LaTeX engine (pdf/xelatex/lualatex)",
            default: "pdf",
            required: true,
        },
    ];
    assert(r@.map_values(|d: FieldDef| d@) =~= spec_known_fields());
    r
}

/// The registered components.
pub fn components() -> (r: Vec<Component>)
    ensures
        r@.map_values(|c: Component| c@) == spec_components(),
{
    let r = vec![
        Component {
            name: "taskfile",
            output_path: "Taskfile.yml",
            template: templates::TASKFILE,
            fields: &["title", "main_file", "latex_engine"],
        },
        Component {
            name: "latex",
            output_path: "main.tex",
            template: templates::MAIN_TEX,
            fields: &["title", "author", "affiliation"],
        },
        Component {
            name: "makefile",
            output_path: "Makefile",
            template: templates::MAKEFILE,
            fields: &["main_file", "latex_engine"],
        },
        Component {
            name: "readme",
            output_path: "README.md",
            template: templates::README,
            fields: &["title", "author", "affiliation"],
        },
        Component {
            name: "r",
            output_path: "R/example.R",
            template: templates::R_EXAMPLE,
            fields: &["title", "author"],
        },
        Component {
            name: "julia",
            output_path: "src/example.jl",
            template: templates::JULIA_EXAMPLE,
            fields: &["title", "author"],
        },
        Component {
            name: "project-toml",
            output_path: "Project.toml",
            template: templates::PROJECT_TOML,
            fields: &["title", "author"],
        },
        Component {
            name: "slurm",
            output_path: "example.slurm",
            template: templates::SLURM,
            fields: &["title"],
        },
        Component {
            name: "gitignore",
            output_path: ".gitignore",
            template: templates::GITIGNORE,
            fields: &[],
        },
        Component {
            name: "editorconfig",
            output_path: ".editorconfig",
            template: templates::EDITORCONFIG,
            fields: &[],
        },
        Component {
            name: "citation",
            output_path: "CITATION.cff",
            template: templates::CITATION,
            fields: &["title", "author"],
        },
        Component {
            name: "license",
            output_path: "LICENSE",
            template: templates::LICENSE,
            fields: &["author"],
        },
        Component {
            name: "quarto",
            output_path: "report.qmd",
            template: templates::QUARTO,
            fields: &["title", "author", "affiliation"],
        },
        Component {
            name: "slides",
            output_path: "slides.qmd",
            template: templates::SLIDES,
            fields: &["title", "author"],
        },
    ];
    proof {
        let spec = spec_components();
        assert forall|i: int| 0 <= i < 14 implies #[trigger] r@[i]@ == spec[i] by {
            assert(r@[i].fields@.map_values(|f: &str| f@) =~= spec[i].fields);
        }
        assert(r@.map_values(|c: Component| c@) =~= spec);
    }
    r
}

/// The first component of `reg` at index `from` or later whose name is `name`.
pub open spec fn first_component_named(reg: Seq<ComponentView>, name: Seq<char>, from: int) -> Option<
    ComponentView,
>
    decreases reg.len() - from,
{
    if from < 0 || from >= reg.len() {
        None
    } else if reg[from].name == name {
        Some(reg[from])
    } else {
        first_component_named(reg, name, from + 1)
    }
}

/// The first field definition of `defs` at index `from` or later whose name is `name`.
pub open spec fn first_field_named(defs: Seq<FieldDefView>, name: Seq<char>, from: int) -> Option<
    FieldDefView,
>
    decreases defs.len() - from,
{
    if from < 0 || from >= defs.len() {
        None
    } else if defs[from].name == name {
        Some(defs[from])
    } else {
        first_field_named(defs, name, from + 1)
    }
}

/// The registry name that a command emits, for the commands that emit a
/// registered component.
pub open spec fn command_component_name(cmd: Commands) -> Option<Seq<char>> {
    match cmd {
        Commands::Taskfile => Some("taskfile"@),
        Commands::Latex => Some("latex"@),
        Commands::Makefile => Some("makefile"@),
        Commands::Readme => Some("readme"@),
        Commands::R => Some("r"@),
        Commands::Julia => Some("julia"@),
        Commands::ProjectToml => Some("project-toml"@),
        Commands::Slurm => Some("slurm"@),
        Commands::Gitignore => Some("gitignore"@),
        Commands::Editorconfig => Some("editorconfig"@),
        Commands::Citation => Some("citation"@),
        Commands::License => Some("license"@),
        Commands::Quarto => Some("quarto"@),
        Commands::Slides => Some("slides"@),
        _ => None,
    }
}

/// The component a command emits: the first registered component with the
/// command's registry name.
pub open spec fn spec_component_for_command(cmd: Commands) -> Option<ComponentView> {
    match command_component_name(cmd) {
        Some(name) => first_component_named(spec_components(), name, 0),
        None => None,
    }
}

/// The view of an optional component.
pub open spec fn component_option_view(c: Option<Component>) -> Option<ComponentView> {
    match c {
        Some(c) => Some(c@),
        None => None,
    }
}

/// The view of an optional field definition.
pub open spec fn field_def_option_view(d: Option<FieldDef>) -> Option<FieldDefView> {
    match d {
        Some(d) => Some(d@),
        None => None,
    }
}

/// The first component in `reg` whose name is `name`.
pub fn find_component(reg: &Vec<Component>, name: &str) -> (r: Option<Component>)
    ensures
        component_option_view(r) == first_component_named(
            reg@.map_values(|c: Component| c@),
            name@,
            0,
        ),
{
    let ghost views = reg@.map_values(|c: Component| c@);
    let mut i: usize = 0;
    while i < reg.len()
        invariant
            views == reg@.map_values(|c: Component| c@),
            i <= reg@.len(),
            first_component_named(views, name@, 0) == first_component_named(views, name@, i as int),
        decreases reg@.len() - i,
    {
        if str_eq(reg[i].name, name) {
            return Some(reg[i]);
        }
        i = i + 1;
    }
    None
}

/// The first field definition in `defs` whose name is `name`.
pub fn find_field_def(defs: &Vec<FieldDef>, name: &str) -> (r: Option<FieldDef>)
    ensures
        field_def_option_view(r) == first_field_named(defs@.map_values(|d: FieldDef| d@), name@, 0),
{
    let ghost views = defs@.map_values(|d: FieldDef| d@);
    let mut i: usize = 0;
    while i < defs.len()
        invariant
            views == defs@.map_values(|d: FieldDef| d@),
            i <= defs@.len(),
            first_field_named(views, name@, 0) == first_field_named(views, name@, i as int),
        decreases defs@.len() - i,
    {
        if str_eq(defs[i].name, name) {
            return Some(defs[i]);
        }
        i = i + 1;
    }
    None
}

/// Map a command to its registered [`Component`], if it emits one.
///
/// Returns `None` for `Init` and `New`, which are handled separately.
pub fn component_for_command(cmd: &Commands) -> (r: Option<Component>)
    ensures
        component_option_view(r) == spec_component_for_command(*cmd),
{
    let name = match cmd {
        Commands::Taskfile => "taskfile",
        Commands::Latex => "latex",
        Commands::Makefile => "makefile",
        Commands::Readme => "readme",
        Commands::R => "r",
        Commands::Julia => "julia",
        Commands::ProjectToml => "project-toml",
        Commands::Slurm => "slurm",
        Commands::Gitignore => "gitignore",
        Commands::Editorconfig => "editorconfig",
        Commands::Citation => "citation",
        Commands::License => "license",
        Commands::Quarto => "quarto",
        Commands::Slides => "slides",
        _ => {
            return None;
        },
    };
    let reg = components();
    find_component(&reg, name)
}

/// The registered components have pairwise distinct names.
pub proof fn lemma_component_names_distinct()
    ensures
        forall|i: int, j: int|
            0 <= i < j < spec_components().len() ==> #[trigger] spec_components()[i].name
                != #[trigger] spec_components()[j].name,
{
    reveal_strlit("taskfile");
    reveal_strlit("latex");
    reveal_strlit("makefile");
    reveal_strlit("readme");
    reveal_strlit("r");
    reveal_strlit("julia");
    reveal_strlit("project-toml");
    reveal_strlit("slurm");
    reveal_strlit("gitignore");
    reveal_strlit("editorconfig");
    reveal_strlit("citation");
    reveal_strlit("license");
    reveal_strlit("quarto");
    reveal_strlit("slides");
    let reg = spec_components();
    assert forall|i: int, j: int|
        0 <= i < j < reg.len() implies #[trigger] reg[i].name != #[trigger] reg[j].name by {
        if reg[i].name.len() == reg[j].name.len() {
            assert(reg[i].name[0] != reg[j].name[0]);
        }
    }
}

/// If the first component named `name` at `from` or later is at `k`, the
/// search from `from` finds it.
proof fn lemma_first_component_at(reg: Seq<ComponentView>, name: Seq<char>, from: int, k: int)
    requires
        0 <= from <= k < reg.len(),
        reg[k].name == name,
        forall|j: int| from <= j < k ==> #[trigger] reg[j].name != name,
    ensures
        first_component_named(reg, name, from) == Some(reg[k]),
    decreases k - from,
{
    if from < k {
        lemma_first_component_at(reg, name, from + 1, k);
    }
}

/// Every command other than `Init` and `New` resolves to the registered
/// component of its own name.
pub proof fn lemma_emit_command_resolves(cmd: Commands)
    requires
        command_component_name(cmd) is Some,
    ensures
        spec_component_for_command(cmd) matches Some(c) && c.name == command_component_name(
            cmd,
        )->0,
{
    lemma_component_names_distinct();
    let reg = spec_components();
    let name = command_component_name(cmd)->0;
    let k: int = match cmd {
        Commands::Taskfile => 0,
        Commands::Latex => 1,
        Commands::Makefile => 2,
        Commands::Readme => 3,
        Commands::R => 4,
        Commands::Julia => 5,
        Commands::ProjectToml => 6,
        Commands::Slurm => 7,
        Commands::Gitignore => 8,
        Commands::Editorconfig => 9,
        Commands::Citation => 10,
        Commands::License => 11,
        Commands::Quarto => 12,
        _ => 13,
    };
    assert(reg[k].name == name);
    assert forall|j: int| 0 <= j < k implies #[trigger] reg[j].name != name by {
        assert(reg[j].name != reg[k].name);
    }
    lemma_first_component_at(reg, name, 0, k);
}

/// Exactly `Init` and `New` have no component.
pub proof fn lemma_only_init_and_new_lack_components(cmd: Commands)
    ensures
        (spec_component_for_command(cmd) is None) <==> (cmd is Init || cmd is New),
{
    if command_component_name(cmd) is Some {
        lemma_emit_command_resolves(cmd);
    }
}

/// The known variables have pairwise distinct names.
pub proof fn lemma_known_field_names_distinct()
    ensures
        forall|i: int, j: int|
            0 <= i < j < spec_known_fields().len() ==> #[trigger] spec_known_fields()[i].name
                != #[trigger] spec_known_fields()[j].name,
{
    reveal_strlit("title");
    reveal_strlit("author");
    reveal_strlit("affiliation");
    reveal_strlit("main_file");
    reveal_strlit("latex_engine");
    let defs = spec_known_fields();
    assert forall|i: int, j: int|
        0 <= i < j < defs.len() implies #[trigger] defs[i].name != #[trigger] defs[j].name by {
        if defs[i].name.len() == defs[j].name.len() {
            assert(defs[i].name[0] != defs[j].name[0]);
        }
    }
}

/// Every variable that a registered component asks for is a known variable,
/// so looking it up among the known variables finds its definition.
pub proof fn lemma_component_fields_known()
    ensures
        forall|i: int, j: int|
            0 <= i < spec_components().len() && 0 <= j < spec_components()[i].fields.len() ==> (
            #[trigger] first_field_named(spec_known_fields(), spec_components()[i].fields[j], 0)
                matches Some(d) && d.name == spec_components()[i].fields[j]),
{
    lemma_known_field_names_distinct();
    reveal_with_fuel(first_field_named, 6);
    let defs = spec_known_fields();
    assert(defs[0].name != defs[1].name && defs[0].name != defs[2].name && defs[0].name
        != defs[3].name && defs[0].name != defs[4].name);
    assert(defs[1].name != defs[2].name && defs[1].name != defs[3].name && defs[1].name
        != defs[4].name);
    assert(defs[2].name != defs[3].name && defs[2].name != defs[4].name);
    assert(defs[3].name != defs[4].name);
}

/// The entry of a manifest (`fields.toml`) that declares `d`: its name and
/// prompt, its default when it has a non-empty one, and whether it is
/// required.
pub open spec fn manifest_entry(d: FieldDefView) -> Seq<char> {
    "[[fields]]\nname = \""@ + d.name + "\"\nprompt = \""@ + d.prompt + "\"\n"@ + (if d.default.len()
        == 0 {
        ""@
    } else {
        "default = \""@ + d.default + "\"\n"@
    }) + "required = "@ + (if d.required {
        "true"@
    } else {
        "false"@
    }) + "\n"@
}

/// A manifest declaring `defs`, in order, its entries separated by blank
/// lines.
pub open spec fn manifest_text(defs: Seq<FieldDefView>) -> Seq<char>
    decreases defs.len(),
{
    if defs.len() == 0 {
        Seq::empty()
    } else if defs.len() == 1 {
        manifest_entry(defs[0])
    } else {
        manifest_text(defs.drop_last()) + "\n"@ + manifest_entry(defs.last())
    }
}

/// The variables that the emit commands ask for are those that the default
/// template's manifest declares, with the same prompts, defaults and
/// required flags: a component asks for a field exactly as `ptmp new` on
/// the default template does.
pub proof fn lemma_known_fields_match_default_manifest()
    ensures
        templates::FIELDS_TOML@ == manifest_text(spec_known_fields()),
{
    reveal_strlit("[[fields]]\nname = \"");
    reveal_strlit("\"\nprompt = \"");
    reveal_strlit("\"\n");
    reveal_strlit("default = \"");
    reveal_strlit("required = ");
    reveal_strlit("true");
    reveal_strlit("false");
    reveal_strlit("\n");
    reveal_strlit("");
    reveal_strlit("title");
    reveal_strlit("author");
    reveal_strlit("affiliation");
    reveal_strlit("main_file");
    reveal_strlit("latex_engine");
    reveal_strlit("Project title");
    reveal_strlit("Author name");
    reveal_strlit("Affiliation (e.g., Institution/Lab)");
    reveal_strlit("Main LaTeX file name");
    reveal_strlit("LaTeX engine (pdf/xelatex/lualatex)");
    reveal_strlit("My Analysis");
    reveal_strlit("main.tex");
    reveal_strlit("pdf");
    reveal_strlit("[[fields]]
name = \"title\"
prompt = \"Project title\"
default = \"My Analysis\"
required = true

[[fields]]
name = \"author\"
prompt = \"Author name\"
required = true

[[fields]]
name = \"affiliation\"
prompt = \"Affiliation (e.g., Institution/Lab)\"
required = false

[[fields]]
name = \"main_file\"
prompt = \"Main LaTeX file name\"
default = \"main.tex\"
required = false

[[fields]]
name = \"latex_engine\"
prompt = \"LaTeX engine (pdf/xelatex/lualatex)\"
default = \"pdf\"
required = true
");
    reveal_with_fuel(manifest_text, 6);
    assert(templates::FIELDS_TOML@ == "[[fields]]
name = \"title\"
prompt = \"Project title\"
default = \"My Analysis\"
required = true

[[fields]]
name = \"author\"
prompt = \"Author name\"
required = true

[[fields]]
name = \"affiliation\"
prompt = \"Affiliation (e.g., Institution/Lab)\"
required = false

[[fields]]
name = \"main_file\"
prompt = \"Main LaTeX file name\"
default = \"main.tex\"
required = false

[[fields]]
name = \"latex_engine\"
prompt = \"LaTeX engine (pdf/xelatex/lualatex)\"
default = \"pdf\"
required = true
"@);
    let k = spec_known_fields();
    assert(k.drop_last().drop_last().drop_last().drop_last() =~= seq![k[0]]);
    assert(k.drop_last().drop_last().drop_last().last() == k[1]);
    assert(k.drop_last().drop_last().last() == k[2]);
    assert(k.drop_last().last() == k[3]);
    assert(k.last() == k[4]);
    assert("[[fields]]
name = \"title\"
prompt = \"Project title\"
default = \"My Analysis\"
required = true

[[fields]]
name = \"author\"
prompt = \"Author name\"
required = true

[[fields]]
name = \"affiliation\"
prompt = \"Affiliation (e.g., Institution/Lab)\"
required = false

[[fields]]
name = \"main_file\"
prompt = \"Main LaTeX file name\"
default = \"main.tex\"
required = false

[[fields]]
name = \"latex_engine\"
prompt = \"LaTeX engine (pdf/xelatex/lualatex)\"
default = \"pdf\"
required = true
"@ =~= manifest_entry(k[0]) + "\n"@ + manifest_entry(k[1]) + "\n"@ + manifest_entry(k[2])
        + "\n"@ + manifest_entry(k[3]) + "\n"@ + manifest_entry(k[4]));
}

/// The first component named `name` at `from` or later, if any, is one of
/// the registry's components.
proof fn lemma_first_component_in(reg: Seq<ComponentView>, name: Seq<char>, from: int)
    ensures
        first_component_named(reg, name, from) matches Some(c) ==> exists|k: int|
            0 <= k < reg.len() && reg[k] == c,
    decreases reg.len() - from,
{
    if 0 <= from < reg.len() && reg[from].name != name {
        lemma_first_component_in(reg, name, from + 1);
    }
}

/// Each component writes its file with the text that file starts out with:
/// `main.tex` with the LaTeX manuscript, `README.md` with the README, and so
/// on for every output path.
pub proof fn lemma_components_write_their_files()
    ensures
        forall|i: int|
            0 <= i < spec_components().len() ==> templates::starting_text(
                #[trigger] spec_components()[i].output_path,
            ) == Some(spec_components()[i].template),
{
    templates::lemma_starting_texts();
    let reg = spec_components();
    assert(templates::starting_text(reg[0].output_path) == Some(reg[0].template));
    assert(templates::starting_text(reg[1].output_path) == Some(reg[1].template));
    assert(templates::starting_text(reg[2].output_path) == Some(reg[2].template));
    assert(templates::starting_text(reg[3].output_path) == Some(reg[3].template));
    assert(templates::starting_text(reg[4].output_path) == Some(reg[4].template));
    assert(templates::starting_text(reg[5].output_path) == Some(reg[5].template));
    assert(templates::starting_text(reg[6].output_path) == Some(reg[6].template));
    assert(templates::starting_text(reg[7].output_path) == Some(reg[7].template));
    assert(templates::starting_text(reg[8].output_path) == Some(reg[8].template));
    assert(templates::starting_text(reg[9].output_path) == Some(reg[9].template));
    assert(templates::starting_text(reg[10].output_path) == Some(reg[10].template));
    assert(templates::starting_text(reg[11].output_path) == Some(reg[11].template));
    assert(templates::starting_text(reg[12].output_path) == Some(reg[12].template));
    assert(templates::starting_text(reg[13].output_path) == Some(reg[13].template));
}

/// The component that a command emits writes its output file with the text
/// that file starts out with; `ptmp latex`, for one, writes `main.tex` with
/// the LaTeX manuscript.
pub proof fn lemma_emitted_text_fits_file(cmd: Commands)
    ensures
        spec_component_for_command(cmd) matches Some(c) ==> templates::starting_text(c.output_path)
            == Some(c.template),
{
    lemma_components_write_their_files();
    if let Some(name) = command_component_name(cmd) {
        lemma_first_component_in(spec_components(), name, 0);
    }
}

} // verus!
