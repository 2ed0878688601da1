//! The built-in template texts. Their only tags are variable tags of the
//! form `{{ name }}`: `{{ title }}`, `{{ author }}`, `{{ affiliation }}`,
//! `{{ main_file }}`, `{{ latex_engine }}` and the built-in
//! `{{ project_name }}`, `{{ today }}` and `{{ year }}`.
use vstd::prelude::*;

verus! {

/// README.md of a project.
pub const README: &'static str = "# {{ title }}

Author: {{ author }}
Affiliation: {{ affiliation }}

Project `{{ project_name }}`, created {{ today }}.

## Layout

- `main.tex`, `references.bib`: the manuscript
- `R/`, `src/`: analysis code (R and Julia)
- `figures/`, `output/`: generated artifacts
- `notes/`: working notes
";

/// main.tex of a project.
pub const MAIN_TEX: &'static str = "\\documentclass[11pt]{article}
\\usepackage[utf8]{inputenc}
\\usepackage{graphicx}
\\usepackage{hyperref}

\\title{ {{ title }} }
\\author{ {{ author }} \\\\ {{ affiliation }} }
\\date{ {{ today }} }

\\begin{document}
\\maketitle

\\section{Introduction}

\\bibliographystyle{plain}
\\bibliography{references}

\\end{document}
";

/// references.bib of a project.
pub const REFERENCES_BIB: &'static str = "@misc{placeholder{{ year }},
  title = {Example reference},
  year = { {{ year }} }
}
";

/// R/example.R of a project.
pub const R_EXAMPLE: &'static str = "# {{ title }}
# Author: {{ author }}
# Created: {{ today }}

library(here)

data <- data.frame(x = 1:10, y = (1:10)^2)
print(summary(data))
";

/// src/example.jl of a project.
pub const JULIA_EXAMPLE: &'static str = "# {{ title }}
# Author: {{ author }}
# Created: {{ today }}

function main()
    xs = 1:10
    println(sum(x^2 for x in xs))
end

main()
";

/// fields.toml: the manifest of the variables a template asks for.
pub const FIELDS_TOML: &'static str = "[[fields]]
name = \"title\"
prompt = \"Project title\"
default = \"My Analysis\"
required = true

[[fields]]
name = \"author\"
prompt = \"Author name\"
required = true

[[fields]]
name = \"affiliation\"
prompt = \"Affiliation (e.g., Institution/Lab)\"
required = false

[[fields]]
name = \"main_file\"
prompt = \"Main LaTeX file name\"
default = \"main.tex\"
required = false

[[fields]]
name = \"latex_engine\"
prompt = \"LaTeX engine (pdf/xelatex/lualatex)\"
default = \"pdf\"
required = true
";

/// Makefile of a project.
pub const MAKEFILE: &'static str = "MAIN = {{ main_file }}
ENGINE = {{ latex_engine }}

.PHONY: all clean

all:
\tlatexmk -$(ENGINE) $(MAIN)

clean:
\tlatexmk -C $(MAIN)
";

/// Project.toml of a Julia project.
pub const PROJECT_TOML: &'static str = "name = \"{{ project_name }}\"
authors = [\"{{ author }}\"]
version = \"0.1.0\"

[deps]
";

/// Taskfile.yml of a project.
pub const TASKFILE: &'static str = "# {{ title }}
version: '3'

vars:
  MAIN: {{ main_file }}
  ENGINE: {{ latex_engine }}

tasks:
  build:
    desc: Build the manuscript
    cmds:
      - latexmk -$ENGINE $MAIN
  clean:
    desc: Remove build artifacts
    cmds:
      - latexmk -C $MAIN
";

/// example.slurm: a batch job script.
pub const SLURM: &'static str = "#!/bin/bash
# {{ title }}
#SBATCH --job-name={{ project_name }}
#SBATCH --output=output/%x-%j.out
#SBATCH --time=01:00:00
#SBATCH --ntasks=1
#SBATCH --cpus-per-task=1
#SBATCH --mem=4G

Rscript R/example.R
";

/// .gitignore of a project.
pub const GITIGNORE: &'static str = "# LaTeX build artifacts
*.aux
*.bbl
*.blg
*.fdb_latexmk
*.fls
*.log
*.out
*.synctex.gz
*.toc

# R
.Rhistory
.RData
.Rproj.user/

# Generated output
output/

# Editors and systems
.DS_Store
*.swp
";

/// .editorconfig of a project.
pub const EDITORCONFIG: &'static str = "root = true

[*]
charset = utf-8
end_of_line = lf
insert_final_newline = true
trim_trailing_whitespace = true
indent_style = space
indent_size = 4

[*.{R,r,tex,bib,yml,yaml}]
indent_size = 2

[Makefile]
indent_style = tab
";

/// CITATION.cff of a project.
pub const CITATION: &'static str = "cff-version: 1.2.0
message: \"If you use this work, please cite it as below.\"
title: \"{{ title }}\"
authors:
  - name: \"{{ author }}\"
date-released: \"{{ today }}\"
";

/// LICENSE: the MIT license.
pub const LICENSE: &'static str = "MIT License

Copyright (c) {{ year }} {{ author }}

Permission is hereby granted, free of charge, to any person obtaining a copy
of this software and associated documentation files (the \"Software\"), to deal
in the Software without restriction, including without limitation the rights
to use, copy, modify, merge, publish, distribute, sublicense, and/or sell
copies of the Software, and to permit persons to whom the Software is
furnished to do so, subject to the following conditions:

The above copyright notice and this permission notice shall be included in all
copies or substantial portions of the Software.

THE SOFTWARE IS PROVIDED \"AS IS\", WITHOUT WARRANTY OF ANY KIND, EXPRESS OR
IMPLIED, INCLUDING BUT NOT LIMITED TO THE WARRANTIES OF MERCHANTABILITY,
FITNESS FOR A PARTICULAR PURPOSE AND NONINFRINGEMENT. IN NO EVENT SHALL THE
AUTHORS OR COPYRIGHT HOLDERS BE LIABLE FOR ANY CLAIM, DAMAGES OR OTHER
LIABILITY, WHETHER IN AN ACTION OF CONTRACT, TORT OR OTHERWISE, ARISING FROM,
OUT OF OR IN CONNECTION WITH THE SOFTWARE OR THE USE OR OTHER DEALINGS IN THE
SOFTWARE.
";

/// report.qmd: a Quarto report.
pub const QUARTO: &'static str = "---
title: \"{{ title }}\"
author: \"{{ author }}\"
institute: \"{{ affiliation }}\"
date: \"{{ today }}\"
format: html
---

## Introduction

```{r}
summary(cars)
```
";

/// slides.qmd: a Quarto revealjs slide deck.
pub const SLIDES: &'static str = "---
title: \"{{ title }}\"
author: \"{{ author }}\"
date: \"{{ today }}\"
format: revealjs
---

## First slide

- A point

## Second slide

```{r}
plot(cars)
```
";

/// The text that a file of this name starts out with, for each file that
/// `ptmp init` or an emit command writes: the template named for it (an
/// empty marker for `.here`).
pub open spec fn starting_text(path: Seq<char>) -> Option<Seq<char>> {
    if path == ".here"@ {
        Some(""@)
    } else if path == "README.md"@ {
        Some(README@)
    } else if path == "main.tex"@ {
        Some(MAIN_TEX@)
    } else if path == "references.bib"@ {
        Some(REFERENCES_BIB@)
    } else if path == "R/example.R"@ {
        Some(R_EXAMPLE@)
    } else if path == "fields.toml"@ {
        Some(FIELDS_TOML@)
    } else if path == "Makefile"@ {
        Some(MAKEFILE@)
    } else if path == "Project.toml"@ {
        Some(PROJECT_TOML@)
    } else if path == "src/example.jl"@ {
        Some(JULIA_EXAMPLE@)
    } else if path == "Taskfile.yml"@ {
        Some(TASKFILE@)
    } else if path == "example.slurm"@ {
        Some(SLURM@)
    } else if path == ".gitignore"@ {
        Some(GITIGNORE@)
    } else if path == ".editorconfig"@ {
        Some(EDITORCONFIG@)
    } else if path == "CITATION.cff"@ {
        Some(CITATION@)
    } else if path == "LICENSE"@ {
        Some(LICENSE@)
    } else if path == "report.qmd"@ {
        Some(QUARTO@)
    } else if path == "slides.qmd"@ {
        Some(SLIDES@)
    } else {
        None
    }
}

/// The text that each file written by this tool starts out with.
pub proof fn lemma_starting_texts()
    ensures
        starting_text(".here"@) == Some(""@),
        starting_text("README.md"@) == Some(README@),
        starting_text("main.tex"@) == Some(MAIN_TEX@),
        starting_text("references.bib"@) == Some(REFERENCES_BIB@),
        starting_text("R/example.R"@) == Some(R_EXAMPLE@),
        starting_text("fields.toml"@) == Some(FIELDS_TOML@),
        starting_text("Makefile"@) == Some(MAKEFILE@),
        starting_text("Project.toml"@) == Some(PROJECT_TOML@),
        starting_text("src/example.jl"@) == Some(JULIA_EXAMPLE@),
        starting_text("Taskfile.yml"@) == Some(TASKFILE@),
        starting_text("example.slurm"@) == Some(SLURM@),
        starting_text(".gitignore"@) == Some(GITIGNORE@),
        starting_text(".editorconfig"@) == Some(EDITORCONFIG@),
        starting_text("CITATION.cff"@) == Some(CITATION@),
        starting_text("LICENSE"@) == Some(LICENSE@),
        starting_text("report.qmd"@) == Some(QUARTO@),
        starting_text("slides.qmd"@) == Some(SLIDES@),
{
    reveal_strlit(".here");
    reveal_strlit("README.md");
    reveal_strlit("main.tex");
    reveal_strlit("references.bib");
    reveal_strlit("R/example.R");
    reveal_strlit("fields.toml");
    reveal_strlit("Makefile");
    reveal_strlit("Project.toml");
    reveal_strlit("src/example.jl");
    reveal_strlit("Taskfile.yml");
    reveal_strlit("example.slurm");
    reveal_strlit(".gitignore");
    reveal_strlit(".editorconfig");
    reveal_strlit("CITATION.cff");
    reveal_strlit("LICENSE");
    reveal_strlit("report.qmd");
    reveal_strlit("slides.qmd");
    assert(".here"@.len() == 5 && ".here"@[0] == '.');
    assert("README.md"@.len() == 9 && "README.md"@[0] == 'R');
    assert("main.tex"@.len() == 8 && "main.tex"@[0] == 'm');
    assert("references.bib"@.len() == 14 && "references.bib"@[0] == 'r');
    assert("R/example.R"@.len() == 11 && "R/example.R"@[0] == 'R');
    assert("fields.toml"@.len() == 11 && "fields.toml"@[0] == 'f');
    assert("Makefile"@.len() == 8 && "Makefile"@[0] == 'M');
    assert("Project.toml"@.len() == 12 && "Project.toml"@[0] == 'P');
    assert("src/example.jl"@.len() == 14 && "src/example.jl"@[0] == 's');
    assert("Taskfile.yml"@.len() == 12 && "Taskfile.yml"@[0] == 'T');
    assert("example.slurm"@.len() == 13 && "example.slurm"@[0] == 'e');
    assert(".gitignore"@.len() == 10 && ".gitignore"@[0] == '.');
    assert(".editorconfig"@.len() == 13 && ".editorconfig"@[0] == '.');
    assert("CITATION.cff"@.len() == 12 && "CITATION.cff"@[0] == 'C');
    assert("LICENSE"@.len() == 7 && "LICENSE"@[0] == 'L');
    assert("report.qmd"@.len() == 10 && "report.qmd"@[0] == 'r');
    assert("slides.qmd"@.len() == 10 && "slides.qmd"@[0] == 's');
}

} // verus!
