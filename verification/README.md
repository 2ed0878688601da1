# ptmp

Scaffolds research project directories from a template: copies a template
directory, asks for the variables its `fields.toml` names, and renders the
text files through Tera; or emits single files (Taskfile, LaTeX, Makefile,
README, R, Julia, Project.toml, Slurm script, .gitignore, .editorconfig,
CITATION.cff, LICENSE, Quarto report and slides) into the current
directory.

- `src/` is the verified library: the command model, the component
  registry and its lookups, the field-collection state machine, the
  rendering decisions (manifest skipping, UTF-8 detection, context
  building with the date formatted), the rendering of checked templates
  (text, variable tags and blocks without numbers, filters or function
  calls), project naming and the default template skeleton.
- `app/` is the command-line program: argument parsing, prompts, the clock
  and all filesystem work, each step decided by the library. Templates
  that the library does not take are handed to the engine there as they
  are.
- `tests/` exercise the library on concrete values.
