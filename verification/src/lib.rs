//! Scaffolding logic for research project templates: the command model,
//! the component registry, field collection, template rendering decisions
//! and project naming.

pub mod cli;
pub mod components;
pub mod date;
pub mod fields;
pub mod manifest;
pub mod project;
pub mod render;
pub mod skeleton;
pub mod template;
pub mod templates;
pub mod text;
pub mod utf8;
