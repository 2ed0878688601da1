use vstd::prelude::*;

verus! {

/// Top-level structure of a `fields.toml` manifest.
///
/// Each entry in `fields` describes one variable that the user is asked
/// for. The collected values are injected into the rendering context
/// alongside the built-in variables (`project_name`, `today`, `year`).
#[derive(Debug)]
pub struct FieldsManifest {
    pub fields: Vec<Field>,
}

/// A single field definition inside `fields.toml`.
#[derive(Debug)]
pub struct Field {
    /// Variable name referenced in templates as `{{ name }}`.
    pub name: String,
    /// Human-readable prompt displayed to the user.
    pub prompt: String,
    /// Optional default value pre-filled in the prompt.
    pub default: Option<String>,
    /// When true, an empty response is rejected.
    pub required: bool,
}

} // verus!
