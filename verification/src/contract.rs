//! The contract of a module (`lex.json`): what the engine knows of a module.

use vstd::prelude::*;
use crate::json::JsonValue;

verus! {

/// A module contract: schema, version, kind, metadata and the module's spec.
pub struct LexModule {
    pub schema: String,
    pub version: String,
    pub kind: String,
    pub metadata: Metadata,
    pub spec: Spec,
}

/// Where a module lives: its name and namespace.
pub struct Metadata {
    pub name: String,
    pub namespace: String,
}

/// The fields, capabilities and hooks of a module.
pub struct Spec {
    pub fields: Vec<Field>,
    pub capabilities: Capabilities,
    pub hooks: Vec<Hook>,
}

/// One field of a module. `constraints` holds the named constraints of the
/// field in order (`regex` for text, `min` and `max` for numbers); `options`
/// is the set of texts an enum field may hold.
pub struct Field {
    pub id: String,
    pub field_type: FieldType,
    pub required: bool,
    pub default: Option<JsonValue>,
    pub constraints: Option<Vec<(String, JsonValue)>>,
    pub options: Option<Vec<String>>,
}

/// The type of a field.
#[derive(PartialEq, Eq, Structural, Clone, Copy, Debug)]
pub enum FieldType {
    String,
    Number,
    Boolean,
    Datetime,
    Binary,
    Enum,
    Reference,
}

/// How a module is persisted and which features it offers.
pub struct Capabilities {
    pub persistence: String,
    pub features: Vec<String>,
}

/// A declarative hook: the event it listens to and the action it names.
pub struct Hook {
    pub on: String,
    pub action: String,
}

} // verus!
