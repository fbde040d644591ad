//! The classified parse errors.  Each value carries enough context — field
//! name, offending token, expected and found JSON kinds — to act on without
//! looking at the input.

use vstd::prelude::*;

use crate::json::JsonKind;

verus! {

/// Why a parse failed.  A parse either yields a complete document or exactly
/// one of these.
#[derive(Debug, Clone)]
pub enum ConfigError {
    /// The text is not valid JSON even after comments and tolerated trailing
    /// commas are removed; carries the JSON parser's message.
    Syntax(String),
    /// A present key's value has a JSON kind incompatible with its schema
    /// field.
    KindMismatch { field: String, expected: JsonKind, found: JsonKind },
    /// A string token outside a strictly closed enum domain; `expected`
    /// spells out the domain's token set.
    InvalidEnumValue { field: String, token: String, expected: String },
    /// A polymorphic field's value matches none of its permitted shapes.
    ShapeMismatch { field: String, found: JsonKind },
}

/// The mathematical shape of a [`ConfigError`].
pub enum ConfigErrorV {
    Syntax(Seq<char>),
    KindMismatch { field: Seq<char>, expected: JsonKind, found: JsonKind },
    InvalidEnumValue { field: Seq<char>, token: Seq<char>, expected: Seq<char> },
    ShapeMismatch { field: Seq<char>, found: JsonKind },
}

impl View for ConfigError {
    type V = ConfigErrorV;

    open spec fn view(&self) -> ConfigErrorV {
        match self {
            ConfigError::Syntax(m) => ConfigErrorV::Syntax(m@),
            ConfigError::KindMismatch { field, expected, found } => ConfigErrorV::KindMismatch {
                field: field@,
                expected: *expected,
                found: *found,
            },
            ConfigError::InvalidEnumValue { field, token, expected } => {
                ConfigErrorV::InvalidEnumValue { field: field@, token: token@, expected: expected@ }
            },
            ConfigError::ShapeMismatch { field, found } => ConfigErrorV::ShapeMismatch {
                field: field@,
                found: *found,
            },
        }
    }
}

} // verus!
