//! A parser for TypeScript's `tsconfig.json` configuration format: JSON
//! extended with `//` and `/* */` comments and a tolerated trailing comma
//! before a closing brace.  The text is first reduced to strict JSON, the
//! strict JSON is parsed into a generic tree, and the tree is then projected
//! onto the typed [`TsConfig`] schema.  Unknown keys are ignored; enum-valued
//! fields are matched case-insensitively, and the open vocabularies among
//! them fall back to a variant that keeps the unrecognized token.

use vstd::prelude::*;

pub mod config;
pub mod document;
pub mod enums;
pub mod errors;
pub mod fields;
pub mod json;
pub mod options;
pub mod pre;
pub mod text;

pub use config::{Reference, References, TypeAcquisition};
pub use document::TsConfig;
pub use enums::{Jsx, Lib, Module, ModuleResolutionMode, Target};
pub use errors::ConfigError;
pub use fields::PathsMap;
pub use options::CompilerOptions;

verus! {

/// Parses a `tsconfig.json` text into a [`TsConfig`]: either a complete
/// document or exactly one classified [`ConfigError`].
///
/// The text is preprocessed — comments blanked outside string literals, a
/// trailing comma before `}` dropped — then parsed as strict JSON and
/// projected onto the schema: the first offending field's error wins, and a
/// text the strict parser rejects is a [`ConfigError::Syntax`].
pub fn parse_str(json: &str) -> (r: Result<TsConfig, ConfigError>)
    ensures
        match json::json_tree_of(pre::preprocess_spec(json@)) {
            Option::Some(v) => match r {
                Ok(t) => document::doc_first_err(v) is None && document::doc_matches(t, v),
                Err(e) => document::doc_first_err(v) == Some(e@),
            },
            Option::None => r matches Err(e) && e@ is Syntax,
        },
{
    let cv = text::chars_vec(json);
    let pp = pre::preprocess(&cv);
    match json::parse_strict(&pp) {
        Ok(j) => TsConfig::from_json(&j),
        Err(msg) => Err(ConfigError::Syntax(msg)),
    }
}

} // verus!
