//! The document level of the schema: the [`TsConfig`] type, the structural
//! mapper from a parsed JSON tree onto it, and the laws the mapper obeys —
//! an empty object maps to an all-unset document, and a key outside the
//! schema never changes the outcome, at either nesting level.

use vstd::prelude::*;

use crate::config::{
    get_opt_references, get_opt_type_acquisition, spec_opt_references, spec_opt_type_acquisition,
    References, TypeAcquisition,
};
use crate::errors::{ConfigError, ConfigErrorV};
use crate::fields::{
    get_opt_text, get_opt_texts, inclusion_key, inclusion_key_str, spec_opt_bool, spec_opt_jsx,
    spec_opt_libs, spec_opt_module, spec_opt_module_resolution, spec_opt_paths, spec_opt_target,
    spec_opt_text, spec_opt_texts, spec_opt_u32,
};
use crate::json::{self, kind_of, lemma_lookup_insert_ne, lookup, Json, JsonKind, JsonV};
use crate::options::{co_first_err, co_matches, err_opt, CompilerOptions};

verus! {

/// The parsed document: every field independently optional, absence kept
/// distinct from an empty collection.
#[derive(Debug, Clone, PartialEq)]
pub struct TsConfig {
    pub exclude: Option<Vec<String>>,
    pub extends: Option<String>,
    pub files: Option<Vec<String>>,
    pub include_patterns: Option<Vec<String>>,
    pub references: Option<References>,
    pub type_acquisition: Option<TypeAcquisition>,
    pub compiler_options: Option<CompilerOptions>,
}

/// The error, if any, of the `compilerOptions` field of the document's
/// members: absent or `null` is no error, an object defers to its own
/// fields, and any other kind mismatches.
pub open spec fn co_field_err(m: Seq<(Seq<char>, JsonV)>) -> Option<ConfigErrorV> {
    match lookup(m, "compilerOptions"@) {
        Option::None => Option::None,
        Option::Some(v) => match v {
            JsonV::Null => Option::None,
            JsonV::Obj(mm) => co_first_err(mm),
            _ => Option::Some(
                ConfigErrorV::KindMismatch {
                    field: "compilerOptions"@,
                    expected: JsonKind::Obj,
                    found: kind_of(v),
                },
            ),
        },
    }
}

/// The first error of a whole document, in field order; a document that is
/// not a JSON object mismatches as a whole.
pub open spec fn doc_first_err(v: JsonV) -> Option<ConfigErrorV> {
    match v {
        JsonV::Obj(m) => if err_opt(spec_opt_texts(m, "exclude"@)) is Some {
            err_opt(spec_opt_texts(m, "exclude"@))
        } else if err_opt(spec_opt_text(m, "extends"@)) is Some {
            err_opt(spec_opt_text(m, "extends"@))
        } else if err_opt(spec_opt_texts(m, "files"@)) is Some {
            err_opt(spec_opt_texts(m, "files"@))
        } else if err_opt(spec_opt_texts(m, inclusion_key())) is Some {
            err_opt(spec_opt_texts(m, inclusion_key()))
        } else if err_opt(spec_opt_references(m)) is Some {
            err_opt(spec_opt_references(m))
        } else if err_opt(spec_opt_type_acquisition(m)) is Some {
            err_opt(spec_opt_type_acquisition(m))
        } else if co_field_err(m) is Some {
            co_field_err(m)
        } else {
            Option::None
        },
        _ => Option::Some(
            ConfigErrorV::KindMismatch {
                field: "document"@,
                expected: JsonKind::Obj,
                found: kind_of(v),
            },
        ),
    }
}

/// Whether `t` holds exactly what the document `v` says, field for field.
pub open spec fn doc_matches(t: TsConfig, v: JsonV) -> bool {
    match v {
        JsonV::Obj(m) => {
            &&& spec_opt_texts(m, "exclude"@) == Ok::<Option<Seq<Seq<char>>>, ConfigErrorV>(
                t.exclude.deep_view(),
            )
            &&& spec_opt_text(m, "extends"@) == Ok::<Option<Seq<char>>, ConfigErrorV>(
                t.extends.deep_view(),
            )
            &&& spec_opt_texts(m, "files"@) == Ok::<Option<Seq<Seq<char>>>, ConfigErrorV>(
                t.files.deep_view(),
            )
            &&& spec_opt_texts(m, inclusion_key()) == Ok::<Option<Seq<Seq<char>>>, ConfigErrorV>(
                t.include_patterns.deep_view(),
            )
            &&& spec_opt_references(m) == Ok::<
                Option<crate::config::ReferencesV>,
                ConfigErrorV,
            >(t.references.deep_view())
            &&& spec_opt_type_acquisition(m) == Ok::<
                Option<crate::config::TypeAcquisitionV>,
                ConfigErrorV,
            >(t.type_acquisition.deep_view())
            &&& match lookup(m, "compilerOptions"@) {
                Option::None => t.compiler_options is None,
                Option::Some(cv) => match cv {
                    JsonV::Null => t.compiler_options is None,
                    JsonV::Obj(mm) => t.compiler_options matches Some(co) && co_matches(co, mm),
                    _ => false,
                },
            }
        },
        _ => false,
    }
}

impl TsConfig {
    /// Projects a parsed JSON tree onto the document schema: the first
    /// offending field's error, or the complete document.
    pub fn from_json(j: &Json) -> (r: Result<TsConfig, ConfigError>)
        ensures
            match r {
                Ok(t) => doc_first_err(j@) is None && doc_matches(t, j@),
                Err(e) => doc_first_err(j@) == Some(e@),
            },
    {
        match j {
            Json::Obj(m) => {
                let exclude = match get_opt_texts(m, "exclude") {
                    Ok(v) => v,
                    Err(e) => {
                        return Err(e);
                    },
                };
                let extends = match get_opt_text(m, "extends") {
                    Ok(v) => v,
                    Err(e) => {
                        return Err(e);
                    },
                };
                let files = match get_opt_texts(m, "files") {
                    Ok(v) => v,
                    Err(e) => {
                        return Err(e);
                    },
                };
                let ik = inclusion_key_str();
                let include_patterns = match get_opt_texts(m, ik.as_str()) {
                    Ok(v) => v,
                    Err(e) => {
                        return Err(e);
                    },
                };
                let references = match get_opt_references(m) {
                    Ok(v) => v,
                    Err(e) => {
                        return Err(e);
                    },
                };
                let type_acquisition = match get_opt_type_acquisition(m) {
                    Ok(v) => v,
                    Err(e) => {
                        return Err(e);
                    },
                };
                let compiler_options = match json::get(m, "compilerOptions") {
                    Option::None => Option::None,
                    Option::Some(cj) => match cj {
                        Json::Null => Option::None,
                        Json::Obj(mm) => match CompilerOptions::from_members(mm) {
                            Ok(co) => Option::Some(co),
                            Err(e) => {
                                return Err(e);
                            },
                        },
                        other => {
                            return Err(
                                ConfigError::KindMismatch {
                                    field: "compilerOptions".to_owned(),
                                    expected: JsonKind::Obj,
                                    found: json::kind(other),
                                },
                            );
                        },
                    },
                };
                Ok(
                    TsConfig {
                        exclude,
                        extends,
                        files,
                        include_patterns,
                        references,
                        type_acquisition,
                        compiler_options,
                    },
                )
            },
            other => Err(
                ConfigError::KindMismatch {
                    field: "document".to_owned(),
                    expected: JsonKind::Obj,
                    found: json::kind(other),
                },
            ),
        }
    }
}

/// The keys the document level knows.
pub open spec fn is_document_key(k: Seq<char>) -> bool {
    ||| k == "exclude"@
    ||| k == "extends"@
    ||| k == "files"@
    ||| k == inclusion_key()
    ||| k == "references"@
    ||| k == "typeAcquisition"@
    ||| k == "compilerOptions"@
}

/// The keys the `compilerOptions` level knows.
pub open spec fn is_options_key(k: Seq<char>) -> bool {
    ||| k == "allowJs"@
    ||| k == "checkJs"@
    ||| k == "composite"@
    ||| k == "declaration"@
    ||| k == "declarationMap"@
    ||| k == "downlevelIteration"@
    ||| k == "importHelpers"@
    ||| k == "incremental"@
    ||| k == "isolatedModules"@
    ||| k == "jsx"@
    ||| k == "lib"@
    ||| k == "module"@
    ||| k == "noEmit"@
    ||| k == "outDir"@
    ||| k == "outFile"@
    ||| k == "removeComments"@
    ||| k == "rootDir"@
    ||| k == "sourceMap"@
    ||| k == "target"@
    ||| k == "tsBuildInfoFile"@
    ||| k == "alwaysStrict"@
    ||| k == "noImplicitAny"@
    ||| k == "noImplicitThis"@
    ||| k == "strict"@
    ||| k == "strictBindCallApply"@
    ||| k == "strictFunctionTypes"@
    ||| k == "strictNullChecks"@
    ||| k == "strictPropertyInitialization"@
    ||| k == "allowSyntheticDefaultImports"@
    ||| k == "allowUmdGlobalAccess"@
    ||| k == "baseUrl"@
    ||| k == "esModuleInterop"@
    ||| k == "moduleResolution"@
    ||| k == "paths"@
    ||| k == "preserveSymlinks"@
    ||| k == "rootDirs"@
    ||| k == "typeRoots"@
    ||| k == "types"@
    ||| k == "inlineSourceMap"@
    ||| k == "inlineSources"@
    ||| k == "mapRoot"@
    ||| k == "sourceRoot"@
    ||| k == "noFallthroughCasesInSwitch"@
    ||| k == "noImplicitReturns"@
    ||| k == "noPropertyAccessFromIndexSignature"@
    ||| k == "noUncheckedIndexedAccess"@
    ||| k == "noUnusedLocals"@
    ||| k == "emitDecoratorMetadata"@
    ||| k == "experimentalDecorators"@
    ||| k == "allowUnreachableCode"@
    ||| k == "allowUnusedLabels"@
    ||| k == "assumeChangesOnlyAffectDirectDependencies"@
    ||| k == "charset"@
    ||| k == "declarationDir"@
    ||| k == "diagnostics"@
    ||| k == "disableReferencedProjectLoad"@
    ||| k == "disableSizeLimit"@
    ||| k == "disableSolutionSearching"@
    ||| k == "disableSourceOfProjectReferenceRedirect"@
    ||| k == "emitBOM"@
    ||| k == "emitDeclarationOnly"@
    ||| k == "explainFiles"@
    ||| k == "extendedDiagnostics"@
    ||| k == "forceConsistentCasingInFileNames"@
    ||| k == "generateCpuProfile"@
    ||| k == "importsNotUsedAsValues"@
    ||| k == "jsxFactory"@
    ||| k == "jsxFragmentFactory"@
    ||| k == "jsxImportSource"@
    ||| k == "keyofStringsOnly"@
    ||| k == "listEmittedFiles"@
    ||| k == "listFiles"@
    ||| k == "maxNodeModuleJsDepth"@
    ||| k == "noEmitHelpers"@
    ||| k == "noEmitOnError"@
    ||| k == "noErrorTruncation"@
    ||| k == "noImplicitUseStrict"@
    ||| k == "noLib"@
    ||| k == "noResolve"@
    ||| k == "noStrictGenericChecks"@
    ||| k == "out"@
    ||| k == "preserveConstEnums"@
    ||| k == "reactNamespace"@
    ||| k == "resolveJsonModule"@
    ||| k == "skipDefaultLibCheck"@
    ||| k == "skipLibCheck"@
    ||| k == "stripInternal"@
    ||| k == "suppressExcessPropertyErrors"@
    ||| k == "suppressImplicitAnyIndexErrors"@
    ||| k == "traceResolution"@
    ||| k == "useDefineForClassFields"@
    ||| k == "preserveWatchOutput"@
    ||| k == "pretty"@
    ||| k == "fallbackPolling"@
    ||| k == "watchDirectory"@
    ||| k == "watchFile"@
}

/// A key the document level does not know never changes the outcome: the
/// document maps the same, to the same value or the same error, with the
/// member inserted at any position or absent.
pub proof fn lemma_unknown_key_ignored(
    m: Seq<(Seq<char>, JsonV)>,
    at: int,
    k: Seq<char>,
    w: JsonV,
    t: TsConfig,
)
    requires
        0 <= at <= m.len(),
        !is_document_key(k),
    ensures
        doc_first_err(JsonV::Obj(m.insert(at, (k, w)))) == doc_first_err(JsonV::Obj(m)),
        doc_matches(t, JsonV::Obj(m.insert(at, (k, w)))) == doc_matches(t, JsonV::Obj(m)),
{
    assert forall|key: Seq<char>| key != k implies #[trigger] lookup(m.insert(at, (k, w)), key)
        == lookup(m, key) by {
        lemma_lookup_insert_ne(m, at, k, w, key);
    }
    assert(lookup(m.insert(at, (k, w)), "exclude"@) == lookup(m, "exclude"@));
    assert(lookup(m.insert(at, (k, w)), "extends"@) == lookup(m, "extends"@));
    assert(lookup(m.insert(at, (k, w)), "files"@) == lookup(m, "files"@));
    assert(lookup(m.insert(at, (k, w)), inclusion_key()) == lookup(m, inclusion_key()));
    assert(lookup(m.insert(at, (k, w)), "references"@) == lookup(m, "references"@));
    assert(lookup(m.insert(at, (k, w)), "typeAcquisition"@) == lookup(m, "typeAcquisition"@));
    assert(lookup(m.insert(at, (k, w)), "compilerOptions"@) == lookup(m, "compilerOptions"@));
}

/// A key the `compilerOptions` level does not know never changes the
/// outcome there either, wherever the member stands.
#[verifier::rlimit(100)]
pub proof fn lemma_unknown_option_ignored(
    m: Seq<(Seq<char>, JsonV)>,
    at: int,
    k: Seq<char>,
    w: JsonV,
    c: CompilerOptions,
)
    requires
        0 <= at <= m.len(),
        !is_options_key(k),
    ensures
        co_first_err(m.insert(at, (k, w))) == co_first_err(m),
        co_matches(c, m.insert(at, (k, w))) == co_matches(c, m),
{
    assert forall|key: Seq<char>| key != k implies #[trigger] lookup(m.insert(at, (k, w)), key)
        == lookup(m, key) by {
        lemma_lookup_insert_ne(m, at, k, w, key);
    }
    assert(lookup(m.insert(at, (k, w)), "allowJs"@) == lookup(m, "allowJs"@));
    assert(spec_opt_bool(m.insert(at, (k, w)), "allowJs"@) == spec_opt_bool(m, "allowJs"@));
    assert(lookup(m.insert(at, (k, w)), "checkJs"@) == lookup(m, "checkJs"@));
    assert(spec_opt_bool(m.insert(at, (k, w)), "checkJs"@) == spec_opt_bool(m, "checkJs"@));
    assert(lookup(m.insert(at, (k, w)), "composite"@) == lookup(m, "composite"@));
    assert(spec_opt_bool(m.insert(at, (k, w)), "composite"@) == spec_opt_bool(m, "composite"@));
    assert(lookup(m.insert(at, (k, w)), "declaration"@) == lookup(m, "declaration"@));
    assert(spec_opt_bool(m.insert(at, (k, w)), "declaration"@) == spec_opt_bool(m, "declaration"@));
    assert(lookup(m.insert(at, (k, w)), "declarationMap"@) == lookup(m, "declarationMap"@));
    assert(spec_opt_bool(m.insert(at, (k, w)), "declarationMap"@) == spec_opt_bool(m, "declarationMap"@));
    assert(lookup(m.insert(at, (k, w)), "downlevelIteration"@) == lookup(m, "downlevelIteration"@));
    assert(spec_opt_bool(m.insert(at, (k, w)), "downlevelIteration"@) == spec_opt_bool(m, "downlevelIteration"@));
    assert(lookup(m.insert(at, (k, w)), "importHelpers"@) == lookup(m, "importHelpers"@));
    assert(spec_opt_bool(m.insert(at, (k, w)), "importHelpers"@) == spec_opt_bool(m, "importHelpers"@));
    assert(lookup(m.insert(at, (k, w)), "incremental"@) == lookup(m, "incremental"@));
    assert(spec_opt_bool(m.insert(at, (k, w)), "incremental"@) == spec_opt_bool(m, "incremental"@));
    assert(lookup(m.insert(at, (k, w)), "isolatedModules"@) == lookup(m, "isolatedModules"@));
    assert(spec_opt_bool(m.insert(at, (k, w)), "isolatedModules"@) == spec_opt_bool(m, "isolatedModules"@));
    assert(lookup(m.insert(at, (k, w)), "jsx"@) == lookup(m, "jsx"@));
    assert(spec_opt_jsx(m.insert(at, (k, w)), "jsx"@) == spec_opt_jsx(m, "jsx"@));
    assert(lookup(m.insert(at, (k, w)), "lib"@) == lookup(m, "lib"@));
    assert(spec_opt_libs(m.insert(at, (k, w)), "lib"@) == spec_opt_libs(m, "lib"@));
    assert(lookup(m.insert(at, (k, w)), "module"@) == lookup(m, "module"@));
    assert(spec_opt_module(m.insert(at, (k, w)), "module"@) == spec_opt_module(m, "module"@));
    assert(lookup(m.insert(at, (k, w)), "noEmit"@) == lookup(m, "noEmit"@));
    assert(spec_opt_bool(m.insert(at, (k, w)), "noEmit"@) == spec_opt_bool(m, "noEmit"@));
    assert(lookup(m.insert(at, (k, w)), "outDir"@) == lookup(m, "outDir"@));
    assert(spec_opt_text(m.insert(at, (k, w)), "outDir"@) == spec_opt_text(m, "outDir"@));
    assert(lookup(m.insert(at, (k, w)), "outFile"@) == lookup(m, "outFile"@));
    assert(spec_opt_text(m.insert(at, (k, w)), "outFile"@) == spec_opt_text(m, "outFile"@));
    assert(lookup(m.insert(at, (k, w)), "removeComments"@) == lookup(m, "removeComments"@));
    assert(spec_opt_bool(m.insert(at, (k, w)), "removeComments"@) == spec_opt_bool(m, "removeComments"@));
    assert(lookup(m.insert(at, (k, w)), "rootDir"@) == lookup(m, "rootDir"@));
    assert(spec_opt_text(m.insert(at, (k, w)), "rootDir"@) == spec_opt_text(m, "rootDir"@));
    assert(lookup(m.insert(at, (k, w)), "sourceMap"@) == lookup(m, "sourceMap"@));
    assert(spec_opt_bool(m.insert(at, (k, w)), "sourceMap"@) == spec_opt_bool(m, "sourceMap"@));
    assert(lookup(m.insert(at, (k, w)), "target"@) == lookup(m, "target"@));
    assert(spec_opt_target(m.insert(at, (k, w)), "target"@) == spec_opt_target(m, "target"@));
    assert(lookup(m.insert(at, (k, w)), "tsBuildInfoFile"@) == lookup(m, "tsBuildInfoFile"@));
    assert(spec_opt_text(m.insert(at, (k, w)), "tsBuildInfoFile"@) == spec_opt_text(m, "tsBuildInfoFile"@));
    assert(lookup(m.insert(at, (k, w)), "alwaysStrict"@) == lookup(m, "alwaysStrict"@));
    assert(spec_opt_bool(m.insert(at, (k, w)), "alwaysStrict"@) == spec_opt_bool(m, "alwaysStrict"@));
    assert(lookup(m.insert(at, (k, w)), "noImplicitAny"@) == lookup(m, "noImplicitAny"@));
    assert(spec_opt_bool(m.insert(at, (k, w)), "noImplicitAny"@) == spec_opt_bool(m, "noImplicitAny"@));
    assert(lookup(m.insert(at, (k, w)), "noImplicitThis"@) == lookup(m, "noImplicitThis"@));
    assert(spec_opt_bool(m.insert(at, (k, w)), "noImplicitThis"@) == spec_opt_bool(m, "noImplicitThis"@));
    assert(lookup(m.insert(at, (k, w)), "strict"@) == lookup(m, "strict"@));
    assert(spec_opt_bool(m.insert(at, (k, w)), "strict"@) == spec_opt_bool(m, "strict"@));
    assert(lookup(m.insert(at, (k, w)), "strictBindCallApply"@) == lookup(m, "strictBindCallApply"@));
    assert(spec_opt_bool(m.insert(at, (k, w)), "strictBindCallApply"@) == spec_opt_bool(m, "strictBindCallApply"@));
    assert(lookup(m.insert(at, (k, w)), "strictFunctionTypes"@) == lookup(m, "strictFunctionTypes"@));
    assert(spec_opt_bool(m.insert(at, (k, w)), "strictFunctionTypes"@) == spec_opt_bool(m, "strictFunctionTypes"@));
    assert(lookup(m.insert(at, (k, w)), "strictNullChecks"@) == lookup(m, "strictNullChecks"@));
    assert(spec_opt_bool(m.insert(at, (k, w)), "strictNullChecks"@) == spec_opt_bool(m, "strictNullChecks"@));
    assert(lookup(m.insert(at, (k, w)), "strictPropertyInitialization"@) == lookup(m, "strictPropertyInitialization"@));
    assert(spec_opt_bool(m.insert(at, (k, w)), "strictPropertyInitialization"@) == spec_opt_bool(m, "strictPropertyInitialization"@));
    assert(lookup(m.insert(at, (k, w)), "allowSyntheticDefaultImports"@) == lookup(m, "allowSyntheticDefaultImports"@));
    assert(spec_opt_bool(m.insert(at, (k, w)), "allowSyntheticDefaultImports"@) == spec_opt_bool(m, "allowSyntheticDefaultImports"@));
    assert(lookup(m.insert(at, (k, w)), "allowUmdGlobalAccess"@) == lookup(m, "allowUmdGlobalAccess"@));
    assert(spec_opt_bool(m.insert(at, (k, w)), "allowUmdGlobalAccess"@) == spec_opt_bool(m, "allowUmdGlobalAccess"@));
    assert(lookup(m.insert(at, (k, w)), "baseUrl"@) == lookup(m, "baseUrl"@));
    assert(spec_opt_text(m.insert(at, (k, w)), "baseUrl"@) == spec_opt_text(m, "baseUrl"@));
    assert(lookup(m.insert(at, (k, w)), "esModuleInterop"@) == lookup(m, "esModuleInterop"@));
    assert(spec_opt_bool(m.insert(at, (k, w)), "esModuleInterop"@) == spec_opt_bool(m, "esModuleInterop"@));
    assert(lookup(m.insert(at, (k, w)), "moduleResolution"@) == lookup(m, "moduleResolution"@));
    assert(spec_opt_module_resolution(m.insert(at, (k, w)), "moduleResolution"@) == spec_opt_module_resolution(m, "moduleResolution"@));
    assert(lookup(m.insert(at, (k, w)), "paths"@) == lookup(m, "paths"@));
    assert(spec_opt_paths(m.insert(at, (k, w)), "paths"@) == spec_opt_paths(m, "paths"@));
    assert(lookup(m.insert(at, (k, w)), "preserveSymlinks"@) == lookup(m, "preserveSymlinks"@));
    assert(spec_opt_bool(m.insert(at, (k, w)), "preserveSymlinks"@) == spec_opt_bool(m, "preserveSymlinks"@));
    assert(lookup(m.insert(at, (k, w)), "rootDirs"@) == lookup(m, "rootDirs"@));
    assert(spec_opt_texts(m.insert(at, (k, w)), "rootDirs"@) == spec_opt_texts(m, "rootDirs"@));
    assert(lookup(m.insert(at, (k, w)), "typeRoots"@) == lookup(m, "typeRoots"@));
    assert(spec_opt_texts(m.insert(at, (k, w)), "typeRoots"@) == spec_opt_texts(m, "typeRoots"@));
    assert(lookup(m.insert(at, (k, w)), "types"@) == lookup(m, "types"@));
    assert(spec_opt_texts(m.insert(at, (k, w)), "types"@) == spec_opt_texts(m, "types"@));
    assert(lookup(m.insert(at, (k, w)), "inlineSourceMap"@) == lookup(m, "inlineSourceMap"@));
    assert(spec_opt_bool(m.insert(at, (k, w)), "inlineSourceMap"@) == spec_opt_bool(m, "inlineSourceMap"@));
    assert(lookup(m.insert(at, (k, w)), "inlineSources"@) == lookup(m, "inlineSources"@));
    assert(spec_opt_bool(m.insert(at, (k, w)), "inlineSources"@) == spec_opt_bool(m, "inlineSources"@));
    assert(lookup(m.insert(at, (k, w)), "mapRoot"@) == lookup(m, "mapRoot"@));
    assert(spec_opt_text(m.insert(at, (k, w)), "mapRoot"@) == spec_opt_text(m, "mapRoot"@));
    assert(lookup(m.insert(at, (k, w)), "sourceRoot"@) == lookup(m, "sourceRoot"@));
    assert(spec_opt_text(m.insert(at, (k, w)), "sourceRoot"@) == spec_opt_text(m, "sourceRoot"@));
    assert(lookup(m.insert(at, (k, w)), "noFallthroughCasesInSwitch"@) == lookup(m, "noFallthroughCasesInSwitch"@));
    assert(spec_opt_bool(m.insert(at, (k, w)), "noFallthroughCasesInSwitch"@) == spec_opt_bool(m, "noFallthroughCasesInSwitch"@));
    assert(lookup(m.insert(at, (k, w)), "noImplicitReturns"@) == lookup(m, "noImplicitReturns"@));
    assert(spec_opt_bool(m.insert(at, (k, w)), "noImplicitReturns"@) == spec_opt_bool(m, "noImplicitReturns"@));
    assert(lookup(m.insert(at, (k, w)), "noPropertyAccessFromIndexSignature"@) == lookup(m, "noPropertyAccessFromIndexSignature"@));
    assert(spec_opt_bool(m.insert(at, (k, w)), "noPropertyAccessFromIndexSignature"@) == spec_opt_bool(m, "noPropertyAccessFromIndexSignature"@));
    assert(lookup(m.insert(at, (k, w)), "noUncheckedIndexedAccess"@) == lookup(m, "noUncheckedIndexedAccess"@));
    assert(spec_opt_bool(m.insert(at, (k, w)), "noUncheckedIndexedAccess"@) == spec_opt_bool(m, "noUncheckedIndexedAccess"@));
    assert(lookup(m.insert(at, (k, w)), "noUnusedLocals"@) == lookup(m, "noUnusedLocals"@));
    assert(spec_opt_bool(m.insert(at, (k, w)), "noUnusedLocals"@) == spec_opt_bool(m, "noUnusedLocals"@));
    assert(lookup(m.insert(at, (k, w)), "emitDecoratorMetadata"@) == lookup(m, "emitDecoratorMetadata"@));
    assert(spec_opt_bool(m.insert(at, (k, w)), "emitDecoratorMetadata"@) == spec_opt_bool(m, "emitDecoratorMetadata"@));
    assert(lookup(m.insert(at, (k, w)), "experimentalDecorators"@) == lookup(m, "experimentalDecorators"@));
    assert(spec_opt_bool(m.insert(at, (k, w)), "experimentalDecorators"@) == spec_opt_bool(m, "experimentalDecorators"@));
    assert(lookup(m.insert(at, (k, w)), "allowUnreachableCode"@) == lookup(m, "allowUnreachableCode"@));
    assert(spec_opt_bool(m.insert(at, (k, w)), "allowUnreachableCode"@) == spec_opt_bool(m, "allowUnreachableCode"@));
    assert(lookup(m.insert(at, (k, w)), "allowUnusedLabels"@) == lookup(m, "allowUnusedLabels"@));
    assert(spec_opt_bool(m.insert(at, (k, w)), "allowUnusedLabels"@) == spec_opt_bool(m, "allowUnusedLabels"@));
    assert(lookup(m.insert(at, (k, w)), "assumeChangesOnlyAffectDirectDependencies"@) == lookup(m, "assumeChangesOnlyAffectDirectDependencies"@));
    assert(spec_opt_bool(m.insert(at, (k, w)), "assumeChangesOnlyAffectDirectDependencies"@) == spec_opt_bool(m, "assumeChangesOnlyAffectDirectDependencies"@));
    assert(lookup(m.insert(at, (k, w)), "charset"@) == lookup(m, "charset"@));
    assert(spec_opt_text(m.insert(at, (k, w)), "charset"@) == spec_opt_text(m, "charset"@));
    assert(lookup(m.insert(at, (k, w)), "declarationDir"@) == lookup(m, "declarationDir"@));
    assert(spec_opt_text(m.insert(at, (k, w)), "declarationDir"@) == spec_opt_text(m, "declarationDir"@));
    assert(lookup(m.insert(at, (k, w)), "diagnostics"@) == lookup(m, "diagnostics"@));
    assert(spec_opt_bool(m.insert(at, (k, w)), "diagnostics"@) == spec_opt_bool(m, "diagnostics"@));
    assert(lookup(m.insert(at, (k, w)), "disableReferencedProjectLoad"@) == lookup(m, "disableReferencedProjectLoad"@));
    assert(spec_opt_bool(m.insert(at, (k, w)), "disableReferencedProjectLoad"@) == spec_opt_bool(m, "disableReferencedProjectLoad"@));
    assert(lookup(m.insert(at, (k, w)), "disableSizeLimit"@) == lookup(m, "disableSizeLimit"@));
    assert(spec_opt_bool(m.insert(at, (k, w)), "disableSizeLimit"@) == spec_opt_bool(m, "disableSizeLimit"@));
    assert(lookup(m.insert(at, (k, w)), "disableSolutionSearching"@) == lookup(m, "disableSolutionSearching"@));
    assert(spec_opt_bool(m.insert(at, (k, w)), "disableSolutionSearching"@) == spec_opt_bool(m, "disableSolutionSearching"@));
    assert(lookup(m.insert(at, (k, w)), "disableSourceOfProjectReferenceRedirect"@) == lookup(m, "disableSourceOfProjectReferenceRedirect"@));
    assert(spec_opt_bool(m.insert(at, (k, w)), "disableSourceOfProjectReferenceRedirect"@) == spec_opt_bool(m, "disableSourceOfProjectReferenceRedirect"@));
    assert(lookup(m.insert(at, (k, w)), "emitBOM"@) == lookup(m, "emitBOM"@));
    assert(spec_opt_bool(m.insert(at, (k, w)), "emitBOM"@) == spec_opt_bool(m, "emitBOM"@));
    assert(lookup(m.insert(at, (k, w)), "emitDeclarationOnly"@) == lookup(m, "emitDeclarationOnly"@));
    assert(spec_opt_bool(m.insert(at, (k, w)), "emitDeclarationOnly"@) == spec_opt_bool(m, "emitDeclarationOnly"@));
    assert(lookup(m.insert(at, (k, w)), "explainFiles"@) == lookup(m, "explainFiles"@));
    assert(spec_opt_bool(m.insert(at, (k, w)), "explainFiles"@) == spec_opt_bool(m, "explainFiles"@));
    assert(lookup(m.insert(at, (k, w)), "extendedDiagnostics"@) == lookup(m, "extendedDiagnostics"@));
    assert(spec_opt_bool(m.insert(at, (k, w)), "extendedDiagnostics"@) == spec_opt_bool(m, "extendedDiagnostics"@));
    assert(lookup(m.insert(at, (k, w)), "forceConsistentCasingInFileNames"@) == lookup(m, "forceConsistentCasingInFileNames"@));
    assert(spec_opt_bool(m.insert(at, (k, w)), "forceConsistentCasingInFileNames"@) == spec_opt_bool(m, "forceConsistentCasingInFileNames"@));
    assert(lookup(m.insert(at, (k, w)), "generateCpuProfile"@) == lookup(m, "generateCpuProfile"@));
    assert(spec_opt_bool(m.insert(at, (k, w)), "generateCpuProfile"@) == spec_opt_bool(m, "generateCpuProfile"@));
    assert(lookup(m.insert(at, (k, w)), "importsNotUsedAsValues"@) == lookup(m, "importsNotUsedAsValues"@));
    assert(spec_opt_text(m.insert(at, (k, w)), "importsNotUsedAsValues"@) == spec_opt_text(m, "importsNotUsedAsValues"@));
    assert(lookup(m.insert(at, (k, w)), "jsxFactory"@) == lookup(m, "jsxFactory"@));
    assert(spec_opt_text(m.insert(at, (k, w)), "jsxFactory"@) == spec_opt_text(m, "jsxFactory"@));
    assert(lookup(m.insert(at, (k, w)), "jsxFragmentFactory"@) == lookup(m, "jsxFragmentFactory"@));
    assert(spec_opt_text(m.insert(at, (k, w)), "jsxFragmentFactory"@) == spec_opt_text(m, "jsxFragmentFactory"@));
    assert(lookup(m.insert(at, (k, w)), "jsxImportSource"@) == lookup(m, "jsxImportSource"@));
    assert(spec_opt_text(m.insert(at, (k, w)), "jsxImportSource"@) == spec_opt_text(m, "jsxImportSource"@));
    assert(lookup(m.insert(at, (k, w)), "keyofStringsOnly"@) == lookup(m, "keyofStringsOnly"@));
    assert(spec_opt_bool(m.insert(at, (k, w)), "keyofStringsOnly"@) == spec_opt_bool(m, "keyofStringsOnly"@));
    assert(lookup(m.insert(at, (k, w)), "listEmittedFiles"@) == lookup(m, "listEmittedFiles"@));
    assert(spec_opt_bool(m.insert(at, (k, w)), "listEmittedFiles"@) == spec_opt_bool(m, "listEmittedFiles"@));
    assert(lookup(m.insert(at, (k, w)), "listFiles"@) == lookup(m, "listFiles"@));
    assert(spec_opt_bool(m.insert(at, (k, w)), "listFiles"@) == spec_opt_bool(m, "listFiles"@));
    assert(lookup(m.insert(at, (k, w)), "maxNodeModuleJsDepth"@) == lookup(m, "maxNodeModuleJsDepth"@));
    assert(spec_opt_u32(m.insert(at, (k, w)), "maxNodeModuleJsDepth"@) == spec_opt_u32(m, "maxNodeModuleJsDepth"@));
    assert(lookup(m.insert(at, (k, w)), "noEmitHelpers"@) == lookup(m, "noEmitHelpers"@));
    assert(spec_opt_bool(m.insert(at, (k, w)), "noEmitHelpers"@) == spec_opt_bool(m, "noEmitHelpers"@));
    assert(lookup(m.insert(at, (k, w)), "noEmitOnError"@) == lookup(m, "noEmitOnError"@));
    assert(spec_opt_bool(m.insert(at, (k, w)), "noEmitOnError"@) == spec_opt_bool(m, "noEmitOnError"@));
    assert(lookup(m.insert(at, (k, w)), "noErrorTruncation"@) == lookup(m, "noErrorTruncation"@));
    assert(spec_opt_bool(m.insert(at, (k, w)), "noErrorTruncation"@) == spec_opt_bool(m, "noErrorTruncation"@));
    assert(lookup(m.insert(at, (k, w)), "noImplicitUseStrict"@) == lookup(m, "noImplicitUseStrict"@));
    assert(spec_opt_bool(m.insert(at, (k, w)), "noImplicitUseStrict"@) == spec_opt_bool(m, "noImplicitUseStrict"@));
    assert(lookup(m.insert(at, (k, w)), "noLib"@) == lookup(m, "noLib"@));
    assert(spec_opt_bool(m.insert(at, (k, w)), "noLib"@) == spec_opt_bool(m, "noLib"@));
    assert(lookup(m.insert(at, (k, w)), "noResolve"@) == lookup(m, "noResolve"@));
    assert(spec_opt_bool(m.insert(at, (k, w)), "noResolve"@) == spec_opt_bool(m, "noResolve"@));
    assert(lookup(m.insert(at, (k, w)), "noStrictGenericChecks"@) == lookup(m, "noStrictGenericChecks"@));
    assert(spec_opt_bool(m.insert(at, (k, w)), "noStrictGenericChecks"@) == spec_opt_bool(m, "noStrictGenericChecks"@));
    assert(lookup(m.insert(at, (k, w)), "out"@) == lookup(m, "out"@));
    assert(spec_opt_bool(m.insert(at, (k, w)), "out"@) == spec_opt_bool(m, "out"@));
    assert(lookup(m.insert(at, (k, w)), "preserveConstEnums"@) == lookup(m, "preserveConstEnums"@));
    assert(spec_opt_bool(m.insert(at, (k, w)), "preserveConstEnums"@) == spec_opt_bool(m, "preserveConstEnums"@));
    assert(lookup(m.insert(at, (k, w)), "reactNamespace"@) == lookup(m, "reactNamespace"@));
    assert(spec_opt_text(m.insert(at, (k, w)), "reactNamespace"@) == spec_opt_text(m, "reactNamespace"@));
    assert(lookup(m.insert(at, (k, w)), "resolveJsonModule"@) == lookup(m, "resolveJsonModule"@));
    assert(spec_opt_bool(m.insert(at, (k, w)), "resolveJsonModule"@) == spec_opt_bool(m, "resolveJsonModule"@));
    assert(lookup(m.insert(at, (k, w)), "skipDefaultLibCheck"@) == lookup(m, "skipDefaultLibCheck"@));
    assert(spec_opt_bool(m.insert(at, (k, w)), "skipDefaultLibCheck"@) == spec_opt_bool(m, "skipDefaultLibCheck"@));
    assert(lookup(m.insert(at, (k, w)), "skipLibCheck"@) == lookup(m, "skipLibCheck"@));
    assert(spec_opt_bool(m.insert(at, (k, w)), "skipLibCheck"@) == spec_opt_bool(m, "skipLibCheck"@));
    assert(lookup(m.insert(at, (k, w)), "stripInternal"@) == lookup(m, "stripInternal"@));
    assert(spec_opt_bool(m.insert(at, (k, w)), "stripInternal"@) == spec_opt_bool(m, "stripInternal"@));
    assert(lookup(m.insert(at, (k, w)), "suppressExcessPropertyErrors"@) == lookup(m, "suppressExcessPropertyErrors"@));
    assert(spec_opt_bool(m.insert(at, (k, w)), "suppressExcessPropertyErrors"@) == spec_opt_bool(m, "suppressExcessPropertyErrors"@));
    assert(lookup(m.insert(at, (k, w)), "suppressImplicitAnyIndexErrors"@) == lookup(m, "suppressImplicitAnyIndexErrors"@));
    assert(spec_opt_bool(m.insert(at, (k, w)), "suppressImplicitAnyIndexErrors"@) == spec_opt_bool(m, "suppressImplicitAnyIndexErrors"@));
    assert(lookup(m.insert(at, (k, w)), "traceResolution"@) == lookup(m, "traceResolution"@));
    assert(spec_opt_bool(m.insert(at, (k, w)), "traceResolution"@) == spec_opt_bool(m, "traceResolution"@));
    assert(lookup(m.insert(at, (k, w)), "useDefineForClassFields"@) == lookup(m, "useDefineForClassFields"@));
    assert(spec_opt_bool(m.insert(at, (k, w)), "useDefineForClassFields"@) == spec_opt_bool(m, "useDefineForClassFields"@));
    assert(lookup(m.insert(at, (k, w)), "preserveWatchOutput"@) == lookup(m, "preserveWatchOutput"@));
    assert(spec_opt_bool(m.insert(at, (k, w)), "preserveWatchOutput"@) == spec_opt_bool(m, "preserveWatchOutput"@));
    assert(lookup(m.insert(at, (k, w)), "pretty"@) == lookup(m, "pretty"@));
    assert(spec_opt_bool(m.insert(at, (k, w)), "pretty"@) == spec_opt_bool(m, "pretty"@));
    assert(lookup(m.insert(at, (k, w)), "fallbackPolling"@) == lookup(m, "fallbackPolling"@));
    assert(spec_opt_text(m.insert(at, (k, w)), "fallbackPolling"@) == spec_opt_text(m, "fallbackPolling"@));
    assert(lookup(m.insert(at, (k, w)), "watchDirectory"@) == lookup(m, "watchDirectory"@));
    assert(spec_opt_text(m.insert(at, (k, w)), "watchDirectory"@) == spec_opt_text(m, "watchDirectory"@));
    assert(lookup(m.insert(at, (k, w)), "watchFile"@) == lookup(m, "watchFile"@));
    assert(spec_opt_text(m.insert(at, (k, w)), "watchFile"@) == spec_opt_text(m, "watchFile"@));
}

/// An empty document maps, without error, to a document with every field
/// unset.
pub proof fn lemma_empty_document(m: Seq<(Seq<char>, JsonV)>, t: TsConfig)
    requires
        m.len() == 0,
    ensures
        doc_first_err(JsonV::Obj(m)) is None,
        doc_matches(t, JsonV::Obj(m)) ==> {
            &&& t.exclude is None
            &&& t.extends is None
            &&& t.files is None
            &&& t.include_patterns is None
            &&& t.references is None
            &&& t.type_acquisition is None
            &&& t.compiler_options is None
        },
{
}

/// An empty `compilerOptions` object maps, without error, to an options
/// bag with every field unset.
pub proof fn lemma_empty_options(m: Seq<(Seq<char>, JsonV)>, c: CompilerOptions)
    requires
        m.len() == 0,
    ensures
        co_first_err(m) is None,
        co_matches(c, m) ==> {
            &&& c.allow_js is None
            &&& c.check_js is None
            &&& c.composite is None
            &&& c.declaration is None
            &&& c.declaration_map is None
            &&& c.downlevel_iteration is None
            &&& c.import_helpers is None
            &&& c.incremental is None
            &&& c.isolated_modules is None
            &&& c.jsx is None
            &&& c.lib is None
            &&& c.module is None
            &&& c.no_emit is None
            &&& c.out_dir is None
            &&& c.out_file is None
            &&& c.remove_comments is None
            &&& c.root_dir is None
            &&& c.source_map is None
            &&& c.target is None
            &&& c.ts_build_info_file is None
            &&& c.always_strict is None
            &&& c.no_implicit_any is None
            &&& c.no_implicit_this is None
            &&& c.strict is None
            &&& c.strict_bind_call_apply is None
            &&& c.strict_function_types is None
            &&& c.strict_null_checks is None
            &&& c.strict_property_initialization is None
            &&& c.allow_synthetic_default_imports is None
            &&& c.allow_umd_global_access is None
            &&& c.base_url is None
            &&& c.es_module_interop is None
            &&& c.module_resolution is None
            &&& c.paths is None
            &&& c.preserve_symlinks is None
            &&& c.root_dirs is None
            &&& c.type_roots is None
            &&& c.types is None
            &&& c.inline_source_map is None
            &&& c.inline_sources is None
            &&& c.map_root is None
            &&& c.source_root is None
            &&& c.no_fallthrough_cases_in_switch is None
            &&& c.no_implicit_returns is None
            &&& c.no_property_access_from_index_signature is None
            &&& c.no_unchecked_indexed_access is None
            &&& c.no_unused_locals is None
            &&& c.emit_decorator_metadata is None
            &&& c.experimental_decorators is None
            &&& c.allow_unreachable_code is None
            &&& c.allow_unused_labels is None
            &&& c.assume_changes_only_affect_direct_dependencies is None
            &&& c.charset is None
            &&& c.declaration_dir is None
            &&& c.diagnostics is None
            &&& c.disable_referenced_project_load is None
            &&& c.disable_size_limit is None
            &&& c.disable_solution_searching is None
            &&& c.disable_source_of_project_reference_redirect is None
            &&& c.emit_bom is None
            &&& c.emit_declaration_only is None
            &&& c.explain_files is None
            &&& c.extended_diagnostics is None
            &&& c.force_consistent_casing_in_file_names is None
            &&& c.generate_cpu_profile is None
            &&& c.imports_not_used_as_values is None
            &&& c.jsx_factory is None
            &&& c.jsx_fragment_factory is None
            &&& c.jsx_import_source is None
            &&& c.keyof_strings_only is None
            &&& c.list_emitted_files is None
            &&& c.list_files is None
            &&& c.max_node_module_js_depth is None
            &&& c.no_emit_helpers is None
            &&& c.no_emit_on_error is None
            &&& c.no_error_truncation is None
            &&& c.no_implicit_use_strict is None
            &&& c.no_lib is None
            &&& c.no_resolve is None
            &&& c.no_strict_generic_checks is None
            &&& c.out is None
            &&& c.preserve_const_enums is None
            &&& c.react_namespace is None
            &&& c.resolve_json_module is None
            &&& c.skip_default_lib_check is None
            &&& c.skip_lib_check is None
            &&& c.strip_internal is None
            &&& c.suppress_excess_property_errors is None
            &&& c.suppress_implicit_any_index_errors is None
            &&& c.trace_resolution is None
            &&& c.use_define_for_class_fields is None
            &&& c.preserve_watch_output is None
            &&& c.pretty is None
            &&& c.fallback_polling is None
            &&& c.watch_directory is None
            &&& c.watch_file is None
        },
{
}

} // verus!
