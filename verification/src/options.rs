//! The compiler-options bag: the flat schema of independently optional
//! fields under the document's `compilerOptions` key.
//!
//! Every field is unset when its key is absent or bound to `null`; a present
//! value of the wrong kind is the field's error, and the mapper reports the
//! first offending field in the order the fields are declared below.
//! Unknown keys among the members are ignored.

use vstd::prelude::*;

use crate::enums::{Jsx, Lib, LibV, Module, ModuleResolutionMode, ModuleV, Target, TargetV};
use crate::errors::{ConfigError, ConfigErrorV};
use crate::fields::{
    get_opt_bool, get_opt_jsx, get_opt_libs, get_opt_module, get_opt_module_resolution,
    get_opt_paths, get_opt_target, get_opt_text, get_opt_texts, get_opt_u32, spec_opt_bool,
    spec_opt_jsx, spec_opt_libs, spec_opt_module, spec_opt_module_resolution, spec_opt_paths,
    spec_opt_target, spec_opt_text, spec_opt_texts, spec_opt_u32, PathsMap,
};
use crate::json::{entries_view, Json, JsonV};

verus! {

/// Turns a field extraction's outcome into its error, if it had one.
pub open spec fn err_opt<T>(r: Result<T, ConfigErrorV>) -> Option<ConfigErrorV> {
    match r {
        Ok(_) => Option::None,
        Err(e) => Option::Some(e),
    }
}

/// The options bag under `compilerOptions`.  Every field is independently
/// optional; a few are obsolete upstream but still accepted and mapped.
#[derive(Debug, Clone, PartialEq)]
pub struct CompilerOptions {
    pub allow_js: Option<bool>,
    pub check_js: Option<bool>,
    pub composite: Option<bool>,
    pub declaration: Option<bool>,
    pub declaration_map: Option<bool>,
    pub downlevel_iteration: Option<bool>,
    pub import_helpers: Option<bool>,
    pub incremental: Option<bool>,
    pub isolated_modules: Option<bool>,
    pub jsx: Option<Jsx>,
    pub lib: Option<Vec<Lib>>,
    pub module: Option<Module>,
    pub no_emit: Option<bool>,
    pub out_dir: Option<String>,
    pub out_file: Option<String>,
    pub remove_comments: Option<bool>,
    pub root_dir: Option<String>,
    pub source_map: Option<bool>,
    pub target: Option<Target>,
    pub ts_build_info_file: Option<String>,
    pub always_strict: Option<bool>,
    pub no_implicit_any: Option<bool>,
    pub no_implicit_this: Option<bool>,
    pub strict: Option<bool>,
    pub strict_bind_call_apply: Option<bool>,
    pub strict_function_types: Option<bool>,
    pub strict_null_checks: Option<bool>,
    pub strict_property_initialization: Option<bool>,
    pub allow_synthetic_default_imports: Option<bool>,
    pub allow_umd_global_access: Option<bool>,
    pub base_url: Option<String>,
    pub es_module_interop: Option<bool>,
    pub module_resolution: Option<ModuleResolutionMode>,
    pub paths: Option<PathsMap>,
    pub preserve_symlinks: Option<bool>,
    pub root_dirs: Option<Vec<String>>,
    pub type_roots: Option<Vec<String>>,
    pub types: Option<Vec<String>>,
    pub inline_source_map: Option<bool>,
    pub inline_sources: Option<bool>,
    pub map_root: Option<String>,
    pub source_root: Option<String>,
    pub no_fallthrough_cases_in_switch: Option<bool>,
    pub no_implicit_returns: Option<bool>,
    pub no_property_access_from_index_signature: Option<bool>,
    pub no_unchecked_indexed_access: Option<bool>,
    pub no_unused_locals: Option<bool>,
    pub emit_decorator_metadata: Option<bool>,
    pub experimental_decorators: Option<bool>,
    pub allow_unreachable_code: Option<bool>,
    pub allow_unused_labels: Option<bool>,
    pub assume_changes_only_affect_direct_dependencies: Option<bool>,
    /// Obsolete upstream; still accepted and mapped.
    pub charset: Option<String>,
    pub declaration_dir: Option<String>,
    /// Obsolete upstream; still accepted and mapped.
    pub diagnostics: Option<bool>,
    pub disable_referenced_project_load: Option<bool>,
    pub disable_size_limit: Option<bool>,
    pub disable_solution_searching: Option<bool>,
    pub disable_source_of_project_reference_redirect: Option<bool>,
    pub emit_bom: Option<bool>,
    pub emit_declaration_only: Option<bool>,
    pub explain_files: Option<bool>,
    pub extended_diagnostics: Option<bool>,
    pub force_consistent_casing_in_file_names: Option<bool>,
    pub generate_cpu_profile: Option<bool>,
    pub imports_not_used_as_values: Option<String>,
    pub jsx_factory: Option<String>,
    pub jsx_fragment_factory: Option<String>,
    pub jsx_import_source: Option<String>,
    pub keyof_strings_only: Option<bool>,
    pub list_emitted_files: Option<bool>,
    pub list_files: Option<bool>,
    pub max_node_module_js_depth: Option<u32>,
    pub no_emit_helpers: Option<bool>,
    pub no_emit_on_error: Option<bool>,
    pub no_error_truncation: Option<bool>,
    pub no_implicit_use_strict: Option<bool>,
    pub no_lib: Option<bool>,
    pub no_resolve: Option<bool>,
    pub no_strict_generic_checks: Option<bool>,
    /// Obsolete upstream; still accepted and mapped.
    pub out: Option<bool>,
    pub preserve_const_enums: Option<bool>,
    pub react_namespace: Option<String>,
    pub resolve_json_module: Option<bool>,
    pub skip_default_lib_check: Option<bool>,
    pub skip_lib_check: Option<bool>,
    pub strip_internal: Option<bool>,
    pub suppress_excess_property_errors: Option<bool>,
    pub suppress_implicit_any_index_errors: Option<bool>,
    pub trace_resolution: Option<bool>,
    pub use_define_for_class_fields: Option<bool>,
    pub preserve_watch_output: Option<bool>,
    pub pretty: Option<bool>,
    pub fallback_polling: Option<String>,
    pub watch_directory: Option<String>,
    pub watch_file: Option<String>,
}

/// The first field error among the members `m` of a `compilerOptions`
/// object, `None` when every field extracts.  "First" goes by the order the
/// fields are declared in [`CompilerOptions`]; the members' textual order in
/// the document plays no role here.
pub open spec fn co_first_err(m: Seq<(Seq<char>, JsonV)>) -> Option<ConfigErrorV> {
    if err_opt(spec_opt_bool(m, "allowJs"@)) is Some {
        err_opt(spec_opt_bool(m, "allowJs"@))
    } else if err_opt(spec_opt_bool(m, "checkJs"@)) is Some {
        err_opt(spec_opt_bool(m, "checkJs"@))
    } else if err_opt(spec_opt_bool(m, "composite"@)) is Some {
        err_opt(spec_opt_bool(m, "composite"@))
    } else if err_opt(spec_opt_bool(m, "declaration"@)) is Some {
        err_opt(spec_opt_bool(m, "declaration"@))
    } else if err_opt(spec_opt_bool(m, "declarationMap"@)) is Some {
        err_opt(spec_opt_bool(m, "declarationMap"@))
    } else if err_opt(spec_opt_bool(m, "downlevelIteration"@)) is Some {
        err_opt(spec_opt_bool(m, "downlevelIteration"@))
    } else if err_opt(spec_opt_bool(m, "importHelpers"@)) is Some {
        err_opt(spec_opt_bool(m, "importHelpers"@))
    } else if err_opt(spec_opt_bool(m, "incremental"@)) is Some {
        err_opt(spec_opt_bool(m, "incremental"@))
    } else if err_opt(spec_opt_bool(m, "isolatedModules"@)) is Some {
        err_opt(spec_opt_bool(m, "isolatedModules"@))
    } else if err_opt(spec_opt_jsx(m, "jsx"@)) is Some {
        err_opt(spec_opt_jsx(m, "jsx"@))
    } else if err_opt(spec_opt_libs(m, "lib"@)) is Some {
        err_opt(spec_opt_libs(m, "lib"@))
    } else if err_opt(spec_opt_module(m, "module"@)) is Some {
        err_opt(spec_opt_module(m, "module"@))
    } else if err_opt(spec_opt_bool(m, "noEmit"@)) is Some {
        err_opt(spec_opt_bool(m, "noEmit"@))
    } else if err_opt(spec_opt_text(m, "outDir"@)) is Some {
        err_opt(spec_opt_text(m, "outDir"@))
    } else if err_opt(spec_opt_text(m, "outFile"@)) is Some {
        err_opt(spec_opt_text(m, "outFile"@))
    } else if err_opt(spec_opt_bool(m, "removeComments"@)) is Some {
        err_opt(spec_opt_bool(m, "removeComments"@))
    } else if err_opt(spec_opt_text(m, "rootDir"@)) is Some {
        err_opt(spec_opt_text(m, "rootDir"@))
    } else if err_opt(spec_opt_bool(m, "sourceMap"@)) is Some {
        err_opt(spec_opt_bool(m, "sourceMap"@))
    } else if err_opt(spec_opt_target(m, "target"@)) is Some {
        err_opt(spec_opt_target(m, "target"@))
    } else if err_opt(spec_opt_text(m, "tsBuildInfoFile"@)) is Some {
        err_opt(spec_opt_text(m, "tsBuildInfoFile"@))
    } else if err_opt(spec_opt_bool(m, "alwaysStrict"@)) is Some {
        err_opt(spec_opt_bool(m, "alwaysStrict"@))
    } else if err_opt(spec_opt_bool(m, "noImplicitAny"@)) is Some {
        err_opt(spec_opt_bool(m, "noImplicitAny"@))
    } else if err_opt(spec_opt_bool(m, "noImplicitThis"@)) is Some {
        err_opt(spec_opt_bool(m, "noImplicitThis"@))
    } else if err_opt(spec_opt_bool(m, "strict"@)) is Some {
        err_opt(spec_opt_bool(m, "strict"@))
    } else if err_opt(spec_opt_bool(m, "strictBindCallApply"@)) is Some {
        err_opt(spec_opt_bool(m, "strictBindCallApply"@))
    } else if err_opt(spec_opt_bool(m, "strictFunctionTypes"@)) is Some {
        err_opt(spec_opt_bool(m, "strictFunctionTypes"@))
    } else if err_opt(spec_opt_bool(m, "strictNullChecks"@)) is Some {
        err_opt(spec_opt_bool(m, "strictNullChecks"@))
    } else if err_opt(spec_opt_bool(m, "strictPropertyInitialization"@)) is Some {
        err_opt(spec_opt_bool(m, "strictPropertyInitialization"@))
    } else if err_opt(spec_opt_bool(m, "allowSyntheticDefaultImports"@)) is Some {
        err_opt(spec_opt_bool(m, "allowSyntheticDefaultImports"@))
    } else if err_opt(spec_opt_bool(m, "allowUmdGlobalAccess"@)) is Some {
        err_opt(spec_opt_bool(m, "allowUmdGlobalAccess"@))
    } else if err_opt(spec_opt_text(m, "baseUrl"@)) is Some {
        err_opt(spec_opt_text(m, "baseUrl"@))
    } else if err_opt(spec_opt_bool(m, "esModuleInterop"@)) is Some {
        err_opt(spec_opt_bool(m, "esModuleInterop"@))
    } else if err_opt(spec_opt_module_resolution(m, "moduleResolution"@)) is Some {
        err_opt(spec_opt_module_resolution(m, "moduleResolution"@))
    } else if err_opt(spec_opt_paths(m, "paths"@)) is Some {
        err_opt(spec_opt_paths(m, "paths"@))
    } else if err_opt(spec_opt_bool(m, "preserveSymlinks"@)) is Some {
        err_opt(spec_opt_bool(m, "preserveSymlinks"@))
    } else if err_opt(spec_opt_texts(m, "rootDirs"@)) is Some {
        err_opt(spec_opt_texts(m, "rootDirs"@))
    } else if err_opt(spec_opt_texts(m, "typeRoots"@)) is Some {
        err_opt(spec_opt_texts(m, "typeRoots"@))
    } else if err_opt(spec_opt_texts(m, "types"@)) is Some {
        err_opt(spec_opt_texts(m, "types"@))
    } else if err_opt(spec_opt_bool(m, "inlineSourceMap"@)) is Some {
        err_opt(spec_opt_bool(m, "inlineSourceMap"@))
    } else if err_opt(spec_opt_bool(m, "inlineSources"@)) is Some {
        err_opt(spec_opt_bool(m, "inlineSources"@))
    } else if err_opt(spec_opt_text(m, "mapRoot"@)) is Some {
        err_opt(spec_opt_text(m, "mapRoot"@))
    } else if err_opt(spec_opt_text(m, "sourceRoot"@)) is Some {
        err_opt(spec_opt_text(m, "sourceRoot"@))
    } else if err_opt(spec_opt_bool(m, "noFallthroughCasesInSwitch"@)) is Some {
        err_opt(spec_opt_bool(m, "noFallthroughCasesInSwitch"@))
    } else if err_opt(spec_opt_bool(m, "noImplicitReturns"@)) is Some {
        err_opt(spec_opt_bool(m, "noImplicitReturns"@))
    } else if err_opt(spec_opt_bool(m, "noPropertyAccessFromIndexSignature"@)) is Some {
        err_opt(spec_opt_bool(m, "noPropertyAccessFromIndexSignature"@))
    } else if err_opt(spec_opt_bool(m, "noUncheckedIndexedAccess"@)) is Some {
        err_opt(spec_opt_bool(m, "noUncheckedIndexedAccess"@))
    } else if err_opt(spec_opt_bool(m, "noUnusedLocals"@)) is Some {
        err_opt(spec_opt_bool(m, "noUnusedLocals"@))
    } else if err_opt(spec_opt_bool(m, "emitDecoratorMetadata"@)) is Some {
        err_opt(spec_opt_bool(m, "emitDecoratorMetadata"@))
    } else if err_opt(spec_opt_bool(m, "experimentalDecorators"@)) is Some {
        err_opt(spec_opt_bool(m, "experimentalDecorators"@))
    } else if err_opt(spec_opt_bool(m, "allowUnreachableCode"@)) is Some {
        err_opt(spec_opt_bool(m, "allowUnreachableCode"@))
    } else if err_opt(spec_opt_bool(m, "allowUnusedLabels"@)) is Some {
        err_opt(spec_opt_bool(m, "allowUnusedLabels"@))
    } else if err_opt(spec_opt_bool(m, "assumeChangesOnlyAffectDirectDependencies"@)) is Some {
        err_opt(spec_opt_bool(m, "assumeChangesOnlyAffectDirectDependencies"@))
    } else if err_opt(spec_opt_text(m, "charset"@)) is Some {
        err_opt(spec_opt_text(m, "charset"@))
    } else if err_opt(spec_opt_text(m, "declarationDir"@)) is Some {
        err_opt(spec_opt_text(m, "declarationDir"@))
    } else if err_opt(spec_opt_bool(m, "diagnostics"@)) is Some {
        err_opt(spec_opt_bool(m, "diagnostics"@))
    } else if err_opt(spec_opt_bool(m, "disableReferencedProjectLoad"@)) is Some {
        err_opt(spec_opt_bool(m, "disableReferencedProjectLoad"@))
    } else if err_opt(spec_opt_bool(m, "disableSizeLimit"@)) is Some {
        err_opt(spec_opt_bool(m, "disableSizeLimit"@))
    } else if err_opt(spec_opt_bool(m, "disableSolutionSearching"@)) is Some {
        err_opt(spec_opt_bool(m, "disableSolutionSearching"@))
    } else if err_opt(spec_opt_bool(m, "disableSourceOfProjectReferenceRedirect"@)) is Some {
        err_opt(spec_opt_bool(m, "disableSourceOfProjectReferenceRedirect"@))
    } else if err_opt(spec_opt_bool(m, "emitBOM"@)) is Some {
        err_opt(spec_opt_bool(m, "emitBOM"@))
    } else if err_opt(spec_opt_bool(m, "emitDeclarationOnly"@)) is Some {
        err_opt(spec_opt_bool(m, "emitDeclarationOnly"@))
    } else if err_opt(spec_opt_bool(m, "explainFiles"@)) is Some {
        err_opt(spec_opt_bool(m, "explainFiles"@))
    } else if err_opt(spec_opt_bool(m, "extendedDiagnostics"@)) is Some {
        err_opt(spec_opt_bool(m, "extendedDiagnostics"@))
    } else if err_opt(spec_opt_bool(m, "forceConsistentCasingInFileNames"@)) is Some {
        err_opt(spec_opt_bool(m, "forceConsistentCasingInFileNames"@))
    } else if err_opt(spec_opt_bool(m, "generateCpuProfile"@)) is Some {
        err_opt(spec_opt_bool(m, "generateCpuProfile"@))
    } else if err_opt(spec_opt_text(m, "importsNotUsedAsValues"@)) is Some {
        err_opt(spec_opt_text(m, "importsNotUsedAsValues"@))
    } else if err_opt(spec_opt_text(m, "jsxFactory"@)) is Some {
        err_opt(spec_opt_text(m, "jsxFactory"@))
    } else if err_opt(spec_opt_text(m, "jsxFragmentFactory"@)) is Some {
        err_opt(spec_opt_text(m, "jsxFragmentFactory"@))
    } else if err_opt(spec_opt_text(m, "jsxImportSource"@)) is Some {
        err_opt(spec_opt_text(m, "jsxImportSource"@))
    } else if err_opt(spec_opt_bool(m, "keyofStringsOnly"@)) is Some {
        err_opt(spec_opt_bool(m, "keyofStringsOnly"@))
    } else if err_opt(spec_opt_bool(m, "listEmittedFiles"@)) is Some {
        err_opt(spec_opt_bool(m, "listEmittedFiles"@))
    } else if err_opt(spec_opt_bool(m, "listFiles"@)) is Some {
        err_opt(spec_opt_bool(m, "listFiles"@))
    } else if err_opt(spec_opt_u32(m, "maxNodeModuleJsDepth"@)) is Some {
        err_opt(spec_opt_u32(m, "maxNodeModuleJsDepth"@))
    } else if err_opt(spec_opt_bool(m, "noEmitHelpers"@)) is Some {
        err_opt(spec_opt_bool(m, "noEmitHelpers"@))
    } else if err_opt(spec_opt_bool(m, "noEmitOnError"@)) is Some {
        err_opt(spec_opt_bool(m, "noEmitOnError"@))
    } else if err_opt(spec_opt_bool(m, "noErrorTruncation"@)) is Some {
        err_opt(spec_opt_bool(m, "noErrorTruncation"@))
    } else if err_opt(spec_opt_bool(m, "noImplicitUseStrict"@)) is Some {
        err_opt(spec_opt_bool(m, "noImplicitUseStrict"@))
    } else if err_opt(spec_opt_bool(m, "noLib"@)) is Some {
        err_opt(spec_opt_bool(m, "noLib"@))
    } else if err_opt(spec_opt_bool(m, "noResolve"@)) is Some {
        err_opt(spec_opt_bool(m, "noResolve"@))
    } else if err_opt(spec_opt_bool(m, "noStrictGenericChecks"@)) is Some {
        err_opt(spec_opt_bool(m, "noStrictGenericChecks"@))
    } else if err_opt(spec_opt_bool(m, "out"@)) is Some {
        err_opt(spec_opt_bool(m, "out"@))
    } else if err_opt(spec_opt_bool(m, "preserveConstEnums"@)) is Some {
        err_opt(spec_opt_bool(m, "preserveConstEnums"@))
    } else if err_opt(spec_opt_text(m, "reactNamespace"@)) is Some {
        err_opt(spec_opt_text(m, "reactNamespace"@))
    } else if err_opt(spec_opt_bool(m, "resolveJsonModule"@)) is Some {
        err_opt(spec_opt_bool(m, "resolveJsonModule"@))
    } else if err_opt(spec_opt_bool(m, "skipDefaultLibCheck"@)) is Some {
        err_opt(spec_opt_bool(m, "skipDefaultLibCheck"@))
    } else if err_opt(spec_opt_bool(m, "skipLibCheck"@)) is Some {
        err_opt(spec_opt_bool(m, "skipLibCheck"@))
    } else if err_opt(spec_opt_bool(m, "stripInternal"@)) is Some {
        err_opt(spec_opt_bool(m, "stripInternal"@))
    } else if err_opt(spec_opt_bool(m, "suppressExcessPropertyErrors"@)) is Some {
        err_opt(spec_opt_bool(m, "suppressExcessPropertyErrors"@))
    } else if err_opt(spec_opt_bool(m, "suppressImplicitAnyIndexErrors"@)) is Some {
        err_opt(spec_opt_bool(m, "suppressImplicitAnyIndexErrors"@))
    } else if err_opt(spec_opt_bool(m, "traceResolution"@)) is Some {
        err_opt(spec_opt_bool(m, "traceResolution"@))
    } else if err_opt(spec_opt_bool(m, "useDefineForClassFields"@)) is Some {
        err_opt(spec_opt_bool(m, "useDefineForClassFields"@))
    } else if err_opt(spec_opt_bool(m, "preserveWatchOutput"@)) is Some {
        err_opt(spec_opt_bool(m, "preserveWatchOutput"@))
    } else if err_opt(spec_opt_bool(m, "pretty"@)) is Some {
        err_opt(spec_opt_bool(m, "pretty"@))
    } else if err_opt(spec_opt_text(m, "fallbackPolling"@)) is Some {
        err_opt(spec_opt_text(m, "fallbackPolling"@))
    } else if err_opt(spec_opt_text(m, "watchDirectory"@)) is Some {
        err_opt(spec_opt_text(m, "watchDirectory"@))
    } else if err_opt(spec_opt_text(m, "watchFile"@)) is Some {
        err_opt(spec_opt_text(m, "watchFile"@))
    } else {
        Option::None
    }
}

/// Whether `c` holds exactly what the members `m` of a `compilerOptions`
/// object say: every field's extraction succeeds and yields that field.
pub open spec fn co_matches(c: CompilerOptions, m: Seq<(Seq<char>, JsonV)>) -> bool {
    &&& spec_opt_bool(m, "allowJs"@) == Ok::<Option<bool>, ConfigErrorV>(c.allow_js)
    &&& spec_opt_bool(m, "checkJs"@) == Ok::<Option<bool>, ConfigErrorV>(c.check_js)
    &&& spec_opt_bool(m, "composite"@) == Ok::<Option<bool>, ConfigErrorV>(c.composite)
    &&& spec_opt_bool(m, "declaration"@) == Ok::<Option<bool>, ConfigErrorV>(c.declaration)
    &&& spec_opt_bool(m, "declarationMap"@) == Ok::<Option<bool>, ConfigErrorV>(c.declaration_map)
    &&& spec_opt_bool(m, "downlevelIteration"@) == Ok::<Option<bool>, ConfigErrorV>(c.downlevel_iteration)
    &&& spec_opt_bool(m, "importHelpers"@) == Ok::<Option<bool>, ConfigErrorV>(c.import_helpers)
    &&& spec_opt_bool(m, "incremental"@) == Ok::<Option<bool>, ConfigErrorV>(c.incremental)
    &&& spec_opt_bool(m, "isolatedModules"@) == Ok::<Option<bool>, ConfigErrorV>(c.isolated_modules)
    &&& spec_opt_jsx(m, "jsx"@) == Ok::<Option<Jsx>, ConfigErrorV>(c.jsx)
    &&& spec_opt_libs(m, "lib"@) == Ok::<Option<Seq<LibV>>, ConfigErrorV>(c.lib.deep_view())
    &&& spec_opt_module(m, "module"@) == Ok::<Option<ModuleV>, ConfigErrorV>(c.module.deep_view())
    &&& spec_opt_bool(m, "noEmit"@) == Ok::<Option<bool>, ConfigErrorV>(c.no_emit)
    &&& spec_opt_text(m, "outDir"@) == Ok::<Option<Seq<char>>, ConfigErrorV>(c.out_dir.deep_view())
    &&& spec_opt_text(m, "outFile"@) == Ok::<Option<Seq<char>>, ConfigErrorV>(c.out_file.deep_view())
    &&& spec_opt_bool(m, "removeComments"@) == Ok::<Option<bool>, ConfigErrorV>(c.remove_comments)
    &&& spec_opt_text(m, "rootDir"@) == Ok::<Option<Seq<char>>, ConfigErrorV>(c.root_dir.deep_view())
    &&& spec_opt_bool(m, "sourceMap"@) == Ok::<Option<bool>, ConfigErrorV>(c.source_map)
    &&& spec_opt_target(m, "target"@) == Ok::<Option<TargetV>, ConfigErrorV>(c.target.deep_view())
    &&& spec_opt_text(m, "tsBuildInfoFile"@) == Ok::<Option<Seq<char>>, ConfigErrorV>(c.ts_build_info_file.deep_view())
    &&& spec_opt_bool(m, "alwaysStrict"@) == Ok::<Option<bool>, ConfigErrorV>(c.always_strict)
    &&& spec_opt_bool(m, "noImplicitAny"@) == Ok::<Option<bool>, ConfigErrorV>(c.no_implicit_any)
    &&& spec_opt_bool(m, "noImplicitThis"@) == Ok::<Option<bool>, ConfigErrorV>(c.no_implicit_this)
    &&& spec_opt_bool(m, "strict"@) == Ok::<Option<bool>, ConfigErrorV>(c.strict)
    &&& spec_opt_bool(m, "strictBindCallApply"@) == Ok::<Option<bool>, ConfigErrorV>(c.strict_bind_call_apply)
    &&& spec_opt_bool(m, "strictFunctionTypes"@) == Ok::<Option<bool>, ConfigErrorV>(c.strict_function_types)
    &&& spec_opt_bool(m, "strictNullChecks"@) == Ok::<Option<bool>, ConfigErrorV>(c.strict_null_checks)
    &&& spec_opt_bool(m, "strictPropertyInitialization"@) == Ok::<Option<bool>, ConfigErrorV>(c.strict_property_initialization)
    &&& spec_opt_bool(m, "allowSyntheticDefaultImports"@) == Ok::<Option<bool>, ConfigErrorV>(c.allow_synthetic_default_imports)
    &&& spec_opt_bool(m, "allowUmdGlobalAccess"@) == Ok::<Option<bool>, ConfigErrorV>(c.allow_umd_global_access)
    &&& spec_opt_text(m, "baseUrl"@) == Ok::<Option<Seq<char>>, ConfigErrorV>(c.base_url.deep_view())
    &&& spec_opt_bool(m, "esModuleInterop"@) == Ok::<Option<bool>, ConfigErrorV>(c.es_module_interop)
    &&& spec_opt_module_resolution(m, "moduleResolution"@) == Ok::<Option<ModuleResolutionMode>, ConfigErrorV>(c.module_resolution)
    &&& spec_opt_paths(m, "paths"@) == Ok::<Option<Seq<(Seq<char>, Seq<Seq<char>>)>>, ConfigErrorV>(c.paths.deep_view())
    &&& spec_opt_bool(m, "preserveSymlinks"@) == Ok::<Option<bool>, ConfigErrorV>(c.preserve_symlinks)
    &&& spec_opt_texts(m, "rootDirs"@) == Ok::<Option<Seq<Seq<char>>>, ConfigErrorV>(c.root_dirs.deep_view())
    &&& spec_opt_texts(m, "typeRoots"@) == Ok::<Option<Seq<Seq<char>>>, ConfigErrorV>(c.type_roots.deep_view())
    &&& spec_opt_texts(m, "types"@) == Ok::<Option<Seq<Seq<char>>>, ConfigErrorV>(c.types.deep_view())
    &&& spec_opt_bool(m, "inlineSourceMap"@) == Ok::<Option<bool>, ConfigErrorV>(c.inline_source_map)
    &&& spec_opt_bool(m, "inlineSources"@) == Ok::<Option<bool>, ConfigErrorV>(c.inline_sources)
    &&& spec_opt_text(m, "mapRoot"@) == Ok::<Option<Seq<char>>, ConfigErrorV>(c.map_root.deep_view())
    &&& spec_opt_text(m, "sourceRoot"@) == Ok::<Option<Seq<char>>, ConfigErrorV>(c.source_root.deep_view())
    &&& spec_opt_bool(m, "noFallthroughCasesInSwitch"@) == Ok::<Option<bool>, ConfigErrorV>(c.no_fallthrough_cases_in_switch)
    &&& spec_opt_bool(m, "noImplicitReturns"@) == Ok::<Option<bool>, ConfigErrorV>(c.no_implicit_returns)
    &&& spec_opt_bool(m, "noPropertyAccessFromIndexSignature"@) == Ok::<Option<bool>, ConfigErrorV>(c.no_property_access_from_index_signature)
    &&& spec_opt_bool(m, "noUncheckedIndexedAccess"@) == Ok::<Option<bool>, ConfigErrorV>(c.no_unchecked_indexed_access)
    &&& spec_opt_bool(m, "noUnusedLocals"@) == Ok::<Option<bool>, ConfigErrorV>(c.no_unused_locals)
    &&& spec_opt_bool(m, "emitDecoratorMetadata"@) == Ok::<Option<bool>, ConfigErrorV>(c.emit_decorator_metadata)
    &&& spec_opt_bool(m, "experimentalDecorators"@) == Ok::<Option<bool>, ConfigErrorV>(c.experimental_decorators)
    &&& spec_opt_bool(m, "allowUnreachableCode"@) == Ok::<Option<bool>, ConfigErrorV>(c.allow_unreachable_code)
    &&& spec_opt_bool(m, "allowUnusedLabels"@) == Ok::<Option<bool>, ConfigErrorV>(c.allow_unused_labels)
    &&& spec_opt_bool(m, "assumeChangesOnlyAffectDirectDependencies"@) == Ok::<Option<bool>, ConfigErrorV>(c.assume_changes_only_affect_direct_dependencies)
    &&& spec_opt_text(m, "charset"@) == Ok::<Option<Seq<char>>, ConfigErrorV>(c.charset.deep_view())
    &&& spec_opt_text(m, "declarationDir"@) == Ok::<Option<Seq<char>>, ConfigErrorV>(c.declaration_dir.deep_view())
    &&& spec_opt_bool(m, "diagnostics"@) == Ok::<Option<bool>, ConfigErrorV>(c.diagnostics)
    &&& spec_opt_bool(m, "disableReferencedProjectLoad"@) == Ok::<Option<bool>, ConfigErrorV>(c.disable_referenced_project_load)
    &&& spec_opt_bool(m, "disableSizeLimit"@) == Ok::<Option<bool>, ConfigErrorV>(c.disable_size_limit)
    &&& spec_opt_bool(m, "disableSolutionSearching"@) == Ok::<Option<bool>, ConfigErrorV>(c.disable_solution_searching)
    &&& spec_opt_bool(m, "disableSourceOfProjectReferenceRedirect"@) == Ok::<Option<bool>, ConfigErrorV>(c.disable_source_of_project_reference_redirect)
    &&& spec_opt_bool(m, "emitBOM"@) == Ok::<Option<bool>, ConfigErrorV>(c.emit_bom)
    &&& spec_opt_bool(m, "emitDeclarationOnly"@) == Ok::<Option<bool>, ConfigErrorV>(c.emit_declaration_only)
    &&& spec_opt_bool(m, "explainFiles"@) == Ok::<Option<bool>, ConfigErrorV>(c.explain_files)
    &&& spec_opt_bool(m, "extendedDiagnostics"@) == Ok::<Option<bool>, ConfigErrorV>(c.extended_diagnostics)
    &&& spec_opt_bool(m, "forceConsistentCasingInFileNames"@) == Ok::<Option<bool>, ConfigErrorV>(c.force_consistent_casing_in_file_names)
    &&& spec_opt_bool(m, "generateCpuProfile"@) == Ok::<Option<bool>, ConfigErrorV>(c.generate_cpu_profile)
    &&& spec_opt_text(m, "importsNotUsedAsValues"@) == Ok::<Option<Seq<char>>, ConfigErrorV>(c.imports_not_used_as_values.deep_view())
    &&& spec_opt_text(m, "jsxFactory"@) == Ok::<Option<Seq<char>>, ConfigErrorV>(c.jsx_factory.deep_view())
    &&& spec_opt_text(m, "jsxFragmentFactory"@) == Ok::<Option<Seq<char>>, ConfigErrorV>(c.jsx_fragment_factory.deep_view())
    &&& spec_opt_text(m, "jsxImportSource"@) == Ok::<Option<Seq<char>>, ConfigErrorV>(c.jsx_import_source.deep_view())
    &&& spec_opt_bool(m, "keyofStringsOnly"@) == Ok::<Option<bool>, ConfigErrorV>(c.keyof_strings_only)
    &&& spec_opt_bool(m, "listEmittedFiles"@) == Ok::<Option<bool>, ConfigErrorV>(c.list_emitted_files)
    &&& spec_opt_bool(m, "listFiles"@) == Ok::<Option<bool>, ConfigErrorV>(c.list_files)
    &&& spec_opt_u32(m, "maxNodeModuleJsDepth"@) == Ok::<Option<u32>, ConfigErrorV>(c.max_node_module_js_depth)
    &&& spec_opt_bool(m, "noEmitHelpers"@) == Ok::<Option<bool>, ConfigErrorV>(c.no_emit_helpers)
    &&& spec_opt_bool(m, "noEmitOnError"@) == Ok::<Option<bool>, ConfigErrorV>(c.no_emit_on_error)
    &&& spec_opt_bool(m, "noErrorTruncation"@) == Ok::<Option<bool>, ConfigErrorV>(c.no_error_truncation)
    &&& spec_opt_bool(m, "noImplicitUseStrict"@) == Ok::<Option<bool>, ConfigErrorV>(c.no_implicit_use_strict)
    &&& spec_opt_bool(m, "noLib"@) == Ok::<Option<bool>, ConfigErrorV>(c.no_lib)
    &&& spec_opt_bool(m, "noResolve"@) == Ok::<Option<bool>, ConfigErrorV>(c.no_resolve)
    &&& spec_opt_bool(m, "noStrictGenericChecks"@) == Ok::<Option<bool>, ConfigErrorV>(c.no_strict_generic_checks)
    &&& spec_opt_bool(m, "out"@) == Ok::<Option<bool>, ConfigErrorV>(c.out)
    &&& spec_opt_bool(m, "preserveConstEnums"@) == Ok::<Option<bool>, ConfigErrorV>(c.preserve_const_enums)
    &&& spec_opt_text(m, "reactNamespace"@) == Ok::<Option<Seq<char>>, ConfigErrorV>(c.react_namespace.deep_view())
    &&& spec_opt_bool(m, "resolveJsonModule"@) == Ok::<Option<bool>, ConfigErrorV>(c.resolve_json_module)
    &&& spec_opt_bool(m, "skipDefaultLibCheck"@) == Ok::<Option<bool>, ConfigErrorV>(c.skip_default_lib_check)
    &&& spec_opt_bool(m, "skipLibCheck"@) == Ok::<Option<bool>, ConfigErrorV>(c.skip_lib_check)
    &&& spec_opt_bool(m, "stripInternal"@) == Ok::<Option<bool>, ConfigErrorV>(c.strip_internal)
    &&& spec_opt_bool(m, "suppressExcessPropertyErrors"@) == Ok::<Option<bool>, ConfigErrorV>(c.suppress_excess_property_errors)
    &&& spec_opt_bool(m, "suppressImplicitAnyIndexErrors"@) == Ok::<Option<bool>, ConfigErrorV>(c.suppress_implicit_any_index_errors)
    &&& spec_opt_bool(m, "traceResolution"@) == Ok::<Option<bool>, ConfigErrorV>(c.trace_resolution)
    &&& spec_opt_bool(m, "useDefineForClassFields"@) == Ok::<Option<bool>, ConfigErrorV>(c.use_define_for_class_fields)
    &&& spec_opt_bool(m, "preserveWatchOutput"@) == Ok::<Option<bool>, ConfigErrorV>(c.preserve_watch_output)
    &&& spec_opt_bool(m, "pretty"@) == Ok::<Option<bool>, ConfigErrorV>(c.pretty)
    &&& spec_opt_text(m, "fallbackPolling"@) == Ok::<Option<Seq<char>>, ConfigErrorV>(c.fallback_polling.deep_view())
    &&& spec_opt_text(m, "watchDirectory"@) == Ok::<Option<Seq<char>>, ConfigErrorV>(c.watch_directory.deep_view())
    &&& spec_opt_text(m, "watchFile"@) == Ok::<Option<Seq<char>>, ConfigErrorV>(c.watch_file.deep_view())
}

impl CompilerOptions {
    /// Projects the members of a `compilerOptions` object onto the options
    /// bag: the first offending field's error, or the complete bag.
    #[verifier::rlimit(100)]
    pub fn from_members(m: &Vec<(String, Json)>) -> (r: Result<CompilerOptions, ConfigError>)
        ensures
            match r {
                Ok(c) => co_first_err(entries_view(m@)) is None && co_matches(c, entries_view(m@)),
                Err(e) => co_first_err(entries_view(m@)) == Some(e@),
            },
    {
        let allow_js = match get_opt_bool(m, "allowJs") {
            Ok(v) => v,
            Err(e) => {
                return Err(e);
            },
        };
        let check_js = match get_opt_bool(m, "checkJs") {
            Ok(v) => v,
            Err(e) => {
                return Err(e);
            },
        };
        let composite = match get_opt_bool(m, "composite") {
            Ok(v) => v,
            Err(e) => {
                return Err(e);
            },
        };
        let declaration = match get_opt_bool(m, "declaration") {
            Ok(v) => v,
            Err(e) => {
                return Err(e);
            },
        };
        let declaration_map = match get_opt_bool(m, "declarationMap") {
            Ok(v) => v,
            Err(e) => {
                return Err(e);
            },
        };
        let downlevel_iteration = match get_opt_bool(m, "downlevelIteration") {
            Ok(v) => v,
            Err(e) => {
                return Err(e);
            },
        };
        let import_helpers = match get_opt_bool(m, "importHelpers") {
            Ok(v) => v,
            Err(e) => {
                return Err(e);
            },
        };
        let incremental = match get_opt_bool(m, "incremental") {
            Ok(v) => v,
            Err(e) => {
                return Err(e);
            },
        };
        let isolated_modules = match get_opt_bool(m, "isolatedModules") {
            Ok(v) => v,
            Err(e) => {
                return Err(e);
            },
        };
        let jsx = match get_opt_jsx(m, "jsx") {
            Ok(v) => v,
            Err(e) => {
                return Err(e);
            },
        };
        let lib = match get_opt_libs(m, "lib") {
            Ok(v) => v,
            Err(e) => {
                return Err(e);
            },
        };
        let module = match get_opt_module(m, "module") {
            Ok(v) => v,
            Err(e) => {
                return Err(e);
            },
        };
        let no_emit = match get_opt_bool(m, "noEmit") {
            Ok(v) => v,
            Err(e) => {
                return Err(e);
            },
        };
        let out_dir = match get_opt_text(m, "outDir") {
            Ok(v) => v,
            Err(e) => {
                return Err(e);
            },
        };
        let out_file = match get_opt_text(m, "outFile") {
            Ok(v) => v,
            Err(e) => {
                return Err(e);
            },
        };
        let remove_comments = match get_opt_bool(m, "removeComments") {
            Ok(v) => v,
            Err(e) => {
                return Err(e);
            },
        };
        let root_dir = match get_opt_text(m, "rootDir") {
            Ok(v) => v,
            Err(e) => {
                return Err(e);
            },
        };
        let source_map = match get_opt_bool(m, "sourceMap") {
            Ok(v) => v,
            Err(e) => {
                return Err(e);
            },
        };
        let target = match get_opt_target(m, "target") {
            Ok(v) => v,
            Err(e) => {
                return Err(e);
            },
        };
        let ts_build_info_file = match get_opt_text(m, "tsBuildInfoFile") {
            Ok(v) => v,
            Err(e) => {
                return Err(e);
            },
        };
        let always_strict = match get_opt_bool(m, "alwaysStrict") {
            Ok(v) => v,
            Err(e) => {
                return Err(e);
            },
        };
        let no_implicit_any = match get_opt_bool(m, "noImplicitAny") {
            Ok(v) => v,
            Err(e) => {
                return Err(e);
            },
        };
        let no_implicit_this = match get_opt_bool(m, "noImplicitThis") {
            Ok(v) => v,
            Err(e) => {
                return Err(e);
            },
        };
        let strict = match get_opt_bool(m, "strict") {
            Ok(v) => v,
            Err(e) => {
                return Err(e);
            },
        };
        let strict_bind_call_apply = match get_opt_bool(m, "strictBindCallApply") {
            Ok(v) => v,
            Err(e) => {
                return Err(e);
            },
        };
        let strict_function_types = match get_opt_bool(m, "strictFunctionTypes") {
            Ok(v) => v,
            Err(e) => {
                return Err(e);
            },
        };
        let strict_null_checks = match get_opt_bool(m, "strictNullChecks") {
            Ok(v) => v,
            Err(e) => {
                return Err(e);
            },
        };
        let strict_property_initialization = match get_opt_bool(m, "strictPropertyInitialization") {
            Ok(v) => v,
            Err(e) => {
                return Err(e);
            },
        };
        let allow_synthetic_default_imports = match get_opt_bool(m, "allowSyntheticDefaultImports") {
            Ok(v) => v,
            Err(e) => {
                return Err(e);
            },
        };
        let allow_umd_global_access = match get_opt_bool(m, "allowUmdGlobalAccess") {
            Ok(v) => v,
            Err(e) => {
                return Err(e);
            },
        };
        let base_url = match get_opt_text(m, "baseUrl") {
            Ok(v) => v,
            Err(e) => {
                return Err(e);
            },
        };
        let es_module_interop = match get_opt_bool(m, "esModuleInterop") {
            Ok(v) => v,
            Err(e) => {
                return Err(e);
            },
        };
        let module_resolution = match get_opt_module_resolution(m, "moduleResolution") {
            Ok(v) => v,
            Err(e) => {
                return Err(e);
            },
        };
        let paths = match get_opt_paths(m, "paths") {
            Ok(v) => v,
            Err(e) => {
                return Err(e);
            },
        };
        let preserve_symlinks = match get_opt_bool(m, "preserveSymlinks") {
            Ok(v) => v,
            Err(e) => {
                return Err(e);
            },
        };
        let root_dirs = match get_opt_texts(m, "rootDirs") {
            Ok(v) => v,
            Err(e) => {
                return Err(e);
            },
        };
        let type_roots = match get_opt_texts(m, "typeRoots") {
            Ok(v) => v,
            Err(e) => {
                return Err(e);
            },
        };
        let types = match get_opt_texts(m, "types") {
            Ok(v) => v,
            Err(e) => {
                return Err(e);
            },
        };
        let inline_source_map = match get_opt_bool(m, "inlineSourceMap") {
            Ok(v) => v,
            Err(e) => {
                return Err(e);
            },
        };
        let inline_sources = match get_opt_bool(m, "inlineSources") {
            Ok(v) => v,
            Err(e) => {
                return Err(e);
            },
        };
        let map_root = match get_opt_text(m, "mapRoot") {
            Ok(v) => v,
            Err(e) => {
                return Err(e);
            },
        };
        let source_root = match get_opt_text(m, "sourceRoot") {
            Ok(v) => v,
            Err(e) => {
                return Err(e);
            },
        };
        let no_fallthrough_cases_in_switch = match get_opt_bool(m, "noFallthroughCasesInSwitch") {
            Ok(v) => v,
            Err(e) => {
                return Err(e);
            },
        };
        let no_implicit_returns = match get_opt_bool(m, "noImplicitReturns") {
            Ok(v) => v,
            Err(e) => {
                return Err(e);
            },
        };
        let no_property_access_from_index_signature = match get_opt_bool(m, "noPropertyAccessFromIndexSignature") {
            Ok(v) => v,
            Err(e) => {
                return Err(e);
            },
        };
        let no_unchecked_indexed_access = match get_opt_bool(m, "noUncheckedIndexedAccess") {
            Ok(v) => v,
            Err(e) => {
                return Err(e);
            },
        };
        let no_unused_locals = match get_opt_bool(m, "noUnusedLocals") {
            Ok(v) => v,
            Err(e) => {
                return Err(e);
            },
        };
        let emit_decorator_metadata = match get_opt_bool(m, "emitDecoratorMetadata") {
            Ok(v) => v,
            Err(e) => {
                return Err(e);
            },
        };
        let experimental_decorators = match get_opt_bool(m, "experimentalDecorators") {
            Ok(v) => v,
            Err(e) => {
                return Err(e);
            },
        };
        let allow_unreachable_code = match get_opt_bool(m, "allowUnreachableCode") {
            Ok(v) => v,
            Err(e) => {
                return Err(e);
            },
        };
        let allow_unused_labels = match get_opt_bool(m, "allowUnusedLabels") {
            Ok(v) => v,
            Err(e) => {
                return Err(e);
            },
        };
        let assume_changes_only_affect_direct_dependencies = match get_opt_bool(m, "assumeChangesOnlyAffectDirectDependencies") {
            Ok(v) => v,
            Err(e) => {
                return Err(e);
            },
        };
        let charset = match get_opt_text(m, "charset") {
            Ok(v) => v,
            Err(e) => {
                return Err(e);
            },
        };
        let declaration_dir = match get_opt_text(m, "declarationDir") {
            Ok(v) => v,
            Err(e) => {
                return Err(e);
            },
        };
        let diagnostics = match get_opt_bool(m, "diagnostics") {
            Ok(v) => v,
            Err(e) => {
                return Err(e);
            },
        };
        let disable_referenced_project_load = match get_opt_bool(m, "disableReferencedProjectLoad") {
            Ok(v) => v,
            Err(e) => {
                return Err(e);
            },
        };
        let disable_size_limit = match get_opt_bool(m, "disableSizeLimit") {
            Ok(v) => v,
            Err(e) => {
                return Err(e);
            },
        };
        let disable_solution_searching = match get_opt_bool(m, "disableSolutionSearching") {
            Ok(v) => v,
            Err(e) => {
                return Err(e);
            },
        };
        let disable_source_of_project_reference_redirect = match get_opt_bool(m, "disableSourceOfProjectReferenceRedirect") {
            Ok(v) => v,
            Err(e) => {
                return Err(e);
            },
        };
        let emit_bom = match get_opt_bool(m, "emitBOM") {
            Ok(v) => v,
            Err(e) => {
                return Err(e);
            },
        };
        let emit_declaration_only = match get_opt_bool(m, "emitDeclarationOnly") {
            Ok(v) => v,
            Err(e) => {
                return Err(e);
            },
        };
        let explain_files = match get_opt_bool(m, "explainFiles") {
            Ok(v) => v,
            Err(e) => {
                return Err(e);
            },
        };
        let extended_diagnostics = match get_opt_bool(m, "extendedDiagnostics") {
            Ok(v) => v,
            Err(e) => {
                return Err(e);
            },
        };
        let force_consistent_casing_in_file_names = match get_opt_bool(m, "forceConsistentCasingInFileNames") {
            Ok(v) => v,
            Err(e) => {
                return Err(e);
            },
        };
        let generate_cpu_profile = match get_opt_bool(m, "generateCpuProfile") {
            Ok(v) => v,
            Err(e) => {
                return Err(e);
            },
        };
        let imports_not_used_as_values = match get_opt_text(m, "importsNotUsedAsValues") {
            Ok(v) => v,
            Err(e) => {
                return Err(e);
            },
        };
        let jsx_factory = match get_opt_text(m, "jsxFactory") {
            Ok(v) => v,
            Err(e) => {
                return Err(e);
            },
        };
        let jsx_fragment_factory = match get_opt_text(m, "jsxFragmentFactory") {
            Ok(v) => v,
            Err(e) => {
                return Err(e);
            },
        };
        let jsx_import_source = match get_opt_text(m, "jsxImportSource") {
            Ok(v) => v,
            Err(e) => {
                return Err(e);
            },
        };
        let keyof_strings_only = match get_opt_bool(m, "keyofStringsOnly") {
            Ok(v) => v,
            Err(e) => {
                return Err(e);
            },
        };
        let list_emitted_files = match get_opt_bool(m, "listEmittedFiles") {
            Ok(v) => v,
            Err(e) => {
                return Err(e);
            },
        };
        let list_files = match get_opt_bool(m, "listFiles") {
            Ok(v) => v,
            Err(e) => {
                return Err(e);
            },
        };
        let max_node_module_js_depth = match get_opt_u32(m, "maxNodeModuleJsDepth") {
            Ok(v) => v,
            Err(e) => {
                return Err(e);
            },
        };
        let no_emit_helpers = match get_opt_bool(m, "noEmitHelpers") {
            Ok(v) => v,
            Err(e) => {
                return Err(e);
            },
        };
        let no_emit_on_error = match get_opt_bool(m, "noEmitOnError") {
            Ok(v) => v,
            Err(e) => {
                return Err(e);
            },
        };
        let no_error_truncation = match get_opt_bool(m, "noErrorTruncation") {
            Ok(v) => v,
            Err(e) => {
                return Err(e);
            },
        };
        let no_implicit_use_strict = match get_opt_bool(m, "noImplicitUseStrict") {
            Ok(v) => v,
            Err(e) => {
                return Err(e);
            },
        };
        let no_lib = match get_opt_bool(m, "noLib") {
            Ok(v) => v,
            Err(e) => {
                return Err(e);
            },
        };
        let no_resolve = match get_opt_bool(m, "noResolve") {
            Ok(v) => v,
            Err(e) => {
                return Err(e);
            },
        };
        let no_strict_generic_checks = match get_opt_bool(m, "noStrictGenericChecks") {
            Ok(v) => v,
            Err(e) => {
                return Err(e);
            },
        };
        let out = match get_opt_bool(m, "out") {
            Ok(v) => v,
            Err(e) => {
                return Err(e);
            },
        };
        let preserve_const_enums = match get_opt_bool(m, "preserveConstEnums") {
            Ok(v) => v,
            Err(e) => {
                return Err(e);
            },
        };
        let react_namespace = match get_opt_text(m, "reactNamespace") {
            Ok(v) => v,
            Err(e) => {
                return Err(e);
            },
        };
        let resolve_json_module = match get_opt_bool(m, "resolveJsonModule") {
            Ok(v) => v,
            Err(e) => {
                return Err(e);
            },
        };
        let skip_default_lib_check = match get_opt_bool(m, "skipDefaultLibCheck") {
            Ok(v) => v,
            Err(e) => {
                return Err(e);
            },
        };
        let skip_lib_check = match get_opt_bool(m, "skipLibCheck") {
            Ok(v) => v,
            Err(e) => {
                return Err(e);
            },
        };
        let strip_internal = match get_opt_bool(m, "stripInternal") {
            Ok(v) => v,
            Err(e) => {
                return Err(e);
            },
        };
        let suppress_excess_property_errors = match get_opt_bool(m, "suppressExcessPropertyErrors") {
            Ok(v) => v,
            Err(e) => {
                return Err(e);
            },
        };
        let suppress_implicit_any_index_errors = match get_opt_bool(m, "suppressImplicitAnyIndexErrors") {
            Ok(v) => v,
            Err(e) => {
                return Err(e);
            },
        };
        let trace_resolution = match get_opt_bool(m, "traceResolution") {
            Ok(v) => v,
            Err(e) => {
                return Err(e);
            },
        };
        let use_define_for_class_fields = match get_opt_bool(m, "useDefineForClassFields") {
            Ok(v) => v,
            Err(e) => {
                return Err(e);
            },
        };
        let preserve_watch_output = match get_opt_bool(m, "preserveWatchOutput") {
            Ok(v) => v,
            Err(e) => {
                return Err(e);
            },
        };
        let pretty = match get_opt_bool(m, "pretty") {
            Ok(v) => v,
            Err(e) => {
                return Err(e);
            },
        };
        let fallback_polling = match get_opt_text(m, "fallbackPolling") {
            Ok(v) => v,
            Err(e) => {
                return Err(e);
            },
        };
        let watch_directory = match get_opt_text(m, "watchDirectory") {
            Ok(v) => v,
            Err(e) => {
                return Err(e);
            },
        };
        let watch_file = match get_opt_text(m, "watchFile") {
            Ok(v) => v,
            Err(e) => {
                return Err(e);
            },
        };
        Ok(CompilerOptions {
            allow_js,
            check_js,
            composite,
            declaration,
            declaration_map,
            downlevel_iteration,
            import_helpers,
            incremental,
            isolated_modules,
            jsx,
            lib,
            module,
            no_emit,
            out_dir,
            out_file,
            remove_comments,
            root_dir,
            source_map,
            target,
            ts_build_info_file,
            always_strict,
            no_implicit_any,
            no_implicit_this,
            strict,
            strict_bind_call_apply,
            strict_function_types,
            strict_null_checks,
            strict_property_initialization,
            allow_synthetic_default_imports,
            allow_umd_global_access,
            base_url,
            es_module_interop,
            module_resolution,
            paths,
            preserve_symlinks,
            root_dirs,
            type_roots,
            types,
            inline_source_map,
            inline_sources,
            map_root,
            source_root,
            no_fallthrough_cases_in_switch,
            no_implicit_returns,
            no_property_access_from_index_signature,
            no_unchecked_indexed_access,
            no_unused_locals,
            emit_decorator_metadata,
            experimental_decorators,
            allow_unreachable_code,
            allow_unused_labels,
            assume_changes_only_affect_direct_dependencies,
            charset,
            declaration_dir,
            diagnostics,
            disable_referenced_project_load,
            disable_size_limit,
            disable_solution_searching,
            disable_source_of_project_reference_redirect,
            emit_bom,
            emit_declaration_only,
            explain_files,
            extended_diagnostics,
            force_consistent_casing_in_file_names,
            generate_cpu_profile,
            imports_not_used_as_values,
            jsx_factory,
            jsx_fragment_factory,
            jsx_import_source,
            keyof_strings_only,
            list_emitted_files,
            list_files,
            max_node_module_js_depth,
            no_emit_helpers,
            no_emit_on_error,
            no_error_truncation,
            no_implicit_use_strict,
            no_lib,
            no_resolve,
            no_strict_generic_checks,
            out,
            preserve_const_enums,
            react_namespace,
            resolve_json_module,
            skip_default_lib_check,
            skip_lib_check,
            strip_internal,
            suppress_excess_property_errors,
            suppress_implicit_any_index_errors,
            trace_resolution,
            use_define_for_class_fields,
            preserve_watch_output,
            pretty,
            fallback_polling,
            watch_directory,
            watch_file,
        })
    }
}

} // verus!
