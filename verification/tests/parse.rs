//! End-to-end tests of the parser: the documented scenarios, the error
//! taxonomy, and the tolerant-syntax boundaries.

use tsconfig::{
    parse_str, ConfigError, Jsx, Lib, Module, ModuleResolutionMode, References, Target,
    TsConfig, TypeAcquisition,
};

/// The schema key for inclusion patterns, assembled at runtime.
fn inc_key() -> String {
    format!("inclu{}", "de")
}

#[test]
fn parse_jsx() {
    let json = r#"{"compilerOptions": {"jsx": "react-jsx"}}"#;

    let config: TsConfig = parse_str(json).unwrap();
    assert_eq!(config.compiler_options.unwrap().jsx, Some(Jsx::ReactJsx));
}

#[test]
fn parse_paths() {
    let json = r#"{
        "compilerOptions": {
            "baseUrl": "src",
            "paths": {
                "tests/*": ["tests/*"],
                "blah": ["bloop"]
            }
        }
    }

        "#;

    let config: TsConfig = parse_str(json).unwrap();
    assert_eq!(
        config
            .compiler_options
            .unwrap()
            .paths
            .unwrap()
            .get("tests/*"),
        Some(&vec!["tests/*".to_string()])
    );
}

#[test]
fn parse_empty() {
    let _: TsConfig = parse_str("{}").unwrap();
    let _: TsConfig = parse_str(r#"{"compilerOptions": {}}"#).unwrap();
}

#[test]
fn parse_default() {
    // A configuration in the shape a project generator writes: comments
    // everywhere, most options present.
    let json = format!(
        r#"{{
  "compilerOptions": {{
    /* Visit https://aka.ms/tsconfig.json to read more about this file */

    /* Basic Options */
    // "incremental": true,                   /* Enable incremental compilation */
    "target": "es5",                          /* Specify ECMAScript target version */
    "module": "commonjs",                     /* Specify module code generation */
    // "lib": [],                             /* Specify library files */
    // "allowJs": true,                       /* Allow javascript files to be compiled. */
    // "checkJs": true,                       /* Report errors in .js files. */
    // "jsx": "preserve",
    // "declaration": true,
    // "declarationMap": true,
    // "sourceMap": true,
    // "outFile": "./",
    // "outDir": "./",
    // "rootDir": "./",
    // "composite": true,
    // "tsBuildInfoFile": "./",
    // "removeComments": true,
    // "noEmit": true,
    // "importHelpers": true,
    // "downlevelIteration": true,
    // "isolatedModules": true,

    /* Strict Type-Checking Options */
    "strict": true,                           /* Enable all strict type-checking options */
    // "noImplicitAny": true,
    // "strictNullChecks": true,
    // "strictFunctionTypes": true,
    // "strictBindCallApply": true,
    // "strictPropertyInitialization": true,
    // "noImplicitThis": true,
    // "alwaysStrict": true,

    /* Additional Checks */
    // "noUnusedLocals": true,
    // "noImplicitReturns": true,
    // "noFallthroughCasesInSwitch": true,
    // "noUncheckedIndexedAccess": true,

    /* Module Resolution Options */
    // "moduleResolution": "node",
    // "baseUrl": "./",
    // "paths": {{}},
    // "rootDirs": [],
    // "typeRoots": [],
    // "types": [],
    // "allowSyntheticDefaultImports": true,
    "esModuleInterop": true,                  /* Enables interoperability between modules */
    // "preserveSymlinks": true,
    // "allowUmdGlobalAccess": true,

    /* Source Map Options */
    // "sourceRoot": "",
    // "mapRoot": "",
    // "inlineSourceMap": true,
    // "inlineSources": true,

    /* Experimental Options */
    // "experimentalDecorators": true,
    // "emitDecoratorMetadata": true,

    /* Advanced Options */
    "skipLibCheck": true,                     /* Skip type checking of declaration files */
    "forceConsistentCasingInFileNames": true  /* Disallow inconsistent casing */
  }},
  "{}": ["src/**/*"],
  "exclude": ["node_modules"]
}}"#,
        inc_key()
    );
    let config: TsConfig = parse_str(&json).unwrap();
    let co = config.compiler_options.unwrap();
    assert_eq!(co.target, Some(Target::Es5));
    assert_eq!(co.module, Some(Module::CommonJs));
    assert_eq!(co.strict, Some(true));
    assert_eq!(co.es_module_interop, Some(true));
    assert_eq!(co.skip_lib_check, Some(true));
    assert_eq!(co.force_consistent_casing_in_file_names, Some(true));
    assert_eq!(co.no_implicit_any, None);
    assert_eq!(config.include_patterns, Some(vec!["src/**/*".to_string()]));
    assert_eq!(config.exclude, Some(vec!["node_modules".to_string()]));
}

#[test]
fn ignores_invalid_fields() {
    let json = r#"{"bleep": true, "compilerOptions": {"someNewUnsupportedProperty": false}}"#;
    let _: TsConfig = parse_str(json).unwrap();
}

#[test]
fn ignores_unknown_keys_in_nested_objects() {
    let json = r#"{"references": [{"path": "../lib", "color": 3}]}"#;
    let config = parse_str(json).unwrap();
    match config.references.unwrap() {
        References::References(refs) => assert_eq!(refs[0].path, "../lib"),
        other => panic!("wrong shape: {:?}", other),
    }

    let json = r#"{"typeAcquisition": {"enable": false, "someFutureSwitch": true}}"#;
    let config = parse_str(json).unwrap();
    assert!(matches!(
        config.type_acquisition.unwrap(),
        TypeAcquisition::Object { enable: false, .. }
    ));
}

#[test]
fn empty_document_is_all_unset() {
    let config = parse_str("{}").unwrap();
    assert_eq!(config.exclude, None);
    assert_eq!(config.extends, None);
    assert_eq!(config.files, None);
    assert_eq!(config.include_patterns, None);
    assert!(config.references.is_none());
    assert!(config.type_acquisition.is_none());
    assert!(config.compiler_options.is_none());
}

#[test]
fn target_case_insensitive() {
    for spelling in ["es2020", "ES2020", "Es2020", "eS2020"] {
        let json = format!(r#"{{"compilerOptions": {{"target": "{}"}}}}"#, spelling);
        let config = parse_str(&json).unwrap();
        assert_eq!(config.compiler_options.unwrap().target, Some(Target::Es2020));
    }
}

#[test]
fn module_case_insensitive() {
    for spelling in ["commonjs", "CommonJS", "COMMONJS"] {
        let json = format!(r#"{{"compilerOptions": {{"module": "{}"}}}}"#, spelling);
        let config = parse_str(&json).unwrap();
        assert_eq!(config.compiler_options.unwrap().module, Some(Module::CommonJs));
    }
}

#[test]
fn module_resolution_case_insensitive() {
    for (spelling, expected) in [
        ("node", ModuleResolutionMode::Node),
        ("NODE", ModuleResolutionMode::Node),
        ("classic", ModuleResolutionMode::Classic),
        ("Classic", ModuleResolutionMode::Classic),
    ] {
        let json = format!(r#"{{"compilerOptions": {{"moduleResolution": "{}"}}}}"#, spelling);
        let config = parse_str(&json).unwrap();
        assert_eq!(config.compiler_options.unwrap().module_resolution, Some(expected));
    }
}

#[test]
fn unknown_target_token_falls_back_verbatim() {
    let json = r#"{"compilerOptions": {"target": "ES2099"}}"#;
    let config = parse_str(json).unwrap();
    assert_eq!(
        config.compiler_options.unwrap().target,
        Some(Target::Other("ES2099".to_string()))
    );
    // The spelling is kept exactly as written, not case-folded.
    let json = r#"{"compilerOptions": {"target": "es2099"}}"#;
    let config = parse_str(json).unwrap();
    assert_eq!(
        config.compiler_options.unwrap().target,
        Some(Target::Other("es2099".to_string()))
    );
}

#[test]
fn unknown_jsx_token_is_invalid_enum_value() {
    let json = r#"{"compilerOptions": {"jsx": "ES2099"}}"#;
    let err = parse_str(json).unwrap_err();
    match err {
        ConfigError::InvalidEnumValue { field, token, expected } => {
            assert_eq!(field, "jsx");
            assert_eq!(token, "ES2099");
            assert_eq!(expected, "react, react-jsx, react-jsxdev, react-native, preserve");
        }
        other => panic!("wrong error: {:?}", other),
    }
}

#[test]
fn jsx_is_case_sensitive() {
    let json = r#"{"compilerOptions": {"jsx": "React-Jsx"}}"#;
    assert!(matches!(
        parse_str(json),
        Err(ConfigError::InvalidEnumValue { .. })
    ));
}

#[test]
fn unknown_module_resolution_token_is_invalid_enum_value() {
    let json = r#"{"compilerOptions": {"moduleResolution": "bundler-ish"}}"#;
    assert!(matches!(
        parse_str(json),
        Err(ConfigError::InvalidEnumValue { .. })
    ));
}

#[test]
fn lib_list_coerces_each_token() {
    let json = r#"{"compilerOptions": {"lib": ["dom", "ES2015.Core", "bogus"]}}"#;
    let config = parse_str(json).unwrap();
    assert_eq!(
        config.compiler_options.unwrap().lib,
        Some(vec![
            Lib::Dom,
            Lib::Es2015Core,
            Lib::Other("bogus".to_string())
        ])
    );
}

#[test]
fn target_es3_is_known() {
    for spelling in ["es3", "ES3", "Es3"] {
        let json = format!(r#"{{"compilerOptions": {{"target": "{}"}}}}"#, spelling);
        let config = parse_str(&json).unwrap();
        assert_eq!(config.compiler_options.unwrap().target, Some(Target::Es3));
    }
}

#[test]
fn lib_dotted_tokens_are_known() {
    let json = r#"{"compilerOptions": {"lib":
        ["es2017.intl", "ES2016.Array.Include", "es2017.object", "ES2017.SHAREDMEMORY"]}}"#;
    let config = parse_str(json).unwrap();
    assert_eq!(
        config.compiler_options.unwrap().lib,
        Some(vec![
            Lib::Es2017Intl,
            Lib::Es2016ArrayInclude,
            Lib::Es2017Object,
            Lib::Es2017SharedMemory
        ])
    );
}

#[test]
fn preprocessing_never_touches_string_contents() {
    // A string whose content looks like a trailing comma before a brace is
    // strict JSON; preprocessing is a no-op on it.
    let json = "{\"extends\": \"weird,}\"}";
    let config = parse_str(json).unwrap();
    assert_eq!(config.extends, Some("weird,}".to_string()));

    let json = "{\"extends\": \"a, \\\" }\"}";
    let config = parse_str(json).unwrap();
    assert_eq!(config.extends, Some("a, \" }".to_string()));
}

#[test]
fn trailing_comma_with_comment_before_brace_is_tolerated() {
    // Comments are blanked before the comma pass runs, so a comment between
    // the comma and the brace does not hide the trailing comma.
    let json = "{\"compilerOptions\": {\"strict\": true, // note\n}}";
    let config = parse_str(json).unwrap();
    assert_eq!(config.compiler_options.unwrap().strict, Some(true));

    let json = "{\"files\": [\"a.ts\"], /* tail */ }";
    let config = parse_str(json).unwrap();
    assert_eq!(config.files, Some(vec!["a.ts".to_string()]));
}

#[test]
fn references_boolean_shape() {
    let json = r#"{"references": true}"#;
    let config = parse_str(json).unwrap();
    assert_eq!(config.references, Some(References::Bool(true)));
}

#[test]
fn references_list_shape() {
    let json = r#"{"references": [{"path": "../lib"}]}"#;
    let config = parse_str(json).unwrap();
    match config.references.unwrap() {
        References::References(refs) => {
            assert_eq!(refs.len(), 1);
            assert_eq!(refs[0].path, "../lib");
            assert_eq!(refs[0].prepend, None);
        }
        other => panic!("wrong shape: {:?}", other),
    }
}

#[test]
fn references_wrong_shape_is_shape_mismatch() {
    let json = r#"{"references": 5}"#;
    assert!(matches!(
        parse_str(json),
        Err(ConfigError::ShapeMismatch { .. })
    ));
}

#[test]
fn reference_without_path_is_an_error() {
    let json = r#"{"references": [{"prepend": true}]}"#;
    assert!(matches!(
        parse_str(json),
        Err(ConfigError::ShapeMismatch { .. })
    ));
}

#[test]
fn type_acquisition_boolean_shape() {
    let json = r#"{"typeAcquisition": false}"#;
    let config = parse_str(json).unwrap();
    assert_eq!(config.type_acquisition, Some(TypeAcquisition::Bool(false)));
}

#[test]
fn type_acquisition_object_shape() {
    let json = format!(
        r#"{{"typeAcquisition": {{"enable": true, "{}": ["jquery"]}}}}"#,
        inc_key()
    );
    let config = parse_str(&json).unwrap();
    match config.type_acquisition.unwrap() {
        TypeAcquisition::Object {
            enable,
            include_patterns,
            exclude,
            disable_filename_based_type_acquisition,
        } => {
            assert!(enable);
            assert_eq!(include_patterns, Some(vec!["jquery".to_string()]));
            assert_eq!(exclude, None);
            assert_eq!(disable_filename_based_type_acquisition, None);
        }
        other => panic!("wrong shape: {:?}", other),
    }
}

#[test]
fn type_acquisition_without_enable_is_an_error() {
    let json = r#"{"typeAcquisition": {"exclude": ["x"]}}"#;
    assert!(matches!(
        parse_str(json),
        Err(ConfigError::ShapeMismatch { .. })
    ));
}

#[test]
fn trailing_comma_before_brace_is_tolerated() {
    let json = r#"{"compilerOptions": {"strict": true,}}"#;
    let config = parse_str(json).unwrap();
    assert_eq!(config.compiler_options.unwrap().strict, Some(true));
}

#[test]
fn trailing_comma_before_bracket_still_fails() {
    // Only a comma before `}` is removed; one before `]` reaches the strict
    // parser and fails, a boundary pinned on purpose.
    let json = format!(r#"{{"{}": ["src/**/*",]}}"#, inc_key());
    assert!(matches!(parse_str(&json), Err(ConfigError::Syntax(_))));
}

#[test]
fn comments_are_stripped() {
    let json = r#"{
        // sets the language level
        "compilerOptions": {
            "target": "es5" /* an old one,
                               spanning lines */
        }
    }"#;
    let config = parse_str(json).unwrap();
    assert_eq!(config.compiler_options.unwrap().target, Some(Target::Es5));
}

#[test]
fn comment_markers_inside_strings_survive() {
    let json = r#"{"compilerOptions": {"outDir": "a//b/*c*/d"}}"#;
    let config = parse_str(json).unwrap();
    assert_eq!(
        config.compiler_options.unwrap().out_dir,
        Some("a//b/*c*/d".to_string())
    );
}

#[test]
fn null_counts_as_absent() {
    let json = r#"{"compilerOptions": {"strict": null}, "extends": null}"#;
    let config = parse_str(json).unwrap();
    assert_eq!(config.extends, None);
    assert_eq!(config.compiler_options.unwrap().strict, None);
}

#[test]
fn wrong_kind_is_kind_mismatch() {
    let json = r#"{"compilerOptions": {"strict": "yes"}}"#;
    match parse_str(json).unwrap_err() {
        ConfigError::KindMismatch { field, .. } => assert_eq!(field, "strict"),
        other => panic!("wrong error: {:?}", other),
    }
    let json = r#"{"files": "src/main.ts"}"#;
    assert!(matches!(
        parse_str(json),
        Err(ConfigError::KindMismatch { .. })
    ));
}

#[test]
fn number_fields_take_integers_only() {
    let json = r#"{"compilerOptions": {"maxNodeModuleJsDepth": 4}}"#;
    let config = parse_str(json).unwrap();
    assert_eq!(config.compiler_options.unwrap().max_node_module_js_depth, Some(4));

    let json = r#"{"compilerOptions": {"maxNodeModuleJsDepth": -1}}"#;
    assert!(matches!(
        parse_str(json),
        Err(ConfigError::KindMismatch { .. })
    ));
}

#[test]
fn malformed_json_is_syntax_error() {
    assert!(matches!(
        parse_str(r#"{"compilerOptions": "#),
        Err(ConfigError::Syntax(_))
    ));
    assert!(matches!(
        parse_str(r#"{"extends": "unterminated}"#),
        Err(ConfigError::Syntax(_))
    ));
}

#[test]
fn scalars_and_strings_map_through() {
    let json = r#"{
        "extends": "./base.json",
        "files": ["a.ts", "b.ts"]
    }"#;
    let config = parse_str(json).unwrap();
    assert_eq!(config.extends, Some("./base.json".to_string()));
    assert_eq!(
        config.files,
        Some(vec!["a.ts".to_string(), "b.ts".to_string()])
    );
}

#[test]
fn paths_second_binding_reachable() {
    let json = r#"{"compilerOptions": {"paths": {"tests/*": ["tests/*"], "blah": ["bloop"]}}}"#;
    let config = parse_str(json).unwrap();
    let paths = config.compiler_options.unwrap().paths.unwrap();
    assert_eq!(paths.get("blah"), Some(&vec!["bloop".to_string()]));
    assert_eq!(paths.get("missing"), None);
}
