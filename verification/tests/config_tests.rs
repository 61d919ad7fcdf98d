use optee_core::build_config::{
    extract_build_config_from_metadata, extract_build_config_with_arch,
    extract_uuid_path_from_metadata, parse_env_entry, Arch, BuildConfig, ConfigError,
};
use optee_core::json::JsonValue;

fn to_json(v: &serde_json::Value) -> JsonValue {
    match v {
        serde_json::Value::Null => JsonValue::Null,
        serde_json::Value::Bool(b) => JsonValue::Bool(*b),
        serde_json::Value::Number(_) => JsonValue::Number,
        serde_json::Value::String(s) => JsonValue::Str(s.clone()),
        serde_json::Value::Array(items) => JsonValue::Array(items.iter().map(to_json).collect()),
        serde_json::Value::Object(members) => JsonValue::Object(
            members
                .iter()
                .map(|(k, v)| (k.clone(), to_json(v)))
                .collect(),
        ),
    }
}

fn metadata(text: &str) -> JsonValue {
    let value: serde_json::Value = serde_json::from_str(text).unwrap();
    to_json(&value)
}

#[test]
fn test_extract_build_config_from_metadata() {
    let metadata = metadata(
        r#"{
            "optee": {
                "ta": {
                    "arch": "arm",
                    "debug": true,
                    "std": true,
                    "ta-dev-kit-dir": {
                        "aarch64": "/opt/ta_dev_kit_arm64",
                        "arm": "/opt/ta_dev_kit_arm32"
                    },
                    "signing-key": "/opt/signing.pem",
                    "env": [
                        "RUSTFLAGS=-C target-feature=+crt-static",
                        "RUST_LOG=debug"
                    ]
                }
            }
        }"#,
    );

    let config = extract_build_config_from_metadata(&metadata, "ta").unwrap();
    assert!(matches!(config.arch, Arch::Arm));
    assert!(config.debug);
    assert!(config.std);
    assert_eq!(
        config.ta_dev_kit_dir,
        Some("/opt/ta_dev_kit_arm32".to_string())
    );
    assert_eq!(config.optee_client_export, None); // Not for TA
    assert_eq!(config.signing_key, Some("/opt/signing.pem".to_string()));
    assert_eq!(config.env.len(), 2);
    assert!(config.env.contains(&(
        "RUSTFLAGS".to_string(),
        "-C target-feature=+crt-static".to_string()
    )));
    assert!(config
        .env
        .contains(&("RUST_LOG".to_string(), "debug".to_string())));
}

#[test]
fn test_extract_build_config_with_arch_override() {
    let metadata = metadata(
        r#"{
            "optee": {
                "ca": {
                    "arch": "arm",
                    "debug": false,
                    "optee-client-export": {
                        "aarch64": "/opt/client_arm64",
                        "arm": "/opt/client_arm32"
                    },
                    "env": [
                        "BUILD_MODE=release"
                    ]
                }
            }
        }"#,
    );

    let config = extract_build_config_with_arch(&metadata, Arch::Aarch64, "ca").unwrap();
    assert!(matches!(config.arch, Arch::Aarch64));
    assert!(!config.debug);
    assert!(!config.std);
    assert_eq!(config.ta_dev_kit_dir, None); // Not for CA
    assert_eq!(
        config.optee_client_export,
        Some("/opt/client_arm64".to_string())
    );
    assert_eq!(config.signing_key, None); // Not for CA
    assert_eq!(config.env.len(), 1);
    assert!(config
        .env
        .contains(&("BUILD_MODE".to_string(), "release".to_string())));
}

#[test]
fn test_extract_build_config_defaults() {
    let metadata = metadata(
        r#"{
            "optee": {
                "plugin": {}
            }
        }"#,
    );

    let config = extract_build_config_from_metadata(&metadata, "plugin").unwrap();
    assert!(matches!(config.arch, Arch::Aarch64));
    assert!(!config.debug);
    assert!(!config.std);
    assert_eq!(config.ta_dev_kit_dir, None);
    assert_eq!(config.optee_client_export, None); // Not for Plugin
    assert_eq!(config.signing_key, None); // Not for Plugin
    assert!(config.env.is_empty());
}

#[test]
fn test_extract_build_config_with_env_variables() {
    let metadata = metadata(
        r#"{
            "optee": {
                "ta": {
                    "env": [
                        "CUSTOM_VAR=value1",
                        "ANOTHER_VAR=value2",
                        "RUSTFLAGS=-C target-cpu=native"
                    ]
                }
            }
        }"#,
    );

    let config = extract_build_config_from_metadata(&metadata, "ta").unwrap();
    assert_eq!(config.env.len(), 3);
    assert!(config
        .env
        .contains(&("CUSTOM_VAR".to_string(), "value1".to_string())));
    assert!(config
        .env
        .contains(&("ANOTHER_VAR".to_string(), "value2".to_string())));
    assert!(config
        .env
        .contains(&("RUSTFLAGS".to_string(), "-C target-cpu=native".to_string())));
}

#[test]
fn test_extract_build_config_with_invalid_env_format() {
    let metadata = metadata(
        r#"{
            "optee": {
                "ca": {
                    "env": [
                        "VALID_VAR=value",
                        "INVALID_VAR_NO_EQUALS",
                        "ANOTHER_VALID=test"
                    ]
                }
            }
        }"#,
    );

    let config = extract_build_config_from_metadata(&metadata, "ca").unwrap();
    // Should only contain the valid environment variables
    assert_eq!(config.env.len(), 2);
    assert!(config
        .env
        .contains(&("VALID_VAR".to_string(), "value".to_string())));
    assert!(config
        .env
        .contains(&("ANOTHER_VALID".to_string(), "test".to_string())));
    // Invalid format should be filtered out
    assert!(!config.env.iter().any(|(k, _)| k == "INVALID_VAR_NO_EQUALS"));
}

#[test]
fn test_extract_build_config_with_missing_arch() {
    // The arm key of ta-dev-kit-dir is missing: it is treated as null.
    let metadata = metadata(
        r#"{
            "optee": {
                "ta": {
                    "arch": "aarch64",
                    "ta-dev-kit-dir": {
                        "aarch64": "/opt/ta_dev_kit_arm64"
                    },
                    "signing-key": "/opt/signing.pem"
                }
            }
        }"#,
    );

    // Test with aarch64 - should get the path
    let config = extract_build_config_with_arch(&metadata, Arch::Aarch64, "ta").unwrap();
    assert_eq!(
        config.ta_dev_kit_dir,
        Some("/opt/ta_dev_kit_arm64".to_string())
    );

    // Test with arm - should get None due to missing key (treated as null)
    let config_arm = extract_build_config_with_arch(&metadata, Arch::Arm, "ta").unwrap();
    assert_eq!(config_arm.ta_dev_kit_dir, None);
}

#[test]
fn missing_sections_are_reported() {
    let no_optee = metadata(r#"{"other": {}}"#);
    assert!(matches!(
        extract_build_config_from_metadata(&no_optee, "ta"),
        Err(ConfigError::NoOpteeMetadata)
    ));
    let no_component = metadata(r#"{"optee": {"ca": {}}}"#);
    match extract_build_config_from_metadata(&no_component, "ta") {
        Err(ConfigError::NoComponentMetadata(name)) => assert_eq!(name, "ta"),
        other => panic!("unexpected {:?}", other),
    }
    assert_eq!(
        ConfigError::NoComponentMetadata("ta".to_string()).message(),
        "No ta metadata found in optee section"
    );
    assert!(matches!(
        extract_uuid_path_from_metadata(&no_component),
        Err(ConfigError::NoUuidPath)
    ));
}

#[test]
fn uuid_path_is_read_from_metadata() {
    let meta = metadata(r#"{"optee": {"plugin": {"uuid-path": "../my_uuid.txt"}}}"#);
    assert_eq!(
        extract_uuid_path_from_metadata(&meta).unwrap(),
        "../my_uuid.txt"
    );
}

#[test]
fn env_entries_split_at_first_equals() {
    assert_eq!(
        parse_env_entry("A=b=c"),
        Some(("A".to_string(), "b=c".to_string()))
    );
    assert_eq!(parse_env_entry("NOEQ"), None);
    assert_eq!(parse_env_entry("=x"), Some(("".to_string(), "x".to_string())));
}

#[test]
fn arch_names_parse_case_insensitively() {
    assert_eq!(Arch::parse("ARM64"), Ok(Arch::Aarch64));
    assert_eq!(Arch::parse("aarch64"), Ok(Arch::Aarch64));
    assert_eq!(Arch::parse("Arm32"), Ok(Arch::Arm));
    assert_eq!(Arch::parse("arm"), Ok(Arch::Arm));
    assert_eq!(
        Arch::parse("x86"),
        Err("Invalid architecture: x86".to_string())
    );
    let parsed: Arch = "arm64".parse().unwrap();
    assert_eq!(parsed, Arch::Aarch64);
}

#[test]
fn resolve_prefers_command_line_then_metadata_then_defaults() {
    let meta = metadata(
        r#"{
            "optee": {
                "ta": {
                    "uuid-path": "meta_uuid.txt",
                    "arch": "arm",
                    "debug": true,
                    "ta-dev-kit-dir": {"aarch64": "/kit64", "arm": "/kit32"},
                    "signing-key": "/meta.pem",
                    "env": ["K=v"]
                }
            }
        }"#,
    );
    // Metadata alone.
    let c = BuildConfig::resolve(Some(&meta), "ta", None, None, None, None, None, None, None)
        .unwrap();
    assert_eq!(c.arch, Arch::Arm);
    assert!(c.debug);
    assert_eq!(c.ta_dev_kit_dir, Some("/kit32".to_string()));
    assert_eq!(c.signing_key, Some("/meta.pem".to_string()));
    assert_eq!(c.uuid_path, Some("meta_uuid.txt".to_string()));
    assert_eq!(c.env, vec![("K".to_string(), "v".to_string())]);
    // The command line overrides the arch: the metadata is read for it.
    let c = BuildConfig::resolve(
        Some(&meta),
        "ta",
        Some(Arch::Aarch64),
        Some(false),
        None,
        None,
        None,
        Some("/cli.pem".to_string()),
        Some("cli_uuid.txt".to_string()),
    )
    .unwrap();
    assert_eq!(c.arch, Arch::Aarch64);
    assert!(!c.debug);
    assert_eq!(c.ta_dev_kit_dir, Some("/kit64".to_string()));
    assert_eq!(c.signing_key, Some("/cli.pem".to_string()));
    assert_eq!(c.uuid_path, Some("cli_uuid.txt".to_string()));
    // No metadata: defaults.
    let c = BuildConfig::resolve(None, "ca", None, None, None, None, None, None, None).unwrap();
    assert_eq!(c.arch, Arch::Aarch64);
    assert!(!c.debug);
    assert!(!c.std);
    assert_eq!(c.optee_client_export, None);
    assert_eq!(c.uuid_path, Some("../uuid.txt".to_string()));
    assert!(c.env.is_empty());
    assert!(matches!(
        c.require_optee_client_export(),
        Err(ConfigError::MissingOpteeClientExport)
    ));
    assert!(matches!(
        c.require_ta_dev_kit_dir(),
        Err(ConfigError::MissingTaDevKitDir)
    ));
    assert_eq!(c.get_uuid_path(), "../uuid.txt");
    assert_eq!(c.resolve_signing_key("/kit"), "/kit/keys/default_ta.pem");
}

#[test]
fn config_summaries_list_what_each_component_uses() {
    let config = BuildConfig {
        arch: Arch::Arm,
        debug: true,
        std: false,
        ta_dev_kit_dir: Some("kit".to_string()),
        optee_client_export: Some("/export".to_string()),
        signing_key: None,
        uuid_path: Some("../uuid.txt".to_string()),
        env: vec![("A".to_string(), "1".to_string())],
    };
    let ta: Vec<String> = config
        .config_summary("ta", "/proj")
        .iter()
        .map(|e| format!("{:?}", e))
        .collect();
    assert_eq!(
        ta,
        vec![
            "Arch(Arm)",
            "Debug(true)",
            "Std(false)",
            "TaDevKitDir(\"/proj/kit\")",
            "UuidPath(\"/proj/../uuid.txt\")",
            "EnvCount(1)"
        ]
    );
    let plugin: Vec<String> = config
        .config_summary("plugin", "/proj")
        .iter()
        .map(|e| format!("{:?}", e))
        .collect();
    assert_eq!(
        plugin,
        vec![
            "Arch(Arm)",
            "Debug(true)",
            "OpteeClientExport(\"/export\")",
            "UuidPath(\"/proj/../uuid.txt\")",
            "EnvCount(1)"
        ]
    );
    assert_eq!(config.config_summary("ca", "/proj").len(), 4);
    assert_eq!(config.config_summary("other", "/proj").len(), 3);
}
