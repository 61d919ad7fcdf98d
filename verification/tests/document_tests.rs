use optee_core::documents::{
    manifest_declares_workspace, manifest_package_name, metadata_target_directory,
};

#[test]
fn manifest_package_name_reads_package_table() {
    let manifest = "[package]\nname = \"hello_world_ta\"\nversion = \"0.1.0\"\n";
    assert_eq!(manifest_package_name(manifest), Some("hello_world_ta".to_string()));
}

#[test]
fn manifest_package_name_without_package_is_none() {
    assert_eq!(manifest_package_name("[workspace]\nmembers = [\"ta\"]\n"), None);
    assert_eq!(manifest_package_name("[package]\nversion = \"0.1.0\"\n"), None);
    assert_eq!(manifest_package_name("[package]\nname = 3\n"), None);
}

#[test]
fn manifest_package_name_of_invalid_toml_is_none() {
    assert_eq!(manifest_package_name("[package\nname = \"x\""), None);
}

#[test]
fn manifest_workspace_detection() {
    assert!(manifest_declares_workspace("[workspace]\nmembers = [\"ta\", \"host\"]\n"));
    assert!(!manifest_declares_workspace("[package]\nname = \"ta\"\n"));
    assert!(!manifest_declares_workspace("[workspace\n"));
}

#[test]
fn manifest_lookups_go_through_nested_tables() {
    let manifest = "[package]\nname = \"ta\"\n[package.metadata.optee.ta]\narch = \"arm\"\n";
    assert_eq!(manifest_package_name(manifest), Some("ta".to_string()));
    assert!(!manifest_declares_workspace(manifest));
    assert_eq!(manifest_package_name("name = \"top\"\n"), None);
}

#[test]
fn metadata_target_directory_reads_cargo_metadata_output() {
    let output = br#"{"packages":[],"target_directory":"/work/target","version":1}"#;
    assert_eq!(metadata_target_directory(output), Some("/work/target".to_string()));
    assert_eq!(metadata_target_directory(br#"{"target_directory":5}"#), None);
    assert_eq!(metadata_target_directory(br#"{"packages":[]}"#), None);
    assert_eq!(metadata_target_directory(b"error: could not find Cargo.toml"), None);
}

#[test]
fn metadata_target_directory_reads_nested_output() {
    let output = br#"{"workspace_root":"/w","target_directory":"/w/target","resolve":null}"#;
    assert_eq!(metadata_target_directory(output), Some("/w/target".to_string()));
    assert_eq!(metadata_target_directory(b"{"), None);
}

#[test]
fn manifest_package_name_that_is_a_date_time_is_none() {
    assert_eq!(manifest_package_name("[package]\nname = 1979-05-27T07:32:00Z\n"), None);
}
