use optee_core::build_config::{Arch, BuildConfig, CaBuildConfig, TaBuildConfig};
use optee_core::build_plan::{
    build_std_mode, ca_binary_path, ca_build_command, ca_build_config, ca_clippy_command,
    ca_strip_command, declares_workspace, feature_names, filter_cargo_args, install_std_mode,
    join, linker_config, manifest_name, merge_env, missing_tools, package_name,
    plugin_paths, profile_name, rustflags_with_panic_abort, setup_build_command,
    sign_script_path, signed_ta_path, ta_binary_paths, ta_build_command, ta_build_config,
    ta_clippy_command, ta_features, ta_sign_command, ta_strip_command, uuid_from_content,
};
use optee_core::json::JsonValue;
use optee_core::text::join_path;

fn strings(items: &[&str]) -> Vec<String> {
    items.iter().map(|s| s.to_string()).collect()
}

fn pair(k: &str, v: &str) -> (String, String) {
    (k.to_string(), v.to_string())
}

fn ta_config(std: bool, debug: bool, features: Option<&str>) -> TaBuildConfig {
    TaBuildConfig {
        arch: Arch::Aarch64,
        std,
        ta_dev_kit_dir: "/kit".to_string(),
        signing_key: "/kit/keys/default_ta.pem".to_string(),
        debug,
        path: "/proj".to_string(),
        uuid_path: "/proj/uuid.txt".to_string(),
        env: vec![pair("A", "1")],
        no_default_features: true,
        features: features.map(|f| f.to_string()),
    }
}

fn ca_config(plugin: bool, debug: bool) -> CaBuildConfig {
    CaBuildConfig {
        arch: Arch::Arm,
        optee_client_export: "/export".to_string(),
        debug,
        path: "/proj".to_string(),
        plugin,
        uuid_path: None,
        env: vec![pair("B", "2")],
        no_default_features: false,
        features: Some("x,y".to_string()),
    }
}

#[test]
fn features_are_split_trimmed_and_joined() {
    assert_eq!(feature_names(" a, b ,,c ,"), strings(&["a", "b", "c"]));
    assert_eq!(feature_names(""), Vec::<String>::new());
    assert_eq!(feature_names(" \t"), Vec::<String>::new());
    assert_eq!(ta_features(true, Some("x")), strings(&["std", "x"]));
    assert_eq!(ta_features(false, None), Vec::<String>::new());
    assert_eq!(join(&strings(&["std", "x", "y"]), ","), "std,x,y");
    assert_eq!(join(&strings(&["one"]), ","), "one");
    assert_eq!(join(&Vec::new(), ","), "");
}

#[test]
fn rustflags_linker_and_profile() {
    assert_eq!(rustflags_with_panic_abort(""), "-C panic=abort");
    assert_eq!(
        rustflags_with_panic_abort("-C opt-level=3"),
        "-C opt-level=3 -C panic=abort"
    );
    assert_eq!(
        linker_config("aarch64-unknown-linux-gnu", "aarch64-linux-gnu-"),
        "target.aarch64-unknown-linux-gnu.linker=\"aarch64-linux-gnu-gcc\""
    );
    assert_eq!(profile_name(true), "debug");
    assert_eq!(profile_name(false), "release");
}

#[test]
fn paths_join_like_path_join() {
    assert_eq!(join_path("/a", "b"), "/a/b");
    assert_eq!(join_path("/a/", "b"), "/a/b");
    assert_eq!(join_path("", "b"), "b");
    assert_eq!(join_path("/a", "/abs"), "/abs");
}

#[test]
fn ta_commands() {
    let config = ta_config(true, false, Some("foo, bar"));
    let base = setup_build_command(&config, "build", "", "/abs/kit", Some("/tmp/targets"));
    assert_eq!(base.program, "xargo");
    assert_eq!(
        base.args,
        strings(&[
            "build",
            "--target",
            "aarch64-unknown-optee",
            "--no-default-features",
            "--features",
            "std,foo,bar"
        ])
    );
    assert_eq!(
        base.envs,
        vec![
            pair("RUSTFLAGS", "-C panic=abort"),
            pair("A", "1"),
            pair("TA_DEV_KIT_DIR", "/abs/kit"),
            pair("RUST_TARGET_PATH", "/tmp/targets"),
        ]
    );
    let build = ta_build_command(&config, "", "/abs/kit", Some("/tmp/targets"));
    assert_eq!(
        &build.args[6..],
        &strings(&[
            "--release",
            "--config",
            "target.aarch64-unknown-optee.linker=\"aarch64-linux-gnu-gcc\""
        ])[..]
    );
    let config = ta_config(false, true, None);
    let clippy = ta_clippy_command(&config, "-g", "/kit", None);
    assert_eq!(clippy.program, "cargo");
    assert_eq!(
        clippy.args,
        strings(&[
            "clippy",
            "--target",
            "aarch64-unknown-linux-gnu",
            "--no-default-features",
            "--",
            "-D",
            "warnings",
            "-D",
            "clippy::unwrap_used",
            "-D",
            "clippy::expect_used",
            "-D",
            "clippy::panic"
        ])
    );
    assert_eq!(clippy.envs[0], pair("RUSTFLAGS", "-g -C panic=abort"));
    assert_eq!(clippy.envs.len(), 3);
    let build = ta_build_command(&config, "", "/kit", None);
    assert!(!build.args.contains(&"--release".to_string()));
}

#[test]
fn ta_outputs_and_signing() {
    let config = ta_config(false, false, None);
    let (dir, binary, stripped) = ta_binary_paths(&config, "/proj/target", "my_ta");
    assert_eq!(dir, "/proj/target/aarch64-unknown-linux-gnu/release");
    assert_eq!(binary, "/proj/target/aarch64-unknown-linux-gnu/release/my_ta");
    assert_eq!(
        stripped,
        "/proj/target/aarch64-unknown-linux-gnu/release/stripped_my_ta"
    );
    let strip = ta_strip_command(&config, &binary, &stripped);
    assert_eq!(strip.program, "aarch64-linux-gnu-objcopy");
    assert_eq!(
        strip.args,
        strings(&["--strip-unneeded", binary.as_str(), stripped.as_str()])
    );
    assert_eq!(sign_script_path("/kit"), "/kit/scripts/sign_encrypt.py");
    assert_eq!(signed_ta_path("/out", "abc"), "/out/abc.ta");
    let sign = ta_sign_command(&config, "abc", &stripped, &dir);
    assert_eq!(sign.program, "python3");
    assert_eq!(
        sign.args,
        strings(&[
            "/kit/scripts/sign_encrypt.py",
            "--uuid",
            "abc",
            "--key",
            "/kit/keys/default_ta.pem",
            "--in",
            stripped.as_str(),
            "--out",
            "/proj/target/aarch64-unknown-linux-gnu/release/abc.ta"
        ])
    );
    assert!(sign.envs.is_empty());
}

#[test]
fn ca_commands_and_outputs() {
    let config = ca_config(false, false);
    let clippy = ca_clippy_command(&config);
    assert_eq!(clippy.program, "cargo");
    assert_eq!(&clippy.args[..3], &strings(&["clippy", "--target", "arm-unknown-linux-gnueabihf"])[..]);
    assert_eq!(clippy.envs, vec![pair("OPTEE_CLIENT_EXPORT", "/export")]);
    let build = ca_build_command(&config);
    assert_eq!(
        build.args,
        strings(&[
            "build",
            "--target",
            "arm-unknown-linux-gnueabihf",
            "--features",
            "x,y",
            "--release",
            "--config",
            "target.arm-unknown-linux-gnueabihf.linker=\"arm-linux-gnueabihf-gcc\""
        ])
    );
    assert_eq!(
        build.envs,
        vec![pair("OPTEE_CLIENT_EXPORT", "/export"), pair("B", "2")]
    );
    let binary = ca_binary_path(&config, "host_app");
    assert_eq!(binary, "target/arm-unknown-linux-gnueabihf/release/host_app");
    let strip = ca_strip_command(&config, &binary);
    assert_eq!(strip.program, "arm-linux-gnueabihf-objcopy");
    assert_eq!(strip.args[1], strip.args[2]);
    let plugin = ca_config(true, true);
    let (dir, src, dest) = plugin_paths(&plugin, "/ws/target", "syslog", "1234");
    assert_eq!(dir, "/ws/target/arm-unknown-linux-gnueabihf/debug");
    assert_eq!(src, "/ws/target/arm-unknown-linux-gnueabihf/debug/libsyslog.so");
    assert_eq!(dest, "/ws/target/arm-unknown-linux-gnueabihf/debug/1234.plugin.so");
}

#[test]
fn manifest_names() {
    let toml = "[package]\n  name = \"hello_ta\"\nversion = \"0.1.0\"\n";
    assert_eq!(manifest_name(toml), Some("hello_ta".to_string()));
    assert_eq!(manifest_name("name_only\nname = \"x\""), None);
    assert_eq!(manifest_name("[package]\r\nname = \"crlf\"\r\n"), Some("crlf".to_string()));
    assert_eq!(manifest_name("version = \"1\""), None);
    let parsed = JsonValue::Object(vec![(
        "package".to_string(),
        JsonValue::Object(vec![("name".to_string(), JsonValue::Str("pkg".to_string()))]),
    )]);
    assert_eq!(package_name(&parsed), Some("pkg".to_string()));
    assert!(!declares_workspace(&parsed));
    let ws = JsonValue::Object(vec![("workspace".to_string(), JsonValue::Object(vec![]))]);
    assert!(declares_workspace(&ws));
    assert_eq!(package_name(&ws), None);
}

#[test]
fn uuid_files_tools_and_modes() {
    assert_eq!(
        uuid_from_content("  8aaaf200-2450-11e4-abe2-0002a5d5c51b\n"),
        Some("8aaaf200-2450-11e4-abe2-0002a5d5c51b".to_string())
    );
    assert_eq!(uuid_from_content(" \n\t"), None);
    assert_eq!(
        missing_tools("arm-linux-gnueabihf-", false, false),
        strings(&["arm-linux-gnueabihf-gcc", "arm-linux-gnueabihf-objcopy"])
    );
    assert_eq!(missing_tools("p-", true, false), strings(&["p-objcopy"]));
    assert!(missing_tools("p-", true, true).is_empty());
    assert_eq!(build_std_mode(true, false), Some(true));
    assert_eq!(build_std_mode(false, true), Some(false));
    assert_eq!(build_std_mode(true, true), None);
    assert_eq!(build_std_mode(false, false), None);
    assert_eq!(install_std_mode(true, true), Some(true));
    assert_eq!(install_std_mode(false, true), Some(false));
    assert_eq!(install_std_mode(false, false), None);
}

#[test]
fn cargo_subcommand_name_is_dropped_once() {
    let args = strings(&["cargo-optee", "optee", "build", "ta", "optee"]);
    assert_eq!(
        filter_cargo_args(&args),
        strings(&["cargo-optee", "build", "ta", "optee"])
    );
    let direct = strings(&["cargo-optee", "build", "ca"]);
    assert_eq!(filter_cargo_args(&direct), direct);
}

#[test]
fn build_configs_merge_environment() {
    let resolved = BuildConfig {
        arch: Arch::Arm,
        debug: true,
        std: false,
        ta_dev_kit_dir: Some("kit".to_string()),
        optee_client_export: None,
        signing_key: None,
        uuid_path: Some("../uuid.txt".to_string()),
        env: vec![pair("M", "1")],
    };
    assert_eq!(
        merge_env(&resolved.env, vec![pair("C", "2")]),
        vec![pair("M", "1"), pair("C", "2")]
    );
    let ta = ta_build_config(
        &resolved,
        "/proj/kit".to_string(),
        "/proj/kit/keys/default_ta.pem".to_string(),
        "/proj".to_string(),
        "/cwd",
        false,
        vec![pair("C", "2")],
        false,
        None,
    );
    assert_eq!(ta.uuid_path, "/proj/../uuid.txt");
    assert_eq!(ta.env, vec![pair("M", "1"), pair("C", "2")]);
    assert_eq!(ta.arch, Arch::Arm);
    assert!(ta.debug);
    let ta = ta_build_config(
        &resolved,
        "/proj/kit".to_string(),
        "/k.pem".to_string(),
        "/proj".to_string(),
        "/cwd",
        true,
        Vec::new(),
        true,
        Some("f".to_string()),
    );
    assert_eq!(ta.uuid_path, "/cwd/../uuid.txt");
    let ca = ca_build_config(&resolved, "/x".to_string(), "/proj".to_string(), false, Vec::new(), false, None);
    assert_eq!(ca.uuid_path, None);
    let plugin = ca_build_config(&resolved, "/x".to_string(), "/proj".to_string(), true, Vec::new(), false, None);
    assert_eq!(plugin.uuid_path, Some("../uuid.txt".to_string()));
}
