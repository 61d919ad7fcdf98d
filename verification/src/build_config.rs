//! Build configuration of trusted applications (TA), client applications (CA)
//! and plugins: the target architecture, and the settings resolved from the
//! command line, the `[package.metadata.optee.<component>]` table of the
//! package, and defaults, in that order of priority.
use vstd::prelude::*;

use crate::json::{spec_as_bool, spec_as_str, spec_get, spec_get_in, JsonValue};
use crate::text::{
    contains, spec_contains, spec_strings,
    first_index, join_path, lowercase_eq, spec_ascii_lowercase, spec_first_index, spec_join_path,
    str_eq,
};

verus! {

/// Target architecture for building.
#[derive(Debug, Clone, Copy, PartialEq, Eq, Structural)]
pub enum Arch {
    /// ARM 64-bit architecture
    Aarch64,
    /// ARM 32-bit architecture
    Arm,
}

/// The architecture a name stands for, case-insensitively: `aarch64` or
/// `arm64`, `arm` or `arm32`.
pub open spec fn spec_parse_arch(s: Seq<char>) -> Option<Arch> {
    let lower = spec_ascii_lowercase(s);
    if lower == "aarch64"@ || lower == "arm64"@ {
        Some(Arch::Aarch64)
    } else if lower == "arm"@ || lower == "arm32"@ {
        Some(Arch::Arm)
    } else {
        None
    }
}

impl Arch {
    /// The architecture named by `s`, or the message
    /// `Invalid architecture: <s>`.
    pub fn parse(s: &str) -> (res: Result<Arch, String>)
        ensures
            match res {
                Ok(arch) => spec_parse_arch(s@) == Some(arch),
                Err(msg) => spec_parse_arch(s@) is None && msg@ == "Invalid architecture: "@
                    + s@,
            },
    {
        if lowercase_eq(s, "aarch64") || lowercase_eq(s, "arm64") {
            Ok(Arch::Aarch64)
        } else if lowercase_eq(s, "arm") || lowercase_eq(s, "arm32") {
            Ok(Arch::Arm)
        } else {
            Err(String::from_str("Invalid architecture: ").concat(s))
        }
    }
}

impl core::str::FromStr for Arch {
    type Err = String;

    /// The architecture named by `s`, as `Arch::parse` reads it.
    fn from_str(s: &str) -> (res: Result<Self, Self::Err>)
        ensures
            match res {
                Ok(arch) => spec_parse_arch(s@) == Some(arch),
                Err(msg) => spec_parse_arch(s@) is None && msg@ == "Invalid architecture: "@
                    + s@,
            },
    {
        Arch::parse(s)
    }
}

/// The Rust target and cross-compile prefix of client applications for an
/// architecture.
pub open spec fn spec_target_and_cross_compile(arch: Arch) -> (Seq<char>, Seq<char>) {
    match arch {
        Arch::Arm => ("arm-unknown-linux-gnueabihf"@, "arm-linux-gnueabihf-"@),
        Arch::Aarch64 => ("aarch64-unknown-linux-gnu"@, "aarch64-linux-gnu-"@),
    }
}

/// The Rust target and cross-compile prefix for an architecture.
pub fn get_target_and_cross_compile(arch: Arch) -> (res: (String, String))
    ensures
        (res.0@, res.1@) == spec_target_and_cross_compile(arch),
{
    match arch {
        Arch::Arm => (
            String::from_str("arm-unknown-linux-gnueabihf"),
            String::from_str("arm-linux-gnueabihf-"),
        ),
        Arch::Aarch64 => (
            String::from_str("aarch64-unknown-linux-gnu"),
            String::from_str("aarch64-linux-gnu-"),
        ),
    }
}

/// The Rust target and cross-compile prefix of trusted applications for an
/// architecture, with or without std: the std builds use the OP-TEE targets.
pub open spec fn spec_ta_target_and_cross_compile(arch: Arch, std: bool) -> (Seq<char>, Seq<char>) {
    match (arch, std) {
        (Arch::Arm, false) => ("arm-unknown-linux-gnueabihf"@, "arm-linux-gnueabihf-"@),
        (Arch::Arm, true) => ("arm-unknown-optee"@, "arm-linux-gnueabihf-"@),
        (Arch::Aarch64, false) => ("aarch64-unknown-linux-gnu"@, "aarch64-linux-gnu-"@),
        (Arch::Aarch64, true) => ("aarch64-unknown-optee"@, "aarch64-linux-gnu-"@),
    }
}

/// The Rust target and cross-compile prefix of a trusted application; every
/// architecture has a configuration with and without std.
pub fn get_ta_target_and_cross_compile(arch: Arch, std: bool) -> (res: Result<
    (String, String),
    ConfigError,
>)
    ensures
        res is Ok,
        (res->Ok_0.0@, res->Ok_0.1@) == spec_ta_target_and_cross_compile(arch, std),
{
    match (arch, std) {
        (Arch::Arm, false) => Ok(
            (
                String::from_str("arm-unknown-linux-gnueabihf"),
                String::from_str("arm-linux-gnueabihf-"),
            ),
        ),
        (Arch::Arm, true) => Ok(
            (String::from_str("arm-unknown-optee"), String::from_str("arm-linux-gnueabihf-")),
        ),
        (Arch::Aarch64, false) => Ok(
            (
                String::from_str("aarch64-unknown-linux-gnu"),
                String::from_str("aarch64-linux-gnu-"),
            ),
        ),
        (Arch::Aarch64, true) => Ok(
            (String::from_str("aarch64-unknown-optee"), String::from_str("aarch64-linux-gnu-")),
        ),
    }
}

/// The name of an architecture as its Rust target triples begin with it.
pub open spec fn spec_arch_name(arch: Arch) -> Seq<char> {
    match arch {
        Arch::Aarch64 => "aarch64"@,
        Arch::Arm => "arm"@,
    }
}

/// For every architecture, a std trusted application builds for the OP-TEE
/// target of that architecture, `<arch>-unknown-optee`, which is not the
/// target of a no-std build; a no-std trusted application builds for the
/// same target, with the same cross compiler, as a client application; and
/// std never changes the cross-compile prefix.
pub proof fn lemma_std_ta_builds_for_optee(arch: Arch)
    ensures
        spec_ta_target_and_cross_compile(arch, true).0 == spec_arch_name(arch) + "-unknown-optee"@,
        spec_ta_target_and_cross_compile(arch, true).0 != spec_ta_target_and_cross_compile(
            arch,
            false,
        ).0,
        spec_ta_target_and_cross_compile(arch, false) == spec_target_and_cross_compile(arch),
        spec_ta_target_and_cross_compile(arch, true).1 == spec_ta_target_and_cross_compile(
            arch,
            false,
        ).1,
{
    reveal_strlit("aarch64");
    reveal_strlit("arm");
    reveal_strlit("-unknown-optee");
    reveal_strlit("arm-unknown-optee");
    reveal_strlit("aarch64-unknown-optee");
    reveal_strlit("arm-unknown-linux-gnueabihf");
    reveal_strlit("aarch64-unknown-linux-gnu");
    match arch {
        Arch::Arm => {
            assert("arm"@ + "-unknown-optee"@ =~= "arm-unknown-optee"@);
            assert("arm-unknown-optee"@.len() != "arm-unknown-linux-gnueabihf"@.len());
        },
        Arch::Aarch64 => {
            assert("aarch64"@ + "-unknown-optee"@ =~= "aarch64-unknown-optee"@);
            assert("aarch64-unknown-optee"@.len() != "aarch64-unknown-linux-gnu"@.len());
        },
    }
}

/// The Linux system (kernel and ABI) that client applications of an
/// architecture run on.
pub open spec fn spec_linux_system(arch: Arch) -> Seq<char> {
    match arch {
        Arch::Aarch64 => "linux-gnu"@,
        Arch::Arm => "linux-gnueabihf"@,
    }
}

/// For every architecture, a client application's target is
/// `<arch>-unknown-<system>` and its cross-compile prefix is
/// `<arch>-<system>-`: the compiler of the same architecture and system.
pub proof fn lemma_cross_compile_matches_target(arch: Arch)
    ensures
        spec_target_and_cross_compile(arch).0 == spec_arch_name(arch) + "-unknown-"@
            + spec_linux_system(arch),
        spec_target_and_cross_compile(arch).1 == spec_arch_name(arch) + "-"@ + spec_linux_system(
            arch,
        ) + "-"@,
{
    reveal_strlit("aarch64");
    reveal_strlit("arm");
    reveal_strlit("-unknown-");
    reveal_strlit("-");
    reveal_strlit("arm-unknown-linux-gnueabihf");
    reveal_strlit("aarch64-unknown-linux-gnu");
    reveal_strlit("arm-linux-gnueabihf-");
    reveal_strlit("aarch64-linux-gnu-");
    reveal_strlit("linux-gnueabihf");
    reveal_strlit("linux-gnu");
    match arch {
        Arch::Arm => {
            let system = "linux-gnueabihf"@;
            assert("arm"@ + "-unknown-"@ + system =~= "arm-unknown-linux-gnueabihf"@);
            assert("arm"@ + "-"@ + system + "-"@ =~= "arm-linux-gnueabihf-"@);
        },
        Arch::Aarch64 => {
            let system = "linux-gnu"@;
            assert("aarch64"@ + "-unknown-"@ + system =~= "aarch64-unknown-linux-gnu"@);
            assert("aarch64"@ + "-"@ + system + "-"@ =~= "aarch64-linux-gnu-"@);
        },
    }
}

/// Errors of resolving a build configuration.
#[derive(Debug)]
pub enum ConfigError {
    /// The package metadata has no `optee` table.
    NoOpteeMetadata,
    /// The `optee` table has no table for the component (its name held).
    NoComponentMetadata(String),
    /// The metadata gives no UUID path.
    NoUuidPath,
    /// The mandatory TA dev kit directory is not configured.
    MissingTaDevKitDir,
    /// The mandatory OP-TEE client export directory is not configured.
    MissingOpteeClientExport,
}

/// The description of a configuration error.
pub open spec fn spec_config_error_message(error: ConfigError) -> Seq<char> {
    match error {
        ConfigError::NoOpteeMetadata => "No optee metadata found in application package"@,
        ConfigError::NoComponentMetadata(component) => "No "@ + component@
            + " metadata found in optee section"@,
        ConfigError::NoUuidPath => "No uuid_path found in metadata"@,
        ConfigError::MissingTaDevKitDir => "ta-dev-kit-dir is MANDATORY but not configured.\nPlease set it via:\n1. Command line: --ta-dev-kit-dir <path>\n2. Cargo.toml metadata: [package.metadata.optee.ta] section\n\nExample Cargo.toml:\n[package.metadata.optee.ta]\nta-dev-kit-dir = { aarch64 = \"/path/to/optee_os/out/arm-plat-vexpress/export-ta_arm64\" }\n# arm architecture omitted (defaults to null)\n\nFor help with available options, run: cargo-optee build ta --help"@,
        ConfigError::MissingOpteeClientExport => "optee-client-export is MANDATORY but not configured.\nPlease set it via:\n1. Command line: --optee-client-export <path>\n2. Cargo.toml metadata: [package.metadata.optee.ca] or [package.metadata.optee.plugin] section\n\nExample Cargo.toml:\n[package.metadata.optee.ca]\noptee-client-export = { aarch64 = \"/path/to/optee_client/export_arm64\" }\n# arm architecture omitted (defaults to null)\n\nFor help with available options, run: cargo-optee build ca --help"@,
    }
}

impl ConfigError {
    /// The description of this error.
    pub fn message(&self) -> (message: String)
        ensures
            message@ == spec_config_error_message(*self),
    {
        match self {
            ConfigError::NoOpteeMetadata => String::from_str(
                "No optee metadata found in application package",
            ),
            ConfigError::NoComponentMetadata(component) => String::from_str("No ").concat(
                component.as_str(),
            ).concat(" metadata found in optee section"),
            ConfigError::NoUuidPath => String::from_str("No uuid_path found in metadata"),
            ConfigError::MissingTaDevKitDir => String::from_str(
                "ta-dev-kit-dir is MANDATORY but not configured.\nPlease set it via:\n1. Command line: --ta-dev-kit-dir <path>\n2. Cargo.toml metadata: [package.metadata.optee.ta] section\n\nExample Cargo.toml:\n[package.metadata.optee.ta]\nta-dev-kit-dir = { aarch64 = \"/path/to/optee_os/out/arm-plat-vexpress/export-ta_arm64\" }\n# arm architecture omitted (defaults to null)\n\nFor help with available options, run: cargo-optee build ta --help",
            ),
            ConfigError::MissingOpteeClientExport => String::from_str(
                "optee-client-export is MANDATORY but not configured.\nPlease set it via:\n1. Command line: --optee-client-export <path>\n2. Cargo.toml metadata: [package.metadata.optee.ca] or [package.metadata.optee.plugin] section\n\nExample Cargo.toml:\n[package.metadata.optee.ca]\noptee-client-export = { aarch64 = \"/path/to/optee_client/export_arm64\" }\n# arm architecture omitted (defaults to null)\n\nFor help with available options, run: cargo-optee build ca --help",
            ),
        }
    }
}

/// The contents of a build configuration.
pub struct BuildConfigView {
    pub arch: Arch,
    pub debug: bool,
    pub std: bool,
    pub ta_dev_kit_dir: Option<Seq<char>>,
    pub optee_client_export: Option<Seq<char>>,
    pub signing_key: Option<Seq<char>>,
    pub uuid_path: Option<Seq<char>>,
    pub env: Seq<(Seq<char>, Seq<char>)>,
}

/// Build configuration discovered from the command line and package metadata.
/// Paths are kept as strings.
#[derive(Debug)]
pub struct BuildConfig {
    pub arch: Arch,
    pub debug: bool,
    pub std: bool,
    pub ta_dev_kit_dir: Option<String>,
    pub optee_client_export: Option<String>,
    pub signing_key: Option<String>,
    pub uuid_path: Option<String>,
    /// Additional environment key-value pairs for the underlying build
    /// commands.
    pub env: Vec<(String, String)>,
}

/// What building a trusted application needs.
#[derive(Debug)]
pub struct TaBuildConfig {
    pub arch: Arch,
    pub std: bool,
    pub ta_dev_kit_dir: String,
    pub signing_key: String,
    pub debug: bool,
    pub path: String,
    pub uuid_path: String,
    pub env: Vec<(String, String)>,
    pub no_default_features: bool,
    pub features: Option<String>,
}

/// What building a client application or plugin needs.
#[derive(Debug)]
pub struct CaBuildConfig {
    pub arch: Arch,
    pub optee_client_export: String,
    pub debug: bool,
    pub path: String,
    pub plugin: bool,
    pub uuid_path: Option<String>,
    pub env: Vec<(String, String)>,
    pub no_default_features: bool,
    pub features: Option<String>,
}

/// The characters of an optional string.
pub open spec fn spec_opt_string(o: Option<String>) -> Option<Seq<char>> {
    match o {
        Some(s) => Some(s@),
        None => None,
    }
}

/// The characters of a list of key-value pairs.
pub open spec fn spec_pairs(v: Seq<(String, String)>) -> Seq<(Seq<char>, Seq<char>)> {
    v.map_values(|p: (String, String)| (p.0@, p.1@))
}

impl View for BuildConfig {
    type V = BuildConfigView;

    open spec fn view(&self) -> BuildConfigView {
        BuildConfigView {
            arch: self.arch,
            debug: self.debug,
            std: self.std,
            ta_dev_kit_dir: spec_opt_string(self.ta_dev_kit_dir),
            optee_client_export: spec_opt_string(self.optee_client_export),
            signing_key: spec_opt_string(self.signing_key),
            uuid_path: spec_opt_string(self.uuid_path),
            env: spec_pairs(self.env@),
        }
    }
}

/// The key under which an architecture's path is given.
pub open spec fn spec_arch_key(arch: Arch) -> Seq<char> {
    match arch {
        Arch::Aarch64 => "aarch64"@,
        Arch::Arm => "arm"@,
    }
}

/// An optional string, dropped when empty.
pub open spec fn spec_non_empty(o: Option<Seq<char>>) -> Option<Seq<char>> {
    match o {
        Some(s) => if s.len() > 0 {
            Some(s)
        } else {
            None
        },
        None => None,
    }
}

/// The path the entry `name` of a component table gives for `arch`: the
/// string under the architecture's key when that key is present, else the
/// entry itself when it is a string; empty strings count as absent.
pub open spec fn spec_arch_path(section: JsonValue, name: Seq<char>, arch: Arch) -> Option<
    Seq<char>,
> {
    match spec_get(section, name) {
        Some(v) => spec_non_empty(
            match spec_get(v, spec_arch_key(arch)) {
                Some(av) => spec_as_str(Some(av)),
                None => spec_as_str(Some(v)),
            },
        ),
        None => None,
    }
}

/// The key and value of a `KEY=VALUE` string, split at its first `=`.
pub open spec fn spec_env_pair(s: Seq<char>) -> Option<(Seq<char>, Seq<char>)> {
    match spec_first_index(s, '=') {
        Some(p) => Some((s.take(p), s.skip(p + 1))),
        None => None,
    }
}

/// The pair of one `env` element: strings of the form `KEY=VALUE` give one,
/// anything else gives none.
pub open spec fn spec_env_item(item: JsonValue) -> Option<(Seq<char>, Seq<char>)> {
    match item {
        JsonValue::Str(s) => spec_env_pair(s@),
        _ => None,
    }
}

/// The pairs of the `env` elements, in order.
pub open spec fn spec_env_items(items: Seq<JsonValue>) -> Seq<(Seq<char>, Seq<char>)>
    decreases items.len(),
{
    if items.len() == 0 {
        Seq::empty()
    } else {
        let rest = spec_env_items(items.drop_last());
        match spec_env_item(items.last()) {
            Some(p) => rest.push(p),
            None => rest,
        }
    }
}

/// The environment pairs of a component table: those of its `env` array, or
/// none.
pub open spec fn spec_env_of(section: JsonValue) -> Seq<(Seq<char>, Seq<char>)> {
    match spec_get(section, "env"@) {
        Some(JsonValue::Array(items)) => spec_env_items(items@),
        _ => Seq::empty(),
    }
}

/// A boolean entry of a component table, false when absent or not a boolean.
pub open spec fn spec_flag(section: JsonValue, name: Seq<char>) -> bool {
    match spec_as_bool(spec_get(section, name)) {
        Some(b) => b,
        None => false,
    }
}

/// The table `optee.<component>` of the package metadata.
pub open spec fn spec_section(metadata: JsonValue, component: Seq<char>) -> Option<JsonValue> {
    spec_get_in(spec_get(metadata, "optee"@), component)
}

/// The configuration a component table gives for `arch`: the TA dev kit
/// directory and signing key for a TA only, the client export directory for a
/// CA or plugin only, never a UUID path.
pub open spec fn spec_config_of_section(section: JsonValue, arch: Arch, component: Seq<char>) -> BuildConfigView {
    BuildConfigView {
        arch,
        debug: spec_flag(section, "debug"@),
        std: spec_flag(section, "std"@),
        ta_dev_kit_dir: if component == "ta"@ {
            spec_arch_path(section, "ta-dev-kit-dir"@, arch)
        } else {
            None
        },
        optee_client_export: if component == "ca"@ || component == "plugin"@ {
            spec_arch_path(section, "optee-client-export"@, arch)
        } else {
            None
        },
        signing_key: if component == "ta"@ {
            spec_non_empty(spec_as_str(spec_get(section, "signing-key"@)))
        } else {
            None
        },
        uuid_path: None,
        env: spec_env_of(section),
    }
}

/// The architecture a component table names (`aarch64` when it names none or
/// an unknown one).
pub open spec fn spec_section_arch(section: JsonValue) -> Arch {
    match spec_as_str(spec_get(section, "arch"@)) {
        Some(s) => match spec_parse_arch(s) {
            Some(arch) => arch,
            None => Arch::Aarch64,
        },
        None => Arch::Aarch64,
    }
}

/// The configuration the metadata gives a component for `arch`, if it has a
/// table for it.
pub open spec fn spec_extract_with_arch(metadata: JsonValue, arch: Arch, component: Seq<char>) -> Option<BuildConfigView> {
    match spec_section(metadata, component) {
        Some(section) => Some(spec_config_of_section(section, arch, component)),
        None => None,
    }
}

/// The configuration the metadata gives a component for the architecture its
/// table names, if it has a table for it.
pub open spec fn spec_extract(metadata: JsonValue, component: Seq<char>) -> Option<BuildConfigView> {
    match spec_section(metadata, component) {
        Some(section) => Some(
            spec_config_of_section(section, spec_section_arch(section), component),
        ),
        None => None,
    }
}

/// The UUID path of the metadata: `optee.ta.uuid-path`, else
/// `optee.plugin.uuid-path`.
pub open spec fn spec_uuid_path(metadata: JsonValue) -> Option<Seq<char>> {
    let optee = spec_get(metadata, "optee"@);
    match spec_as_str(spec_get_in(spec_get_in(optee, "ta"@), "uuid-path"@)) {
        Some(p) => Some(p),
        None => spec_as_str(spec_get_in(spec_get_in(optee, "plugin"@), "uuid-path"@)),
    }
}

/// The error of a component without a table: no `optee` table, or none for
/// the component.
pub open spec fn spec_missing_section_error(
    metadata: JsonValue,
    component: Seq<char>,
    error: ConfigError,
) -> bool {
    if spec_get(metadata, "optee"@) is None {
        error is NoOpteeMetadata
    } else {
        error is NoComponentMetadata && error->NoComponentMetadata_0@ == component
    }
}

/// The table `optee.<component>` of the metadata, or the error of its absence.
fn find_section<'a>(metadata: &'a JsonValue, component_type: &str) -> (res: Result<
    &'a JsonValue,
    ConfigError,
>)
    ensures
        match res {
            Ok(section) => spec_section(*metadata, component_type@) == Some(*section),
            Err(e) => spec_section(*metadata, component_type@) is None
                && spec_missing_section_error(*metadata, component_type@, e),
        },
{
    let optee_metadata = match metadata.get("optee") {
        Some(m) => m,
        None => return Err(ConfigError::NoOpteeMetadata),
    };
    match optee_metadata.get(component_type) {
        Some(section) => Ok(section),
        None => Err(ConfigError::NoComponentMetadata(String::from_str(component_type))),
    }
}

/// The path the entry `name` of a component table gives for `arch`.
fn arch_path(section: &JsonValue, name: &str, arch: Arch) -> (path: Option<String>)
    ensures
        spec_opt_string(path) == spec_arch_path(*section, name@, arch),
{
    let arch_key = match arch {
        Arch::Aarch64 => "aarch64",
        Arch::Arm => "arm",
    };
    let entry = match section.get(name) {
        Some(v) => v,
        None => return None,
    };
    let s = match entry.get(arch_key) {
        Some(arch_value) => arch_value.as_str(),
        None => entry.as_str(),
    };
    match s {
        Some(s) => {
            if s.unicode_len() > 0 {
                Some(String::from_str(s))
            } else {
                None
            }
        },
        None => None,
    }
}

/// A string entry of a component table, when present and not empty.
fn non_empty_str(section: &JsonValue, name: &str) -> (value: Option<String>)
    ensures
        spec_opt_string(value) == spec_non_empty(spec_as_str(spec_get(*section, name@))),
{
    match section.get(name) {
        Some(v) => match v.as_str() {
            Some(s) => {
                if s.unicode_len() > 0 {
                    Some(String::from_str(s))
                } else {
                    None
                }
            },
            None => None,
        },
        None => None,
    }
}

/// A boolean entry of a component table, false when absent.
fn flag(section: &JsonValue, name: &str) -> (value: bool)
    ensures
        value == spec_flag(*section, name@),
{
    match section.get(name) {
        Some(v) => match v.as_bool() {
            Some(b) => b,
            None => false,
        },
        None => false,
    }
}

/// The key and value of a `KEY=VALUE` string.
pub fn parse_env_entry(s: &str) -> (pair: Option<(String, String)>)
    ensures
        match pair {
            Some(p) => spec_env_pair(s@) == Some((p.0@, p.1@)),
            None => spec_env_pair(s@) is None,
        },
{
    match first_index(s, '=') {
        Some(eq_pos) => {
            let n = s.unicode_len();
            let key = s.substring_char(0, eq_pos);
            let value = s.substring_char(eq_pos + 1, n);
            assert(s@.take(eq_pos as int) =~= s@.subrange(0, eq_pos as int));
            assert(s@.skip(eq_pos + 1) =~= s@.subrange(eq_pos + 1, n as int));
            Some((String::from_str(key), String::from_str(value)))
        },
        None => None,
    }
}

/// The environment pairs of a component table.
fn parse_env(section: &JsonValue) -> (env: Vec<(String, String)>)
    ensures
        spec_pairs(env@) == spec_env_of(*section),
{
    let mut env: Vec<(String, String)> = Vec::new();
    let items = match section.get("env") {
        Some(v) => match v.as_array() {
            Some(items) => items,
            None => return env,
        },
        None => return env,
    };
    let mut i: usize = 0;
    assert(items@.take(0) =~= Seq::<JsonValue>::empty());
    assert(spec_pairs(env@) =~= Seq::<(Seq<char>, Seq<char>)>::empty());
    while i < items.len()
        invariant
            i <= items@.len(),
            spec_get(*section, "env"@) == Some(JsonValue::Array(*items)),
            spec_pairs(env@) == spec_env_items(items@.take(i as int)),
        decreases items@.len() - i,
    {
        assert(items@.take(i + 1).drop_last() =~= items@.take(i as int));
        assert(items@.take(i + 1).last() == items@[i as int]);
        match items[i].as_str() {
            Some(s) => {
                match parse_env_entry(s) {
                    Some(pair) => {
                        let ghost before = env@;
                        env.push(pair);
                        assert(spec_pairs(env@) =~= spec_pairs(before).push(
                            (env@.last().0@, env@.last().1@),
                        ));
                    },
                    None => {},
                }
            },
            None => {},
        }
        i = i + 1;
    }
    assert(items@.take(items@.len() as int) =~= items@);
    env
}

/// Extracts the build configuration that the package metadata gives a
/// component (`ta`, `ca` or `plugin`) for the architecture `arch`.
pub fn extract_build_config_with_arch(
    metadata: &JsonValue,
    arch: Arch,
    component_type: &str,
) -> (res: Result<BuildConfig, ConfigError>)
    ensures
        match res {
            Ok(config) => spec_extract_with_arch(*metadata, arch, component_type@) == Some(
                config@,
            ),
            Err(e) => spec_extract_with_arch(*metadata, arch, component_type@) is None
                && spec_missing_section_error(*metadata, component_type@, e),
        },
{
    let section = find_section(metadata, component_type)?;
    let debug = flag(section, "debug");
    let std = flag(section, "std");
    proof {
        reveal_strlit("ta");
        reveal_strlit("ca");
        reveal_strlit("plugin");
    }
    let ta_dev_kit_dir = if str_eq(component_type, "ta") {
        arch_path(section, "ta-dev-kit-dir", arch)
    } else {
        None
    };
    let optee_client_export = if str_eq(component_type, "ca") || str_eq(component_type, "plugin") {
        arch_path(section, "optee-client-export", arch)
    } else {
        None
    };
    let signing_key = if str_eq(component_type, "ta") {
        non_empty_str(section, "signing-key")
    } else {
        None
    };
    let env = parse_env(section);
    Ok(
        BuildConfig {
            arch,
            debug,
            std,
            ta_dev_kit_dir,
            optee_client_export,
            signing_key,
            uuid_path: None,
            env,
        },
    )
}

/// Extracts the build configuration that the package metadata gives a
/// component, for the architecture its table names (`aarch64` by default).
pub fn extract_build_config_from_metadata(metadata: &JsonValue, component_type: &str) -> (res:
    Result<BuildConfig, ConfigError>)
    ensures
        match res {
            Ok(config) => spec_extract(*metadata, component_type@) == Some(config@),
            Err(e) => spec_extract(*metadata, component_type@) is None
                && spec_missing_section_error(*metadata, component_type@, e),
        },
{
    let section = find_section(metadata, component_type)?;
    let arch = match section.get("arch") {
        Some(v) => match v.as_str() {
            Some(s) => match Arch::parse(s) {
                Ok(arch) => arch,
                Err(_) => Arch::Aarch64,
            },
            None => Arch::Aarch64,
        },
        None => Arch::Aarch64,
    };
    extract_build_config_with_arch(metadata, arch, component_type)
}

/// The UUID path the package metadata gives: `optee.ta.uuid-path`, else
/// `optee.plugin.uuid-path`.
pub fn extract_uuid_path_from_metadata(metadata: &JsonValue) -> (res: Result<String, ConfigError>)
    ensures
        match res {
            Ok(path) => spec_uuid_path(*metadata) == Some(path@),
            Err(e) => spec_uuid_path(*metadata) is None && e is NoUuidPath,
        },
{
    if let Some(optee_metadata) = metadata.get("optee") {
        if let Some(ta_section) = optee_metadata.get("ta") {
            if let Some(uuid_path_value) = ta_section.get("uuid-path") {
                if let Some(uuid_path_str) = uuid_path_value.as_str() {
                    return Ok(String::from_str(uuid_path_str));
                }
            }
        }
        if let Some(plugin_section) = optee_metadata.get("plugin") {
            if let Some(uuid_path_value) = plugin_section.get("uuid-path") {
                if let Some(uuid_path_str) = uuid_path_value.as_str() {
                    return Ok(String::from_str(uuid_path_str));
                }
            }
        }
    }
    Err(ConfigError::NoUuidPath)
}

/// The first of two optional strings that is present.
pub open spec fn spec_or(first: Option<Seq<char>>, second: Option<Seq<char>>) -> Option<Seq<char>> {
    match first {
        Some(s) => Some(s),
        None => second,
    }
}

/// The configuration resolved with priority: command line, then the package
/// metadata, then defaults (`aarch64`, no debug, no std, no paths, UUID path
/// `../uuid.txt`). When the command line names an architecture other than the
/// one the metadata table names, the metadata is read again for that
/// architecture.
pub open spec fn spec_resolve(
    metadata: Option<JsonValue>,
    component: Seq<char>,
    cmd_arch: Option<Arch>,
    cmd_debug: Option<bool>,
    cmd_std: Option<bool>,
    cmd_ta_dev_kit_dir: Option<Seq<char>>,
    cmd_optee_client_export: Option<Seq<char>>,
    cmd_signing_key: Option<Seq<char>>,
    cmd_uuid_path: Option<Seq<char>>,
) -> BuildConfigView {
    let metadata_config = match metadata {
        Some(m) => spec_extract(m, component),
        None => None,
    };
    let metadata_arch = match metadata_config {
        Some(c) => Some(c.arch),
        None => None,
    };
    let arch = match cmd_arch {
        Some(a) => a,
        None => match metadata_arch {
            Some(a) => a,
            None => Arch::Aarch64,
        },
    };
    let final_config = match metadata {
        Some(m) => if cmd_arch is Some && cmd_arch != metadata_arch {
            spec_extract_with_arch(m, arch, component)
        } else {
            metadata_config
        },
        None => None,
    };
    let metadata_uuid = match metadata {
        Some(m) => spec_uuid_path(m),
        None => None,
    };
    BuildConfigView {
        arch,
        debug: match cmd_debug {
            Some(d) => d,
            None => match final_config {
                Some(c) => c.debug,
                None => false,
            },
        },
        std: match cmd_std {
            Some(d) => d,
            None => match final_config {
                Some(c) => c.std,
                None => false,
            },
        },
        ta_dev_kit_dir: spec_or(
            cmd_ta_dev_kit_dir,
            match final_config {
                Some(c) => c.ta_dev_kit_dir,
                None => None,
            },
        ),
        optee_client_export: spec_or(
            cmd_optee_client_export,
            match final_config {
                Some(c) => c.optee_client_export,
                None => None,
            },
        ),
        signing_key: spec_or(
            cmd_signing_key,
            match final_config {
                Some(c) => c.signing_key,
                None => None,
            },
        ),
        uuid_path: Some(
            match spec_or(cmd_uuid_path, metadata_uuid) {
                Some(p) => p,
                None => "../uuid.txt"@,
            },
        ),
        env: match final_config {
            Some(c) => c.env,
            None => Seq::empty(),
        },
    }
}

impl BuildConfig {
    /// Resolves the build configuration of a component from the command-line
    /// values and the package metadata (absent when none could be read), with
    /// priority: command line, metadata, defaults.
    pub fn resolve(
        app_metadata: Option<&JsonValue>,
        component_type: &str,
        cmd_arch: Option<Arch>,
        cmd_debug: Option<bool>,
        cmd_std: Option<bool>,
        cmd_ta_dev_kit_dir: Option<String>,
        cmd_optee_client_export: Option<String>,
        cmd_signing_key: Option<String>,
        cmd_uuid_path: Option<String>,
    ) -> (res: Result<BuildConfig, ConfigError>)
        ensures
            res is Ok,
            res->Ok_0@ == spec_resolve(
                match app_metadata {
                    Some(m) => Some(*m),
                    None => None,
                },
                component_type@,
                cmd_arch,
                cmd_debug,
                cmd_std,
                spec_opt_string(cmd_ta_dev_kit_dir),
                spec_opt_string(cmd_optee_client_export),
                spec_opt_string(cmd_signing_key),
                spec_opt_string(cmd_uuid_path),
            ),
    {
        let metadata_config = match app_metadata {
            Some(meta) => match extract_build_config_from_metadata(meta, component_type) {
                Ok(c) => Some(c),
                Err(_) => None,
            },
            None => None,
        };
        let metadata_arch = match &metadata_config {
            Some(c) => Some(c.arch),
            None => None,
        };
        let arch = match cmd_arch {
            Some(a) => a,
            None => match metadata_arch {
                Some(a) => a,
                None => Arch::Aarch64,
            },
        };
        let arch_overridden = match (cmd_arch, metadata_arch) {
            (Some(a), Some(b)) => a != b,
            (Some(_), None) => true,
            (None, _) => false,
        };
        let final_config = match app_metadata {
            Some(meta) => {
                if arch_overridden {
                    match extract_build_config_with_arch(meta, arch, component_type) {
                        Ok(c) => Some(c),
                        Err(_) => None,
                    }
                } else {
                    metadata_config
                }
            },
            None => None,
        };
        let (f_debug, f_std, f_ta_dev_kit_dir, f_optee_client_export, f_signing_key, f_env) =
            match final_config {
            Some(c) => (
                c.debug,
                c.std,
                c.ta_dev_kit_dir,
                c.optee_client_export,
                c.signing_key,
                c.env,
            ),
            None => (false, false, None, None, None, Vec::new()),
        };
        let debug = match cmd_debug {
            Some(d) => d,
            None => f_debug,
        };
        let std = match cmd_std {
            Some(s) => s,
            None => f_std,
        };
        let ta_dev_kit_dir = match cmd_ta_dev_kit_dir {
            Some(p) => Some(p),
            None => f_ta_dev_kit_dir,
        };
        let optee_client_export = match cmd_optee_client_export {
            Some(p) => Some(p),
            None => f_optee_client_export,
        };
        let signing_key = match cmd_signing_key {
            Some(p) => Some(p),
            None => f_signing_key,
        };
        let uuid_path = match cmd_uuid_path {
            Some(p) => p,
            None => {
                let from_metadata = match app_metadata {
                    Some(meta) => match extract_uuid_path_from_metadata(meta) {
                        Ok(p) => Some(p),
                        Err(_) => None,
                    },
                    None => None,
                };
                match from_metadata {
                    Some(p) => p,
                    None => String::from_str("../uuid.txt"),
                }
            },
        };
        assert(spec_pairs(Seq::<(String, String)>::empty()) =~= Seq::empty());
        Ok(
            BuildConfig {
                arch,
                debug,
                std,
                ta_dev_kit_dir,
                optee_client_export,
                signing_key,
                uuid_path: Some(uuid_path),
                env: f_env,
            },
        )
    }

    /// The TA dev kit directory, which is mandatory.
    pub fn require_ta_dev_kit_dir(&self) -> (res: Result<String, ConfigError>)
        ensures
            match res {
                Ok(dir) => spec_opt_string(self.ta_dev_kit_dir) == Some(dir@),
                Err(e) => self.ta_dev_kit_dir is None && e is MissingTaDevKitDir,
            },
    {
        match &self.ta_dev_kit_dir {
            Some(dir) => Ok(dir.clone()),
            None => Err(ConfigError::MissingTaDevKitDir),
        }
    }

    /// The OP-TEE client export directory, which is mandatory.
    pub fn require_optee_client_export(&self) -> (res: Result<String, ConfigError>)
        ensures
            match res {
                Ok(dir) => spec_opt_string(self.optee_client_export) == Some(dir@),
                Err(e) => self.optee_client_export is None && e is MissingOpteeClientExport,
            },
    {
        match &self.optee_client_export {
            Some(dir) => Ok(dir.clone()),
            None => Err(ConfigError::MissingOpteeClientExport),
        }
    }

    /// The UUID path, `../uuid.txt` when none is set.
    pub fn get_uuid_path(&self) -> (path: String)
        ensures
            path@ == match spec_opt_string(self.uuid_path) {
                Some(p) => p,
                None => "../uuid.txt"@,
            },
    {
        match &self.uuid_path {
            Some(p) => p.clone(),
            None => String::from_str("../uuid.txt"),
        }
    }

    /// The signing key, or `keys/default_ta.pem` under the TA dev kit
    /// directory when none is set.
    pub fn resolve_signing_key(&self, ta_dev_kit_dir: &str) -> (path: String)
        ensures
            path@ == match spec_opt_string(self.signing_key) {
                Some(k) => k,
                None => spec_join_path(spec_join_path(ta_dev_kit_dir@, "keys"@), "default_ta.pem"@),
            },
    {
        match &self.signing_key {
            Some(k) => k.clone(),
            None => {
                let keys = join_path(ta_dev_kit_dir, "keys");
                join_path(keys.as_str(), "default_ta.pem")
            },
        }
    }
}

/// The position of the first of `paths` that contains `sub`.
pub open spec fn spec_first_containing(paths: Seq<Seq<char>>, sub: Seq<char>) -> Option<int>
    decreases paths.len(),
{
    if paths.len() == 0 {
        None
    } else if spec_contains(paths[0], sub) {
        Some(0)
    } else {
        match spec_first_containing(paths.drop_first(), sub) {
            Some(i) => Some(i + 1),
            None => None,
        }
    }
}

proof fn lemma_first_containing(paths: Seq<Seq<char>>, sub: Seq<char>, i: int)
    requires
        0 <= i <= paths.len(),
        forall|k: int| 0 <= k < i ==> !spec_contains(#[trigger] paths[k], sub),
    ensures
        i < paths.len() && spec_contains(paths[i], sub) ==> spec_first_containing(paths, sub)
            == Some(i),
        i == paths.len() ==> spec_first_containing(paths, sub) is None,
    decreases i,
{
    if i > 0 {
        let rest = paths.drop_first();
        assert forall|k: int| 0 <= k < i - 1 implies !spec_contains(#[trigger] rest[k], sub) by {
            assert(rest[k] == paths[k + 1]);
        }
        lemma_first_containing(rest, sub, i - 1);
        if i < paths.len() {
            assert(rest[i - 1] == paths[i]);
        }
    }
}

/// The package whose metadata a build reads, among the packages of the
/// manifest's metadata: the root package when there is one, else the first
/// package whose manifest path contains the path of the project's
/// `Cargo.toml`.
pub open spec fn spec_select_package(
    root_package: Option<usize>,
    manifest_paths: Seq<Seq<char>>,
    cargo_toml_path: Seq<char>,
) -> Option<int> {
    match root_package {
        Some(r) => Some(r as int),
        None => spec_first_containing(manifest_paths, cargo_toml_path),
    }
}

/// The index of the package whose metadata a build reads: `root_package`
/// when given, else the first of `manifest_paths` that contains
/// `cargo_toml_path`; `None` when there is no such package.
pub fn select_package(
    root_package: Option<usize>,
    manifest_paths: &Vec<String>,
    cargo_toml_path: &str,
) -> (index: Option<usize>)
    ensures
        match index {
            Some(i) => spec_select_package(
                root_package,
                spec_strings(manifest_paths@),
                cargo_toml_path@,
            ) == Some(i as int),
            None => spec_select_package(
                root_package,
                spec_strings(manifest_paths@),
                cargo_toml_path@,
            ) is None,
        },
{
    if let Some(r) = root_package {
        return Some(r);
    }
    let ghost paths = spec_strings(manifest_paths@);
    let mut i: usize = 0;
    while i < manifest_paths.len()
        invariant
            i <= manifest_paths@.len(),
            root_package is None,
            paths == spec_strings(manifest_paths@),
            forall|k: int| 0 <= k < i ==> !spec_contains(#[trigger] paths[k], cargo_toml_path@),
        decreases manifest_paths@.len() - i,
    {
        assert(paths[i as int] == manifest_paths@[i as int]@);
        if contains(manifest_paths[i].as_str(), cargo_toml_path) {
            proof {
                lemma_first_containing(paths, cargo_toml_path@, i as int);
            }
            return Some(i);
        }
        i = i + 1;
    }
    proof {
        lemma_first_containing(paths, cargo_toml_path@, i as int);
    }
    None
}

/// Priority of the resolved configuration: every setting that the command
/// line gives is the one resolved, whatever the metadata holds; and without
/// metadata every setting the command line leaves out takes its default
/// (`aarch64`, no debug, no std, no paths, UUID path `../uuid.txt`, no
/// environment).
pub proof fn lemma_resolve_priority(
    metadata: Option<JsonValue>,
    component: Seq<char>,
    cmd_arch: Option<Arch>,
    cmd_debug: Option<bool>,
    cmd_std: Option<bool>,
    cmd_ta_dev_kit_dir: Option<Seq<char>>,
    cmd_optee_client_export: Option<Seq<char>>,
    cmd_signing_key: Option<Seq<char>>,
    cmd_uuid_path: Option<Seq<char>>,
)
    ensures
        ({
            let r = spec_resolve(
                metadata,
                component,
                cmd_arch,
                cmd_debug,
                cmd_std,
                cmd_ta_dev_kit_dir,
                cmd_optee_client_export,
                cmd_signing_key,
                cmd_uuid_path,
            );
            &&& cmd_arch matches Some(a) ==> r.arch == a
            &&& cmd_debug matches Some(d) ==> r.debug == d
            &&& cmd_std matches Some(b) ==> r.std == b
            &&& cmd_ta_dev_kit_dir is Some ==> r.ta_dev_kit_dir == cmd_ta_dev_kit_dir
            &&& cmd_optee_client_export is Some ==> r.optee_client_export
                == cmd_optee_client_export
            &&& cmd_signing_key is Some ==> r.signing_key == cmd_signing_key
            &&& cmd_uuid_path is Some ==> r.uuid_path == cmd_uuid_path
            &&& metadata is None ==> {
                &&& cmd_arch is None ==> r.arch == Arch::Aarch64
                &&& cmd_debug is None ==> !r.debug
                &&& cmd_std is None ==> !r.std
                &&& cmd_ta_dev_kit_dir is None ==> r.ta_dev_kit_dir is None
                &&& cmd_optee_client_export is None ==> r.optee_client_export is None
                &&& cmd_signing_key is None ==> r.signing_key is None
                &&& cmd_uuid_path is None ==> r.uuid_path == Some("../uuid.txt"@)
                &&& r.env.len() == 0
            }
        }),
{
}

/// One entry of the summary of the configuration a build uses.
#[derive(Debug)]
pub enum ConfigEntry {
    Arch(Arch),
    Debug(bool),
    Std(bool),
    /// The TA dev kit directory, taken from the project directory.
    TaDevKitDir(String),
    /// The signing key, taken from the project directory.
    SigningKey(String),
    /// The UUID file, joined to the project directory.
    UuidPath(String),
    /// The OP-TEE client export directory, taken from the project directory.
    OpteeClientExport(String),
    /// The number of environment variables set.
    EnvCount(usize),
}

/// The contents of a summary entry.
pub enum ConfigEntryView {
    Arch(Arch),
    Debug(bool),
    Std(bool),
    TaDevKitDir(Seq<char>),
    SigningKey(Seq<char>),
    UuidPath(Seq<char>),
    OpteeClientExport(Seq<char>),
    EnvCount(nat),
}

impl View for ConfigEntry {
    type V = ConfigEntryView;

    open spec fn view(&self) -> ConfigEntryView {
        match self {
            ConfigEntry::Arch(a) => ConfigEntryView::Arch(*a),
            ConfigEntry::Debug(d) => ConfigEntryView::Debug(*d),
            ConfigEntry::Std(b) => ConfigEntryView::Std(*b),
            ConfigEntry::TaDevKitDir(p) => ConfigEntryView::TaDevKitDir(p@),
            ConfigEntry::SigningKey(p) => ConfigEntryView::SigningKey(p@),
            ConfigEntry::UuidPath(p) => ConfigEntryView::UuidPath(p@),
            ConfigEntry::OpteeClientExport(p) => ConfigEntryView::OpteeClientExport(p@),
            ConfigEntry::EnvCount(n) => ConfigEntryView::EnvCount(*n as nat),
        }
    }
}

/// An optional entry.
pub open spec fn spec_entry_if(o: Option<Seq<char>>, f: spec_fn(Seq<char>) -> ConfigEntryView) -> Seq<ConfigEntryView> {
    match o {
        Some(p) => seq![f(p)],
        None => Seq::empty(),
    }
}

/// The entries that only the summary of a TA build has.
pub open spec fn spec_ta_entries(config: BuildConfigView, project_path: Seq<char>) -> Seq<
    ConfigEntryView,
> {
    seq![ConfigEntryView::Std(config.std)] + spec_entry_if(
        config.ta_dev_kit_dir,
        |p: Seq<char>| ConfigEntryView::TaDevKitDir(spec_join_path(project_path, p)),
    ) + spec_entry_if(
        config.signing_key,
        |p: Seq<char>| ConfigEntryView::SigningKey(spec_join_path(project_path, p)),
    ) + spec_entry_if(
        config.uuid_path,
        |p: Seq<char>| ConfigEntryView::UuidPath(spec_join_path(project_path, p)),
    )
}

/// The entries that only the summary of a CA or plugin build has.
pub open spec fn spec_ca_entries(
    config: BuildConfigView,
    project_path: Seq<char>,
    plugin: bool,
) -> Seq<ConfigEntryView> {
    spec_entry_if(
        config.optee_client_export,
        |p: Seq<char>| ConfigEntryView::OpteeClientExport(spec_join_path(project_path, p)),
    ) + (if plugin {
        spec_entry_if(
            config.uuid_path,
            |p: Seq<char>| ConfigEntryView::UuidPath(spec_join_path(project_path, p)),
        )
    } else {
        Seq::empty()
    })
}

/// The summary of the configuration a build of `component` uses: the
/// architecture and debug flag; for a TA the std flag, the TA dev kit
/// directory and signing key taken from the project directory, and the UUID
/// file; for a CA or plugin the client export directory taken from the
/// project directory, and for a plugin the UUID file; then the number of
/// environment variables, when there are any.
pub open spec fn spec_config_summary(
    config: BuildConfigView,
    component: Seq<char>,
    project_path: Seq<char>,
) -> Seq<ConfigEntryView> {
    seq![ConfigEntryView::Arch(config.arch), ConfigEntryView::Debug(config.debug)] + (if component
        == "ta"@ {
        spec_ta_entries(config, project_path)
    } else {
        Seq::empty()
    }) + (if component == "ca"@ || component == "plugin"@ {
        spec_ca_entries(config, project_path, component == "plugin"@)
    } else {
        Seq::empty()
    }) + (if config.env.len() > 0 {
        seq![ConfigEntryView::EnvCount(config.env.len())]
    } else {
        Seq::empty()
    })
}

/// The views of a list of summary entries.
pub open spec fn spec_entries(v: Seq<ConfigEntry>) -> Seq<ConfigEntryView> {
    v.map_values(|e: ConfigEntry| e@)
}

fn push_entry(entries: &mut Vec<ConfigEntry>, entry: ConfigEntry)
    ensures
        spec_entries(final(entries)@) == spec_entries(old(entries)@).push(entry@),
{
    let ghost before = entries@;
    let ghost view = entry@;
    entries.push(entry);
    assert(spec_entries(entries@) =~= spec_entries(before).push(view));
}

fn push_path_entry(entries: &mut Vec<ConfigEntry>, path: &Option<String>, project_path: &str, kind: u8)
    requires
        kind < 4,
    ensures
        spec_entries(final(entries)@) == spec_entries(old(entries)@) + spec_entry_if(
            spec_opt_string(*path),
            |p: Seq<char>| path_entry_view(kind, spec_join_path(project_path@, p)),
        ),
{
    match path {
        Some(p) => {
            let joined = join_path(project_path, p.as_str());
            let entry = if kind == 0 {
                ConfigEntry::TaDevKitDir(joined)
            } else if kind == 1 {
                ConfigEntry::SigningKey(joined)
            } else if kind == 2 {
                ConfigEntry::UuidPath(joined)
            } else {
                ConfigEntry::OpteeClientExport(joined)
            };
            let ghost before = spec_entries(entries@);
            push_entry(entries, entry);
            assert(spec_entries(entries@) =~= before + seq![
                path_entry_view(kind, spec_join_path(project_path@, p@)),
            ]);
        },
        None => {
            assert(spec_entries(entries@) =~= spec_entries(old(entries)@) + Seq::<
                ConfigEntryView,
            >::empty());
        },
    }
}

/// The path entry of the given kind: TA dev kit directory, signing key, UUID
/// file, client export directory.
spec fn path_entry_view(kind: u8, path: Seq<char>) -> ConfigEntryView {
    if kind == 0 {
        ConfigEntryView::TaDevKitDir(path)
    } else if kind == 1 {
        ConfigEntryView::SigningKey(path)
    } else if kind == 2 {
        ConfigEntryView::UuidPath(path)
    } else {
        ConfigEntryView::OpteeClientExport(path)
    }
}

impl BuildConfig {
    fn ta_entries(&self, entries: &mut Vec<ConfigEntry>, project_path: &str)
        ensures
            spec_entries(final(entries)@) == spec_entries(old(entries)@) + spec_ta_entries(
                self@,
                project_path@,
            ),
    {
        let ghost e0 = spec_entries(entries@);
        push_entry(entries, ConfigEntry::Std(self.std));
        push_path_entry(entries, &self.ta_dev_kit_dir, project_path, 0);
        push_path_entry(entries, &self.signing_key, project_path, 1);
        push_path_entry(entries, &self.uuid_path, project_path, 2);
        assert(spec_entry_if(
            spec_opt_string(self.ta_dev_kit_dir),
            |p: Seq<char>| path_entry_view(0, spec_join_path(project_path@, p)),
        ) =~= spec_entry_if(
            spec_opt_string(self.ta_dev_kit_dir),
            |p: Seq<char>| ConfigEntryView::TaDevKitDir(spec_join_path(project_path@, p)),
        ));
        assert(spec_entry_if(
            spec_opt_string(self.signing_key),
            |p: Seq<char>| path_entry_view(1, spec_join_path(project_path@, p)),
        ) =~= spec_entry_if(
            spec_opt_string(self.signing_key),
            |p: Seq<char>| ConfigEntryView::SigningKey(spec_join_path(project_path@, p)),
        ));
        assert(spec_entry_if(
            spec_opt_string(self.uuid_path),
            |p: Seq<char>| path_entry_view(2, spec_join_path(project_path@, p)),
        ) =~= spec_entry_if(
            spec_opt_string(self.uuid_path),
            |p: Seq<char>| ConfigEntryView::UuidPath(spec_join_path(project_path@, p)),
        ));
        assert(spec_entries(entries@) =~= e0 + spec_ta_entries(self@, project_path@));
    }

    fn ca_entries(&self, entries: &mut Vec<ConfigEntry>, project_path: &str, plugin: bool)
        ensures
            spec_entries(final(entries)@) == spec_entries(old(entries)@) + spec_ca_entries(
                self@,
                project_path@,
                plugin,
            ),
    {
        let ghost e0 = spec_entries(entries@);
        push_path_entry(entries, &self.optee_client_export, project_path, 3);
        assert(spec_entry_if(
            spec_opt_string(self.optee_client_export),
            |p: Seq<char>| path_entry_view(3, spec_join_path(project_path@, p)),
        ) =~= spec_entry_if(
            spec_opt_string(self.optee_client_export),
            |p: Seq<char>| ConfigEntryView::OpteeClientExport(spec_join_path(project_path@, p)),
        ));
        let ghost e1 = spec_entries(entries@);
        if plugin {
            push_path_entry(entries, &self.uuid_path, project_path, 2);
            assert(spec_entry_if(
                spec_opt_string(self.uuid_path),
                |p: Seq<char>| path_entry_view(2, spec_join_path(project_path@, p)),
            ) =~= spec_entry_if(
                spec_opt_string(self.uuid_path),
                |p: Seq<char>| ConfigEntryView::UuidPath(spec_join_path(project_path@, p)),
            ));
        }
        assert(spec_entries(entries@) =~= e0 + spec_ca_entries(self@, project_path@, plugin));
    }

    /// The summary of the configuration a build of `component_type` uses,
    /// with paths taken from `project_path`.
    pub fn config_summary(&self, component_type: &str, project_path: &str) -> (entries: Vec<
        ConfigEntry,
    >)
        ensures
            spec_entries(entries@) == spec_config_summary(self@, component_type@, project_path@),
    {
        let mut entries: Vec<ConfigEntry> = Vec::new();
        push_entry(&mut entries, ConfigEntry::Arch(self.arch));
        push_entry(&mut entries, ConfigEntry::Debug(self.debug));
        let ghost e0 = spec_entries(entries@);
        assert(e0 =~= seq![ConfigEntryView::Arch(self.arch), ConfigEntryView::Debug(self.debug)]);
        if str_eq(component_type, "ta") {
            self.ta_entries(&mut entries, project_path);
        }
        let ghost e1 = spec_entries(entries@);
        assert(e1 =~= e0 + (if component_type@ == "ta"@ {
            spec_ta_entries(self@, project_path@)
        } else {
            Seq::empty()
        }));
        let is_plugin = str_eq(component_type, "plugin");
        if str_eq(component_type, "ca") || is_plugin {
            self.ca_entries(&mut entries, project_path, is_plugin);
        }
        let ghost e2 = spec_entries(entries@);
        assert(e2 =~= e1 + (if component_type@ == "ca"@ || component_type@ == "plugin"@ {
            spec_ca_entries(self@, project_path@, component_type@ == "plugin"@)
        } else {
            Seq::empty()
        }));
        if self.env.len() > 0 {
            push_entry(&mut entries, ConfigEntry::EnvCount(self.env.len()));
        }
        assert(spec_entries(entries@) =~= e2 + (if self@.env.len() > 0 {
            seq![ConfigEntryView::EnvCount(self@.env.len())]
        } else {
            Seq::empty()
        }));
        entries
    }
}

} // verus!
