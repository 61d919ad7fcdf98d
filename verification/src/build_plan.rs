//! The commands that building trusted applications (TA), client applications
//! (CA) and plugins runs, computed from their build configurations: the
//! program, its arguments and the environment it gets, and the paths of what
//! it produces. Running them is left to the caller.
use vstd::prelude::*;

use crate::build_config::{
    get_target_and_cross_compile, get_ta_target_and_cross_compile, spec_opt_string, spec_pairs,
    spec_ta_target_and_cross_compile, spec_target_and_cross_compile, BuildConfig, CaBuildConfig,
    TaBuildConfig,
};
use crate::json::{spec_as_str, spec_get, spec_get_in, JsonValue};
use crate::text::{
    join_path, spec_join_path, spec_split, spec_starts_with, spec_strings, spec_trim, spec_trim_by,
    split_on, starts_with, str_eq, trim, trim_by, TrimKind,
};

verus! {

/// A command to run: a program, its arguments, and the environment variables
/// to set on it, in the order they are set (a later one wins).
#[derive(Debug)]
pub struct CommandPlan {
    pub program: String,
    pub args: Vec<String>,
    pub envs: Vec<(String, String)>,
}

/// The contents of a command plan.
pub struct CommandPlanView {
    pub program: Seq<char>,
    pub args: Seq<Seq<char>>,
    pub envs: Seq<(Seq<char>, Seq<char>)>,
}

impl View for CommandPlan {
    type V = CommandPlanView;

    open spec fn view(&self) -> CommandPlanView {
        CommandPlanView {
            program: self.program@,
            args: spec_strings(self.args@),
            envs: spec_pairs(self.envs@),
        }
    }
}

/// The characters of an optional string slice.
pub open spec fn spec_opt_str(o: Option<&str>) -> Option<Seq<char>> {
    match o {
        Some(s) => Some(s@),
        None => None,
    }
}

/// `items` with `sep` between each two of them.
pub open spec fn spec_join(items: Seq<Seq<char>>, sep: Seq<char>) -> Seq<char>
    decreases items.len(),
{
    if items.len() == 0 {
        Seq::empty()
    } else if items.len() == 1 {
        items[0]
    } else {
        spec_join(items.drop_last(), sep) + sep + items.last()
    }
}

/// The strings of `items` with `sep` between each two of them.
pub fn join(items: &Vec<String>, sep: &str) -> (joined: String)
    ensures
        joined@ == spec_join(spec_strings(items@), sep@),
{
    let n = items.len();
    if n == 0 {
        return String::new();
    }
    let mut joined = items[0].clone();
    let mut i: usize = 1;
    assert(spec_strings(items@).take(1) =~= seq![items@[0]@]);
    while i < n
        invariant
            n == items@.len(),
            1 <= i <= n,
            joined@ == spec_join(spec_strings(items@).take(i as int), sep@),
        decreases n - i,
    {
        assert(spec_strings(items@).take(i + 1).drop_last() =~= spec_strings(items@).take(
            i as int,
        ));
        joined.append(sep);
        joined.append(items[i].as_str());
        i = i + 1;
    }
    assert(spec_strings(items@).take(n as int) =~= spec_strings(items@));
    joined
}

/// A feature named in a comma-separated list: the field trimmed, if anything
/// is left of it.
pub open spec fn spec_feature_field(field: Seq<char>) -> Option<Seq<char>> {
    if spec_trim(field).len() > 0 {
        Some(spec_trim(field))
    } else {
        None
    }
}

/// The features a comma-separated list names, in order.
pub open spec fn spec_feature_names(list: Seq<char>) -> Seq<Seq<char>> {
    spec_split(list, ',').filter_map(|field: Seq<char>| spec_feature_field(field))
}

/// The features a trusted application is built with: `std` for a std build,
/// then those the comma-separated list `features` names.
pub open spec fn spec_ta_features(std: bool, features: Option<Seq<char>>) -> Seq<Seq<char>> {
    (if std {
        seq!["std"@]
    } else {
        Seq::empty()
    }) + match features {
        Some(list) => spec_feature_names(list),
        None => Seq::empty(),
    }
}

/// The features a comma-separated list names, trimmed, empty ones left out.
pub fn feature_names(list: &str) -> (names: Vec<String>)
    ensures
        spec_strings(names@) == spec_feature_names(list@),
{
    let fields = split_on(list, ',');
    let ghost f = |field: Seq<char>| spec_feature_field(field);
    let mut names: Vec<String> = Vec::new();
    let mut i: usize = 0;
    assert(spec_strings(fields@).take(0) =~= Seq::<Seq<char>>::empty());
    while i < fields.len()
        invariant
            i <= fields@.len(),
            spec_strings(fields@) == spec_split(list@, ','),
            f == (|field: Seq<char>| spec_feature_field(field)),
            spec_strings(names@) == spec_strings(fields@).take(i as int).filter_map(f),
        decreases fields@.len() - i,
    {
        let ghost prefix = spec_strings(fields@).take(i + 1);
        assert(prefix.drop_last() =~= spec_strings(fields@).take(i as int));
        assert(prefix.last() == fields@[i as int]@);
        let t = trim(fields[i].as_str());
        if t.unicode_len() > 0 {
            let ghost before = names@;
            names.push(String::from_str(t));
            assert(spec_strings(names@) =~= spec_strings(before) + seq![t@]);
        }
        i = i + 1;
    }
    assert(spec_strings(fields@).take(fields@.len() as int) =~= spec_strings(fields@));
    names
}

/// The features a trusted application is built with.
pub fn ta_features(std: bool, features: Option<&str>) -> (names: Vec<String>)
    ensures
        spec_strings(names@) == spec_ta_features(std, spec_opt_str(features)),
{
    let mut names: Vec<String> = Vec::new();
    if std {
        names.push(String::from_str("std"));
    }
    let ghost first = names@;
    assert(spec_strings(first) =~= (if std {
        seq!["std"@]
    } else {
        Seq::empty()
    }));
    match features {
        Some(list) => {
            let mut custom = feature_names(list);
            names.append(&mut custom);
            assert(spec_strings(names@) =~= spec_strings(first) + spec_feature_names(list@));
        },
        None => {
            assert(spec_strings(names@) =~= spec_strings(first) + Seq::<Seq<char>>::empty());
        },
    }
    names
}

/// The `RUSTFLAGS` of a trusted-application build: the flags already set,
/// then `-C panic=abort`.
pub open spec fn spec_rustflags(existing: Seq<char>) -> Seq<char> {
    if existing.len() == 0 {
        "-C panic=abort"@
    } else {
        existing + " "@ + "-C panic=abort"@
    }
}

/// The `RUSTFLAGS` of a trusted-application build.
pub fn rustflags_with_panic_abort(existing: &str) -> (flags: String)
    ensures
        flags@ == spec_rustflags(existing@),
{
    let mut flags = String::from_str(existing);
    if existing.unicode_len() > 0 {
        flags.append(" ");
    }
    flags.append("-C panic=abort");
    flags
}

/// The cargo `--config` value that sets the linker of `target` to the GCC of
/// the cross-compile prefix.
pub open spec fn spec_linker_config(target: Seq<char>, cross_compile: Seq<char>) -> Seq<char> {
    "target."@ + target + ".linker=\""@ + cross_compile + "gcc\""@
}

/// The cargo `--config` value that sets the linker.
pub fn linker_config(target: &str, cross_compile: &str) -> (config: String)
    ensures
        config@ == spec_linker_config(target@, cross_compile@),
{
    String::from_str("target.").concat(target).concat(".linker=\"").concat(cross_compile).concat(
        "gcc\"",
    )
}

/// The name of the build profile.
pub open spec fn spec_profile(debug: bool) -> Seq<char> {
    if debug {
        "debug"@
    } else {
        "release"@
    }
}

/// The name of the build profile: `debug` or `release`.
pub fn profile_name(debug: bool) -> (profile: String)
    ensures
        profile@ == spec_profile(debug),
{
    if debug {
        String::from_str("debug")
    } else {
        String::from_str("release")
    }
}

/// The program a trusted application is built with: `xargo` for std builds,
/// else `cargo`.
pub open spec fn spec_ta_builder(std: bool) -> Seq<char> {
    if std {
        "xargo"@
    } else {
        "cargo"@
    }
}

/// The arguments every cargo command of a trusted-application build starts
/// with.
pub open spec fn spec_ta_base_args(config: TaBuildConfig, command: Seq<char>) -> Seq<Seq<char>> {
    let target = spec_ta_target_and_cross_compile(config.arch, config.std).0;
    let features = spec_ta_features(config.std, spec_opt_string(config.features));
    seq![command, "--target"@, target] + (if config.no_default_features {
        seq!["--no-default-features"@]
    } else {
        Seq::empty()
    }) + (if features.len() > 0 {
        seq!["--features"@, spec_join(features, ","@)]
    } else {
        Seq::empty()
    })
}

/// The environment of every cargo command of a trusted-application build:
/// `RUSTFLAGS`, the configured variables, `TA_DEV_KIT_DIR`, and for std builds
/// `RUST_TARGET_PATH`.
pub open spec fn spec_ta_base_envs(
    config: TaBuildConfig,
    existing_rustflags: Seq<char>,
    ta_dev_kit_dir: Seq<char>,
    custom_target_dir: Option<Seq<char>>,
) -> Seq<(Seq<char>, Seq<char>)> {
    seq![("RUSTFLAGS"@, spec_rustflags(existing_rustflags))] + spec_pairs(config.env@) + seq![
        ("TA_DEV_KIT_DIR"@, ta_dev_kit_dir),
    ] + match custom_target_dir {
        Some(dir) => seq![("RUST_TARGET_PATH"@, dir)],
        None => Seq::empty(),
    }
}

/// The cargo command `command` of a trusted-application build.
pub open spec fn spec_ta_base_command(
    config: TaBuildConfig,
    command: Seq<char>,
    existing_rustflags: Seq<char>,
    ta_dev_kit_dir: Seq<char>,
    custom_target_dir: Option<Seq<char>>,
) -> CommandPlanView {
    CommandPlanView {
        program: spec_ta_builder(config.std),
        args: spec_ta_base_args(config, command),
        envs: spec_ta_base_envs(config, existing_rustflags, ta_dev_kit_dir, custom_target_dir),
    }
}

fn push_arg(args: &mut Vec<String>, arg: &str)
    ensures
        spec_strings(final(args)@) == spec_strings(old(args)@).push(arg@),
{
    let ghost before = args@;
    args.push(String::from_str(arg));
    assert(spec_strings(args@) =~= spec_strings(before).push(arg@));
}

fn push_env(envs: &mut Vec<(String, String)>, key: &str, value: &str)
    ensures
        spec_pairs(final(envs)@) == spec_pairs(old(envs)@).push((key@, value@)),
{
    let ghost before = envs@;
    envs.push((String::from_str(key), String::from_str(value)));
    assert(spec_pairs(envs@) =~= spec_pairs(before).push((key@, value@)));
}

fn clone_pairs(pairs: &Vec<(String, String)>) -> (copy: Vec<(String, String)>)
    ensures
        spec_pairs(copy@) == spec_pairs(pairs@),
{
    let mut copy: Vec<(String, String)> = Vec::new();
    let mut i: usize = 0;
    while i < pairs.len()
        invariant
            i <= pairs@.len(),
            spec_pairs(copy@) == spec_pairs(pairs@).take(i as int),
        decreases pairs@.len() - i,
    {
        push_env(&mut copy, pairs[i].0.as_str(), pairs[i].1.as_str());
        assert(spec_pairs(pairs@).take(i + 1) =~= spec_pairs(pairs@).take(i as int).push(
            (pairs@[i as int].0@, pairs@[i as int].1@),
        ));
        i = i + 1;
    }
    assert(spec_pairs(pairs@).take(pairs@.len() as int) =~= spec_pairs(pairs@));
    copy
}

/// The cargo command `command` (`clippy`, `build`) of a trusted-application
/// build, before the arguments of that command. `existing_rustflags` is the
/// `RUSTFLAGS` already set (empty when none is), `ta_dev_kit_dir` the TA dev
/// kit directory as it is handed on, and `custom_target_dir` the directory
/// holding the custom target descriptions, which std builds have.
pub fn setup_build_command(
    config: &TaBuildConfig,
    command: &str,
    existing_rustflags: &str,
    ta_dev_kit_dir: &str,
    custom_target_dir: Option<&str>,
) -> (plan: CommandPlan)
    ensures
        plan@ == spec_ta_base_command(
            *config,
            command@,
            existing_rustflags@,
            ta_dev_kit_dir@,
            spec_opt_str(custom_target_dir),
        ),
{
    let (target, _cross_compile) = match get_ta_target_and_cross_compile(config.arch, config.std) {
        Ok(pair) => pair,
        Err(_) => (String::new(), String::new()),
    };
    let program = if config.std {
        String::from_str("xargo")
    } else {
        String::from_str("cargo")
    };
    let mut args: Vec<String> = Vec::new();
    push_arg(&mut args, command);
    push_arg(&mut args, "--target");
    push_arg(&mut args, target.as_str());
    let ghost head = spec_strings(args@);
    assert(head =~= seq![command@, "--target"@, target@]);
    if config.no_default_features {
        push_arg(&mut args, "--no-default-features");
    }
    let ghost with_flags = spec_strings(args@);
    assert(with_flags =~= head + (if config.no_default_features {
        seq!["--no-default-features"@]
    } else {
        Seq::empty()
    }));
    let features = match &config.features {
        Some(f) => ta_features(config.std, Some(f.as_str())),
        None => ta_features(config.std, None),
    };
    assert(spec_strings(features@) == spec_ta_features(
        config.std,
        spec_opt_string(config.features),
    ));
    if features.len() > 0 {
        let list = join(&features, ",");
        push_arg(&mut args, "--features");
        push_arg(&mut args, list.as_str());
        assert(spec_strings(args@) =~= with_flags + seq![
            "--features"@,
            spec_join(spec_strings(features@), ","@),
        ]);
    } else {
        assert(spec_strings(args@) =~= with_flags + Seq::<Seq<char>>::empty());
    }
    let rustflags = rustflags_with_panic_abort(existing_rustflags);
    let mut envs: Vec<(String, String)> = Vec::new();
    push_env(&mut envs, "RUSTFLAGS", rustflags.as_str());
    let mut custom = clone_pairs(&config.env);
    let ghost first = envs@;
    envs.append(&mut custom);
    assert(spec_pairs(envs@) =~= spec_pairs(first) + spec_pairs(config.env@));
    push_env(&mut envs, "TA_DEV_KIT_DIR", ta_dev_kit_dir);
    let ghost with_kit = spec_pairs(envs@);
    match custom_target_dir {
        Some(dir) => {
            push_env(&mut envs, "RUST_TARGET_PATH", dir);
            assert(spec_pairs(envs@) =~= with_kit + seq![("RUST_TARGET_PATH"@, dir@)]);
        },
        None => {
            assert(spec_pairs(envs@) =~= with_kit + Seq::<(Seq<char>, Seq<char>)>::empty());
        },
    }
    assert(program@ == spec_ta_builder(config.std));
    assert(target@ == spec_ta_target_and_cross_compile(config.arch, config.std).0);
    assert(spec_strings(args@) == spec_ta_base_args(*config, command@));
    assert(spec_pairs(envs@) == spec_ta_base_envs(
        *config,
        existing_rustflags@,
        ta_dev_kit_dir@,
        spec_opt_str(custom_target_dir),
    ));
    CommandPlan { program, args, envs }
}

/// The arguments that make clippy fail on warnings and on `unwrap`, `expect`
/// and `panic`.
pub open spec fn spec_clippy_lints() -> Seq<Seq<char>> {
    seq![
        "--"@,
        "-D"@,
        "warnings"@,
        "-D"@,
        "clippy::unwrap_used"@,
        "-D"@,
        "clippy::expect_used"@,
        "-D"@,
        "clippy::panic"@,
    ]
}

fn push_clippy_lints(args: &mut Vec<String>)
    ensures
        spec_strings(final(args)@) == spec_strings(old(args)@) + spec_clippy_lints(),
{
    let ghost before = spec_strings(args@);
    push_arg(args, "--");
    push_arg(args, "-D");
    push_arg(args, "warnings");
    push_arg(args, "-D");
    push_arg(args, "clippy::unwrap_used");
    push_arg(args, "-D");
    push_arg(args, "clippy::expect_used");
    push_arg(args, "-D");
    push_arg(args, "clippy::panic");
    assert(spec_strings(args@) =~= before + spec_clippy_lints());
}

/// The clippy command of a trusted-application build.
pub open spec fn spec_ta_clippy_command(
    config: TaBuildConfig,
    existing_rustflags: Seq<char>,
    ta_dev_kit_dir: Seq<char>,
    custom_target_dir: Option<Seq<char>>,
) -> CommandPlanView {
    let base = spec_ta_base_command(
        config,
        "clippy"@,
        existing_rustflags,
        ta_dev_kit_dir,
        custom_target_dir,
    );
    CommandPlanView { args: base.args + spec_clippy_lints(), ..base }
}

/// The clippy command of a trusted-application build.
pub fn ta_clippy_command(
    config: &TaBuildConfig,
    existing_rustflags: &str,
    ta_dev_kit_dir: &str,
    custom_target_dir: Option<&str>,
) -> (plan: CommandPlan)
    ensures
        plan@ == spec_ta_clippy_command(
            *config,
            existing_rustflags@,
            ta_dev_kit_dir@,
            spec_opt_str(custom_target_dir),
        ),
{
    let mut plan = setup_build_command(
        config,
        "clippy",
        existing_rustflags,
        ta_dev_kit_dir,
        custom_target_dir,
    );
    push_clippy_lints(&mut plan.args);
    plan
}

/// The build command of a trusted application: the base command, `--release`
/// unless it is a debug build, and the linker configuration.
pub open spec fn spec_ta_build_command(
    config: TaBuildConfig,
    existing_rustflags: Seq<char>,
    ta_dev_kit_dir: Seq<char>,
    custom_target_dir: Option<Seq<char>>,
) -> CommandPlanView {
    let base = spec_ta_base_command(
        config,
        "build"@,
        existing_rustflags,
        ta_dev_kit_dir,
        custom_target_dir,
    );
    let (target, cross_compile) = spec_ta_target_and_cross_compile(config.arch, config.std);
    CommandPlanView {
        args: base.args + (if config.debug {
            Seq::empty()
        } else {
            seq!["--release"@]
        }) + seq!["--config"@, spec_linker_config(target, cross_compile)],
        ..base
    }
}

/// The build command of a trusted application runs xargo for a std build and
/// cargo otherwise, as `build --target <target of its architecture and std
/// mode>`, and its next argument is `--no-default-features` exactly when the
/// configuration turns the default features off.
pub proof fn lemma_ta_build_command_head(
    config: TaBuildConfig,
    existing_rustflags: Seq<char>,
    ta_dev_kit_dir: Seq<char>,
    custom_target_dir: Option<Seq<char>>,
)
    ensures
        spec_ta_build_command(
            config,
            existing_rustflags,
            ta_dev_kit_dir,
            custom_target_dir,
        ).program == if config.std {
            "xargo"@
        } else {
            "cargo"@
        },
        spec_ta_build_command(config, existing_rustflags, ta_dev_kit_dir, custom_target_dir).args.len()
            >= 5,
        spec_ta_build_command(config, existing_rustflags, ta_dev_kit_dir, custom_target_dir).args[0]
            == "build"@,
        spec_ta_build_command(config, existing_rustflags, ta_dev_kit_dir, custom_target_dir).args[1]
            == "--target"@,
        spec_ta_build_command(config, existing_rustflags, ta_dev_kit_dir, custom_target_dir).args[2]
            == spec_ta_target_and_cross_compile(config.arch, config.std).0,
        (spec_ta_build_command(config, existing_rustflags, ta_dev_kit_dir, custom_target_dir).args[3]
            == "--no-default-features"@) <==> config.no_default_features,
{
    reveal_strlit("--no-default-features");
    reveal_strlit("--features");
    reveal_strlit("--release");
    reveal_strlit("--config");
    let args = spec_ta_build_command(config, existing_rustflags, ta_dev_kit_dir, custom_target_dir).args;
    let (target, cross_compile) = spec_ta_target_and_cross_compile(config.arch, config.std);
    let features = spec_ta_features(config.std, spec_opt_string(config.features));
    let head = seq!["build"@, "--target"@, target];
    let flag: Seq<Seq<char>> = if config.no_default_features {
        seq!["--no-default-features"@]
    } else {
        Seq::empty()
    };
    let feature_args: Seq<Seq<char>> = if features.len() > 0 {
        seq!["--features"@, spec_join(features, ","@)]
    } else {
        Seq::empty()
    };
    let release: Seq<Seq<char>> = if config.debug {
        Seq::empty()
    } else {
        seq!["--release"@]
    };
    let tail = seq!["--config"@, spec_linker_config(target, cross_compile)];
    assert(args == head + flag + feature_args + release + tail);
    assert(args[0] == head[0] && args[1] == head[1] && args[2] == head[2]);
    if config.no_default_features {
        assert(args[3] == flag[0]);
    } else {
        let after = feature_args + release + tail;
        assert(args[3] == after[0]);
        assert(after[0] == "--features"@ || after[0] == "--release"@ || after[0] == "--config"@);
        assert("--no-default-features"@.len() == 21);
        assert(after[0] != "--no-default-features"@);
    }
}

/// The build command of a trusted application.
pub fn ta_build_command(
    config: &TaBuildConfig,
    existing_rustflags: &str,
    ta_dev_kit_dir: &str,
    custom_target_dir: Option<&str>,
) -> (plan: CommandPlan)
    ensures
        plan@ == spec_ta_build_command(
            *config,
            existing_rustflags@,
            ta_dev_kit_dir@,
            spec_opt_str(custom_target_dir),
        ),
{
    let (target, cross_compile) = match get_ta_target_and_cross_compile(config.arch, config.std) {
        Ok(pair) => pair,
        Err(_) => (String::new(), String::new()),
    };
    let mut plan = setup_build_command(
        config,
        "build",
        existing_rustflags,
        ta_dev_kit_dir,
        custom_target_dir,
    );
    let ghost base = spec_strings(plan.args@);
    if !config.debug {
        push_arg(&mut plan.args, "--release");
    }
    let ghost released = spec_strings(plan.args@);
    assert(released =~= base + (if config.debug {
        Seq::empty()
    } else {
        seq!["--release"@]
    }));
    let linker = linker_config(target.as_str(), cross_compile.as_str());
    push_arg(&mut plan.args, "--config");
    push_arg(&mut plan.args, linker.as_str());
    assert(spec_strings(plan.args@) =~= released + seq!["--config"@, linker@]);
    plan
}

/// The directory a profile's outputs for a target go to.
pub open spec fn spec_profile_dir(
    target_directory: Seq<char>,
    target: Seq<char>,
    debug: bool,
) -> Seq<char> {
    spec_join_path(spec_join_path(target_directory, target), spec_profile(debug))
}

fn profile_dir(target_directory: &str, target: &str, debug: bool) -> (dir: String)
    ensures
        dir@ == spec_profile_dir(target_directory@, target@, debug),
{
    let with_target = join_path(target_directory, target);
    let profile = profile_name(debug);
    join_path(with_target.as_str(), profile.as_str())
}

/// Where the build of a trusted application puts its files, given cargo's
/// target directory and the package name: the profile directory, the binary,
/// and the stripped binary `stripped_<package>` beside it.
pub open spec fn spec_ta_binary_paths(
    config: TaBuildConfig,
    target_directory: Seq<char>,
    package_name: Seq<char>,
) -> (Seq<char>, Seq<char>, Seq<char>) {
    let dir = spec_profile_dir(
        target_directory,
        spec_ta_target_and_cross_compile(config.arch, config.std).0,
        config.debug,
    );
    (
        dir,
        spec_join_path(dir, package_name),
        spec_join_path(dir, "stripped_"@ + package_name),
    )
}

/// The profile directory, binary and stripped binary of a trusted
/// application.
pub fn ta_binary_paths(config: &TaBuildConfig, target_directory: &str, package_name: &str) -> (paths:
    (String, String, String))
    ensures
        (paths.0@, paths.1@, paths.2@) == spec_ta_binary_paths(
            *config,
            target_directory@,
            package_name@,
        ),
{
    let (target, _cross_compile) = match get_ta_target_and_cross_compile(config.arch, config.std) {
        Ok(pair) => pair,
        Err(_) => (String::new(), String::new()),
    };
    let dir = profile_dir(target_directory, target.as_str(), config.debug);
    let binary = join_path(dir.as_str(), package_name);
    let stripped_name = String::from_str("stripped_").concat(package_name);
    let stripped = join_path(dir.as_str(), stripped_name.as_str());
    (dir, binary, stripped)
}

/// The command that strips `input` into `output` with the objcopy of the
/// cross-compile prefix.
pub open spec fn spec_strip_command(
    cross_compile: Seq<char>,
    input: Seq<char>,
    output: Seq<char>,
) -> CommandPlanView {
    CommandPlanView {
        program: cross_compile + "objcopy"@,
        args: seq!["--strip-unneeded"@, input, output],
        envs: Seq::empty(),
    }
}

fn strip_command(cross_compile: &str, input: &str, output: &str) -> (plan: CommandPlan)
    ensures
        plan@ == spec_strip_command(cross_compile@, input@, output@),
{
    let program = objcopy_command(cross_compile);
    let mut args: Vec<String> = Vec::new();
    push_arg(&mut args, "--strip-unneeded");
    push_arg(&mut args, input);
    push_arg(&mut args, output);
    assert(spec_strings(args@) =~= seq!["--strip-unneeded"@, input@, output@]);
    let envs: Vec<(String, String)> = Vec::new();
    assert(spec_pairs(envs@) =~= Seq::<(Seq<char>, Seq<char>)>::empty());
    CommandPlan { program, args, envs }
}

/// The command that strips the binary of a trusted application into the
/// stripped binary.
pub fn ta_strip_command(config: &TaBuildConfig, binary: &str, stripped: &str) -> (plan:
    CommandPlan)
    ensures
        plan@ == spec_strip_command(
            spec_ta_target_and_cross_compile(config.arch, config.std).1,
            binary@,
            stripped@,
        ),
{
    let (_target, cross_compile) = match get_ta_target_and_cross_compile(config.arch, config.std) {
        Ok(pair) => pair,
        Err(_) => (String::new(), String::new()),
    };
    strip_command(cross_compile.as_str(), binary, stripped)
}

/// The signing script of the TA dev kit.
pub open spec fn spec_sign_script_path(ta_dev_kit_dir: Seq<char>) -> Seq<char> {
    spec_join_path(spec_join_path(ta_dev_kit_dir, "scripts"@), "sign_encrypt.py"@)
}

/// The signing script of the TA dev kit: `scripts/sign_encrypt.py` in it.
pub fn sign_script_path(ta_dev_kit_dir: &str) -> (path: String)
    ensures
        path@ == spec_sign_script_path(ta_dev_kit_dir@),
{
    let scripts = join_path(ta_dev_kit_dir, "scripts");
    join_path(scripts.as_str(), "sign_encrypt.py")
}

/// The signed trusted application: `<uuid>.ta` in the profile directory.
pub open spec fn spec_signed_ta_path(target_dir: Seq<char>, uuid: Seq<char>) -> Seq<char> {
    spec_join_path(target_dir, uuid + ".ta"@)
}

/// The signed trusted application.
pub fn signed_ta_path(target_dir: &str, uuid: &str) -> (path: String)
    ensures
        path@ == spec_signed_ta_path(target_dir@, uuid@),
{
    let name = String::from_str(uuid).concat(".ta");
    join_path(target_dir, name.as_str())
}

/// The command that signs the stripped trusted application with the TA dev
/// kit's script, under its UUID, into `<uuid>.ta` in the profile directory.
pub open spec fn spec_ta_sign_command(
    config: TaBuildConfig,
    uuid: Seq<char>,
    stripped_path: Seq<char>,
    target_dir: Seq<char>,
) -> CommandPlanView {
    CommandPlanView {
        program: "python3"@,
        args: seq![
            spec_sign_script_path(config.ta_dev_kit_dir@),
            "--uuid"@,
            uuid,
            "--key"@,
            config.signing_key@,
            "--in"@,
            stripped_path,
            "--out"@,
            spec_signed_ta_path(target_dir, uuid),
        ],
        envs: Seq::empty(),
    }
}

/// The command that signs a trusted application.
pub fn ta_sign_command(
    config: &TaBuildConfig,
    uuid: &str,
    stripped_path: &str,
    target_dir: &str,
) -> (plan: CommandPlan)
    ensures
        plan@ == spec_ta_sign_command(*config, uuid@, stripped_path@, target_dir@),
{
    let script = sign_script_path(config.ta_dev_kit_dir.as_str());
    let output = signed_ta_path(target_dir, uuid);
    let mut args: Vec<String> = Vec::new();
    push_arg(&mut args, script.as_str());
    push_arg(&mut args, "--uuid");
    push_arg(&mut args, uuid);
    push_arg(&mut args, "--key");
    push_arg(&mut args, config.signing_key.as_str());
    push_arg(&mut args, "--in");
    push_arg(&mut args, stripped_path);
    push_arg(&mut args, "--out");
    push_arg(&mut args, output.as_str());
    assert(spec_strings(args@) =~= spec_ta_sign_command(
        *config,
        uuid@,
        stripped_path@,
        target_dir@,
    ).args);
    let envs: Vec<(String, String)> = Vec::new();
    assert(spec_pairs(envs@) =~= Seq::<(Seq<char>, Seq<char>)>::empty());
    CommandPlan { program: String::from_str("python3"), args, envs }
}

/// The GCC of a cross-compile prefix.
pub fn gcc_command(cross_compile: &str) -> (command: String)
    ensures
        command@ == cross_compile@ + "gcc"@,
{
    String::from_str(cross_compile).concat("gcc")
}

/// The objcopy of a cross-compile prefix.
pub fn objcopy_command(cross_compile: &str) -> (command: String)
    ensures
        command@ == cross_compile@ + "objcopy"@,
{
    String::from_str(cross_compile).concat("objcopy")
}

/// The tools of a cross-compile toolchain that are missing, GCC first.
pub open spec fn spec_missing_tools(
    cross_compile: Seq<char>,
    gcc_exists: bool,
    objcopy_exists: bool,
) -> Seq<Seq<char>> {
    (if gcc_exists {
        Seq::empty()
    } else {
        seq![cross_compile + "gcc"@]
    }) + (if objcopy_exists {
        Seq::empty()
    } else {
        seq![cross_compile + "objcopy"@]
    })
}

/// The tools of a cross-compile toolchain that are missing, given which of
/// its GCC and objcopy were found.
pub fn missing_tools(cross_compile: &str, gcc_exists: bool, objcopy_exists: bool) -> (missing:
    Vec<String>)
    ensures
        spec_strings(missing@) == spec_missing_tools(cross_compile@, gcc_exists, objcopy_exists),
{
    let mut missing: Vec<String> = Vec::new();
    if !gcc_exists {
        missing.push(gcc_command(cross_compile));
    }
    let ghost first = spec_strings(missing@);
    assert(first =~= (if gcc_exists {
        Seq::empty()
    } else {
        seq![cross_compile@ + "gcc"@]
    }));
    if !objcopy_exists {
        let tool = objcopy_command(cross_compile);
        push_arg(&mut missing, tool.as_str());
    }
    assert(spec_strings(missing@) =~= spec_missing_tools(
        cross_compile@,
        gcc_exists,
        objcopy_exists,
    ));
    missing
}

/// The clippy command of a client application or plugin.
pub open spec fn spec_ca_clippy_command(config: CaBuildConfig) -> CommandPlanView {
    CommandPlanView {
        program: "cargo"@,
        args: seq!["clippy"@, "--target"@, spec_target_and_cross_compile(config.arch).0]
            + spec_clippy_lints(),
        envs: seq![("OPTEE_CLIENT_EXPORT"@, config.optee_client_export@)],
    }
}

/// The clippy command of a client application or plugin.
pub fn ca_clippy_command(config: &CaBuildConfig) -> (plan: CommandPlan)
    ensures
        plan@ == spec_ca_clippy_command(*config),
{
    let (target, _cross_compile) = get_target_and_cross_compile(config.arch);
    let mut args: Vec<String> = Vec::new();
    push_arg(&mut args, "clippy");
    push_arg(&mut args, "--target");
    push_arg(&mut args, target.as_str());
    let ghost head = spec_strings(args@);
    assert(head =~= seq!["clippy"@, "--target"@, target@]);
    push_clippy_lints(&mut args);
    let mut envs: Vec<(String, String)> = Vec::new();
    push_env(&mut envs, "OPTEE_CLIENT_EXPORT", config.optee_client_export.as_str());
    assert(spec_pairs(envs@) =~= seq![("OPTEE_CLIENT_EXPORT"@, config.optee_client_export@)]);
    CommandPlan { program: String::from_str("cargo"), args, envs }
}

/// The build command of a client application or plugin: its target, the
/// feature selection, `--release` unless it is a debug build, the linker
/// configuration; `OPTEE_CLIENT_EXPORT`, then the configured variables.
pub open spec fn spec_ca_build_command(config: CaBuildConfig) -> CommandPlanView {
    let (target, cross_compile) = spec_target_and_cross_compile(config.arch);
    CommandPlanView {
        program: "cargo"@,
        args: seq!["build"@, "--target"@, target] + (if config.no_default_features {
            seq!["--no-default-features"@]
        } else {
            Seq::empty()
        }) + match spec_opt_string(config.features) {
            Some(f) => seq!["--features"@, f],
            None => Seq::empty(),
        } + (if config.debug {
            Seq::empty()
        } else {
            seq!["--release"@]
        }) + seq!["--config"@, spec_linker_config(target, cross_compile)],
        envs: seq![("OPTEE_CLIENT_EXPORT"@, config.optee_client_export@)] + spec_pairs(
            config.env@,
        ),
    }
}

/// The build command of a client application or plugin is `cargo build
/// --target <target of its architecture>`, and its next argument is
/// `--no-default-features` exactly when the configuration turns the default
/// features off.
pub proof fn lemma_ca_build_no_default_features(config: CaBuildConfig)
    ensures
        spec_ca_build_command(config).program == "cargo"@,
        spec_ca_build_command(config).args.len() >= 5,
        spec_ca_build_command(config).args[0] == "build"@,
        spec_ca_build_command(config).args[1] == "--target"@,
        spec_ca_build_command(config).args[2] == spec_target_and_cross_compile(config.arch).0,
        (spec_ca_build_command(config).args[3] == "--no-default-features"@)
            <==> config.no_default_features,
{
    reveal_strlit("--no-default-features");
    reveal_strlit("--features");
    reveal_strlit("--release");
    reveal_strlit("--config");
    let args = spec_ca_build_command(config).args;
    let (target, cross_compile) = spec_target_and_cross_compile(config.arch);
    let head = seq!["build"@, "--target"@, target];
    let flag: Seq<Seq<char>> = if config.no_default_features {
        seq!["--no-default-features"@]
    } else {
        Seq::empty()
    };
    let features: Seq<Seq<char>> = match spec_opt_string(config.features) {
        Some(f) => seq!["--features"@, f],
        None => Seq::empty(),
    };
    let release: Seq<Seq<char>> = if config.debug {
        Seq::empty()
    } else {
        seq!["--release"@]
    };
    let tail = seq!["--config"@, spec_linker_config(target, cross_compile)];
    assert(args == head + flag + features + release + tail);
    assert(args[0] == head[0] && args[1] == head[1] && args[2] == head[2]);
    if config.no_default_features {
        assert(args[3] == flag[0]);
    } else {
        let after = features + release + tail;
        assert(args[3] == after[0]);
        assert(after[0] == "--features"@ || after[0] == "--release"@ || after[0] == "--config"@);
        assert("--no-default-features"@.len() == 21);
        assert(after[0] != "--no-default-features"@);
    }
}

/// The build command of a client application or plugin.
pub fn ca_build_command(config: &CaBuildConfig) -> (plan: CommandPlan)
    ensures
        plan@ == spec_ca_build_command(*config),
{
    let (target, cross_compile) = get_target_and_cross_compile(config.arch);
    let mut args: Vec<String> = Vec::new();
    push_arg(&mut args, "build");
    push_arg(&mut args, "--target");
    push_arg(&mut args, target.as_str());
    let ghost a0 = spec_strings(args@);
    if config.no_default_features {
        push_arg(&mut args, "--no-default-features");
    }
    let ghost a1 = spec_strings(args@);
    assert(a1 =~= a0 + (if config.no_default_features {
        seq!["--no-default-features"@]
    } else {
        Seq::empty()
    }));
    match &config.features {
        Some(f) => {
            push_arg(&mut args, "--features");
            push_arg(&mut args, f.as_str());
        },
        None => {},
    }
    let ghost a2 = spec_strings(args@);
    assert(a2 =~= a1 + match spec_opt_string(config.features) {
        Some(f) => seq!["--features"@, f],
        None => Seq::empty(),
    });
    if !config.debug {
        push_arg(&mut args, "--release");
    }
    let ghost a3 = spec_strings(args@);
    assert(a3 =~= a2 + (if config.debug {
        Seq::empty()
    } else {
        seq!["--release"@]
    }));
    let linker = linker_config(target.as_str(), cross_compile.as_str());
    push_arg(&mut args, "--config");
    push_arg(&mut args, linker.as_str());
    assert(spec_strings(args@) =~= a3 + seq!["--config"@, linker@]);
    let mut envs: Vec<(String, String)> = Vec::new();
    push_env(&mut envs, "OPTEE_CLIENT_EXPORT", config.optee_client_export.as_str());
    let ghost first = envs@;
    let mut custom = clone_pairs(&config.env);
    envs.append(&mut custom);
    assert(spec_pairs(envs@) =~= spec_pairs(first) + spec_pairs(config.env@));
    assert(target@ == spec_target_and_cross_compile(config.arch).0);
    assert(cross_compile@ == spec_target_and_cross_compile(config.arch).1);
    assert(spec_strings(args@) =~= spec_ca_build_command(*config).args);
    assert(spec_pairs(envs@) =~= spec_ca_build_command(*config).envs);
    CommandPlan { program: String::from_str("cargo"), args, envs }
}

/// The binary of a client application, under `target` in its directory.
pub open spec fn spec_ca_binary_path(config: CaBuildConfig, binary_name: Seq<char>) -> Seq<char> {
    spec_join_path(
        spec_profile_dir("target"@, spec_target_and_cross_compile(config.arch).0, config.debug),
        binary_name,
    )
}

/// The binary of a client application.
pub fn ca_binary_path(config: &CaBuildConfig, binary_name: &str) -> (path: String)
    ensures
        path@ == spec_ca_binary_path(*config, binary_name@),
{
    let (target, _cross_compile) = get_target_and_cross_compile(config.arch);
    let dir = profile_dir("target", target.as_str(), config.debug);
    join_path(dir.as_str(), binary_name)
}

/// The command that strips the binary of a client application in place.
pub fn ca_strip_command(config: &CaBuildConfig, binary: &str) -> (plan: CommandPlan)
    ensures
        plan@ == spec_strip_command(spec_target_and_cross_compile(config.arch).1, binary@, binary@),
{
    let (_target, cross_compile) = get_target_and_cross_compile(config.arch);
    strip_command(cross_compile.as_str(), binary, binary)
}

/// Where the files of a plugin are, given the workspace's target directory:
/// the profile directory, the shared library `lib<name>.so` built there, and
/// the copy `<uuid>.plugin.so` beside it.
pub open spec fn spec_plugin_paths(
    config: CaBuildConfig,
    workspace_target_dir: Seq<char>,
    lib_name: Seq<char>,
    uuid: Seq<char>,
) -> (Seq<char>, Seq<char>, Seq<char>) {
    let dir = spec_profile_dir(
        workspace_target_dir,
        spec_target_and_cross_compile(config.arch).0,
        config.debug,
    );
    (
        dir,
        spec_join_path(dir, "lib"@ + lib_name + ".so"@),
        spec_join_path(dir, uuid + ".plugin.so"@),
    )
}

/// The profile directory, built library and copy of a plugin.
pub fn plugin_paths(
    config: &CaBuildConfig,
    workspace_target_dir: &str,
    lib_name: &str,
    uuid: &str,
) -> (paths: (String, String, String))
    ensures
        (paths.0@, paths.1@, paths.2@) == spec_plugin_paths(
            *config,
            workspace_target_dir@,
            lib_name@,
            uuid@,
        ),
{
    let (target, _cross_compile) = get_target_and_cross_compile(config.arch);
    let dir = profile_dir(workspace_target_dir, target.as_str(), config.debug);
    let library = String::from_str("lib").concat(lib_name).concat(".so");
    let source = join_path(dir.as_str(), library.as_str());
    let copy = String::from_str(uuid).concat(".plugin.so");
    let destination = join_path(dir.as_str(), copy.as_str());
    (dir, source, destination)
}

/// The first line among `lines` that, trimmed, starts with `name`.
pub open spec fn spec_first_name_line(lines: Seq<Seq<char>>) -> Option<Seq<char>>
    decreases lines.len(),
{
    if lines.len() == 0 {
        None
    } else if spec_starts_with(spec_trim(lines[0]), "name"@) {
        Some(lines[0])
    } else {
        spec_first_name_line(lines.drop_first())
    }
}

/// The value of a `name = "..."` line: what follows its first `=` up to the
/// next one, trimmed of whitespace and then of double quotes; `None` when the
/// line has no `=`.
pub open spec fn spec_name_line_value(line: Seq<char>) -> Option<Seq<char>> {
    let parts = spec_split(line, '=');
    if parts.len() >= 2 {
        Some(spec_trim_by(spec_trim(parts[1]), TrimKind::Quote))
    } else {
        None
    }
}

/// The package name that a `Cargo.toml` text gives on its first line that,
/// trimmed, starts with `name`.
pub open spec fn spec_manifest_name(manifest: Seq<char>) -> Option<Seq<char>> {
    match spec_first_name_line(spec_split(manifest, '\n')) {
        Some(line) => spec_name_line_value(line),
        None => None,
    }
}

/// The package name that the text of a `Cargo.toml` gives on its first line
/// that starts with `name`, as client applications and plugins read it;
/// `None` when there is no such line or it has no `=`.
pub fn manifest_name(manifest: &str) -> (name: Option<String>)
    ensures
        spec_opt_string(name) == spec_manifest_name(manifest@),
{
    let lines = split_on(manifest, '\n');
    let mut i: usize = 0;
    assert(spec_strings(lines@).skip(0) =~= spec_strings(lines@));
    while i < lines.len()
        invariant
            i <= lines@.len(),
            spec_strings(lines@) == spec_split(manifest@, '\n'),
            spec_first_name_line(spec_strings(lines@)) == spec_first_name_line(
                spec_strings(lines@).skip(i as int),
            ),
        decreases lines@.len() - i,
    {
        assert(spec_strings(lines@).skip(i as int).drop_first() =~= spec_strings(lines@).skip(
            i + 1,
        ));
        assert(spec_strings(lines@).skip(i as int)[0] == lines@[i as int]@);
        let line = lines[i].as_str();
        if starts_with(trim(line), "name") {
            let parts = split_on(line, '=');
            if parts.len() >= 2 {
                let value = trim_by(trim(parts[1].as_str()), TrimKind::Quote);
                return Some(String::from_str(value));
            }
            return None;
        }
        i = i + 1;
    }
    None
}

/// The package name a parsed `Cargo.toml` gives: the string `package.name`.
pub open spec fn spec_package_name(manifest: JsonValue) -> Option<Seq<char>> {
    spec_as_str(spec_get_in(spec_get(manifest, "package"@), "name"@))
}

/// The package name a parsed `Cargo.toml` gives, as trusted applications read
/// it; `None` when it has no string `package.name`.
pub fn package_name(manifest: &JsonValue) -> (name: Option<String>)
    ensures
        spec_opt_string(name) == spec_package_name(*manifest),
{
    match manifest.get("package") {
        Some(package) => match package.get("name") {
            Some(name) => match name.as_str() {
                Some(s) => Some(String::from_str(s)),
                None => None,
            },
            None => None,
        },
        None => None,
    }
}

/// Whether a parsed `Cargo.toml` declares a workspace: whether it has a
/// `workspace` table.
pub fn declares_workspace(manifest: &JsonValue) -> (declares: bool)
    ensures
        declares == spec_get(*manifest, "workspace"@) is Some,
{
    manifest.get("workspace").is_some()
}

/// The UUID a UUID file holds: its text trimmed, unless nothing is left.
pub open spec fn spec_uuid_of(content: Seq<char>) -> Option<Seq<char>> {
    if spec_trim(content).len() > 0 {
        Some(spec_trim(content))
    } else {
        None
    }
}

/// The UUID a UUID file holds: its text trimmed; `None` when the file is
/// empty or holds only whitespace.
pub fn uuid_from_content(content: &str) -> (uuid: Option<String>)
    ensures
        spec_opt_string(uuid) == spec_uuid_of(content@),
{
    let t = trim(content);
    if t.unicode_len() > 0 {
        Some(String::from_str(t))
    } else {
        None
    }
}

/// The std mode that `build ta` asks for: `--std` alone asks for std,
/// `--no-std` alone for no std, and otherwise the configuration decides.
pub open spec fn spec_build_std_mode(std: bool, no_std: bool) -> Option<bool> {
    if std && !no_std {
        Some(true)
    } else if !std && no_std {
        Some(false)
    } else {
        None
    }
}

/// The std mode that `build ta` asks for.
pub fn build_std_mode(std: bool, no_std: bool) -> (mode: Option<bool>)
    ensures
        mode == spec_build_std_mode(std, no_std),
{
    match (std, no_std) {
        (true, false) => Some(true),
        (false, true) => Some(false),
        _ => None,
    }
}

/// The std mode that `install ta` asks for: `--std` asks for std (even beside
/// `--no-std`), `--no-std` for no std, and otherwise the configuration
/// decides.
pub open spec fn spec_install_std_mode(std: bool, no_std: bool) -> Option<bool> {
    if std {
        Some(true)
    } else if no_std {
        Some(false)
    } else {
        None
    }
}

/// The std mode that `install ta` asks for.
pub fn install_std_mode(std: bool, no_std: bool) -> (mode: Option<bool>)
    ensures
        mode == spec_install_std_mode(std, no_std),
{
    if std {
        Some(true)
    } else if no_std {
        Some(false)
    } else {
        None
    }
}

/// The position of the first `x` in `s`, if any.
pub open spec fn spec_index_of<A>(s: Seq<A>, x: A) -> Option<int> {
    if exists|p: int| 0 <= p < s.len() && s[p] == x {
        Some(choose|p: int| 0 <= p < s.len() && s[p] == x && forall|j: int| 0 <= j < p ==> s[j] != x)
    } else {
        None
    }
}

/// The arguments of a cargo subcommand without the subcommand's own name:
/// the first `optee` is left out, everything before and after it kept.
pub open spec fn spec_filter_cargo_args(args: Seq<Seq<char>>) -> Seq<Seq<char>> {
    match spec_index_of(args, "optee"@) {
        Some(j) => args.take(j) + args.skip(j + 1),
        None => args,
    }
}

/// The arguments that cargo hands its `optee` subcommand, without the extra
/// `optee` that names it.
pub fn filter_cargo_args(args: &Vec<String>) -> (filtered: Vec<String>)
    ensures
        spec_strings(filtered@) == spec_filter_cargo_args(spec_strings(args@)),
{
    let ghost a = spec_strings(args@);
    let n = args.len();
    let mut j: usize = 0;
    while j < n && !str_eq(args[j].as_str(), "optee")
        invariant
            n == args@.len(),
            a == spec_strings(args@),
            j <= n,
            forall|k: int| 0 <= k < j ==> a[k] != "optee"@,
        decreases n - j,
    {
        j = j + 1;
    }
    let ghost target = if j < n {
        a.take(j as int) + a.skip(j + 1)
    } else {
        a
    };
    if j < n {
        let ghost p = choose|p: int|
            0 <= p < a.len() && a[p] == "optee"@ && forall|q: int| 0 <= q < p ==> a[q] != "optee"@;
        assert(0 <= j < a.len() && a[j as int] == "optee"@);
        assert(p == j) by {
            if p < j {
                assert(a[p] != "optee"@);
            } else if p > j {
                assert(a[j as int] != "optee"@);
            }
        }
    }
    assert(spec_filter_cargo_args(a) == target);
    let mut filtered: Vec<String> = Vec::new();
    let mut i: usize = 0;
    while i < n
        invariant
            n == args@.len(),
            a == spec_strings(args@),
            j <= n,
            i <= n,
            spec_strings(filtered@) == (if i <= j {
                a.take(i as int)
            } else {
                a.take(j as int) + a.subrange(j + 1, i as int)
            }),
        decreases n - i,
    {
        if i != j {
            let ghost before = filtered@;
            filtered.push(args[i].clone());
            assert(spec_strings(filtered@) =~= spec_strings(before).push(a[i as int]));
        }
        assert(a.take(i + 1) =~= a.take(i as int).push(a[i as int]));
        if i > j {
            assert(a.subrange(j + 1, i + 1) =~= a.subrange(j + 1, i as int).push(a[i as int]));
        }
        if i == j {
            assert(a.subrange(j + 1, i + 1) =~= Seq::<Seq<char>>::empty());
            assert(a.take(j as int) + a.subrange(j + 1, i + 1) =~= a.take(i as int));
        }
        i = i + 1;
    }
    if j < n {
        assert(a.subrange(j + 1, n as int) =~= a.skip(j + 1));
    } else {
        assert(a.take(n as int) =~= a);
    }
    filtered
}

/// Configured environment variables, then those of the command line.
pub fn merge_env(config_env: &Vec<(String, String)>, command_line_env: Vec<(String, String)>) -> (merged:
    Vec<(String, String)>)
    ensures
        spec_pairs(merged@) == spec_pairs(config_env@) + spec_pairs(command_line_env@),
{
    let mut merged = clone_pairs(config_env);
    let ghost first = merged@;
    let mut rest = command_line_env;
    let ghost second = rest@;
    merged.append(&mut rest);
    assert(spec_pairs(merged@) =~= spec_pairs(first) + spec_pairs(second));
    merged
}

/// The UUID file of a trusted-application build: the resolved UUID path,
/// taken from the current directory when the command line gave it, else from
/// the project directory.
pub open spec fn spec_ta_uuid_path(
    build_config: BuildConfig,
    project_path: Seq<char>,
    current_dir: Seq<char>,
    uuid_from_command_line: bool,
) -> Seq<char> {
    let uuid = match spec_opt_string(build_config.uuid_path) {
        Some(p) => p,
        None => "../uuid.txt"@,
    };
    spec_join_path(
        if uuid_from_command_line {
            current_dir
        } else {
            project_path
        },
        uuid,
    )
}

/// What building a trusted application needs, from its resolved build
/// configuration, the resolved TA dev kit directory and signing key, the
/// project and current directories, whether the command line gave the UUID
/// path, and the command-line variables and feature selection. The
/// environment is the configured variables, then those of the command line.
pub fn ta_build_config(
    build_config: &BuildConfig,
    ta_dev_kit_dir: String,
    signing_key: String,
    project_path: String,
    current_dir: &str,
    uuid_from_command_line: bool,
    command_line_env: Vec<(String, String)>,
    no_default_features: bool,
    features: Option<String>,
) -> (config: TaBuildConfig)
    ensures
        config.arch == build_config.arch,
        config.std == build_config.std,
        config.debug == build_config.debug,
        config.ta_dev_kit_dir == ta_dev_kit_dir,
        config.signing_key == signing_key,
        config.uuid_path@ == spec_ta_uuid_path(
            *build_config,
            project_path@,
            current_dir@,
            uuid_from_command_line,
        ),
        config.path == project_path,
        spec_pairs(config.env@) == spec_pairs(build_config.env@) + spec_pairs(
            command_line_env@,
        ),
        config.no_default_features == no_default_features,
        config.features == features,
{
    let uuid = build_config.get_uuid_path();
    let uuid_path = if uuid_from_command_line {
        join_path(current_dir, uuid.as_str())
    } else {
        join_path(project_path.as_str(), uuid.as_str())
    };
    let env = merge_env(&build_config.env, command_line_env);
    TaBuildConfig {
        arch: build_config.arch,
        std: build_config.std,
        ta_dev_kit_dir,
        signing_key,
        debug: build_config.debug,
        path: project_path,
        uuid_path,
        env,
        no_default_features,
        features,
    }
}

/// What building a client application or plugin needs, from its resolved
/// build configuration, the resolved OP-TEE client export directory, the
/// project directory, and the command-line variables and feature selection.
/// Only a plugin keeps the UUID path.
pub fn ca_build_config(
    build_config: &BuildConfig,
    optee_client_export: String,
    project_path: String,
    plugin: bool,
    command_line_env: Vec<(String, String)>,
    no_default_features: bool,
    features: Option<String>,
) -> (config: CaBuildConfig)
    ensures
        config.arch == build_config.arch,
        config.optee_client_export == optee_client_export,
        config.debug == build_config.debug,
        config.path == project_path,
        config.plugin == plugin,
        spec_opt_string(config.uuid_path) == (if plugin {
            spec_opt_string(build_config.uuid_path)
        } else {
            None
        }),
        spec_pairs(config.env@) == spec_pairs(build_config.env@) + spec_pairs(
            command_line_env@,
        ),
        config.no_default_features == no_default_features,
        config.features == features,
{
    let uuid_path = if plugin {
        match &build_config.uuid_path {
            Some(p) => Some(p.clone()),
            None => None,
        }
    } else {
        None
    };
    let env = merge_env(&build_config.env, command_line_env);
    CaBuildConfig {
        arch: build_config.arch,
        optee_client_export,
        debug: build_config.debug,
        path: project_path,
        plugin,
        uuid_path,
        env,
        no_default_features,
        features,
    }
}

} // verus!
