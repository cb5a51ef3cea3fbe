use crossbundle::command_line::CommandLine;
use crossbundle::rust_compile::{cargo_feature_args, cargo_rustc_command, join_crate_types};
use crossbundle::types::{AndroidTarget, AppleTarget, BuildTarget, CrateType, Profile, Target};

fn strings(items: &[&str]) -> Vec<String> {
    items.iter().map(|s| s.to_string()).collect()
}

fn count(cmd: &CommandLine, token: &str) -> usize {
    cmd.args.iter().filter(|a| a.as_str() == token).count()
}

const ALL_TARGETS: [BuildTarget; 10] = [
    BuildTarget::Android(AndroidTarget::Armv7LinuxAndroideabi),
    BuildTarget::Android(AndroidTarget::Aarch64LinuxAndroid),
    BuildTarget::Android(AndroidTarget::I686LinuxAndroid),
    BuildTarget::Android(AndroidTarget::X8664LinuxAndroid),
    BuildTarget::Apple(AppleTarget::X86_64),
    BuildTarget::Apple(AppleTarget::Aarch64),
    BuildTarget::Apple(AppleTarget::Aarch64Sim),
    BuildTarget::Apple(AppleTarget::Armv7),
    BuildTarget::Apple(AppleTarget::Armv7s),
    BuildTarget::Apple(AppleTarget::I386),
];

#[test]
fn library_debug_invocation() {
    let cmd = cargo_rustc_command(
        &Target::Lib,
        "/work/project",
        &Profile::Debug,
        &[],
        &BuildTarget::Android(AndroidTarget::Aarch64LinuxAndroid),
        &[],
    );
    assert_eq!(cmd.program, "cargo");
    assert_eq!(
        cmd.args,
        strings(&["rustc", "--lib", "--target", "aarch64-linux-android"])
    );
    assert_eq!(cmd.current_dir, Some("/work/project".to_string()));
    assert!(cmd.envs.is_empty());
}

#[test]
fn binary_release_invocation_with_everything() {
    let cmd = cargo_rustc_command(
        &Target::Bin("game".to_string()),
        "project",
        &Profile::Release,
        &strings(&["--features", "audio", "--no-default-features"]),
        &BuildTarget::Apple(AppleTarget::Aarch64Sim),
        &[CrateType::Cdylib, CrateType::Staticlib],
    );
    assert_eq!(
        cmd.args,
        strings(&[
            "rustc",
            "--bin",
            "game",
            "--release",
            "--features",
            "audio",
            "--no-default-features",
            "--target",
            "aarch64-apple-ios-sim",
            "--",
            "--crate-type",
            "cdylib,staticlib",
        ])
    );
}

#[test]
fn example_invocation() {
    let cmd = cargo_rustc_command(
        &Target::Example("demo".to_string()),
        ".",
        &Profile::Debug,
        &[],
        &BuildTarget::Android(AndroidTarget::Armv7LinuxAndroideabi),
        &[CrateType::Rlib],
    );
    assert_eq!(
        cmd.args,
        strings(&[
            "rustc",
            "--example",
            "demo",
            "--target",
            "armv7-linux-androideabi",
            "--",
            "--crate-type",
            "rlib",
        ])
    );
}

#[test]
fn one_product_and_one_architecture_for_every_triple() {
    let products = [
        Target::Bin("app".to_string()),
        Target::Example("app".to_string()),
        Target::Lib,
    ];
    for build_target in ALL_TARGETS.iter() {
        for product in products.iter() {
            for profile in [Profile::Debug, Profile::Release] {
                let cmd = cargo_rustc_command(
                    product,
                    "p",
                    &profile,
                    &strings(&["--all-features"]),
                    build_target,
                    &[CrateType::Cdylib],
                );
                let selections =
                    count(&cmd, "--bin") + count(&cmd, "--example") + count(&cmd, "--lib");
                assert_eq!(selections, 1);
                assert_eq!(count(&cmd, "--target"), 1);
                let at = cmd.args.iter().position(|a| a == "--target").unwrap();
                assert_eq!(cmd.args[at + 1], build_target.rust_triple());
                match product {
                    Target::Bin(name) => {
                        assert_eq!(cmd.args[1], "--bin");
                        assert_eq!(&cmd.args[2], name);
                    }
                    Target::Example(name) => {
                        assert_eq!(cmd.args[1], "--example");
                        assert_eq!(&cmd.args[2], name);
                    }
                    Target::Lib => assert_eq!(cmd.args[1], "--lib"),
                }
            }
        }
    }
}

#[test]
fn extra_arguments_can_repeat_a_flag() {
    let cmd = cargo_rustc_command(
        &Target::Lib,
        "p",
        &Profile::Debug,
        &strings(&["--lib"]),
        &BuildTarget::Android(AndroidTarget::I686LinuxAndroid),
        &[],
    );
    assert_eq!(count(&cmd, "--lib"), 2);
}

#[test]
fn crate_types_are_joined_in_order() {
    assert_eq!(join_crate_types(&[]), "");
    assert_eq!(join_crate_types(&[CrateType::Bin]), "bin");
    assert_eq!(
        join_crate_types(&[CrateType::Cdylib, CrateType::Staticlib]),
        "cdylib,staticlib"
    );
    assert_eq!(
        join_crate_types(&[CrateType::Staticlib, CrateType::Cdylib]),
        "staticlib,cdylib"
    );
    assert_eq!(
        join_crate_types(&[
            CrateType::Lib,
            CrateType::Dylib,
            CrateType::Lib,
            CrateType::Rlib,
        ]),
        "lib,dylib,lib,rlib"
    );
}

#[test]
fn crate_type_override_is_one_token_behind_one_separator() {
    let cmd = cargo_rustc_command(
        &Target::Lib,
        "p",
        &Profile::Debug,
        &[],
        &BuildTarget::Android(AndroidTarget::X8664LinuxAndroid),
        &[CrateType::Cdylib, CrateType::Staticlib],
    );
    assert_eq!(count(&cmd, "--"), 1);
    assert_eq!(count(&cmd, "--crate-type"), 1);
    let n = cmd.args.len();
    assert_eq!(cmd.args[n - 3], "--");
    assert_eq!(cmd.args[n - 2], "--crate-type");
    assert_eq!(cmd.args[n - 1], "cdylib,staticlib");
    assert!(cmd.args.join(" ").contains("cdylib,staticlib"));
}

#[test]
fn no_crate_types_no_override() {
    let cmd = cargo_rustc_command(
        &Target::Lib,
        "p",
        &Profile::Release,
        &[],
        &BuildTarget::Android(AndroidTarget::X8664LinuxAndroid),
        &[],
    );
    assert_eq!(count(&cmd, "--"), 0);
    assert_eq!(count(&cmd, "--crate-type"), 0);
    assert_eq!(
        cmd.args,
        strings(&["rustc", "--lib", "--release", "--target", "x86_64-linux-android"])
    );
}

#[test]
fn feature_arguments() {
    assert_eq!(cargo_feature_args(&[], false, false), Vec::<String>::new());
    assert_eq!(
        cargo_feature_args(&strings(&["audio", "net"]), false, false),
        strings(&["--features", "audio", "--features", "net"])
    );
    assert_eq!(
        cargo_feature_args(&strings(&["audio"]), true, true),
        strings(&[
            "--features",
            "audio",
            "--all-features",
            "--no-default-features"
        ])
    );
    assert_eq!(
        cargo_feature_args(&[], false, true),
        strings(&["--no-default-features"])
    );
    assert_eq!(
        cargo_feature_args(&[], true, false),
        strings(&["--all-features"])
    );
}
