use crossbundle::android_compile::{
    compile_rust_for_android_with_bevy, compile_rust_for_android_with_mq, NdkTools,
};
use crossbundle::command_line::CommandLine;
use crossbundle::executor::{CompileMode, CompileTarget, ExecStep, TargetKind, TargetSourcePath};
use crossbundle::toolchain::{
    build_target_dir, cargo_env_target_cfg, make_path, set_cmake_vars, write_cmake_toolchain,
};
use crossbundle::types::{AndroidTarget, Profile};

fn env(name: &str, value: &str) -> (String, String) {
    (name.to_string(), value.to_string())
}

fn ndk() -> NdkTools {
    NdkTools {
        ndk_path: "/opt/ndk".to_string(),
        tool_root: "/opt/ndk/toolchains/llvm/prebuilt/linux-x86_64".to_string(),
        host_tag: "linux-x86_64".to_string(),
        clang: "/opt/ndk/bin/aarch64-linux-android30-clang".to_string(),
        clang_pp: "/opt/ndk/bin/aarch64-linux-android30-clang++".to_string(),
        ar: "/opt/ndk/bin/aarch64-linux-android-ar".to_string(),
        platform: 30,
    }
}

#[test]
fn linker_variable_name() {
    assert_eq!(
        cargo_env_target_cfg("LINKER", "aarch64-linux-android"),
        "CARGO_TARGET_AARCH64_LINUX_ANDROID_LINKER"
    );
    assert_eq!(
        cargo_env_target_cfg("linker", "armv7-linux-androideabi"),
        "CARGO_TARGET_ARMV7_LINUX_ANDROIDEABI_LINKER"
    );
    assert_eq!(cargo_env_target_cfg("", ""), "CARGO_TARGET__");
    assert_eq!(
        cargo_env_target_cfg("runner", "x86_64-linux-android"),
        "CARGO_TARGET_X86_64_LINUX_ANDROID_RUNNER"
    );
}

#[test]
fn build_directory_is_keyed_by_triple_and_profile() {
    assert_eq!(
        build_target_dir("/work/game", "aarch64-linux-android", Profile::Debug),
        "/work/game/target/aarch64-linux-android/debug"
    );
    assert_eq!(
        build_target_dir("game", "i686-linux-android", Profile::Release),
        "game/target/i686-linux-android/release"
    );
}

#[test]
fn toolchain_file() {
    let file = write_cmake_toolchain(
        30,
        "C:\\Android\\ndk",
        "/work/target/aarch64-linux-android/debug",
        AndroidTarget::Aarch64LinuxAndroid,
    );
    assert_eq!(
        file.path,
        "/work/target/aarch64-linux-android/debug/cargo-apk.toolchain.cmake"
    );
    let expected = format!(
        r#"set(ANDROID_PLATFORM android-{min_sdk_version})
        set(ANDROID_ABI {abi})
        string(REPLACE "--target={build_target}" "" CMAKE_C_FLAGS "${{CMAKE_C_FLAGS}}")
        string(REPLACE "--target={build_target}" "" CMAKE_CXX_FLAGS "${{CMAKE_CXX_FLAGS}}")
        unset(CMAKE_C_COMPILER CACHE)
        unset(CMAKE_CXX_COMPILER CACHE)
        include("{ndk_path}/build/cmake/android.toolchain.cmake")"#,
        min_sdk_version = 30,
        ndk_path = "C:/Android/ndk",
        build_target = "aarch64-linux-android",
        abi = "arm64-v8a",
    ) + "\n";
    assert_eq!(file.contents, expected);
}

#[test]
fn toolchain_file_for_every_architecture() {
    for (target, triple, abi) in [
        (
            AndroidTarget::Armv7LinuxAndroideabi,
            "armv7-linux-androideabi",
            "armeabi-v7a",
        ),
        (AndroidTarget::I686LinuxAndroid, "i686-linux-android", "x86"),
        (
            AndroidTarget::X8664LinuxAndroid,
            "x86_64-linux-android",
            "x86_64",
        ),
    ] {
        let file = write_cmake_toolchain(21, "/ndk", "/b", target);
        assert!(file
            .contents
            .starts_with("set(ANDROID_PLATFORM android-21)\n"));
        assert!(file
            .contents
            .contains(&format!("        set(ANDROID_ABI {})\n", abi)));
        assert_eq!(
            file.contents
                .matches(&format!("\"--target={}\"", triple))
                .count(),
            2
        );
        assert!(file
            .contents
            .ends_with("include(\"/ndk/build/cmake/android.toolchain.cmake\")\n"));
    }
}

#[test]
fn make_program() {
    assert_eq!(
        make_path("/opt/ndk", "linux-x86_64"),
        "/opt/ndk/prebuild/linux-x86_64/make"
    );
}

#[test]
fn cmake_variables() {
    let setup = set_cmake_vars(
        AndroidTarget::Aarch64LinuxAndroid,
        "/opt/ndk",
        30,
        "/b",
        "linux-x86_64",
    );
    assert_eq!(
        setup.toolchain_file,
        write_cmake_toolchain(30, "/opt/ndk", "/b", AndroidTarget::Aarch64LinuxAndroid)
    );
    assert_eq!(
        setup.envs,
        vec![
            env("CMAKE_TOOLCHAIN_FILE", "/b/cargo-apk.toolchain.cmake"),
            env("CMAKE_GENERATOR", "Unix Makefiles"),
            env("CMAKE_MAKE_PROGRAM", "/opt/ndk/prebuild/linux-x86_64/make"),
        ]
    );
}

#[test]
fn macroquad_compilation_setup() {
    let build = compile_rust_for_android_with_mq(
        &ndk(),
        AndroidTarget::Aarch64LinuxAndroid,
        "/work/game",
        Profile::Release,
        30,
    );
    let dir = "/work/game/target/aarch64-linux-android/release";
    assert_eq!(build.build_target_dir, dir);
    assert_eq!(
        build.toolchain_file.path,
        format!("{}/cargo-apk.toolchain.cmake", dir)
    );
    assert_eq!(
        build.envs,
        vec![
            env(
                "CC_aarch64-linux-android",
                "/opt/ndk/bin/aarch64-linux-android30-clang"
            ),
            env(
                "CXX_aarch64-linux-android",
                "/opt/ndk/bin/aarch64-linux-android30-clang++"
            ),
            env(
                "AR_aarch64-linux-android",
                "/opt/ndk/bin/aarch64-linux-android-ar"
            ),
            env(
                "CMAKE_TOOLCHAIN_FILE",
                &format!("{}/cargo-apk.toolchain.cmake", dir)
            ),
            env("CMAKE_GENERATOR", "Unix Makefiles"),
            env("CMAKE_MAKE_PROGRAM", "/opt/ndk/prebuild/linux-x86_64/make"),
            env("CXXSTDLIB", "c++"),
        ]
    );
    assert_eq!(
        build.executor.tool_root,
        "/opt/ndk/toolchains/llvm/prebuilt/linux-x86_64"
    );
    assert_eq!(build.executor.platform, 30);
    assert_eq!(build.executor.build_target_dir, dir);
    assert_eq!(build.executor.build_target, AndroidTarget::Aarch64LinuxAndroid);
    assert_eq!(build.executor.profile, Profile::Release);
    assert!(!build.executor.nostrip);
}

#[test]
fn bevy_compilation_setup() {
    let build = compile_rust_for_android_with_bevy(
        &ndk(),
        AndroidTarget::Aarch64LinuxAndroid,
        "/work",
        Profile::Debug,
    );
    assert_eq!(
        build.executor.build_target_dir(),
        "/work/target/aarch64-linux-android/debug"
    );
    assert_eq!(
        build.build_target_dir,
        "/work/target/aarch64-linux-android/debug"
    );
    assert_eq!(
        build.envs,
        vec![
            env(
                "CC_aarch64-linux-android",
                "/opt/ndk/bin/aarch64-linux-android30-clang"
            ),
            env(
                "CXX_aarch64-linux-android",
                "/opt/ndk/bin/aarch64-linux-android30-clang++"
            ),
            env(
                "CARGO_TARGET_AARCH64_LINUX_ANDROID_LINKER",
                "/opt/ndk/bin/aarch64-linux-android30-clang"
            ),
            env(
                "AR_aarch64-linux-android",
                "/opt/ndk/bin/aarch64-linux-android-ar"
            ),
        ]
    );
    let cmd = CommandLine::new("rustc");
    let target = CompileTarget {
        name: "game".to_string(),
        kind: TargetKind::Bin,
        src_path: TargetSourcePath::Path("/work/game/src/bin/game.rs".to_string()),
    };
    assert_eq!(
        build.executor.exec(&cmd, &target, CompileMode::Build),
        Ok(ExecStep::Prepare {
            source: "/work/game/src/bin/game.rs".to_string(),
        })
    );
    assert!(build.executor.exec(&cmd, &target, CompileMode::Test).is_err());
    let mut cmd = CommandLine::new("rustc");
    cmd.arg("src/bin/game.rs");
    cmd.arg("--out-dir");
    cmd.arg("/orig");
    let out = build
        .executor
        .rewrite(&cmd, "game", "/work/game/src/bin/game.rs", "t.rs")
        .unwrap();
    assert_eq!(
        out.args,
        vec![
            "src/bin/t.rs".to_string(),
            "--out-dir".to_string(),
            "/work/target/aarch64-linux-android/debug".to_string(),
        ]
    );
}

#[test]
fn compile_bevy_test_compile_android() {
    // Specify path to bevy project example
    let project_path = std::path::Path::new("examples").join("bevy-2d");
    let project_path = project_path.to_string_lossy().into_owned();

    // Assign needed configuration to compile rust for android with bevy
    let build_target = AndroidTarget::Aarch64LinuxAndroid;
    let profile = Profile::Debug;
    let target_sdk_version = 30;
    let lib_name = "bevy_test_lib";
    let mut ndk = ndk();
    ndk.platform = target_sdk_version;

    // Compile rust code for android with bevy engine
    let build = compile_rust_for_android_with_bevy(&ndk, build_target, &project_path, profile);
    assert_eq!(
        build.build_target_dir,
        "examples/bevy-2d/target/aarch64-linux-android/debug"
    );
    assert_eq!(build.envs.len(), 4);
    let mut cmd = CommandLine::new("rustc");
    for arg in [
        "--crate-name",
        lib_name,
        "examples/bevy-2d/src/main.rs",
        "--crate-type",
        "bin",
        "--out-dir",
        "target/debug/deps",
    ] {
        cmd.arg(arg);
    }
    let target = CompileTarget {
        name: lib_name.to_string(),
        kind: TargetKind::Bin,
        src_path: TargetSourcePath::Path("examples/bevy-2d/src/main.rs".to_string()),
    };
    assert_eq!(
        build.executor.exec(&cmd, &target, CompileMode::Build),
        Ok(ExecStep::Prepare {
            source: "examples/bevy-2d/src/main.rs".to_string(),
        })
    );
    let out = build
        .executor
        .rewrite(&cmd, lib_name, "examples/bevy-2d/src/main.rs", "gen.rs")
        .unwrap();
    assert_eq!(
        out.args,
        vec![
            "--crate-name".to_string(),
            "bevy_test_lib".to_string(),
            "examples/bevy-2d/src/gen.rs".to_string(),
            "--crate-type".to_string(),
            "cdylib".to_string(),
            "--out-dir".to_string(),
            "examples/bevy-2d/target/aarch64-linux-android/debug".to_string(),
        ]
    );
}

#[test]
fn compile_macroquad_test_compile_android() {
    // Specify path to macroquad project example
    let project_path = std::path::Path::new("examples").join("macroquad-3d");
    let project_path = project_path.to_string_lossy().into_owned();

    // Assign needed configuration to compile rust for android with macroquad
    let build_target = AndroidTarget::Aarch64LinuxAndroid;
    let profile = Profile::Debug;
    let target_sdk_version = 30;
    let lib_name = "mq_test_lib";

    // Compile rust code for android with macroquad engine
    let build =
        compile_rust_for_android_with_mq(&ndk(), build_target, &project_path, profile, target_sdk_version);
    assert_eq!(
        build.build_target_dir,
        "examples/macroquad-3d/target/aarch64-linux-android/debug"
    );
    assert!(build
        .toolchain_file
        .contents
        .starts_with("set(ANDROID_PLATFORM android-30)\n"));
    assert_eq!(build.envs.len(), 7);
    let mut cmd = CommandLine::new("rustc");
    for arg in ["src/main.rs", "--crate-type", "bin"] {
        cmd.arg(arg);
    }
    let target = CompileTarget {
        name: lib_name.to_string(),
        kind: TargetKind::Bin,
        src_path: TargetSourcePath::Path("examples/macroquad-3d/src/main.rs".to_string()),
    };
    assert!(build.executor.exec(&cmd, &target, CompileMode::Test).is_err());
    let out = build
        .executor
        .rewrite(&cmd, lib_name, "examples/macroquad-3d/src/main.rs", "gen.rs")
        .unwrap();
    assert_eq!(out.args[0], "src/gen.rs");
    assert_eq!(out.args[2], "cdylib");
    assert_eq!(out.args.len(), 3 + 7);
    assert!(!out.args.contains(&"-Clink-arg=-strip-all".to_string()));
    assert_eq!(out.args[9], "-Crelocation-model=pic");
}

#[test]
fn rust_compile_macroquad_test_compile_android() {
    let dir = "minimal";

    let target_sdk_version = 30;
    let profile = Profile::Debug;
    let build_target = AndroidTarget::Aarch64LinuxAndroid;
    let lib_name = "test_lib";

    let build = compile_rust_for_android_with_mq(&ndk(), build_target, dir, profile, target_sdk_version);
    assert_eq!(
        build.build_target_dir,
        "minimal/target/aarch64-linux-android/debug"
    );
    assert_eq!(build.executor.build_target_dir, build.build_target_dir);
    let mut cmd = CommandLine::new("rustc");
    for arg in ["--crate-name", lib_name, "src/lib.rs", "--crate-type", "cdylib"] {
        cmd.arg(arg);
    }
    let target = CompileTarget {
        name: lib_name.to_string(),
        kind: TargetKind::Lib,
        src_path: TargetSourcePath::Path("minimal/src/lib.rs".to_string()),
    };
    let step = build
        .executor
        .exec(&cmd, &target, CompileMode::Build)
        .unwrap();
    let mut expected = CommandLine::new("rustc");
    for arg in ["--crate-name", lib_name, "src/lib.rs", "--crate-type", "rlib"] {
        expected.arg(arg);
    }
    assert_eq!(step, ExecStep::Run(expected));
}
