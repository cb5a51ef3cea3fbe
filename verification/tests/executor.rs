use crossbundle::command_line::CommandLine;
use crossbundle::executor::{
    demote, exec_compilation, find_source_arg, generate_lib_file, get_cmd_args, linker_arguments, package_command,
    retarget, rewrite_for_packaging, CompileMode, CompileTarget, DefaultExecutor, ExecStep,
    ExecutorError, LinkerPaths, SharedLibraryExecutor, TargetKind, TargetSourcePath,
};
use crossbundle::types::{AndroidTarget, Profile};

fn strings(items: &[&str]) -> Vec<String> {
    items.iter().map(|s| s.to_string()).collect()
}

fn rustc(args: &[&str]) -> CommandLine {
    let mut cmd = CommandLine::new("rustc");
    for a in args {
        cmd.arg(a);
    }
    cmd.current_dir("/work/game");
    cmd.env("CARGO_PKG_NAME", "game");
    cmd
}

fn bin_target(name: &str, path: &str) -> CompileTarget {
    CompileTarget {
        name: name.to_string(),
        kind: TargetKind::Bin,
        src_path: TargetSourcePath::Path(path.to_string()),
    }
}

const ALL_MODES: [CompileMode; 8] = [
    CompileMode::Test,
    CompileMode::Build,
    CompileMode::Check,
    CompileMode::Bench,
    CompileMode::Doc,
    CompileMode::Doctest,
    CompileMode::Docscrape,
    CompileMode::RunCustomBuild,
];

const ALL_KINDS: [TargetKind; 7] = [
    TargetKind::Lib,
    TargetKind::Bin,
    TargetKind::Test,
    TargetKind::Bench,
    TargetKind::ExampleLib,
    TargetKind::ExampleBin,
    TargetKind::CustomBuild,
];

#[test]
fn rewrite_of_a_binary_invocation() {
    let cmd = rustc(&[
        "--crate-name",
        "game",
        "--edition=2021",
        "src/main.rs",
        "--crate-type",
        "bin",
        "--emit=dep-info,link",
        "--out-dir",
        "/orig",
        "-C",
        "opt-level=3",
    ]);
    let out = package_command(
        "/work/game/src/main.rs",
        "__cargo_apk_x1.tmp",
        "/work/game/target/aarch64-linux-android/debug",
        "game",
        &cmd,
    )
    .unwrap();
    assert_eq!(
        out.args,
        strings(&[
            "--crate-name",
            "game",
            "--edition=2021",
            "src/__cargo_apk_x1.tmp",
            "--crate-type",
            "cdylib",
            "--emit=dep-info,link",
            "--out-dir",
            "/work/game/target/aarch64-linux-android/debug",
            "-C",
            "opt-level=3",
        ])
    );
    assert_eq!(out.program, "rustc");
    assert_eq!(out.current_dir, Some("/work/game".to_string()));
    assert_eq!(
        out.envs,
        vec![("CARGO_PKG_NAME".to_string(), "game".to_string())]
    );
}

#[test]
fn rewrite_keeps_the_shape_of_the_pattern() {
    let cmd = rustc(&[
        "--crate-type",
        "bin",
        "-g",
        "--out-dir",
        "/orig",
        "--verbose",
        "/path/to/main.rs",
    ]);
    let out = package_command("/path/to/main.rs", "gen.rs", "/build", "game", &cmd).unwrap();
    assert_eq!(
        out.args,
        strings(&[
            "--crate-type",
            "cdylib",
            "-g",
            "--out-dir",
            "/build",
            "--verbose",
            "/path/to/gen.rs",
        ])
    );
}

#[test]
fn rewrite_keeps_relative_and_absolute_style() {
    let relative = rustc(&["examples/demo/main.rs"]);
    let out = package_command("/abs/examples/demo/main.rs", "t.rs", "/b", "demo", &relative)
        .unwrap();
    assert_eq!(out.args, strings(&["examples/demo/t.rs"]));
    let bare = rustc(&["main.rs"]);
    let out = package_command("/abs/main.rs", "t.rs", "/b", "demo", &bare).unwrap();
    assert_eq!(out.args, strings(&["t.rs"]));
    let absolute = rustc(&["/abs/examples/demo/main.rs"]);
    let out = package_command("examples/demo/main.rs", "t.rs", "/b", "demo", &absolute).unwrap();
    assert_eq!(out.args, strings(&["/abs/examples/demo/t.rs"]));
}

#[test]
fn rewrite_takes_the_first_argument_with_the_file_name() {
    let cmd = rustc(&["--cfg", "a/main.rs", "b/main.rs"]);
    let out = package_command("c/main.rs", "t.rs", "/b", "demo", &cmd).unwrap();
    assert_eq!(out.args, strings(&["--cfg", "a/t.rs", "b/main.rs"]));
}

#[test]
fn rewrite_without_source_argument_fails_and_names_the_target() {
    let cmd = rustc(&["--crate-type", "bin", "--out-dir", "/orig", "src/lib.rs"]);
    let err = package_command("src/main.rs", "t.rs", "/b", "my-game", &cmd).unwrap_err();
    assert_eq!(
        err,
        ExecutorError::SourceArgumentNotFound {
            target: "my-game".to_string()
        }
    );
    assert_eq!(
        err.to_string(),
        "Unable to replace source argument when building target: my-game"
    );
    let empty = rustc(&[]);
    assert!(package_command("src/main.rs", "t.rs", "/b", "g", &empty).is_err());
}

#[test]
fn rewrite_skips_arguments_and_sources_without_a_file_name() {
    let cmd = rustc(&["..", "/", "", "src/main.rs"]);
    let out = package_command("main.rs", "t.rs", "/b", "g", &cmd).unwrap();
    assert_eq!(out.args, strings(&["..", "/", "", "src/t.rs"]));
    let cmd = rustc(&["..", "src/main.rs"]);
    assert!(package_command("src/..", "t.rs", "/b", "g", &cmd).is_err());
    assert!(package_command("", "t.rs", "/b", "g", &cmd).is_err());
}

#[test]
fn retarget_decides_by_the_arguments_as_they_were() {
    let mut args = strings(&["--out-dir", "--out-dir", "x", "--crate-type", "bin", "bin"]);
    retarget(&mut args, "/b");
    assert_eq!(
        args,
        strings(&["--out-dir", "/b", "/b", "--crate-type", "cdylib", "bin"])
    );
    let mut args = strings(&["--out-dir", "--crate-type", "bin"]);
    retarget(&mut args, "/b");
    assert_eq!(args, strings(&["--out-dir", "/b", "cdylib"]));
    let mut args = strings(&["--crate-type", "--crate-type", "bin", "--crate-type", "lib"]);
    retarget(&mut args, "/b");
    assert_eq!(
        args,
        strings(&["--crate-type", "--crate-type", "cdylib", "--crate-type", "lib"])
    );
}

#[test]
fn retarget_edge_cases() {
    let mut args: Vec<String> = Vec::new();
    retarget(&mut args, "/b");
    assert!(args.is_empty());
    let mut args = strings(&["bin"]);
    retarget(&mut args, "/b");
    assert_eq!(args, strings(&["bin"]));
    let mut args = strings(&["--out-dir"]);
    retarget(&mut args, "/b");
    assert_eq!(args, strings(&["--out-dir"]));
    let mut args = strings(&["--crate-type=bin", "--out-dir=/x", "a"]);
    retarget(&mut args, "/b");
    assert_eq!(args, strings(&["--crate-type=bin", "--out-dir=/x", "a"]));
}

#[test]
fn demote_changes_cdylib_behind_its_flag_only() {
    let mut args = strings(&[
        "cdylib",
        "--crate-type",
        "cdylib",
        "--crate-type",
        "bin",
        "cdylib",
        "--out-dir",
        "/orig",
        "--crate-type",
    ]);
    demote(&mut args);
    assert_eq!(
        args,
        strings(&[
            "cdylib",
            "--crate-type",
            "rlib",
            "--crate-type",
            "bin",
            "cdylib",
            "--out-dir",
            "/orig",
            "--crate-type",
        ])
    );
}

#[test]
fn source_argument_is_found_by_file_name() {
    let names = vec![
        None,
        Some("lib.rs".to_string()),
        Some("main.rs".to_string()),
        Some("main.rs".to_string()),
    ];
    assert_eq!(find_source_arg(&names, &Some("main.rs".to_string())), Some(2));
    assert_eq!(find_source_arg(&names, &Some("lib.rs".to_string())), Some(1));
    assert_eq!(find_source_arg(&names, &Some("Main.rs".to_string())), None);
    assert_eq!(find_source_arg(&names, &None), None);
    assert_eq!(find_source_arg(&[], &Some("main.rs".to_string())), None);
    assert_eq!(find_source_arg(&[None, None], &None), None);
}

#[test]
fn rewrite_for_packaging_replaces_then_retargets() {
    let out = rewrite_for_packaging(
        strings(&["--out-dir", "main.rs", "--crate-type", "bin"]),
        1,
        "tmp.rs".to_string(),
        "/b",
    );
    assert_eq!(out, strings(&["--out-dir", "/b", "--crate-type", "cdylib"]));
    let out = rewrite_for_packaging(
        strings(&["main.rs", "x", "--crate-type", "bin"]),
        0,
        "--out-dir".to_string(),
        "/b",
    );
    assert_eq!(out, strings(&["--out-dir", "/b", "--crate-type", "cdylib"]));
}

#[test]
fn linker_arguments_for_release() {
    let args = linker_arguments(
        "/ndk/toolchains/llvm/prebuilt/linux-x86_64",
        &AndroidTarget::Armv7LinuxAndroideabi,
        30,
        false,
        Profile::Release,
    );
    assert_eq!(
        args,
        strings(&[
            "-Clinker=/ndk/toolchains/llvm/prebuilt/linux-x86_64/bin/arm-linux-androideabi-ld.gold",
            "-Clinker-flavor=ld",
            "-Clink-arg=--sysroot=/ndk/toolchains/llvm/prebuilt/linux-x86_64/sysroot",
            "-Clink-arg=-L/ndk/toolchains/llvm/prebuilt/linux-x86_64/sysroot/usr/lib/arm-linux-androideabi/30",
            "-Clink-arg=-L/ndk/toolchains/llvm/prebuilt/linux-x86_64/sysroot/usr/lib/arm-linux-androideabi",
            "-Clink-arg=-L/ndk/toolchains/llvm/prebuilt/linux-x86_64/lib/gcc/arm-linux-androideabi/4.9.x",
            "-Clink-arg=-strip-all",
            "-Crelocation-model=pic",
        ])
    );
}

#[test]
fn linker_arguments_strip_only_release_builds() {
    let root = "/t";
    let target = AndroidTarget::Aarch64LinuxAndroid;
    let strip = "-Clink-arg=-strip-all".to_string();
    assert!(linker_arguments(root, &target, 21, false, Profile::Release).contains(&strip));
    assert!(!linker_arguments(root, &target, 21, true, Profile::Release).contains(&strip));
    assert!(!linker_arguments(root, &target, 21, false, Profile::Debug).contains(&strip));
    assert!(!linker_arguments(root, &target, 21, true, Profile::Debug).contains(&strip));
    assert_eq!(
        linker_arguments(root, &target, 21, false, Profile::Debug),
        strings(&[
            "-Clinker=/t/bin/aarch64-linux-android-ld.gold",
            "-Clinker-flavor=ld",
            "-Clink-arg=--sysroot=/t/sysroot",
            "-Clink-arg=-L/t/sysroot/usr/lib/aarch64-linux-android/21",
            "-Clink-arg=-L/t/sysroot/usr/lib/aarch64-linux-android",
            "-Clink-arg=-L/t/lib/gcc/aarch64-linux-android/4.9.x",
            "-Crelocation-model=pic",
        ])
    );
}

#[test]
fn linker_paths_are_located_below_the_toolchain() {
    let paths = LinkerPaths::locate("/t", &AndroidTarget::X8664LinuxAndroid, 4294967295);
    assert_eq!(paths.linker, "/t/bin/x86_64-linux-android-ld.gold");
    assert_eq!(paths.sysroot, "/t/sysroot");
    assert_eq!(
        paths.version_specific_libraries,
        "/t/sysroot/usr/lib/x86_64-linux-android/4294967295"
    );
    assert_eq!(
        paths.version_independent_libraries,
        "/t/sysroot/usr/lib/x86_64-linux-android"
    );
    assert_eq!(paths.gcc_lib, "/t/lib/gcc/x86_64-linux-android/4.9.x");
    let zero = LinkerPaths::locate("/t", &AndroidTarget::I686LinuxAndroid, 0);
    assert_eq!(
        zero.version_specific_libraries,
        "/t/sysroot/usr/lib/i686-linux-android/0"
    );
}

#[test]
fn get_cmd_args_appends_the_linker_configuration() {
    let cmd = rustc(&[
        "src/main.rs",
        "--crate-type",
        "bin",
        "-Clink-arg=-lfoo",
        "--out-dir",
        "/orig",
    ]);
    let out = get_cmd_args(
        "/work/game/src/main.rs",
        "gen.rs",
        "/build",
        "game",
        &cmd,
        "/t",
        &AndroidTarget::Aarch64LinuxAndroid,
        29,
        false,
        Profile::Release,
    )
    .unwrap();
    assert_eq!(
        out.args,
        strings(&[
            "src/gen.rs",
            "--crate-type",
            "cdylib",
            "-Clink-arg=-lfoo",
            "--out-dir",
            "/build",
            "-Clinker=/t/bin/aarch64-linux-android-ld.gold",
            "-Clinker-flavor=ld",
            "-Clink-arg=--sysroot=/t/sysroot",
            "-Clink-arg=-L/t/sysroot/usr/lib/aarch64-linux-android/29",
            "-Clink-arg=-L/t/sysroot/usr/lib/aarch64-linux-android",
            "-Clink-arg=-L/t/lib/gcc/aarch64-linux-android/4.9.x",
            "-Clink-arg=-strip-all",
            "-Crelocation-model=pic",
        ])
    );
    let err = get_cmd_args(
        "other.rs",
        "gen.rs",
        "/build",
        "game",
        &cmd,
        "/t",
        &AndroidTarget::Aarch64LinuxAndroid,
        29,
        false,
        Profile::Release,
    )
    .unwrap_err();
    assert_eq!(
        err,
        ExecutorError::SourceArgumentNotFound {
            target: "game".to_string()
        }
    );
}

#[test]
fn test_mode_is_refused_for_a_binary() {
    let cmd = rustc(&["src/main.rs", "--crate-type", "bin", "--test"]);
    let target = bin_target("game", "/work/game/src/main.rs");
    let err = exec_compilation(&cmd, &target, CompileMode::Test).unwrap_err();
    assert_eq!(
        err,
        ExecutorError::TestModeUnsupported {
            target: "game".to_string()
        }
    );
    assert_eq!(err.to_string(), "Ignoring CompileMode::Test for target: game");
}

#[test]
fn test_mode_is_refused_for_every_kind() {
    let cmd = rustc(&["src/main.rs"]);
    for kind in ALL_KINDS {
        let target = CompileTarget {
            name: "unit".to_string(),
            kind,
            src_path: TargetSourcePath::Path("src/main.rs".to_string()),
        };
        assert!(exec_compilation(&cmd, &target, CompileMode::Test).is_err());
    }
}

#[test]
fn build_of_an_executable_is_prepared() {
    let cmd = rustc(&["src/main.rs", "--crate-type", "bin"]);
    for kind in [TargetKind::Bin, TargetKind::ExampleBin] {
        let target = CompileTarget {
            name: "game".to_string(),
            kind,
            src_path: TargetSourcePath::Path("/work/game/src/main.rs".to_string()),
        };
        assert_eq!(
            exec_compilation(&cmd, &target, CompileMode::Build),
            Ok(ExecStep::Prepare {
                source: "/work/game/src/main.rs".to_string(),
            })
        );
    }
}

#[test]
fn build_of_an_executable_without_source_file_is_skipped() {
    let cmd = rustc(&["src/main.rs"]);
    let target = CompileTarget {
        name: "game".to_string(),
        kind: TargetKind::Bin,
        src_path: TargetSourcePath::Metabuild,
    };
    assert_eq!(
        exec_compilation(&cmd, &target, CompileMode::Build),
        Ok(ExecStep::Skip)
    );
    let executor = DefaultExecutor::new("/build");
    assert_eq!(
        executor.exec(&cmd, &target, CompileMode::Build),
        Ok(ExecStep::Skip)
    );
}

#[test]
fn build_of_a_library_is_demoted() {
    let cmd = rustc(&["src/lib.rs", "--crate-type", "cdylib", "--out-dir", "/orig"]);
    for kind in [
        TargetKind::Lib,
        TargetKind::Test,
        TargetKind::Bench,
        TargetKind::ExampleLib,
        TargetKind::CustomBuild,
    ] {
        let target = CompileTarget {
            name: "dep".to_string(),
            kind,
            src_path: TargetSourcePath::Path("src/lib.rs".to_string()),
        };
        let step = exec_compilation(&cmd, &target, CompileMode::Build).unwrap();
        let expected = rustc(&["src/lib.rs", "--crate-type", "rlib", "--out-dir", "/orig"]);
        assert_eq!(step, ExecStep::Run(expected));
    }
}

#[test]
fn other_modes_pass_through() {
    let cmd = rustc(&["src/main.rs", "--crate-type", "cdylib", "--out-dir", "/orig"]);
    for mode in ALL_MODES {
        if mode == CompileMode::Build || mode == CompileMode::Test {
            continue;
        }
        for kind in ALL_KINDS {
            let target = CompileTarget {
                name: "unit".to_string(),
                kind,
                src_path: TargetSourcePath::Path("src/main.rs".to_string()),
            };
            assert_eq!(
                exec_compilation(&cmd, &target, mode),
                Ok(ExecStep::Run(rustc(&[
                    "src/main.rs",
                    "--crate-type",
                    "cdylib",
                    "--out-dir",
                    "/orig"
                ])))
            );
        }
    }
}

#[test]
fn default_executor_packages_executables_and_passes_the_rest() {
    let executor = DefaultExecutor::new("/build");
    assert_eq!(executor.build_target_dir(), "/build");
    let cmd = rustc(&["examples/demo.rs", "--crate-type", "cdylib"]);
    for mode in ALL_MODES {
        for kind in ALL_KINDS {
            let target = CompileTarget {
                name: "demo".to_string(),
                kind,
                src_path: TargetSourcePath::Path("/work/game/examples/demo.rs".to_string()),
            };
            let decision = executor.exec(&cmd, &target, mode);
            let executable = kind == TargetKind::Bin || kind == TargetKind::ExampleBin;
            if mode == CompileMode::Build && executable {
                assert_eq!(
                    decision,
                    Ok(ExecStep::Prepare {
                        source: "/work/game/examples/demo.rs".to_string(),
                    })
                );
            } else if mode == CompileMode::Test && executable {
                assert_eq!(
                    decision,
                    Err(ExecutorError::TestModeUnsupported {
                        target: "demo".to_string()
                    })
                );
            } else {
                assert_eq!(
                    decision,
                    Ok(ExecStep::Run(rustc(&[
                        "examples/demo.rs",
                        "--crate-type",
                        "cdylib"
                    ])))
                );
            }
        }
    }
}

#[test]
fn default_executor_runs_the_tests_of_other_units_as_they_came() {
    let executor = DefaultExecutor::new("/build");
    let cmd = rustc(&["src/lib.rs", "--crate-type", "lib", "--test"]);
    for kind in [
        TargetKind::Lib,
        TargetKind::Test,
        TargetKind::Bench,
        TargetKind::ExampleLib,
        TargetKind::CustomBuild,
    ] {
        for src_path in [
            TargetSourcePath::Path("src/lib.rs".to_string()),
            TargetSourcePath::Metabuild,
        ] {
            let target = CompileTarget {
                name: "dep".to_string(),
                kind,
                src_path,
            };
            assert_eq!(
                executor.exec(&cmd, &target, CompileMode::Test),
                Ok(ExecStep::Run(rustc(&[
                    "src/lib.rs",
                    "--crate-type",
                    "lib",
                    "--test"
                ])))
            );
        }
    }
}

#[test]
fn default_executor_refuses_a_test_build_of_a_binary() {
    let executor = DefaultExecutor::new("/build");
    let cmd = rustc(&["src/main.rs", "--crate-type", "bin", "--test"]);
    let target = bin_target("game", "/work/game/src/main.rs");
    let err = executor.exec(&cmd, &target, CompileMode::Test).unwrap_err();
    assert_eq!(
        err,
        ExecutorError::TestModeUnsupported {
            target: "game".to_string()
        }
    );
    assert_eq!(err.to_string(), "Ignoring CompileMode::Test for target: game");
}

#[test]
fn default_executor_generates_the_source_of_an_example_from_the_example() {
    let executor = DefaultExecutor::new("/build");
    let cmd = rustc(&["examples/demo/main.rs", "--crate-type", "bin"]);
    let target = CompileTarget {
        name: "demo".to_string(),
        kind: TargetKind::ExampleBin,
        src_path: TargetSourcePath::Path("/work/game/examples/demo/main.rs".to_string()),
    };
    assert_eq!(
        executor.exec(&cmd, &target, CompileMode::Build),
        Ok(ExecStep::Prepare {
            source: "/work/game/examples/demo/main.rs".to_string(),
        })
    );
}

#[test]
fn the_executors_differ_on_units_that_make_no_executable() {
    let default = DefaultExecutor::new("/build");
    let shared = SharedLibraryExecutor {
        tool_root: "/t".to_string(),
        platform: 30,
        build_target_dir: "/build".to_string(),
        build_target: AndroidTarget::Aarch64LinuxAndroid,
        profile: Profile::Debug,
        nostrip: false,
    };
    let cmd = rustc(&["src/lib.rs", "--crate-type", "cdylib"]);
    for mode in ALL_MODES {
        for kind in ALL_KINDS {
            for src_path in [
                TargetSourcePath::Path("src/lib.rs".to_string()),
                TargetSourcePath::Metabuild,
            ] {
                let target = CompileTarget {
                    name: "unit".to_string(),
                    kind,
                    src_path,
                };
                let executable = kind == TargetKind::Bin || kind == TargetKind::ExampleBin;
                let a = default.exec(&cmd, &target, mode);
                let b = shared.exec(&cmd, &target, mode);
                let as_it_came = Ok(ExecStep::Run(rustc(&[
                    "src/lib.rs",
                    "--crate-type",
                    "cdylib",
                ])));
                if mode == CompileMode::Build && !executable {
                    assert_eq!(a, as_it_came);
                    assert_eq!(
                        b,
                        Ok(ExecStep::Run(rustc(&["src/lib.rs", "--crate-type", "rlib"])))
                    );
                } else if mode == CompileMode::Test && !executable {
                    assert_eq!(a, as_it_came);
                    assert_eq!(
                        b,
                        Err(ExecutorError::TestModeUnsupported {
                            target: "unit".to_string()
                        })
                    );
                } else {
                    assert_eq!(a, b);
                }
            }
        }
    }
}

#[test]
fn default_executor_rewrites_without_linker_arguments() {
    let executor = DefaultExecutor::new("/build");
    let cmd = rustc(&["src/main.rs", "--crate-type", "bin", "--out-dir", "/orig"]);
    let out = executor
        .rewrite(&cmd, "game", "/work/game/src/main.rs", "gen.rs")
        .unwrap();
    assert_eq!(
        out.args,
        strings(&["src/gen.rs", "--crate-type", "cdylib", "--out-dir", "/build"])
    );
    assert!(executor.rewrite(&cmd, "game", "lib.rs", "gen.rs").is_err());
}

#[test]
fn shared_library_executor_decides_and_rewrites() {
    let executor = SharedLibraryExecutor {
        tool_root: "/t".to_string(),
        platform: 30,
        build_target_dir: "/build".to_string(),
        build_target: AndroidTarget::I686LinuxAndroid,
        profile: Profile::Debug,
        nostrip: false,
    };
    let cmd = rustc(&["src/main.rs", "--crate-type", "bin", "--out-dir", "/orig"]);
    let target = bin_target("game", "/work/game/src/main.rs");
    assert_eq!(
        executor.exec(&cmd, &target, CompileMode::Build),
        Ok(ExecStep::Prepare {
            source: "/work/game/src/main.rs".to_string(),
        })
    );
    assert!(executor.exec(&cmd, &target, CompileMode::Test).is_err());
    let out = executor
        .rewrite(&cmd, "game", "/work/game/src/main.rs", "gen.rs")
        .unwrap();
    assert_eq!(
        out.args,
        strings(&[
            "src/gen.rs",
            "--crate-type",
            "cdylib",
            "--out-dir",
            "/build",
            "-Clinker=/t/bin/i686-linux-android-ld.gold",
            "-Clinker-flavor=ld",
            "-Clink-arg=--sysroot=/t/sysroot",
            "-Clink-arg=-L/t/sysroot/usr/lib/i686-linux-android/30",
            "-Clink-arg=-L/t/sysroot/usr/lib/i686-linux-android",
            "-Clink-arg=-L/t/lib/gcc/i686-linux-android/4.9.x",
            "-Crelocation-model=pic",
        ])
    );
}

#[test]
fn generated_source_carries_the_glue_behind_the_source() {
    assert_eq!(
        generate_lib_file("fn main() {}", "// glue"),
        "fn main() {}\n// glue\n"
    );
    assert_eq!(generate_lib_file("", ""), "\n\n");
    assert_eq!(
        generate_lib_file("fn main() {}\n", "line one\nline two"),
        "fn main() {}\n\nline one\nline two\n"
    );
}

#[test]
fn rewritten_commands_send_their_output_to_the_build_directory() {
    for args in [
        vec!["--out-dir", "/orig", "src/main.rs"],
        vec!["src/main.rs", "--out-dir", "/orig"],
        vec!["src/main.rs", "--out-dir", "--out-dir", "/orig"],
        vec!["src/main.rs", "--crate-type", "--out-dir", "bin"],
        vec!["src/main.rs", "--out-dir", "/a", "--out-dir", "/b"],
    ] {
        let cmd = rustc(&args);
        assert!(cmd.value_of("--out-dir").is_some());
        let out = package_command("src/main.rs", "gen.rs", "/build", "game", &cmd).unwrap();
        assert_eq!(out.value_of("--out-dir"), Some("/build".to_string()));
    }
}

#[test]
fn rewritten_commands_build_a_shared_library() {
    for args in [
        vec!["--crate-type", "bin", "src/main.rs"],
        vec!["src/main.rs", "-g", "--crate-type", "bin", "--crate-type", "lib"],
        vec!["src/main.rs", "--out-dir", "/orig", "--crate-type", "bin"],
    ] {
        let cmd = rustc(&args);
        assert_eq!(cmd.value_of("--crate-type"), Some("bin".to_string()));
        let out = package_command("src/main.rs", "gen.rs", "/build", "game", &cmd).unwrap();
        assert_eq!(out.value_of("--crate-type"), Some("cdylib".to_string()));
    }
    let odd = rustc(&["src/main.rs", "--out-dir", "--crate-type", "bin"]);
    let out = package_command("src/main.rs", "gen.rs", "/build", "game", &odd).unwrap();
    assert_eq!(out.value_of("--crate-type"), None);
    assert_eq!(
        out.args,
        strings(&["src/gen.rs", "--out-dir", "/build", "cdylib"])
    );
}
