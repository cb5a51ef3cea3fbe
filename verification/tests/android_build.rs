use crossbundle::android_build::{
    android_pipeline_steps, compiled_lib_path, AndroidBuildCommand, AndroidStage, AndroidStep,
    KeySource, PackageKind,
};
use crossbundle::context::{
    AndroidConfig, AndroidMetadata, AppleConfig, BuildContext, CrossbowMetadata, Manifest,
    Metadata, Package, SharedBuildCommand,
};
use crossbundle::error::Error;
use crossbundle::pipeline::{Failure, StageOutcome};
use crossbundle::types::{AndroidTarget, Profile, Target};

fn shared(example: Option<&str>, release: bool) -> SharedBuildCommand {
    SharedBuildCommand {
        example: example.map(|s| s.to_string()),
        features: vec![],
        all_features: false,
        no_default_features: false,
        release,
        target_dir: None,
    }
}

fn config() -> CrossbowMetadata {
    CrossbowMetadata {
        app_name: None,
        assets: None,
        icon: None,
        android: AndroidConfig { assets: None },
        apple: AppleConfig {
            assets: None,
            resources: vec![],
            info_plist_path: None,
            has_info_plist: false,
            debug_build_targets: vec![],
            release_build_targets: vec![],
        },
    }
}

fn context(package: Option<Package>) -> BuildContext {
    BuildContext {
        project_path: "/work/game".to_string(),
        target_dir: "/work/game/target".to_string(),
        manifest: Manifest { package },
        config: config(),
    }
}

fn metadata(build_targets: Option<Vec<AndroidTarget>>) -> AndroidMetadata {
    AndroidMetadata {
        build_targets,
        resources: Some("res".to_string()),
        assets: None,
    }
}

fn package(build_targets: Option<Vec<AndroidTarget>>) -> Package {
    Package {
        name: "my-game".to_string(),
        metadata: Some(Metadata {
            android: metadata(build_targets),
            apple: None,
        }),
    }
}

fn command(target: Vec<AndroidTarget>, release: bool) -> AndroidBuildCommand {
    AndroidBuildCommand {
        shared: shared(None, release),
        target,
        sign_key_path: None,
        sign_key_pass: None,
    }
}

fn step(stage: AndroidStage) -> AndroidStep {
    AndroidStep {
        stage,
        build_target: None,
    }
}

fn step_for(stage: AndroidStage, target: AndroidTarget) -> AndroidStep {
    AndroidStep {
        stage,
        build_target: Some(target),
    }
}

#[test]
fn plan_of_a_debug_build() {
    let cmd = command(vec![AndroidTarget::Aarch64LinuxAndroid], false);
    let build = cmd.execute(&context(Some(package(None)))).unwrap();
    assert_eq!(build.package_name, "my-game");
    assert_eq!(build.metadata, metadata(None));
    assert_eq!(build.profile, Profile::Debug);
    assert_eq!(build.target, Target::Lib);
    assert_eq!(build.build_targets, vec![AndroidTarget::Aarch64LinuxAndroid]);
    assert_eq!(build.target_sdk_version, 30);
    assert_eq!(
        build.compiled_libs,
        vec!["/work/game/target/aarch64-linux-android/debug/libmy-game.so".to_string()]
    );
    assert_eq!(build.android_build_dir, "/work/game/target/android/debug");
    assert_eq!(build.target_dir, "/work/game/target");
    assert_eq!(
        build.manifest_path,
        "/work/game/target/android/debug/AndroidManifest.xml"
    );
    assert_eq!(
        build.unaligned_apk,
        "/work/game/target/android/debug/my-game-unaligned.apk"
    );
    assert_eq!(
        build.aligned_apk,
        "/work/game/target/android/debug/my-game.apk"
    );
    assert!(build.manifest.features.is_empty());
    assert!(build.manifest.intent_filters.is_empty());
    assert!(build.manifest.application_metadatas.is_empty());
    assert!(build.manifest.activity_metadatas.is_empty());
    assert_eq!(build.manifest.package_name, "rust.my_game");
    assert_eq!(build.manifest.package_label, "my-game");
    assert_eq!(build.manifest.version_name, "1.2.3");
    assert_eq!(build.manifest.version_code, 16843267);
    assert_eq!(build.manifest.target_name, "my_game");
    assert_eq!(build.manifest.target_sdk_version, 30);
    assert_eq!(build.manifest.min_sdk_version, 23);
    assert_eq!(build.manifest.opengles_version, (3, 1));
    assert_eq!(build.key, KeySource::DebugKey);
}

#[test]
fn plan_of_a_release_build_of_an_example() {
    let cmd = AndroidBuildCommand {
        shared: shared(Some("demo"), true),
        target: vec![
            AndroidTarget::Armv7LinuxAndroideabi,
            AndroidTarget::X8664LinuxAndroid,
        ],
        sign_key_path: Some("/keys/release.keystore".to_string()),
        sign_key_pass: Some("secret".to_string()),
    };
    let build = cmd
        .execute(&context(Some(package(Some(vec![
            AndroidTarget::I686LinuxAndroid,
        ])))))
        .unwrap();
    assert_eq!(build.profile, Profile::Release);
    assert_eq!(build.target, Target::Example("demo".to_string()));
    assert_eq!(
        build.build_targets,
        vec![
            AndroidTarget::Armv7LinuxAndroideabi,
            AndroidTarget::X8664LinuxAndroid
        ]
    );
    assert_eq!(
        build.compiled_libs,
        vec![
            "/work/game/target/armv7-linux-androideabi/release/libmy-game.so".to_string(),
            "/work/game/target/x86_64-linux-android/release/libmy-game.so".to_string(),
        ]
    );
    assert_eq!(build.android_build_dir, "/work/game/target/android/release");
    assert_eq!(
        build.key,
        KeySource::Provided {
            path: "/keys/release.keystore".to_string(),
            password: Some("secret".to_string()),
        }
    );
}

#[test]
fn architectures_come_from_the_metadata_where_the_command_names_none() {
    let cmd = command(vec![], false);
    let build = cmd
        .execute(&context(Some(package(Some(vec![
            AndroidTarget::I686LinuxAndroid,
            AndroidTarget::Aarch64LinuxAndroid,
        ])))))
        .unwrap();
    assert_eq!(
        build.build_targets,
        vec![
            AndroidTarget::I686LinuxAndroid,
            AndroidTarget::Aarch64LinuxAndroid
        ]
    );
}

#[test]
fn configuration_errors() {
    let cmd = command(vec![AndroidTarget::Aarch64LinuxAndroid], false);
    assert_eq!(cmd.execute(&context(None)), Err(Error::InvalidManifest));
    let bare = Package {
        name: "my-game".to_string(),
        metadata: None,
    };
    assert_eq!(
        cmd.execute(&context(Some(bare))),
        Err(Error::InvalidManifestMetadata)
    );
    let nothing = command(vec![], false);
    assert_eq!(
        nothing.execute(&context(Some(package(None)))),
        Err(Error::BuildTargetsNotProvided)
    );
    let release = command(vec![AndroidTarget::Aarch64LinuxAndroid], true);
    assert_eq!(
        release.execute(&context(Some(package(None)))),
        Err(Error::SigningKeyNotProvided)
    );
    assert_eq!(release.execute(&context(None)), Err(Error::InvalidManifest));
    let nothing_release = command(vec![], true);
    assert_eq!(
        nothing_release.execute(&context(Some(package(None)))),
        Err(Error::BuildTargetsNotProvided)
    );
    assert!(release.run(&context(Some(package(None)))).is_err());
}

#[test]
fn compiled_library_path() {
    assert_eq!(
        compiled_lib_path(
            "target",
            AndroidTarget::Aarch64LinuxAndroid,
            Profile::Debug,
            "game"
        ),
        "target/aarch64-linux-android/debug/libgame.so"
    );
}

#[test]
fn steps_of_a_package() {
    let a = AndroidTarget::Aarch64LinuxAndroid;
    let b = AndroidTarget::I686LinuxAndroid;
    assert_eq!(
        android_pipeline_steps(&[a, b], PackageKind::Apk),
        vec![
            step_for(AndroidStage::CompileNative, a),
            step_for(AndroidStage::CompileNative, b),
            step(AndroidStage::GenerateManifest),
            step(AndroidStage::CompileResources),
            step(AndroidStage::AssembleUnsigned),
            step_for(AndroidStage::InjectLibraries, a),
            step_for(AndroidStage::InjectLibraries, b),
            step(AndroidStage::Align),
            step(AndroidStage::ObtainKey),
            step(AndroidStage::Sign),
        ]
    );
}

#[test]
fn steps_of_a_bundle() {
    let a = AndroidTarget::Aarch64LinuxAndroid;
    assert_eq!(
        android_pipeline_steps(&[a], PackageKind::Bundle),
        vec![
            step_for(AndroidStage::CompileNative, a),
            step(AndroidStage::GenerateManifest),
            step(AndroidStage::CompileResources),
            step(AndroidStage::AssembleUnsigned),
            step_for(AndroidStage::InjectLibraries, a),
            step(AndroidStage::ZipModules),
            step(AndroidStage::AssembleBundle),
            step(AndroidStage::ObtainKey),
            step(AndroidStage::BuildApkSet),
        ]
    );
}

#[test]
fn aligning_comes_before_signing() {
    for targets in [
        vec![],
        vec![AndroidTarget::Aarch64LinuxAndroid],
        vec![
            AndroidTarget::Aarch64LinuxAndroid,
            AndroidTarget::X8664LinuxAndroid,
            AndroidTarget::I686LinuxAndroid,
        ],
    ] {
        let steps = android_pipeline_steps(&targets, PackageKind::Apk);
        let align = steps
            .iter()
            .position(|s| s.stage == AndroidStage::Align)
            .unwrap();
        let sign = steps
            .iter()
            .position(|s| s.stage == AndroidStage::Sign)
            .unwrap();
        assert!(align < sign);
        assert_eq!(sign, steps.len() - 1);
        assert_eq!(steps.len(), 2 * targets.len() + 6);
    }
}

#[test]
fn run_hands_out_the_stages_one_by_one() {
    let cmd = command(vec![AndroidTarget::Aarch64LinuxAndroid], false);
    let (build, mut pipeline) = cmd.run(&context(Some(package(None)))).unwrap();
    assert_eq!(build.package_name, "my-game");
    let mut seen = vec![];
    loop {
        match pipeline.current() {
            Some(step) => {
                seen.push(step.stage);
                pipeline.advance(StageOutcome::Succeeded);
            }
            None => break,
        }
    }
    assert!(pipeline.is_done());
    assert_eq!(
        seen,
        vec![
            AndroidStage::CompileNative,
            AndroidStage::GenerateManifest,
            AndroidStage::CompileResources,
            AndroidStage::AssembleUnsigned,
            AndroidStage::InjectLibraries,
            AndroidStage::Align,
            AndroidStage::ObtainKey,
            AndroidStage::Sign,
        ]
    );
}

#[test]
fn a_missing_library_aborts_the_assembly() {
    let cmd = command(vec![AndroidTarget::Aarch64LinuxAndroid], false);
    let (_, mut pipeline) = cmd.run(&context(Some(package(None)))).unwrap();
    pipeline.advance(StageOutcome::OutputMissing);
    assert_eq!(pipeline.current(), None);
    assert!(!pipeline.is_done());
    assert_eq!(
        pipeline.failure(),
        Some((
            Failure::OutputMissing,
            step_for(
                AndroidStage::CompileNative,
                AndroidTarget::Aarch64LinuxAndroid
            )
        ))
    );
}

#[test]
fn every_stage_names_the_file_it_leaves() {
    let a = AndroidTarget::Aarch64LinuxAndroid;
    let b = AndroidTarget::I686LinuxAndroid;
    let cmd = command(vec![a, b], false);
    let build = cmd.execute(&context(Some(package(None)))).unwrap();
    let dir = "/work/game/target/android/debug";
    let some = |text: String| Some(text);
    assert_eq!(
        build.expected_output(step_for(AndroidStage::CompileNative, a)),
        some("/work/game/target/aarch64-linux-android/debug/libmy-game.so".to_string())
    );
    assert_eq!(
        build.expected_output(step_for(AndroidStage::CompileNative, b)),
        some("/work/game/target/i686-linux-android/debug/libmy-game.so".to_string())
    );
    assert_eq!(build.expected_output(step(AndroidStage::CompileNative)), None);
    assert_eq!(
        build.expected_output(step(AndroidStage::GenerateManifest)),
        some(format!("{}/AndroidManifest.xml", dir))
    );
    assert_eq!(build.expected_output(step(AndroidStage::CompileResources)), None);
    assert_eq!(
        build.expected_output(step(AndroidStage::AssembleUnsigned)),
        some(format!("{}/my-game-unaligned.apk", dir))
    );
    assert_eq!(
        build.expected_output(step_for(AndroidStage::InjectLibraries, b)),
        some(format!("{}/my-game-unaligned.apk", dir))
    );
    assert_eq!(
        build.expected_output(step(AndroidStage::Align)),
        some(format!("{}/my-game.apk", dir))
    );
    assert_eq!(
        build.expected_output(step(AndroidStage::Sign)),
        build.expected_output(step(AndroidStage::Align))
    );
    assert_eq!(build.expected_output(step(AndroidStage::ObtainKey)), None);
    assert_eq!(
        build.expected_output(step(AndroidStage::ZipModules)),
        some(format!("{}/my-game_module.zip", dir))
    );
    assert_eq!(
        build.expected_output(step(AndroidStage::AssembleBundle)),
        some(format!("{}/my-game.aab", dir))
    );
    assert_eq!(
        build.expected_output(step(AndroidStage::BuildApkSet)),
        some(format!("{}/my-game.apks", dir))
    );
    let mut signed = command(vec![a], true);
    signed.sign_key_path = Some("/keys/release.keystore".to_string());
    let build = signed.execute(&context(Some(package(None)))).unwrap();
    assert_eq!(
        build.expected_output(step(AndroidStage::ObtainKey)),
        some("/keys/release.keystore".to_string())
    );
    assert_eq!(
        build.expected_output(step(AndroidStage::Sign)),
        some("/work/game/target/android/release/my-game.apk".to_string())
    );
}

#[test]
fn every_stage_of_a_run_comes_with_its_file_in_order() {
    let a = AndroidTarget::Aarch64LinuxAndroid;
    let b = AndroidTarget::X8664LinuxAndroid;
    let cmd = command(vec![a, b], false);
    let (build, mut pipeline) = cmd.run(&context(Some(package(None)))).unwrap();
    let mut seen = vec![];
    while let Some(step) = pipeline.current() {
        seen.push((step.stage, step.build_target, build.expected_output(step)));
        pipeline.advance(StageOutcome::Succeeded);
    }
    let dir = "/work/game/target/android/debug";
    assert_eq!(seen.len(), 10);
    assert_eq!(seen[0].0, AndroidStage::CompileNative);
    assert_eq!(seen[0].1, Some(a));
    assert_eq!(seen[1].0, AndroidStage::CompileNative);
    assert_eq!(seen[1].1, Some(b));
    assert_eq!(seen[2].0, AndroidStage::GenerateManifest);
    assert_eq!(seen[5].0, AndroidStage::InjectLibraries);
    assert_eq!(seen[5].1, Some(a));
    assert_eq!(seen[6].1, Some(b));
    assert_eq!(seen[7].0, AndroidStage::Align);
    assert_eq!(seen[7].2, Some(format!("{}/my-game.apk", dir)));
    assert_eq!(seen[9].0, AndroidStage::Sign);
    assert_eq!(seen[9].2, seen[7].2);
}
