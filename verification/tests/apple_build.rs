use crossbundle::apple_build::{
    apple_pipeline_steps, build_app, AppleApp, AppleBuildCommand, AppleStage, AppleStep,
    InfoPlistPlan, IosBuildCommand, IosStrategy, Signing,
};
use crossbundle::context::{
    AndroidConfig, AndroidMetadata, AppleConfig, AppleMetadata, BuildContext, CrossbowMetadata,
    InfoPlist, Manifest, Metadata, Package, SharedBuildCommand,
};
use crossbundle::error::Error;
use crossbundle::pipeline::StageOutcome;
use crossbundle::types::{AppleTarget, IosTarget, Profile, Target};

fn shared(example: Option<&str>, release: bool) -> SharedBuildCommand {
    SharedBuildCommand {
        example: example.map(|s| s.to_string()),
        features: vec![],
        all_features: false,
        no_default_features: false,
        release,
        target_dir: None,
    }
}

fn config() -> CrossbowMetadata {
    CrossbowMetadata {
        app_name: Some("Game".to_string()),
        assets: Some("assets".to_string()),
        icon: None,
        android: AndroidConfig { assets: None },
        apple: AppleConfig {
            assets: None,
            resources: vec![],
            info_plist_path: None,
            has_info_plist: false,
            debug_build_targets: vec![],
            release_build_targets: vec![],
        },
    }
}

fn apple_metadata(build_targets: Option<Vec<AppleTarget>>) -> AppleMetadata {
    AppleMetadata {
        info_plist: InfoPlist {
            bundle_identifier: "com.example.game".to_string(),
        },
        build_targets,
        resources: None,
        assets: Some("assets".to_string()),
    }
}

fn package(apple: Option<AppleMetadata>) -> Package {
    Package {
        name: "my-game".to_string(),
        metadata: Some(Metadata {
            android: AndroidMetadata {
                build_targets: None,
                resources: None,
                assets: None,
            },
            apple,
        }),
    }
}

fn context(package: Option<Package>, config: CrossbowMetadata) -> BuildContext {
    BuildContext {
        project_path: "/work/game".to_string(),
        target_dir: "/work/game/target".to_string(),
        manifest: Manifest { package },
        config,
    }
}

fn apple_command(target: Vec<AppleTarget>) -> AppleBuildCommand {
    AppleBuildCommand {
        shared: shared(None, false),
        bin: None,
        target,
        profile_name: None,
        profile_path: None,
        team_identifier: None,
        identity: None,
    }
}

fn ios_command(target: Vec<IosTarget>) -> IosBuildCommand {
    IosBuildCommand {
        shared: shared(None, false),
        bin: None,
        target,
        strategy: IosStrategy::NativeIpa,
        profile_name: None,
        profile_path: None,
        team_identifier: None,
        identity: None,
    }
}

fn stages(steps: &[AppleStep]) -> Vec<AppleStage> {
    steps.iter().map(|s| s.stage).collect()
}

const SIGNING_STAGES: [AppleStage; 4] = [
    AppleStage::CopyProfile,
    AppleStage::GenerateXcent,
    AppleStage::SignBinary,
    AppleStage::SignBundle,
];

#[test]
fn an_unsigned_build_skips_all_signing_stages() {
    let cmd = apple_command(vec![AppleTarget::Aarch64, AppleTarget::X86_64]);
    let ctx = context(Some(package(Some(apple_metadata(None)))), config());
    let (build, mut pipeline) = cmd.run(&ctx).unwrap();
    assert_eq!(build.signing, None);
    let mut seen = vec![];
    while let Some(step) = pipeline.current() {
        assert!(!SIGNING_STAGES.contains(&step.stage));
        seen.push(step);
        pipeline.advance(StageOutcome::Succeeded);
    }
    assert!(pipeline.is_done());
    assert_eq!(pipeline.failure(), None);
    assert_eq!(
        stages(&seen),
        vec![
            AppleStage::Compile,
            AppleStage::GenerateAppFolder,
            AppleStage::CopyBinary,
            AppleStage::GenerateInfoPlist,
            AppleStage::GenerateIpa,
            AppleStage::Compile,
            AppleStage::GenerateAppFolder,
            AppleStage::CopyBinary,
            AppleStage::GenerateInfoPlist,
            AppleStage::GenerateIpa,
        ]
    );
    assert!(seen[..5]
        .iter()
        .all(|s| s.build_target == AppleTarget::Aarch64));
    assert!(seen[5..]
        .iter()
        .all(|s| s.build_target == AppleTarget::X86_64));
}

#[test]
fn an_unsigned_ios_build_skips_all_signing_stages() {
    let cmd = ios_command(vec![]);
    let ctx = context(Some(package(None)), config());
    let (build, mut pipeline) = cmd.run(&ctx).unwrap();
    assert_eq!(build.signing, None);
    let mut seen = vec![];
    while let Some(step) = pipeline.current() {
        assert!(!SIGNING_STAGES.contains(&step.stage));
        assert_eq!(step.build_target, AppleTarget::Aarch64Sim);
        seen.push(step.stage);
        pipeline.advance(StageOutcome::Succeeded);
    }
    assert!(pipeline.is_done());
    assert_eq!(
        seen,
        vec![
            AppleStage::Compile,
            AppleStage::PrepareResources,
            AppleStage::GenerateAppFolder,
            AppleStage::CopyBinary,
            AppleStage::GenerateInfoPlist,
            AppleStage::GenerateIpa,
        ]
    );
}

#[test]
fn a_signed_build_signs_the_binary_before_the_bundle() {
    let mut cmd = apple_command(vec![AppleTarget::Aarch64]);
    cmd.identity = Some("Apple Development: me".to_string());
    cmd.team_identifier = Some("TEAM123".to_string());
    cmd.profile_name = Some("dev".to_string());
    let ctx = context(Some(package(Some(apple_metadata(None)))), config());
    let (build, pipeline) = cmd.run(&ctx).unwrap();
    assert_eq!(
        build.signing,
        Some(Signing {
            identity: "Apple Development: me".to_string(),
            team_identifier: "TEAM123".to_string(),
            profile_name: Some("dev".to_string()),
            profile_path: None,
        })
    );
    assert_eq!(
        pipeline.current(),
        Some(AppleStep {
            stage: AppleStage::Compile,
            build_target: AppleTarget::Aarch64
        })
    );
    let steps = apple_pipeline_steps(&[AppleTarget::Aarch64], true, false);
    assert_eq!(
        stages(&steps),
        vec![
            AppleStage::Compile,
            AppleStage::GenerateAppFolder,
            AppleStage::CopyBinary,
            AppleStage::GenerateInfoPlist,
            AppleStage::CopyProfile,
            AppleStage::GenerateXcent,
            AppleStage::SignBinary,
            AppleStage::SignBundle,
            AppleStage::GenerateIpa,
        ]
    );
    let ios = apple_pipeline_steps(&[AppleTarget::Aarch64], true, true);
    assert_eq!(
        stages(&ios),
        vec![
            AppleStage::Compile,
            AppleStage::PrepareResources,
            AppleStage::GenerateAppFolder,
            AppleStage::CopyBinary,
            AppleStage::GenerateInfoPlist,
            AppleStage::CopyProfile,
            AppleStage::GenerateXcent,
            AppleStage::SignBinary,
            AppleStage::SignBundle,
            AppleStage::GenerateIpa,
        ]
    );
    assert!(apple_pipeline_steps(&[], true, true).is_empty());
}

#[test]
fn plan_of_an_apple_build() {
    let cmd = apple_command(vec![AppleTarget::Aarch64]);
    let ctx = context(
        Some(package(Some(apple_metadata(Some(vec![AppleTarget::I386]))))),
        config(),
    );
    let build = cmd.execute(&ctx).unwrap();
    assert_eq!(build.metadata, apple_metadata(Some(vec![AppleTarget::I386])));
    assert_eq!(build.name, "my-game");
    assert_eq!(build.target, Target::Bin("my-game".to_string()));
    assert_eq!(build.profile, Profile::Debug);
    assert_eq!(build.build_targets, vec![AppleTarget::Aarch64]);
    assert_eq!(
        build.apps,
        vec![AppleApp {
            build_target: AppleTarget::Aarch64,
            bin_path: "/work/game/target/aarch64-apple-ios/debug/my-game".to_string(),
            app_dir: "/work/game/target/apple/debug".to_string(),
            steps: apple_pipeline_steps(&[AppleTarget::Aarch64], false, false),
        }]
    );
    assert_eq!(build.signing, None);
}

#[test]
fn product_selection() {
    let ctx = context(Some(package(Some(apple_metadata(None)))), config());
    let mut cmd = apple_command(vec![AppleTarget::Aarch64]);
    cmd.bin = Some("tool".to_string());
    let build = cmd.execute(&ctx).unwrap();
    assert_eq!(build.target, Target::Bin("tool".to_string()));
    assert_eq!(build.name, "tool");
    cmd.shared = shared(Some("demo"), true);
    let build = cmd.execute(&ctx).unwrap();
    assert_eq!(build.target, Target::Example("demo".to_string()));
    assert_eq!(build.name, "demo");
    assert_eq!(build.profile, Profile::Release);
    assert_eq!(
        build.apps[0].bin_path,
        "/work/game/target/aarch64-apple-ios/release/demo"
    );
}

#[test]
fn apple_configuration_errors() {
    let cmd = apple_command(vec![AppleTarget::Aarch64]);
    assert_eq!(
        cmd.execute(&context(None, config())),
        Err(Error::InvalidManifest)
    );
    let bare = Package {
        name: "my-game".to_string(),
        metadata: None,
    };
    assert_eq!(
        cmd.execute(&context(Some(bare), config())),
        Err(Error::InvalidManifestMetadata)
    );
    assert_eq!(
        cmd.execute(&context(Some(package(None)), config())),
        Err(Error::InvalidManifestMetadata)
    );
    let nothing = apple_command(vec![]);
    assert_eq!(
        nothing.execute(&context(Some(package(Some(apple_metadata(None)))), config())),
        Err(Error::BuildTargetsNotProvided)
    );
    let mut unsigned_team = apple_command(vec![AppleTarget::Aarch64]);
    unsigned_team.identity = Some("me".to_string());
    assert_eq!(
        unsigned_team.execute(&context(Some(package(Some(apple_metadata(None)))), config())),
        Err(Error::TeamIdentifierNotProvided)
    );
    assert!(unsigned_team
        .run(&context(Some(package(Some(apple_metadata(None)))), config()))
        .is_err());
}

#[test]
fn nothing_to_build_nothing_to_sign() {
    let mut cmd = apple_command(vec![]);
    cmd.identity = Some("me".to_string());
    let ctx = context(
        Some(package(Some(apple_metadata(Some(vec![]))))),
        config(),
    );
    let (build, pipeline) = cmd.run(&ctx).unwrap();
    assert!(build.apps.is_empty());
    assert_eq!(build.signing, None);
    assert!(pipeline.is_done());
}

#[test]
fn ios_build_targets() {
    let mut cfg = config();
    cfg.apple.debug_build_targets = vec![AppleTarget::X86_64];
    cfg.apple.release_build_targets = vec![AppleTarget::Aarch64, AppleTarget::Armv7];
    let ctx = context(Some(package(None)), cfg);
    assert_eq!(
        IosBuildCommand::apple_build_targets(&ctx, Profile::Debug, &vec![AppleTarget::I386]),
        vec![AppleTarget::I386]
    );
    assert_eq!(
        IosBuildCommand::apple_build_targets(&ctx, Profile::Debug, &vec![]),
        vec![AppleTarget::X86_64]
    );
    assert_eq!(
        IosBuildCommand::apple_build_targets(&ctx, Profile::Release, &vec![]),
        vec![AppleTarget::Aarch64, AppleTarget::Armv7]
    );
    let empty = context(Some(package(None)), config());
    assert_eq!(
        IosBuildCommand::apple_build_targets(&empty, Profile::Debug, &vec![]),
        vec![AppleTarget::Aarch64Sim]
    );
    assert_eq!(
        IosBuildCommand::apple_build_targets(&empty, Profile::Release, &vec![]),
        vec![AppleTarget::Aarch64Sim]
    );
    let mut debug_only = config();
    debug_only.apple.debug_build_targets = vec![AppleTarget::X86_64];
    let ctx = context(Some(package(None)), debug_only);
    assert_eq!(
        IosBuildCommand::apple_build_targets(&ctx, Profile::Release, &vec![]),
        vec![AppleTarget::Aarch64Sim]
    );
}

#[test]
fn property_list_plan() {
    let ctx = context(Some(package(None)), config());
    assert_eq!(
        IosBuildCommand::gen_info_plist(&ctx, "my-game"),
        InfoPlistPlan::Generate {
            from_config: false,
            package_name: "my-game".to_string(),
            app_name: Some("Game".to_string()),
        }
    );
    let mut cfg = config();
    cfg.apple.has_info_plist = true;
    cfg.app_name = None;
    let ctx = context(Some(package(None)), cfg);
    assert_eq!(
        IosBuildCommand::gen_info_plist(&ctx, "g"),
        InfoPlistPlan::Generate {
            from_config: true,
            package_name: "g".to_string(),
            app_name: None,
        }
    );
    let mut cfg = config();
    cfg.apple.has_info_plist = true;
    cfg.apple.info_plist_path = Some("ios/Info.plist".to_string());
    let ctx = context(Some(package(None)), cfg);
    assert_eq!(
        IosBuildCommand::gen_info_plist(&ctx, "g"),
        InfoPlistPlan::Read {
            path: "ios/Info.plist".to_string()
        }
    );
}

#[test]
fn generated_directories() {
    let cfg = config();
    assert_eq!(
        IosBuildCommand::prepare_assets_and_resources(&cfg, "/out"),
        (None, None)
    );
    let mut icon = config();
    icon.icon = Some("icon.png".to_string());
    assert_eq!(
        IosBuildCommand::prepare_assets_and_resources(&icon, "/out"),
        (None, Some("/out/gen_resources".to_string()))
    );
    let mut res = config();
    res.apple.resources = vec!["res".to_string()];
    assert_eq!(
        IosBuildCommand::prepare_assets_and_resources(&res, "/out"),
        (
            Some("/out/gen_assets".to_string()),
            Some("/out/gen_resources".to_string())
        )
    );
}

#[test]
fn plan_of_an_ios_build() {
    let mut cmd = ios_command(vec![AppleTarget::Aarch64, AppleTarget::Aarch64Sim]);
    cmd.identity = Some("me".to_string());
    cmd.team_identifier = Some("TEAM".to_string());
    cmd.profile_path = Some("/profiles/dev.mobileprovision".to_string());
    let ctx = context(Some(package(None)), config());
    let build = cmd.execute(&ctx).unwrap();
    assert_eq!(build.name, "my-game");
    assert_eq!(build.target, Target::Bin("my-game".to_string()));
    assert_eq!(
        build.info_plist,
        InfoPlistPlan::Generate {
            from_config: false,
            package_name: "my-game".to_string(),
            app_name: Some("Game".to_string()),
        }
    );
    assert_eq!(
        build.build_targets,
        vec![AppleTarget::Aarch64, AppleTarget::Aarch64Sim]
    );
    assert_eq!(build.apps.len(), 2);
    assert_eq!(
        build.apps[1],
        build_app(
            "/work/game/target",
            AppleTarget::Aarch64Sim,
            Profile::Debug,
            "my-game",
            true,
            true
        )
    );
    assert_eq!(build.apps[1].app_dir, "/work/game/target/apple/debug");
    assert_eq!(
        build.apps[1].bin_path,
        "/work/game/target/aarch64-apple-ios-sim/debug/my-game"
    );
    assert_eq!(
        build.signing,
        Some(Signing {
            identity: "me".to_string(),
            team_identifier: "TEAM".to_string(),
            profile_name: None,
            profile_path: Some("/profiles/dev.mobileprovision".to_string()),
        })
    );
}

#[test]
fn ios_configuration_errors() {
    let cmd = ios_command(vec![]);
    assert_eq!(
        cmd.execute(&context(None, config())),
        Err(Error::InvalidManifest)
    );
    let mut named = ios_command(vec![]);
    named.bin = Some("tool".to_string());
    let build = named.execute(&context(None, config())).unwrap();
    assert_eq!(build.name, "tool");
    let mut identity = ios_command(vec![]);
    identity.identity = Some("me".to_string());
    assert_eq!(
        identity.execute(&context(Some(package(None)), config())),
        Err(Error::TeamIdentifierNotProvided)
    );
    assert_eq!(
        identity.execute(&context(None, config())),
        Err(Error::InvalidManifest)
    );
}

#[test]
fn one_architecture_is_assembled_in_order() {
    let unsigned = build_app("/t", AppleTarget::I386, Profile::Release, "game", false, false);
    assert_eq!(unsigned.bin_path, "/t/i386-apple-ios/release/game");
    assert_eq!(unsigned.app_dir, "/t/apple/release");
    assert_eq!(
        stages(&unsigned.steps),
        vec![
            AppleStage::Compile,
            AppleStage::GenerateAppFolder,
            AppleStage::CopyBinary,
            AppleStage::GenerateInfoPlist,
            AppleStage::GenerateIpa,
        ]
    );
    assert!(unsigned
        .steps
        .iter()
        .all(|s| s.build_target == AppleTarget::I386 && !SIGNING_STAGES.contains(&s.stage)));
    let signed = build_app("/t", AppleTarget::I386, Profile::Release, "game", true, true);
    let at = |stage: AppleStage| signed.steps.iter().position(|s| s.stage == stage).unwrap();
    assert!(at(AppleStage::GenerateInfoPlist) < at(AppleStage::CopyProfile));
    assert!(at(AppleStage::CopyProfile) < at(AppleStage::GenerateXcent));
    assert!(at(AppleStage::GenerateXcent) < at(AppleStage::SignBinary));
    assert!(at(AppleStage::SignBinary) < at(AppleStage::SignBundle));
    assert!(at(AppleStage::SignBundle) < at(AppleStage::GenerateIpa));
    assert_eq!(signed.steps.len(), 10);
}

#[test]
fn the_pipeline_runs_the_steps_of_the_plan() {
    let mut cmd = apple_command(vec![AppleTarget::Aarch64, AppleTarget::Armv7]);
    cmd.identity = Some("me".to_string());
    cmd.team_identifier = Some("TEAM".to_string());
    let ctx = context(Some(package(Some(apple_metadata(None)))), config());
    let (build, mut pipeline) = cmd.run(&ctx).unwrap();
    let planned: Vec<AppleStep> = build
        .apps
        .iter()
        .flat_map(|app| app.steps.iter().copied())
        .collect();
    let mut run = vec![];
    while let Some(step) = pipeline.current() {
        run.push(step);
        pipeline.advance(StageOutcome::Succeeded);
    }
    assert_eq!(run, planned);
    assert_eq!(run.len(), 18);
}
