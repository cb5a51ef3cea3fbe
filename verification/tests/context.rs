use crossbundle::context::{
    AndroidConfig, AppleConfig, BuildContext, CrossbowMetadata, Manifest, Package,
    SharedBuildCommand,
};
use crossbundle::types::Profile;

fn config(
    assets: Option<&str>,
    android: Option<&str>,
    apple: Option<&str>,
) -> CrossbowMetadata {
    CrossbowMetadata {
        app_name: None,
        assets: assets.map(|s| s.to_string()),
        icon: None,
        android: AndroidConfig {
            assets: android.map(|s| s.to_string()),
        },
        apple: AppleConfig {
            assets: apple.map(|s| s.to_string()),
            resources: vec!["res/a".to_string(), "res/b".to_string()],
            info_plist_path: None,
            has_info_plist: false,
            debug_build_targets: vec![],
            release_build_targets: vec![],
        },
    }
}

#[test]
fn platform_assets_go_before_shared_assets() {
    let both = config(Some("assets"), Some("android/assets"), Some("apple/assets"));
    assert_eq!(both.get_android_assets(), Some("android/assets".to_string()));
    assert_eq!(both.get_apple_assets(), Some("apple/assets".to_string()));
    let shared = config(Some("assets"), None, None);
    assert_eq!(shared.get_android_assets(), Some("assets".to_string()));
    assert_eq!(shared.get_apple_assets(), Some("assets".to_string()));
    let only = config(None, Some("android/assets"), None);
    assert_eq!(only.get_android_assets(), Some("android/assets".to_string()));
    assert_eq!(only.get_apple_assets(), None);
    let none = config(None, None, None);
    assert_eq!(none.get_android_assets(), None);
    assert_eq!(none.get_apple_assets(), None);
    assert_eq!(
        none.get_apple_resources(),
        vec!["res/a".to_string(), "res/b".to_string()]
    );
}

#[test]
fn profile_of_the_shared_options() {
    let mut shared = SharedBuildCommand {
        example: None,
        features: vec![],
        all_features: false,
        no_default_features: false,
        release: false,
        target_dir: None,
    };
    assert_eq!(shared.profile(), Profile::Debug);
    shared.release = true;
    assert_eq!(shared.profile(), Profile::Release);
}

#[test]
fn package_name_of_the_context() {
    let mut ctx = BuildContext {
        project_path: ".".to_string(),
        target_dir: "target".to_string(),
        manifest: Manifest { package: None },
        config: config(None, None, None),
    };
    assert_eq!(ctx.package_name(), None);
    ctx.manifest.package = Some(Package {
        name: "game".to_string(),
        metadata: None,
    });
    assert_eq!(ctx.package_name(), Some("game".to_string()));
}
