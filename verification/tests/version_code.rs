use crossbundle::android_manifest::gen_android_manifest;
use crossbundle::error::Error;
use crossbundle::version_code::VersionCode;

#[test]
fn version_code_of_1_2_3() {
    let version = VersionCode::from_semver("1.2.3").unwrap();
    assert_eq!(version, VersionCode::new(1, 2, 3));
    assert_eq!(version.to_code(1), 16843267);
    assert_eq!(version.to_code(1), 0x01010203);
    let again = VersionCode::from_semver("1.2.3").unwrap().to_code(1);
    assert_eq!(again, version.to_code(1));
}

#[test]
fn version_code_bytes() {
    assert_eq!(VersionCode::new(0, 0, 0).to_code(0), 0);
    assert_eq!(VersionCode::new(0, 0, 1).to_code(0), 1);
    assert_eq!(VersionCode::new(0, 1, 0).to_code(0), 256);
    assert_eq!(VersionCode::new(1, 0, 0).to_code(0), 65536);
    assert_eq!(VersionCode::new(0, 0, 0).to_code(1), 16777216);
    assert_eq!(VersionCode::new(255, 255, 255).to_code(255), u32::MAX);
    assert_eq!(VersionCode::new(0, 3, 1).to_code(2), (2 << 24) | (3 << 8) | 1);
}

#[test]
fn semantic_versions_that_are_read() {
    for (text, major, minor, patch) in [
        ("0.0.0", 0, 0, 0),
        ("0.0.1", 0, 0, 1),
        ("255.255.255", 255, 255, 255),
        ("1.2.3-beta", 1, 2, 3),
        ("1.2.3+build.5", 1, 2, 3),
        ("1.2.3-rc.1+5", 1, 2, 3),
        ("1.2.3.4", 1, 2, 3),
        ("1.2.3.", 1, 2, 3),
        ("1.2.3-", 1, 2, 3),
        ("001.02.0003", 1, 2, 3),
        ("1-2-3", 1, 2, 3),
        ("1+2.3", 1, 2, 3),
        ("1.2.3.x", 1, 2, 3),
        ("0000000000000000000000007.0.0", 7, 0, 0),
    ] {
        assert_eq!(
            VersionCode::from_semver(text),
            Ok(VersionCode::new(major, minor, patch)),
            "{}",
            text
        );
    }
}

#[test]
fn semantic_versions_that_are_refused() {
    for text in [
        "",
        "1",
        "1.2",
        "1.2.",
        "1..3",
        ".2.3",
        "a.b.c",
        "1.2.x",
        "1.2.3a",
        "256.0.0",
        "0.256.0",
        "0.0.256",
        "1.2.300",
        "99999999999999999999.0.0",
        "-1.2.3",
        "+1.2.3",
        "v1.2.3",
        "1 .2.3",
        "1.2. 3",
        "１.２.３",
        "1,2,3",
        "...",
    ] {
        assert_eq!(
            VersionCode::from_semver(text),
            Err(Error::InvalidSemver),
            "{}",
            text
        );
    }
}

#[test]
fn generated_manifest() {
    let manifest = gen_android_manifest("my-game", 30);
    assert_eq!(manifest.package_name, "rust.my_game");
    assert_eq!(manifest.package_label, "my-game");
    assert_eq!(manifest.version_name, "1.2.3");
    assert_eq!(
        manifest.version_code,
        VersionCode::from_semver("1.2.3").unwrap().to_code(1)
    );
    assert_eq!(manifest.version_code, 16843267);
    assert_eq!(manifest.split, None);
    assert_eq!(manifest.target_name, "my_game");
    assert!(!manifest.debuggable);
    assert_eq!(manifest.target_sdk_version, 30);
    assert_eq!(manifest.min_sdk_version, 23);
    assert_eq!(manifest.opengles_version, (3, 1));
    assert!(manifest.features.is_empty());
    assert!(manifest.permissions.is_empty());
    assert!(manifest.intent_filters.is_empty());
    assert!(manifest.application_metadatas.is_empty());
    assert!(manifest.activity_metadatas.is_empty());
    assert_eq!(manifest.icon, None);
    assert!(!manifest.fullscreen);
    assert_eq!(manifest.orientation, None);
    let plain = gen_android_manifest("game", 28);
    assert_eq!(plain.package_name, "rust.game");
    assert_eq!(plain.target_name, "game");
    assert_eq!(plain.target_sdk_version, 28);
}

#[test]
fn error_messages() {
    assert_eq!(Error::InvalidManifest.to_string(), "Invalid manifest");
    assert_eq!(
        Error::InvalidManifestMetadata.to_string(),
        "Invalid manifest metadata"
    );
    assert_eq!(
        Error::BuildTargetsNotProvided.to_string(),
        "Build targets not provided"
    );
    assert_eq!(
        Error::TeamIdentifierNotProvided.to_string(),
        "Team identifier not provided"
    );
    assert_eq!(
        Error::SigningKeyNotProvided.to_string(),
        "Signing key not provided"
    );
    assert_eq!(Error::InvalidSemver.to_string(), "Invalid semver");
}
