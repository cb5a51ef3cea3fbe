//! The manifest of an Android package, as a build derives it from the name
//! of the package.
use vstd::prelude::*;
use crate::permissions::android_permission::AndroidPermission;
use crate::text::{concat2, replace, replace_char};
use crate::version_code::{lemma_semver_1_2_3, version_code_of, VersionCode};

verus! {

/// A feature of the device that a package uses.
#[derive(Debug, PartialEq, Eq)]
pub struct Feature {
    /// The name of the feature.
    pub name: String,
    /// Whether the package cannot work without it.
    pub required: bool,
}

/// What an activity of a package answers to.
#[derive(Debug, PartialEq, Eq)]
pub struct IntentFilter {
    /// The actions it takes.
    pub actions: Vec<String>,
    /// The categories it belongs to.
    pub categories: Vec<String>,
}

/// A named value that a manifest hands to the application.
#[derive(Debug, PartialEq, Eq)]
pub struct ApplicationMetadata {
    pub name: String,
    pub value: String,
}

/// A named value that a manifest hands to the activity.
#[derive(Debug, PartialEq, Eq)]
pub struct ActivityMetadata {
    pub name: String,
    pub value: String,
}

/// The manifest of an Android package.
#[derive(Debug, PartialEq, Eq)]
pub struct AndroidManifest {
    /// The identity of the package.
    pub package_name: String,
    /// The name that users see.
    pub package_label: String,
    /// The version, as users see it.
    pub version_name: String,
    /// The version, as the platform orders it.
    pub version_code: u32,
    /// The name of the split, for a package that is one.
    pub split: Option<String>,
    /// The name of the native library that the package runs.
    pub target_name: String,
    /// Whether the package can be debugged.
    pub debuggable: bool,
    /// The platform level that the package is built for.
    pub target_sdk_version: u32,
    /// The lowest platform level that the package runs on.
    pub min_sdk_version: u32,
    /// The version of OpenGL ES that the package needs: major and minor.
    pub opengles_version: (u8, u8),
    /// The features of the device that the package uses.
    pub features: Vec<Feature>,
    /// The permissions that the package asks for.
    pub permissions: Vec<AndroidPermission>,
    /// What the activity answers to, beyond being launched.
    pub intent_filters: Vec<IntentFilter>,
    /// The icon of the package.
    pub icon: Option<String>,
    /// Whether the package runs full screen.
    pub fullscreen: bool,
    /// The orientation of the screen.
    pub orientation: Option<String>,
    /// The named values for the application.
    pub application_metadatas: Vec<ApplicationMetadata>,
    /// The named values for the activity.
    pub activity_metadatas: Vec<ActivityMetadata>,
}

/// The name of a package with every dash replaced by an underscore, so that
/// it can stand in a namespace.
pub open spec fn namespace_name(package_name: Seq<char>) -> Seq<char> {
    replace_char(package_name, '-', "_"@)
}

/// The version name that generated manifests carry.
pub open spec fn default_version_name() -> Seq<char> {
    "1.2.3"@
}

/// The version code that generated manifests carry: that of the version
/// 1.2.3 for the package with the number 1.
pub open spec fn default_version_code() -> nat {
    version_code_of(VersionCode { major: 1, minor: 2, patch: 3 }, 1)
}

/// The lowest platform level that generated manifests ask for.
pub open spec fn default_min_sdk_version() -> nat {
    23
}

/// Whether `manifest` is the manifest that a build generates for the
/// package `package_name` and the platform level `target_sdk_version`.
pub open spec fn is_generated_manifest(
    manifest: AndroidManifest,
    package_name: Seq<char>,
    target_sdk_version: u32,
) -> bool {
    &&& manifest.package_name@ == "rust."@ + namespace_name(package_name)
    &&& manifest.package_label@ == package_name
    &&& manifest.version_name@ == default_version_name()
    &&& manifest.version_code == default_version_code()
    &&& manifest.split is None
    &&& manifest.target_name@ == namespace_name(package_name)
    &&& !manifest.debuggable
    &&& manifest.target_sdk_version == target_sdk_version
    &&& manifest.min_sdk_version == default_min_sdk_version()
    &&& manifest.opengles_version == (3u8, 1u8)
    &&& manifest.features@.len() == 0
    &&& manifest.permissions@.len() == 0
    &&& manifest.intent_filters@.len() == 0
    &&& manifest.icon is None
    &&& !manifest.fullscreen
    &&& manifest.orientation is None
    &&& manifest.application_metadatas@.len() == 0
    &&& manifest.activity_metadatas@.len() == 0
}

/// Generates the manifest of the package `package_name` for the platform
/// level `target_sdk_version`: the identity is the name in the namespace
/// `rust`, the version is the default version, and no feature, permission,
/// intent filter or named value is listed.
pub fn gen_android_manifest(package_name: &str, target_sdk_version: u32) -> (manifest:
    AndroidManifest)
    ensures
        is_generated_manifest(manifest, package_name@, target_sdk_version),
{
    let target_name = replace(package_name, '-', "_");
    let version_code = match VersionCode::from_semver("1.2.3") {
        Ok(version) => version.to_code(1),
        Err(_) => 0,
    };
    proof {
        lemma_semver_1_2_3();
    }
    AndroidManifest {
        package_name: concat2("rust.", target_name.as_str()),
        package_label: package_name.to_owned(),
        version_name: "1.2.3".to_owned(),
        version_code,
        split: None,
        target_name,
        debuggable: false,
        target_sdk_version,
        min_sdk_version: 23,
        opengles_version: (3, 1),
        features: Vec::new(),
        permissions: Vec::new(),
        intent_filters: Vec::new(),
        icon: None,
        fullscreen: false,
        orientation: None,
        application_metadatas: Vec::new(),
        activity_metadatas: Vec::new(),
    }
}

} // verus!
