//! What a build is configured with: the options that all build commands
//! share, and the project's manifest and metadata as the commands read them.
use vstd::prelude::*;
use crate::pipeline::copy_of;
use crate::text::{copy_opt, copy_strings, opt_text, texts};
use crate::types::android_target::AndroidTarget;
use crate::types::apple_target::AppleTarget;
use crate::types::profile::Profile;

verus! {

/// The options that the build commands of all platforms share.
#[derive(Debug, PartialEq, Eq)]
pub struct SharedBuildCommand {
    /// Build the specified example.
    pub example: Option<String>,
    /// Features to activate.
    pub features: Vec<String>,
    /// Activate all available features of the selected package.
    pub all_features: bool,
    /// Do not activate the `default` feature of the selected package.
    pub no_default_features: bool,
    /// Build optimized artifact with the `release` profile.
    pub release: bool,
    /// Directory for generated artifact and intermediate files.
    pub target_dir: Option<String>,
}

impl SharedBuildCommand {
    /// The profile that the options ask for.
    pub fn profile(&self) -> (profile: Profile)
        ensures
            profile == (if self.release {
                Profile::Release
            } else {
                Profile::Debug
            }),
    {
        Profile::from_release_flag(self.release)
    }
}

/// The property list of an application, as far as a build reads it.
#[derive(Debug, PartialEq, Eq)]
pub struct InfoPlist {
    /// The identifier of the application's bundle.
    pub bundle_identifier: String,
}

/// The Android part of a package's metadata.
#[derive(Debug, PartialEq, Eq)]
pub struct AndroidMetadata {
    /// The architectures to build for, where the command names none.
    pub build_targets: Option<Vec<AndroidTarget>>,
    /// The directory of the resources, relative to the project.
    pub resources: Option<String>,
    /// The directory of the assets, relative to the project.
    pub assets: Option<String>,
}

/// An `AndroidMetadata` as plain data.
pub struct AndroidMetadataView {
    pub build_targets: Option<Seq<AndroidTarget>>,
    pub resources: Option<Seq<char>>,
    pub assets: Option<Seq<char>>,
}

/// The elements of an optional list.
pub open spec fn opt_list<T>(list: Option<Vec<T>>) -> Option<Seq<T>> {
    match list {
        Some(items) => Some(items@),
        None => None,
    }
}

impl View for AndroidMetadata {
    type V = AndroidMetadataView;

    open spec fn view(&self) -> AndroidMetadataView {
        AndroidMetadataView {
            build_targets: opt_list(self.build_targets),
            resources: opt_text(self.resources),
            assets: opt_text(self.assets),
        }
    }
}

impl Clone for AndroidMetadata {
    fn clone(&self) -> (copy: Self)
        ensures
            copy@ == self@,
    {
        let build_targets = match &self.build_targets {
            Some(targets) => Some(copy_of(targets.as_slice())),
            None => None,
        };
        AndroidMetadata {
            build_targets,
            resources: copy_opt(&self.resources),
            assets: copy_opt(&self.assets),
        }
    }
}

/// The Apple part of a package's metadata.
#[derive(Debug, PartialEq, Eq)]
pub struct AppleMetadata {
    /// The property list of the application.
    pub info_plist: InfoPlist,
    /// The architectures to build for, where the command names none.
    pub build_targets: Option<Vec<AppleTarget>>,
    /// The directory of the resources, relative to the project.
    pub resources: Option<String>,
    /// The directory of the assets, relative to the project.
    pub assets: Option<String>,
}

/// An `AppleMetadata` as plain data.
pub struct AppleMetadataView {
    pub bundle_identifier: Seq<char>,
    pub build_targets: Option<Seq<AppleTarget>>,
    pub resources: Option<Seq<char>>,
    pub assets: Option<Seq<char>>,
}

impl View for AppleMetadata {
    type V = AppleMetadataView;

    open spec fn view(&self) -> AppleMetadataView {
        AppleMetadataView {
            bundle_identifier: self.info_plist.bundle_identifier@,
            build_targets: opt_list(self.build_targets),
            resources: opt_text(self.resources),
            assets: opt_text(self.assets),
        }
    }
}

impl Clone for AppleMetadata {
    fn clone(&self) -> (copy: Self)
        ensures
            copy@ == self@,
    {
        let build_targets = match &self.build_targets {
            Some(targets) => Some(copy_of(targets.as_slice())),
            None => None,
        };
        AppleMetadata {
            info_plist: InfoPlist { bundle_identifier: self.info_plist.bundle_identifier.clone() },
            build_targets,
            resources: copy_opt(&self.resources),
            assets: copy_opt(&self.assets),
        }
    }
}

/// The metadata that a package carries for the toolchain.
#[derive(Debug, PartialEq, Eq)]
pub struct Metadata {
    /// The Android part.
    pub android: AndroidMetadata,
    /// The Apple part, where there is one.
    pub apple: Option<AppleMetadata>,
}

/// The package that a manifest describes.
#[derive(Debug, PartialEq, Eq)]
pub struct Package {
    /// The name of the package.
    pub name: String,
    /// The metadata for the toolchain, where the package carries any.
    pub metadata: Option<Metadata>,
}

/// The manifest of a project.
#[derive(Debug, PartialEq, Eq)]
pub struct Manifest {
    /// The package, where the manifest describes one.
    pub package: Option<Package>,
}

/// The Android part of the cross-platform configuration.
#[derive(Debug, PartialEq, Eq)]
pub struct AndroidConfig {
    /// The directory of the assets, relative to the project.
    pub assets: Option<String>,
}

/// The Apple part of the cross-platform configuration.
#[derive(Debug, PartialEq, Eq)]
pub struct AppleConfig {
    /// The directory of the assets, relative to the project.
    pub assets: Option<String>,
    /// The directories of the resources, relative to the project.
    pub resources: Vec<String>,
    /// The file to read the property list from.
    pub info_plist_path: Option<String>,
    /// Whether the configuration spells the property list out.
    pub has_info_plist: bool,
    /// The architectures of debug builds.
    pub debug_build_targets: Vec<AppleTarget>,
    /// The architectures of release builds.
    pub release_build_targets: Vec<AppleTarget>,
}

/// The cross-platform configuration of an application.
#[derive(Debug, PartialEq, Eq)]
pub struct CrossbowMetadata {
    /// The name of the application on both platforms. A name in a
    /// platform's own manifest or property list goes before it.
    pub app_name: Option<String>,
    /// The directory of the assets, relative to the project. A directory in
    /// a platform's own part goes before it.
    pub assets: Option<String>,
    /// The icon of the application.
    pub icon: Option<String>,
    /// The Android part.
    pub android: AndroidConfig,
    /// The Apple part.
    pub apple: AppleConfig,
}

/// The first of two options that holds a value.
pub open spec fn or_else(first: Option<Seq<char>>, second: Option<Seq<char>>) -> Option<Seq<char>> {
    match first {
        Some(value) => Some(value),
        None => second,
    }
}

impl CrossbowMetadata {
    /// The assets of the Android application: those of the Android part,
    /// and else those of both platforms.
    pub fn get_android_assets(&self) -> (assets: Option<String>)
        ensures
            opt_text(assets) == or_else(opt_text(self.android.assets), opt_text(self.assets)),
    {
        match &self.android.assets {
            Some(dir) => Some(dir.clone()),
            None => copy_opt(&self.assets),
        }
    }

    /// The assets of the Apple application: those of the Apple part, and
    /// else those of both platforms.
    pub fn get_apple_assets(&self) -> (assets: Option<String>)
        ensures
            opt_text(assets) == or_else(opt_text(self.apple.assets), opt_text(self.assets)),
    {
        match &self.apple.assets {
            Some(dir) => Some(dir.clone()),
            None => copy_opt(&self.assets),
        }
    }

    /// The resources of the Apple application.
    pub fn get_apple_resources(&self) -> (resources: Vec<String>)
        ensures
            texts(resources@) == texts(self.apple.resources@),
    {
        copy_strings(self.apple.resources.as_slice())
    }
}

/// What a build command finds when it starts: the project, the directory
/// for what it builds, the manifest and the cross-platform configuration.
#[derive(Debug, PartialEq, Eq)]
pub struct BuildContext {
    /// The directory of the project.
    pub project_path: String,
    /// The directory for generated artifacts and intermediate files.
    pub target_dir: String,
    /// The manifest of the project.
    pub manifest: Manifest,
    /// The cross-platform configuration.
    pub config: CrossbowMetadata,
}

impl BuildContext {
    /// The package of the manifest with its metadata, where the manifest
    /// has both; else the error that says what is missing.
    pub open spec fn package_metadata(&self) -> Result<(Package, Metadata), crate::error::Error> {
        match self.manifest.package {
            None => Err(crate::error::Error::InvalidManifest),
            Some(package) => match package.metadata {
                None => Err(crate::error::Error::InvalidManifestMetadata),
                Some(metadata) => Ok((package, metadata)),
            },
        }
    }

    /// The name of the package, where the manifest describes one.
    pub fn package_name(&self) -> (name: Option<String>)
        ensures
            match self.manifest.package {
                Some(package) => name matches Some(n) && n@ == package.name@,
                None => name is None,
            },
    {
        match &self.manifest.package {
            Some(package) => Some(package.name.clone()),
            None => None,
        }
    }
}

} // verus!
