//! The Android build command: from the configuration of a build to the
//! plan of a package assembly and the pipeline that runs it.
//!
//! A package is assembled in a strict order. The native library is compiled
//! for every architecture; the manifest is generated; the resources are
//! compiled; the unsigned package is assembled; the library of every
//! architecture is injected; the package is aligned; a key is obtained; the
//! package is signed. A bundle shares the first five stages and then packs
//! its modules, assembles the bundle and derives the set of installable
//! packages from it. Aligning comes before signing, never after.
//!
//! The stages keep this order for any number of architectures. Within the
//! compile stage and within the inject stage the architectures are taken in
//! the order in which they were asked for, each finished before the next
//! begins. So every architecture is compiled before the manifest is
//! generated, and a library is injected only into a package that has been
//! assembled; for a single architecture the compilation is directly
//! followed by the rest of the assembly.
//!
//! Every stage has a file that it is to leave behind. The plan names it, so
//! that whoever runs a stage can tell a tool that failed from a tool that
//! reported success and produced nothing.
use vstd::prelude::*;
use crate::android_manifest::{gen_android_manifest, is_generated_manifest, AndroidManifest};
use crate::context::{AndroidMetadata, BuildContext, SharedBuildCommand};
use crate::error::Error;
use crate::paths::{join, join2, path_join, path_join2};
use crate::pipeline::{copy_of, Pipeline, PipelineView};
use crate::text::{concat2, concat3, opt_text, texts};
use crate::types::android_target::AndroidTarget;
use crate::types::profile::Profile;
use crate::types::target::{Target, TargetView};

verus! {

/// What a package assembly ends in.
#[derive(Clone, Copy, Debug, PartialEq, Eq, Structural)]
pub enum PackageKind {
    /// One installable package.
    Apk,
    /// A bundle of modules, and the set of installable packages derived
    /// from it.
    Bundle,
}

/// A stage of the assembly of an Android package.
#[derive(Clone, Copy, Debug, PartialEq, Eq, Structural)]
pub enum AndroidStage {
    /// Compile the native library for one architecture. Its output is the
    /// library file.
    CompileNative,
    /// Generate the manifest and write it. Its output is the manifest file.
    GenerateManifest,
    /// Compile the resources, one file at a time.
    CompileResources,
    /// Assemble the unsigned package from the compiled resources and the
    /// manifest.
    AssembleUnsigned,
    /// Inject the native library of one architecture under the path of its
    /// ABI.
    InjectLibraries,
    /// Align the package.
    Align,
    /// Pack the modules of a bundle.
    ZipModules,
    /// Assemble the bundle from its modules.
    AssembleBundle,
    /// Obtain the signing key: generate the debug key, or take the key that
    /// the caller supplied.
    ObtainKey,
    /// Sign the aligned package in place.
    Sign,
    /// Derive the set of installable packages from the bundle.
    BuildApkSet,
}

impl AndroidStage {
    /// The place of the stage in the order of an assembly.
    pub open spec fn order(self) -> nat {
        match self {
            AndroidStage::CompileNative => 1,
            AndroidStage::GenerateManifest => 2,
            AndroidStage::CompileResources => 3,
            AndroidStage::AssembleUnsigned => 4,
            AndroidStage::InjectLibraries => 5,
            AndroidStage::Align => 6,
            AndroidStage::ZipModules => 7,
            AndroidStage::AssembleBundle => 8,
            AndroidStage::ObtainKey => 9,
            AndroidStage::Sign => 10,
            AndroidStage::BuildApkSet => 11,
        }
    }
}

/// One step of an assembly: a stage, and the architecture it works on where
/// the stage is run once for every architecture.
#[derive(Clone, Copy, Debug, PartialEq, Eq, Structural)]
pub struct AndroidStep {
    pub stage: AndroidStage,
    pub build_target: Option<AndroidTarget>,
}

/// A step that is run once for the whole package.
pub open spec fn whole(stage: AndroidStage) -> AndroidStep {
    AndroidStep { stage: stage, build_target: None }
}

/// The steps of a stage that is run for one architecture after the other.
pub open spec fn per_target(stage: AndroidStage, targets: Seq<AndroidTarget>) -> Seq<AndroidStep> {
    Seq::new(targets.len(), |i: int| AndroidStep { stage: stage, build_target: Some(targets[i]) })
}

/// The steps that end an assembly.
pub open spec fn final_steps(kind: PackageKind) -> Seq<AndroidStep> {
    match kind {
        PackageKind::Apk => seq![
            whole(AndroidStage::Align),
            whole(AndroidStage::ObtainKey),
            whole(AndroidStage::Sign),
        ],
        PackageKind::Bundle => seq![
            whole(AndroidStage::ZipModules),
            whole(AndroidStage::AssembleBundle),
            whole(AndroidStage::ObtainKey),
            whole(AndroidStage::BuildApkSet),
        ],
    }
}

/// The steps of the assembly of a package for `targets`, in the order in
/// which they run: stage by stage, and within the two stages that work on
/// one architecture at a time, architecture by architecture.
pub open spec fn android_steps(targets: Seq<AndroidTarget>, kind: PackageKind) -> Seq<AndroidStep> {
    per_target(AndroidStage::CompileNative, targets) + seq![
        whole(AndroidStage::GenerateManifest),
        whole(AndroidStage::CompileResources),
        whole(AndroidStage::AssembleUnsigned),
    ] + per_target(AndroidStage::InjectLibraries, targets) + final_steps(kind)
}

/// Appends the steps of a stage that is run for every architecture.
fn push_per_target(steps: &mut Vec<AndroidStep>, stage: AndroidStage, targets: &[AndroidTarget])
    ensures
        final(steps)@ == old(steps)@ + per_target(stage, targets@),
{
    let ghost head = steps@;
    let mut i: usize = 0;
    while i < targets.len()
        invariant
            i <= targets.len(),
            steps@ == head + per_target(stage, targets@.take(i as int)),
        decreases targets.len() - i,
    {
        steps.push(AndroidStep { stage, build_target: Some(targets[i]) });
        assert(steps@ =~= head + per_target(stage, targets@.take(i + 1)));
        i += 1;
    }
    assert(targets@.take(targets.len() as int) == targets@);
}

/// Appends a step that is run once.
fn push_whole(steps: &mut Vec<AndroidStep>, stage: AndroidStage)
    ensures
        final(steps)@ == old(steps)@.push(whole(stage)),
{
    steps.push(AndroidStep { stage, build_target: None });
}

/// The steps of the assembly of a package for `targets`, in the order in
/// which they run.
pub fn android_pipeline_steps(targets: &[AndroidTarget], kind: PackageKind) -> (steps: Vec<
    AndroidStep,
>)
    ensures
        steps@ == android_steps(targets@, kind),
{
    let mut steps: Vec<AndroidStep> = Vec::new();
    push_per_target(&mut steps, AndroidStage::CompileNative, targets);
    push_whole(&mut steps, AndroidStage::GenerateManifest);
    push_whole(&mut steps, AndroidStage::CompileResources);
    push_whole(&mut steps, AndroidStage::AssembleUnsigned);
    push_per_target(&mut steps, AndroidStage::InjectLibraries, targets);
    match kind {
        PackageKind::Apk => {
            push_whole(&mut steps, AndroidStage::Align);
            push_whole(&mut steps, AndroidStage::ObtainKey);
            push_whole(&mut steps, AndroidStage::Sign);
        },
        PackageKind::Bundle => {
            push_whole(&mut steps, AndroidStage::ZipModules);
            push_whole(&mut steps, AndroidStage::AssembleBundle);
            push_whole(&mut steps, AndroidStage::ObtainKey);
            push_whole(&mut steps, AndroidStage::BuildApkSet);
        },
    }
    assert(steps@ =~= android_steps(targets@, kind));
    steps
}

/// The steps of an assembly stand in the order of their stages: a step
/// never comes before a step of an earlier stage. So aligning comes before
/// the key is obtained, and that before signing.
pub proof fn lemma_android_steps_in_order(
    targets: Seq<AndroidTarget>,
    kind: PackageKind,
    i: int,
    j: int,
)
    requires
        0 <= i <= j < android_steps(targets, kind).len(),
    ensures
        android_steps(targets, kind)[i].stage.order() <= android_steps(
            targets,
            kind,
        )[j].stage.order(),
{
}

/// A package is signed as the file that aligning made: the two stages
/// leave the same file, the package in the build directory. Assembling and
/// injecting leave the unaligned package beside it.
pub proof fn lemma_signing_takes_the_aligned_package(
    command: AndroidBuildCommand,
    build_context: BuildContext,
    build: AndroidBuild,
)
    requires
        command.plans(&build_context, build),
    ensures
        build.output_of(whole(AndroidStage::Sign)) == build.output_of(whole(AndroidStage::Align)),
        build.output_of(whole(AndroidStage::Sign)) == Some(
            package_file_of(
                android_build_dir_of(build_context.target_dir@, build.profile),
                build.package_name@,
                ".apk"@,
            ),
        ),
        build.output_of(whole(AndroidStage::AssembleUnsigned)) == Some(
            package_file_of(
                android_build_dir_of(build_context.target_dir@, build.profile),
                build.package_name@,
                "-unaligned.apk"@,
            ),
        ),
{
}

/// Every architecture is compiled once and injected once, in the order in
/// which the architectures were asked for; every other stage of the kind of
/// package is run once.
pub proof fn lemma_android_steps_cover_targets(targets: Seq<AndroidTarget>, kind: PackageKind)
    ensures
        ({
            let steps = android_steps(targets, kind);
            let n = targets.len() as int;
            &&& steps.len() == 2 * n + 3 + final_steps(kind).len()
            &&& forall|k: int|
                0 <= k < n ==> #[trigger] steps[k] == (AndroidStep {
                    stage: AndroidStage::CompileNative,
                    build_target: Some(targets[k]),
                })
            &&& forall|k: int|
                0 <= k < n ==> #[trigger] steps[n + 3 + k] == (AndroidStep {
                    stage: AndroidStage::InjectLibraries,
                    build_target: Some(targets[k]),
                })
            &&& steps[n] == whole(AndroidStage::GenerateManifest)
            &&& steps[n + 1] == whole(AndroidStage::CompileResources)
            &&& steps[n + 2] == whole(AndroidStage::AssembleUnsigned)
            &&& steps.subrange(2 * n + 3, steps.len() as int) == final_steps(kind)
        }),
{
    let steps = android_steps(targets, kind);
    let n = targets.len() as int;
    assert(steps.subrange(2 * n + 3, steps.len() as int) =~= final_steps(kind));
}

/// Where the key that signs a package comes from.
#[derive(Debug, PartialEq, Eq)]
pub enum KeySource {
    /// The debug key, which is generated where it does not exist yet.
    DebugKey,
    /// The key that the caller supplied.
    Provided { path: String, password: Option<String> },
}

/// A `KeySource` as plain data.
pub enum KeySourceView {
    DebugKey,
    Provided { path: Seq<char>, password: Option<Seq<char>> },
}

impl View for KeySource {
    type V = KeySourceView;

    open spec fn view(&self) -> KeySourceView {
        match self {
            KeySource::DebugKey => KeySourceView::DebugKey,
            KeySource::Provided { path, password } => KeySourceView::Provided {
                path: path@,
                password: opt_text(*password),
            },
        }
    }
}

/// The key of a build: the key that the caller supplied, and for a debug
/// build without one the debug key. For a release build no key is ever
/// generated.
pub open spec fn key_source_of(
    profile: Profile,
    path: Option<Seq<char>>,
    password: Option<Seq<char>>,
) -> Result<KeySourceView, Error> {
    match path {
        Some(p) => Ok(KeySourceView::Provided { path: p, password: password }),
        None => match profile {
            Profile::Debug => Ok(KeySourceView::DebugKey),
            Profile::Release => Err(Error::SigningKeyNotProvided),
        },
    }
}

/// The directory that the compiler writes to for an architecture and a
/// profile.
pub open spec fn out_dir_of(target_dir: Seq<char>, triple: Seq<char>, profile: Profile) -> Seq<char> {
    path_join2(target_dir, triple, profile.name())
}

/// The file name of the shared library of a package.
pub open spec fn lib_file_name(package_name: Seq<char>) -> Seq<char> {
    "lib"@ + package_name + ".so"@
}

/// The compiled library of an architecture.
pub open spec fn compiled_lib_of(
    target_dir: Seq<char>,
    build_target: AndroidTarget,
    profile: Profile,
    package_name: Seq<char>,
) -> Seq<char> {
    path_join(
        out_dir_of(target_dir, build_target.rust_triple_text(), profile),
        lib_file_name(package_name),
    )
}

/// The compiled libraries of a list of architectures.
pub open spec fn compiled_libs_of(
    target_dir: Seq<char>,
    build_targets: Seq<AndroidTarget>,
    profile: Profile,
    package_name: Seq<char>,
) -> Seq<Seq<char>> {
    Seq::new(
        build_targets.len(),
        |i: int| compiled_lib_of(target_dir, build_targets[i], profile, package_name),
    )
}

/// The directory in which the package is assembled.
pub open spec fn android_build_dir_of(target_dir: Seq<char>, profile: Profile) -> Seq<char> {
    path_join2(target_dir, "android"@, profile.name())
}

/// A file of the package `label` in the build directory: the package's name
/// followed by `suffix`.
pub open spec fn package_file_of(build_dir: Seq<char>, label: Seq<char>, suffix: Seq<char>) -> Seq<
    char,
> {
    path_join(build_dir, label + suffix)
}

/// The path of a file of the package `label` in the build directory.
fn package_file(build_dir: &str, label: &str, suffix: &str) -> (path: String)
    ensures
        path@ == package_file_of(build_dir@, label@, suffix@),
{
    let name = concat2(label, suffix);
    join(build_dir, name.as_str())
}

/// The path of the compiled library of the package `package_name` for
/// `build_target`.
pub fn compiled_lib_path(
    target_dir: &str,
    build_target: AndroidTarget,
    profile: Profile,
    package_name: &str,
) -> (path: String)
    ensures
        path@ == compiled_lib_of(target_dir@, build_target, profile, package_name@),
{
    let out_dir = join2(target_dir, build_target.rust_triple(), profile.as_str());
    let file = concat3("lib", package_name, ".so");
    join(out_dir.as_str(), file.as_str())
}

/// The build command for Android.
#[derive(Debug, PartialEq, Eq)]
pub struct AndroidBuildCommand {
    /// The options shared with the other platforms.
    pub shared: SharedBuildCommand,
    /// The architectures to build for.
    pub target: Vec<AndroidTarget>,
    /// The key to sign with. A release build needs one.
    pub sign_key_path: Option<String>,
    /// The password of the key.
    pub sign_key_pass: Option<String>,
}

/// The plan of the assembly of an Android package.
#[derive(Debug, PartialEq, Eq)]
pub struct AndroidBuild {
    /// The name of the package.
    pub package_name: String,
    /// The Android metadata of the package.
    pub metadata: AndroidMetadata,
    /// The profile.
    pub profile: Profile,
    /// The product that is compiled.
    pub target: Target,
    /// The architectures, in the order in which they are built.
    pub build_targets: Vec<AndroidTarget>,
    /// The platform level that is built for.
    pub target_sdk_version: u32,
    /// The directory for what the compiler and the assembly leave behind.
    pub target_dir: String,
    /// The compiled library of every architecture.
    pub compiled_libs: Vec<String>,
    /// The directory in which the package is assembled.
    pub android_build_dir: String,
    /// The manifest.
    pub manifest: AndroidManifest,
    /// The file that the manifest is written to.
    pub manifest_path: String,
    /// The package before it is aligned.
    pub unaligned_apk: String,
    /// The package: the file that aligning makes and signing signs in
    /// place.
    pub aligned_apk: String,
    /// The key that signs the package.
    pub key: KeySource,
}

impl AndroidBuild {
    /// The file that a step is to leave behind, where it has one. Compiling
    /// leaves the library of the architecture. Assembling and injecting leave
    /// the unaligned package. Aligning leaves the package, and signing leaves
    /// that same file. The key is the caller's where one was supplied. The
    /// stages of a bundle leave the packed modules, the bundle, and the set of
    /// installable packages.
    pub open spec fn output_of(&self, step: AndroidStep) -> Option<Seq<char>> {
        match step.stage {
            AndroidStage::CompileNative => match step.build_target {
                Some(build_target) => Some(
                    compiled_lib_of(
                        self.target_dir@,
                        build_target,
                        self.profile,
                        self.package_name@,
                    ),
                ),
                None => None,
            },
            AndroidStage::GenerateManifest => Some(self.manifest_path@),
            AndroidStage::CompileResources => None,
            AndroidStage::AssembleUnsigned => Some(self.unaligned_apk@),
            AndroidStage::InjectLibraries => Some(self.unaligned_apk@),
            AndroidStage::Align => Some(self.aligned_apk@),
            AndroidStage::ZipModules => Some(
                package_file_of(
                    self.android_build_dir@,
                    self.manifest.package_label@,
                    "_module.zip"@,
                ),
            ),
            AndroidStage::AssembleBundle => Some(
                package_file_of(self.android_build_dir@, self.manifest.package_label@, ".aab"@),
            ),
            AndroidStage::ObtainKey => match self.key {
                KeySource::Provided { path, password } => Some(path@),
                KeySource::DebugKey => None,
            },
            AndroidStage::Sign => Some(self.aligned_apk@),
            AndroidStage::BuildApkSet => Some(
                package_file_of(self.android_build_dir@, self.manifest.package_label@, ".apks"@),
            ),
        }
    }

    /// The file that a step is to leave behind, where it has one.
    pub fn expected_output(&self, step: AndroidStep) -> (output: Option<String>)
        ensures
            opt_text(output) == self.output_of(step),
    {
        let dir = self.android_build_dir.as_str();
        let label = self.manifest.package_label.as_str();
        match step.stage {
            AndroidStage::CompileNative => match step.build_target {
                Some(build_target) => Some(
                    compiled_lib_path(
                        self.target_dir.as_str(),
                        build_target,
                        self.profile,
                        self.package_name.as_str(),
                    ),
                ),
                None => None,
            },
            AndroidStage::GenerateManifest => Some(self.manifest_path.clone()),
            AndroidStage::CompileResources => None,
            AndroidStage::AssembleUnsigned => Some(self.unaligned_apk.clone()),
            AndroidStage::InjectLibraries => Some(self.unaligned_apk.clone()),
            AndroidStage::Align => Some(self.aligned_apk.clone()),
            AndroidStage::ZipModules => Some(package_file(dir, label, "_module.zip")),
            AndroidStage::AssembleBundle => Some(package_file(dir, label, ".aab")),
            AndroidStage::ObtainKey => match &self.key {
                KeySource::Provided { path, password } => Some(path.clone()),
                KeySource::DebugKey => None,
            },
            AndroidStage::Sign => Some(self.aligned_apk.clone()),
            AndroidStage::BuildApkSet => Some(package_file(dir, label, ".apks")),
        }
    }
}

impl AndroidBuildCommand {
    /// The architectures of a build: those that the command names, and
    /// where it names none, those of the metadata.
    pub open spec fn build_targets_of(&self, metadata: AndroidMetadata) -> Option<
        Seq<AndroidTarget>,
    > {
        if self.target@.len() > 0 {
            Some(self.target@)
        } else {
            metadata@.build_targets
        }
    }

    /// The product of a build: the example that the command names, else the
    /// library.
    pub open spec fn target_of(&self) -> TargetView {
        match self.shared.example {
            Some(example) => TargetView::Example(example@),
            None => TargetView::Lib,
        }
    }

    /// The error that keeps the build from being planned, if there is one:
    /// the manifest describes no package; the package carries no metadata;
    /// no architecture is named; a release build has no key.
    pub open spec fn plan_error(&self, build_context: &BuildContext) -> Option<Error> {
        match build_context.package_metadata() {
            Err(e) => Some(e),
            Ok((package, metadata)) => {
                if self.build_targets_of(metadata.android) is None {
                    Some(Error::BuildTargetsNotProvided)
                } else if self.sign_key_path is None && self.shared.release {
                    Some(Error::SigningKeyNotProvided)
                } else {
                    None
                }
            },
        }
    }

    /// Whether `build` is the plan of this command in `build_context`.
    pub open spec fn plans(&self, build_context: &BuildContext, build: AndroidBuild) -> bool {
        match build_context.package_metadata() {
            Err(e) => false,
            Ok((package, metadata)) => {
                &&& build.package_name@ == package.name@
                &&& build.metadata@ == metadata.android@
                &&& build.profile == (if self.shared.release {
                    Profile::Release
                } else {
                    Profile::Debug
                })
                &&& build.target@ == self.target_of()
                &&& Some(build.build_targets@) == self.build_targets_of(metadata.android)
                &&& build.target_sdk_version == 30
                &&& build.target_dir@ == build_context.target_dir@
                &&& texts(build.compiled_libs@) == compiled_libs_of(
                    build_context.target_dir@,
                    build.build_targets@,
                    build.profile,
                    package.name@,
                )
                &&& build.android_build_dir@ == android_build_dir_of(
                    build_context.target_dir@,
                    build.profile,
                )
                &&& is_generated_manifest(build.manifest, package.name@, 30)
                &&& build.manifest_path@ == path_join(
                    build.android_build_dir@,
                    "AndroidManifest.xml"@,
                )
                &&& build.unaligned_apk@ == package_file_of(
                    build.android_build_dir@,
                    package.name@,
                    "-unaligned.apk"@,
                )
                &&& build.aligned_apk@ == package_file_of(
                    build.android_build_dir@,
                    package.name@,
                    ".apk"@,
                )
                &&& Ok::<KeySourceView, Error>(build.key@) == key_source_of(
                    build.profile,
                    opt_text(self.sign_key_path),
                    opt_text(self.sign_key_pass),
                )
            },
        }
    }

    /// Plans the assembly of the package: which product is compiled for
    /// which architectures with which profile, where the compiled libraries
    /// and the package go, what the manifest says, and which key signs. A
    /// configuration that lacks something is refused with the error that
    /// says what.
    pub fn execute(&self, build_context: &BuildContext) -> (planned: Result<AndroidBuild, Error>)
        ensures
            match planned {
                Ok(build) => self.plan_error(build_context) is None && self.plans(
                    build_context,
                    build,
                ),
                Err(e) => self.plan_error(build_context) == Some(e),
            },
    {
        let package = match &build_context.manifest.package {
            Some(package) => package,
            None => {
                return Err(Error::InvalidManifest);
            },
        };
        let metadata = match &package.metadata {
            Some(metadata) => metadata.android.clone(),
            None => {
                return Err(Error::InvalidManifestMetadata);
            },
        };
        assert(metadata@ == package.metadata->0.android@);
        let profile = self.shared.profile();
        let target = match &self.shared.example {
            Some(example) => Target::Example(example.clone()),
            None => Target::Lib,
        };
        let build_targets = if self.target.len() > 0 {
            copy_of(self.target.as_slice())
        } else {
            match &metadata.build_targets {
                Some(targets) => copy_of(targets.as_slice()),
                None => {
                    return Err(Error::BuildTargetsNotProvided);
                },
            }
        };
        let key = match &self.sign_key_path {
            Some(path) => KeySource::Provided {
                path: path.clone(),
                password: match &self.sign_key_pass {
                    Some(pass) => Some(pass.clone()),
                    None => None,
                },
            },
            None => match profile {
                Profile::Debug => KeySource::DebugKey,
                Profile::Release => {
                    return Err(Error::SigningKeyNotProvided);
                },
            },
        };
        let target_sdk_version: u32 = 30;
        let mut compiled_libs: Vec<String> = Vec::new();
        let mut i: usize = 0;
        while i < build_targets.len()
            invariant
                i <= build_targets.len(),
                compiled_libs@.len() == i,
                texts(compiled_libs@) == compiled_libs_of(
                    build_context.target_dir@,
                    build_targets@.take(i as int),
                    profile,
                    package.name@,
                ),
            decreases build_targets.len() - i,
        {
            let lib = compiled_lib_path(
                build_context.target_dir.as_str(),
                build_targets[i],
                profile,
                package.name.as_str(),
            );
            let ghost earlier = texts(compiled_libs@);
            compiled_libs.push(lib);
            proof {
                let wanted = compiled_libs_of(
                    build_context.target_dir@,
                    build_targets@.take(i + 1),
                    profile,
                    package.name@,
                );
                assert forall|j: int| 0 <= j < i + 1 implies texts(compiled_libs@)[j]
                    == wanted[j] by {
                    if j < i {
                        assert(texts(compiled_libs@)[j] == earlier[j]);
                        assert(build_targets@.take(i as int)[j] == build_targets@.take(i + 1)[j]);
                    }
                }
                assert(texts(compiled_libs@) =~= wanted);
            }
            i += 1;
        }
        assert(build_targets@.take(build_targets.len() as int) == build_targets@);
        let android_build_dir = join2(
            build_context.target_dir.as_str(),
            "android",
            profile.as_str(),
        );
        let manifest = gen_android_manifest(package.name.as_str(), target_sdk_version);
        let manifest_path = join(android_build_dir.as_str(), "AndroidManifest.xml");
        let unaligned_apk = package_file(
            android_build_dir.as_str(),
            package.name.as_str(),
            "-unaligned.apk",
        );
        let aligned_apk = package_file(android_build_dir.as_str(), package.name.as_str(), ".apk");
        Ok(
            AndroidBuild {
                package_name: package.name.clone(),
                metadata,
                profile,
                target,
                build_targets,
                target_sdk_version,
                target_dir: build_context.target_dir.clone(),
                compiled_libs,
                android_build_dir,
                manifest,
                manifest_path,
                unaligned_apk,
                aligned_apk,
                key,
            },
        )
    }

    /// Plans the assembly and sets up the pipeline that runs it, with no
    /// stage run yet.
    pub fn run(&self, build_context: &BuildContext) -> (started: Result<
        (AndroidBuild, Pipeline<AndroidStep>),
        Error,
    >)
        ensures
            match started {
                Ok((build, pipeline)) => {
                    &&& self.plan_error(build_context) is None
                    &&& self.plans(build_context, build)
                    &&& pipeline@ == PipelineView::start(
                        android_steps(build.build_targets@, PackageKind::Apk),
                    )
                },
                Err(e) => self.plan_error(build_context) == Some(e),
            },
    {
        let build = match self.execute(build_context) {
            Ok(build) => build,
            Err(e) => {
                return Err(e);
            },
        };
        let steps = android_pipeline_steps(build.build_targets.as_slice(), PackageKind::Apk);
        Ok((build, Pipeline::new(steps)))
    }
}

} // verus!
