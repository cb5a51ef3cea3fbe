//! The Apple build commands: from the configuration of a build to the plan
//! of an application's assembly.
//!
//! An application is assembled for one architecture after the other, and
//! for each in a fixed order: the program is compiled, the application's
//! folder is generated, the binary is copied into it, the property list is
//! written. Where a signing identity is configured, the provisioning profile
//! is copied, the entitlements are generated, and first the binary and then
//! the bundle is signed. Without an identity nothing is signed, and that is
//! no failure. At the end the folder is packed as an installable archive.
use vstd::prelude::*;
use crate::context::{AppleMetadata, BuildContext, CrossbowMetadata, SharedBuildCommand};
use crate::error::Error;
use crate::paths::{join, join2, join3, path_join, path_join2, path_join3};
use crate::pipeline::{copy_of, Pipeline, PipelineView};
use crate::text::{copy_opt, opt_text, texts};
use crate::types::apple_target::{AppleTarget, IosTarget};
use crate::types::profile::Profile;
use crate::types::target::{Target, TargetView};

verus! {

/// A stage of the assembly of an application for one architecture.
#[derive(Clone, Copy, Debug, PartialEq, Eq, Structural)]
pub enum AppleStage {
    /// Compile the program.
    Compile,
    /// Put the resources and the assets together.
    PrepareResources,
    /// Generate the folder of the application.
    GenerateAppFolder,
    /// Copy the binary into the folder.
    CopyBinary,
    /// Write the property list.
    GenerateInfoPlist,
    /// Copy the provisioning profile into the folder.
    CopyProfile,
    /// Generate the entitlements.
    GenerateXcent,
    /// Sign the binary.
    SignBinary,
    /// Sign the bundle itself.
    SignBundle,
    /// Pack the folder as an installable archive.
    GenerateIpa,
}

impl AppleStage {
    /// The place of the stage in the order of an assembly.
    pub open spec fn order(self) -> nat {
        match self {
            AppleStage::Compile => 1,
            AppleStage::PrepareResources => 2,
            AppleStage::GenerateAppFolder => 3,
            AppleStage::CopyBinary => 4,
            AppleStage::GenerateInfoPlist => 5,
            AppleStage::CopyProfile => 6,
            AppleStage::GenerateXcent => 7,
            AppleStage::SignBinary => 8,
            AppleStage::SignBundle => 9,
            AppleStage::GenerateIpa => 10,
        }
    }

    /// Whether the stage is part of code signing.
    pub open spec fn is_signing(self) -> bool {
        self == AppleStage::CopyProfile || self == AppleStage::GenerateXcent || self
            == AppleStage::SignBinary || self == AppleStage::SignBundle
    }
}

/// How an application is assembled.
#[derive(Clone, Copy, Debug, PartialEq, Eq, Structural)]
pub enum IosStrategy {
    /// By the toolchain's own steps, ending in an installable archive.
    NativeIpa,
}

/// One step of an assembly: a stage for an architecture.
#[derive(Clone, Copy, Debug, PartialEq, Eq, Structural)]
pub struct AppleStep {
    pub stage: AppleStage,
    pub build_target: AppleTarget,
}

/// The stages of the assembly for one architecture. The signing stages are
/// there exactly if `signing` is set, and resources are prepared exactly if
/// `prepares` is set.
pub open spec fn apple_stages(signing: bool, prepares: bool) -> Seq<AppleStage> {
    seq![AppleStage::Compile] + (if prepares {
        seq![AppleStage::PrepareResources]
    } else {
        Seq::empty()
    }) + seq![
        AppleStage::GenerateAppFolder,
        AppleStage::CopyBinary,
        AppleStage::GenerateInfoPlist,
    ] + (if signing {
        seq![
            AppleStage::CopyProfile,
            AppleStage::GenerateXcent,
            AppleStage::SignBinary,
            AppleStage::SignBundle,
        ]
    } else {
        Seq::empty()
    }) + seq![AppleStage::GenerateIpa]
}

/// The steps of the assembly for one architecture.
pub open spec fn target_steps(build_target: AppleTarget, signing: bool, prepares: bool) -> Seq<
    AppleStep,
> {
    apple_stages(signing, prepares).map_values(
        |stage: AppleStage| AppleStep { stage: stage, build_target: build_target },
    )
}

/// The steps of the assembly for `targets`: all steps of the first
/// architecture, then all steps of the second, and so on.
pub open spec fn apple_steps(targets: Seq<AppleTarget>, signing: bool, prepares: bool) -> Seq<
    AppleStep,
>
    decreases targets.len(),
{
    if targets.len() == 0 {
        Seq::empty()
    } else {
        apple_steps(targets.drop_last(), signing, prepares) + target_steps(
            targets.last(),
            signing,
            prepares,
        )
    }
}

/// Appends one step.
fn push_step(steps: &mut Vec<AppleStep>, stage: AppleStage, build_target: AppleTarget)
    ensures
        final(steps)@ == old(steps)@.push(AppleStep { stage: stage, build_target: build_target }),
{
    steps.push(AppleStep { stage, build_target });
}

/// Appends the steps of the assembly for one architecture.
fn push_target_steps(
    steps: &mut Vec<AppleStep>,
    target: AppleTarget,
    signing: bool,
    prepares: bool,
)
    ensures
        final(steps)@ == old(steps)@ + target_steps(target, signing, prepares),
{
    push_step(steps, AppleStage::Compile, target);
    if prepares {
        push_step(steps, AppleStage::PrepareResources, target);
    }
    push_step(steps, AppleStage::GenerateAppFolder, target);
    push_step(steps, AppleStage::CopyBinary, target);
    push_step(steps, AppleStage::GenerateInfoPlist, target);
    if signing {
        push_step(steps, AppleStage::CopyProfile, target);
        push_step(steps, AppleStage::GenerateXcent, target);
        push_step(steps, AppleStage::SignBinary, target);
        push_step(steps, AppleStage::SignBundle, target);
    }
    push_step(steps, AppleStage::GenerateIpa, target);
    assert(steps@ =~= old(steps)@ + target_steps(target, signing, prepares));
}

/// The steps of the assembly for `targets`, in the order in which they run.
pub fn apple_pipeline_steps(targets: &[AppleTarget], signing: bool, prepares: bool) -> (steps:
    Vec<AppleStep>)
    ensures
        steps@ == apple_steps(targets@, signing, prepares),
{
    let mut steps: Vec<AppleStep> = Vec::new();
    let mut i: usize = 0;
    while i < targets.len()
        invariant
            i <= targets.len(),
            steps@ == apple_steps(targets@.take(i as int), signing, prepares),
        decreases targets.len() - i,
    {
        let target = targets[i];
        push_target_steps(&mut steps, target, signing, prepares);
        proof {
            assert(targets@.take(i + 1).drop_last() == targets@.take(i as int));
            assert(targets@.take(i + 1).last() == target);
        }
        i += 1;
    }
    assert(targets@.take(targets.len() as int) == targets@);
    steps
}

/// Every step of an assembly is a step of one of its architectures and one
/// of the stages of the assembly.
pub proof fn lemma_apple_steps_members(
    targets: Seq<AppleTarget>,
    signing: bool,
    prepares: bool,
    k: int,
)
    requires
        0 <= k < apple_steps(targets, signing, prepares).len(),
    ensures
        targets.contains(apple_steps(targets, signing, prepares)[k].build_target),
        apple_stages(signing, prepares).contains(
            apple_steps(targets, signing, prepares)[k].stage,
        ),
    decreases targets.len(),
{
    if targets.len() > 0 {
        let head = apple_steps(targets.drop_last(), signing, prepares);
        let tail = target_steps(targets.last(), signing, prepares);
        if k < head.len() {
            lemma_apple_steps_members(targets.drop_last(), signing, prepares, k);
            let t = head[k].build_target;
            let i = choose|i: int| 0 <= i < targets.drop_last().len() && targets.drop_last()[i] == t;
            assert(targets[i] == t);
        } else {
            let stage = apple_stages(signing, prepares)[k - head.len()];
            assert(tail[k - head.len()].stage == stage);
            assert(targets[targets.len() - 1] == targets.last());
        }
    }
}

/// Without a signing identity no stage of an assembly signs anything, and
/// neither a profile is copied nor entitlements are generated.
pub proof fn lemma_unsigned_build_skips_signing(
    targets: Seq<AppleTarget>,
    prepares: bool,
    k: int,
)
    requires
        0 <= k < apple_steps(targets, false, prepares).len(),
    ensures
        !apple_steps(targets, false, prepares)[k].stage.is_signing(),
{
    lemma_apple_steps_members(targets, false, prepares, k);
    let stage = apple_steps(targets, false, prepares)[k].stage;
    let stages = apple_stages(false, prepares);
    let i = choose|i: int| 0 <= i < stages.len() && stages[i] == stage;
    assert(!stages[i].is_signing());
}

/// Without a signing identity the assembly of one architecture signs
/// nothing, copies no profile and generates no entitlements.
pub proof fn lemma_unsigned_app_skips_signing(build_target: AppleTarget, prepares: bool, k: int)
    requires
        0 <= k < target_steps(build_target, false, prepares).len(),
    ensures
        !target_steps(build_target, false, prepares)[k].stage.is_signing(),
        target_steps(build_target, false, prepares)[k].build_target == build_target,
{
}

/// The stages of one architecture stand in their order, each once: the
/// binary is signed before the bundle, and both after the property list is
/// written.
pub proof fn lemma_apple_stages_in_order(signing: bool, prepares: bool, i: int, j: int)
    requires
        0 <= i < j < apple_stages(signing, prepares).len(),
    ensures
        apple_stages(signing, prepares)[i].order() < apple_stages(signing, prepares)[j].order(),
{
}

/// How an application is signed.
#[derive(Debug, PartialEq, Eq)]
pub struct Signing {
    /// The identity used for signing.
    pub identity: String,
    /// The team identifier of the identity.
    pub team_identifier: String,
    /// The name of the provisioning profile to look up.
    pub profile_name: Option<String>,
    /// The path of the provisioning profile.
    pub profile_path: Option<String>,
}

/// A `Signing` as plain data.
pub struct SigningView {
    pub identity: Seq<char>,
    pub team_identifier: Seq<char>,
    pub profile_name: Option<Seq<char>>,
    pub profile_path: Option<Seq<char>>,
}

impl View for Signing {
    type V = SigningView;

    open spec fn view(&self) -> SigningView {
        SigningView {
            identity: self.identity@,
            team_identifier: self.team_identifier@,
            profile_name: opt_text(self.profile_name),
            profile_path: opt_text(self.profile_path),
        }
    }
}

/// The view of an optional signing.
pub open spec fn opt_signing(signing: Option<Signing>) -> Option<SigningView> {
    match signing {
        Some(s) => Some(s@),
        None => None,
    }
}

/// How a build is signed: not at all without an identity; with an identity
/// and a team identifier as they say; and an identity without a team
/// identifier is an error.
pub open spec fn signing_of(
    identity: Option<Seq<char>>,
    team_identifier: Option<Seq<char>>,
    profile_name: Option<Seq<char>>,
    profile_path: Option<Seq<char>>,
) -> Result<Option<SigningView>, Error> {
    match identity {
        None => Ok(None),
        Some(id) => match team_identifier {
            None => Err(Error::TeamIdentifierNotProvided),
            Some(team) => Ok(
                Some(
                    SigningView {
                        identity: id,
                        team_identifier: team,
                        profile_name: profile_name,
                        profile_path: profile_path,
                    },
                ),
            ),
        },
    }
}

/// Decides how a build is signed.
fn signing(
    identity: &Option<String>,
    team_identifier: &Option<String>,
    profile_name: &Option<String>,
    profile_path: &Option<String>,
) -> (decided: Result<Option<Signing>, Error>)
    ensures
        match decided {
            Ok(s) => Ok::<Option<SigningView>, Error>(opt_signing(s)) == signing_of(
                opt_text(*identity),
                opt_text(*team_identifier),
                opt_text(*profile_name),
                opt_text(*profile_path),
            ),
            Err(e) => Err::<Option<SigningView>, Error>(e) == signing_of(
                opt_text(*identity),
                opt_text(*team_identifier),
                opt_text(*profile_name),
                opt_text(*profile_path),
            ),
        },
{
    match identity {
        None => Ok(None),
        Some(id) => match team_identifier {
            None => Err(Error::TeamIdentifierNotProvided),
            Some(team) => Ok(
                Some(
                    Signing {
                        identity: id.clone(),
                        team_identifier: team.clone(),
                        profile_name: copy_opt(profile_name),
                        profile_path: copy_opt(profile_path),
                    },
                ),
            ),
        },
    }
}

/// The assembly of the application for one architecture: where it is
/// built, and by which steps.
#[derive(Debug, PartialEq, Eq)]
pub struct AppleApp {
    /// The architecture.
    pub build_target: AppleTarget,
    /// The compiled binary.
    pub bin_path: String,
    /// The directory in which the application's folder is generated. It is
    /// keyed by the profile alone, so the architectures of one build share it
    /// and the folder of a later one takes the place of an earlier one.
    pub app_dir: String,
    /// The steps of the assembly, in the order in which they run.
    pub steps: Vec<AppleStep>,
}

/// Whether `app` is the assembly of the application `name` for
/// `build_target`: the binary is what the compiler leaves below the triple
/// and the profile, the folder goes below `apple` and the profile, and the
/// steps are those of one architecture, with the signing stages exactly if
/// `signing` is set.
pub open spec fn is_app_of(
    app: AppleApp,
    target_dir: Seq<char>,
    build_target: AppleTarget,
    profile: Profile,
    name: Seq<char>,
    signing: bool,
    prepares: bool,
) -> bool {
    &&& app.build_target == build_target
    &&& app.bin_path@ == path_join3(
        target_dir,
        build_target.rust_triple_text(),
        profile.name(),
        name,
    )
    &&& app.app_dir@ == path_join2(target_dir, "apple"@, profile.name())
    &&& app.steps@ == target_steps(build_target, signing, prepares)
}

/// Whether `apps` are the assemblies of the application `name` for
/// `targets`, one after the other.
pub open spec fn are_apps_of(
    apps: Seq<AppleApp>,
    target_dir: Seq<char>,
    targets: Seq<AppleTarget>,
    profile: Profile,
    name: Seq<char>,
    signing: bool,
    prepares: bool,
) -> bool {
    &&& apps.len() == targets.len()
    &&& forall|i: int|
        0 <= i < apps.len() ==> is_app_of(
            #[trigger] apps[i],
            target_dir,
            targets[i],
            profile,
            name,
            signing,
            prepares,
        )
}

/// Plans the assembly of the application `name` for `build_target`: where
/// the binary and the folder go, and the steps in their order. Nothing is
/// signed unless `signing` is set; with it the profile is copied, the
/// entitlements are generated, and the binary is signed before the bundle.
pub fn build_app(
    target_dir: &str,
    build_target: AppleTarget,
    profile: Profile,
    name: &str,
    signing: bool,
    prepares: bool,
) -> (app: AppleApp)
    ensures
        is_app_of(app, target_dir@, build_target, profile, name@, signing, prepares),
{
    let rust_triple = build_target.rust_triple();
    let bin_path = join3(target_dir, rust_triple, profile.as_str(), name);
    let app_dir = join2(target_dir, "apple", profile.as_str());
    let mut steps: Vec<AppleStep> = Vec::new();
    push_target_steps(&mut steps, build_target, signing, prepares);
    assert(steps@ =~= target_steps(build_target, signing, prepares));
    AppleApp { build_target, bin_path, app_dir, steps }
}

/// Plans the assembly of the application `name` for every one of `targets`.
fn build_apps(
    target_dir: &str,
    targets: &[AppleTarget],
    profile: Profile,
    name: &str,
    signing: bool,
    prepares: bool,
) -> (apps: Vec<AppleApp>)
    ensures
        are_apps_of(apps@, target_dir@, targets@, profile, name@, signing, prepares),
{
    let mut apps: Vec<AppleApp> = Vec::new();
    let mut i: usize = 0;
    while i < targets.len()
        invariant
            i <= targets.len(),
            are_apps_of(
                apps@,
                target_dir@,
                targets@.take(i as int),
                profile,
                name@,
                signing,
                prepares,
            ),
        decreases targets.len() - i,
    {
        let ghost earlier = apps@;
        let app = build_app(target_dir, targets[i], profile, name, signing, prepares);
        apps.push(app);
        proof {
            assert forall|j: int| 0 <= j < apps@.len() implies is_app_of(
                #[trigger] apps@[j],
                target_dir@,
                targets@.take(i + 1)[j],
                profile,
                name@,
                signing,
                prepares,
            ) by {
                if j < i {
                    assert(apps@[j] == earlier[j]);
                    assert(targets@.take(i + 1)[j] == targets@.take(i as int)[j]);
                }
            }
        }
        i += 1;
    }
    assert(targets@.take(targets.len() as int) == targets@);
    apps
}

/// The product and its name: the example that is asked for; else the
/// binary that is asked for; else the binary named `fallback`.
fn select_target(example: &Option<String>, bin: &Option<String>, fallback: &str) -> (selected: (
    Target,
    String,
))
    ensures
        selected.0@ == Target::select(
            opt_text(*example),
            opt_text(*bin),
            TargetView::Bin(fallback@),
        ),
        selected.1@ == product_name(opt_text(*example), opt_text(*bin), fallback@),
{
    match example {
        Some(name) => (Target::Example(name.clone()), name.clone()),
        None => match bin {
            Some(name) => (Target::Bin(name.clone()), name.clone()),
            None => (Target::Bin(fallback.to_owned()), fallback.to_owned()),
        },
    }
}

/// The name of the product: that of the example, else that of the binary,
/// else the fallback.
pub open spec fn product_name(
    example: Option<Seq<char>>,
    bin: Option<Seq<char>>,
    fallback: Seq<char>,
) -> Seq<char> {
    match example {
        Some(name) => name,
        None => match bin {
            Some(name) => name,
            None => fallback,
        },
    }
}

/// The build command for Apple platforms.
#[derive(Debug, PartialEq, Eq)]
pub struct AppleBuildCommand {
    /// The options shared with the other platforms.
    pub shared: SharedBuildCommand,
    /// Specify custom cargo binary.
    pub bin: Option<String>,
    /// Build for the given apple architecture.
    pub target: Vec<AppleTarget>,
    /// Provisioning profile name to find in the profiles directory.
    pub profile_name: Option<String>,
    /// Absolute path to provisioning profile.
    pub profile_path: Option<String>,
    /// The team identifier of your signing identity.
    pub team_identifier: Option<String>,
    /// The id of the identity used for signing. Nothing is signed until it
    /// is given.
    pub identity: Option<String>,
}

/// The plan of the assembly of an application.
#[derive(Debug, PartialEq, Eq)]
pub struct AppleBuild {
    /// The Apple metadata of the package.
    pub metadata: AppleMetadata,
    /// The name of the product.
    pub name: String,
    /// The product that is compiled.
    pub target: Target,
    /// The profile.
    pub profile: Profile,
    /// The architectures, in the order in which they are built.
    pub build_targets: Vec<AppleTarget>,
    /// Where the application is built, for every architecture.
    pub apps: Vec<AppleApp>,
    /// How the applications are signed, if they are.
    pub signing: Option<Signing>,
}

impl AppleBuildCommand {
    /// The architectures of a build: those that the command names, and
    /// where it names none, those of the metadata.
    pub open spec fn build_targets_of(&self, metadata: AppleMetadata) -> Option<Seq<AppleTarget>> {
        if self.target@.len() > 0 {
            Some(self.target@)
        } else {
            metadata@.build_targets
        }
    }

    /// The package with its Apple metadata, where the manifest has both;
    /// else the error that says what is missing.
    pub open spec fn apple_metadata(build_context: &BuildContext) -> Result<
        (Seq<char>, AppleMetadata),
        Error,
    > {
        match build_context.package_metadata() {
            Err(e) => Err(e),
            Ok((package, metadata)) => match metadata.apple {
                None => Err(Error::InvalidManifestMetadata),
                Some(apple) => Ok((package.name@, apple)),
            },
        }
    }

    /// The error that keeps the build from being planned, if there is one:
    /// the manifest describes no package; the package carries no Apple
    /// metadata; no architecture is named; there is something to sign and an
    /// identity, but no team identifier.
    pub open spec fn plan_error(&self, build_context: &BuildContext) -> Option<Error> {
        match Self::apple_metadata(build_context) {
            Err(e) => Some(e),
            Ok((name, metadata)) => match self.build_targets_of(metadata) {
                None => Some(Error::BuildTargetsNotProvided),
                Some(targets) => {
                    if targets.len() > 0 && self.identity is Some && self.team_identifier is None {
                        Some(Error::TeamIdentifierNotProvided)
                    } else {
                        None
                    }
                },
            },
        }
    }

    /// Whether `build` is the plan of this command in `build_context`.
    pub open spec fn plans(&self, build_context: &BuildContext, build: AppleBuild) -> bool {
        match Self::apple_metadata(build_context) {
            Err(e) => false,
            Ok((package_name, metadata)) => {
                &&& build.metadata@ == metadata@
                &&& build.name@ == product_name(
                    opt_text(self.shared.example),
                    opt_text(self.bin),
                    package_name,
                )
                &&& build.target@ == Target::select(
                    opt_text(self.shared.example),
                    opt_text(self.bin),
                    TargetView::Bin(package_name),
                )
                &&& build.profile == (if self.shared.release {
                    Profile::Release
                } else {
                    Profile::Debug
                })
                &&& Some(build.build_targets@) == self.build_targets_of(metadata)
                &&& are_apps_of(
                    build.apps@,
                    build_context.target_dir@,
                    build.build_targets@,
                    build.profile,
                    build.name@,
                    build.signing is Some,
                    false,
                )
                &&& opt_signing(build.signing) == (match signing_of(
                    opt_text(self.identity),
                    opt_text(self.team_identifier),
                    opt_text(self.profile_name),
                    opt_text(self.profile_path),
                ) {
                    Ok(signing) => signing,
                    Err(e) => None,
                })
            },
        }
    }

    /// Plans the assembly of the application: which product is compiled for
    /// which architectures with which profile, where the binaries and the
    /// folders go, and whether and how the result is signed. A configuration
    /// that lacks something is refused with the error that says what.
    pub fn execute(&self, build_context: &BuildContext) -> (planned: Result<AppleBuild, Error>)
        ensures
            match planned {
                Ok(build) => self.plan_error(build_context) is None && self.plans(
                    build_context,
                    build,
                ),
                Err(e) => self.plan_error(build_context) == Some(e),
            },
    {
        let package = match &build_context.manifest.package {
            Some(package) => package,
            None => {
                return Err(Error::InvalidManifest);
            },
        };
        let metadata = match &package.metadata {
            Some(metadata) => match &metadata.apple {
                Some(apple) => apple.clone(),
                None => {
                    return Err(Error::InvalidManifestMetadata);
                },
            },
            None => {
                return Err(Error::InvalidManifestMetadata);
            },
        };
        let profile = self.shared.profile();
        let (target, name) = select_target(&self.shared.example, &self.bin, package.name.as_str());
        let build_targets = if self.target.len() > 0 {
            copy_of(self.target.as_slice())
        } else {
            match &metadata.build_targets {
                Some(targets) => copy_of(targets.as_slice()),
                None => {
                    return Err(Error::BuildTargetsNotProvided);
                },
            }
        };
        let signing = match signing(
            &self.identity,
            &self.team_identifier,
            &self.profile_name,
            &self.profile_path,
        ) {
            Ok(signing) => signing,
            Err(e) => {
                if build_targets.len() > 0 {
                    return Err(e);
                }
                None
            },
        };
        let apps = build_apps(
            build_context.target_dir.as_str(),
            build_targets.as_slice(),
            profile,
            name.as_str(),
            signing.is_some(),
            false,
        );
        Ok(AppleBuild { metadata, name, target, profile, build_targets, apps, signing })
    }

    /// Plans the assembly and sets up the pipeline that runs it, with no
    /// stage run yet. The pipeline signs exactly if the plan does.
    pub fn run(&self, build_context: &BuildContext) -> (started: Result<
        (AppleBuild, Pipeline<AppleStep>),
        Error,
    >)
        ensures
            match started {
                Ok((build, pipeline)) => {
                    &&& self.plan_error(build_context) is None
                    &&& self.plans(build_context, build)
                    &&& pipeline@ == PipelineView::start(
                        apple_steps(build.build_targets@, build.signing is Some, false),
                    )
                },
                Err(e) => self.plan_error(build_context) == Some(e),
            },
    {
        let build = match self.execute(build_context) {
            Ok(build) => build,
            Err(e) => {
                return Err(e);
            },
        };
        let steps = apple_pipeline_steps(
            build.build_targets.as_slice(),
            build.signing.is_some(),
            false,
        );
        Ok((build, Pipeline::new(steps)))
    }
}

/// The architectures of an iOS build: those that the command names; where
/// it names none, those that the configuration lists for the profile; and
/// where it lists none, the simulator on 64-bit ARM.
pub open spec fn ios_build_targets(
    named: Seq<IosTarget>,
    profile: Profile,
    debug_build_targets: Seq<IosTarget>,
    release_build_targets: Seq<IosTarget>,
) -> Seq<IosTarget> {
    if named.len() > 0 {
        named
    } else if profile == Profile::Debug && debug_build_targets.len() > 0 {
        debug_build_targets
    } else if profile == Profile::Release && release_build_targets.len() > 0 {
        release_build_targets
    } else {
        seq![AppleTarget::Aarch64Sim]
    }
}

/// Where the property list of an application comes from.
#[derive(Debug, PartialEq, Eq)]
pub enum InfoPlistPlan {
    /// It is read from the file.
    Read { path: String },
    /// It is generated: from the list that the configuration spells out
    /// where `from_config` is set, else from an empty list; then what is
    /// missing is filled in from the name of the package and the name of the
    /// application, and the permissions of the configuration are added.
    Generate { from_config: bool, package_name: String, app_name: Option<String> },
}

/// An `InfoPlistPlan` as plain data.
pub enum InfoPlistPlanView {
    Read { path: Seq<char> },
    Generate { from_config: bool, package_name: Seq<char>, app_name: Option<Seq<char>> },
}

impl View for InfoPlistPlan {
    type V = InfoPlistPlanView;

    open spec fn view(&self) -> InfoPlistPlanView {
        match self {
            InfoPlistPlan::Read { path } => InfoPlistPlanView::Read { path: path@ },
            InfoPlistPlan::Generate { from_config, package_name, app_name } => {
                InfoPlistPlanView::Generate {
                    from_config: *from_config,
                    package_name: package_name@,
                    app_name: opt_text(*app_name),
                }
            },
        }
    }
}

/// Where the property list comes from: from the file that the
/// configuration names, and else it is generated.
pub open spec fn info_plist_plan(config: CrossbowMetadata, package_name: Seq<char>) -> InfoPlistPlanView {
    match config.apple.info_plist_path {
        Some(path) => InfoPlistPlanView::Read { path: path@ },
        None => InfoPlistPlanView::Generate {
            from_config: config.apple.has_info_plist,
            package_name: package_name,
            app_name: opt_text(config.app_name),
        },
    }
}

/// The directories that are generated for the assets and the resources of
/// an application below `out_dir`: the assets first, the resources second.
/// Resources are generated where the configuration names any or an icon;
/// assets are generated where the configuration names resources.
pub open spec fn prepared_dirs(config: CrossbowMetadata, out_dir: Seq<char>) -> (
    Option<Seq<char>>,
    Option<Seq<char>>,
) {
    let no_resources = config.apple.resources@.len() == 0;
    (
        if !no_resources {
            Some(path_join(out_dir, "gen_assets"@))
        } else {
            None
        },
        if no_resources && config.icon is None {
            None
        } else {
            Some(path_join(out_dir, "gen_resources"@))
        },
    )
}

/// The build command for iOS.
#[derive(Debug, PartialEq, Eq)]
pub struct IosBuildCommand {
    /// The options shared with the other platforms.
    pub shared: SharedBuildCommand,
    /// Specify custom cargo binary.
    pub bin: Option<String>,
    /// Build for the given apple architecture.
    pub target: Vec<IosTarget>,
    /// Build strategy specifies what and how to build the application.
    pub strategy: IosStrategy,
    /// Provisioning profile name to find in the profiles directory.
    pub profile_name: Option<String>,
    /// Absolute path to provisioning profile.
    pub profile_path: Option<String>,
    /// The team identifier of your signing identity.
    pub team_identifier: Option<String>,
    /// The id of the identity used for signing. Nothing is signed until it
    /// is given.
    pub identity: Option<String>,
}

/// The plan of the assembly of an iOS application.
#[derive(Debug, PartialEq, Eq)]
pub struct IosBuild {
    /// Where the property list comes from.
    pub info_plist: InfoPlistPlan,
    /// The name of the product.
    pub name: String,
    /// The product that is compiled.
    pub target: Target,
    /// The profile.
    pub profile: Profile,
    /// The architectures, in the order in which they are built.
    pub build_targets: Vec<IosTarget>,
    /// Where the application is built, for every architecture.
    pub apps: Vec<AppleApp>,
    /// How the applications are signed, if they are.
    pub signing: Option<Signing>,
}

impl IosBuildCommand {
    /// Get the architectures of a build: those given; else those of the
    /// configuration for the profile; else the simulator.
    pub fn apple_build_targets(
        context: &BuildContext,
        profile: Profile,
        build_targets: &Vec<IosTarget>,
    ) -> (targets: Vec<IosTarget>)
        ensures
            targets@ == ios_build_targets(
                build_targets@,
                profile,
                context.config.apple.debug_build_targets@,
                context.config.apple.release_build_targets@,
            ),
    {
        if build_targets.len() > 0 {
            return copy_of(build_targets.as_slice());
        }
        let debug = match profile {
            Profile::Debug => true,
            Profile::Release => false,
        };
        if debug && context.config.apple.debug_build_targets.len() > 0 {
            return copy_of(context.config.apple.debug_build_targets.as_slice());
        }
        if !debug && context.config.apple.release_build_targets.len() > 0 {
            return copy_of(context.config.apple.release_build_targets.as_slice());
        }
        let mut targets: Vec<IosTarget> = Vec::new();
        targets.push(AppleTarget::Aarch64Sim);
        assert(targets@ =~= seq![AppleTarget::Aarch64Sim]);
        targets
    }

    /// Says where the property list comes from: from the file that the
    /// configuration names, or generated with the given configuration.
    pub fn gen_info_plist(context: &BuildContext, package_name: &str) -> (plan: InfoPlistPlan)
        ensures
            plan@ == info_plist_plan(context.config, package_name@),
    {
        match &context.config.apple.info_plist_path {
            Some(path) => InfoPlistPlan::Read { path: path.clone() },
            None => InfoPlistPlan::Generate {
                from_config: context.config.apple.has_info_plist,
                package_name: package_name.to_owned(),
                app_name: copy_opt(&context.config.app_name),
            },
        }
    }

    /// Says which directories are generated for the assets and the
    /// resources of the application below `out_dir`.
    pub fn prepare_assets_and_resources(config: &CrossbowMetadata, out_dir: &str) -> (dirs: (
        Option<String>,
        Option<String>,
    ))
        ensures
            (opt_text(dirs.0), opt_text(dirs.1)) == prepared_dirs(*config, out_dir@),
    {
        let res = config.get_apple_resources();
        assert(res@.len() == texts(res@).len());
        assert(config.apple.resources@.len() == texts(config.apple.resources@).len());
        let gen_resources = if res.len() == 0 && config.icon.is_none() {
            None
        } else {
            Some(join(out_dir, "gen_resources"))
        };
        let gen_assets = if res.len() > 0 {
            Some(join(out_dir, "gen_assets"))
        } else {
            None
        };
        (gen_assets, gen_resources)
    }

    /// The error that keeps the build from being planned, if there is one:
    /// the product is to be named after the package, and the manifest
    /// describes none; or there is an identity, but no team identifier.
    pub open spec fn plan_error(&self, context: &BuildContext) -> Option<Error> {
        if self.shared.example is None && self.bin is None && context.manifest.package is None {
            Some(Error::InvalidManifest)
        } else if self.identity is Some && self.team_identifier is None {
            Some(Error::TeamIdentifierNotProvided)
        } else {
            None
        }
    }

    /// The name of the package, as far as a build needs it.
    pub open spec fn package_name_of(context: &BuildContext) -> Seq<char> {
        match context.manifest.package {
            Some(package) => package.name@,
            None => Seq::empty(),
        }
    }

    /// Whether `build` is the plan of this command in `context`.
    pub open spec fn plans(&self, context: &BuildContext, build: IosBuild) -> bool {
        let package_name = Self::package_name_of(context);
        &&& build.name@ == product_name(
            opt_text(self.shared.example),
            opt_text(self.bin),
            package_name,
        )
        &&& build.target@ == Target::select(
            opt_text(self.shared.example),
            opt_text(self.bin),
            TargetView::Bin(package_name),
        )
        &&& build.info_plist@ == info_plist_plan(context.config, build.name@)
        &&& build.profile == (if self.shared.release {
            Profile::Release
        } else {
            Profile::Debug
        })
        &&& build.build_targets@ == ios_build_targets(
            self.target@,
            build.profile,
            context.config.apple.debug_build_targets@,
            context.config.apple.release_build_targets@,
        )
        &&& are_apps_of(
            build.apps@,
            context.target_dir@,
            build.build_targets@,
            build.profile,
            build.name@,
            build.signing is Some,
            true,
        )
        &&& Ok::<Option<SigningView>, Error>(opt_signing(build.signing)) == signing_of(
            opt_text(self.identity),
            opt_text(self.team_identifier),
            opt_text(self.profile_name),
            opt_text(self.profile_path),
        )
    }

    /// Plans the assembly of the application: which product is compiled for
    /// which architectures with which profile, where the property list comes
    /// from, where the binaries and the folders go, and whether and how the
    /// result is signed.
    pub fn execute(&self, context: &BuildContext) -> (planned: Result<IosBuild, Error>)
        ensures
            match planned {
                Ok(build) => self.plan_error(context) is None && self.plans(context, build),
                Err(e) => self.plan_error(context) == Some(e),
            },
    {
        let profile = self.shared.profile();
        let package_name = match context.package_name() {
            Some(name) => name,
            None => {
                if self.shared.example.is_none() && self.bin.is_none() {
                    return Err(Error::InvalidManifest);
                }
                String::new()
            },
        };
        let (target, name) = select_target(&self.shared.example, &self.bin, package_name.as_str());
        let info_plist = Self::gen_info_plist(context, name.as_str());
        let build_targets = Self::apple_build_targets(context, profile, &self.target);
        let signing = match signing(
            &self.identity,
            &self.team_identifier,
            &self.profile_name,
            &self.profile_path,
        ) {
            Ok(signing) => signing,
            Err(e) => {
                return Err(e);
            },
        };
        let apps = build_apps(
            context.target_dir.as_str(),
            build_targets.as_slice(),
            profile,
            name.as_str(),
            signing.is_some(),
            true,
        );
        Ok(IosBuild { info_plist, name, target, profile, build_targets, apps, signing })
    }

    /// Plans the assembly by the strategy of the command and sets up the
    /// pipeline that runs it, with no stage run yet. The pipeline signs
    /// exactly if the plan does, and prepares assets and resources for every
    /// architecture.
    pub fn run(&self, context: &BuildContext) -> (started: Result<
        (IosBuild, Pipeline<AppleStep>),
        Error,
    >)
        ensures
            match started {
                Ok((build, pipeline)) => {
                    &&& self.plan_error(context) is None
                    &&& self.plans(context, build)
                    &&& pipeline@ == PipelineView::start(
                        apple_steps(build.build_targets@, build.signing is Some, true),
                    )
                },
                Err(e) => self.plan_error(context) == Some(e),
            },
    {
        match self.strategy {
            IosStrategy::NativeIpa => {
                let build = match self.execute(context) {
                    Ok(build) => build,
                    Err(e) => {
                        return Err(e);
                    },
                };
                let steps = apple_pipeline_steps(
                    build.build_targets.as_slice(),
                    build.signing.is_some(),
                    true,
                );
                Ok((build, Pipeline::new(steps)))
            },
        }
    }
}

} // verus!
