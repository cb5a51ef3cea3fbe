//! The executor's decision on one invocation, and the two executors.
use vstd::prelude::*;
use crate::command_line::{CommandLine, CommandLineView};
use crate::executor::linker::linker_args;
use crate::executor::rewrite::{
    demote, demoted, get_cmd_args, outcome_view, package_command, packaged_command,
};
use crate::executor::unit::{
    CompileMode, CompileTarget, ExecutorError, ExecutorErrorView, TargetKind, TargetSourcePath,
};
use crate::types::android_target::AndroidTarget;
use crate::types::profile::Profile;

verus! {

/// What is to be done with an invocation.
#[derive(Debug, PartialEq, Eq)]
pub enum ExecStep {
    /// Run this command.
    Run(CommandLine),
    /// Do nothing; the invocation counts as done.
    Skip,
    /// Generate a source file from the content of the unit's source file
    /// `source` and the glue code, then run the command that the rewrite
    /// makes of the invocation.
    Prepare { source: String },
}

/// An `ExecStep` as plain data.
pub enum ExecStepView {
    Run(CommandLineView),
    Skip,
    Prepare { source: Seq<char> },
}

impl View for ExecStep {
    type V = ExecStepView;

    open spec fn view(&self) -> ExecStepView {
        match self {
            ExecStep::Run(cmd) => ExecStepView::Run(cmd@),
            ExecStep::Skip => ExecStepView::Skip,
            ExecStep::Prepare { source } => ExecStepView::Prepare { source: source@ },
        }
    }
}

/// Whether an invocation is rewritten for packaging: it builds an
/// executable.
pub open spec fn is_packaged(kind: TargetKind, mode: CompileMode) -> bool {
    mode == CompileMode::Build && kind.is_executable()
}

/// The decision of the executor that keeps library crates as intermediate
/// artifacts. The build of an executable is packaged: its source file is
/// generated from the source of the unit, and nothing is done where that
/// source is not a file. Test builds are refused. In every other build the
/// crate type `cdylib` is demoted to `rlib`. What is neither build nor test
/// runs as it came.
pub open spec fn compilation_step(
    cmd: CommandLineView,
    target_name: Seq<char>,
    kind: TargetKind,
    src_path: Option<Seq<char>>,
    mode: CompileMode,
) -> Result<ExecStepView, ExecutorErrorView> {
    if is_packaged(kind, mode) {
        match src_path {
            Some(source) => Ok(ExecStepView::Prepare { source: source }),
            None => Ok(ExecStepView::Skip),
        }
    } else if mode == CompileMode::Test {
        Err(ExecutorErrorView::TestModeUnsupported { target: target_name })
    } else if mode == CompileMode::Build {
        Ok(ExecStepView::Run(CommandLineView { args: demoted(cmd.args), ..cmd }))
    } else {
        Ok(ExecStepView::Run(cmd))
    }
}

/// Whether an invocation is a test build of an executable, which cannot be
/// packaged as a shared library.
pub open spec fn is_unpackable_test(kind: TargetKind, mode: CompileMode) -> bool {
    mode == CompileMode::Test && kind.is_executable()
}

/// The decision of the executor that packages executables and runs
/// everything else as it came. The build of an executable is packaged: its
/// source file is generated from the source of the unit, and nothing is done
/// where that source is not a file. The test build of an executable is
/// refused. Every invocation of a unit that makes no executable, and every
/// invocation that neither builds nor tests, runs as it came.
pub open spec fn default_step(
    cmd: CommandLineView,
    target_name: Seq<char>,
    kind: TargetKind,
    src_path: Option<Seq<char>>,
    mode: CompileMode,
) -> Result<ExecStepView, ExecutorErrorView> {
    if is_packaged(kind, mode) {
        match src_path {
            Some(source) => Ok(ExecStepView::Prepare { source: source }),
            None => Ok(ExecStepView::Skip),
        }
    } else if is_unpackable_test(kind, mode) {
        Err(ExecutorErrorView::TestModeUnsupported { target: target_name })
    } else {
        Ok(ExecStepView::Run(cmd))
    }
}

/// The test build of an executable is never packaged and never run,
/// whichever executor takes it and wherever its source is: the decision is
/// the refusal that names the target. The executor that keeps library crates
/// refuses the test build of every other unit too.
pub proof fn lemma_test_mode_is_refused(
    cmd: CommandLineView,
    target_name: Seq<char>,
    kind: TargetKind,
    src_path: Option<Seq<char>>,
)
    ensures
        compilation_step(cmd, target_name, kind, src_path, CompileMode::Test) == Err::<
            ExecStepView,
            ExecutorErrorView,
        >(ExecutorErrorView::TestModeUnsupported { target: target_name }),
        kind.is_executable() ==> default_step(cmd, target_name, kind, src_path, CompileMode::Test)
            == Err::<ExecStepView, ExecutorErrorView>(
            ExecutorErrorView::TestModeUnsupported { target: target_name },
        ),
{
}

/// Whatever makes no executable, and whatever is neither built nor tested,
/// runs as it came: the executor that packages executables hands the command
/// back unchanged, generates nothing and refuses nothing.
pub proof fn lemma_other_units_pass_through(
    cmd: CommandLineView,
    target_name: Seq<char>,
    kind: TargetKind,
    src_path: Option<Seq<char>>,
    mode: CompileMode,
)
    requires
        !kind.is_executable() || (mode != CompileMode::Build && mode != CompileMode::Test),
    ensures
        default_step(cmd, target_name, kind, src_path, mode) == Ok::<
            ExecStepView,
            ExecutorErrorView,
        >(ExecStepView::Run(cmd)),
{
}

/// The two executors decide alike on every invocation of an executable and
/// on every invocation that neither builds nor tests. They differ on units
/// that make no executable: one demotes the crate type of their builds and
/// refuses their tests, the other runs both as they came.
pub proof fn lemma_executors_differ_on_other_units_only(
    cmd: CommandLineView,
    target_name: Seq<char>,
    kind: TargetKind,
    src_path: Option<Seq<char>>,
    mode: CompileMode,
)
    ensures
        kind.is_executable() || (mode != CompileMode::Build && mode != CompileMode::Test)
            ==> compilation_step(cmd, target_name, kind, src_path, mode) == default_step(
            cmd,
            target_name,
            kind,
            src_path,
            mode,
        ),
        !kind.is_executable() && mode == CompileMode::Build ==> compilation_step(
            cmd,
            target_name,
            kind,
            src_path,
            mode,
        ) == Ok::<ExecStepView, ExecutorErrorView>(
            ExecStepView::Run(CommandLineView { args: demoted(cmd.args), ..cmd }),
        ),
{
}

/// The view of a decision that can be a refusal.
pub open spec fn decision_view(decision: Result<ExecStep, ExecutorError>) -> Result<
    ExecStepView,
    ExecutorErrorView,
> {
    match decision {
        Ok(step) => Ok(step@),
        Err(e) => Err(e@),
    }
}

/// Whether the invocation builds an executable.
fn packages(target: &CompileTarget, mode: CompileMode) -> (yes: bool)
    ensures
        yes == is_packaged(target.kind, mode),
{
    let build = match mode {
        CompileMode::Build => true,
        _ => false,
    };
    build && target.kind.makes_executable()
}

/// Decides what is done with the invocation `cmd` of the unit `target`
/// compiled for `mode`, for a build that keeps library crates as
/// intermediate artifacts.
pub fn exec_compilation(cmd: &CommandLine, target: &CompileTarget, mode: CompileMode) -> (decision:
    Result<ExecStep, ExecutorError>)
    ensures
        decision_view(decision) == compilation_step(
            cmd@,
            target.name@,
            target.kind,
            target.src_path@,
            mode,
        ),
{
    if packages(target, mode) {
        match &target.src_path {
            TargetSourcePath::Path(path) => Ok(ExecStep::Prepare { source: path.clone() }),
            TargetSourcePath::Metabuild => Ok(ExecStep::Skip),
        }
    } else {
        match mode {
            CompileMode::Test => Err(
                ExecutorError::TestModeUnsupported { target: target.name.clone() },
            ),
            CompileMode::Build => {
                let mut new_args = cmd.clone().args;
                demote(&mut new_args);
                Ok(ExecStep::Run(cmd.with_args(new_args)))
            },
            _ => Ok(ExecStep::Run(cmd.clone())),
        }
    }
}

/// The executor that packages executables and calls the compiler without
/// doing anything else for every other unit.
pub struct DefaultExecutor {
    build_target_dir: String,
}

impl Clone for DefaultExecutor {
    fn clone(&self) -> (copy: Self)
        ensures
            copy.build_dir() == self.build_dir(),
    {
        DefaultExecutor { build_target_dir: self.build_target_dir.clone() }
    }
}

impl DefaultExecutor {
    /// An executor that compiles into `build_target_dir`.
    pub fn new(build_target_dir: &str) -> (executor: Self)
        ensures
            executor.build_dir() == build_target_dir@,
    {
        DefaultExecutor { build_target_dir: build_target_dir.to_owned() }
    }

    /// The directory that all units are compiled into.
    pub closed spec fn build_dir(&self) -> Seq<char> {
        self.build_target_dir@
    }

    /// The directory that all units are compiled into.
    pub fn build_target_dir(&self) -> (dir: &str)
        ensures
            dir@ == self.build_dir(),
    {
        self.build_target_dir.as_str()
    }

    /// Decides what is done with the invocation `cmd` of the unit `target`
    /// compiled for `mode`.
    pub fn exec(&self, cmd: &CommandLine, target: &CompileTarget, mode: CompileMode) -> (decision:
        Result<ExecStep, ExecutorError>)
        ensures
            decision_view(decision) == default_step(
                cmd@,
                target.name@,
                target.kind,
                target.src_path@,
                mode,
            ),
    {
        if packages(target, mode) {
            match &target.src_path {
                TargetSourcePath::Path(path) => Ok(ExecStep::Prepare { source: path.clone() }),
                TargetSourcePath::Metabuild => Ok(ExecStep::Skip),
            }
        } else {
            let test = match mode {
                CompileMode::Test => true,
                _ => false,
            };
            if test && target.kind.makes_executable() {
                Err(ExecutorError::TestModeUnsupported { target: target.name.clone() })
            } else {
                Ok(ExecStep::Run(cmd.clone()))
            }
        }
    }

    /// Rewrites the invocation `cmd` of the executable `target_name` with
    /// the source file `source`, once the file `tmp_file_name` has been
    /// generated.
    pub fn rewrite(&self, cmd: &CommandLine, target_name: &str, source: &str, tmp_file_name: &str) -> (rewritten:
        Result<CommandLine, ExecutorError>)
        ensures
            outcome_view(rewritten) == packaged_command(
                cmd@,
                source@,
                tmp_file_name@,
                self.build_dir(),
                target_name@,
                Seq::empty(),
            ),
    {
        package_command(source, tmp_file_name, self.build_target_dir.as_str(), target_name, cmd)
    }
}

/// The executor which builds binary and example targets as shared libraries
/// that link native code, and keeps library crates as intermediate artifacts.
pub struct SharedLibraryExecutor {
    /// The directory of the NDK's toolchain.
    pub tool_root: String,
    /// The platform level whose libraries are linked.
    pub platform: u32,
    /// The directory that all units are compiled into.
    pub build_target_dir: String,
    /// The architecture.
    pub build_target: AndroidTarget,
    /// The profile.
    pub profile: Profile,
    /// Whether symbols are kept in release builds too.
    pub nostrip: bool,
}

impl SharedLibraryExecutor {
    /// Decides what is done with the invocation `cmd` of the unit `target`
    /// compiled for `mode`.
    pub fn exec(&self, cmd: &CommandLine, target: &CompileTarget, mode: CompileMode) -> (decision:
        Result<ExecStep, ExecutorError>)
        ensures
            decision_view(decision) == compilation_step(
                cmd@,
                target.name@,
                target.kind,
                target.src_path@,
                mode,
            ),
    {
        exec_compilation(cmd, target, mode)
    }

    /// Rewrites the invocation `cmd` of the executable `target_name` with
    /// the source file `source`, once the file `tmp_file_name` has been
    /// generated.
    pub fn rewrite(&self, cmd: &CommandLine, target_name: &str, source: &str, tmp_file_name: &str) -> (rewritten:
        Result<CommandLine, ExecutorError>)
        ensures
            outcome_view(rewritten) == packaged_command(
                cmd@,
                source@,
                tmp_file_name@,
                self.build_target_dir@,
                target_name@,
                linker_args(
                    self.tool_root@,
                    self.build_target.ndk_triple_text(),
                    self.platform as nat,
                    self.nostrip,
                    self.profile,
                ),
            ),
    {
        get_cmd_args(
            source,
            tmp_file_name,
            self.build_target_dir.as_str(),
            target_name,
            cmd,
            self.tool_root.as_str(),
            &self.build_target,
            self.platform,
            self.nostrip,
            self.profile,
        )
    }
}

} // verus!
