//! What the executor reads of a unit of compilation.
use vstd::prelude::*;
use crate::text::concat2;

verus! {

/// What the orchestrator compiles a unit for.
#[derive(Clone, Copy, Debug, PartialEq, Eq, Structural)]
pub enum CompileMode {
    /// A target being built for a test.
    Test,
    /// A target being built with the compiler, as a library or binary.
    Build,
    /// A target being checked only.
    Check,
    /// A benchmark being built.
    Bench,
    /// A target being documented.
    Doc,
    /// A target whose documentation is being tested.
    Doctest,
    /// A target being scraped for the calls it makes.
    Docscrape,
    /// The run of a build script.
    RunCustomBuild,
}

/// The kind of product that a unit makes.
#[derive(Clone, Copy, Debug, PartialEq, Eq, Structural)]
pub enum TargetKind {
    Lib,
    Bin,
    Test,
    Bench,
    ExampleLib,
    ExampleBin,
    CustomBuild,
}

impl TargetKind {
    /// Whether the unit makes an executable: a binary or an example binary.
    pub open spec fn is_executable(self) -> bool {
        self == TargetKind::Bin || self == TargetKind::ExampleBin
    }

    /// Whether the unit makes an executable.
    pub fn makes_executable(&self) -> (yes: bool)
        ensures
            yes == self.is_executable(),
    {
        match self {
            TargetKind::Bin => true,
            TargetKind::ExampleBin => true,
            _ => false,
        }
    }
}

/// Where the source of a unit comes from.
#[derive(Debug, PartialEq, Eq)]
pub enum TargetSourcePath {
    /// A file.
    Path(String),
    /// Generated by the orchestrator; there is no file.
    Metabuild,
}

/// A `TargetSourcePath` as plain data: the path of the file, where there is one.
impl View for TargetSourcePath {
    type V = Option<Seq<char>>;

    open spec fn view(&self) -> Option<Seq<char>> {
        match self {
            TargetSourcePath::Path(path) => Some(path@),
            TargetSourcePath::Metabuild => None,
        }
    }
}

/// The unit that an invocation compiles.
#[derive(Debug, PartialEq, Eq)]
pub struct CompileTarget {
    /// The name of the target.
    pub name: String,
    /// What it makes.
    pub kind: TargetKind,
    /// Where its source is.
    pub src_path: TargetSourcePath,
}

/// Why the executor refuses an invocation.
#[derive(Debug, PartialEq, Eq)]
pub enum ExecutorError {
    /// No argument of the command names the source file of the target, so
    /// the command does not have the shape that the executor knows.
    SourceArgumentNotFound { target: String },
    /// The unit is compiled for a test, which cannot be packaged as a shared
    /// library.
    TestModeUnsupported { target: String },
}

/// An `ExecutorError` as plain data.
pub enum ExecutorErrorView {
    SourceArgumentNotFound { target: Seq<char> },
    TestModeUnsupported { target: Seq<char> },
}

impl View for ExecutorError {
    type V = ExecutorErrorView;

    open spec fn view(&self) -> ExecutorErrorView {
        match self {
            ExecutorError::SourceArgumentNotFound { target } => {
                ExecutorErrorView::SourceArgumentNotFound { target: target@ }
            },
            ExecutorError::TestModeUnsupported { target } => {
                ExecutorErrorView::TestModeUnsupported { target: target@ }
            },
        }
    }
}

impl ExecutorErrorView {
    /// The message of the error, which names the target.
    pub open spec fn message(self) -> Seq<char> {
        match self {
            ExecutorErrorView::SourceArgumentNotFound { target } => {
                "Unable to replace source argument when building target: "@ + target
            },
            ExecutorErrorView::TestModeUnsupported { target } => {
                "Ignoring CompileMode::Test for target: "@ + target
            },
        }
    }
}

impl ExecutorError {
    /// The message of the error, which names the target.
    pub fn to_string(&self) -> (message: String)
        ensures
            message@ == self@.message(),
    {
        match self {
            ExecutorError::SourceArgumentNotFound { target } => concat2(
                "Unable to replace source argument when building target: ",
                target.as_str(),
            ),
            ExecutorError::TestModeUnsupported { target } => concat2(
                "Ignoring CompileMode::Test for target: ",
                target.as_str(),
            ),
        }
    }
}

} // verus!
