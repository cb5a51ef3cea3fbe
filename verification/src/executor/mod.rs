//! The build executor: what is done with each compiler invocation that the
//! build orchestrator hands over.
//!
//! The orchestrator calls the executor once for every unit it compiles. The
//! build of a unit that makes an executable is rewritten so that it makes a
//! shared library from a generated source file. The test build of such a
//! unit is refused, since a test cannot be packaged. Everything else runs as
//! it came, but for the executor that keeps library crates as intermediate
//! artifacts: it demotes the crate type of the other builds and refuses the
//! other test builds too.
//!
//! The executor decides and rewrites. Generating the source file and running
//! the command is the caller's part: it asks for a step, performs it, and
//! where the step is `Prepare`, generates the file from the unit's own
//! source, hands its name to the rewrite and runs what comes back.
pub mod decide;
pub mod linker;
pub mod rewrite;
pub mod source;
pub mod unit;

pub use decide::{exec_compilation, DefaultExecutor, ExecStep, SharedLibraryExecutor};
pub use linker::{linker_arguments, LinkerPaths};
pub use rewrite::{
    demote, find_source_arg, get_cmd_args, package_command, retarget, rewrite_for_packaging,
};
pub use source::generate_lib_file;
pub use unit::{CompileMode, CompileTarget, ExecutorError, TargetKind, TargetSourcePath};
