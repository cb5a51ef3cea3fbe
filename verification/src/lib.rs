//! Core of a cross-platform mobile packaging toolchain.
//!
//! The crate holds the decisions of the toolchain as verified functions on
//! plain values: how a compiler command line is built, how an intercepted
//! compiler invocation is rewritten so that a binary is built as a shared
//! library, which toolchain settings a build needs, and in which order the
//! stages of an Android or Apple package assembly run. Spawning tools and
//! touching the file system is left to the caller.
//!
//! The modules, leaves first:
//!
//! - `text`, `paths`, `command_line`: texts, paths and command lines as data;
//! - `types`, `permissions`, `error`: architectures, profiles, products,
//!   permission identifiers and configuration errors;
//! - `rust_compile`: the compiler invocation;
//! - `executor`: what is done with every invocation that the build
//!   orchestrator hands over;
//! - `toolchain`, `android_compile`: the settings of a compilation for
//!   Android;
//! - `aapt2`, `version_code`, `android_manifest`: the resource compiler and
//!   the manifest;
//! - `pipeline`, `context`, `android_build`, `apple_build`: the build
//!   commands, their plans and the order of their stages.
pub mod aapt2;
pub mod android_build;
pub mod android_compile;
pub mod android_manifest;
pub mod apple_build;
pub mod command_line;
pub mod context;
pub mod error;
pub mod executor;
pub mod paths;
pub mod permissions;
pub mod pipeline;
pub mod rust_compile;
pub mod text;
pub mod toolchain;
pub mod types;
pub mod version_code;
