//! The target, profile and crate-type model.
pub mod android_target;
pub mod apple_target;
pub mod build_target;
pub mod crate_type;
pub mod game_engine;
pub mod profile;
pub mod target;

pub use android_target::AndroidTarget;
pub use apple_target::{AppleTarget, IosTarget};
pub use build_target::BuildTarget;
pub use crate_type::CrateType;
pub use game_engine::GameEngine;
pub use profile::Profile;
pub use target::Target;
