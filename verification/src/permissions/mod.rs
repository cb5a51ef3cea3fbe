//! Permission identifiers of both platforms and their texts.
pub mod android_permission;
pub mod android_permission_group;
pub mod apple_permission;
pub mod enum_permission;

pub use android_permission::AndroidPermission;
pub use android_permission_group::AndroidPermissionGroup;
pub use apple_permission::ApplePermission;
pub use enum_permission::Permissions;
