//! What can be wrong with the configuration of a build.
use vstd::prelude::*;

verus! {

/// An error in the configuration of a build. It is found before any tool is
/// run, and only a changed configuration mends it.
#[derive(Clone, Copy, Debug, PartialEq, Eq, Structural)]
pub enum Error {
    /// The project's manifest describes no package.
    InvalidManifest,
    /// The package carries no metadata for the platform.
    InvalidManifestMetadata,
    /// Neither the command nor the configuration names an architecture.
    BuildTargetsNotProvided,
    /// A signing identity is given without the team identifier that signing
    /// needs.
    TeamIdentifierNotProvided,
    /// A release build is asked for without a key to sign it with.
    SigningKeyNotProvided,
    /// A version is not of the form major.minor.patch with three numbers
    /// below 256.
    InvalidSemver,
}

impl Error {
    /// The message of the error.
    pub open spec fn message(self) -> Seq<char> {
        match self {
            Error::InvalidManifest => "Invalid manifest"@,
            Error::InvalidManifestMetadata => "Invalid manifest metadata"@,
            Error::BuildTargetsNotProvided => "Build targets not provided"@,
            Error::TeamIdentifierNotProvided => "Team identifier not provided"@,
            Error::SigningKeyNotProvided => "Signing key not provided"@,
            Error::InvalidSemver => "Invalid semver"@,
        }
    }

    /// The message of the error.
    pub fn to_string(&self) -> (message: String)
        ensures
            message@ == self.message(),
    {
        let text = match self {
            Error::InvalidManifest => "Invalid manifest",
            Error::InvalidManifestMetadata => "Invalid manifest metadata",
            Error::BuildTargetsNotProvided => "Build targets not provided",
            Error::TeamIdentifierNotProvided => "Team identifier not provided",
            Error::SigningKeyNotProvided => "Signing key not provided",
            Error::InvalidSemver => "Invalid semver",
        };
        text.to_owned()
    }
}

} // verus!
