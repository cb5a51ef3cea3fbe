//! Build profiles.
use vstd::prelude::*;
use crate::text::same_text;

verus! {

/// Build profile of a compilation. It decides the optimisation flag, whether
/// symbols are stripped, and the name of the output directory.
#[derive(Clone, Copy, Debug, PartialEq, Eq, Structural)]
pub enum Profile {
    Debug,
    Release,
}

impl Profile {
    /// The name of the profile, which is also the name of its output directory.
    pub open spec fn name(self) -> Seq<char> {
        match self {
            Profile::Debug => "debug"@,
            Profile::Release => "release"@,
        }
    }

    /// The profile that `text` names, if any.
    pub open spec fn parse(text: Seq<char>) -> Option<Profile> {
        if text == "debug"@ {
            Some(Profile::Debug)
        } else if text == "release"@ {
            Some(Profile::Release)
        } else {
            None
        }
    }

    /// The name of the profile.
    pub fn as_str(&self) -> (s: &'static str)
        ensures
            s@ == self.name(),
    {
        match self {
            Profile::Debug => "debug",
            Profile::Release => "release",
        }
    }

    /// The profile selected by the release switch of a command line.
    pub fn from_release_flag(release: bool) -> (profile: Profile)
        ensures
            profile == (if release {
                Profile::Release
            } else {
                Profile::Debug
            }),
    {
        if release {
            Profile::Release
        } else {
            Profile::Debug
        }
    }

    /// Reads a profile from its name. Any other text names no profile.
    pub fn from_name(text: &str) -> (profile: Option<Profile>)
        ensures
            profile == Profile::parse(text@),
    {
        if same_text(text, "debug") {
            Some(Profile::Debug)
        } else if same_text(text, "release") {
            Some(Profile::Release)
        } else {
            None
        }
    }

    /// Reading the name of a profile gives the profile back.
    pub proof fn lemma_name_round_trip(self)
        ensures
            Profile::parse(self.name()) == Some(self),
    {
        reveal_strlit("debug");
        reveal_strlit("release");
        assert("debug"@.len() != "release"@.len());
    }
}

} // verus!
