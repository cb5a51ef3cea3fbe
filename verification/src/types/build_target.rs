//! An architecture of either platform.
use vstd::prelude::*;
use crate::types::android_target::AndroidTarget;
use crate::types::apple_target::AppleTarget;

verus! {

/// The architecture that a compiler invocation builds for.
#[derive(Clone, Copy, Debug, PartialEq, Eq, Structural)]
pub enum BuildTarget {
    Android(AndroidTarget),
    Apple(AppleTarget),
}

impl BuildTarget {
    /// The compiler's target triple of the architecture.
    pub open spec fn rust_triple_text(self) -> Seq<char> {
        match self {
            BuildTarget::Android(target) => target.rust_triple_text(),
            BuildTarget::Apple(target) => target.rust_triple_text(),
        }
    }

    /// The architecture that the target triple `text` names, if any.
    pub open spec fn parse_rust_triple(text: Seq<char>) -> Option<BuildTarget> {
        match AndroidTarget::parse_rust_triple(text) {
            Some(target) => Some(BuildTarget::Android(target)),
            None => match AppleTarget::parse_rust_triple(text) {
                Some(target) => Some(BuildTarget::Apple(target)),
                None => None,
            },
        }
    }

    /// The compiler's target triple.
    pub fn rust_triple(&self) -> (s: &'static str)
        ensures
            s@ == self.rust_triple_text(),
    {
        match self {
            BuildTarget::Android(target) => target.rust_triple(),
            BuildTarget::Apple(target) => target.rust_triple(),
        }
    }

    /// Reads an architecture from a target triple. A text that is not the
    /// triple of a supported architecture names none.
    pub fn from_rust_triple(text: &str) -> (target: Option<BuildTarget>)
        ensures
            target == BuildTarget::parse_rust_triple(text@),
    {
        match AndroidTarget::from_rust_triple(text) {
            Some(target) => Some(BuildTarget::Android(target)),
            None => match AppleTarget::from_rust_triple(text) {
                Some(target) => Some(BuildTarget::Apple(target)),
                None => None,
            },
        }
    }

    /// No triple is empty and none starts with a dash.
    pub proof fn lemma_rust_triple_is_no_flag(self)
        ensures
            self.rust_triple_text().len() > 0,
            self.rust_triple_text()[0] != '-',
    {
        match self {
            BuildTarget::Android(target) => target.lemma_rust_triple_first_char(),
            BuildTarget::Apple(target) => target.lemma_rust_triple_first_char(),
        }
    }

    /// Reading the triple of an architecture gives the architecture back.
    pub proof fn lemma_rust_triple_round_trip(self)
        ensures
            BuildTarget::parse_rust_triple(self.rust_triple_text()) == Some(self),
    {
        match self {
            BuildTarget::Android(target) => target.lemma_rust_triple_round_trip(),
            BuildTarget::Apple(target) => {
                target.lemma_rust_triple_round_trip();
                reveal_strlit("x86_64-apple-ios");
                reveal_strlit("aarch64-apple-ios");
                reveal_strlit("aarch64-apple-ios-sim");
                reveal_strlit("armv7-apple-ios");
                reveal_strlit("armv7s-apple-ios");
                reveal_strlit("i386-apple-ios");
                reveal_strlit("armv7-linux-androideabi");
                reveal_strlit("aarch64-linux-android");
                reveal_strlit("i686-linux-android");
                reveal_strlit("x86_64-linux-android");
                let t = target.rust_triple_text();
                assert(t != "armv7-linux-androideabi"@) by {
                    assert(t.len() != "armv7-linux-androideabi"@.len());
                }
                assert(t != "aarch64-linux-android"@) by {
                    if t.len() == "aarch64-linux-android"@.len() {
                        assert(t[8] != "aarch64-linux-android"@[8]);
                    }
                }
                assert(t != "i686-linux-android"@) by {
                    assert(t.len() != "i686-linux-android"@.len() || t[0] != 'i' || t[1]
                        != "i686-linux-android"@[1]);
                }
                assert(t != "x86_64-linux-android"@) by {
                    assert(t.len() != "x86_64-linux-android"@.len());
                }
            },
        }
    }
}

} // verus!
