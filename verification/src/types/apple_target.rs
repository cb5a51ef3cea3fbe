//! Apple architectures.
use vstd::prelude::*;
use crate::text::same_text;

verus! {

/// A CPU architecture that iOS applications are built for.
#[derive(Clone, Copy, Debug, PartialEq, Eq, Structural)]
pub enum AppleTarget {
    X86_64,
    Aarch64,
    Aarch64Sim,
    Armv7,
    Armv7s,
    I386,
}

/// The iOS architectures are the Apple architectures.
pub type IosTarget = AppleTarget;

impl AppleTarget {
    /// The compiler's target triple of the architecture.
    pub open spec fn rust_triple_text(self) -> Seq<char> {
        match self {
            AppleTarget::X86_64 => "x86_64-apple-ios"@,
            AppleTarget::Aarch64 => "aarch64-apple-ios"@,
            AppleTarget::Aarch64Sim => "aarch64-apple-ios-sim"@,
            AppleTarget::Armv7 => "armv7-apple-ios"@,
            AppleTarget::Armv7s => "armv7s-apple-ios"@,
            AppleTarget::I386 => "i386-apple-ios"@,
        }
    }

    /// The architecture that the target triple `text` names, if any.
    pub open spec fn parse_rust_triple(text: Seq<char>) -> Option<AppleTarget> {
        if text == "x86_64-apple-ios"@ {
            Some(AppleTarget::X86_64)
        } else if text == "aarch64-apple-ios"@ {
            Some(AppleTarget::Aarch64)
        } else if text == "aarch64-apple-ios-sim"@ {
            Some(AppleTarget::Aarch64Sim)
        } else if text == "armv7-apple-ios"@ {
            Some(AppleTarget::Armv7)
        } else if text == "armv7s-apple-ios"@ {
            Some(AppleTarget::Armv7s)
        } else if text == "i386-apple-ios"@ {
            Some(AppleTarget::I386)
        } else {
            None
        }
    }

    /// The compiler's target triple.
    pub fn rust_triple(&self) -> (s: &'static str)
        ensures
            s@ == self.rust_triple_text(),
    {
        match self {
            AppleTarget::X86_64 => "x86_64-apple-ios",
            AppleTarget::Aarch64 => "aarch64-apple-ios",
            AppleTarget::Aarch64Sim => "aarch64-apple-ios-sim",
            AppleTarget::Armv7 => "armv7-apple-ios",
            AppleTarget::Armv7s => "armv7s-apple-ios",
            AppleTarget::I386 => "i386-apple-ios",
        }
    }

    /// Reads an architecture from a target triple. A text that is not one of
    /// the six supported triples names none.
    pub fn from_rust_triple(text: &str) -> (target: Option<AppleTarget>)
        ensures
            target == AppleTarget::parse_rust_triple(text@),
    {
        if same_text(text, "x86_64-apple-ios") {
            Some(AppleTarget::X86_64)
        } else if same_text(text, "aarch64-apple-ios") {
            Some(AppleTarget::Aarch64)
        } else if same_text(text, "aarch64-apple-ios-sim") {
            Some(AppleTarget::Aarch64Sim)
        } else if same_text(text, "armv7-apple-ios") {
            Some(AppleTarget::Armv7)
        } else if same_text(text, "armv7s-apple-ios") {
            Some(AppleTarget::Armv7s)
        } else if same_text(text, "i386-apple-ios") {
            Some(AppleTarget::I386)
        } else {
            None
        }
    }

    /// Every triple starts with a lower-case letter, so none with a dash.
    pub proof fn lemma_rust_triple_first_char(self)
        ensures
            self.rust_triple_text().len() > 0,
            self.rust_triple_text()[0] == (match self {
                AppleTarget::X86_64 => 'x',
                AppleTarget::Aarch64 => 'a',
                AppleTarget::Aarch64Sim => 'a',
                AppleTarget::Armv7 => 'a',
                AppleTarget::Armv7s => 'a',
                AppleTarget::I386 => 'i',
            }),
    {
        reveal_strlit("x86_64-apple-ios");
        reveal_strlit("aarch64-apple-ios");
        reveal_strlit("aarch64-apple-ios-sim");
        reveal_strlit("armv7-apple-ios");
        reveal_strlit("armv7s-apple-ios");
        reveal_strlit("i386-apple-ios");
    }

    /// Reading the triple of an architecture gives the architecture back.
    pub proof fn lemma_rust_triple_round_trip(self)
        ensures
            AppleTarget::parse_rust_triple(self.rust_triple_text()) == Some(self),
    {
        reveal_strlit("x86_64-apple-ios");
        reveal_strlit("aarch64-apple-ios");
        reveal_strlit("aarch64-apple-ios-sim");
        reveal_strlit("armv7-apple-ios");
        reveal_strlit("armv7s-apple-ios");
        reveal_strlit("i386-apple-ios");
        assert("x86_64-apple-ios"@[0] != "aarch64-apple-ios"@[0]);
        assert("x86_64-apple-ios"@[0] != "aarch64-apple-ios-sim"@[0]);
        assert("x86_64-apple-ios"@[0] != "armv7-apple-ios"@[0]);
        assert("x86_64-apple-ios"@[0] != "armv7s-apple-ios"@[0]);
        assert("x86_64-apple-ios"@[0] != "i386-apple-ios"@[0]);
        assert("aarch64-apple-ios"@.len() != "aarch64-apple-ios-sim"@.len());
        assert("aarch64-apple-ios"@[1] != "armv7-apple-ios"@[1]);
        assert("aarch64-apple-ios"@[1] != "armv7s-apple-ios"@[1]);
        assert("aarch64-apple-ios"@[0] != "i386-apple-ios"@[0]);
        assert("aarch64-apple-ios-sim"@[1] != "armv7-apple-ios"@[1]);
        assert("aarch64-apple-ios-sim"@[1] != "armv7s-apple-ios"@[1]);
        assert("aarch64-apple-ios-sim"@[0] != "i386-apple-ios"@[0]);
        assert("armv7-apple-ios"@.len() != "armv7s-apple-ios"@.len());
        assert("armv7-apple-ios"@[0] != "i386-apple-ios"@[0]);
        assert("armv7s-apple-ios"@[0] != "i386-apple-ios"@[0]);
    }

    /// Two architectures with the same triple are the same architecture.
    pub proof fn lemma_rust_triple_is_injective(self, other: AppleTarget)
        ensures
            self.rust_triple_text() == other.rust_triple_text() ==> self == other,
    {
        self.lemma_rust_triple_round_trip();
        other.lemma_rust_triple_round_trip();
    }
}

} // verus!
