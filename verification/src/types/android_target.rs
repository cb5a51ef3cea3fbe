//! Android architectures.
use vstd::prelude::*;
use crate::text::same_text;

verus! {

/// A CPU architecture that Android packages are built for.
#[derive(Clone, Copy, Debug, PartialEq, Eq, Structural)]
pub enum AndroidTarget {
    Armv7LinuxAndroideabi,
    Aarch64LinuxAndroid,
    I686LinuxAndroid,
    X8664LinuxAndroid,
}

impl AndroidTarget {
    /// The compiler's target triple of the architecture.
    pub open spec fn rust_triple_text(self) -> Seq<char> {
        match self {
            AndroidTarget::Armv7LinuxAndroideabi => "armv7-linux-androideabi"@,
            AndroidTarget::Aarch64LinuxAndroid => "aarch64-linux-android"@,
            AndroidTarget::I686LinuxAndroid => "i686-linux-android"@,
            AndroidTarget::X8664LinuxAndroid => "x86_64-linux-android"@,
        }
    }

    /// The name of the architecture's ABI, under which a package stores its
    /// native libraries.
    pub open spec fn android_abi_text(self) -> Seq<char> {
        match self {
            AndroidTarget::Armv7LinuxAndroideabi => "armeabi-v7a"@,
            AndroidTarget::Aarch64LinuxAndroid => "arm64-v8a"@,
            AndroidTarget::I686LinuxAndroid => "x86"@,
            AndroidTarget::X8664LinuxAndroid => "x86_64"@,
        }
    }

    /// The triple under which the NDK names its tools and library directories.
    pub open spec fn ndk_triple_text(self) -> Seq<char> {
        match self {
            AndroidTarget::Armv7LinuxAndroideabi => "arm-linux-androideabi"@,
            AndroidTarget::Aarch64LinuxAndroid => "aarch64-linux-android"@,
            AndroidTarget::I686LinuxAndroid => "i686-linux-android"@,
            AndroidTarget::X8664LinuxAndroid => "x86_64-linux-android"@,
        }
    }

    /// The triple under which the NDK names its compilers. It differs from
    /// the NDK's triple for 32-bit ARM only.
    pub open spec fn ndk_llvm_triple_text(self) -> Seq<char> {
        match self {
            AndroidTarget::Armv7LinuxAndroideabi => "armv7a-linux-androideabi"@,
            AndroidTarget::Aarch64LinuxAndroid => "aarch64-linux-android"@,
            AndroidTarget::I686LinuxAndroid => "i686-linux-android"@,
            AndroidTarget::X8664LinuxAndroid => "x86_64-linux-android"@,
        }
    }

    /// The architecture that the target triple `text` names, if any.
    pub open spec fn parse_rust_triple(text: Seq<char>) -> Option<AndroidTarget> {
        if text == "armv7-linux-androideabi"@ {
            Some(AndroidTarget::Armv7LinuxAndroideabi)
        } else if text == "aarch64-linux-android"@ {
            Some(AndroidTarget::Aarch64LinuxAndroid)
        } else if text == "i686-linux-android"@ {
            Some(AndroidTarget::I686LinuxAndroid)
        } else if text == "x86_64-linux-android"@ {
            Some(AndroidTarget::X8664LinuxAndroid)
        } else {
            None
        }
    }

    /// The compiler's target triple.
    pub fn rust_triple(&self) -> (s: &'static str)
        ensures
            s@ == self.rust_triple_text(),
    {
        match self {
            AndroidTarget::Armv7LinuxAndroideabi => "armv7-linux-androideabi",
            AndroidTarget::Aarch64LinuxAndroid => "aarch64-linux-android",
            AndroidTarget::I686LinuxAndroid => "i686-linux-android",
            AndroidTarget::X8664LinuxAndroid => "x86_64-linux-android",
        }
    }

    /// The ABI name.
    pub fn android_abi(&self) -> (s: &'static str)
        ensures
            s@ == self.android_abi_text(),
    {
        match self {
            AndroidTarget::Armv7LinuxAndroideabi => "armeabi-v7a",
            AndroidTarget::Aarch64LinuxAndroid => "arm64-v8a",
            AndroidTarget::I686LinuxAndroid => "x86",
            AndroidTarget::X8664LinuxAndroid => "x86_64",
        }
    }

    /// The NDK's triple.
    pub fn ndk_triple(&self) -> (s: &'static str)
        ensures
            s@ == self.ndk_triple_text(),
    {
        match self {
            AndroidTarget::Armv7LinuxAndroideabi => "arm-linux-androideabi",
            AndroidTarget::Aarch64LinuxAndroid => "aarch64-linux-android",
            AndroidTarget::I686LinuxAndroid => "i686-linux-android",
            AndroidTarget::X8664LinuxAndroid => "x86_64-linux-android",
        }
    }

    /// The triple under which the NDK names its compilers.
    pub fn ndk_llvm_triple(&self) -> (s: &'static str)
        ensures
            s@ == self.ndk_llvm_triple_text(),
    {
        match self {
            AndroidTarget::Armv7LinuxAndroideabi => "armv7a-linux-androideabi",
            AndroidTarget::Aarch64LinuxAndroid => "aarch64-linux-android",
            AndroidTarget::I686LinuxAndroid => "i686-linux-android",
            AndroidTarget::X8664LinuxAndroid => "x86_64-linux-android",
        }
    }

    /// Reads an architecture from a target triple. A text that is not one of
    /// the four supported triples names none.
    pub fn from_rust_triple(text: &str) -> (target: Option<AndroidTarget>)
        ensures
            target == AndroidTarget::parse_rust_triple(text@),
    {
        if same_text(text, "armv7-linux-androideabi") {
            Some(AndroidTarget::Armv7LinuxAndroideabi)
        } else if same_text(text, "aarch64-linux-android") {
            Some(AndroidTarget::Aarch64LinuxAndroid)
        } else if same_text(text, "i686-linux-android") {
            Some(AndroidTarget::I686LinuxAndroid)
        } else if same_text(text, "x86_64-linux-android") {
            Some(AndroidTarget::X8664LinuxAndroid)
        } else {
            None
        }
    }

    /// The four target triples differ from each other in their first
    /// character, and none starts with a dash.
    pub proof fn lemma_rust_triple_first_char(self)
        ensures
            self.rust_triple_text().len() > 0,
            self.rust_triple_text()[0] == (match self {
                AndroidTarget::Armv7LinuxAndroideabi => 'a',
                AndroidTarget::Aarch64LinuxAndroid => 'a',
                AndroidTarget::I686LinuxAndroid => 'i',
                AndroidTarget::X8664LinuxAndroid => 'x',
            }),
    {
        reveal_strlit("armv7-linux-androideabi");
        reveal_strlit("aarch64-linux-android");
        reveal_strlit("i686-linux-android");
        reveal_strlit("x86_64-linux-android");
    }

    /// Reading the triple of an architecture gives the architecture back.
    pub proof fn lemma_rust_triple_round_trip(self)
        ensures
            AndroidTarget::parse_rust_triple(self.rust_triple_text()) == Some(self),
    {
        reveal_strlit("armv7-linux-androideabi");
        reveal_strlit("aarch64-linux-android");
        reveal_strlit("i686-linux-android");
        reveal_strlit("x86_64-linux-android");
        assert("armv7-linux-androideabi"@[1] != "aarch64-linux-android"@[1]);
        assert("armv7-linux-androideabi"@[0] != "i686-linux-android"@[0]);
        assert("armv7-linux-androideabi"@[0] != "x86_64-linux-android"@[0]);
        assert("aarch64-linux-android"@[0] != "i686-linux-android"@[0]);
        assert("aarch64-linux-android"@[0] != "x86_64-linux-android"@[0]);
        assert("i686-linux-android"@[0] != "x86_64-linux-android"@[0]);
    }

    /// A text is read as an architecture exactly if it is that
    /// architecture's triple.
    pub proof fn lemma_parse_is_inverse(text: Seq<char>, target: AndroidTarget)
        ensures
            AndroidTarget::parse_rust_triple(text) == Some(target) <==> text
                == target.rust_triple_text(),
    {
        target.lemma_rust_triple_round_trip();
    }

    /// The triple and the ABI name determine each other: two architectures
    /// with the same triple, or with the same ABI name, or with the same NDK
    /// triple, are the same architecture.
    pub proof fn lemma_names_are_injective(self, other: AndroidTarget)
        ensures
            self.rust_triple_text() == other.rust_triple_text() ==> self == other,
            self.android_abi_text() == other.android_abi_text() ==> self == other,
            self.ndk_triple_text() == other.ndk_triple_text() ==> self == other,
    {
        self.lemma_rust_triple_round_trip();
        other.lemma_rust_triple_round_trip();
        reveal_strlit("armeabi-v7a");
        reveal_strlit("arm64-v8a");
        reveal_strlit("x86");
        reveal_strlit("x86_64");
        assert("armeabi-v7a"@.len() != "arm64-v8a"@.len());
        assert("armeabi-v7a"@.len() != "x86"@.len());
        assert("armeabi-v7a"@.len() != "x86_64"@.len());
        assert("arm64-v8a"@.len() != "x86"@.len());
        assert("arm64-v8a"@.len() != "x86_64"@.len());
        assert("x86"@.len() != "x86_64"@.len());
        reveal_strlit("arm-linux-androideabi");
        reveal_strlit("aarch64-linux-android");
        reveal_strlit("i686-linux-android");
        reveal_strlit("x86_64-linux-android");
        assert("arm-linux-androideabi"@[1] != "aarch64-linux-android"@[1]);
        assert("arm-linux-androideabi"@[0] != "i686-linux-android"@[0]);
        assert("arm-linux-androideabi"@[0] != "x86_64-linux-android"@[0]);
    }
}

} // verus!
