//! Crate types that a compiler invocation can be asked for.
use vstd::prelude::*;

verus! {

/// A crate type as the compiler names it.
#[derive(Clone, Copy, Debug, PartialEq, Eq, Structural)]
pub enum CrateType {
    Bin,
    Lib,
    Dylib,
    Staticlib,
    Cdylib,
    Rlib,
}

impl CrateType {
    /// The compiler's name of the crate type.
    pub open spec fn name(self) -> Seq<char> {
        match self {
            CrateType::Bin => "bin"@,
            CrateType::Lib => "lib"@,
            CrateType::Dylib => "dylib"@,
            CrateType::Staticlib => "staticlib"@,
            CrateType::Cdylib => "cdylib"@,
            CrateType::Rlib => "rlib"@,
        }
    }

    /// The names of a list of crate types, in order.
    pub open spec fn names(crate_types: Seq<CrateType>) -> Seq<Seq<char>> {
        crate_types.map_values(|c: CrateType| c.name())
    }

    /// The compiler's name of the crate type.
    pub fn as_str(&self) -> (s: &'static str)
        ensures
            s@ == self.name(),
    {
        match self {
            CrateType::Bin => "bin",
            CrateType::Lib => "lib",
            CrateType::Dylib => "dylib",
            CrateType::Staticlib => "staticlib",
            CrateType::Cdylib => "cdylib",
            CrateType::Rlib => "rlib",
        }
    }

    /// No crate type is named by a text that starts with a dash, and none by
    /// the empty text.
    pub proof fn lemma_name_starts_with_letter(self)
        ensures
            self.name().len() > 0,
            self.name()[0] != '-',
    {
        reveal_strlit("bin");
        reveal_strlit("lib");
        reveal_strlit("dylib");
        reveal_strlit("staticlib");
        reveal_strlit("cdylib");
        reveal_strlit("rlib");
    }
}

} // verus!
