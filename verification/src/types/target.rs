//! The product that a compiler invocation builds.
use vstd::prelude::*;

verus! {

/// The product that one compiler invocation builds: a named binary, a named
/// example, or the library of the package.
#[derive(Debug, PartialEq, Eq)]
pub enum Target {
    Bin(String),
    Example(String),
    Lib,
}

/// A `Target` as plain data.
pub enum TargetView {
    Bin(Seq<char>),
    Example(Seq<char>),
    Lib,
}

impl View for Target {
    type V = TargetView;

    open spec fn view(&self) -> TargetView {
        match self {
            Target::Bin(name) => TargetView::Bin(name@),
            Target::Example(name) => TargetView::Example(name@),
            Target::Lib => TargetView::Lib,
        }
    }
}

impl Clone for Target {
    fn clone(&self) -> (copy: Self)
        ensures
            copy@ == self@,
    {
        match self {
            Target::Bin(name) => Target::Bin(name.clone()),
            Target::Example(name) => Target::Example(name.clone()),
            Target::Lib => Target::Lib,
        }
    }
}

impl Target {
    /// The target of a build: the example when one is asked for, else the
    /// binary when one is named, else the fallback.
    pub open spec fn select(
        example: Option<Seq<char>>,
        bin: Option<Seq<char>>,
        fallback: TargetView,
    ) -> TargetView {
        match example {
            Some(name) => TargetView::Example(name),
            None => match bin {
                Some(name) => TargetView::Bin(name),
                None => fallback,
            },
        }
    }
}

} // verus!
