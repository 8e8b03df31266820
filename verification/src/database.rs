use vstd::prelude::*;

verus! {

/// A handle identifying one B-tree namespace within an environment: the
/// default namespace as handle number zero, or one named-database slot. A
/// handle is a small copyable value; equality is by handle number. It is
/// meaningful only against the environment that issued it, and only while
/// that environment is alive. The view of a handle is its number.
#[derive(Clone, Copy, Debug, Hash, PartialEq, Eq, Structural)]
pub struct Database {
    dbi: u32,
}

impl View for Database {
    type V = u32;

    closed spec fn view(&self) -> u32 {
        self.dbi
    }
}

impl Database {
    /// Wraps a handle number issued by an environment.
    pub(crate) fn new(dbi: u32) -> (r: Self)
        ensures
            r@ == dbi,
    {
        Database { dbi }
    }

    /// The raw handle number.
    pub fn dbi(&self) -> (r: u32)
        ensures
            r == self@,
    {
        self.dbi
    }
}

} // verus!
