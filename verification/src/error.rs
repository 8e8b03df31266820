use vstd::prelude::*;

verus! {

/// The typed error into which the engine's status codes are translated at the
/// boundary. Every expected failure of the public operations is reported
/// through one of these variants; none is swallowed.
#[derive(Clone, Copy, Debug, PartialEq, Eq, Structural)]
pub enum Error {
    /// A named database was resolved without creation and does not exist, or
    /// backing storage was opened read-only before it was ever created.
    NotFound,
    /// A write transaction was requested of an environment opened read-only.
    PermissionDenied,
    /// A named database was requested but no named-database slot is free (in
    /// particular, the environment was configured without any).
    DbsFull,
}

} // verus!
