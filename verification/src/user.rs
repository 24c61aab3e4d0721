//! User identifiers.

use vstd::prelude::*;

verus! {

/// Opaque identifier of a user. Identifiers are compared for equality; their
/// numeric order only serves as a deterministic tie-break.
#[derive(Clone, Copy, Debug, PartialEq, Eq, Structural, PartialOrd, Ord, Hash)]
pub struct UserId(pub i32);

impl UserId {
    /// The number behind the identifier.
    pub fn value(&self) -> (n: i32)
        ensures
            n == self.0,
    {
        self.0
    }
}

} // verus!
