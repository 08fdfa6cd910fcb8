//! The one way an operation on the store can fail.

use vstd::prelude::*;

verus! {

/// Why the store turned a call down.
#[derive(Debug, Clone, Copy, PartialEq, Eq, Structural)]
pub enum Error {
    /// A mutating call came from an identity other than the guardian.
    NotGuardian,
}

} // verus!
