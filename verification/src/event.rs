//! What the store announces after a change.
//!
//! A successful mutation yields exactly one of these records, holding the new
//! value of the field that changed. The store hands the record to whoever made
//! the call; publishing it is the host's business.

use vstd::prelude::*;
use crate::account::{AccountId, Balance};

verus! {

/// The allowlist was replaced.
#[derive(Debug, PartialEq, Eq)]
pub struct AllowlistUpdated {
    /// The list now in force, as it was given.
    pub allowlist: Vec<AccountId>,
}

/// The spend cap was replaced.
#[derive(Debug, Clone, Copy, PartialEq, Eq, Structural)]
pub struct CapUpdated {
    /// The cap now in force.
    pub new_cap: Balance,
}

/// The pause switch was set.
#[derive(Debug, Clone, Copy, PartialEq, Eq, Structural)]
pub struct Paused {
    /// Where the switch now stands.
    pub paused: bool,
}

} // verus!
