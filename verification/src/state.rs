//! The mathematical model of a policy store.
//!
//! `PolicyState` is what a store is, apart from how it is laid out in memory:
//! two identities, a sequence of identities, a number and a flag. The functions
//! here say what each operation of the store does to such a state, and the
//! contracts of the executable store are written in their terms.

use vstd::prelude::*;
use crate::account::AccountId;
use crate::error::Error;

verus! {

/// The contents of a policy store.
pub struct PolicyState {
    /// The one identity that may change the policy.
    pub guardian: AccountId,
    /// The identity that the policy governs.
    pub child: AccountId,
    /// The allowed counterparties, in the order given, repeats included.
    pub allowlist: Seq<AccountId>,
    /// The ceiling on spending.
    pub spend_cap: nat,
    /// Whether spending is halted.
    pub paused: bool,
}

impl PolicyState {
    /// The state of a store that was just created: nobody is allowed yet and
    /// spending is not halted.
    pub open spec fn created(guardian: AccountId, child: AccountId, spend_cap: nat) -> PolicyState {
        PolicyState { guardian, child, allowlist: Seq::empty(), spend_cap, paused: false }
    }

    /// Whether `who` is the guardian of this store.
    pub open spec fn is_guardian(self, who: AccountId) -> bool {
        who == self.guardian
    }

    /// Whether `who` occurs in the allowlist, at any place and any number of
    /// times.
    pub open spec fn allows(self, who: AccountId) -> bool {
        self.allowlist.contains(who)
    }

    /// What the authorization gate answers to `caller`.
    pub open spec fn gate(self, caller: AccountId) -> Result<(), Error> {
        if self.is_guardian(caller) {
            Ok(())
        } else {
            Err(Error::NotGuardian)
        }
    }

    /// This state with the allowlist replaced as a whole.
    pub open spec fn with_allowlist(self, allowlist: Seq<AccountId>) -> PolicyState {
        PolicyState { allowlist, ..self }
    }

    /// This state with the spend cap replaced.
    pub open spec fn with_cap(self, spend_cap: nat) -> PolicyState {
        PolicyState { spend_cap, ..self }
    }

    /// This state with the pause switch set to `paused`.
    pub open spec fn with_paused(self, paused: bool) -> PolicyState {
        PolicyState { paused, ..self }
    }

    /// The state after `caller` asked for a new allowlist: replaced for the
    /// guardian, untouched for anyone else.
    pub open spec fn after_set_allowlist(self, caller: AccountId, allowlist: Seq<AccountId>) -> PolicyState {
        if self.is_guardian(caller) {
            self.with_allowlist(allowlist)
        } else {
            self
        }
    }

    /// The state after `caller` asked for a new spend cap: replaced for the
    /// guardian, untouched for anyone else.
    pub open spec fn after_set_cap(self, caller: AccountId, spend_cap: nat) -> PolicyState {
        if self.is_guardian(caller) {
            self.with_cap(spend_cap)
        } else {
            self
        }
    }

    /// The state after `caller` asked for the pause switch to be set: set for
    /// the guardian, untouched for anyone else.
    pub open spec fn after_pause(self, caller: AccountId, paused: bool) -> PolicyState {
        if self.is_guardian(caller) {
            self.with_paused(paused)
        } else {
            self
        }
    }
}

} // verus!
