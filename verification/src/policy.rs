//! The policy store itself.

use vstd::prelude::*;
use crate::account::{AccountId, Balance};
use crate::error::Error;
use crate::event::{AllowlistUpdated, CapUpdated, Paused};
use crate::state::PolicyState;

verus! {

/// A guardian's policy over a child account: whom the child may deal with, how
/// much it may spend, and whether spending is halted.
///
/// Anyone may read the policy. Only the guardian may change it, and guardian
/// and child are fixed when the store is made.
#[derive(Debug)]
pub struct GuardianPolicy {
    guardian: AccountId,
    child: AccountId,
    allowlist: Vec<AccountId>,
    spend_cap: Balance,
    paused: bool,
}

impl View for GuardianPolicy {
    type V = PolicyState;

    closed spec fn view(&self) -> PolicyState {
        PolicyState {
            guardian: self.guardian,
            child: self.child,
            allowlist: self.allowlist@,
            spend_cap: self.spend_cap as nat,
            paused: self.paused,
        }
    }
}

impl GuardianPolicy {
    /// Makes a store with the given guardian, child and spend cap. Nothing is
    /// checked: guardian and child may be the same, the cap may be zero.
    pub fn new(guardian: AccountId, child: AccountId, spend_cap: Balance) -> (policy: Self)
        ensures
            policy@ == PolicyState::created(guardian, child, spend_cap as nat),
            forall|who: AccountId| !(#[trigger] policy@.allows(who)),
    {
        Self { guardian, child, allowlist: Vec::new(), spend_cap, paused: false }
    }

    /// Makes a store in which `caller`, the identity that asks for it, is
    /// guardian and child at once, with a spend cap of zero.
    pub fn default(caller: AccountId) -> (policy: Self)
        ensures
            policy@ == PolicyState::created(caller, caller, 0),
            forall|who: AccountId| !(#[trigger] policy@.allows(who)),
    {
        Self { guardian: caller, child: caller, allowlist: Vec::new(), spend_cap: 0, paused: false }
    }

    /// Puts a store back together from the parts that a host kept of it
    /// between two calls. The parts are taken as they are.
    pub fn from_parts(
        guardian: AccountId,
        child: AccountId,
        allowlist: Vec<AccountId>,
        spend_cap: Balance,
        paused: bool,
    ) -> (policy: Self)
        ensures
            policy@ == (PolicyState {
                guardian,
                child,
                allowlist: allowlist@,
                spend_cap: spend_cap as nat,
                paused,
            }),
    {
        Self { guardian, child, allowlist, spend_cap, paused }
    }

    /// Takes a store apart for a host to keep: guardian, child, allowlist,
    /// spend cap and pause switch, in this order.
    pub fn into_parts(self) -> (parts: (AccountId, AccountId, Vec<AccountId>, Balance, bool))
        ensures
            parts.0 == self@.guardian,
            parts.1 == self@.child,
            parts.2@ == self@.allowlist,
            parts.3 == self@.spend_cap,
            parts.4 == self@.paused,
    {
        (self.guardian, self.child, self.allowlist, self.spend_cap, self.paused)
    }

    /// The authorization gate: lets the guardian through and turns everyone
    /// else away. Every mutation passes through it, each time anew.
    pub fn ensure_guardian(&self, caller: AccountId) -> (r: Result<(), Error>)
        ensures
            r == self@.gate(caller),
    {
        if caller != self.guardian {
            return Err(Error::NotGuardian);
        }
        Ok(())
    }

    /// Replaces the allowlist by `allowlist`, as given, on behalf of `caller`.
    ///
    /// For the guardian the list is replaced as a whole and the record of the
    /// change comes back. For anyone else nothing changes and nothing is
    /// announced.
    pub fn set_allowlist(&mut self, caller: AccountId, allowlist: Vec<AccountId>) -> (r: Result<
        AllowlistUpdated,
        Error,
    >)
        ensures
            final(self)@ == old(self)@.after_set_allowlist(caller, allowlist@),
            r == if old(self)@.is_guardian(caller) {
                Ok::<AllowlistUpdated, Error>(AllowlistUpdated { allowlist })
            } else {
                Err::<AllowlistUpdated, Error>(Error::NotGuardian)
            },
    {
        match self.ensure_guardian(caller) {
            Err(e) => Err(e),
            Ok(()) => {
                self.allowlist = allowlist.clone();
                Ok(AllowlistUpdated { allowlist })
            },
        }
    }

    /// Replaces the spend cap by `cap` on behalf of `caller`.
    ///
    /// For the guardian the cap is replaced, whatever it was, and the record of
    /// the change comes back. For anyone else nothing changes and nothing is
    /// announced.
    pub fn set_cap(&mut self, caller: AccountId, cap: Balance) -> (r: Result<CapUpdated, Error>)
        ensures
            final(self)@ == old(self)@.after_set_cap(caller, cap as nat),
            r == if old(self)@.is_guardian(caller) {
                Ok::<CapUpdated, Error>(CapUpdated { new_cap: cap })
            } else {
                Err::<CapUpdated, Error>(Error::NotGuardian)
            },
    {
        match self.ensure_guardian(caller) {
            Err(e) => Err(e),
            Ok(()) => {
                self.spend_cap = cap;
                Ok(CapUpdated { new_cap: cap })
            },
        }
    }

    /// Sets the pause switch to `paused` on behalf of `caller`.
    ///
    /// For the guardian the switch is set and the record of the change comes
    /// back, also where the switch already stood there. For anyone else nothing
    /// changes and nothing is announced.
    pub fn pause(&mut self, caller: AccountId, paused: bool) -> (r: Result<Paused, Error>)
        ensures
            final(self)@ == old(self)@.after_pause(caller, paused),
            r == if old(self)@.is_guardian(caller) {
                Ok::<Paused, Error>(Paused { paused })
            } else {
                Err::<Paused, Error>(Error::NotGuardian)
            },
    {
        match self.ensure_guardian(caller) {
            Err(e) => Err(e),
            Ok(()) => {
                self.paused = paused;
                Ok(Paused { paused })
            },
        }
    }

    /// Whether `account` is on the allowlist.
    pub fn is_allowed(&self, account: AccountId) -> (allowed: bool)
        ensures
            allowed == self@.allows(account),
    {
        let mut i: usize = 0;
        while i < self.allowlist.len()
            invariant
                i <= self.allowlist.len(),
                forall|j: int| 0 <= j < i ==> self.allowlist[j] != account,
            decreases self.allowlist.len() - i,
        {
            if self.allowlist[i] == account {
                return true;
            }
            i += 1;
        }
        false
    }

    /// The spend cap now in force.
    pub fn get_cap(&self) -> (cap: Balance)
        ensures
            cap == self@.spend_cap,
    {
        self.spend_cap
    }

    /// Whether spending is halted.
    pub fn is_paused(&self) -> (paused: bool)
        ensures
            paused == self@.paused,
    {
        self.paused
    }

    /// The identity that may change the policy.
    pub fn get_guardian(&self) -> (guardian: AccountId)
        ensures
            guardian == self@.guardian,
    {
        self.guardian
    }

    /// The identity that the policy governs.
    pub fn get_child(&self) -> (child: AccountId)
        ensures
            child == self@.child,
    {
        self.child
    }
}

} // verus!
