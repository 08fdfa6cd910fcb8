//! What holds of every policy store, whatever its contents and whoever calls.
//!
//! Each statement here is about the model in `state`, in whose terms the
//! store's operations are specified, so each holds of the store as it runs.

use vstd::prelude::*;
use crate::account::AccountId;
use crate::error::Error;
use crate::state::PolicyState;

verus! {

/// A caller other than the guardian is turned away by every mutation with
/// `NotGuardian`, and no field of the store changes.
pub proof fn lemma_stranger_changes_nothing(
    s: PolicyState,
    caller: AccountId,
    allowlist: Seq<AccountId>,
    cap: nat,
    paused: bool,
)
    requires
        caller != s.guardian,
    ensures
        s.gate(caller) == Err::<(), Error>(Error::NotGuardian),
        s.after_set_allowlist(caller, allowlist) == s,
        s.after_set_cap(caller, cap) == s,
        s.after_pause(caller, paused) == s,
{
}

/// The guardian is let through by every mutation, and the query for the
/// field that was written answers with the value just written.
pub proof fn lemma_guardian_write_is_read_back(
    s: PolicyState,
    caller: AccountId,
    allowlist: Seq<AccountId>,
    cap: nat,
    paused: bool,
    who: AccountId,
)
    requires
        caller == s.guardian,
    ensures
        s.gate(caller) == Ok::<(), Error>(()),
        s.after_set_allowlist(caller, allowlist).allowlist == allowlist,
        s.after_set_allowlist(caller, allowlist).allows(who) == allowlist.contains(who),
        s.after_set_cap(caller, cap).spend_cap == cap,
        s.after_pause(caller, paused).paused == paused,
{
}

/// The last write wins: of two writes to one field by one caller, the store
/// ends as if only the second had been made. Nothing of the first is merged
/// into the result.
pub proof fn lemma_last_write_wins(
    s: PolicyState,
    caller: AccountId,
    first_list: Seq<AccountId>,
    second_list: Seq<AccountId>,
    first_cap: nat,
    second_cap: nat,
    first_paused: bool,
    second_paused: bool,
)
    ensures
        s.after_set_allowlist(caller, first_list).after_set_allowlist(caller, second_list)
            == s.after_set_allowlist(caller, second_list),
        s.after_set_cap(caller, first_cap).after_set_cap(caller, second_cap) == s.after_set_cap(
            caller,
            second_cap,
        ),
        s.after_pause(caller, first_paused).after_pause(caller, second_paused) == s.after_pause(
            caller,
            second_paused,
        ),
{
}

/// An identity is allowed once the guardian has set an allowlist that holds
/// it, and no longer allowed once the guardian has set one that omits it.
pub proof fn lemma_allowlist_is_replaced(
    s: PolicyState,
    guardian: AccountId,
    who: AccountId,
    with_them: Seq<AccountId>,
    without_them: Seq<AccountId>,
)
    requires
        guardian == s.guardian,
        with_them.contains(who),
        !without_them.contains(who),
    ensures
        s.after_set_allowlist(guardian, with_them).allows(who),
        !s.after_set_allowlist(guardian, with_them).after_set_allowlist(
            guardian,
            without_them,
        ).allows(who),
{
}

/// A store that was just created holds the guardian, child and cap it was
/// given, is not paused, and allows nobody.
pub proof fn lemma_created_allows_nobody(
    guardian: AccountId,
    child: AccountId,
    cap: nat,
    who: AccountId,
)
    ensures
        PolicyState::created(guardian, child, cap).guardian == guardian,
        PolicyState::created(guardian, child, cap).child == child,
        PolicyState::created(guardian, child, cap).spend_cap == cap,
        !PolicyState::created(guardian, child, cap).paused,
        !PolicyState::created(guardian, child, cap).allows(who),
{
}

/// Setting the pause switch twice to the same value is the same as setting
/// it once: the guardian is let through both times, and the switch stands
/// where it was put.
pub proof fn lemma_pause_is_idempotent(s: PolicyState, guardian: AccountId, paused: bool)
    requires
        guardian == s.guardian,
    ensures
        s.gate(guardian) == Ok::<(), Error>(()),
        s.after_pause(guardian, paused).gate(guardian) == Ok::<(), Error>(()),
        s.after_pause(guardian, paused).after_pause(guardian, paused) == s.after_pause(
            guardian,
            paused,
        ),
        s.after_pause(guardian, paused).after_pause(guardian, paused).paused == paused,
{
}

/// Guardian and child are fixed for the life of a store: no mutation, by
/// whomever, changes either.
pub proof fn lemma_principals_never_change(
    s: PolicyState,
    caller: AccountId,
    allowlist: Seq<AccountId>,
    cap: nat,
    paused: bool,
)
    ensures
        s.after_set_allowlist(caller, allowlist).guardian == s.guardian,
        s.after_set_allowlist(caller, allowlist).child == s.child,
        s.after_set_cap(caller, cap).guardian == s.guardian,
        s.after_set_cap(caller, cap).child == s.child,
        s.after_pause(caller, paused).guardian == s.guardian,
        s.after_pause(caller, paused).child == s.child,
{
}

/// A mutation touches the one field it is about and leaves the others as
/// they were.
pub proof fn lemma_mutations_are_separate(
    s: PolicyState,
    caller: AccountId,
    allowlist: Seq<AccountId>,
    cap: nat,
    paused: bool,
)
    ensures
        s.after_set_allowlist(caller, allowlist).spend_cap == s.spend_cap,
        s.after_set_allowlist(caller, allowlist).paused == s.paused,
        s.after_set_cap(caller, cap).allowlist == s.allowlist,
        s.after_set_cap(caller, cap).paused == s.paused,
        s.after_pause(caller, paused).allowlist == s.allowlist,
        s.after_pause(caller, paused).spend_cap == s.spend_cap,
{
}

} // verus!
