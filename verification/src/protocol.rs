//! The protocol as a state machine over abstract slot states, and the laws
//! that hold of it.
//!
//! Each operation is modelled by a pure step function from the slot's
//! abstract state (and the caller's inputs) to the next state and the
//! operation's outcome. The executable operations in [`crate::ops`] are
//! verified to behave exactly as these steps say.

use vstd::prelude::*;
use crate::account::{byte_len, slot_wf, AccountView, IPCMError, Identity};

verus! {

/// The record that `initialize` binds into a fresh slot: the given owner,
/// an empty value, and the given reserved capacity.
pub open spec fn fresh_account(owner: Identity, capacity: nat) -> AccountView {
    AccountView { owner, value: Seq::empty(), capacity }
}

/// One `initialize` transaction against a slot: allocation succeeds only
/// on an absent record, and an occupied slot is left untouched.
pub open spec fn init_step(
    state: Option<AccountView>,
    owner: Identity,
    capacity: nat,
) -> (Option<AccountView>, Result<(), IPCMError>) {
    match state {
        None => (Some(fresh_account(owner, capacity)), Ok(())),
        Some(_) => (state, Err(IPCMError::AlreadyInitialized)),
    }
}

/// One `update_mapping` transaction against a slot. On success the outcome
/// carries the value of the emitted change notification; on failure the
/// slot is left untouched.
pub open spec fn update_step(
    state: Option<AccountView>,
    caller: Identity,
    v: Seq<char>,
) -> (Option<AccountView>, Result<Seq<char>, IPCMError>) {
    match state {
        None => (state, Err(IPCMError::NotFound)),
        Some(acc) => if caller != acc.owner {
            (state, Err(IPCMError::UnauthorizedAccess))
        } else if byte_len(v) > acc.capacity {
            (state, Err(IPCMError::CapacityExceeded))
        } else {
            (Some(AccountView { value: v, ..acc }), Ok(v))
        },
    }
}

/// One `get_mapping` transaction: reads never change the slot, so only the
/// outcome is given.
pub open spec fn read_step(state: Option<AccountView>) -> Result<Seq<char>, IPCMError> {
    match state {
        None => Err(IPCMError::NotFound),
        Some(acc) => Ok(acc.value),
    }
}

/// The slot state after a whole sequence of `update_mapping` transactions,
/// applied in order; each entry gives the caller and the proposed value.
pub open spec fn apply_updates(
    state: Option<AccountView>,
    ops: Seq<(Identity, Seq<char>)>,
) -> Option<AccountView>
    decreases ops.len(),
{
    if ops.len() == 0 {
        state
    } else {
        apply_updates(update_step(state, ops[0].0, ops[0].1).0, ops.drop_first())
    }
}

/// Ownership immutability: no sequence of update transactions — whoever
/// the callers are and whether each succeeds or fails — can remove the
/// record, change its owner, or change its reserved capacity. In
/// particular, the owner after any run of updates is the owner that
/// `initialize` bound.
pub proof fn lemma_owner_immutable(acc: AccountView, ops: Seq<(Identity, Seq<char>)>)
    ensures
        apply_updates(Some(acc), ops) matches Some(end) && end.owner == acc.owner
            && end.capacity == acc.capacity,
    decreases ops.len(),
{
    if ops.len() > 0 {
        let next = update_step(Some(acc), ops[0].0, ops[0].1).0;
        lemma_owner_immutable(next.unwrap(), ops.drop_first());
    }
}

/// Authorization: an update of an existing record succeeds exactly when
/// the caller is the owner and the value fits; a caller other than the
/// owner is always refused with `UnauthorizedAccess`, and the record is
/// left unchanged.
pub proof fn lemma_authorization(acc: AccountView, caller: Identity, v: Seq<char>)
    ensures
        update_step(Some(acc), caller, v).1 is Ok <==> caller == acc.owner && byte_len(v)
            <= acc.capacity,
        caller != acc.owner ==> update_step(Some(acc), caller, v) == (
            Some(acc),
            Result::<Seq<char>, IPCMError>::Err(IPCMError::UnauthorizedAccess),
        ),
{
}

/// Read transparency: reading an existing record never fails and returns
/// the most recently committed value — in particular, the value a
/// successful update just wrote.
pub proof fn lemma_read_transparency(acc: AccountView, caller: Identity, v: Seq<char>)
    ensures
        read_step(Some(acc)) == Result::<Seq<char>, IPCMError>::Ok(acc.value),
        update_step(Some(acc), caller, v).1 is Ok ==> read_step(
            update_step(Some(acc), caller, v).0,
        ) == Result::<Seq<char>, IPCMError>::Ok(v),
{
}

/// Idempotent re-write: once an update of `v` has succeeded, repeating it
/// yields the identical final state and an identical change notification.
pub proof fn lemma_idempotent_rewrite(state: Option<AccountView>, caller: Identity, v: Seq<char>)
    requires
        update_step(state, caller, v).1 is Ok,
    ensures
        update_step(update_step(state, caller, v).0, caller, v) == update_step(state, caller, v),
{
    let once = update_step(state, caller, v);
    let twice = update_step(once.0, caller, v);
    assert(twice.0 =~= once.0);
}

/// Capacity bound: the owner's update of a value longer than the reserved
/// capacity is refused with `CapacityExceeded`, and the record is left
/// unchanged.
pub proof fn lemma_capacity_bound(acc: AccountView, caller: Identity, v: Seq<char>)
    requires
        caller == acc.owner,
        byte_len(v) > acc.capacity,
    ensures
        update_step(Some(acc), caller, v) == (
            Some(acc),
            Result::<Seq<char>, IPCMError>::Err(IPCMError::CapacityExceeded),
        ),
{
}

/// Initialize-once: a second `initialize` against an occupied slot fails
/// with `AlreadyInitialized`, whatever owner or capacity it proposes, and
/// the record — owner and value alike — is unaffected.
pub proof fn lemma_init_once(acc: AccountView, owner: Identity, capacity: nat)
    ensures
        init_step(Some(acc), owner, capacity) == (
            Some(acc),
            Result::<(), IPCMError>::Err(IPCMError::AlreadyInitialized),
        ),
{
}

/// Capacity invariant: a fresh record is well formed, and every step of
/// the protocol preserves well-formedness of the slot, so a record's value
/// never exceeds its reserved capacity.
pub proof fn lemma_steps_preserve_wf(
    state: Option<AccountView>,
    owner: Identity,
    capacity: nat,
    caller: Identity,
    v: Seq<char>,
)
    requires
        slot_wf(state),
    ensures
        fresh_account(owner, capacity).wf(),
        slot_wf(init_step(state, owner, capacity).0),
        slot_wf(update_step(state, caller, v).0),
{
    assert(vstd::utf8::encode_utf8(Seq::<char>::empty()) =~= Seq::<u8>::empty());
}

} // verus!
