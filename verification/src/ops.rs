//! The three operations of the protocol, each verified to behave exactly
//! as the step functions in [`crate::protocol`] say.
//!
//! The external record store hands each operation the slot it loaded (or
//! found absent) and, for writes, the identity it authenticated as the
//! transaction's signer; it persists the slot again when the transaction
//! commits and publishes any returned change notification after the
//! commit.

use vstd::prelude::*;
use crate::account::{slot_view, IPCMAccount, IPCMError, Identity, MappingUpdatedEvent};
use crate::protocol::{init_step, read_step, update_step};

verus! {

/// The context of an `initialize` transaction: the authenticated,
/// fee-paying signer who becomes the record's owner, and the value
/// capacity (in bytes) to reserve in the fresh slot.
pub struct Initialize {
    pub owner: Identity,
    pub capacity: usize,
}

/// Creates the record in an absent slot, binding `ctx.owner` as its owner
/// with an empty value; fails with `AlreadyInitialized` on an occupied
/// slot, which is left untouched.
pub fn initialize(slot: &mut Option<IPCMAccount>, ctx: Initialize) -> (r: Result<(), IPCMError>)
    ensures
        slot_view(*final(slot)) == init_step(slot_view(*old(slot)), ctx.owner, ctx.capacity as nat).0,
        r == init_step(slot_view(*old(slot)), ctx.owner, ctx.capacity as nat).1,
{
    if slot.is_some() {
        return Err(IPCMError::AlreadyInitialized);
    }
    *slot = Some(
        IPCMAccount { owner: ctx.owner, cid_mapping: String::new(), capacity: ctx.capacity },
    );
    Ok(())
}

/// The context of an `update_mapping` transaction: the identity the store
/// authenticated as the transaction's signer.
pub struct UpdateMapping {
    pub owner: Identity,
}

/// The context of a `get_mapping` transaction. Reads carry no signature
/// requirement beyond naming the record, so the context is empty.
pub struct GetMapping {}

/// The outcome of an update as the abstract step sees it: the value of the
/// emitted change notification on success, the failure otherwise.
pub open spec fn outcome_view(
    r: Result<MappingUpdatedEvent, IPCMError>,
) -> Result<Seq<char>, IPCMError> {
    match r {
        Ok(ev) => Ok(ev.value@),
        Err(e) => Err(e),
    }
}

/// Replaces the record's value with `new_value` and returns the change
/// notification to publish after commit. Fails — leaving the slot
/// untouched — with `NotFound` on an absent record, `UnauthorizedAccess`
/// when the signer is not the owner, and `CapacityExceeded` when the new
/// value does not fit in the reserved capacity.
pub fn update_mapping(
    slot: &mut Option<IPCMAccount>,
    ctx: UpdateMapping,
    new_value: String,
) -> (r: Result<MappingUpdatedEvent, IPCMError>)
    ensures
        slot_view(*final(slot)) == update_step(slot_view(*old(slot)), ctx.owner, new_value@).0,
        outcome_view(r) == update_step(slot_view(*old(slot)), ctx.owner, new_value@).1,
{
    match slot.take() {
        None => Err(IPCMError::NotFound),
        Some(mut acc) => {
            if ctx.owner != acc.owner {
                *slot = Some(acc);
                Err(IPCMError::UnauthorizedAccess)
            } else if new_value.as_str().as_bytes().len() > acc.capacity {
                *slot = Some(acc);
                Err(IPCMError::CapacityExceeded)
            } else {
                acc.cid_mapping = new_value;
                let event = MappingUpdatedEvent { value: acc.cid_mapping.clone() };
                *slot = Some(acc);
                Ok(event)
            }
        },
    }
}

/// Returns the record's current value verbatim, with no authorization
/// check; fails with `NotFound` only on an absent record.
pub fn get_mapping(slot: &Option<IPCMAccount>, _ctx: GetMapping) -> (r: Result<String, IPCMError>)
    ensures
        match r {
            Ok(s) => read_step(slot_view(*slot)) == Result::<Seq<char>, IPCMError>::Ok(s@),
            Err(e) => read_step(slot_view(*slot)) == Result::<Seq<char>, IPCMError>::Err(e),
        },
{
    match slot {
        None => Err(IPCMError::NotFound),
        Some(acc) => Ok(acc.cid_mapping.clone()),
    }
}

} // verus!
