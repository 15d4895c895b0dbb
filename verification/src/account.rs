//! The record data model: owner identities, the persistent account record,
//! its abstract view, and the error taxonomy.

use vstd::prelude::*;

verus! {

/// A fixed-size, public-key-like identity: 32 bytes held as four 64-bit
/// words. Two identities are the same principal exactly when all words are
/// equal.
#[derive(Clone, Copy, Debug, PartialEq, Eq, Structural)]
pub struct Identity {
    pub w0: u64,
    pub w1: u64,
    pub w2: u64,
    pub w3: u64,
}

/// Number of bytes that an `Identity` occupies in the persisted record.
pub const IDENTITY_BYTES: usize = 32;

/// Number of bytes of the store-internal type tag at the head of a
/// persisted record.
pub const DISCRIMINATOR_BYTES: usize = 8;

/// Number of bytes of the length prefix under which the value is
/// persisted.
pub const LENGTH_PREFIX_BYTES: usize = 4;

/// The number of bytes the store must allocate for a record's slot: the
/// store's type tag, the owner identity, the value's length prefix, and
/// the reserved value capacity. `None` when that total does not fit in a
/// machine word.
pub fn required_space(capacity: usize) -> (r: Option<usize>)
    ensures
        match r {
            Some(n) => n == DISCRIMINATOR_BYTES + IDENTITY_BYTES + LENGTH_PREFIX_BYTES
                + capacity,
            None => DISCRIMINATOR_BYTES + IDENTITY_BYTES + LENGTH_PREFIX_BYTES + capacity
                > usize::MAX,
        },
{
    capacity.checked_add(DISCRIMINATOR_BYTES + IDENTITY_BYTES + LENGTH_PREFIX_BYTES)
}

/// The sole persistent entity: one owner and one mapping value, together
/// with the maximum byte length reserved for the value when the record's
/// slot was allocated.
pub struct IPCMAccount {
    /// Set exactly once, at creation; immutable thereafter.
    pub owner: Identity,
    /// The mapping value, e.g. a content-identifier string.
    pub cid_mapping: String,
    /// Maximum byte length of `cid_mapping`, fixed at creation.
    pub capacity: usize,
}

/// Byte length of a text value under UTF-8, the unit in which record
/// capacity is measured.
pub open spec fn byte_len(s: Seq<char>) -> nat {
    vstd::utf8::encode_utf8(s).len()
}

/// The abstract state of one account record.
#[verifier::ext_equal]
pub ghost struct AccountView {
    pub owner: Identity,
    pub value: Seq<char>,
    pub capacity: nat,
}

impl AccountView {
    /// Well-formedness: the stored value fits in the reserved capacity.
    pub open spec fn wf(self) -> bool {
        byte_len(self.value) <= self.capacity
    }
}

impl View for IPCMAccount {
    type V = AccountView;

    open spec fn view(&self) -> AccountView {
        AccountView {
            owner: self.owner,
            value: self.cid_mapping@,
            capacity: self.capacity as nat,
        }
    }
}

/// The abstract state of one storage slot: `None` while the record is
/// absent, `Some` once it has been initialized.
pub open spec fn slot_view(s: Option<IPCMAccount>) -> Option<AccountView> {
    match s {
        None => None,
        Some(a) => Some(a@),
    }
}

/// Well-formedness of a slot: an absent record is well formed, a present
/// one must satisfy its capacity bound.
pub open spec fn slot_wf(s: Option<AccountView>) -> bool {
    match s {
        None => true,
        Some(a) => a.wf(),
    }
}

/// The change notification emitted after a successful update, carrying the
/// new value.
pub struct MappingUpdatedEvent {
    pub value: String,
}

/// Every failure this protocol can surface. Each operation reports exactly
/// one of these; the enclosing transaction rolls back, so no partial
/// mutation is ever visible.
#[derive(Clone, Copy, Debug, PartialEq, Eq, Structural)]
pub enum IPCMError {
    /// The caller of an update is not the record's owner.
    UnauthorizedAccess,
    /// An initialize targeted a slot that is already occupied.
    AlreadyInitialized,
    /// A replacement value exceeds the record's reserved capacity.
    CapacityExceeded,
    /// The targeted slot holds no record.
    NotFound,
}

impl IPCMError {
    /// A human-readable description of the failure.
    pub fn message(&self) -> (r: String)
        ensures
            self is UnauthorizedAccess ==> r@ == "Only the owner can perform this action"@,
            self is AlreadyInitialized ==> r@ == "The record has already been initialized"@,
            self is CapacityExceeded ==> r@ == "The new value exceeds the reserved capacity"@,
            self is NotFound ==> r@ == "The record has not been initialized"@,
    {
        match self {
            IPCMError::UnauthorizedAccess => "Only the owner can perform this action".to_owned(),
            IPCMError::AlreadyInitialized => "The record has already been initialized".to_owned(),
            IPCMError::CapacityExceeded => "The new value exceeds the reserved capacity".to_owned(),
            IPCMError::NotFound => "The record has not been initialized".to_owned(),
        }
    }
}

} // verus!
