use ipcm::account::{IPCMAccount, IPCMError, Identity};
use ipcm::ops::{get_mapping, initialize, update_mapping, GetMapping, Initialize, UpdateMapping};

fn o1() -> Identity {
    Identity { w0: 1, w1: 2, w2: 3, w3: 4 }
}

fn o2() -> Identity {
    Identity { w0: 5, w1: 6, w2: 7, w3: 8 }
}

const CAPACITY: usize = 168;

fn initialized_slot() -> Option<IPCMAccount> {
    let mut slot: Option<IPCMAccount> = None;
    let r = initialize(&mut slot, Initialize { owner: o1(), capacity: CAPACITY });
    assert!(r.is_ok());
    slot
}

#[test]
fn initialize_leaves_empty_value() {
    let slot = initialized_slot();
    let got = get_mapping(&slot, GetMapping {}).unwrap();
    assert_eq!(got, "");
}

#[test]
fn initialize_binds_owner() {
    let slot = initialized_slot();
    assert_eq!(slot.as_ref().unwrap().owner, o1());
    assert_eq!(slot.as_ref().unwrap().capacity, CAPACITY);
}

#[test]
fn owner_update_succeeds_and_emits_event() {
    let mut slot = initialized_slot();
    let event = update_mapping(
        &mut slot,
        UpdateMapping { owner: o1() },
        "Qm123abc".to_string(),
    )
    .unwrap();
    assert_eq!(event.value, "Qm123abc");
    let got = get_mapping(&slot, GetMapping {}).unwrap();
    assert_eq!(got, "Qm123abc");
}

#[test]
fn non_owner_update_rejected() {
    let mut slot = initialized_slot();
    update_mapping(&mut slot, UpdateMapping { owner: o1() }, "Qm123abc".to_string()).unwrap();
    let r = update_mapping(&mut slot, UpdateMapping { owner: o2() }, "evil".to_string());
    assert_eq!(r.err().unwrap(), IPCMError::UnauthorizedAccess);
    let got = get_mapping(&slot, GetMapping {}).unwrap();
    assert_eq!(got, "Qm123abc");
    assert_eq!(slot.as_ref().unwrap().owner, o1());
}

#[test]
fn repeated_update_is_idempotent() {
    let mut slot = initialized_slot();
    let first = update_mapping(
        &mut slot,
        UpdateMapping { owner: o1() },
        "Qm123abc".to_string(),
    )
    .unwrap();
    let second = update_mapping(
        &mut slot,
        UpdateMapping { owner: o1() },
        "Qm123abc".to_string(),
    )
    .unwrap();
    assert_eq!(first.value, second.value);
    let got = get_mapping(&slot, GetMapping {}).unwrap();
    assert_eq!(got, "Qm123abc");
    assert_eq!(slot.as_ref().unwrap().owner, o1());
}

#[test]
fn oversized_update_rejected() {
    let mut slot = initialized_slot();
    update_mapping(&mut slot, UpdateMapping { owner: o1() }, "Qm123abc".to_string()).unwrap();
    let long = "x".repeat(CAPACITY + 1);
    let r = update_mapping(&mut slot, UpdateMapping { owner: o1() }, long);
    assert_eq!(r.err().unwrap(), IPCMError::CapacityExceeded);
    let got = get_mapping(&slot, GetMapping {}).unwrap();
    assert_eq!(got, "Qm123abc");
}

#[test]
fn value_of_exactly_capacity_fits() {
    let mut slot = initialized_slot();
    let exact = "y".repeat(CAPACITY);
    let event = update_mapping(&mut slot, UpdateMapping { owner: o1() }, exact.clone()).unwrap();
    assert_eq!(event.value, exact);
    assert_eq!(get_mapping(&slot, GetMapping {}).unwrap(), exact);
}

#[test]
fn capacity_is_measured_in_bytes() {
    let mut slot: Option<IPCMAccount> = None;
    initialize(&mut slot, Initialize { owner: o1(), capacity: 1 }).unwrap();
    // One accented letter occupies two bytes under UTF-8.
    let r = update_mapping(&mut slot, UpdateMapping { owner: o1() }, "\u{00e9}".to_string());
    assert_eq!(r.err().unwrap(), IPCMError::CapacityExceeded);
    let mut roomy: Option<IPCMAccount> = None;
    initialize(&mut roomy, Initialize { owner: o1(), capacity: 2 }).unwrap();
    let event = update_mapping(&mut roomy, UpdateMapping { owner: o1() }, "\u{00e9}".to_string());
    assert_eq!(event.unwrap().value, "\u{00e9}");
}

#[test]
fn second_initialize_rejected() {
    let mut slot = initialized_slot();
    update_mapping(&mut slot, UpdateMapping { owner: o1() }, "Qm123abc".to_string()).unwrap();
    let r = initialize(&mut slot, Initialize { owner: o2(), capacity: CAPACITY });
    assert_eq!(r.err().unwrap(), IPCMError::AlreadyInitialized);
    assert_eq!(slot.as_ref().unwrap().owner, o1());
    assert_eq!(get_mapping(&slot, GetMapping {}).unwrap(), "Qm123abc");
}

#[test]
fn update_of_absent_record_not_found() {
    let mut slot: Option<IPCMAccount> = None;
    let r = update_mapping(&mut slot, UpdateMapping { owner: o1() }, "Qm123abc".to_string());
    assert_eq!(r.err().unwrap(), IPCMError::NotFound);
    assert!(slot.is_none());
}

#[test]
fn read_of_absent_record_not_found() {
    let slot: Option<IPCMAccount> = None;
    let r = get_mapping(&slot, GetMapping {});
    assert_eq!(r.err().unwrap(), IPCMError::NotFound);
}

#[test]
fn owner_survives_any_update_sequence() {
    let mut slot = initialized_slot();
    let attempts = vec![
        (o1(), "QmFirst".to_string()),
        (o2(), "stolen".to_string()),
        (o1(), "z".repeat(CAPACITY + 5)),
        (o1(), "QmSecond".to_string()),
        (o2(), "".to_string()),
    ];
    for (caller, value) in attempts {
        let _ = update_mapping(&mut slot, UpdateMapping { owner: caller }, value);
    }
    assert_eq!(slot.as_ref().unwrap().owner, o1());
    assert_eq!(get_mapping(&slot, GetMapping {}).unwrap(), "QmSecond");
    // The bound owner can still write after every failed takeover.
    let event = update_mapping(&mut slot, UpdateMapping { owner: o1() }, "QmThird".to_string());
    assert_eq!(event.unwrap().value, "QmThird");
}

#[test]
fn empty_value_fits_any_capacity() {
    let mut slot: Option<IPCMAccount> = None;
    initialize(&mut slot, Initialize { owner: o1(), capacity: 0 }).unwrap();
    let event = update_mapping(&mut slot, UpdateMapping { owner: o1() }, String::new()).unwrap();
    assert_eq!(event.value, "");
    assert_eq!(get_mapping(&slot, GetMapping {}).unwrap(), "");
}

#[test]
fn required_space_counts_header_and_capacity() {
    // Type tag (8) + owner identity (32) + length prefix (4) + payload.
    assert_eq!(ipcm::account::required_space(168), Some(212));
    assert_eq!(ipcm::account::required_space(0), Some(44));
    assert_eq!(ipcm::account::required_space(usize::MAX), None);
}

#[test]
fn error_messages_name_each_failure() {
    assert_eq!(
        IPCMError::UnauthorizedAccess.message(),
        "Only the owner can perform this action"
    );
    assert_eq!(
        IPCMError::AlreadyInitialized.message(),
        "The record has already been initialized"
    );
    assert_eq!(
        IPCMError::CapacityExceeded.message(),
        "The new value exceeds the reserved capacity"
    );
    assert_eq!(
        IPCMError::NotFound.message(),
        "The record has not been initialized"
    );
}
