use company_ledger::errors::CustomError;
use company_ledger::identity::Identity;
use company_ledger::index::MAX_INDEX_ENTRIES;
use company_ledger::ledger::{freeze_ledger, initialize_ledger, room_for, unfreeze_ledger};
use company_ledger::record::{get_entry, record_entry};
use company_ledger::state::{CompanyLedger, Entry, EntryRecorded, EntrySlot};

fn id(n: u8) -> Identity {
    Identity { bytes: [n; 32] }
}

fn slot(n: u8) -> EntrySlot {
    EntrySlot { address: id(n), record: None }
}

fn record(
    ledger: &mut CompanyLedger,
    slot: &mut EntrySlot,
    user: Identity,
    now: i64,
    entry_id: &str,
    debit: &str,
    credit: &str,
    amount: u64,
    currency: &str,
) -> Result<EntryRecorded, CustomError> {
    record_entry(
        ledger,
        slot,
        user,
        now,
        entry_id.to_string(),
        debit.to_string(),
        credit.to_string(),
        amount,
        currency.to_string(),
    )
}

#[test]
fn new_ledger_is_empty() {
    let a = id(1);
    let ledger = initialize_ledger(a);
    assert_eq!(ledger.authority, a);
    assert_eq!(ledger.entry_count, 0);
    assert_eq!(ledger.total_entries, 0);
    assert!(!ledger.is_frozen);
    assert!(ledger.admins.members.is_empty());
    assert!(ledger.auditors.members.is_empty());
    assert!(ledger.entries_by_date.entries.is_empty());
    assert!(ledger.entries_by_account.buckets.is_empty());
}

#[test]
fn authority_records_and_stranger_is_refused() {
    let a = id(1);
    let b = id(2);
    let mut ledger = initialize_ledger(a);
    let mut slot_e1 = slot(101);
    let event =
        record(&mut ledger, &mut slot_e1, a, 1_700_000_000, "E1", "CASH", "REV", 1000, "USD")
            .unwrap();
    assert_eq!(
        event,
        EntryRecorded {
            entry_id: "E1".to_string(),
            debit: "CASH".to_string(),
            credit: "REV".to_string(),
            amount: 1000,
            currency: "USD".to_string(),
            timestamp: 1_700_000_000,
            creator: a,
        }
    );
    assert_eq!(ledger.entry_count, 1);
    assert_eq!(ledger.total_entries, 1);

    let mut slot_e2 = slot(102);
    let before = format!("{:?}", ledger);
    let refused =
        record(&mut ledger, &mut slot_e2, b, 1_700_000_001, "E2", "CASH", "REV", 1000, "USD");
    assert_eq!(refused, Err(CustomError::InsufficientPermissions));
    assert_eq!(ledger.entry_count, 1);
    assert_eq!(ledger.total_entries, 1);
    assert_eq!(format!("{:?}", ledger), before);
    assert_eq!(slot_e2.record, None);
}

#[test]
fn recorded_entry_is_read_back_exactly() {
    let a = id(1);
    let mut ledger = initialize_ledger(a);
    let mut s = slot(50);
    record(&mut ledger, &mut s, a, 42, "INV-7", "AR", "SALES", 123_456, "VND").unwrap();
    let found = get_entry(&s, "INV-7").unwrap();
    assert_eq!(
        *found,
        Entry {
            entry_id: "INV-7".to_string(),
            debit: "AR".to_string(),
            credit: "SALES".to_string(),
            amount: 123_456,
            currency: "VND".to_string(),
            timestamp: 42,
            creator: a,
        }
    );
    assert_eq!(get_entry(&s, "INV-8"), None);
    assert_eq!(get_entry(&slot(51), "INV-7"), None);
}

#[test]
fn time_and_creator_come_from_the_call() {
    let a = id(1);
    let admin = id(3);
    let mut ledger = initialize_ledger(a);
    ledger.admins.insert(admin).unwrap();
    let mut s = slot(50);
    record(&mut ledger, &mut s, admin, -5, "E1", "A", "B", 1, "").unwrap();
    let e = s.record.unwrap();
    assert_eq!(e.creator, admin);
    assert_eq!(e.timestamp, -5);
}

#[test]
fn recording_fills_both_indexes() {
    let a = id(1);
    let mut ledger = initialize_ledger(a);
    let mut s1 = slot(11);
    let mut s2 = slot(12);
    record(&mut ledger, &mut s1, a, 100, "E1", "CASH", "REV", 5, "USD").unwrap();
    record(&mut ledger, &mut s2, a, 200, "E2", "RENT", "CASH", 7, "USD").unwrap();
    assert_eq!(ledger.entries_by_date.entries, vec![(100, id(11)), (200, id(12))]);
    assert_eq!(
        ledger.entries_by_account.buckets,
        vec![
            ("CASH".to_string(), vec![id(11)]),
            ("REV".to_string(), vec![id(11)]),
            ("RENT".to_string(), vec![id(12)]),
            ("CASH".to_string(), vec![id(12)]),
        ]
    );
    assert_eq!(ledger.entry_count, 2);
    assert_eq!(ledger.total_entries, 2);
}

#[test]
fn same_id_twice_on_one_ledger_is_a_duplicate() {
    let a = id(1);
    let mut ledger = initialize_ledger(a);
    let mut s = slot(11);
    record(&mut ledger, &mut s, a, 100, "E1", "CASH", "REV", 5, "USD").unwrap();
    let kept = s.clone();
    let before = format!("{:?}", ledger);
    let again = record(&mut ledger, &mut s, a, 101, "E1", "BANK", "LOAN", 9, "EUR");
    assert_eq!(again, Err(CustomError::DuplicateEntryId));
    assert_eq!(s, kept);
    assert_eq!(format!("{:?}", ledger), before);
}

#[test]
fn same_id_on_two_ledgers_is_accepted_on_both() {
    let a = id(1);
    let b = id(2);
    let mut first = initialize_ledger(a);
    let mut second = initialize_ledger(b);
    let mut s1 = slot(11);
    let mut s2 = slot(21);
    assert!(record(&mut first, &mut s1, a, 100, "E1", "CASH", "REV", 5, "USD").is_ok());
    assert!(record(&mut second, &mut s2, b, 100, "E1", "CASH", "REV", 5, "USD").is_ok());
    assert_eq!(first.entry_count, 1);
    assert_eq!(second.entry_count, 1);
    assert_eq!(get_entry(&s1, "E1").unwrap().creator, a);
    assert_eq!(get_entry(&s2, "E1").unwrap().creator, b);
}

#[test]
fn admin_may_record_auditor_may_not() {
    let a = id(1);
    let admin = id(3);
    let auditor = id(4);
    let mut ledger = initialize_ledger(a);
    ledger.admins.insert(admin).unwrap();
    ledger.auditors.insert(auditor).unwrap();
    let mut s1 = slot(11);
    let mut s2 = slot(12);
    assert!(record(&mut ledger, &mut s1, admin, 1, "E1", "A", "B", 1, "USD").is_ok());
    assert_eq!(
        record(&mut ledger, &mut s2, auditor, 1, "E2", "A", "B", 1, "USD"),
        Err(CustomError::InsufficientPermissions)
    );
    assert_eq!(ledger.total_entries, 1);
}

#[test]
fn refusals_come_in_a_fixed_order() {
    let a = id(1);
    let b = id(2);
    let mut ledger = initialize_ledger(a);
    let mut taken = slot(11);
    record(&mut ledger, &mut taken, a, 1, "E1", "A", "B", 1, "USD").unwrap();

    // permission before validation and before the duplicate
    assert_eq!(
        record(&mut ledger, &mut taken, b, 1, "", "A", "A", 0, "USD"),
        Err(CustomError::InsufficientPermissions)
    );
    // validation before the duplicate
    assert_eq!(
        record(&mut ledger, &mut taken, a, 1, "E1", "A", "A", 1, "USD"),
        Err(CustomError::SameDebitCredit)
    );
    // freeze before everything
    freeze_ledger(&mut ledger, a).unwrap();
    assert_eq!(
        record(&mut ledger, &mut taken, b, 1, "", "A", "A", 0, "USD"),
        Err(CustomError::LedgerFrozen)
    );
    assert_eq!(
        record(&mut ledger, &mut taken, a, 1, "E1", "A", "B", 1, "USD"),
        Err(CustomError::LedgerFrozen)
    );
}

#[test]
fn invalid_fields_are_refused_and_change_nothing() {
    let a = id(1);
    let mut ledger = initialize_ledger(a);
    let mut s = slot(11);
    let cases: Vec<(&str, &str, &str, u64, &str, CustomError)> = vec![
        ("", "A", "B", 1, "USD", CustomError::EntryIdEmpty),
        ("123456789012345678901234567890123", "A", "B", 1, "USD", CustomError::EntryIdTooLong),
        ("E", "", "B", 1, "USD", CustomError::AccountCodeEmpty),
        ("E", "A", "12345678901234567", 1, "USD", CustomError::AccountCodeTooLong),
        ("E", "A.", "B", 1, "USD", CustomError::InvalidAccountCode),
        ("E", "A", "A", 1, "USD", CustomError::SameDebitCredit),
        ("E", "A", "B", 0, "USD", CustomError::InvalidAmount),
        ("E", "A", "B", 1, "123456789", CustomError::CurrencyCodeTooLong),
    ];
    for (entry_id, d, c, amount, cur, expected) in cases {
        assert_eq!(record(&mut ledger, &mut s, a, 1, entry_id, d, c, amount, cur), Err(expected));
        assert_eq!(s.record, None);
        assert_eq!(ledger.entry_count, 0);
        assert_eq!(ledger.total_entries, 0);
        assert!(ledger.entries_by_date.entries.is_empty());
        assert!(ledger.entries_by_account.buckets.is_empty());
    }
}

#[test]
fn full_account_index_is_a_capacity_error() {
    let a = id(1);
    let mut ledger = initialize_ledger(a);
    // each entry takes two places of the hundred in the account index
    for i in 0..50u8 {
        let mut s = slot(100 + i);
        let r = record(&mut ledger, &mut s, a, i as i64, &format!("E{}", i), "A", "B", 1, "USD");
        assert!(r.is_ok(), "entry {}", i);
    }
    assert_eq!(ledger.entries_by_account.buckets.len(), MAX_INDEX_ENTRIES);
    assert_eq!(ledger.entries_by_date.entries.len(), 50);
    assert!(!room_for(&ledger, 1));
    let mut s = slot(200);
    let before = format!("{:?}", ledger);
    assert_eq!(
        record(&mut ledger, &mut s, a, 99, "E50", "A", "B", 1, "USD"),
        Err(CustomError::CapacityExceeded)
    );
    assert_eq!(s.record, None);
    assert_eq!(ledger.entry_count, 50);
    assert_eq!(ledger.total_entries, 50);
    assert_eq!(format!("{:?}", ledger), before);
}

#[test]
fn one_place_short_in_the_account_index_is_a_capacity_error() {
    let a = id(1);
    let mut ledger = initialize_ledger(a);
    for i in 0..99u8 {
        ledger.entries_by_account.push("X".to_string(), id(i)).unwrap();
    }
    let mut s = slot(200);
    assert_eq!(
        record(&mut ledger, &mut s, a, 1, "E", "A", "B", 1, "USD"),
        Err(CustomError::CapacityExceeded)
    );
}

#[test]
fn full_date_index_is_a_capacity_error() {
    let a = id(1);
    let mut ledger = initialize_ledger(a);
    for i in 0..100u8 {
        ledger.entries_by_date.push(i as i64, id(i)).unwrap();
    }
    let mut s = slot(200);
    assert_eq!(
        record(&mut ledger, &mut s, a, 1, "E", "A", "B", 1, "USD"),
        Err(CustomError::CapacityExceeded)
    );
    assert_eq!(ledger.total_entries, 0);
}

#[test]
fn counters_at_their_limit_are_a_capacity_error() {
    let a = id(1);
    let mut ledger = initialize_ledger(a);
    ledger.total_entries = u64::MAX;
    ledger.entry_count = 3;
    let mut s = slot(200);
    assert_eq!(
        record(&mut ledger, &mut s, a, 1, "E", "A", "B", 1, "USD"),
        Err(CustomError::CapacityExceeded)
    );
    assert_eq!(ledger.total_entries, u64::MAX);
    assert_eq!(ledger.entry_count, 3);

    ledger.total_entries = u64::MAX - 1;
    assert!(record(&mut ledger, &mut s, a, 1, "E", "A", "B", 1, "USD").is_ok());
    assert_eq!(ledger.total_entries, u64::MAX);
    assert_eq!(ledger.entry_count, 4);
}

#[test]
fn room_for_counts_both_indexes() {
    let a = id(1);
    let mut ledger = initialize_ledger(a);
    assert!(room_for(&ledger, 0));
    assert!(room_for(&ledger, 50));
    assert!(!room_for(&ledger, 51));
    assert!(!room_for(&ledger, usize::MAX));
    ledger.entries_by_account.push("X".to_string(), id(9)).unwrap();
    assert!(room_for(&ledger, 49));
    assert!(!room_for(&ledger, 50));
}

#[test]
fn only_the_authority_sets_and_lifts_the_freeze() {
    let a = id(1);
    let admin = id(3);
    let mut ledger = initialize_ledger(a);
    ledger.admins.insert(admin).unwrap();
    assert_eq!(freeze_ledger(&mut ledger, admin), Err(CustomError::InsufficientPermissions));
    assert!(!ledger.is_frozen);
    assert_eq!(freeze_ledger(&mut ledger, a), Ok(()));
    assert!(ledger.is_frozen);
    assert_eq!(freeze_ledger(&mut ledger, a), Ok(()));
    assert!(ledger.is_frozen);
    assert_eq!(unfreeze_ledger(&mut ledger, admin), Err(CustomError::InsufficientPermissions));
    assert!(ledger.is_frozen);
    assert_eq!(unfreeze_ledger(&mut ledger, a), Ok(()));
    assert!(!ledger.is_frozen);
    let mut s = slot(11);
    assert!(record(&mut ledger, &mut s, admin, 1, "E1", "A", "B", 1, "USD").is_ok());
}
