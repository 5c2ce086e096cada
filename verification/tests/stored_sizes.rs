use anchor_lang::AnchorSerialize;
use company_ledger::batch::batch_record_entries;
use company_ledger::errors::CustomError;
use company_ledger::identity::Identity;
use company_ledger::ledger::initialize_ledger;
use company_ledger::modify::delete_entry;
use company_ledger::record::record_entry;
use company_ledger::state::{BatchEntryData, CompanyLedger, Entry, EntrySlot};

fn id(n: u8) -> Identity {
    Identity { bytes: [n; 32] }
}

fn entry_bytes(e: &Entry) -> usize {
    (
        e.entry_id.clone(),
        e.debit.clone(),
        e.credit.clone(),
        e.amount,
        e.currency.clone(),
        e.timestamp,
        e.creator.bytes,
    )
        .try_to_vec()
        .unwrap()
        .len()
}

fn ledger_bytes(l: &CompanyLedger) -> usize {
    let keys = |ids: &Vec<Identity>| ids.iter().map(|i| i.bytes).collect::<Vec<[u8; 32]>>();
    (
        l.authority.bytes,
        keys(&l.admins.members),
        keys(&l.auditors.members),
        l.entry_count,
        l.total_entries,
        l.is_frozen,
        l.entries_by_date.entries.iter().map(|(t, k)| (*t, k.bytes)).collect::<Vec<(i64, [u8; 32])>>(),
        l.entries_by_account
            .buckets
            .iter()
            .map(|(code, ids)| (code.clone(), keys(ids)))
            .collect::<Vec<(String, Vec<[u8; 32]>)>>(),
    )
        .try_to_vec()
        .unwrap()
        .len()
}

fn recorded(ledger: &mut CompanyLedger, address: u8, entry_id: &str, debit: &str, credit: &str, currency: &str) -> EntrySlot {
    let mut slot = EntrySlot { address: id(address), record: None };
    let user = ledger.authority;
    record_entry(
        ledger,
        &mut slot,
        user,
        1,
        entry_id.to_string(),
        debit.to_string(),
        credit.to_string(),
        7,
        currency.to_string(),
    )
    .unwrap();
    slot
}

#[test]
fn entry_size_is_the_size_of_its_stored_form() {
    let mut ledger = initialize_ledger(id(1));
    let small = recorded(&mut ledger, 11, "E", "A", "B", "").record.unwrap();
    assert_eq!(small.stored_size(), 4 + 1 + 4 + 1 + 4 + 1 + 8 + 4 + 8 + 32);
    assert_eq!(small.stored_size(), entry_bytes(&small));
    let usual = recorded(&mut ledger, 12, "E1", "CASH", "REV", "USD").record.unwrap();
    assert_eq!(usual.stored_size(), 76);
    assert_eq!(usual.stored_size(), entry_bytes(&usual));
    let accented = recorded(&mut ledger, 13, "născut", "A", "B", "đ").record.unwrap();
    assert_eq!(accented.stored_size(), entry_bytes(&accented));
}

#[test]
fn largest_entry_fills_its_room_exactly() {
    let mut ledger = initialize_ledger(id(1));
    let largest = recorded(
        &mut ledger,
        11,
        &"i".repeat(32),
        &"d".repeat(16),
        &"c".repeat(16),
        &"u".repeat(8),
    )
    .record
    .unwrap();
    assert_eq!(largest.stored_size(), Entry::MAX_SIZE);
    assert_eq!(entry_bytes(&largest), Entry::MAX_SIZE);
}

#[test]
fn ledger_size_is_the_size_of_its_stored_form() {
    let a = id(1);
    let mut ledger = initialize_ledger(a);
    assert_eq!(ledger.stored_size(), 32 + 4 + 4 + 8 + 8 + 1 + 4 + 4);
    assert_eq!(ledger.stored_size(), ledger_bytes(&ledger));
    ledger.admins.insert(id(2)).unwrap();
    ledger.admins.insert(id(3)).unwrap();
    ledger.auditors.insert(id(4)).unwrap();
    assert_eq!(ledger.stored_size(), ledger_bytes(&ledger));
    let mut s1 = recorded(&mut ledger, 11, "E1", "CASH", "REV", "USD");
    let _s2 = recorded(&mut ledger, 12, "E2", "RENT", "CASH", "USD");
    assert_eq!(ledger.stored_size(), ledger_bytes(&ledger));
    assert_eq!(
        ledger.stored_size(),
        65 + 3 * 32 + 2 * 40 + (12 + 32) + (11 + 32) + (12 + 32) + (12 + 32)
    );
    batch_record_entries(
        &mut ledger,
        id(9),
        a,
        5,
        vec![BatchEntryData {
            entry_id: "B1".to_string(),
            debit: "ABCDEFGHIJKLMNOP".to_string(),
            credit: "Z".to_string(),
            amount: 1,
            currency: "EUR".to_string(),
        }],
    )
    .unwrap();
    assert_eq!(ledger.stored_size(), ledger_bytes(&ledger));
    delete_entry(&mut ledger, &mut s1, a, 6).unwrap();
    assert_eq!(ledger.stored_size(), ledger_bytes(&ledger));
}

#[test]
fn full_ledger_fits_its_room() {
    let a = id(1);
    let mut ledger = initialize_ledger(a);
    for i in 0..10u8 {
        ledger.admins.insert(id(10 + i)).unwrap();
        ledger.auditors.insert(id(30 + i)).unwrap();
    }
    for i in 0..50u8 {
        recorded(&mut ledger, 100 + i, &format!("E{}", i), &"d".repeat(16), &"c".repeat(16), "USD");
    }
    let mut extra = EntrySlot { address: id(200), record: None };
    assert_eq!(
        record_entry(
            &mut ledger,
            &mut extra,
            a,
            1,
            "E50".to_string(),
            "A".to_string(),
            "B".to_string(),
            1,
            "USD".to_string()
        ),
        Err(CustomError::CapacityExceeded)
    );
    let size = ledger.stored_size();
    assert_eq!(size, ledger_bytes(&ledger));
    assert_eq!(size, 32 + 324 + 324 + 17 + 4 + 50 * 40 + 4 + 100 * (4 + 16 + 4 + 32));
    assert!(size <= CompanyLedger::MAX_SIZE);
}
