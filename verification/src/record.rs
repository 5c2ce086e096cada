//! Recording one entry, and reading it back.

use vstd::prelude::*;
use crate::access::authorize_record;
use crate::access::record_permit;
use crate::errors::CustomError;
use crate::identity::Identity;
use crate::ledger::counted;
use crate::ledger::filed;
use crate::ledger::has_room;
use crate::ledger::room_for;
use crate::state::CompanyLedger;
use crate::state::Entry;
use crate::state::EntryFields;
use crate::state::EntryRecorded;
use crate::state::EntrySlot;
use crate::state::EntryView;
use crate::state::LedgerView;
use crate::state::SlotView;
use crate::validation::same_text;
use crate::validation::validate_entry;

verus! {

/// The five fields that a caller submits, as one value.
pub open spec fn entry_fields(
    entry_id: Seq<char>,
    debit: Seq<char>,
    credit: Seq<char>,
    amount: u64,
    currency: Seq<char>,
) -> EntryFields {
    EntryFields { entry_id, debit, credit, amount, currency }
}

/// The entry that comes of `fields` when `user` records them at time `now`:
/// the fields as submitted, with the time and the creator set from the two.
pub open spec fn recorded_entry(user: Identity, now: i64, fields: EntryFields) -> EntryView {
    EntryView {
        entry_id: fields.entry_id,
        debit: fields.debit,
        credit: fields.credit,
        amount: fields.amount,
        currency: fields.currency,
        timestamp: now,
        creator: user,
    }
}

/// The slot at `address` with `entry` in it.
pub open spec fn slot_holding(address: Identity, entry: EntryView) -> SlotView {
    SlotView { address, record: Some(entry) }
}

/// The vacant slot at `address`.
pub open spec fn vacant_slot(address: Identity) -> SlotView {
    SlotView { address, record: None }
}

/// The verdict on an attempt to record an entry. The tests come in this
/// order: the ledger is not frozen, the actor may record, the fields are
/// valid, the slot is vacant, the ledger has room.
pub open spec fn record_verdict(
    ledger: LedgerView,
    slot: SlotView,
    user: Identity,
    fields: EntryFields,
) -> Result<(), CustomError> {
    if record_permit(ledger, user) is Err {
        record_permit(ledger, user)
    } else if fields.verdict() is Err {
        fields.verdict()
    } else if slot.record is Some {
        Err(CustomError::DuplicateEntryId)
    } else if !has_room(ledger, 1) {
        Err(CustomError::CapacityExceeded)
    } else {
        Ok(())
    }
}

/// The ledger and the slot that an attempt to record leaves. Accepted, the
/// entry is in the slot, counted once, and filed by date and under both of
/// its accounts. Refused, both are as before.
pub open spec fn record_outcome(
    ledger: LedgerView,
    slot: SlotView,
    user: Identity,
    now: i64,
    fields: EntryFields,
) -> (LedgerView, SlotView) {
    if record_verdict(ledger, slot, user, fields) is Ok {
        (
            counted(filed(ledger, slot.address, now, fields.debit, fields.credit), 1),
            slot_holding(slot.address, recorded_entry(user, now, fields)),
        )
    } else {
        (ledger, slot)
    }
}

/// Records a new entry in `slot` on behalf of `user` at time `now`. The entry
/// takes its time and its creator from these two, never from the fields
/// submitted. A slot that holds a record already means that the id is taken.
pub fn record_entry(
    ledger: &mut CompanyLedger,
    slot: &mut EntrySlot,
    user: Identity,
    now: i64,
    entry_id: String,
    debit: String,
    credit: String,
    amount: u64,
    currency: String,
) -> (r: Result<EntryRecorded, CustomError>)
    ensures
        (final(ledger)@, final(slot)@) == record_outcome(
            old(ledger)@,
            old(slot)@,
            user,
            now,
            entry_fields(entry_id@, debit@, credit@, amount, currency@),
        ),
        match record_verdict(
            old(ledger)@,
            old(slot)@,
            user,
            entry_fields(entry_id@, debit@, credit@, amount, currency@),
        ) {
            Ok(_) => r matches Ok(event) && event@ == recorded_entry(
                user,
                now,
                entry_fields(entry_id@, debit@, credit@, amount, currency@),
            ),
            Err(e) => r == Err::<EntryRecorded, CustomError>(e) && *final(ledger) == *old(ledger)
                && *final(slot) == *old(slot),
        },
        old(ledger).well_formed() ==> final(ledger).well_formed(),
{
    match authorize_record(ledger, user) {
        Err(e) => {
            return Err(e);
        },
        Ok(()) => {},
    }
    match validate_entry(
        entry_id.as_str(),
        debit.as_str(),
        credit.as_str(),
        amount,
        currency.as_str(),
    ) {
        Err(e) => {
            return Err(e);
        },
        Ok(()) => {},
    }
    if slot.record.is_some() {
        return Err(CustomError::DuplicateEntryId);
    }
    if !room_for(ledger, 1) {
        return Err(CustomError::CapacityExceeded);
    }
    let event = EntryRecorded {
        entry_id: entry_id.clone(),
        debit: debit.clone(),
        credit: credit.clone(),
        amount,
        currency: currency.clone(),
        timestamp: now,
        creator: user,
    };
    ledger.entries_by_date.append(now, slot.address);
    ledger.entries_by_account.append(debit.clone(), slot.address);
    ledger.entries_by_account.append(credit.clone(), slot.address);
    ledger.entry_count = ledger.entry_count + 1;
    ledger.total_entries = ledger.total_entries + 1;
    slot.record = Some(
        Entry { entry_id, debit, credit, amount, currency, timestamp: now, creator: user },
    );
    Ok(event)
}

/// What reading the slot for `entry_id` gives: the record that lives there,
/// if there is one and it carries this id.
pub open spec fn entry_found(slot: SlotView, entry_id: Seq<char>) -> Option<EntryView> {
    if slot.record is Some && slot.record->0.entry_id == entry_id {
        slot.record
    } else {
        None
    }
}

/// Reads the entry with the id `entry_id` from its slot. Nothing changes.
pub fn get_entry<'a>(slot: &'a EntrySlot, entry_id: &str) -> (r: Option<&'a Entry>)
    ensures
        r is Some <==> entry_found(slot@, entry_id@) is Some,
        r matches Some(entry) ==> Some(*entry) == slot.record && Some(entry@) == entry_found(
            slot@,
            entry_id@,
        ),
{
    match &slot.record {
        Some(entry) => {
            if same_text(entry.entry_id.as_str(), entry_id) {
                Some(entry)
            } else {
                None
            }
        },
        None => None,
    }
}

} // verus!
