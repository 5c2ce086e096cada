//! Changing and deleting an entry that exists.
//!
//! Both are open to the entry's creator and to the ledger's authority, and
//! both keep the indexes true: no reference to an entry outlives it, and an
//! entry that changes is filed anew under what it now posts.

use vstd::prelude::*;
use crate::access::authorize_modify;
use crate::access::modify_permit;
use crate::errors::CustomError;
use crate::identity::Identity;
use crate::index::MAX_INDEX_ENTRIES;
use crate::ledger::filed;
use crate::ledger::has_index_room;
use crate::ledger::purged;
use crate::record::slot_holding;
use crate::record::vacant_slot;
use crate::state::CompanyLedger;
use crate::state::EntryDeleted;
use crate::state::EntryDeletedView;
use crate::state::EntrySlot;
use crate::state::EntryView;
use crate::state::LedgerView;
use crate::state::SlotView;
use crate::validation::posting_verdict;
use crate::validation::validate_posting;

verus! {

/// `entry` with what it posts replaced and its time set to `now`. Its id and
/// its creator stay.
pub open spec fn updated_entry(
    entry: EntryView,
    now: i64,
    new_debit: Seq<char>,
    new_credit: Seq<char>,
    new_amount: u64,
    new_currency: Seq<char>,
) -> EntryView {
    EntryView {
        debit: new_debit,
        credit: new_credit,
        amount: new_amount,
        currency: new_currency,
        timestamp: now,
        ..entry
    }
}

/// The verdict on an attempt to change the entry in `slot`. The tests come
/// in this order: the ledger is not frozen, the actor is the entry's creator
/// or the authority, the new fields are valid, the indexes have room for the
/// entry once its old references are out.
pub open spec fn update_verdict(
    ledger: LedgerView,
    slot: SlotView,
    user: Identity,
    new_debit: Seq<char>,
    new_credit: Seq<char>,
    new_amount: u64,
    new_currency: Seq<char>,
) -> Result<(), CustomError>
    recommends
        slot.record is Some,
{
    if modify_permit(ledger, slot.record->0, user) is Err {
        modify_permit(ledger, slot.record->0, user)
    } else if posting_verdict(new_debit, new_credit, new_amount, new_currency) is Err {
        posting_verdict(new_debit, new_credit, new_amount, new_currency)
    } else if !has_index_room(purged(ledger, slot.address), 1) {
        Err(CustomError::CapacityExceeded)
    } else {
        Ok(())
    }
}

/// The ledger and the slot that an attempt to change an entry leaves.
/// Accepted, the entry posts the new fields at the new time, its old
/// references are out of the indexes, and it is filed anew by date and under
/// its two new accounts; the counters stay. Refused, both are as before.
pub open spec fn update_outcome(
    ledger: LedgerView,
    slot: SlotView,
    user: Identity,
    now: i64,
    new_debit: Seq<char>,
    new_credit: Seq<char>,
    new_amount: u64,
    new_currency: Seq<char>,
) -> (LedgerView, SlotView)
    recommends
        slot.record is Some,
{
    if update_verdict(ledger, slot, user, new_debit, new_credit, new_amount, new_currency) is Ok {
        (
            filed(purged(ledger, slot.address), slot.address, now, new_debit, new_credit),
            slot_holding(
                slot.address,
                updated_entry(slot.record->0, now, new_debit, new_credit, new_amount, new_currency),
            ),
        )
    } else {
        (ledger, slot)
    }
}

/// Changes what the entry in `slot` posts, on behalf of `user` at time `now`.
pub fn update_entry(
    ledger: &mut CompanyLedger,
    slot: &mut EntrySlot,
    user: Identity,
    now: i64,
    new_debit: String,
    new_credit: String,
    new_amount: u64,
    new_currency: String,
) -> (r: Result<(), CustomError>)
    requires
        old(slot).record is Some,
    ensures
        r == update_verdict(
            old(ledger)@,
            old(slot)@,
            user,
            new_debit@,
            new_credit@,
            new_amount,
            new_currency@,
        ),
        (final(ledger)@, final(slot)@) == update_outcome(
            old(ledger)@,
            old(slot)@,
            user,
            now,
            new_debit@,
            new_credit@,
            new_amount,
            new_currency@,
        ),
        r is Err ==> *final(ledger) == *old(ledger) && *final(slot) == *old(slot),
        old(ledger).well_formed() ==> final(ledger).well_formed(),
{
    let permit = match &slot.record {
        Some(entry) => authorize_modify(ledger, entry, user),
        None => Ok(()),
    };
    match permit {
        Err(e) => {
            return Err(e);
        },
        Ok(()) => {},
    }
    match validate_posting(
        new_debit.as_str(),
        new_credit.as_str(),
        new_amount,
        new_currency.as_str(),
    ) {
        Err(e) => {
            return Err(e);
        },
        Ok(()) => {},
    }
    let mut by_date = ledger.entries_by_date.without(slot.address);
    let mut by_account = ledger.entries_by_account.without(slot.address);
    if by_date.len() >= MAX_INDEX_ENTRIES || by_account.len() > MAX_INDEX_ENTRIES - 2 {
        return Err(CustomError::CapacityExceeded);
    }
    by_date.append(now, slot.address);
    by_account.append(new_debit.clone(), slot.address);
    by_account.append(new_credit.clone(), slot.address);
    ledger.entries_by_date = by_date;
    ledger.entries_by_account = by_account;
    match &mut slot.record {
        Some(entry) => {
            entry.debit = new_debit;
            entry.credit = new_credit;
            entry.amount = new_amount;
            entry.currency = new_currency;
            entry.timestamp = now;
        },
        None => {},
    }
    Ok(())
}

/// The ledger after one of its entries is deleted: one live entry fewer, but
/// never fewer than none, and no reference to the entry left in the indexes.
/// The count of entries ever recorded stays.
pub open spec fn ledger_after_delete(ledger: LedgerView, address: Identity) -> LedgerView {
    LedgerView {
        entry_count: if ledger.entry_count > 0 {
            (ledger.entry_count - 1) as nat
        } else {
            0
        },
        ..purged(ledger, address)
    }
}

/// The verdict on an attempt to delete the entry in `slot`: the ledger is
/// not frozen, and the actor is the entry's creator or the authority.
pub open spec fn delete_verdict(ledger: LedgerView, slot: SlotView, user: Identity) -> Result<
    (),
    CustomError,
>
    recommends
        slot.record is Some,
{
    modify_permit(ledger, slot.record->0, user)
}

/// The ledger and the slot that an attempt to delete an entry leaves.
/// Accepted, the slot is vacant and the ledger is as [`ledger_after_delete`]
/// says. Refused, both are as before.
pub open spec fn delete_outcome(ledger: LedgerView, slot: SlotView, user: Identity) -> (
    LedgerView,
    SlotView,
)
    recommends
        slot.record is Some,
{
    if delete_verdict(ledger, slot, user) is Ok {
        (ledger_after_delete(ledger, slot.address), vacant_slot(slot.address))
    } else {
        (ledger, slot)
    }
}

/// The notice that `user` deleted the entry `entry_id` at time `now`.
pub open spec fn deletion_notice(entry_id: Seq<char>, user: Identity, now: i64) -> EntryDeletedView {
    EntryDeletedView { entry_id, deleted_by: user, timestamp: now }
}

/// Deletes the entry in `slot` on behalf of `user` at time `now`. The record
/// is given up: the slot is vacant afterwards.
pub fn delete_entry(
    ledger: &mut CompanyLedger,
    slot: &mut EntrySlot,
    user: Identity,
    now: i64,
) -> (r: Result<EntryDeleted, CustomError>)
    requires
        old(slot).record is Some,
    ensures
        (final(ledger)@, final(slot)@) == delete_outcome(old(ledger)@, old(slot)@, user),
        match delete_verdict(old(ledger)@, old(slot)@, user) {
            Ok(_) => r matches Ok(event) && event@ == deletion_notice(
                old(slot)@.record->0.entry_id,
                user,
                now,
            ),
            Err(e) => r == Err::<EntryDeleted, CustomError>(e) && *final(ledger) == *old(ledger)
                && *final(slot) == *old(slot),
        },
        old(ledger).well_formed() ==> final(ledger).well_formed(),
{
    let permit = match &slot.record {
        Some(entry) => authorize_modify(ledger, entry, user),
        None => Ok(()),
    };
    match permit {
        Err(e) => {
            return Err(e);
        },
        Ok(()) => {},
    }
    let entry_id = match &slot.record {
        Some(entry) => entry.entry_id.clone(),
        None => String::new(),
    };
    ledger.entries_by_date = ledger.entries_by_date.without(slot.address);
    ledger.entries_by_account = ledger.entries_by_account.without(slot.address);
    ledger.entry_count = ledger.entry_count.saturating_sub(1);
    slot.record = None;
    Ok(EntryDeleted { entry_id, deleted_by: user, timestamp: now })
}

} // verus!
