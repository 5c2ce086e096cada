//! What holds of the operations taken together.
//!
//! Each law is stated over the verdicts and outcomes that the contracts of
//! the operations are stated over, so it holds of every call of them.

use vstd::prelude::*;
use crate::access::may_record;
use crate::access::record_permit;
use crate::batch::batch_outcome;
use crate::batch::batch_verdict;
use crate::batch::lemma_entries_verdict;
use crate::batch::lemma_filed_all;
use crate::batch::MAX_BATCH_SIZE;
use crate::errors::CustomError;
use crate::identity::Identity;
use crate::index::account_index_mentions;
use crate::index::account_index_without;
use crate::index::date_index_mentions;
use crate::index::date_index_without;
use crate::index::lemma_account_index_without;
use crate::index::lemma_date_index_without;
use crate::ledger::freeze_outcome;
use crate::ledger::has_room;
use crate::modify::delete_outcome;
use crate::modify::delete_verdict;
use crate::modify::update_outcome;
use crate::modify::update_verdict;
use crate::record::entry_found;
use crate::record::record_outcome;
use crate::record::record_verdict;
use crate::record::recorded_entry;
use crate::state::EntryFields;
use crate::state::LedgerView;
use crate::state::SlotView;

verus! {

/// An entry that was recorded is found under its id, and under no other. It
/// posts exactly what was submitted; its time and its creator are the time
/// and the actor of the recording.
pub proof fn lemma_recorded_entry_is_found(
    ledger: LedgerView,
    slot: SlotView,
    user: Identity,
    now: i64,
    fields: EntryFields,
    other_id: Seq<char>,
)
    requires
        record_verdict(ledger, slot, user, fields) is Ok,
        other_id != fields.entry_id,
    ensures
        entry_found(record_outcome(ledger, slot, user, now, fields).1, fields.entry_id) == Some(
            recorded_entry(user, now, fields),
        ),
        entry_found(record_outcome(ledger, slot, user, now, fields).1, other_id) is None,
        recorded_entry(user, now, fields).fields() == fields,
        recorded_entry(user, now, fields).timestamp == now,
        recorded_entry(user, now, fields).creator == user,
        recorded_entry(user, now, fields).well_formed(),
{
}

/// Once an entry is recorded, its slot takes no second one: whoever tries,
/// with whatever fields, is refused and changes nothing, and an actor who may
/// record and submits valid fields is told that the id is taken.
pub proof fn lemma_same_id_twice_is_refused(
    ledger: LedgerView,
    slot: SlotView,
    user: Identity,
    now: i64,
    fields: EntryFields,
    next_user: Identity,
    later: i64,
    next_fields: EntryFields,
)
    requires
        record_verdict(ledger, slot, user, fields) is Ok,
    ensures
        ({
            let (recorded, taken) = record_outcome(ledger, slot, user, now, fields);
            &&& record_verdict(recorded, taken, next_user, next_fields) is Err
            &&& record_outcome(recorded, taken, next_user, later, next_fields) == (recorded, taken)
            &&& record_permit(recorded, next_user) is Ok && next_fields.verdict() is Ok
                ==> record_verdict(recorded, taken, next_user, next_fields) == Err::<
                (),
                CustomError,
            >(CustomError::DuplicateEntryId)
            &&& record_verdict(recorded, taken, user, fields) == Err::<(), CustomError>(
                CustomError::DuplicateEntryId,
            )
        }),
{
}

/// An id that one ledger has taken is free on every other: a ledger that is
/// not frozen, has room and a vacant slot for the id takes the same fields
/// from an actor who may record on it, whatever the first ledger holds.
pub proof fn lemma_other_ledger_takes_same_id(
    ledger: LedgerView,
    slot: SlotView,
    user: Identity,
    fields: EntryFields,
    other_ledger: LedgerView,
    other_slot: SlotView,
    other_user: Identity,
)
    requires
        record_verdict(ledger, slot, user, fields) is Ok,
        record_permit(other_ledger, other_user) is Ok,
        other_slot.record is None,
        has_room(other_ledger, 1),
    ensures
        record_verdict(other_ledger, other_slot, other_user, fields) is Ok,
{
}

/// What a storage holds of entries, as a value: for each ledger and each
/// entry id, the one slot that the two name.
pub type Storage = spec_fn(Identity, Seq<char>) -> SlotView;

/// `storage` with `slot` in the place that `ledger_key` and `entry_id` name.
pub open spec fn storage_with(
    storage: Storage,
    ledger_key: Identity,
    entry_id: Seq<char>,
    slot: SlotView,
) -> Storage {
    |key: Identity, id: Seq<char>|
        if key == ledger_key && id == entry_id {
            slot
        } else {
            storage(key, id)
        }
}

/// The ledger and the storage that an attempt to record on the ledger at
/// `ledger_key` leaves: the attempt meets the slot that the ledger and the id
/// of the new entry name, and no other.
pub open spec fn record_in_storage(
    storage: Storage,
    ledger_key: Identity,
    ledger: LedgerView,
    user: Identity,
    now: i64,
    fields: EntryFields,
) -> (LedgerView, Storage) {
    let outcome = record_outcome(
        ledger,
        storage(ledger_key, fields.entry_id),
        user,
        now,
        fields,
    );
    (outcome.0, storage_with(storage, ledger_key, fields.entry_id, outcome.1))
}

/// An entry id is taken once per ledger. After an entry is recorded, reading
/// under its id on its ledger finds it; a second entry with the same id on
/// the same ledger is refused, as a duplicate where the actor may record and
/// the fields are valid; and every other ledger is as free to take the id as
/// it was before.
pub proof fn lemma_entry_id_is_unique_per_ledger(
    storage: Storage,
    ledger_key: Identity,
    ledger: LedgerView,
    user: Identity,
    now: i64,
    fields: EntryFields,
    next_user: Identity,
    next_fields: EntryFields,
    other_key: Identity,
    other_ledger: LedgerView,
    other_user: Identity,
)
    requires
        record_verdict(ledger, storage(ledger_key, fields.entry_id), user, fields) is Ok,
        next_fields.entry_id == fields.entry_id,
        other_key != ledger_key,
    ensures
        ({
            let (recorded, after) = record_in_storage(
                storage,
                ledger_key,
                ledger,
                user,
                now,
                fields,
            );
            &&& entry_found(after(ledger_key, fields.entry_id), fields.entry_id) == Some(
                recorded_entry(user, now, fields),
            )
            &&& record_verdict(
                recorded,
                after(ledger_key, next_fields.entry_id),
                next_user,
                next_fields,
            ) is Err
            &&& record_permit(recorded, next_user) is Ok && next_fields.verdict() is Ok
                ==> record_verdict(
                recorded,
                after(ledger_key, next_fields.entry_id),
                next_user,
                next_fields,
            ) == Err::<(), CustomError>(CustomError::DuplicateEntryId)
            &&& after(other_key, fields.entry_id) == storage(other_key, fields.entry_id)
            &&& record_verdict(other_ledger, after(other_key, fields.entry_id), other_user, fields)
                == record_verdict(
                other_ledger,
                storage(other_key, fields.entry_id),
                other_user,
                fields,
            )
        }),
{
}

/// The verdict on fields rests on the fields alone: the same fields get the
/// same verdict every time, and so the same error.
pub proof fn lemma_validation_is_repeatable(first: EntryFields, second: EntryFields)
    requires
        first == second,
    ensures
        first.verdict() == second.verdict(),
{
}

/// Whether `after` is the ledger that some operation on `before` leaves,
/// accepted or refused: recording an entry or a batch, changing or deleting
/// an entry, setting or lifting the freeze, with any actor and any input.
pub open spec fn is_step(before: LedgerView, after: LedgerView) -> bool {
    ||| exists|slot: SlotView, user: Identity, now: i64, fields: EntryFields|
        after == (#[trigger] record_outcome(before, slot, user, now, fields)).0
    ||| exists|key: Identity, user: Identity, now: i64, entries: Seq<EntryFields>|
        after == #[trigger] batch_outcome(before, key, user, now, entries)
    ||| exists|
        slot: SlotView,
        user: Identity,
        now: i64,
        debit: Seq<char>,
        credit: Seq<char>,
        amount: u64,
        currency: Seq<char>,
    |
        slot.record is Some && after == (#[trigger] update_outcome(
            before,
            slot,
            user,
            now,
            debit,
            credit,
            amount,
            currency,
        )).0
    ||| exists|slot: SlotView, user: Identity|
        slot.record is Some && after == (#[trigger] delete_outcome(before, slot, user)).0
    ||| exists|user: Identity, frozen: bool| after == #[trigger] freeze_outcome(before, user, frozen)
}

/// Whether `after` keeps what every operation must keep of `before`: the
/// invariant of the ledger, the count of entries ever recorded at least at
/// its old value, and who the authority, the admins and the auditors are.
pub open spec fn keeps_invariant(before: LedgerView, after: LedgerView) -> bool {
    &&& after.well_formed()
    &&& after.entry_count <= after.total_entries
    &&& before.total_entries <= after.total_entries
    &&& after.authority == before.authority
    &&& after.admins == before.admins
    &&& after.auditors == before.auditors
}

/// Recording an entry, accepted or refused, keeps the invariant.
pub proof fn lemma_record_keeps_invariant(
    ledger: LedgerView,
    slot: SlotView,
    user: Identity,
    now: i64,
    fields: EntryFields,
)
    requires
        ledger.well_formed(),
    ensures
        keeps_invariant(ledger, record_outcome(ledger, slot, user, now, fields).0),
{
}

/// Recording a batch, accepted or refused, keeps the invariant.
pub proof fn lemma_batch_keeps_invariant(
    ledger: LedgerView,
    ledger_key: Identity,
    user: Identity,
    now: i64,
    entries: Seq<EntryFields>,
)
    requires
        ledger.well_formed(),
    ensures
        keeps_invariant(ledger, batch_outcome(ledger, ledger_key, user, now, entries)),
{
    lemma_filed_all(ledger, ledger_key, now, entries);
}

/// Changing an entry, accepted or refused, keeps the invariant.
pub proof fn lemma_update_keeps_invariant(
    ledger: LedgerView,
    slot: SlotView,
    user: Identity,
    now: i64,
    debit: Seq<char>,
    credit: Seq<char>,
    amount: u64,
    currency: Seq<char>,
)
    requires
        ledger.well_formed(),
        slot.record is Some,
    ensures
        keeps_invariant(
            ledger,
            update_outcome(ledger, slot, user, now, debit, credit, amount, currency).0,
        ),
{
    lemma_date_index_without(ledger.entries_by_date, slot.address);
    lemma_account_index_without(ledger.entries_by_account, slot.address);
}

/// Deleting an entry, accepted or refused, keeps the invariant.
pub proof fn lemma_delete_keeps_invariant(ledger: LedgerView, slot: SlotView, user: Identity)
    requires
        ledger.well_formed(),
        slot.record is Some,
    ensures
        keeps_invariant(ledger, delete_outcome(ledger, slot, user).0),
{
    lemma_date_index_without(ledger.entries_by_date, slot.address);
    lemma_account_index_without(ledger.entries_by_account, slot.address);
}

/// No operation breaks the invariant of a ledger, lowers the count of entries
/// ever recorded, or changes who its authority, its admins and its auditors
/// are.
pub proof fn lemma_step_keeps_invariant(before: LedgerView, after: LedgerView)
    requires
        before.well_formed(),
        is_step(before, after),
    ensures
        keeps_invariant(before, after),
{
    if exists|slot: SlotView, user: Identity, now: i64, fields: EntryFields|
        after == (#[trigger] record_outcome(before, slot, user, now, fields)).0 {
        let (slot, user, now, fields) = choose|
            slot: SlotView,
            user: Identity,
            now: i64,
            fields: EntryFields,
        | after == (#[trigger] record_outcome(before, slot, user, now, fields)).0;
        lemma_record_keeps_invariant(before, slot, user, now, fields);
    } else if exists|key: Identity, user: Identity, now: i64, entries: Seq<EntryFields>|
        after == #[trigger] batch_outcome(before, key, user, now, entries) {
        let (key, user, now, entries) = choose|
            key: Identity,
            user: Identity,
            now: i64,
            entries: Seq<EntryFields>,
        | after == #[trigger] batch_outcome(before, key, user, now, entries);
        lemma_batch_keeps_invariant(before, key, user, now, entries);
    } else if exists|
        slot: SlotView,
        user: Identity,
        now: i64,
        debit: Seq<char>,
        credit: Seq<char>,
        amount: u64,
        currency: Seq<char>,
    |
        slot.record is Some && after == (#[trigger] update_outcome(
            before,
            slot,
            user,
            now,
            debit,
            credit,
            amount,
            currency,
        )).0 {
        let (slot, user, now, debit, credit, amount, currency) = choose|
            slot: SlotView,
            user: Identity,
            now: i64,
            debit: Seq<char>,
            credit: Seq<char>,
            amount: u64,
            currency: Seq<char>,
        |
            slot.record is Some && after == (#[trigger] update_outcome(
                before,
                slot,
                user,
                now,
                debit,
                credit,
                amount,
                currency,
            )).0;
        lemma_update_keeps_invariant(before, slot, user, now, debit, credit, amount, currency);
    } else if exists|slot: SlotView, user: Identity|
        slot.record is Some && after == (#[trigger] delete_outcome(before, slot, user)).0 {
        let (slot, user) = choose|slot: SlotView, user: Identity|
            slot.record is Some && after == (#[trigger] delete_outcome(before, slot, user)).0;
        lemma_delete_keeps_invariant(before, slot, user);
    } else {
    }
}

/// Whether each ledger of `states` but the first is the one that some
/// operation on the ledger before it leaves.
pub open spec fn is_history(states: Seq<LedgerView>) -> bool {
    forall|i: int| 0 <= i < states.len() - 1 ==> is_step(#[trigger] states[i], states[i + 1])
}

/// After any sequence of operations on a ledger that obeyed its invariant,
/// the ledger obeys it still, its live entries are among those ever recorded,
/// and the count of entries ever recorded has never gone down.
pub proof fn lemma_history_keeps_invariant(states: Seq<LedgerView>, i: int, j: int)
    requires
        is_history(states),
        0 <= i <= j < states.len(),
        states[0].well_formed(),
    ensures
        states[j].well_formed(),
        states[j].entry_count <= states[j].total_entries,
        states[i].total_entries <= states[j].total_entries,
    decreases j,
{
    if j > 0 {
        if i < j {
            lemma_history_keeps_invariant(states, i, j - 1);
        } else {
            lemma_history_keeps_invariant(states, j - 1, j - 1);
        }
        assert(is_step(states[j - 1], states[j - 1 + 1]));
        lemma_step_keeps_invariant(states[j - 1], states[j]);
    }
}

/// A batch with one element that breaks a rule is refused whole, however many
/// valid elements stand before or after it: the ledger is as before.
pub proof fn lemma_batch_is_all_or_nothing(
    ledger: LedgerView,
    ledger_key: Identity,
    user: Identity,
    now: i64,
    entries: Seq<EntryFields>,
    i: int,
)
    requires
        0 <= i < entries.len(),
        entries[i].verdict() is Err,
    ensures
        batch_verdict(ledger, user, entries) is Err,
        batch_outcome(ledger, ledger_key, user, now, entries) == ledger,
{
    lemma_entries_verdict(entries);
}

/// The bounds of a batch, for an actor who may record on a ledger that is not
/// frozen: more than ten elements are too many, none is an empty batch, and
/// one to ten valid elements are accepted where the ledger has room.
pub proof fn lemma_batch_bounds(ledger: LedgerView, user: Identity, entries: Seq<EntryFields>)
    requires
        record_permit(ledger, user) is Ok,
    ensures
        entries.len() > MAX_BATCH_SIZE ==> batch_verdict(ledger, user, entries) == Err::<
            (),
            CustomError,
        >(CustomError::TooManyEntries),
        entries.len() == 0 ==> batch_verdict(ledger, user, entries) == Err::<(), CustomError>(
            CustomError::EmptyBatch,
        ),
        1 <= entries.len() <= MAX_BATCH_SIZE && has_room(ledger, entries.len()) && (forall|i: int|
            0 <= i < entries.len() ==> (#[trigger] entries[i]).verdict() is Ok) ==> batch_verdict(
            ledger,
            user,
            entries,
        ) is Ok,
{
    lemma_entries_verdict(entries);
}

/// An actor who is neither the authority nor an admin records nothing: a
/// single entry and a batch are both refused for want of permission, and the
/// ledger and the slot are as before.
pub proof fn lemma_stranger_records_nothing(
    ledger: LedgerView,
    slot: SlotView,
    ledger_key: Identity,
    user: Identity,
    now: i64,
    fields: EntryFields,
    entries: Seq<EntryFields>,
)
    requires
        !ledger.is_frozen,
        !may_record(ledger, user),
    ensures
        record_verdict(ledger, slot, user, fields) == Err::<(), CustomError>(
            CustomError::InsufficientPermissions,
        ),
        record_outcome(ledger, slot, user, now, fields) == (ledger, slot),
        batch_verdict(ledger, user, entries) == Err::<(), CustomError>(
            CustomError::InsufficientPermissions,
        ),
        batch_outcome(ledger, ledger_key, user, now, entries) == ledger,
{
}

/// A frozen ledger refuses to record an entry or a batch and to change or
/// delete an entry, whoever asks and whatever the input, and nothing changes.
pub proof fn lemma_frozen_ledger_refuses(
    ledger: LedgerView,
    slot: SlotView,
    ledger_key: Identity,
    user: Identity,
    now: i64,
    fields: EntryFields,
    entries: Seq<EntryFields>,
)
    requires
        ledger.is_frozen,
    ensures
        record_verdict(ledger, slot, user, fields) == Err::<(), CustomError>(
            CustomError::LedgerFrozen,
        ),
        record_outcome(ledger, slot, user, now, fields) == (ledger, slot),
        batch_verdict(ledger, user, entries) == Err::<(), CustomError>(CustomError::LedgerFrozen),
        batch_outcome(ledger, ledger_key, user, now, entries) == ledger,
        update_verdict(
            ledger,
            slot,
            user,
            fields.debit,
            fields.credit,
            fields.amount,
            fields.currency,
        ) == Err::<(), CustomError>(CustomError::LedgerFrozen),
        update_outcome(
            ledger,
            slot,
            user,
            now,
            fields.debit,
            fields.credit,
            fields.amount,
            fields.currency,
        ) == (ledger, slot),
        delete_verdict(ledger, slot, user) == Err::<(), CustomError>(CustomError::LedgerFrozen),
        delete_outcome(ledger, slot, user) == (ledger, slot),
{
}

/// The indexes follow the entries. A deleted entry leaves no reference
/// behind; an entry that was changed is referred to by date at the time of
/// the change and under its two new accounts, by the last elements of the
/// indexes, and by none of the elements it had before.
pub proof fn lemma_indexes_follow_entries(
    ledger: LedgerView,
    slot: SlotView,
    user: Identity,
    now: i64,
    debit: Seq<char>,
    credit: Seq<char>,
    amount: u64,
    currency: Seq<char>,
)
    requires
        slot.record is Some,
    ensures
        delete_verdict(ledger, slot, user) is Ok ==> {
            let after = delete_outcome(ledger, slot, user).0;
            &&& !date_index_mentions(after.entries_by_date, slot.address)
            &&& !account_index_mentions(after.entries_by_account, slot.address)
        },
        update_verdict(ledger, slot, user, debit, credit, amount, currency) is Ok ==> {
            let after = update_outcome(
                ledger,
                slot,
                user,
                now,
                debit,
                credit,
                amount,
                currency,
            ).0;
            let dated = after.entries_by_date;
            let filed = after.entries_by_account;
            &&& dated.last() == (now, slot.address)
            &&& !date_index_mentions(dated.drop_last(), slot.address)
            &&& filed.last() == (credit, seq![slot.address])
            &&& filed.drop_last().last() == (debit, seq![slot.address])
            &&& !account_index_mentions(filed.drop_last().drop_last(), slot.address)
        },
{
    lemma_date_index_without(ledger.entries_by_date, slot.address);
    lemma_account_index_without(ledger.entries_by_account, slot.address);
    if update_verdict(ledger, slot, user, debit, credit, amount, currency) is Ok {
        let after = update_outcome(ledger, slot, user, now, debit, credit, amount, currency).0;
        let dated = after.entries_by_date;
        let filed = after.entries_by_account;
        assert(dated.drop_last() =~= date_index_without(ledger.entries_by_date, slot.address));
        assert(filed.drop_last().drop_last() =~= account_index_without(
            ledger.entries_by_account,
            slot.address,
        ));
    }
}

} // verus!
