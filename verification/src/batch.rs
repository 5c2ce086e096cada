//! Recording a batch of entries as one step.
//!
//! Every element is validated before anything changes, so a batch is taken
//! whole or not at all. Batch members get no record of their own: a batch
//! raises the counters and fills the indexes, and its index elements refer
//! to the ledger's own address.

use vstd::prelude::*;
use crate::access::authorize_record;
use crate::access::record_permit;
use crate::errors::CustomError;
use crate::identity::Identity;
use crate::index::buckets_fit;
use crate::ledger::counted;
use crate::ledger::filed;
use crate::ledger::has_room;
use crate::ledger::room_for;
use crate::state::BatchEntriesRecorded;
use crate::state::BatchEntryData;
use crate::state::CompanyLedger;
use crate::state::EntryFields;
use crate::state::LedgerView;
use crate::validation::validate_entry;

verus! {

/// Most entries a batch may hold.
pub const MAX_BATCH_SIZE: usize = 10;

/// The values of the elements of a batch, in their order.
pub open spec fn batch_views(entries: Seq<BatchEntryData>) -> Seq<EntryFields> {
    Seq::new(entries.len(), |i: int| entries[i]@)
}

/// The verdict of the field rules on a batch: that on the first element that
/// breaks a rule, or `Ok` when none does.
pub open spec fn entries_verdict(entries: Seq<EntryFields>) -> Result<(), CustomError>
    decreases entries.len(),
{
    if entries.len() == 0 {
        Ok(())
    } else if entries_verdict(entries.drop_last()) is Err {
        entries_verdict(entries.drop_last())
    } else {
        entries.last().verdict()
    }
}

/// The verdict of [`entries_verdict`] is that of the first element that
/// breaks a rule; it is `Ok` exactly when every element is valid.
pub proof fn lemma_entries_verdict(entries: Seq<EntryFields>)
    ensures
        entries_verdict(entries) is Ok <==> forall|i: int|
            0 <= i < entries.len() ==> (#[trigger] entries[i]).verdict() is Ok,
        entries_verdict(entries) is Err ==> exists|i: int|
            0 <= i < entries.len() && (#[trigger] entries[i]).verdict() == entries_verdict(entries)
                && forall|j: int| 0 <= j < i ==> (#[trigger] entries[j]).verdict() is Ok,
    decreases entries.len(),
{
    if entries.len() > 0 {
        let front = entries.drop_last();
        lemma_entries_verdict(front);
        assert(forall|i: int| 0 <= i < front.len() ==> front[i] == entries[i]);
        if entries_verdict(front) is Err {
            let i = choose|i: int|
                0 <= i < front.len() && (#[trigger] front[i]).verdict() == entries_verdict(front)
                    && forall|j: int| 0 <= j < i ==> (#[trigger] front[j]).verdict() is Ok;
            assert(entries[i].verdict() == entries_verdict(entries));
            assert(forall|j: int| 0 <= j < i ==> front[j] == entries[j]);
        } else if entries.last().verdict() is Err {
            let i = entries.len() - 1;
            assert(entries[i].verdict() == entries_verdict(entries));
        } else {
            assert forall|i: int| 0 <= i < entries.len() implies (
            #[trigger] entries[i]).verdict() is Ok by {
                if i < front.len() {
                    assert(front[i] == entries[i]);
                }
            }
        }
    }
}

/// A refusal of the first `n` elements stands for the whole batch.
pub proof fn lemma_entries_verdict_prefix(entries: Seq<EntryFields>, n: int)
    requires
        0 <= n <= entries.len(),
        entries_verdict(entries.take(n)) is Err,
    ensures
        entries_verdict(entries) == entries_verdict(entries.take(n)),
    decreases entries.len(),
{
    if n < entries.len() {
        assert(entries.drop_last().take(n) =~= entries.take(n));
        lemma_entries_verdict_prefix(entries.drop_last(), n);
    } else {
        assert(entries.take(n) =~= entries);
    }
}

/// The ledger with every element of a batch in its indexes, in the order of
/// the batch. All of them carry the one time `now` and refer to `address`.
pub open spec fn filed_all(
    ledger: LedgerView,
    address: Identity,
    now: i64,
    entries: Seq<EntryFields>,
) -> LedgerView
    decreases entries.len(),
{
    if entries.len() == 0 {
        ledger
    } else {
        filed(
            filed_all(ledger, address, now, entries.drop_last()),
            address,
            now,
            entries.last().debit,
            entries.last().credit,
        )
    }
}

/// Filing a batch touches the two indexes only: each grows by what the batch
/// brings, one element by date and two by account for each member, and every
/// other field of the ledger stays. The buckets of a valid batch keep within
/// their bounds.
pub proof fn lemma_filed_all(
    ledger: LedgerView,
    address: Identity,
    now: i64,
    entries: Seq<EntryFields>,
)
    ensures
        filed_all(ledger, address, now, entries) == (LedgerView {
            entries_by_date: filed_all(ledger, address, now, entries).entries_by_date,
            entries_by_account: filed_all(ledger, address, now, entries).entries_by_account,
            ..ledger
        }),
        filed_all(ledger, address, now, entries).entries_by_date.len()
            == ledger.entries_by_date.len() + entries.len(),
        filed_all(ledger, address, now, entries).entries_by_account.len()
            == ledger.entries_by_account.len() + 2 * entries.len(),
        buckets_fit(ledger.entries_by_account) && entries_verdict(entries) is Ok ==> buckets_fit(
            filed_all(ledger, address, now, entries).entries_by_account,
        ),
    decreases entries.len(),
{
    if entries.len() > 0 {
        lemma_filed_all(ledger, address, now, entries.drop_last());
    }
}

/// The verdict on an attempt to record a batch. The tests come in this order:
/// the ledger is not frozen, the actor may record, the batch has at most ten
/// elements and at least one, every element is valid, the ledger has room for
/// all of them.
pub open spec fn batch_verdict(ledger: LedgerView, user: Identity, entries: Seq<EntryFields>) -> Result<
    (),
    CustomError,
> {
    if record_permit(ledger, user) is Err {
        record_permit(ledger, user)
    } else if entries.len() > MAX_BATCH_SIZE {
        Err(CustomError::TooManyEntries)
    } else if entries.len() == 0 {
        Err(CustomError::EmptyBatch)
    } else if entries_verdict(entries) is Err {
        entries_verdict(entries)
    } else if !has_room(ledger, entries.len()) {
        Err(CustomError::CapacityExceeded)
    } else {
        Ok(())
    }
}

/// The ledger that an attempt to record a batch leaves. Accepted, every
/// element is counted and filed. Refused, the ledger is as before.
pub open spec fn batch_outcome(
    ledger: LedgerView,
    ledger_key: Identity,
    user: Identity,
    now: i64,
    entries: Seq<EntryFields>,
) -> LedgerView {
    if batch_verdict(ledger, user, entries) is Ok {
        counted(filed_all(ledger, ledger_key, now, entries), entries.len())
    } else {
        ledger
    }
}

/// The notice of a batch of `size` entries that `user` recorded at `now`.
pub open spec fn batch_notice(size: nat, user: Identity, now: i64) -> BatchEntriesRecorded {
    BatchEntriesRecorded { batch_size: size as u64, created_by: user, timestamp: now }
}

/// Tests every element of a batch against the field rules and reports the
/// first that breaks one.
pub fn validate_batch(entries_data: &Vec<BatchEntryData>) -> (r: Result<(), CustomError>)
    ensures
        r == entries_verdict(batch_views(entries_data@)),
{
    let ghost views = batch_views(entries_data@);
    let mut i: usize = 0;
    while i < entries_data.len()
        invariant
            i <= entries_data.len(),
            views == batch_views(entries_data@),
            entries_verdict(views.take(i as int)) is Ok,
        decreases entries_data.len() - i,
    {
        let element = &entries_data[i];
        proof {
            assert(views.take(i + 1).drop_last() =~= views.take(i as int));
            assert(views.take(i + 1).last() == element@);
        }
        match validate_entry(
            element.entry_id.as_str(),
            element.debit.as_str(),
            element.credit.as_str(),
            element.amount,
            element.currency.as_str(),
        ) {
            Err(e) => {
                proof {
                    lemma_entries_verdict_prefix(views, i + 1);
                }
                return Err(e);
            },
            Ok(()) => {},
        }
        i += 1;
    }
    proof {
        assert(views.take(i as int) =~= views);
    }
    Ok(())
}

/// Records a batch of one to ten entries as one step: either every element is
/// counted and filed, or nothing changes. The index elements of the batch
/// carry the one time `now` and refer to the ledger itself, at `ledger_key`.
/// One notice is returned for the whole batch.
pub fn batch_record_entries(
    ledger: &mut CompanyLedger,
    ledger_key: Identity,
    user: Identity,
    now: i64,
    entries_data: Vec<BatchEntryData>,
) -> (r: Result<BatchEntriesRecorded, CustomError>)
    ensures
        final(ledger)@ == batch_outcome(
            old(ledger)@,
            ledger_key,
            user,
            now,
            batch_views(entries_data@),
        ),
        match batch_verdict(old(ledger)@, user, batch_views(entries_data@)) {
            Ok(_) => r == Ok::<BatchEntriesRecorded, CustomError>(
                batch_notice(entries_data@.len(), user, now),
            ),
            Err(e) => r == Err::<BatchEntriesRecorded, CustomError>(e) && *final(ledger) == *old(
                ledger,
            ),
        },
        old(ledger).well_formed() ==> final(ledger).well_formed(),
{
    match authorize_record(ledger, user) {
        Err(e) => {
            return Err(e);
        },
        Ok(()) => {},
    }
    let n = entries_data.len();
    if n > MAX_BATCH_SIZE {
        return Err(CustomError::TooManyEntries);
    }
    if n == 0 {
        return Err(CustomError::EmptyBatch);
    }
    match validate_batch(&entries_data) {
        Err(e) => {
            return Err(e);
        },
        Ok(()) => {},
    }
    if !room_for(ledger, n) {
        return Err(CustomError::CapacityExceeded);
    }
    let ghost views = batch_views(entries_data@);
    let mut i: usize = 0;
    while i < n
        invariant
            i <= n,
            n == entries_data.len(),
            n <= MAX_BATCH_SIZE,
            views == batch_views(entries_data@),
            has_room(old(ledger)@, n as nat),
            ledger@ == filed_all(old(ledger)@, ledger_key, now, views.take(i as int)),
            ledger.entry_count == old(ledger).entry_count,
            ledger.total_entries == old(ledger).total_entries,
            ledger@.entries_by_date.len() == old(ledger)@.entries_by_date.len() + i,
            ledger@.entries_by_account.len() == old(ledger)@.entries_by_account.len() + 2 * i,
        decreases n - i,
    {
        proof {
            assert(views.take(i + 1).drop_last() =~= views.take(i as int));
            assert(views.take(i + 1).last() == entries_data@[i as int]@);
        }
        ledger.entries_by_date.append(now, ledger_key);
        ledger.entries_by_account.append(entries_data[i].debit.clone(), ledger_key);
        ledger.entries_by_account.append(entries_data[i].credit.clone(), ledger_key);
        i += 1;
    }
    proof {
        assert(views.take(i as int) =~= views);
        lemma_filed_all(old(ledger)@, ledger_key, now, views);
    }
    let batch_size: u64 = n as u64;
    ledger.entry_count = ledger.entry_count + batch_size;
    ledger.total_entries = ledger.total_entries + batch_size;
    Ok(BatchEntriesRecorded { batch_size, created_by: user, timestamp: now })
}

} // verus!
