//! How much room the records take when they are stored.
//!
//! A stored record is its fields one after the other: a number in its fixed
//! width, a flag in one byte, an identity in 32 bytes, a text as a length in
//! 4 bytes followed by its bytes, and a list as a count in 4 bytes followed
//! by its elements. Every entry and every ledger that obeys its invariant
//! fits the room that is declared for it.

use vstd::prelude::*;
use vstd::utf8::encode_utf8;
use crate::identity::Identity;
use crate::index::bucket_fits;
use crate::index::buckets_fit;
use crate::index::Bucket;
use crate::state::CompanyLedger;
use crate::state::Entry;
use crate::state::EntryView;
use crate::state::LedgerView;

verus! {

/// Bytes that a stored identity takes.
pub const IDENTITY_SIZE: usize = 32;

/// Bytes that the length of a text or the count of a list takes.
pub const PREFIX_SIZE: usize = 4;

/// Bytes that one element of the date index takes: a time and an identity.
pub const DATED_SIZE: usize = 8 + 32;

/// Bytes that one bucket of the account index may take.
pub const MAX_BUCKET_SIZE: usize = 32 + 4 + 32 * 10;

/// Bytes that a stored text takes.
pub open spec fn text_size(text: Seq<char>) -> int {
    PREFIX_SIZE + encode_utf8(text).len()
}

/// Bytes that a stored list of identities takes.
pub open spec fn identities_size(list: Seq<Identity>) -> int {
    PREFIX_SIZE + IDENTITY_SIZE * list.len()
}

/// Bytes that a stored entry takes.
pub open spec fn entry_size(entry: EntryView) -> int {
    text_size(entry.entry_id) + text_size(entry.debit) + text_size(entry.credit) + 8 + text_size(
        entry.currency,
    ) + 8 + IDENTITY_SIZE
}

/// Bytes that one stored bucket of the account index takes.
pub open spec fn bucket_size(bucket: Bucket) -> int {
    text_size(bucket.0) + identities_size(bucket.1)
}

/// Bytes that the buckets of the account index take together.
pub open spec fn buckets_size(index: Seq<Bucket>) -> int
    decreases index.len(),
{
    if index.len() == 0 {
        0
    } else {
        buckets_size(index.drop_last()) + bucket_size(index.last())
    }
}

/// Bytes that a stored ledger takes.
pub open spec fn ledger_size(ledger: LedgerView) -> int {
    IDENTITY_SIZE + identities_size(ledger.admins) + identities_size(ledger.auditors) + 8 + 8 + 1
        + PREFIX_SIZE + DATED_SIZE * ledger.entries_by_date.len() + PREFIX_SIZE + buckets_size(
        ledger.entries_by_account,
    )
}

/// An entry whose fields obey the rules fits the room declared for entries.
pub proof fn lemma_entry_fits(entry: EntryView)
    requires
        entry.well_formed(),
    ensures
        entry_size(entry) <= Entry::MAX_SIZE,
{
}

/// Buckets that keep within their bounds take no more than the room of a
/// bucket each.
pub proof fn lemma_buckets_size(index: Seq<Bucket>)
    requires
        buckets_fit(index),
    ensures
        buckets_size(index) <= MAX_BUCKET_SIZE * index.len(),
    decreases index.len(),
{
    if index.len() > 0 {
        let front = index.drop_last();
        assert forall|i: int| 0 <= i < front.len() implies bucket_fits(
            #[trigger] front[i],
        ) by {
            assert(front[i] == index[i]);
        }
        lemma_buckets_size(front);
        let last = index.last();
        assert(bucket_fits(index[index.len() - 1]));
        assert(bucket_size(last) <= MAX_BUCKET_SIZE) by {
            assert(IDENTITY_SIZE * last.1.len() <= IDENTITY_SIZE * 10) by (nonlinear_arith)
                requires
                    last.1.len() <= 10,
            ;
        }
        assert(MAX_BUCKET_SIZE * index.len() == MAX_BUCKET_SIZE * front.len() + MAX_BUCKET_SIZE)
            by (nonlinear_arith)
            requires
                index.len() == front.len() + 1,
        ;
    }
}

/// A ledger that obeys its invariant fits the room declared for ledgers, so
/// it is the capacity of a role set or of an index that runs out first,
/// never the room of the record.
pub proof fn lemma_ledger_fits(ledger: LedgerView)
    requires
        ledger.well_formed(),
    ensures
        ledger_size(ledger) <= CompanyLedger::MAX_SIZE,
{
    lemma_buckets_size(ledger.entries_by_account);
    let n = ledger.entries_by_account.len();
    assert(MAX_BUCKET_SIZE * n <= MAX_BUCKET_SIZE * 100) by (nonlinear_arith)
        requires
            n <= 100,
    ;
}

fn text_room(text: &str) -> (r: usize)
    requires
        encode_utf8(text@).len() <= 32,
    ensures
        r == text_size(text@),
{
    PREFIX_SIZE + text.as_bytes().len()
}

impl Entry {
    /// Bytes that this entry takes when stored.
    pub fn stored_size(&self) -> (r: usize)
        requires
            self.well_formed(),
        ensures
            r == entry_size(self@),
            r <= Entry::MAX_SIZE,
    {
        text_room(self.entry_id.as_str()) + text_room(self.debit.as_str()) + text_room(
            self.credit.as_str(),
        ) + 8 + text_room(self.currency.as_str()) + 8 + IDENTITY_SIZE
    }
}

impl CompanyLedger {
    /// Bytes that this ledger takes when stored.
    pub fn stored_size(&self) -> (r: usize)
        requires
            self.well_formed(),
        ensures
            r == ledger_size(self@),
            r <= CompanyLedger::MAX_SIZE,
    {
        proof {
            lemma_ledger_fits(self@);
        }
        let index = &self.entries_by_account.buckets;
        let ghost buckets = self.entries_by_account@;
        let mut filed: usize = 0;
        let mut i: usize = 0;
        assert(buckets.take(0) =~= Seq::<Bucket>::empty());
        while i < index.len()
            invariant
                i <= index.len() <= 100,
                index@.len() == buckets.len(),
                buckets_fit(buckets),
                forall|j: int|
                    0 <= j < buckets.len() ==> buckets[j] == (
                        (#[trigger] index@[j]).0@,
                        index@[j].1@,
                    ),
                filed == buckets_size(buckets.take(i as int)),
                filed <= MAX_BUCKET_SIZE * i,
            decreases index.len() - i,
        {
            proof {
                assert(buckets.take(i + 1).drop_last() =~= buckets.take(i as int));
                assert(buckets.take(i + 1).last() == buckets[i as int]);
                let next = buckets[i as int];
                assert(bucket_fits(next));
                assert(IDENTITY_SIZE * next.1.len() <= IDENTITY_SIZE * 10) by (nonlinear_arith)
                    requires
                        next.1.len() <= 10,
                ;
                assert(MAX_BUCKET_SIZE * (i + 1) == MAX_BUCKET_SIZE * i + MAX_BUCKET_SIZE)
                    by (nonlinear_arith);
                assert(MAX_BUCKET_SIZE * i <= MAX_BUCKET_SIZE * 100) by (nonlinear_arith)
                    requires
                        i <= 100,
                ;
            }
            let bucket = &index[i];
            filed = filed + text_room(bucket.0.as_str()) + PREFIX_SIZE + IDENTITY_SIZE
                * bucket.1.len();
            i += 1;
        }
        assert(buckets.take(i as int) =~= buckets);
        IDENTITY_SIZE + PREFIX_SIZE + IDENTITY_SIZE * self.admins.members.len() + PREFIX_SIZE
            + IDENTITY_SIZE * self.auditors.members.len() + 8 + 8 + 1 + PREFIX_SIZE + DATED_SIZE
            * self.entries_by_date.entries.len() + PREFIX_SIZE + filed
    }
}

} // verus!
