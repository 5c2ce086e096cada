//! The secondary indexes of a ledger: entries by date and by account.
//!
//! Both are flat lists in the order of insertion, with room for one hundred
//! elements each. An insertion that finds no room is refused; nothing is
//! ever dropped silently. Taking an entry out removes every reference to it.

use vstd::prelude::*;
use vstd::utf8::encode_utf8;
use crate::errors::CustomError;
use crate::identity::identities_without;
use crate::identity::lemma_identities_without;
use crate::identity::without;
use crate::identity::Identity;
use crate::validation::MAX_ACCOUNT_CODE_LEN;

verus! {

/// Most elements either index may hold.
pub const MAX_INDEX_ENTRIES: usize = 100;

/// Most entries one bucket of the account index may file.
pub const MAX_BUCKET_ENTRIES: usize = 10;

/// One element of the account index as a value: an account code and the
/// entries filed under it.
pub type Bucket = (Seq<char>, Seq<Identity>);

/// Whether a bucket keeps within its bounds: a code of at most 16 bytes, and
/// at most ten entries.
pub open spec fn bucket_fits(bucket: Bucket) -> bool {
    &&& encode_utf8(bucket.0).len() <= MAX_ACCOUNT_CODE_LEN
    &&& bucket.1.len() <= MAX_BUCKET_ENTRIES
}

/// Whether every bucket of the account index keeps within its bounds.
pub open spec fn buckets_fit(index: Seq<Bucket>) -> bool {
    forall|i: int| 0 <= i < index.len() ==> bucket_fits(#[trigger] index[i])
}

/// The test that an element of the date index refers to another entry than
/// `entry`.
pub open spec fn dated_other_than(entry: Identity) -> spec_fn((i64, Identity)) -> bool {
    |p: (i64, Identity)| p.1 != entry
}

/// The date index without the elements that refer to `entry`.
pub open spec fn date_index_without(index: Seq<(i64, Identity)>, entry: Identity) -> Seq<
    (i64, Identity),
> {
    index.filter(dated_other_than(entry))
}

/// A bucket without its references to `entry`.
pub open spec fn bucket_without(bucket: Bucket, entry: Identity) -> Bucket {
    (bucket.0, identities_without(bucket.1, entry))
}

/// The test that a bucket files at least one entry.
pub open spec fn bucket_in_use() -> spec_fn(Bucket) -> bool {
    |b: Bucket| b.1.len() > 0
}

/// The account index without any reference to `entry`: each bucket loses its
/// references to it, and a bucket that files nothing any more is dropped.
pub open spec fn account_index_without(index: Seq<Bucket>, entry: Identity) -> Seq<Bucket> {
    Seq::new(index.len(), |i: int| bucket_without(index[i], entry)).filter(bucket_in_use())
}

/// Whether some bucket of the account index refers to `entry`.
pub open spec fn account_index_mentions(index: Seq<Bucket>, entry: Identity) -> bool {
    exists|i: int| 0 <= i < index.len() && (#[trigger] index[i]).1.contains(entry)
}

/// Whether some element of the date index refers to `entry`.
pub open spec fn date_index_mentions(index: Seq<(i64, Identity)>, entry: Identity) -> bool {
    exists|i: int| 0 <= i < index.len() && (#[trigger] index[i]).1 == entry
}

/// How the date index without an entry grows with the index.
pub proof fn lemma_date_index_without_push(
    index: Seq<(i64, Identity)>,
    element: (i64, Identity),
    entry: Identity,
)
    ensures
        date_index_without(index.push(element), entry) == if element.1 != entry {
            date_index_without(index, entry).push(element)
        } else {
            date_index_without(index, entry)
        },
{
    index.lemma_filter_push(element, dated_other_than(entry));
}

/// How the account index without an entry grows with the index.
pub proof fn lemma_account_index_without_push(index: Seq<Bucket>, bucket: Bucket, entry: Identity)
    ensures
        account_index_without(index.push(bucket), entry) == if bucket_without(bucket, entry).1.len()
            > 0 {
            account_index_without(index, entry).push(bucket_without(bucket, entry))
        } else {
            account_index_without(index, entry)
        },
{
    let stripped = Seq::new(index.len(), |i: int| bucket_without(index[i], entry));
    let longer = index.push(bucket);
    let stripped_longer = Seq::new(longer.len(), |i: int| bucket_without(longer[i], entry));
    assert(stripped_longer =~= stripped.push(bucket_without(bucket, entry)));
    stripped.lemma_filter_push(bucket_without(bucket, entry), bucket_in_use());
}

/// Once an entry is taken out of the date index, nothing there refers to it,
/// and the index has not grown.
pub proof fn lemma_date_index_without(index: Seq<(i64, Identity)>, entry: Identity)
    ensures
        !date_index_mentions(date_index_without(index, entry), entry),
        date_index_without(index, entry).len() <= index.len(),
{
    let rest = date_index_without(index, entry);
    index.lemma_filter_len(dated_other_than(entry));
    assert forall|i: int| 0 <= i < rest.len() implies (#[trigger] rest[i]).1 != entry by {
        index.lemma_filter_pred(dated_other_than(entry), i);
    }
}

/// Once an entry is taken out of the account index, nothing there refers to
/// it, no bucket is empty, the index has not grown, and buckets that kept
/// within their bounds still do.
pub proof fn lemma_account_index_without(index: Seq<Bucket>, entry: Identity)
    ensures
        !account_index_mentions(account_index_without(index, entry), entry),
        account_index_without(index, entry).len() <= index.len(),
        forall|i: int|
            0 <= i < account_index_without(index, entry).len() ==> (
            #[trigger] account_index_without(index, entry)[i]).1.len() > 0,
        buckets_fit(index) ==> buckets_fit(account_index_without(index, entry)),
{
    let stripped = Seq::new(index.len(), |i: int| bucket_without(index[i], entry));
    let rest = account_index_without(index, entry);
    stripped.lemma_filter_len(bucket_in_use());
    assert forall|i: int| 0 <= i < rest.len() implies (#[trigger] rest[i]).1.len() > 0 && !rest[i].1.contains(
        entry,
    ) && (buckets_fit(index) ==> bucket_fits(rest[i])) by {
        stripped.lemma_filter_pred(bucket_in_use(), i);
        stripped.lemma_filter_contains_rev(bucket_in_use(), rest[i]);
        let j = choose|j: int| 0 <= j < stripped.len() && stripped[j] == rest[i];
        lemma_identities_without(index[j].1, entry);
        assert(!identities_without(index[j].1, entry).to_set().contains(entry));
        assert(buckets_fit(index) ==> bucket_fits(index[j]));
    }
}

/// Entries by date: pairs of the time an entry was accepted and the entry's
/// address, in the order of acceptance.
#[derive(Clone, Debug)]
pub struct DateIndex {
    pub entries: Vec<(i64, Identity)>,
}

impl View for DateIndex {
    type V = Seq<(i64, Identity)>;

    open spec fn view(&self) -> Seq<(i64, Identity)> {
        self.entries@
    }
}

impl DateIndex {
    /// The index holds no more than it has room for.
    pub open spec fn well_formed(&self) -> bool {
        self@.len() <= MAX_INDEX_ENTRIES
    }

    /// An index without elements.
    pub fn new() -> (r: DateIndex)
        ensures
            r@ == Seq::<(i64, Identity)>::empty(),
            r.well_formed(),
    {
        DateIndex { entries: Vec::new() }
    }

    /// How many elements the index holds.
    pub fn len(&self) -> (r: usize)
        ensures
            r == self@.len(),
    {
        self.entries.len()
    }

    /// Appends one element, unless the index is full.
    pub fn push(&mut self, timestamp: i64, entry: Identity) -> (r: Result<(), CustomError>)
        ensures
            old(self)@.len() < MAX_INDEX_ENTRIES ==> r is Ok && final(self)@ == old(self)@.push(
                (timestamp, entry),
            ),
            old(self)@.len() >= MAX_INDEX_ENTRIES ==> r == Err::<(), CustomError>(
                CustomError::CapacityExceeded,
            ) && *final(self) == *old(self),
            old(self).well_formed() ==> final(self).well_formed(),
    {
        if self.entries.len() >= MAX_INDEX_ENTRIES {
            return Err(CustomError::CapacityExceeded);
        }
        self.append(timestamp, entry);
        Ok(())
    }

    /// Appends one element to an index that has room for it.
    pub(crate) fn append(&mut self, timestamp: i64, entry: Identity)
        requires
            old(self)@.len() < MAX_INDEX_ENTRIES,
        ensures
            final(self)@ == old(self)@.push((timestamp, entry)),
    {
        self.entries.push((timestamp, entry));
    }

    /// A copy of the index that leaves out every element that refers to
    /// `entry`.
    pub fn without(&self, entry: Identity) -> (r: DateIndex)
        ensures
            r@ == date_index_without(self@, entry),
            r@.len() <= self@.len(),
            !date_index_mentions(r@, entry),
            self.well_formed() ==> r.well_formed(),
    {
        let mut kept: Vec<(i64, Identity)> = Vec::new();
        let mut i: usize = 0;
        proof {
            reveal(Seq::filter);
            assert(self@.take(0) =~= Seq::<(i64, Identity)>::empty());
        }
        while i < self.entries.len()
            invariant
                i <= self.entries.len(),
                kept@ == date_index_without(self@.take(i as int), entry),
            decreases self.entries.len() - i,
        {
            proof {
                assert(self@.take(i + 1) =~= self@.take(i as int).push(self@[i as int]));
                lemma_date_index_without_push(self@.take(i as int), self@[i as int], entry);
            }
            let element = self.entries[i];
            if element.1 != entry {
                kept.push(element);
            }
            i += 1;
        }
        proof {
            assert(self@.take(i as int) =~= self@);
            lemma_date_index_without(self@, entry);
        }
        DateIndex { entries: kept }
    }
}

/// Entries by account: pairs of an account code and the addresses of the
/// entries filed under it, in the order of insertion.
#[derive(Clone, Debug)]
pub struct AccountIndex {
    pub buckets: Vec<(String, Vec<Identity>)>,
}

impl View for AccountIndex {
    type V = Seq<Bucket>;

    open spec fn view(&self) -> Seq<Bucket> {
        Seq::new(self.buckets@.len(), |i: int| (self.buckets@[i].0@, self.buckets@[i].1@))
    }
}

impl AccountIndex {
    /// The index holds no more than it has room for, and each of its buckets
    /// keeps within its bounds.
    pub open spec fn well_formed(&self) -> bool {
        &&& self@.len() <= MAX_INDEX_ENTRIES
        &&& buckets_fit(self@)
    }

    /// An index without elements.
    pub fn new() -> (r: AccountIndex)
        ensures
            r@ == Seq::<Bucket>::empty(),
            r.well_formed(),
    {
        let r = AccountIndex { buckets: Vec::new() };
        assert(r@ =~= Seq::<Bucket>::empty());
        r
    }

    /// How many buckets the index holds.
    pub fn len(&self) -> (r: usize)
        ensures
            r == self@.len(),
    {
        self.buckets.len()
    }

    /// Appends a bucket that files `entry` under `code`, unless the index is
    /// full.
    pub fn push(&mut self, code: String, entry: Identity) -> (r: Result<(), CustomError>)
        ensures
            old(self)@.len() < MAX_INDEX_ENTRIES ==> r is Ok && final(self)@ == old(self)@.push(
                (code@, seq![entry]),
            ),
            old(self)@.len() >= MAX_INDEX_ENTRIES ==> r == Err::<(), CustomError>(
                CustomError::CapacityExceeded,
            ) && *final(self) == *old(self),
            old(self).well_formed() && encode_utf8(code@).len() <= MAX_ACCOUNT_CODE_LEN
                ==> final(self).well_formed(),
    {
        if self.buckets.len() >= MAX_INDEX_ENTRIES {
            return Err(CustomError::CapacityExceeded);
        }
        self.append(code, entry);
        Ok(())
    }

    /// Appends a bucket to an index that has room for it.
    pub(crate) fn append(&mut self, code: String, entry: Identity)
        requires
            old(self)@.len() < MAX_INDEX_ENTRIES,
        ensures
            final(self)@ == old(self)@.push((code@, seq![entry])),
    {
        let mut filed: Vec<Identity> = Vec::new();
        filed.push(entry);
        assert(filed@ =~= seq![entry]);
        self.buckets.push((code, filed));
        assert(self@ =~= old(self)@.push((code@, seq![entry])));
    }

    /// A copy of the index without any reference to `entry`.
    pub fn without(&self, entry: Identity) -> (r: AccountIndex)
        ensures
            r@ == account_index_without(self@, entry),
            r@.len() <= self@.len(),
            !account_index_mentions(r@, entry),
            self.well_formed() ==> r.well_formed(),
    {
        let mut kept: Vec<(String, Vec<Identity>)> = Vec::new();
        let ghost mut kept_view: Seq<Bucket> = Seq::empty();
        let mut i: usize = 0;
        proof {
            reveal(Seq::filter);
            assert(self@.take(0) =~= Seq::<Bucket>::empty());
            assert(Seq::new(0, |i: int| bucket_without(self@.take(0)[i], entry)) =~= Seq::<
                Bucket,
            >::empty());
        }
        while i < self.buckets.len()
            invariant
                i <= self.buckets.len(),
                kept_view == account_index_without(self@.take(i as int), entry),
                kept_view.len() == kept@.len(),
                forall|j: int|
                    0 <= j < kept@.len() ==> kept_view[j] == (
                        (#[trigger] kept@[j]).0@,
                        kept@[j].1@,
                    ),
            decreases self.buckets.len() - i,
        {
            proof {
                assert(self@.take(i + 1) =~= self@.take(i as int).push(self@[i as int]));
                lemma_account_index_without_push(self@.take(i as int), self@[i as int], entry);
            }
            let filed = without(&self.buckets[i].1, entry);
            if filed.len() > 0 {
                let code = self.buckets[i].0.clone();
                proof {
                    kept_view = kept_view.push((code@, filed@));
                }
                kept.push((code, filed));
            }
            i += 1;
        }
        proof {
            assert(self@.take(i as int) =~= self@);
            lemma_account_index_without(self@, entry);
        }
        let r = AccountIndex { buckets: kept };
        assert(r@ =~= kept_view);
        r
    }
}

} // verus!
