//! Identities: the 32-byte names of actors, ledgers and entry records.

use vstd::prelude::*;

verus! {

/// A 32-byte identity. Two identities are the same exactly when all their
/// bytes agree.
#[derive(Clone, Copy, Debug)]
pub struct Identity {
    pub bytes: [u8; 32],
}

impl PartialEq for Identity {
    fn eq(&self, other: &Self) -> (r: bool) {
        let mut i: usize = 0;
        while i < 32
            invariant
                i <= 32,
                forall|j: int| 0 <= j < i ==> self.bytes[j] == other.bytes[j],
            decreases 32 - i,
        {
            if self.bytes[i] != other.bytes[i] {
                return false;
            }
            i += 1;
        }
        assert(self.bytes =~= other.bytes);
        true
    }
}

impl Eq for Identity {

}

impl Default for Identity {
    /// The identity of 32 zero bytes.
    fn default() -> (r: Identity)
        ensures
            forall|i: int| 0 <= i < 32 ==> r.bytes[i] == 0,
    {
        Identity { bytes: [0u8;32] }
    }
}

impl vstd::std_specs::cmp::PartialEqSpecImpl for Identity {
    open spec fn obeys_eq_spec() -> bool {
        true
    }

    open spec fn eq_spec(&self, other: &Self) -> bool {
        *self == *other
    }
}

/// The test that an identity is another one than `who`.
pub open spec fn other_than(who: Identity) -> spec_fn(Identity) -> bool {
    |m: Identity| m != who
}

/// `list` without every occurrence of `who`, the rest in its order.
pub open spec fn identities_without(list: Seq<Identity>, who: Identity) -> Seq<Identity> {
    list.filter(other_than(who))
}

/// What is left of a list after `who` is taken out: `who` is gone, every other
/// member is still there, the list is no longer than before, and a list
/// without repetitions stays one.
pub proof fn lemma_identities_without(list: Seq<Identity>, who: Identity)
    ensures
        identities_without(list, who).to_set() == list.to_set().remove(who),
        identities_without(list, who).len() <= list.len(),
        list.no_duplicates() ==> identities_without(list, who).no_duplicates(),
    decreases list.len(),
{
    let pred = other_than(who);
    if list.len() == 0 {
        reveal(Seq::filter);
        assert(identities_without(list, who) =~= list);
        assert(list.to_set() =~= list.to_set().remove(who));
    } else {
        let front = list.drop_last();
        let last = list.last();
        lemma_identities_without(front, who);
        assert(list =~= front.push(last));
        front.lemma_filter_push(last, pred);
        front.lemma_push_to_set_commute(last);
        let kept = identities_without(front, who);
        if last != who {
            kept.lemma_push_to_set_commute(last);
            assert(kept.push(last).to_set() =~= list.to_set().remove(who));
            if list.no_duplicates() {
                assert(front.no_duplicates());
                assert(!front.contains(last)) by {
                    if front.contains(last) {
                        let j = choose|j: int| 0 <= j < front.len() && front[j] == last;
                        assert(list[j] == list[list.len() - 1]);
                    }
                }
                assert(!kept.to_set().contains(last));
                assert(!kept.contains(last));
                assert(kept.push(last).no_duplicates());
            }
        } else {
            assert(kept.to_set() =~= list.to_set().remove(who));
        }
    }
}

/// Whether `who` occurs in `list`.
pub fn occurs_in(list: &Vec<Identity>, who: Identity) -> (r: bool)
    ensures
        r == list@.contains(who),
{
    let mut i: usize = 0;
    while i < list.len()
        invariant
            i <= list.len(),
            forall|j: int| 0 <= j < i ==> list@[j] != who,
        decreases list.len() - i,
    {
        if list[i] == who {
            return true;
        }
        i += 1;
    }
    false
}

/// A copy of `list` that leaves out every occurrence of `who`.
pub fn without(list: &Vec<Identity>, who: Identity) -> (r: Vec<Identity>)
    ensures
        r@ == identities_without(list@, who),
{
    let mut kept: Vec<Identity> = Vec::new();
    let mut i: usize = 0;
    proof {
        reveal(Seq::filter);
        assert(list@.take(0) =~= Seq::<Identity>::empty());
    }
    while i < list.len()
        invariant
            i <= list.len(),
            kept@ == identities_without(list@.take(i as int), who),
        decreases list.len() - i,
    {
        proof {
            let front = list@.take(i as int);
            let next = list@[i as int];
            assert(list@.take(i + 1) =~= front.push(next));
            front.lemma_filter_push(next, other_than(who));
        }
        if list[i] != who {
            kept.push(list[i]);
        }
        i += 1;
    }
    proof {
        assert(list@.take(i as int) =~= list@);
    }
    kept
}

} // verus!
