//! Role sets: the identities that hold a role on a ledger.
//!
//! A role set is a set with room for ten members. Adding a member twice
//! changes nothing, and adding to a full set is refused.

use vstd::prelude::*;
use crate::errors::CustomError;
use crate::identity::identities_without;
use crate::identity::lemma_identities_without;
use crate::identity::occurs_in;
use crate::identity::without;
use crate::identity::Identity;

verus! {

/// Most members a role set may have.
pub const MAX_ROLE_MEMBERS: usize = 10;

/// The holders of one role, kept in the order in which they were added.
#[derive(Clone, Debug)]
pub struct RoleSet {
    pub members: Vec<Identity>,
}

impl View for RoleSet {
    type V = Set<Identity>;

    open spec fn view(&self) -> Set<Identity> {
        self.members@.to_set()
    }
}

impl RoleSet {
    /// No member is listed twice, and there are at most ten.
    pub open spec fn well_formed(&self) -> bool {
        &&& self.members@.len() <= MAX_ROLE_MEMBERS
        &&& self.members@.no_duplicates()
    }

    /// A role set without members.
    pub fn new() -> (r: RoleSet)
        ensures
            r.members@ == Seq::<Identity>::empty(),
            r@ == Set::<Identity>::empty(),
            r.well_formed(),
    {
        let r = RoleSet { members: Vec::new() };
        assert(r@ =~= Set::<Identity>::empty());
        r
    }

    /// Whether `who` holds the role.
    pub fn contains(&self, who: Identity) -> (r: bool)
        ensures
            r == self@.contains(who),
    {
        occurs_in(&self.members, who)
    }

    /// How many places of the set are taken.
    pub fn len(&self) -> (r: usize)
        ensures
            r == self.members@.len(),
            self.well_formed() ==> r == self@.len(),
    {
        proof {
            if self.well_formed() {
                self.members@.unique_seq_to_set();
            }
        }
        self.members.len()
    }

    /// Gives `who` the role. A member is not added again; a new member is
    /// refused when all ten places are taken.
    pub fn insert(&mut self, who: Identity) -> (r: Result<(), CustomError>)
        ensures
            old(self)@.contains(who) ==> r is Ok && *final(self) == *old(self),
            !old(self)@.contains(who) && old(self).members@.len() < MAX_ROLE_MEMBERS ==> r is Ok
                && final(self).members@ == old(self).members@.push(who),
            !old(self)@.contains(who) && old(self).members@.len() >= MAX_ROLE_MEMBERS ==> r == Err::<(), CustomError>(
                CustomError::CapacityExceeded,
            ) && *final(self) == *old(self),
            r is Ok ==> final(self)@ == old(self)@.insert(who),
            old(self).well_formed() ==> final(self).well_formed(),
    {
        if self.contains(who) {
            assert(self@ =~= self@.insert(who));
            return Ok(());
        }
        if self.members.len() >= MAX_ROLE_MEMBERS {
            return Err(CustomError::CapacityExceeded);
        }
        proof {
            self.members@.lemma_push_to_set_commute(who);
        }
        self.members.push(who);
        Ok(())
    }

    /// Takes the role from `who`, and says whether `who` held it.
    pub fn remove(&mut self, who: Identity) -> (r: bool)
        ensures
            r == old(self)@.contains(who),
            final(self).members@ == identities_without(old(self).members@, who),
            final(self)@ == old(self)@.remove(who),
            old(self).well_formed() ==> final(self).well_formed(),
    {
        let found = occurs_in(&self.members, who);
        let kept = without(&self.members, who);
        proof {
            lemma_identities_without(self.members@, who);
        }
        self.members = kept;
        found
    }
}

} // verus!
