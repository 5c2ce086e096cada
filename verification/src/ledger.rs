//! The ledger as a whole: its creation, its freeze, and the changes of state
//! that the operations on entries are made of.
//!
//! Each operation tests everything first and changes state only when every
//! test has passed, so a refused operation leaves no trace and can be tried
//! again.

use vstd::prelude::*;
use crate::errors::CustomError;
use crate::identity::Identity;
use crate::index::account_index_without;
use crate::index::date_index_without;
use crate::index::AccountIndex;
use crate::index::DateIndex;
use crate::index::MAX_INDEX_ENTRIES;
use crate::roles::RoleSet;
use crate::state::CompanyLedger;
use crate::state::LedgerView;

verus! {

/// Whether the indexes can take `n` more entries: one place in the date index
/// and two in the account index for each.
pub open spec fn has_index_room(ledger: LedgerView, n: nat) -> bool {
    &&& ledger.entries_by_date.len() + n <= MAX_INDEX_ENTRIES
    &&& ledger.entries_by_account.len() + 2 * n <= MAX_INDEX_ENTRIES
}

/// Whether the ledger can take `n` more entries: room in the indexes, and
/// both counters able to rise.
pub open spec fn has_room(ledger: LedgerView, n: nat) -> bool {
    &&& has_index_room(ledger, n)
    &&& ledger.entry_count + n <= u64::MAX
    &&& ledger.total_entries + n <= u64::MAX
}

/// The ledger with one more entry in its indexes: once by date, and once
/// under each of the two accounts it touches.
pub open spec fn filed(
    ledger: LedgerView,
    address: Identity,
    now: i64,
    debit: Seq<char>,
    credit: Seq<char>,
) -> LedgerView {
    LedgerView {
        entries_by_date: ledger.entries_by_date.push((now, address)),
        entries_by_account: ledger.entries_by_account.push((debit, seq![address])).push(
            (credit, seq![address]),
        ),
        ..ledger
    }
}

/// The ledger with both counters raised by `n`.
pub open spec fn counted(ledger: LedgerView, n: nat) -> LedgerView {
    LedgerView {
        entry_count: ledger.entry_count + n,
        total_entries: ledger.total_entries + n,
        ..ledger
    }
}

/// The ledger with every reference to the entry at `address` taken out of
/// its indexes.
pub open spec fn purged(ledger: LedgerView, address: Identity) -> LedgerView {
    LedgerView {
        entries_by_date: date_index_without(ledger.entries_by_date, address),
        entries_by_account: account_index_without(ledger.entries_by_account, address),
        ..ledger
    }
}

/// The ledger with its freeze set to `frozen`.
pub open spec fn with_freeze(ledger: LedgerView, frozen: bool) -> LedgerView {
    LedgerView { is_frozen: frozen, ..ledger }
}

/// A ledger as it is right after its creation.
pub open spec fn fresh_ledger(authority: Identity) -> LedgerView {
    LedgerView {
        authority,
        admins: Seq::empty(),
        auditors: Seq::empty(),
        entry_count: 0,
        total_entries: 0,
        is_frozen: false,
        entries_by_date: Seq::empty(),
        entries_by_account: Seq::empty(),
    }
}

/// Creates the ledger of `authority`: no entries, no admins, no auditors, not
/// frozen.
pub fn initialize_ledger(authority: Identity) -> (ledger: CompanyLedger)
    ensures
        ledger@ == fresh_ledger(authority),
        ledger.well_formed(),
{
    CompanyLedger {
        authority,
        admins: RoleSet::new(),
        auditors: RoleSet::new(),
        entry_count: 0,
        total_entries: 0,
        is_frozen: false,
        entries_by_date: DateIndex::new(),
        entries_by_account: AccountIndex::new(),
    }
}

/// Whether the ledger can take `n` more entries.
pub fn room_for(ledger: &CompanyLedger, n: usize) -> (r: bool)
    ensures
        r == has_room(ledger@, n as nat),
{
    if n > MAX_INDEX_ENTRIES / 2 {
        return false;
    }
    let more: u64 = n as u64;
    ledger.entries_by_date.len() <= MAX_INDEX_ENTRIES - n && ledger.entries_by_account.len()
        <= MAX_INDEX_ENTRIES - 2 * n && ledger.entry_count <= u64::MAX - more
        && ledger.total_entries <= u64::MAX - more
}

/// The verdict on an attempt to set or lift the freeze: only the authority
/// may.
pub open spec fn freeze_verdict(ledger: LedgerView, user: Identity) -> Result<(), CustomError> {
    if user == ledger.authority {
        Ok(())
    } else {
        Err(CustomError::InsufficientPermissions)
    }
}

/// The ledger that an attempt to set its freeze to `frozen` leaves.
pub open spec fn freeze_outcome(ledger: LedgerView, user: Identity, frozen: bool) -> LedgerView {
    if freeze_verdict(ledger, user) is Ok {
        with_freeze(ledger, frozen)
    } else {
        ledger
    }
}

/// Freezes the ledger: until it is unfrozen no entry can be recorded, changed
/// or deleted. Only the authority may do so.
pub fn freeze_ledger(ledger: &mut CompanyLedger, user: Identity) -> (r: Result<(), CustomError>)
    ensures
        r == freeze_verdict(old(ledger)@, user),
        final(ledger)@ == freeze_outcome(old(ledger)@, user, true),
        r is Err ==> *final(ledger) == *old(ledger),
        old(ledger).well_formed() ==> final(ledger).well_formed(),
{
    if user != ledger.authority {
        return Err(CustomError::InsufficientPermissions);
    }
    ledger.is_frozen = true;
    Ok(())
}

/// Lifts the freeze. Only the authority may do so.
pub fn unfreeze_ledger(ledger: &mut CompanyLedger, user: Identity) -> (r: Result<(), CustomError>)
    ensures
        r == freeze_verdict(old(ledger)@, user),
        final(ledger)@ == freeze_outcome(old(ledger)@, user, false),
        r is Err ==> *final(ledger) == *old(ledger),
        old(ledger).well_formed() ==> final(ledger).well_formed(),
{
    if user != ledger.authority {
        return Err(CustomError::InsufficientPermissions);
    }
    ledger.is_frozen = false;
    Ok(())
}

} // verus!
