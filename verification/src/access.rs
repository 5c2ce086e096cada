//! Who may do what on a ledger.
//!
//! Recording is open to the ledger's authority and to its admins. Changing or
//! deleting an entry that exists is open to the entry's creator and to the
//! authority only: being an admin gives no right over another actor's entry.
//! A frozen ledger refuses everyone.

use vstd::prelude::*;
use crate::errors::CustomError;
use crate::identity::Identity;
use crate::state::CompanyLedger;
use crate::state::Entry;
use crate::state::EntryView;
use crate::state::LedgerView;

verus! {

/// Whether `user` may record entries: the authority or an admin.
pub open spec fn may_record(ledger: LedgerView, user: Identity) -> bool {
    user == ledger.authority || ledger.admins.contains(user)
}

/// Whether `user` may change or delete `entry`: its creator or the authority.
pub open spec fn may_modify(ledger: LedgerView, entry: EntryView, user: Identity) -> bool {
    user == entry.creator || user == ledger.authority
}

/// The verdict on an attempt to record: a frozen ledger refuses first, then
/// the role is tested.
pub open spec fn record_permit(ledger: LedgerView, user: Identity) -> Result<(), CustomError> {
    if ledger.is_frozen {
        Err(CustomError::LedgerFrozen)
    } else if !may_record(ledger, user) {
        Err(CustomError::InsufficientPermissions)
    } else {
        Ok(())
    }
}

/// The verdict on an attempt to change or delete `entry`: a frozen ledger
/// refuses first, then the actor is tested.
pub open spec fn modify_permit(ledger: LedgerView, entry: EntryView, user: Identity) -> Result<
    (),
    CustomError,
> {
    if ledger.is_frozen {
        Err(CustomError::LedgerFrozen)
    } else if !may_modify(ledger, entry, user) {
        Err(CustomError::UnauthorizedUpdate)
    } else {
        Ok(())
    }
}

/// Decides whether `user` may record entries on `ledger` now.
pub fn authorize_record(ledger: &CompanyLedger, user: Identity) -> (r: Result<(), CustomError>)
    ensures
        r == record_permit(ledger@, user),
{
    if ledger.is_frozen {
        return Err(CustomError::LedgerFrozen);
    }
    if user == ledger.authority || ledger.admins.contains(user) {
        Ok(())
    } else {
        Err(CustomError::InsufficientPermissions)
    }
}

/// Decides whether `user` may change or delete `entry` of `ledger` now.
pub fn authorize_modify(ledger: &CompanyLedger, entry: &Entry, user: Identity) -> (r: Result<
    (),
    CustomError,
>)
    ensures
        r == modify_permit(ledger@, entry@, user),
{
    if ledger.is_frozen {
        return Err(CustomError::LedgerFrozen);
    }
    if user == entry.creator || user == ledger.authority {
        Ok(())
    } else {
        Err(CustomError::UnauthorizedUpdate)
    }
}

} // verus!
