//! Operations that are declared and have no behaviour yet, and the one rule
//! on pages of entries.
//!
//! A call of a declared operation is refused as not implemented, so that a
//! caller can tell it from a call that failed a rule.

use vstd::prelude::*;
use crate::errors::CustomError;
use crate::identity::Identity;
use crate::state::CompanyLedger;
use crate::state::CurrencyRate;
use crate::state::Entry;

verus! {

/// Most entries a page may hold.
pub const MAX_PAGE_SIZE: u8 = 50;

/// Tests the size of a page before the caller walks the indexes: a page of
/// more than 50 entries is refused, every other is accepted.
pub fn get_entries_paginated(_page: u32, limit: u8) -> (r: Result<(), CustomError>)
    ensures
        limit <= MAX_PAGE_SIZE ==> r == Ok::<(), CustomError>(()),
        limit > MAX_PAGE_SIZE ==> r == Err::<(), CustomError>(CustomError::PageSizeTooLarge),
{
    if limit > MAX_PAGE_SIZE {
        Err(CustomError::PageSizeTooLarge)
    } else {
        Ok(())
    }
}

/// Capture of an audit trail for a change from `_old_entry` to `_new_entry`.
/// Declared, without behaviour yet: every call is refused as such.
pub fn create_audit_trail(_old_entry: &Entry, _new_entry: &Entry, _reason: &str) -> (r: Result<
    (),
    CustomError,
>)
    ensures
        r == Err::<(), CustomError>(CustomError::NotImplemented),
{
    Err(CustomError::NotImplemented)
}

/// A balance sheet of the ledger over a span of time. Declared, without
/// behaviour yet: every call is refused as such.
pub fn generate_balance_sheet(_ledger: &CompanyLedger, _date_from: i64, _date_to: i64) -> (r:
    Result<(), CustomError>)
    ensures
        r == Err::<(), CustomError>(CustomError::NotImplemented),
{
    Err(CustomError::NotImplemented)
}

/// Conversion of an amount from one currency into another. Declared, without
/// behaviour yet: every call is refused as such.
pub fn convert_currency(_rate: &CurrencyRate, _amount: u64, _from: [u8; 8], _to: [u8; 8]) -> (r:
    Result<u64, CustomError>)
    ensures
        r == Err::<u64, CustomError>(CustomError::NotImplemented),
{
    Err(CustomError::NotImplemented)
}

/// Settlement of an amount through a token service. Declared, without
/// behaviour yet: every call is refused as such.
pub fn integrate_with_token_program(_ledger: &CompanyLedger, _user: Identity, _amount: u64) -> (r:
    Result<(), CustomError>)
    ensures
        r == Err::<(), CustomError>(CustomError::NotImplemented),
{
    Err(CustomError::NotImplemented)
}

} // verus!
