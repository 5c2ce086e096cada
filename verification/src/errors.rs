//! The failures that a ledger operation can report.

use vstd::prelude::*;

verus! {

/// Why an operation was refused. Every refusal leaves the ledger, and the
/// record the operation named, exactly as they were.
#[derive(Clone, Copy, Debug, PartialEq, Eq, Structural)]
pub enum CustomError {
    /// The entry id has no bytes.
    EntryIdEmpty,
    /// The entry id is longer than 32 bytes.
    EntryIdTooLong,
    /// An account code is longer than 16 bytes, or a company name longer than 64.
    AccountCodeTooLong,
    /// The currency code is longer than 8 bytes.
    CurrencyCodeTooLong,
    /// The amount is zero.
    InvalidAmount,
    /// Debit and credit name the same account.
    SameDebitCredit,
    /// The actor is neither the entry's creator nor the ledger's authority.
    UnauthorizedUpdate,
    /// A record already lives where the new entry would be stored.
    DuplicateEntryId,
    /// A batch holds more than 10 entries.
    TooManyEntries,
    /// A batch holds no entry.
    EmptyBatch,
    /// The ledger is frozen.
    LedgerFrozen,
    /// The actor is neither the ledger's authority nor one of its admins.
    InsufficientPermissions,
    /// An account code holds a byte that is no ASCII letter or digit.
    InvalidAccountCode,
    /// The currency is not supported. No operation reports this yet.
    UnsupportedCurrency,
    /// The entry is locked for audit. No operation reports this yet.
    EntryLocked,
    /// A page would hold more than 50 entries.
    PageSizeTooLarge,
    /// An account code has no bytes.
    AccountCodeEmpty,
    /// A role set, an index or a counter of the ledger has no room left.
    CapacityExceeded,
    /// The operation is declared but has no behaviour yet.
    NotImplemented,
}

impl CustomError {
    /// The text that tells a reader what went wrong.
    pub open spec fn message_text(self) -> Seq<char> {
        match self {
            CustomError::EntryIdEmpty => "Entry ID cannot be empty"@,
            CustomError::EntryIdTooLong => "Entry ID too long (max 32 characters)"@,
            CustomError::AccountCodeTooLong => "Account code too long (max 16 characters)"@,
            CustomError::CurrencyCodeTooLong => "Currency code too long (max 8 characters)"@,
            CustomError::InvalidAmount => "Amount must be greater than 0"@,
            CustomError::SameDebitCredit => "Debit and credit accounts cannot be the same"@,
            CustomError::UnauthorizedUpdate => "Unauthorized to update this entry"@,
            CustomError::DuplicateEntryId => "Entry with this ID already exists"@,
            CustomError::TooManyEntries => "Too many entries in batch (max 10)"@,
            CustomError::EmptyBatch => "Batch cannot be empty"@,
            CustomError::LedgerFrozen => "Ledger is frozen"@,
            CustomError::InsufficientPermissions => "Insufficient permissions"@,
            CustomError::InvalidAccountCode => "Invalid account code format"@,
            CustomError::UnsupportedCurrency => "Currency not supported"@,
            CustomError::EntryLocked => "Entry locked for audit"@,
            CustomError::PageSizeTooLarge => "Page size too large"@,
            CustomError::AccountCodeEmpty => "Account code empty"@,
            CustomError::CapacityExceeded => "Capacity exceeded"@,
            CustomError::NotImplemented => "Operation not implemented"@,
        }
    }

    /// The text that tells a reader what went wrong.
    pub fn message(&self) -> (r: String)
        ensures
            r@ == self.message_text(),
    {
        let text = match self {
            CustomError::EntryIdEmpty => "Entry ID cannot be empty",
            CustomError::EntryIdTooLong => "Entry ID too long (max 32 characters)",
            CustomError::AccountCodeTooLong => "Account code too long (max 16 characters)",
            CustomError::CurrencyCodeTooLong => "Currency code too long (max 8 characters)",
            CustomError::InvalidAmount => "Amount must be greater than 0",
            CustomError::SameDebitCredit => "Debit and credit accounts cannot be the same",
            CustomError::UnauthorizedUpdate => "Unauthorized to update this entry",
            CustomError::DuplicateEntryId => "Entry with this ID already exists",
            CustomError::TooManyEntries => "Too many entries in batch (max 10)",
            CustomError::EmptyBatch => "Batch cannot be empty",
            CustomError::LedgerFrozen => "Ledger is frozen",
            CustomError::InsufficientPermissions => "Insufficient permissions",
            CustomError::InvalidAccountCode => "Invalid account code format",
            CustomError::UnsupportedCurrency => "Currency not supported",
            CustomError::EntryLocked => "Entry locked for audit",
            CustomError::PageSizeTooLarge => "Page size too large",
            CustomError::AccountCodeEmpty => "Account code empty",
            CustomError::CapacityExceeded => "Capacity exceeded",
            CustomError::NotImplemented => "Operation not implemented",
        };
        text.to_owned()
    }
}

} // verus!
