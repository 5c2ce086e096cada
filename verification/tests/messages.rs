use company_ledger::errors::CustomError;

#[test]
fn every_error_has_its_message() {
    let all = [
        (CustomError::EntryIdEmpty, "Entry ID cannot be empty"),
        (CustomError::EntryIdTooLong, "Entry ID too long (max 32 characters)"),
        (CustomError::AccountCodeTooLong, "Account code too long (max 16 characters)"),
        (CustomError::CurrencyCodeTooLong, "Currency code too long (max 8 characters)"),
        (CustomError::InvalidAmount, "Amount must be greater than 0"),
        (CustomError::SameDebitCredit, "Debit and credit accounts cannot be the same"),
        (CustomError::UnauthorizedUpdate, "Unauthorized to update this entry"),
        (CustomError::DuplicateEntryId, "Entry with this ID already exists"),
        (CustomError::TooManyEntries, "Too many entries in batch (max 10)"),
        (CustomError::EmptyBatch, "Batch cannot be empty"),
        (CustomError::LedgerFrozen, "Ledger is frozen"),
        (CustomError::InsufficientPermissions, "Insufficient permissions"),
        (CustomError::InvalidAccountCode, "Invalid account code format"),
        (CustomError::UnsupportedCurrency, "Currency not supported"),
        (CustomError::EntryLocked, "Entry locked for audit"),
        (CustomError::PageSizeTooLarge, "Page size too large"),
        (CustomError::AccountCodeEmpty, "Account code empty"),
        (CustomError::CapacityExceeded, "Capacity exceeded"),
        (CustomError::NotImplemented, "Operation not implemented"),
    ];
    for (error, text) in all {
        assert_eq!(error.message(), text);
    }
    for (i, (a, _)) in all.iter().enumerate() {
        for (j, (b, _)) in all.iter().enumerate() {
            assert_eq!(a == b, i == j);
        }
    }
}
