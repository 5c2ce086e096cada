use company_ledger::company::{initialize_company, COMPANY_NAME_LEN};
use company_ledger::errors::CustomError;
use company_ledger::extensions::{
    convert_currency, create_audit_trail, generate_balance_sheet, get_entries_paginated,
    integrate_with_token_program, MAX_PAGE_SIZE,
};
use company_ledger::identity::Identity;
use company_ledger::ledger::initialize_ledger;
use company_ledger::state::{Company, CompanyLedger, CurrencyRate, Entry};

fn id(n: u8) -> Identity {
    Identity { bytes: [n; 32] }
}

#[test]
fn company_name_is_stored_with_zero_padding() {
    let a = id(1);
    let company = initialize_company(a, "Acme".to_string()).unwrap();
    let mut name = [0u8; 64];
    name[..4].copy_from_slice(b"Acme");
    assert_eq!(company, Company { authority: a, ledger_count: 0, company_name: name });
}

#[test]
fn company_name_may_fill_all_its_room() {
    assert_eq!(COMPANY_NAME_LEN, 64);
    let long = "n".repeat(64);
    let company = initialize_company(id(1), long).unwrap();
    assert_eq!(company.company_name, [b'n'; 64]);
    let empty = initialize_company(id(1), String::new()).unwrap();
    assert_eq!(empty.company_name, [0u8; 64]);
}

#[test]
fn company_name_that_does_not_fit_is_refused() {
    assert_eq!(
        initialize_company(id(1), "n".repeat(65)),
        Err(CustomError::AccountCodeTooLong)
    );
    // thirty-three two-byte characters are sixty-six bytes
    assert_eq!(
        initialize_company(id(1), "é".repeat(33)),
        Err(CustomError::AccountCodeTooLong)
    );
    let fits = initialize_company(id(1), "é".repeat(32)).unwrap();
    assert_eq!(&fits.company_name[..2], "é".as_bytes());
    assert_eq!(&fits.company_name[62..], "é".as_bytes());
}

#[test]
fn page_of_fifty_is_the_largest() {
    assert_eq!(MAX_PAGE_SIZE, 50);
    assert_eq!(get_entries_paginated(0, 0), Ok(()));
    assert_eq!(get_entries_paginated(3, 50), Ok(()));
    assert_eq!(get_entries_paginated(u32::MAX, 50), Ok(()));
    assert_eq!(get_entries_paginated(0, 51), Err(CustomError::PageSizeTooLarge));
    assert_eq!(get_entries_paginated(0, 255), Err(CustomError::PageSizeTooLarge));
}

#[test]
fn declared_operations_say_that_they_are_not_implemented() {
    let ledger = initialize_ledger(id(1));
    let entry = Entry::default();
    let rate = CurrencyRate { from_currency: *b"USD\0\0\0\0\0", to_currency: *b"VND\0\0\0\0\0", rate: 25_000, updated_at: 0 };
    assert_eq!(create_audit_trail(&entry, &entry, "why"), Err(CustomError::NotImplemented));
    assert_eq!(generate_balance_sheet(&ledger, 0, 10), Err(CustomError::NotImplemented));
    assert_eq!(
        convert_currency(&rate, 5, rate.from_currency, rate.to_currency),
        Err(CustomError::NotImplemented)
    );
    assert_eq!(integrate_with_token_program(&ledger, id(1), 5), Err(CustomError::NotImplemented));
}

#[test]
fn declared_sizes() {
    assert_eq!(Entry::MAX_SIZE, 136);
    assert_eq!(Company::MAX_SIZE, 104);
    assert_eq!(CompanyLedger::MAX_SIZE, 40_305);
}
