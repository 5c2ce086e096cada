//! Companies: named groups that can own several ledgers.

use vstd::prelude::*;
use vstd::utf8::encode_utf8;
use crate::errors::CustomError;
use crate::identity::Identity;
use crate::state::Company;

verus! {

/// Bytes that the name of a company has room for.
pub const COMPANY_NAME_LEN: usize = 64;

/// A name as it is stored: its bytes, then zero bytes up to 64.
pub open spec fn padded_name(name: Seq<u8>) -> Seq<u8> {
    Seq::new(
        COMPANY_NAME_LEN as nat,
        |i: int|
            if i < name.len() {
                name[i]
            } else {
                0u8
            },
    )
}

/// Creates the company of `authority` under `company_name`, with no ledgers
/// yet. A name of more than 64 bytes is refused.
pub fn initialize_company(authority: Identity, company_name: String) -> (r: Result<
    Company,
    CustomError,
>)
    ensures
        encode_utf8(company_name@).len() > COMPANY_NAME_LEN ==> r == Err::<Company, CustomError>(
            CustomError::AccountCodeTooLong,
        ),
        encode_utf8(company_name@).len() <= COMPANY_NAME_LEN ==> {
            &&& r matches Ok(company)
            &&& company.authority == authority
            &&& company.ledger_count == 0
            &&& company.company_name@ == padded_name(encode_utf8(company_name@))
        },
{
    let bytes = company_name.as_str().as_bytes();
    if bytes.len() > COMPANY_NAME_LEN {
        return Err(CustomError::AccountCodeTooLong);
    }
    let mut name = [0u8;64];
    let mut i: usize = 0;
    while i < bytes.len()
        invariant
            i <= bytes.len() <= COMPANY_NAME_LEN,
            forall|j: int| 0 <= j < i ==> name@[j] == bytes@[j],
            forall|j: int| i <= j < COMPANY_NAME_LEN ==> name@[j] == 0,
        decreases bytes.len() - i,
    {
        name[i] = bytes[i];
        i += 1;
    }
    assert(name@ =~= padded_name(bytes@));
    Ok(Company { authority, ledger_count: 0, company_name: name })
}

} // verus!
