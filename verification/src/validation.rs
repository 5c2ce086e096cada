//! Field rules for an entry, tested in one fixed order.
//!
//! Lengths are counted in bytes of the UTF-8 encoding, which is what a stored
//! record has room for. One set of functions serves single recording, update
//! and every element of a batch.

use vstd::prelude::*;
use vstd::utf8::encode_utf8;
use vstd::utf8::encode_utf8_decode_utf8;
use crate::errors::CustomError;

verus! {

/// Most bytes an entry id may have.
pub const MAX_ENTRY_ID_LEN: usize = 32;

/// Most bytes an account code may have.
pub const MAX_ACCOUNT_CODE_LEN: usize = 16;

/// Most bytes a currency code may have.
pub const MAX_CURRENCY_LEN: usize = 8;

/// Whether `b` is an ASCII letter or an ASCII digit.
pub open spec fn is_alphanumeric_byte(b: u8) -> bool {
    ||| 0x30 <= b <= 0x39
    ||| 0x41 <= b <= 0x5a
    ||| 0x61 <= b <= 0x7a
}

/// Whether every byte of `code` is an ASCII letter or digit.
pub open spec fn all_alphanumeric(code: Seq<u8>) -> bool {
    forall|i: int| 0 <= i < code.len() ==> is_alphanumeric_byte(#[trigger] code[i])
}

/// The verdict on the format of an account code: it must have at least one
/// byte, and nothing but ASCII letters and digits.
pub open spec fn account_code_verdict(code: Seq<u8>) -> Result<(), CustomError> {
    if code.len() == 0 {
        Err(CustomError::AccountCodeEmpty)
    } else if !all_alphanumeric(code) {
        Err(CustomError::InvalidAccountCode)
    } else {
        Ok(())
    }
}

/// The verdict on one side of an entry: at most 16 bytes, then the format.
pub open spec fn account_verdict(code: Seq<char>) -> Result<(), CustomError> {
    if encode_utf8(code).len() > MAX_ACCOUNT_CODE_LEN {
        Err(CustomError::AccountCodeTooLong)
    } else {
        account_code_verdict(encode_utf8(code))
    }
}

/// The verdict on an entry id: between 1 and 32 bytes.
pub open spec fn entry_id_verdict(entry_id: Seq<char>) -> Result<(), CustomError> {
    if encode_utf8(entry_id).len() == 0 {
        Err(CustomError::EntryIdEmpty)
    } else if encode_utf8(entry_id).len() > MAX_ENTRY_ID_LEN {
        Err(CustomError::EntryIdTooLong)
    } else {
        Ok(())
    }
}

/// The verdict on what an entry posts: the debit account, the credit account,
/// that the two differ, that the amount is positive, and that the currency
/// code has at most 8 bytes. The first rule that is broken names the error.
pub open spec fn posting_verdict(
    debit: Seq<char>,
    credit: Seq<char>,
    amount: u64,
    currency: Seq<char>,
) -> Result<(), CustomError> {
    if account_verdict(debit) is Err {
        account_verdict(debit)
    } else if account_verdict(credit) is Err {
        account_verdict(credit)
    } else if debit == credit {
        Err(CustomError::SameDebitCredit)
    } else if amount == 0 {
        Err(CustomError::InvalidAmount)
    } else if encode_utf8(currency).len() > MAX_CURRENCY_LEN {
        Err(CustomError::CurrencyCodeTooLong)
    } else {
        Ok(())
    }
}

/// The verdict on a whole entry: the id first, then what it posts.
pub open spec fn entry_verdict(
    entry_id: Seq<char>,
    debit: Seq<char>,
    credit: Seq<char>,
    amount: u64,
    currency: Seq<char>,
) -> Result<(), CustomError> {
    if entry_id_verdict(entry_id) is Err {
        entry_id_verdict(entry_id)
    } else {
        posting_verdict(debit, credit, amount, currency)
    }
}

/// Two strings are equal exactly when their encodings are.
pub proof fn lemma_encoding_is_injective(a: Seq<char>, b: Seq<char>)
    ensures
        (encode_utf8(a) == encode_utf8(b)) <==> (a == b),
{
    encode_utf8_decode_utf8(a);
    encode_utf8_decode_utf8(b);
}

fn is_alphanumeric(b: u8) -> (r: bool)
    ensures
        r == is_alphanumeric_byte(b),
{
    (0x30 <= b && b <= 0x39) || (0x41 <= b && b <= 0x5a) || (0x61 <= b && b <= 0x7a)
}

/// Tests the format of an account code.
pub fn validate_account_code(code: &[u8]) -> (r: Result<(), CustomError>)
    ensures
        r == account_code_verdict(code@),
{
    if code.len() == 0 {
        return Err(CustomError::AccountCodeEmpty);
    }
    let mut i: usize = 0;
    while i < code.len()
        invariant
            i <= code.len(),
            forall|j: int| 0 <= j < i ==> is_alphanumeric_byte(#[trigger] code@[j]),
        decreases code.len() - i,
    {
        if !is_alphanumeric(code[i]) {
            return Err(CustomError::InvalidAccountCode);
        }
        i += 1;
    }
    Ok(())
}

/// Tests one side of an entry: its length, then its format.
pub fn validate_account(code: &str) -> (r: Result<(), CustomError>)
    ensures
        r == account_verdict(code@),
{
    let bytes = code.as_bytes();
    if bytes.len() > MAX_ACCOUNT_CODE_LEN {
        return Err(CustomError::AccountCodeTooLong);
    }
    validate_account_code(bytes)
}

/// Tests an entry id.
pub fn validate_entry_id(entry_id: &str) -> (r: Result<(), CustomError>)
    ensures
        r == entry_id_verdict(entry_id@),
{
    let bytes = entry_id.as_bytes();
    if bytes.len() == 0 {
        Err(CustomError::EntryIdEmpty)
    } else if bytes.len() > MAX_ENTRY_ID_LEN {
        Err(CustomError::EntryIdTooLong)
    } else {
        Ok(())
    }
}

fn same_bytes(x: &[u8], y: &[u8]) -> (r: bool)
    ensures
        r == (x@ == y@),
{
    if x.len() != y.len() {
        return false;
    }
    let mut i: usize = 0;
    while i < x.len()
        invariant
            i <= x.len(),
            x.len() == y.len(),
            forall|j: int| 0 <= j < i ==> x@[j] == y@[j],
        decreases x.len() - i,
    {
        if x[i] != y[i] {
            return false;
        }
        i += 1;
    }
    assert(x@ =~= y@);
    true
}

/// Whether two strings hold the same text.
pub fn same_text(a: &str, b: &str) -> (r: bool)
    ensures
        r == (a@ == b@),
{
    proof {
        lemma_encoding_is_injective(a@, b@);
    }
    same_bytes(a.as_bytes(), b.as_bytes())
}

/// Tests what an entry posts, rule by rule in the fixed order.
pub fn validate_posting(debit: &str, credit: &str, amount: u64, currency: &str) -> (r: Result<
    (),
    CustomError,
>)
    ensures
        r == posting_verdict(debit@, credit@, amount, currency@),
{
    match validate_account(debit) {
        Err(e) => {
            return Err(e);
        },
        Ok(()) => {},
    }
    match validate_account(credit) {
        Err(e) => {
            return Err(e);
        },
        Ok(()) => {},
    }
    if same_text(debit, credit) {
        return Err(CustomError::SameDebitCredit);
    }
    if amount == 0 {
        return Err(CustomError::InvalidAmount);
    }
    if currency.as_bytes().len() > MAX_CURRENCY_LEN {
        return Err(CustomError::CurrencyCodeTooLong);
    }
    Ok(())
}

/// Tests a whole entry: the id first, then what it posts.
pub fn validate_entry(
    entry_id: &str,
    debit: &str,
    credit: &str,
    amount: u64,
    currency: &str,
) -> (r: Result<(), CustomError>)
    ensures
        r == entry_verdict(entry_id@, debit@, credit@, amount, currency@),
{
    match validate_entry_id(entry_id) {
        Err(e) => Err(e),
        Ok(()) => validate_posting(debit, credit, amount, currency),
    }
}

} // verus!
