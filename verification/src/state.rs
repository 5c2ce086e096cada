//! The records of the ledger, and the mathematical value each stands for.

use vstd::prelude::*;
use crate::identity::Identity;
use crate::index::AccountIndex;
use crate::index::buckets_fit;
use crate::index::Bucket;
use crate::index::DateIndex;
use crate::index::MAX_INDEX_ENTRIES;
use crate::roles::RoleSet;
use crate::roles::MAX_ROLE_MEMBERS;
use crate::errors::CustomError;
use crate::validation::entry_verdict;

verus! {

/// One bookkeeping transaction: an amount moved from the credit account to
/// the debit account.
#[derive(Clone, Debug, Default, PartialEq, Eq)]
pub struct Entry {
    /// 1 to 32 bytes, unique within a ledger.
    pub entry_id: String,
    /// Account code of the debit side, 1 to 16 ASCII letters and digits.
    pub debit: String,
    /// Account code of the credit side, 1 to 16 ASCII letters and digits.
    pub credit: String,
    /// Amount in the smallest unit of the currency, more than zero.
    pub amount: u64,
    /// Currency code, at most 8 bytes.
    pub currency: String,
    /// Seconds since the epoch at which the entry was accepted or last changed.
    pub timestamp: i64,
    /// The actor who recorded the entry.
    pub creator: Identity,
}

/// The value of an [`Entry`].
pub struct EntryView {
    pub entry_id: Seq<char>,
    pub debit: Seq<char>,
    pub credit: Seq<char>,
    pub amount: u64,
    pub currency: Seq<char>,
    pub timestamp: i64,
    pub creator: Identity,
}

impl EntryView {
    /// The fields of the entry that a caller submits.
    pub open spec fn fields(self) -> EntryFields {
        EntryFields {
            entry_id: self.entry_id,
            debit: self.debit,
            credit: self.credit,
            amount: self.amount,
            currency: self.currency,
        }
    }

    /// Every field obeys the rules for entries.
    pub open spec fn well_formed(self) -> bool {
        self.fields().verdict() is Ok
    }
}

impl View for Entry {
    type V = EntryView;

    open spec fn view(&self) -> EntryView {
        EntryView {
            entry_id: self.entry_id@,
            debit: self.debit@,
            credit: self.credit@,
            amount: self.amount,
            currency: self.currency@,
            timestamp: self.timestamp,
            creator: self.creator,
        }
    }
}

impl Entry {
    /// Room that a stored entry needs at most, in bytes.
    pub const MAX_SIZE: usize = 4 + 32 + 4 + 16 + 4 + 16 + 8 + 4 + 8 + 8 + 32;

    /// Every field obeys the rules for entries.
    pub open spec fn well_formed(&self) -> bool {
        self@.well_formed()
    }
}

/// The place where one entry is stored. Its address is fixed by the ledger
/// and the entry id, so two entries of one ledger with the same id would
/// share a slot.
#[derive(Clone, Debug, PartialEq, Eq)]
pub struct EntrySlot {
    /// Where the record lives; the indexes refer to an entry by this.
    pub address: Identity,
    /// The record, or `None` while the slot is vacant.
    pub record: Option<Entry>,
}

/// The value of an [`EntrySlot`].
pub struct SlotView {
    pub address: Identity,
    pub record: Option<EntryView>,
}

impl View for EntrySlot {
    type V = SlotView;

    open spec fn view(&self) -> SlotView {
        SlotView {
            address: self.address,
            record: match self.record {
                Some(entry) => Some(entry@),
                None => None,
            },
        }
    }
}

/// The books of one company: who may act on them, how many entries they
/// hold, and where to find the entries by date and by account.
#[derive(Clone, Debug)]
pub struct CompanyLedger {
    /// The owner, with every right.
    pub authority: Identity,
    /// Those who may record entries besides the owner.
    pub admins: RoleSet,
    /// Those who may read and audit.
    pub auditors: RoleSet,
    /// Entries recorded and not deleted since.
    pub entry_count: u64,
    /// Entries ever recorded; never goes down.
    pub total_entries: u64,
    /// While set, nothing on the ledger may change.
    pub is_frozen: bool,
    /// Entries in the order in which they were accepted.
    pub entries_by_date: DateIndex,
    /// For each side of each entry, the account it touches.
    pub entries_by_account: AccountIndex,
}

/// The value of a [`CompanyLedger`].
pub struct LedgerView {
    pub authority: Identity,
    pub admins: Seq<Identity>,
    pub auditors: Seq<Identity>,
    pub entry_count: nat,
    pub total_entries: nat,
    pub is_frozen: bool,
    pub entries_by_date: Seq<(i64, Identity)>,
    pub entries_by_account: Seq<Bucket>,
}

impl LedgerView {
    /// The live entries are among those ever recorded, both counters fit
    /// their fields, each role set lists at most ten members and none twice,
    /// neither index holds more than it has room for, and each bucket of the
    /// account index keeps within its bounds.
    pub open spec fn well_formed(self) -> bool {
        &&& self.entry_count <= self.total_entries <= u64::MAX
        &&& self.admins.len() <= MAX_ROLE_MEMBERS
        &&& self.admins.no_duplicates()
        &&& self.auditors.len() <= MAX_ROLE_MEMBERS
        &&& self.auditors.no_duplicates()
        &&& self.entries_by_date.len() <= MAX_INDEX_ENTRIES
        &&& self.entries_by_account.len() <= MAX_INDEX_ENTRIES
        &&& buckets_fit(self.entries_by_account)
    }
}

impl View for CompanyLedger {
    type V = LedgerView;

    open spec fn view(&self) -> LedgerView {
        LedgerView {
            authority: self.authority,
            admins: self.admins.members@,
            auditors: self.auditors.members@,
            entry_count: self.entry_count as nat,
            total_entries: self.total_entries as nat,
            is_frozen: self.is_frozen,
            entries_by_date: self.entries_by_date@,
            entries_by_account: self.entries_by_account@,
        }
    }
}

impl CompanyLedger {
    /// Room that a stored ledger needs at most, in bytes.
    pub const MAX_SIZE: usize = 32 + 4 + 32 * 10 + 4 + 32 * 10 + 8 + 8 + 1 + 4 + (8 + 32) * 100 + 4
        + (32 + 4 + 32 * 10) * 100;

    /// The invariant of a ledger; see [`LedgerView::well_formed`].
    pub open spec fn well_formed(&self) -> bool {
        self@.well_formed()
    }
}

/// A named group that can own several ledgers.
#[derive(Clone, Debug, PartialEq, Eq)]
pub struct Company {
    /// The owner.
    pub authority: Identity,
    /// How many ledgers the company has.
    pub ledger_count: u64,
    /// The name in UTF-8, filled up with zero bytes.
    pub company_name: [u8; 64],
}

impl Company {
    /// Room that a stored company needs, in bytes.
    pub const MAX_SIZE: usize = 32 + 8 + 64;
}

/// The record of one change to an entry: what it was, what it became, who
/// changed it, when and why.
#[derive(Clone, Debug, PartialEq, Eq)]
pub struct AuditTrail {
    pub entry_id: [u8; 32],
    pub old_values: Entry,
    pub new_values: Entry,
    pub modified_by: Identity,
    pub timestamp: i64,
    pub reason: [u8; 64],
}

/// Assets, liabilities and equity at one moment.
#[derive(Clone, Copy, Debug, PartialEq, Eq, Structural)]
pub struct BalanceSheet {
    pub assets: u64,
    pub liabilities: u64,
    pub equity: u64,
    pub generated_at: i64,
}

/// The rate at which one currency converts into another.
#[derive(Clone, Copy, Debug, PartialEq, Eq)]
pub struct CurrencyRate {
    pub from_currency: [u8; 8],
    pub to_currency: [u8; 8],
    pub rate: u64,
    pub updated_at: i64,
}

/// What a caller submits for one entry of a batch.
#[derive(Clone, Debug, Default, PartialEq, Eq)]
pub struct BatchEntryData {
    pub entry_id: String,
    pub debit: String,
    pub credit: String,
    pub amount: u64,
    pub currency: String,
}

/// The fields a caller submits for an entry, as values. The time and the
/// creator of an entry are no part of them.
pub struct EntryFields {
    pub entry_id: Seq<char>,
    pub debit: Seq<char>,
    pub credit: Seq<char>,
    pub amount: u64,
    pub currency: Seq<char>,
}

impl EntryFields {
    /// The verdict of the field rules on these fields.
    pub open spec fn verdict(self) -> Result<(), CustomError> {
        entry_verdict(self.entry_id, self.debit, self.credit, self.amount, self.currency)
    }
}

impl View for BatchEntryData {
    type V = EntryFields;

    open spec fn view(&self) -> EntryFields {
        EntryFields {
            entry_id: self.entry_id@,
            debit: self.debit@,
            credit: self.credit@,
            amount: self.amount,
            currency: self.currency@,
        }
    }
}

/// Notice that an entry was recorded, with the whole entry.
#[derive(Clone, Debug, PartialEq, Eq)]
pub struct EntryRecorded {
    pub entry_id: String,
    pub debit: String,
    pub credit: String,
    pub amount: u64,
    pub currency: String,
    pub timestamp: i64,
    pub creator: Identity,
}

impl View for EntryRecorded {
    type V = EntryView;

    open spec fn view(&self) -> EntryView {
        EntryView {
            entry_id: self.entry_id@,
            debit: self.debit@,
            credit: self.credit@,
            amount: self.amount,
            currency: self.currency@,
            timestamp: self.timestamp,
            creator: self.creator,
        }
    }
}

/// Notice that an entry was deleted.
#[derive(Clone, Debug, PartialEq, Eq)]
pub struct EntryDeleted {
    pub entry_id: String,
    pub deleted_by: Identity,
    pub timestamp: i64,
}

/// The value of an [`EntryDeleted`].
pub struct EntryDeletedView {
    pub entry_id: Seq<char>,
    pub deleted_by: Identity,
    pub timestamp: i64,
}

impl View for EntryDeleted {
    type V = EntryDeletedView;

    open spec fn view(&self) -> EntryDeletedView {
        EntryDeletedView {
            entry_id: self.entry_id@,
            deleted_by: self.deleted_by,
            timestamp: self.timestamp,
        }
    }
}

/// Notice that a batch was recorded: one for the whole batch.
#[derive(Clone, Copy, Debug, PartialEq, Eq)]
pub struct BatchEntriesRecorded {
    pub batch_size: u64,
    pub created_by: Identity,
    pub timestamp: i64,
}

} // verus!
