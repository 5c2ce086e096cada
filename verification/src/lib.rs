//! A double-entry bookkeeping ledger as a verified state machine.
//!
//! A ledger and each of its entries are separate records. Every operation
//! takes the records it may touch, the acting identity and the current time
//! as plain values, decides whether the change is allowed, and either applies
//! all of it or none of it. Storing the records, reading the clock and
//! sending out the notices that the operations return is left to the caller.
//!
//! The modules, from the ground up:
//! - [`errors`]: why an operation is refused;
//! - [`identity`]: the 32-byte names of actors and records;
//! - [`validation`]: the rules on the fields of an entry;
//! - [`roles`], [`index`]: the bounded containers of a ledger;
//! - [`state`]: the records and the values they stand for;
//! - [`layout`]: the room that the records take when stored;
//! - [`access`]: who may do what;
//! - [`ledger`], [`record`], [`batch`], [`modify`], [`company`],
//!   [`extensions`]: the operations;
//! - [`laws`]: what holds of the operations taken together.

pub mod access;
pub mod batch;
pub mod company;
pub mod errors;
pub mod extensions;
pub mod identity;
pub mod index;
pub mod laws;
pub mod layout;
pub mod ledger;
pub mod modify;
pub mod record;
pub mod roles;
pub mod state;
pub mod validation;

pub use batch::batch_record_entries;
pub use company::initialize_company;
pub use errors::CustomError;
pub use extensions::convert_currency;
pub use extensions::create_audit_trail;
pub use extensions::generate_balance_sheet;
pub use extensions::get_entries_paginated;
pub use extensions::integrate_with_token_program;
pub use identity::Identity;
pub use index::AccountIndex;
pub use index::DateIndex;
pub use ledger::freeze_ledger;
pub use ledger::initialize_ledger;
pub use ledger::unfreeze_ledger;
pub use modify::delete_entry;
pub use modify::update_entry;
pub use record::get_entry;
pub use record::record_entry;
pub use roles::RoleSet;
pub use state::AuditTrail;
pub use state::BalanceSheet;
pub use state::BatchEntriesRecorded;
pub use state::BatchEntryData;
pub use state::Company;
pub use state::CompanyLedger;
pub use state::CurrencyRate;
pub use state::Entry;
pub use state::EntryDeleted;
pub use state::EntryRecorded;
pub use state::EntrySlot;
pub use validation::validate_account_code;
