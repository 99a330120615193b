//! Verified ledger for an on-chain education platform.
//!
//! The platform keeps four kinds of records: a singleton configuration, one
//! record per class, one completion record per (class, student) pair, and one
//! bug report per (class, report, user) triple. Records are created exactly
//! once and never updated or deleted; uniqueness is enforced by deriving a
//! storage key from a fixed salt plus the identifying fields and refusing to
//! create a record whose key is already occupied. The completion and report
//! recorders are gated on the owner identity stored in the configuration.

pub mod address;
pub mod layout;
pub mod laws;
pub mod ledger;
pub mod pubkey;
pub mod records;
