//! A minimal voting ledger: participants create proposals and cast single
//! yes/no votes against them. Record keys are derived deterministically from
//! the record's identity, and the storage layer only ever creates a record at
//! a key that is still free, so uniqueness of proposals and of votes is a
//! consequence of address collision rather than of any lookup index.

pub mod addressing;
pub mod ledger;
pub mod state;
