//! An append-only ledger of value transfers between two parties.
//!
//! The [`ledger`] module holds the store: an ordered sequence of committed
//! [`ledger::Payment`] records. The [`recorder`] module holds the transfer
//! recorder, which validates a request, consults the external transfer
//! service's outcome, commits a record, and answers participant-filtered
//! history queries.

pub mod ledger;
pub mod recorder;
