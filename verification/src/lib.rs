//! Accounting core of a custodial payment-streaming ledger.
//!
//! A sender commits a sum to a receiver. The sum vests linearly over a
//! window of time; the receiver may withdraw what has vested, and the sender
//! may cancel, which pays the receiver what has vested and returns the rest.
//! The library keeps the records and decides what is owed. It is handed
//! authenticated identities and clock readings, and it leaves the movement of
//! funds to a treasury outside it.

pub mod engine;
pub mod error;
pub mod identity;
pub mod laws;
pub mod ledger;
pub mod stream;
pub mod treasury;
pub mod vesting;

pub use crate::engine::{
    cancel_stream, create_stream, deposit, initialize, settle, settle_opening, withdraw, Party,
    Settlement, Transfer, MAX_STREAMS,
};
pub use crate::error::ErrorCode;
pub use crate::identity::Identity;
pub use crate::ledger::{Mutation, StreamAccount};
pub use crate::stream::Stream;
pub use crate::treasury::move_funds;
pub use crate::vesting::{vested, withdrawable_now};
