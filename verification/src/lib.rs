//! Watches a node's pending transactions for the price updates that an
//! oracle network sends to one aggregator contract, and predicts the price
//! that such an update will write before it is confirmed.
//!
//! The crate holds the decisions of the pipeline; connections, subscriptions
//! and the delivery channel belong to the program that drives it.

use crate::primitives::{PendingTransaction, U256};
use vstd::prelude::*;

pub mod config;
pub mod mempool;
pub mod oracles;
pub mod pipeline;
pub mod primitives;
pub mod report;
pub mod transmit;
pub mod transport;

verus! {

/// The price that a pending transaction is about to write.
#[derive(Clone, Debug, PartialEq, Eq)]
pub struct PricePrediction {
    /// The median of the observations that the transaction reports.
    pub new_price: U256,
    /// The transaction, sent to an oracle, that will update the asset's
    /// price.
    pub transaction: PendingTransaction,
}

} // verus!
