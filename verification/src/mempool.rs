//! The stages that a pending transaction passes before a prediction is made
//! of it: the destination filter, the guard against transactions that are
//! already mined, and the reading of its calldata.

use crate::pipeline::{at_stage, transition, Action, Event, Pipeline, Stage};
use crate::primitives::{Address, PendingTransaction, U256};
use crate::report::{predict_price, predicted_price};
use crate::transmit::{decode_transmit, transmit_call, DecodedReport};
use vstd::prelude::*;

verus! {

/// What the node answered when asked for the receipt of a transaction.
#[derive(Clone, Copy, Debug, PartialEq, Eq)]
pub enum ReceiptLookup {
    /// A receipt exists: the transaction is in a block.
    Confirmed,
    /// No receipt exists: the transaction is still pending.
    Unconfirmed,
    /// The question could not be answered.
    Failed,
}

/// Whether `txn` is sent to `oracle`. A transaction without a destination
/// is sent to nobody.
pub fn is_to_oracle(txn: &PendingTransaction, oracle: Address) -> (kept: bool)
    ensures
        kept == (txn.to == Some(oracle)),
        kept == (txn.to matches Some(to) && to@ == oracle@),
{
    match txn.to {
        None => false,
        Some(to) => to.same_as(&oracle),
    }
}

/// Whether a transaction may still be acted on, given what the node said of
/// its receipt: only where the node found none. A receipt means that it is
/// too late, and a failed lookup is taken for one.
pub fn is_pending(receipt: ReceiptLookup) -> (pending: bool)
    ensures
        pending == (receipt is Unconfirmed),
{
    match receipt {
        ReceiptLookup::Confirmed => false,
        ReceiptLookup::Failed => false,
        ReceiptLookup::Unconfirmed => true,
    }
}

/// The price that calldata predicts: that of the report of the `transmit`
/// call that it encodes; none where it encodes no such call or the report
/// predicts none.
pub open spec fn predicted_update(input: Seq<u8>) -> Option<U256> {
    match transmit_call(input) {
        Some(arguments) => predicted_price(arguments.0),
        None => None,
    }
}

/// The price that the report of a decoded `transmit` call predicts.
pub fn price_of(decoded: &DecodedReport) -> (price: Option<U256>)
    ensures
        price == predicted_price(decoded.report@),
        price == predicted_price(decoded@.0),
{
    predict_price(decoded.report.as_slice())
}

/// The price that a transaction is about to write, read from its calldata.
pub fn inspect(txn: &PendingTransaction) -> (price: Option<U256>)
    ensures
        price == predicted_update(txn.input@),
{
    match decode_transmit(txn.input.as_slice()) {
        Some(decoded) => price_of(&decoded),
        None => None,
    }
}

/// Starts to watch the pending transactions that are sent to `oracle`:
/// makes the pipeline of that oracle and asks for its first connection.
pub fn subscribe_mempool_events(oracle: Address) -> (started: (Pipeline, Action))
    ensures
        started == transition(at_stage(oracle, Stage::Disconnected), Event::Resume),
        started == (at_stage(oracle, Stage::Connecting), Action::Connect),
        started.0.well_formed(),
{
    Pipeline::new(oracle).step(Event::Resume)
}

} // verus!
