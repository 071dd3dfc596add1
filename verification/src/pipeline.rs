//! The decisions of one oracle's pipeline, as a machine that is handed what
//! happened and answers what to do next.
//!
//! The program that drives the machine owns the connection, the
//! subscription and the delivery channel. It performs each action and hands
//! back the event that came of it:
//!
//! - `Connect`: connect and subscribe; then `Connected` or `SetupFailed`.
//! - `Receive`: wait for the stream; then `Transaction`, `TransportError`
//!   or `StreamEnded`.
//! - `QueryReceipt`: ask the node for the receipt; then `Receipt`.
//! - `Publish`: send the prediction to the consumer, waiting while the
//!   channel is full; then `Delivered` or `ConsumerGone`.
//! - `Reset`: abandon the subscription; then `Resume`.
//! - `Abort`: end the task.
//!
//! The machine moves `Disconnected -> Connecting -> Streaming` and, when the
//! connection is lost, back to `Disconnected`, for ever. While it streams,
//! one transaction at a time passes the filter, the guard and the decoder.

use crate::mempool::{inspect, is_pending, is_to_oracle, predicted_update, ReceiptLookup};
use crate::primitives::{Address, PendingTransaction, TxHash};
use crate::transport::{is_disconnect, names_disconnect};
use crate::PricePrediction;
use vstd::prelude::*;

verus! {

/// Why a pipeline ended.
#[derive(Clone, Copy, Debug, PartialEq, Eq)]
pub enum Failure {
    /// The connection or the subscription could not be set up.
    Setup,
    /// The consumer's end of the delivery channel is gone.
    ConsumerGone,
}

/// Where a pipeline stands.
#[derive(Clone, Debug, PartialEq, Eq)]
pub enum Stage {
    /// No connection exists.
    Disconnected,
    /// A connection and a subscription are being set up.
    Connecting,
    /// The subscription is live and the next item of its stream is awaited.
    Streaming,
    /// A transaction sent to the oracle waits for the node's word on its
    /// receipt.
    Guarding { candidate: PendingTransaction },
    /// A prediction waits for room in the delivery channel.
    Publishing,
    /// The pipeline has ended.
    Terminated,
}

/// What happened to the work that the pipeline asked for.
#[derive(Clone, Debug, PartialEq, Eq)]
pub enum Event {
    /// The driver is ready to connect.
    Resume,
    /// The connection and the subscription are set up.
    Connected,
    /// The connection or the subscription could not be set up.
    SetupFailed,
    /// The stream handed out a pending transaction.
    Transaction(PendingTransaction),
    /// The stream handed out an error, with this text.
    TransportError(String),
    /// The stream ended.
    StreamEnded,
    /// The node answered the question for a receipt.
    Receipt(ReceiptLookup),
    /// The consumer's channel took the prediction.
    Delivered,
    /// The consumer's end of the channel is gone.
    ConsumerGone,
}

/// What the driver is to do next.
#[derive(Clone, Debug, PartialEq, Eq)]
pub enum Action {
    /// Connect to the node and subscribe to its pending transactions.
    Connect,
    /// Wait for the next item of the stream.
    Receive,
    /// Ask the node for the receipt of the transaction with this hash.
    QueryReceipt(TxHash),
    /// Send this prediction to the consumer, waiting for room.
    Publish(PricePrediction),
    /// Abandon the subscription and the connection.
    Reset,
    /// End the task.
    Abort(Failure),
    /// Nothing: the event answers no action of this stage.
    Idle,
}

/// The pipeline of one oracle.
#[derive(Clone, Debug, PartialEq, Eq)]
pub struct Pipeline {
    /// The address of the oracle that is watched.
    pub oracle: Address,
    /// Where the pipeline stands.
    pub stage: Stage,
}

/// The pipeline that watches `oracle` and stands at `stage`.
pub open spec fn at_stage(oracle: Address, stage: Stage) -> Pipeline {
    Pipeline { oracle, stage }
}

/// Whether `event` answers an action that a pipeline at `stage` asked for.
pub open spec fn awaited(stage: Stage, event: Event) -> bool {
    match stage {
        Stage::Disconnected => event is Resume,
        Stage::Connecting => event is Connected || event is SetupFailed,
        Stage::Streaming => event is Transaction || event is TransportError || event
            is StreamEnded,
        Stage::Guarding { .. } => event is Receipt,
        Stage::Publishing => event is Delivered || event is ConsumerGone,
        Stage::Terminated => false,
    }
}

/// What a streaming pipeline does with a transaction: one sent to the
/// oracle is held while its receipt is looked up, any other is passed over.
pub open spec fn on_transaction(oracle: Address, txn: PendingTransaction) -> (Pipeline, Action) {
    if txn.to == Some(oracle) {
        (at_stage(oracle, Stage::Guarding { candidate: txn }), Action::QueryReceipt(txn.hash))
    } else {
        (at_stage(oracle, Stage::Streaming), Action::Receive)
    }
}

/// What a pipeline does with the node's word on the receipt of the
/// transaction it holds: one still pending whose calldata predicts a price
/// is published, any other is passed over.
pub open spec fn on_receipt(oracle: Address, candidate: PendingTransaction, receipt: ReceiptLookup) -> (
    Pipeline,
    Action,
) {
    if receipt is Unconfirmed {
        match predicted_update(candidate.input@) {
            Some(new_price) => (
                at_stage(oracle, Stage::Publishing),
                Action::Publish(PricePrediction { new_price, transaction: candidate }),
            ),
            None => (at_stage(oracle, Stage::Streaming), Action::Receive),
        }
    } else {
        (at_stage(oracle, Stage::Streaming), Action::Receive)
    }
}

/// The stage that follows `event`, and the action that the driver is to
/// perform. An event that the stage does not await changes nothing.
pub open spec fn transition(pipeline: Pipeline, event: Event) -> (Pipeline, Action) {
    let oracle = pipeline.oracle;
    match (pipeline.stage, event) {
        (Stage::Disconnected, Event::Resume) => (
            at_stage(oracle, Stage::Connecting),
            Action::Connect,
        ),
        (Stage::Connecting, Event::Connected) => (
            at_stage(oracle, Stage::Streaming),
            Action::Receive,
        ),
        (Stage::Connecting, Event::SetupFailed) => (
            at_stage(oracle, Stage::Terminated),
            Action::Abort(Failure::Setup),
        ),
        (Stage::Streaming, Event::Transaction(txn)) => on_transaction(oracle, txn),
        (Stage::Streaming, Event::TransportError(text)) => if names_disconnect(text@) {
            (at_stage(oracle, Stage::Disconnected), Action::Reset)
        } else {
            (at_stage(oracle, Stage::Streaming), Action::Receive)
        },
        (Stage::Streaming, Event::StreamEnded) => (
            at_stage(oracle, Stage::Disconnected),
            Action::Reset,
        ),
        (Stage::Guarding { candidate }, Event::Receipt(receipt)) => on_receipt(
            oracle,
            candidate,
            receipt,
        ),
        (Stage::Publishing, Event::Delivered) => (
            at_stage(oracle, Stage::Streaming),
            Action::Receive,
        ),
        (Stage::Publishing, Event::ConsumerGone) => (
            at_stage(oracle, Stage::Terminated),
            Action::Abort(Failure::ConsumerGone),
        ),
        _ => (pipeline, Action::Idle),
    }
}

impl Pipeline {
    /// Whether the pipeline holds no transaction but one sent to its oracle.
    /// A new pipeline does, and every step keeps it so.
    pub open spec fn well_formed(&self) -> bool {
        self.stage matches Stage::Guarding { candidate } ==> candidate.to == Some(self.oracle)
    }

    /// A pipeline for `oracle` that has no connection yet.
    pub fn new(oracle: Address) -> (pipeline: Pipeline)
        ensures
            pipeline == at_stage(oracle, Stage::Disconnected),
            pipeline.well_formed(),
    {
        Pipeline { oracle, stage: Stage::Disconnected }
    }

    /// Takes in what happened and answers with the stage that follows and
    /// the action to perform.
    pub fn step(self, event: Event) -> (next: (Pipeline, Action))
        ensures
            next == transition(self, event),
            self.well_formed() ==> next.0.well_formed(),
    {
        let oracle = self.oracle;
        match self.stage {
            Stage::Disconnected => match event {
                Event::Resume => (Pipeline { oracle, stage: Stage::Connecting }, Action::Connect),
                _ => (Pipeline { oracle, stage: Stage::Disconnected }, Action::Idle),
            },
            Stage::Connecting => match event {
                Event::Connected => (Pipeline { oracle, stage: Stage::Streaming }, Action::Receive),
                Event::SetupFailed => (
                    Pipeline { oracle, stage: Stage::Terminated },
                    Action::Abort(Failure::Setup),
                ),
                _ => (Pipeline { oracle, stage: Stage::Connecting }, Action::Idle),
            },
            Stage::Streaming => match event {
                Event::Transaction(txn) => {
                    if is_to_oracle(&txn, oracle) {
                        let hash = txn.hash;
                        (
                            Pipeline { oracle, stage: Stage::Guarding { candidate: txn } },
                            Action::QueryReceipt(hash),
                        )
                    } else {
                        (Pipeline { oracle, stage: Stage::Streaming }, Action::Receive)
                    }
                },
                Event::TransportError(text) => {
                    if is_disconnect(text.as_str()) {
                        (Pipeline { oracle, stage: Stage::Disconnected }, Action::Reset)
                    } else {
                        (Pipeline { oracle, stage: Stage::Streaming }, Action::Receive)
                    }
                },
                Event::StreamEnded => (
                    Pipeline { oracle, stage: Stage::Disconnected },
                    Action::Reset,
                ),
                _ => (Pipeline { oracle, stage: Stage::Streaming }, Action::Idle),
            },
            Stage::Guarding { candidate } => match event {
                Event::Receipt(receipt) => {
                    if is_pending(receipt) {
                        match inspect(&candidate) {
                            Some(new_price) => (
                                Pipeline { oracle, stage: Stage::Publishing },
                                Action::Publish(
                                    PricePrediction { new_price, transaction: candidate },
                                ),
                            ),
                            None => (Pipeline { oracle, stage: Stage::Streaming }, Action::Receive),
                        }
                    } else {
                        (Pipeline { oracle, stage: Stage::Streaming }, Action::Receive)
                    }
                },
                _ => (Pipeline { oracle, stage: Stage::Guarding { candidate } }, Action::Idle),
            },
            Stage::Publishing => match event {
                Event::Delivered => (Pipeline { oracle, stage: Stage::Streaming }, Action::Receive),
                Event::ConsumerGone => (
                    Pipeline { oracle, stage: Stage::Terminated },
                    Action::Abort(Failure::ConsumerGone),
                ),
                _ => (Pipeline { oracle, stage: Stage::Publishing }, Action::Idle),
            },
            Stage::Terminated => (Pipeline { oracle, stage: Stage::Terminated }, Action::Idle),
        }
    }
}

/// The pipeline never changes the oracle that it watches.
pub proof fn lemma_oracle_is_kept(pipeline: Pipeline, event: Event)
    ensures
        transition(pipeline, event).0.oracle == pipeline.oracle,
{
}

/// An event that answers no action of the stage changes nothing and asks
/// for nothing.
pub proof fn lemma_unawaited_event_changes_nothing(pipeline: Pipeline, event: Event)
    requires
        !awaited(pipeline.stage, event),
    ensures
        transition(pipeline, event) == (pipeline, Action::Idle),
{
}

/// A transaction that is not sent to the oracle is passed over, whatever
/// its calldata: the pipeline goes on to the next item of the stream.
pub proof fn lemma_other_destination_is_passed_over(oracle: Address, txn: PendingTransaction)
    requires
        txn.to != Some(oracle),
    ensures
        transition(at_stage(oracle, Stage::Streaming), Event::Transaction(txn)) == (
            at_stage(oracle, Stage::Streaming),
            Action::Receive,
        ),
{
}

/// A transaction that is sent to the oracle is held, and its receipt is
/// asked for.
pub proof fn lemma_own_destination_is_guarded(oracle: Address, txn: PendingTransaction)
    requires
        txn.to == Some(oracle),
    ensures
        transition(at_stage(oracle, Stage::Streaming), Event::Transaction(txn)) == (
            at_stage(oracle, Stage::Guarding { candidate: txn }),
            Action::QueryReceipt(txn.hash),
        ),
{
}

/// A transaction with a receipt, or whose receipt could not be looked up,
/// is passed over, whatever its calldata.
pub proof fn lemma_mined_transaction_is_passed_over(
    oracle: Address,
    candidate: PendingTransaction,
    receipt: ReceiptLookup,
)
    requires
        receipt is Confirmed || receipt is Failed,
    ensures
        transition(at_stage(oracle, Stage::Guarding { candidate }), Event::Receipt(receipt)) == (
            at_stage(oracle, Stage::Streaming),
            Action::Receive,
        ),
{
}

/// Calldata that encodes no `transmit` call is no error: the transaction is
/// passed over and the pipeline goes on.
pub proof fn lemma_unmatched_calldata_is_passed_over(
    oracle: Address,
    candidate: PendingTransaction,
    receipt: ReceiptLookup,
)
    requires
        crate::transmit::transmit_call(candidate.input@) is None,
    ensures
        transition(at_stage(oracle, Stage::Guarding { candidate }), Event::Receipt(receipt)) == (
            at_stage(oracle, Stage::Streaming),
            Action::Receive,
        ),
{
}

/// A pending transaction whose calldata predicts a price is published with
/// that price.
pub proof fn lemma_pending_update_is_published(oracle: Address, candidate: PendingTransaction)
    requires
        predicted_update(candidate.input@) is Some,
    ensures
        transition(
            at_stage(oracle, Stage::Guarding { candidate }),
            Event::Receipt(ReceiptLookup::Unconfirmed),
        ) == (
            at_stage(oracle, Stage::Publishing),
            Action::Publish(
                PricePrediction {
                    new_price: predicted_update(candidate.input@)->0,
                    transaction: candidate,
                },
            ),
        ),
{
}

/// Whatever is published is the transaction that the pipeline held, found
/// pending, with the price that its calldata predicts; and the pipeline
/// then waits for the delivery.
pub proof fn lemma_published_is_the_candidate(pipeline: Pipeline, event: Event)
    requires
        transition(pipeline, event).1 is Publish,
    ensures
        pipeline.stage is Guarding,
        event == Event::Receipt(ReceiptLookup::Unconfirmed),
        transition(pipeline, event).0.stage is Publishing,
        transition(pipeline, event).1->Publish_0.transaction == pipeline.stage->candidate,
        Some(transition(pipeline, event).1->Publish_0.new_price) == predicted_update(
            pipeline.stage->candidate.input@,
        ),
{
}

/// Every step keeps a pipeline well formed.
pub proof fn lemma_step_keeps_well_formed(pipeline: Pipeline, event: Event)
    requires
        pipeline.well_formed(),
    ensures
        transition(pipeline, event).0.well_formed(),
{
}

/// A well-formed pipeline publishes only transactions that are sent to its
/// oracle.
pub proof fn lemma_published_is_sent_to_the_oracle(pipeline: Pipeline, event: Event)
    requires
        pipeline.well_formed(),
        transition(pipeline, event).1 is Publish,
    ensures
        transition(pipeline, event).1->Publish_0.transaction.to == Some(pipeline.oracle),
{
}

/// While a prediction waits for the consumer, the pipeline reads no
/// transaction and publishes nothing more: only the delivery lets it go on,
/// and only the loss of the consumer ends it.
pub proof fn lemma_publishing_waits_for_delivery(oracle: Address, event: Event)
    ensures
        ({
            let (next, action) = transition(at_stage(oracle, Stage::Publishing), event);
            &&& event is Delivered ==> next.stage is Streaming && action is Receive
            &&& event is ConsumerGone ==> next.stage is Terminated && action == Action::Abort(
                Failure::ConsumerGone,
            )
            &&& !(event is Delivered) && !(event is ConsumerGone) ==> next.stage is Publishing
                && action is Idle
        }),
{
}

/// After the stream names a lost connection, the pipeline abandons the
/// subscription, connects again and goes back to reading the stream; it does
/// not end.
pub proof fn lemma_disconnect_leads_back_to_streaming(oracle: Address, text: String)
    requires
        names_disconnect(text@),
    ensures
        ({
            let (lost, first) = transition(
                at_stage(oracle, Stage::Streaming),
                Event::TransportError(text),
            );
            let (connecting, second) = transition(lost, Event::Resume);
            let (streaming, third) = transition(connecting, Event::Connected);
            &&& lost == at_stage(oracle, Stage::Disconnected) && first is Reset
            &&& connecting == at_stage(oracle, Stage::Connecting) && second is Connect
            &&& streaming == at_stage(oracle, Stage::Streaming) && third is Receive
        }),
{
}

/// An error of the stream that names no lost connection is passed over.
pub proof fn lemma_other_error_is_passed_over(oracle: Address, text: String)
    requires
        !names_disconnect(text@),
    ensures
        transition(at_stage(oracle, Stage::Streaming), Event::TransportError(text)) == (
            at_stage(oracle, Stage::Streaming),
            Action::Receive,
        ),
{
}

/// A pipeline ends only where its setup fails or its consumer is gone; no
/// transaction, error of the stream or answer of the node ends it.
pub proof fn lemma_ends_only_on_failure(pipeline: Pipeline, event: Event)
    requires
        !(pipeline.stage is Terminated),
        transition(pipeline, event).0.stage is Terminated,
    ensures
        (pipeline.stage is Connecting && event is SetupFailed) || (pipeline.stage is Publishing
            && event is ConsumerGone),
        transition(pipeline, event).1 is Abort,
{
}

/// A pipeline that has ended stays ended and asks for nothing.
pub proof fn lemma_ended_stays_ended(oracle: Address, event: Event)
    ensures
        transition(at_stage(oracle, Stage::Terminated), event) == (
            at_stage(oracle, Stage::Terminated),
            Action::Idle,
        ),
{
}

} // verus!
