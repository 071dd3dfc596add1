use ethers::abi::{encode, Token};
use mempool_watch::mempool::ReceiptLookup;
use mempool_watch::pipeline::{Action, Event, Failure, Pipeline, Stage};
use mempool_watch::primitives::{Address, PendingTransaction, TxHash, U256};
use mempool_watch::PricePrediction;

fn oracle() -> Address {
    let mut bytes = [0u8; 20];
    bytes[18] = 0x0a;
    bytes[19] = 0xaa;
    Address::new(bytes)
}

fn word(value: u64) -> [u8; 32] {
    let mut bytes = [0u8; 32];
    bytes[24..].copy_from_slice(&value.to_be_bytes());
    bytes
}

fn transmit_calldata(observations: &[u64]) -> Vec<u8> {
    let mut report = vec![0u8; 128];
    for value in observations {
        report.extend_from_slice(&word(*value));
    }
    let mut input = vec![0xc9, 0x80, 0x75, 0x39];
    input.extend_from_slice(&encode(&[
        Token::Bytes(report),
        Token::Array(vec![Token::FixedBytes(vec![1u8; 32]), Token::FixedBytes(vec![2u8; 32])]),
        Token::Array(vec![Token::FixedBytes(vec![3u8; 32]), Token::FixedBytes(vec![4u8; 32])]),
        Token::FixedBytes(vec![5u8; 32]),
    ]));
    input
}

fn transaction(tag: u8, to: Option<Address>, input: Vec<u8>) -> PendingTransaction {
    PendingTransaction {
        hash: TxHash { bytes: [tag; 32] },
        to,
        input,
        transaction_type: None,
        gas_price: Some(U256::from_u64(30_000_000_000)),
        max_fee_per_gas: None,
        max_priority_fee_per_gas: None,
    }
}

fn at(stage: Stage) -> Pipeline {
    Pipeline { oracle: oracle(), stage }
}

fn streaming() -> Pipeline {
    at(Stage::Streaming)
}

#[test]
fn new_pipeline_is_disconnected() {
    assert_eq!(Pipeline::new(oracle()), at(Stage::Disconnected));
}

#[test]
fn pipeline_connects_then_streams() {
    let (pipeline, action) = Pipeline::new(oracle()).step(Event::Resume);
    assert_eq!((pipeline.clone(), action), (at(Stage::Connecting), Action::Connect));
    let (pipeline, action) = pipeline.step(Event::Connected);
    assert_eq!((pipeline, action), (streaming(), Action::Receive));
}

#[test]
fn setup_failure_ends_the_pipeline() {
    let (pipeline, action) = at(Stage::Connecting).step(Event::SetupFailed);
    assert_eq!(pipeline, at(Stage::Terminated));
    assert_eq!(action, Action::Abort(Failure::Setup));
}

#[test]
fn transaction_to_another_address_is_passed_over() {
    let other = Address::new([0xbb; 20]);
    let txn = transaction(1, Some(other), transmit_calldata(&[100, 200, 300]));
    assert_eq!(streaming().step(Event::Transaction(txn)), (streaming(), Action::Receive));
    let creation = transaction(2, None, transmit_calldata(&[100, 200, 300]));
    assert_eq!(streaming().step(Event::Transaction(creation)), (streaming(), Action::Receive));
}

#[test]
fn transaction_to_the_oracle_has_its_receipt_looked_up() {
    let txn = transaction(3, Some(oracle()), vec![]);
    let (pipeline, action) = streaming().step(Event::Transaction(txn.clone()));
    assert_eq!(pipeline, at(Stage::Guarding { candidate: txn }));
    assert_eq!(action, Action::QueryReceipt(TxHash { bytes: [3; 32] }));
}

#[test]
fn confirmed_transaction_is_passed_over() {
    let txn = transaction(4, Some(oracle()), transmit_calldata(&[100, 200, 300]));
    let guarding = at(Stage::Guarding { candidate: txn });
    assert_eq!(
        guarding.step(Event::Receipt(ReceiptLookup::Confirmed)),
        (streaming(), Action::Receive)
    );
}

#[test]
fn failed_receipt_lookup_passes_the_transaction_over() {
    let txn = transaction(5, Some(oracle()), transmit_calldata(&[100, 200, 300]));
    let guarding = at(Stage::Guarding { candidate: txn });
    assert_eq!(
        guarding.step(Event::Receipt(ReceiptLookup::Failed)),
        (streaming(), Action::Receive)
    );
}

#[test]
fn pending_update_is_published() {
    let txn = transaction(6, Some(oracle()), transmit_calldata(&[5, 15]));
    let guarding = at(Stage::Guarding { candidate: txn.clone() });
    let (pipeline, action) = guarding.step(Event::Receipt(ReceiptLookup::Unconfirmed));
    assert_eq!(pipeline, at(Stage::Publishing));
    assert_eq!(
        action,
        Action::Publish(PricePrediction { new_price: U256::from_u64(15), transaction: txn })
    );
}

#[test]
fn unmatched_calldata_is_passed_over_without_error() {
    for input in [vec![], vec![0xc9, 0x80], vec![0xa9, 0x05, 0x9c, 0xbb, 1, 2, 3], vec![0xc9, 0x80, 0x75, 0x39, 0xff]] {
        let txn = transaction(7, Some(oracle()), input);
        let guarding = at(Stage::Guarding { candidate: txn });
        assert_eq!(
            guarding.step(Event::Receipt(ReceiptLookup::Unconfirmed)),
            (streaming(), Action::Receive)
        );
    }
}

#[test]
fn report_without_observations_is_passed_over() {
    let txn = transaction(8, Some(oracle()), transmit_calldata(&[]));
    let guarding = at(Stage::Guarding { candidate: txn });
    assert_eq!(
        guarding.step(Event::Receipt(ReceiptLookup::Unconfirmed)),
        (streaming(), Action::Receive)
    );
}

#[test]
fn delivery_lets_the_pipeline_read_on() {
    assert_eq!(at(Stage::Publishing).step(Event::Delivered), (streaming(), Action::Receive));
}

#[test]
fn lost_consumer_ends_the_pipeline() {
    assert_eq!(
        at(Stage::Publishing).step(Event::ConsumerGone),
        (at(Stage::Terminated), Action::Abort(Failure::ConsumerGone))
    );
}

#[test]
fn publishing_pipeline_reads_nothing_until_delivery() {
    let txn = transaction(9, Some(oracle()), transmit_calldata(&[1, 2, 3]));
    let events = vec![
        Event::Resume,
        Event::Connected,
        Event::SetupFailed,
        Event::Transaction(txn),
        Event::TransportError("Disconnect".to_string()),
        Event::StreamEnded,
        Event::Receipt(ReceiptLookup::Unconfirmed),
    ];
    let mut pipeline = at(Stage::Publishing);
    for event in events {
        let (next, action) = pipeline.step(event);
        assert_eq!(next, at(Stage::Publishing));
        assert_eq!(action, Action::Idle);
        pipeline = next;
    }
    assert_eq!(pipeline.step(Event::Delivered), (streaming(), Action::Receive));
}

#[test]
fn disconnect_leads_back_to_streaming() {
    let (pipeline, action) =
        streaming().step(Event::TransportError("WsClientError(Disconnect)".to_string()));
    assert_eq!((pipeline.clone(), action), (at(Stage::Disconnected), Action::Reset));
    let (pipeline, action) = pipeline.step(Event::Resume);
    assert_eq!((pipeline.clone(), action), (at(Stage::Connecting), Action::Connect));
    let (pipeline, action) = pipeline.step(Event::Connected);
    assert_eq!((pipeline.clone(), action), (streaming(), Action::Receive));
    let txn = transaction(10, Some(oracle()), transmit_calldata(&[7]));
    let (pipeline, action) = pipeline.step(Event::Transaction(txn.clone()));
    assert_eq!(action, Action::QueryReceipt(txn.hash));
    let (_, action) = pipeline.step(Event::Receipt(ReceiptLookup::Unconfirmed));
    assert_eq!(
        action,
        Action::Publish(PricePrediction { new_price: U256::from_u64(7), transaction: txn })
    );
}

#[test]
fn other_stream_errors_are_passed_over() {
    let (pipeline, action) =
        streaming().step(Event::TransportError("SerdeJson(invalid type)".to_string()));
    assert_eq!((pipeline, action), (streaming(), Action::Receive));
    let (pipeline, action) = streaming().step(Event::TransportError(String::new()));
    assert_eq!((pipeline, action), (streaming(), Action::Receive));
}

#[test]
fn end_of_stream_reconnects() {
    assert_eq!(streaming().step(Event::StreamEnded), (at(Stage::Disconnected), Action::Reset));
}

#[test]
fn unawaited_events_change_nothing() {
    let txn = transaction(11, Some(oracle()), vec![]);
    let stages = vec![
        (Stage::Disconnected, Event::Connected),
        (Stage::Disconnected, Event::Transaction(txn.clone())),
        (Stage::Connecting, Event::Resume),
        (Stage::Connecting, Event::Delivered),
        (Stage::Streaming, Event::Receipt(ReceiptLookup::Unconfirmed)),
        (Stage::Streaming, Event::Delivered),
        (Stage::Streaming, Event::ConsumerGone),
        (Stage::Streaming, Event::SetupFailed),
        (Stage::Guarding { candidate: txn.clone() }, Event::Transaction(txn.clone())),
        (Stage::Guarding { candidate: txn.clone() }, Event::StreamEnded),
        (Stage::Guarding { candidate: txn.clone() }, Event::ConsumerGone),
    ];
    for (stage, event) in stages {
        assert_eq!(at(stage.clone()).step(event), (at(stage), Action::Idle));
    }
}

#[test]
fn ended_pipeline_stays_ended() {
    let txn = transaction(12, Some(oracle()), transmit_calldata(&[1]));
    for event in [
        Event::Resume,
        Event::Connected,
        Event::Transaction(txn),
        Event::Receipt(ReceiptLookup::Unconfirmed),
        Event::Delivered,
    ] {
        assert_eq!(at(Stage::Terminated).step(event), (at(Stage::Terminated), Action::Idle));
    }
}

#[test]
fn pipeline_keeps_its_oracle() {
    let mut pipeline = Pipeline::new(oracle());
    let txn = transaction(13, Some(oracle()), transmit_calldata(&[1, 2]));
    for event in [
        Event::Resume,
        Event::Connected,
        Event::Transaction(txn),
        Event::Receipt(ReceiptLookup::Unconfirmed),
        Event::Delivered,
        Event::StreamEnded,
    ] {
        pipeline = pipeline.step(event).0;
        assert_eq!(pipeline.oracle, oracle());
    }
}

#[test]
fn end_to_end_one_prediction_for_one_update() {
    let update = transaction(0x77, Some(oracle()), transmit_calldata(&[100, 200, 300]));
    let noise = transaction(0x78, Some(Address::new([0xcc; 20])), transmit_calldata(&[1, 2, 3]));
    let events = vec![
        Event::Resume,
        Event::Connected,
        Event::Transaction(noise),
        Event::Transaction(update.clone()),
        Event::Receipt(ReceiptLookup::Unconfirmed),
        Event::Delivered,
    ];
    let mut pipeline = Pipeline::new(oracle());
    let mut published = Vec::new();
    let mut actions = Vec::new();
    for event in events {
        let (next, action) = pipeline.step(event);
        if let Action::Publish(prediction) = &action {
            published.push(prediction.clone());
        }
        actions.push(action);
        pipeline = next;
    }
    assert_eq!(
        published,
        vec![PricePrediction { new_price: U256::from_u64(200), transaction: update.clone() }]
    );
    assert_eq!(
        actions,
        vec![
            Action::Connect,
            Action::Receive,
            Action::Receive,
            Action::QueryReceipt(update.hash),
            Action::Publish(PricePrediction { new_price: U256::from_u64(200), transaction: update }),
            Action::Receive,
        ]
    );
    assert_eq!(pipeline, streaming());
}
