use log_indexer::collector::CollectingHandler;
use log_indexer::events::CryptoHash;
use log_indexer::nep297::parse_event_log;
use log_indexer::receipt::ExecutionStatus;
use log_indexer::receipt::IncompleteTransaction;
use log_indexer::receipt::TransactionReceipt;
use log_indexer::LogIndexer;

fn receipt(
    block_height: u64,
    receiver_id: &str,
    predecessor_id: &str,
    logs: Vec<&str>,
    status: ExecutionStatus,
) -> TransactionReceipt {
    TransactionReceipt {
        block_height,
        block_timestamp_nanosec: 1_700_000_000_000_000_000u128,
        receipt_id: CryptoHash([7u8; 32]),
        receiver_id: receiver_id.to_string(),
        predecessor_id: predecessor_id.to_string(),
        logs: logs.into_iter().map(|l| l.to_string()).collect(),
        status,
    }
}

fn transaction() -> IncompleteTransaction {
    IncompleteTransaction { transaction_hash: CryptoHash([3u8; 32]) }
}

#[test]
fn handles_nep297_events() {
    let mut indexer = LogIndexer(CollectingHandler::new());
    let line = "EVENT_JSON:{\"standard\":\"nep171\",\"version\":\"1.2.0\",\"event\":\"nft_mint\",\"data\":[{\"owner_id\":\"thickpuma7542.near\",\"token_ids\":[\"thickpuma7542.near\"],\"memo\":\"\"}]}";
    let r = receipt(
        124099141,
        "sbt.honeybot.near",
        "honeybot.near",
        vec![line],
        ExecutionStatus::Success,
    );
    indexer.on_receipt(&r, &transaction()).unwrap();

    let texts: Vec<String> =
        indexer.0.text_events.iter().map(|event| event.log_text.clone()).collect();
    assert_eq!(texts, vec![line.to_string()]);

    let neps: Vec<(String, String, String, Option<serde_json::Value>)> = indexer
        .0
        .nep297_events
        .iter()
        .map(|event| {
            (
                event.event_standard.clone(),
                event.event_version.clone(),
                event.event_event.clone(),
                event.event_data.clone(),
            )
        })
        .collect();
    let expected_data: serde_json::Value = serde_json::from_str(
        "[{\"owner_id\":\"thickpuma7542.near\",\"token_ids\":[\"thickpuma7542.near\"],\"memo\":\"\"}]",
    )
    .unwrap();
    assert_eq!(
        neps,
        vec![(
            "nep171".to_string(),
            "1.2.0".to_string(),
            "nft_mint".to_string(),
            Some(expected_data)
        )]
    );
}

#[test]
fn handles_text_events() {
    let mut indexer = LogIndexer(CollectingHandler::new());
    let line = "Transfer 107135422747761180476 from shit.0xshitzu.near to kahbib.tg";
    let r = receipt(
        124105250,
        "intel.tkn.near",
        "shit.0xshitzu.near",
        vec![line],
        ExecutionStatus::Success,
    );
    indexer.on_receipt(&r, &transaction()).unwrap();

    let texts: Vec<String> =
        indexer.0.text_events.iter().map(|event| event.log_text.clone()).collect();
    assert_eq!(texts, vec![line.to_string()]);
    assert!(indexer.0.nep297_events.is_empty());
}

#[test]
fn plain_transfer_line_yields_one_text_and_no_standard_event() {
    let mut indexer = LogIndexer(CollectingHandler::new());
    let r = receipt(
        100,
        "a.near",
        "b.near",
        vec!["Transfer 5 from a.near to b.near"],
        ExecutionStatus::Success,
    );
    indexer.on_receipt(&r, &transaction()).unwrap();
    assert_eq!(indexer.0.text_events.len(), 1);
    assert_eq!(indexer.0.text_events[0].log_text, "Transfer 5 from a.near to b.near");
    assert_eq!(indexer.0.text_events[0].account_id, "a.near");
    assert!(indexer.0.nep297_events.is_empty());
}

#[test]
fn failed_receipt_contributes_no_events() {
    let mut indexer = LogIndexer(CollectingHandler::new());
    let r = receipt(
        100,
        "a.near",
        "b.near",
        vec![
            "Transfer 5 from a.near to b.near",
            "EVENT_JSON:{\"standard\":\"nep171\",\"version\":\"1.0.0\",\"event\":\"nft_mint\"}",
        ],
        ExecutionStatus::Failure,
    );
    indexer.on_receipt(&r, &transaction()).unwrap();
    assert!(indexer.0.text_events.is_empty());
    assert!(indexer.0.nep297_events.is_empty());
}

#[test]
fn one_text_event_per_log_line_in_original_order() {
    let mut indexer = LogIndexer(CollectingHandler::new());
    let r = receipt(
        100,
        "a.near",
        "b.near",
        vec!["first", "second", "third"],
        ExecutionStatus::Success,
    );
    indexer.on_receipt(&r, &transaction()).unwrap();
    let texts: Vec<String> =
        indexer.0.text_events.iter().map(|event| event.log_text.clone()).collect();
    assert_eq!(texts, vec!["first".to_string(), "second".to_string(), "third".to_string()]);
}

#[test]
fn sibling_events_carry_identical_envelopes() {
    let mut indexer = LogIndexer(CollectingHandler::new());
    let line = "EVENT_JSON:{\"standard\":\"nep141\",\"version\":\"1.0.0\",\"event\":\"ft_transfer\"}";
    let r = receipt(4242, "token.near", "caller.near", vec![line], ExecutionStatus::Success);
    indexer.on_receipt(&r, &transaction()).unwrap();
    assert_eq!(indexer.0.text_events.len(), 1);
    assert_eq!(indexer.0.nep297_events.len(), 1);
    let te = &indexer.0.text_events[0];
    let se = &indexer.0.nep297_events[0];
    assert_eq!(te.block_height, se.block_height);
    assert_eq!(te.block_timestamp_nanosec, se.block_timestamp_nanosec);
    assert_eq!(te.transaction_id, se.transaction_id);
    assert_eq!(te.receipt_id, se.receipt_id);
    assert_eq!(te.account_id, se.account_id);
    assert_eq!(te.predecessor_id, se.predecessor_id);
    assert!(se.event_data.is_none());
}

#[test]
fn classifier_rejects_lines_without_required_fields() {
    assert!(parse_event_log("no marker at all").is_none());
    assert!(parse_event_log("EVENT_JSON:").is_none());
    assert!(parse_event_log("EVENT_JSON:{not json").is_none());
    assert!(parse_event_log("EVENT_JSON:[1,2,3]").is_none());
    assert!(
        parse_event_log("EVENT_JSON:{\"standard\":\"nep171\",\"version\":\"1.0.0\"}").is_none()
    );
    assert!(parse_event_log(
        "EVENT_JSON:{\"standard\":7,\"version\":\"1.0.0\",\"event\":\"nft_mint\"}"
    )
    .is_none());
    assert!(parse_event_log("event_json:{\"standard\":\"s\",\"version\":\"v\",\"event\":\"e\"}")
        .is_none());
}

#[test]
fn classifier_accepts_minimal_event_without_data() {
    let parsed =
        parse_event_log("EVENT_JSON:{\"standard\":\"s\",\"version\":\"v\",\"event\":\"e\"}")
            .unwrap();
    assert_eq!(parsed.standard, "s");
    assert_eq!(parsed.version, "v");
    assert_eq!(parsed.event, "e");
    assert!(parsed.data.is_none());
}

#[test]
fn receipt_with_no_logs_contributes_nothing() {
    let mut indexer = LogIndexer(CollectingHandler::new());
    let r = receipt(100, "a.near", "b.near", vec![], ExecutionStatus::Success);
    indexer.on_receipt(&r, &transaction()).unwrap();
    assert!(indexer.0.text_events.is_empty());
    assert!(indexer.0.nep297_events.is_empty());
}

#[test]
fn envelope_is_populated_from_receipt_and_transaction() {
    let mut indexer = LogIndexer(CollectingHandler::new());
    let mut r = receipt(555, "receiver.near", "caller.near", vec!["hello"], ExecutionStatus::Success);
    r.block_timestamp_nanosec = 123456789u128;
    r.receipt_id = CryptoHash([9u8; 32]);
    let tx = IncompleteTransaction { transaction_hash: CryptoHash([4u8; 32]) };
    indexer.on_receipt(&r, &tx).unwrap();
    let e = &indexer.0.text_events[0];
    assert_eq!(e.block_height, 555);
    assert_eq!(e.block_timestamp_nanosec, 123456789u128);
    assert_eq!(e.transaction_id, CryptoHash([4u8; 32]));
    assert_eq!(e.receipt_id, CryptoHash([9u8; 32]));
    assert_eq!(e.account_id, "receiver.near");
    assert_eq!(e.predecessor_id, "caller.near");
    assert_eq!(e.log_text, "hello");
}

#[test]
fn process_block_flushes_exactly_once_after_all_receipts() {
    let mut indexer = LogIndexer(CollectingHandler::new());
    let receipts = vec![
        (receipt(9000, "a.near", "b.near", vec!["one"], ExecutionStatus::Success), transaction()),
        (receipt(9000, "c.near", "d.near", vec!["two"], ExecutionStatus::Success), transaction()),
    ];
    indexer.process_block(&receipts, 9000).unwrap();
    assert_eq!(indexer.0.flushes, vec![9000]);
    assert_eq!(indexer.0.text_events.len(), 2);
    assert_eq!(indexer.0.text_events[0].log_text, "one");
    assert_eq!(indexer.0.text_events[1].log_text, "two");
}
