use log_indexer::events::CryptoHash;
use log_indexer::events::LogTextEvent;
use log_indexer::receipt::ExecutionStatus;
use log_indexer::receipt::IncompleteTransaction;
use log_indexer::receipt::TransactionReceipt;
use log_indexer::redis_handler::PushToRedisStream;
use log_indexer::stream::BoundedStream;
use log_indexer::LogEventHandler;
use log_indexer::LogIndexer;

fn text_event(block_height: u64, log_text: &str) -> LogTextEvent {
    LogTextEvent {
        block_height,
        block_timestamp_nanosec: 1u128,
        transaction_id: CryptoHash([1u8; 32]),
        receipt_id: CryptoHash([2u8; 32]),
        account_id: "a.near".to_string(),
        predecessor_id: "b.near".to_string(),
        log_text: log_text.to_string(),
    }
}

#[test]
fn flush_batch_holds_exactly_the_blocks_own_events() {
    let mut handler = PushToRedisStream::new(10_000, false);
    handler.handle_text(text_event(70, "from block seventy"));
    handler.flush_events(70);
    handler.handle_text(text_event(71, "from block seventy one"));
    handler.flush_events(71);

    let batches = handler.take_pending();
    assert_eq!(batches.len(), 2);
    assert_eq!(batches[0].block_height, 70);
    assert_eq!(batches[0].text_events.len(), 1);
    assert_eq!(batches[0].text_events[0].log_text, "from block seventy");
    assert!(batches[0].nep297_events.is_empty());
    assert_eq!(batches[1].block_height, 71);
    assert_eq!(batches[1].text_events.len(), 1);
    assert_eq!(batches[1].text_events[0].log_text, "from block seventy one");

    let later = handler.take_pending();
    assert!(later.is_empty());
}

#[test]
fn empty_flush_still_produces_a_batch() {
    let mut handler = PushToRedisStream::new(100, false);
    handler.flush_events(42);
    let batches = handler.take_pending();
    assert_eq!(batches.len(), 1);
    assert_eq!(batches[0].block_height, 42);
    assert!(batches[0].text_events.is_empty());
    assert!(batches[0].nep297_events.is_empty());
}

#[test]
fn stream_keys_carry_the_network_qualifier() {
    let mainnet = PushToRedisStream::new(1, false);
    assert_eq!(mainnet.text_stream_key(), "log_text");
    assert_eq!(mainnet.nep297_stream_key(), "log_nep297");
    assert_eq!(mainnet.max_stream_size(), 1);
    let testnet = PushToRedisStream::new(5, true);
    assert_eq!(testnet.text_stream_key(), "log_text_testnet");
    assert_eq!(testnet.nep297_stream_key(), "log_nep297_testnet");
    assert_eq!(testnet.max_stream_size(), 5);
}

#[test]
fn pipeline_with_publisher_buffers_and_flushes_per_block() {
    let mut indexer = LogIndexer(PushToRedisStream::new(10_000, false));
    let r = TransactionReceipt {
        block_height: 800,
        block_timestamp_nanosec: 9u128,
        receipt_id: CryptoHash([8u8; 32]),
        receiver_id: "sbt.honeybot.near".to_string(),
        predecessor_id: "honeybot.near".to_string(),
        logs: vec![
            "EVENT_JSON:{\"standard\":\"nep171\",\"version\":\"1.2.0\",\"event\":\"nft_mint\"}"
                .to_string(),
        ],
        status: ExecutionStatus::Success,
    };
    let tx = IncompleteTransaction { transaction_hash: CryptoHash([1u8; 32]) };
    indexer.on_receipt(&r, &tx).unwrap();
    indexer.process_block_end(800).unwrap();
    let batches = indexer.0.take_pending();
    assert_eq!(batches.len(), 1);
    assert_eq!(batches[0].block_height, 800);
    assert_eq!(batches[0].text_events.len(), 1);
    assert_eq!(batches[0].nep297_events.len(), 1);
    assert_eq!(batches[0].nep297_events[0].event_standard, "nep171");
    assert_eq!(batches[0].nep297_events[0].event_version, "1.2.0");
    assert_eq!(batches[0].nep297_events[0].event_event, "nft_mint");
}

#[test]
fn bounded_stream_keeps_at_most_the_configured_maximum_newest_first_out() {
    let mut stream: BoundedStream<LogTextEvent> = BoundedStream::new();
    for height in 0..5u64 {
        let batch = vec![
            text_event(height, &format!("{} a", height)),
            text_event(height, &format!("{} b", height)),
        ];
        stream.flush_batch(height, batch, 4);
        assert!(stream.len() <= 4);
    }
    assert_eq!(stream.len(), 4);
    let entries = stream.entries();
    assert_eq!(entries[0].key, 3);
    assert_eq!(entries[0].value.log_text, "3 a");
    assert_eq!(entries[1].value.log_text, "3 b");
    assert_eq!(entries[2].key, 4);
    assert_eq!(entries[2].value.log_text, "4 a");
    assert_eq!(entries[3].value.log_text, "4 b");
}

#[test]
fn bounded_stream_trim_evicts_oldest_entries_only() {
    let mut stream: BoundedStream<LogTextEvent> = BoundedStream::new();
    stream.append(1, text_event(1, "oldest"));
    stream.append(2, text_event(2, "middle"));
    stream.append(3, text_event(3, "newest"));
    stream.trim(2);
    let entries = stream.entries();
    assert_eq!(entries.len(), 2);
    assert_eq!(entries[0].value.log_text, "middle");
    assert_eq!(entries[1].value.log_text, "newest");
    stream.trim(10);
    assert_eq!(stream.len(), 2);
}
