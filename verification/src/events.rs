//! The event records the pipeline produces, and their mathematical models.

use vstd::prelude::*;

verus! {

/// A fixed-size hash identifying a transaction or a receipt on chain.
#[derive(Clone, Copy, PartialEq, Eq, Debug)]
pub struct CryptoHash(pub [u8; 32]);

/// The provenance fields shared by every event record, at the spec level.
pub struct Envelope {
    pub block_height: u64,
    pub block_timestamp_nanosec: u128,
    pub transaction_id: Seq<u8>,
    pub receipt_id: Seq<u8>,
    pub account_id: Seq<char>,
    pub predecessor_id: Seq<char>,
}

/// One event per raw log line of an eligible receipt, carrying the line verbatim.
pub struct LogTextEvent {
    pub block_height: u64,
    pub block_timestamp_nanosec: u128,
    pub transaction_id: CryptoHash,
    pub receipt_id: CryptoHash,
    pub account_id: String,
    pub predecessor_id: String,
    pub log_text: String,
}

/// The model of a [`LogTextEvent`]: its envelope and the log line.
pub struct TextEventModel {
    pub env: Envelope,
    pub log_text: Seq<char>,
}

impl View for LogTextEvent {
    type V = TextEventModel;

    open spec fn view(&self) -> TextEventModel {
        TextEventModel {
            env: Envelope {
                block_height: self.block_height,
                block_timestamp_nanosec: self.block_timestamp_nanosec,
                transaction_id: self.transaction_id.0@,
                receipt_id: self.receipt_id.0@,
                account_id: self.account_id@,
                predecessor_id: self.predecessor_id@,
            },
            log_text: self.log_text@,
        }
    }
}

impl DeepView for LogTextEvent {
    type V = TextEventModel;

    open spec fn deep_view(&self) -> TextEventModel {
        self.view()
    }
}

/// One additional event for each log line that carries the structured-event
/// encoding, with the same envelope as its sibling text event.
pub struct LogNep297Event {
    pub block_height: u64,
    pub block_timestamp_nanosec: u128,
    pub transaction_id: CryptoHash,
    pub receipt_id: CryptoHash,
    pub account_id: String,
    pub predecessor_id: String,
    pub event_standard: String,
    pub event_version: String,
    pub event_event: String,
    pub event_data: Option<serde_json::Value>,
}

/// The model of a [`LogNep297Event`]: its envelope, the three required
/// fields, and whether a data payload is present.
pub struct Nep297EventModel {
    pub env: Envelope,
    pub standard: Seq<char>,
    pub version: Seq<char>,
    pub event: Seq<char>,
    pub has_data: bool,
}

impl View for LogNep297Event {
    type V = Nep297EventModel;

    open spec fn view(&self) -> Nep297EventModel {
        Nep297EventModel {
            env: Envelope {
                block_height: self.block_height,
                block_timestamp_nanosec: self.block_timestamp_nanosec,
                transaction_id: self.transaction_id.0@,
                receipt_id: self.receipt_id.0@,
                account_id: self.account_id@,
                predecessor_id: self.predecessor_id@,
            },
            standard: self.event_standard@,
            version: self.event_version@,
            event: self.event_event@,
            has_data: self.event_data is Some,
        }
    }
}

impl DeepView for LogNep297Event {
    type V = Nep297EventModel;

    open spec fn deep_view(&self) -> Nep297EventModel {
        self.view()
    }
}

} // verus!
