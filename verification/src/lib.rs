//! Extraction, classification and publication of blockchain log events.
//!
//! Every log line of a successfully executed receipt yields one text event;
//! a line that carries the structured-event encoding additionally yields one
//! structured event with the same envelope. Events are buffered per block and
//! flushed at the block boundary to size-bounded streams.

pub mod events;
pub mod nep297;
pub mod collector;
pub mod receipt;
pub mod redis_handler;
pub mod stream;

use vstd::prelude::*;

use crate::events::Envelope;
use crate::events::LogNep297Event;
use crate::events::LogTextEvent;
use crate::events::Nep297EventModel;
use crate::events::TextEventModel;
use crate::nep297::classify_line;
use crate::nep297::parse_event_log;
use crate::nep297::Nep297Fields;
use crate::receipt::IncompleteTransaction;
use crate::receipt::TransactionReceipt;

verus! {

/// The envelope every event of a given receipt carries: block position,
/// transaction and receipt hashes, the emitting account and its caller.
pub open spec fn receipt_envelope(
    receipt: TransactionReceipt,
    transaction: IncompleteTransaction,
) -> Envelope {
    Envelope {
        block_height: receipt.block_height,
        block_timestamp_nanosec: receipt.block_timestamp_nanosec,
        transaction_id: transaction.transaction_hash.0@,
        receipt_id: receipt.receipt_id.0@,
        account_id: receipt.receiver_id@,
        predecessor_id: receipt.predecessor_id@,
    }
}

/// The log lines of a receipt, as character sequences, in their original order.
pub open spec fn log_views(logs: Seq<String>) -> Seq<Seq<char>> {
    logs.map_values(|l: String| l@)
}

/// The text events a receipt contributes: one per log line, in original
/// order, for an eligible receipt; none for an ineligible one.
pub open spec fn text_events_of(
    receipt: TransactionReceipt,
    transaction: IncompleteTransaction,
) -> Seq<TextEventModel> {
    if receipt.is_successful_spec() {
        Seq::new(
            receipt.logs@.len(),
            |i: int|
                TextEventModel {
                    env: receipt_envelope(receipt, transaction),
                    log_text: receipt.logs@[i]@,
                },
        )
    } else {
        Seq::empty()
    }
}

/// The structured event built from one classified log line.
pub open spec fn nep297_model(env: Envelope, fields: Nep297Fields) -> Nep297EventModel {
    Nep297EventModel {
        env,
        standard: fields.standard,
        version: fields.version,
        event: fields.event,
        has_data: fields.has_data,
    }
}

/// The structured events a sequence of log lines contributes under a fixed
/// envelope: one per line the classifier accepts, in original line order.
pub open spec fn nep297_events_of_logs(env: Envelope, logs: Seq<Seq<char>>) -> Seq<
    Nep297EventModel,
>
    decreases logs.len(),
{
    if logs.len() == 0 {
        Seq::empty()
    } else {
        nep297_events_of_logs(env, logs.drop_last()) + (match classify_line(logs.last()) {
            Some(fields) => seq![nep297_model(env, fields)],
            None => Seq::empty(),
        })
    }
}

/// The structured events a receipt contributes: those of its log lines if it
/// is eligible, none otherwise.
pub open spec fn nep297_events_of(
    receipt: TransactionReceipt,
    transaction: IncompleteTransaction,
) -> Seq<Nep297EventModel> {
    if receipt.is_successful_spec() {
        nep297_events_of_logs(receipt_envelope(receipt, transaction), log_views(receipt.logs@))
    } else {
        Seq::empty()
    }
}

/// What to do with a produced event: buffer it, collect it, or hand it to a
/// stream. A handler exposes the events it has received so far in order, and
/// the block heights it has been asked to flush, so the pipeline's contract
/// can say exactly what each call adds.
pub trait LogEventHandler: Sized {
    /// All text events received so far, oldest first.
    spec fn texts(&self) -> Seq<TextEventModel>;

    /// All structured events received so far, oldest first.
    spec fn nep297s(&self) -> Seq<Nep297EventModel>;

    /// The block heights flushed so far, oldest first.
    spec fn flushed(&self) -> Seq<u64>;

    /// Receive one text event.
    fn handle_text(&mut self, event: LogTextEvent)
        ensures
            final(self).texts() == old(self).texts().push(event@),
            final(self).nep297s() == old(self).nep297s(),
            final(self).flushed() == old(self).flushed(),
    ;

    /// Receive one structured event.
    fn handle_nep297(&mut self, event: LogNep297Event)
        ensures
            final(self).texts() == old(self).texts(),
            final(self).nep297s() == old(self).nep297s().push(event@),
            final(self).flushed() == old(self).flushed(),
    ;

    /// Flush everything gathered for the block at the given height.
    fn flush_events(&mut self, block_height: u64)
        ensures
            final(self).texts() == old(self).texts(),
            final(self).nep297s() == old(self).nep297s(),
            final(self).flushed() == old(self).flushed().push(block_height),
    ;
}

/// The pipeline: extraction and classification in front of a handler.
pub struct LogIndexer<T: LogEventHandler>(pub T);

impl<T: LogEventHandler> LogIndexer<T> {
    /// Process one receipt: an ineligible receipt contributes nothing; an
    /// eligible one contributes one text event per log line, in original
    /// order, and one structured event for each line the classifier accepts,
    /// interleaved in that same order. Never fails and never flushes.
    pub fn on_receipt(
        &mut self,
        receipt: &TransactionReceipt,
        transaction: &IncompleteTransaction,
    ) -> (r: Result<(), String>)
        ensures
            r is Ok,
            final(self).0.texts() == old(self).0.texts() + text_events_of(
                *receipt,
                *transaction,
            ),
            final(self).0.nep297s() == old(self).0.nep297s() + nep297_events_of(
                *receipt,
                *transaction,
            ),
            final(self).0.flushed() == old(self).0.flushed(),
    {
        if !receipt.is_successful() {
            proof {
                assert(self.0.texts() =~= self.0.texts() + text_events_of(
                    *receipt,
                    *transaction,
                ));
                assert(self.0.nep297s() =~= self.0.nep297s() + nep297_events_of(
                    *receipt,
                    *transaction,
                ));
            }
            return Ok(());
        }
        let ghost env = receipt_envelope(*receipt, *transaction);
        let ghost tmods = text_events_of(*receipt, *transaction);
        let ghost lviews = log_views(receipt.logs@);
        let n = receipt.logs.len();
        let mut i: usize = 0;
        while i < n
            invariant
                i <= n,
                n == receipt.logs@.len(),
                receipt.is_successful_spec(),
                env == receipt_envelope(*receipt, *transaction),
                tmods == text_events_of(*receipt, *transaction),
                lviews == log_views(receipt.logs@),
                self.0.texts() == old(self).0.texts() + tmods.take(i as int),
                self.0.nep297s() == old(self).0.nep297s() + nep297_events_of_logs(
                    env,
                    lviews.take(i as int),
                ),
                self.0.flushed() == old(self).0.flushed(),
            decreases n - i,
        {
            let log: &String = &receipt.logs[i];
            let text_event = LogTextEvent {
                block_height: receipt.block_height,
                block_timestamp_nanosec: receipt.block_timestamp_nanosec,
                transaction_id: transaction.transaction_hash,
                receipt_id: receipt.receipt_id,
                account_id: receipt.receiver_id.clone(),
                predecessor_id: receipt.predecessor_id.clone(),
                log_text: log.clone(),
            };
            proof {
                assert(text_event@ == tmods[i as int]);
                assert(tmods.take(i + 1) =~= tmods.take(i as int).push(tmods[i as int]));
                assert((old(self).0.texts() + tmods.take(i as int)).push(tmods[i as int]) =~= old(
                    self,
                ).0.texts() + tmods.take(i + 1));
            }
            self.0.handle_text(text_event);
            let ghost neps_before = nep297_events_of_logs(env, lviews.take(i as int));
            proof {
                assert(lviews.take(i + 1).drop_last() =~= lviews.take(i as int));
                assert(lviews.take(i + 1).last() == lviews[i as int]);
                assert(lviews[i as int] == receipt.logs@[i as int]@);
            }
            match parse_event_log(log.as_str()) {
                Some(parsed) => {
                    let nep_event = LogNep297Event {
                        block_height: receipt.block_height,
                        block_timestamp_nanosec: receipt.block_timestamp_nanosec,
                        transaction_id: transaction.transaction_hash,
                        receipt_id: receipt.receipt_id,
                        account_id: receipt.receiver_id.clone(),
                        predecessor_id: receipt.predecessor_id.clone(),
                        event_standard: parsed.standard,
                        event_version: parsed.version,
                        event_event: parsed.event,
                        event_data: parsed.data,
                    };
                    proof {
                        let fields = classify_line(lviews[i as int])->Some_0;
                        assert(nep_event@ == nep297_model(env, fields));
                        assert(nep297_events_of_logs(env, lviews.take(i + 1)) == neps_before
                            + seq![nep297_model(env, fields)]);
                        assert((old(self).0.nep297s() + neps_before).push(
                            nep297_model(env, fields),
                        ) =~= old(self).0.nep297s() + nep297_events_of_logs(
                            env,
                            lviews.take(i + 1),
                        ));
                    }
                    self.0.handle_nep297(nep_event);
                },
                None => {
                    proof {
                        assert(nep297_events_of_logs(env, lviews.take(i + 1)) =~= neps_before);
                    }
                },
            }
            i += 1;
        }
        proof {
            assert(tmods.take(n as int) =~= tmods);
            assert(lviews.take(n as int) =~= lviews);
            assert(nep297_events_of(*receipt, *transaction) == nep297_events_of_logs(env, lviews));
        }
        Ok(())
    }

    /// End the current block: flush once, with the block's height as the
    /// sequencing key. Never fails and adds no event.
    pub fn process_block_end(&mut self, block_height: u64) -> (r: Result<(), String>)
        ensures
            r is Ok,
            final(self).0.texts() == old(self).0.texts(),
            final(self).0.nep297s() == old(self).0.nep297s(),
            final(self).0.flushed() == old(self).0.flushed().push(block_height),
    {
        self.0.flush_events(block_height);
        Ok(())
    }

    /// Process one whole block: every receipt in order, then exactly one
    /// flush, keyed by this block's height, after all of them. The handler
    /// receives exactly this block's events between the two flush marks, so
    /// a flush carries only events gathered during its own block.
    pub fn process_block(
        &mut self,
        receipts: &Vec<(TransactionReceipt, IncompleteTransaction)>,
        block_height: u64,
    ) -> (r: Result<(), String>)
        ensures
            r is Ok,
            final(self).0.texts() == old(self).0.texts() + block_text_events(receipts@),
            final(self).0.nep297s() == old(self).0.nep297s() + block_nep297_events(receipts@),
            final(self).0.flushed() == old(self).0.flushed().push(block_height),
    {
        let n = receipts.len();
        let mut i: usize = 0;
        while i < n
            invariant
                i <= n,
                n == receipts@.len(),
                self.0.texts() == old(self).0.texts() + block_text_events(
                    receipts@.take(i as int),
                ),
                self.0.nep297s() == old(self).0.nep297s() + block_nep297_events(
                    receipts@.take(i as int),
                ),
                self.0.flushed() == old(self).0.flushed(),
            decreases n - i,
        {
            let entry = &receipts[i];
            proof {
                assert(receipts@.take(i + 1).drop_last() =~= receipts@.take(i as int));
                assert(receipts@.take(i + 1).last() == receipts@[i as int]);
            }
            let ghost texts_before = self.0.texts();
            let ghost neps_before = self.0.nep297s();
            self.on_receipt(&entry.0, &entry.1)?;
            proof {
                assert(self.0.texts() =~= old(self).0.texts() + block_text_events(
                    receipts@.take(i + 1),
                ));
                assert(self.0.nep297s() =~= old(self).0.nep297s() + block_nep297_events(
                    receipts@.take(i + 1),
                ));
            }
            i += 1;
        }
        proof {
            assert(receipts@.take(n as int) =~= receipts@);
        }
        self.process_block_end(block_height)
    }
}

/// The text events a whole block contributes: its receipts' contributions,
/// in receipt order.
pub open spec fn block_text_events(
    receipts: Seq<(TransactionReceipt, IncompleteTransaction)>,
) -> Seq<TextEventModel>
    decreases receipts.len(),
{
    if receipts.len() == 0 {
        Seq::empty()
    } else {
        block_text_events(receipts.drop_last()) + text_events_of(
            receipts.last().0,
            receipts.last().1,
        )
    }
}

/// The structured events a whole block contributes, in receipt order.
pub open spec fn block_nep297_events(
    receipts: Seq<(TransactionReceipt, IncompleteTransaction)>,
) -> Seq<Nep297EventModel>
    decreases receipts.len(),
{
    if receipts.len() == 0 {
        Seq::empty()
    } else {
        block_nep297_events(receipts.drop_last()) + nep297_events_of(
            receipts.last().0,
            receipts.last().1,
        )
    }
}

/// An eligible receipt with N log lines contributes exactly N text events, in
/// original line order, each carrying its line verbatim and the receipt's
/// envelope.
pub proof fn lemma_text_events_one_per_log(
    receipt: TransactionReceipt,
    transaction: IncompleteTransaction,
)
    requires
        receipt.is_successful_spec(),
    ensures
        text_events_of(receipt, transaction).len() == receipt.logs@.len(),
        forall|i: int|
            0 <= i < receipt.logs@.len() ==> #[trigger] text_events_of(receipt, transaction)[i]
                == (TextEventModel {
                env: receipt_envelope(receipt, transaction),
                log_text: receipt.logs@[i]@,
            }),
{
}

/// The number of log lines the classifier accepts.
pub open spec fn count_matching(logs: Seq<Seq<char>>) -> nat
    decreases logs.len(),
{
    if logs.len() == 0 {
        0
    } else {
        count_matching(logs.drop_last()) + (if classify_line(logs.last()) is Some {
            1nat
        } else {
            0nat
        })
    }
}

/// A structured event is produced for a log line iff the line matches the
/// structured-event encoding: one event per accepted line, and every produced
/// event is the reading of some accepted line under the given envelope.
pub proof fn lemma_nep297_events_iff_classified(env: Envelope, logs: Seq<Seq<char>>)
    ensures
        nep297_events_of_logs(env, logs).len() == count_matching(logs),
        forall|i: int|
            0 <= i < logs.len() && #[trigger] classify_line(logs[i]) is Some
                ==> nep297_events_of_logs(env, logs).contains(
                nep297_model(env, classify_line(logs[i])->Some_0),
            ),
        forall|j: int|
            0 <= j < nep297_events_of_logs(env, logs).len()
                ==> exists|i: int|
                0 <= i < logs.len() && classify_line(logs[i]) is Some
                    && #[trigger] nep297_events_of_logs(env, logs)[j] == nep297_model(
                    env,
                    classify_line(logs[i])->Some_0,
                ),
    decreases logs.len(),
{
    if logs.len() == 0 {
    } else {
        let pre = logs.drop_last();
        lemma_nep297_events_iff_classified(env, pre);
        let evs = nep297_events_of_logs(env, logs);
        let pevs = nep297_events_of_logs(env, pre);
        assert forall|i: int|
            0 <= i < logs.len() && #[trigger] classify_line(logs[i]) is Some implies evs.contains(
            nep297_model(env, classify_line(logs[i])->Some_0),
        ) by {
            let m = nep297_model(env, classify_line(logs[i])->Some_0);
            if i < logs.len() - 1 {
                assert(pre[i] == logs[i]);
                assert(pevs.contains(m));
                let k = choose|k: int| 0 <= k < pevs.len() && pevs[k] == m;
                assert(evs[k] == m);
            } else {
                assert(logs.last() == logs[i]);
                assert(evs[pevs.len() as int] == m);
            }
        }
        assert forall|j: int| 0 <= j < evs.len() implies exists|i: int|
            0 <= i < logs.len() && classify_line(logs[i]) is Some && #[trigger] evs[j]
                == nep297_model(env, classify_line(logs[i])->Some_0) by {
            if j < pevs.len() {
                assert(evs[j] == pevs[j]);
                let i = choose|i: int|
                    0 <= i < pre.len() && classify_line(pre[i]) is Some && #[trigger] pevs[j]
                        == nep297_model(env, classify_line(pre[i])->Some_0);
                assert(logs[i] == pre[i]);
                assert(0 <= i < logs.len() && classify_line(logs[i]) is Some && evs[j]
                    == nep297_model(env, classify_line(logs[i])->Some_0));
            } else {
                let i = logs.len() - 1;
                assert(classify_line(logs[i]) is Some);
                assert(evs[j] == nep297_model(env, classify_line(logs[i])->Some_0));
            }
        }
    }
}

/// Every structured event of a line sequence carries the given envelope.
proof fn lemma_nep297_events_envelope(env: Envelope, logs: Seq<Seq<char>>)
    ensures
        forall|j: int|
            0 <= j < nep297_events_of_logs(env, logs).len()
                ==> #[trigger] nep297_events_of_logs(env, logs)[j].env == env,
    decreases logs.len(),
{
    if logs.len() == 0 {
    } else {
        lemma_nep297_events_envelope(env, logs.drop_last());
        let evs = nep297_events_of_logs(env, logs);
        let pevs = nep297_events_of_logs(env, logs.drop_last());
        assert forall|j: int| 0 <= j < evs.len() implies #[trigger] evs[j].env == env by {
            if j < pevs.len() {
                assert(evs[j] == pevs[j]);
            } else {
                assert(classify_line(logs.last()) is Some);
                assert(evs[j] == nep297_model(env, classify_line(logs.last())->Some_0));
            }
        }
    }
}

/// Every event a receipt contributes, text or structured, carries the
/// receipt's envelope: the two records derived from one log line have
/// identical envelope fields.
pub proof fn lemma_sibling_envelopes_identical(
    receipt: TransactionReceipt,
    transaction: IncompleteTransaction,
)
    ensures
        forall|i: int|
            0 <= i < text_events_of(receipt, transaction).len()
                ==> #[trigger] text_events_of(receipt, transaction)[i].env == receipt_envelope(
                receipt,
                transaction,
            ),
        forall|j: int|
            0 <= j < nep297_events_of(receipt, transaction).len()
                ==> #[trigger] nep297_events_of(receipt, transaction)[j].env == receipt_envelope(
                receipt,
                transaction,
            ),
{
    lemma_nep297_events_envelope(
        receipt_envelope(receipt, transaction),
        log_views(receipt.logs@),
    );
}

/// A receipt whose execution did not succeed contributes no event of either
/// kind.
pub proof fn lemma_failed_receipt_contributes_nothing(
    receipt: TransactionReceipt,
    transaction: IncompleteTransaction,
)
    requires
        !receipt.is_successful_spec(),
    ensures
        text_events_of(receipt, transaction) == Seq::<TextEventModel>::empty(),
        nep297_events_of(receipt, transaction) == Seq::<Nep297EventModel>::empty(),
{
}

} // verus!
