//! The stream publisher: gathers the events of the block being processed and
//! turns each block boundary into one pending flush batch per block, which
//! the transport behind it appends to the bounded streams.

use vstd::prelude::*;

use crate::events::LogNep297Event;
use crate::events::LogTextEvent;
use crate::events::Nep297EventModel;
use crate::events::TextEventModel;
use crate::LogEventHandler;

verus! {

/// Everything gathered for one block, keyed by its height.
pub struct FlushBatch {
    pub block_height: u64,
    pub text_events: Vec<LogTextEvent>,
    pub nep297_events: Vec<LogNep297Event>,
}

/// The model of a [`FlushBatch`].
pub struct FlushBatchModel {
    pub block_height: u64,
    pub texts: Seq<TextEventModel>,
    pub nep297s: Seq<Nep297EventModel>,
}

impl View for FlushBatch {
    type V = FlushBatchModel;

    open spec fn view(&self) -> FlushBatchModel {
        FlushBatchModel {
            block_height: self.block_height,
            texts: self.text_events.deep_view(),
            nep297s: self.nep297_events.deep_view(),
        }
    }
}

impl DeepView for FlushBatch {
    type V = FlushBatchModel;

    open spec fn deep_view(&self) -> FlushBatchModel {
        self.view()
    }
}

/// The name of the text event stream, with the network qualifier suffix.
pub open spec fn text_stream_key_spec(testnet: bool) -> Seq<char> {
    if testnet {
        "log_text_testnet"@
    } else {
        "log_text"@
    }
}

/// The name of the structured event stream, with the network qualifier suffix.
pub open spec fn nep297_stream_key_spec(testnet: bool) -> Seq<char> {
    if testnet {
        "log_nep297_testnet"@
    } else {
        "log_nep297"@
    }
}

/// A handler that publishes to two bounded streams. It owns the per-block
/// buffers and the flush decisions; the transport that physically appends and
/// trims drains [`Self::take_pending`] after each flush and fails the run if
/// an append is rejected.
pub struct PushToRedisStream {
    text_buffer: Vec<LogTextEvent>,
    nep297_buffer: Vec<LogNep297Event>,
    pending: Vec<FlushBatch>,
    max_stream_size: usize,
    testnet: bool,
    past_texts: Ghost<Seq<TextEventModel>>,
    past_nep297s: Ghost<Seq<Nep297EventModel>>,
    past_heights: Ghost<Seq<u64>>,
}

impl PushToRedisStream {
    /// The text events gathered for the block being processed, oldest first.
    pub closed spec fn buffered_texts(&self) -> Seq<TextEventModel> {
        self.text_buffer.deep_view()
    }

    /// The structured events gathered for the block being processed.
    pub closed spec fn buffered_nep297s(&self) -> Seq<Nep297EventModel> {
        self.nep297_buffer.deep_view()
    }

    /// The flush batches not yet handed to the transport, oldest first.
    pub closed spec fn pending_batches(&self) -> Seq<FlushBatchModel> {
        self.pending.deep_view()
    }

    /// The configured bound on each stream's entry count.
    pub closed spec fn max_size_spec(&self) -> usize {
        self.max_stream_size
    }

    /// Whether the streams carry the network qualifier suffix.
    pub closed spec fn testnet_spec(&self) -> bool {
        self.testnet
    }

    /// A fresh publisher: nothing gathered, nothing pending, nothing flushed.
    pub fn new(max_stream_size: usize, testnet: bool) -> (r: Self)
        ensures
            r.buffered_texts() == Seq::<TextEventModel>::empty(),
            r.buffered_nep297s() == Seq::<Nep297EventModel>::empty(),
            r.pending_batches() == Seq::<FlushBatchModel>::empty(),
            r.texts() == Seq::<TextEventModel>::empty(),
            r.nep297s() == Seq::<Nep297EventModel>::empty(),
            r.flushed() == Seq::<u64>::empty(),
            r.max_size_spec() == max_stream_size,
            r.testnet_spec() == testnet,
    {
        let r = PushToRedisStream {
            text_buffer: Vec::new(),
            nep297_buffer: Vec::new(),
            pending: Vec::new(),
            max_stream_size,
            testnet,
            past_texts: Ghost(Seq::empty()),
            past_nep297s: Ghost(Seq::empty()),
            past_heights: Ghost(Seq::empty()),
        };
        proof {
            assert(r.buffered_texts() =~= Seq::<TextEventModel>::empty());
            assert(r.buffered_nep297s() =~= Seq::<Nep297EventModel>::empty());
            assert(r.pending_batches() =~= Seq::<FlushBatchModel>::empty());
            assert(r.texts() =~= Seq::<TextEventModel>::empty());
            assert(r.nep297s() =~= Seq::<Nep297EventModel>::empty());
        }
        r
    }

    /// The configured bound, for the transport's trim operation.
    pub fn max_stream_size(&self) -> (r: usize)
        ensures
            r == self.max_size_spec(),
    {
        self.max_stream_size
    }

    /// The name of the text event stream.
    pub fn text_stream_key(&self) -> (r: &'static str)
        ensures
            r@ == text_stream_key_spec(self.testnet_spec()),
    {
        if self.testnet {
            "log_text_testnet"
        } else {
            "log_text"
        }
    }

    /// The name of the structured event stream.
    pub fn nep297_stream_key(&self) -> (r: &'static str)
        ensures
            r@ == nep297_stream_key_spec(self.testnet_spec()),
    {
        if self.testnet {
            "log_nep297_testnet"
        } else {
            "log_nep297"
        }
    }

    /// Hand the pending flush batches to the transport, oldest first, leaving
    /// none behind. Everything else, the received history included, stays.
    pub fn take_pending(&mut self) -> (batches: Vec<FlushBatch>)
        ensures
            batches.deep_view() == old(self).pending_batches(),
            final(self).pending_batches() == Seq::<FlushBatchModel>::empty(),
            final(self).buffered_texts() == old(self).buffered_texts(),
            final(self).buffered_nep297s() == old(self).buffered_nep297s(),
            final(self).texts() == old(self).texts(),
            final(self).nep297s() == old(self).nep297s(),
            final(self).flushed() == old(self).flushed(),
            final(self).max_size_spec() == old(self).max_size_spec(),
            final(self).testnet_spec() == old(self).testnet_spec(),
    {
        let batches = self.pending.split_off(0);
        proof {
            assert(batches.deep_view() =~= old(self).pending_batches());
            assert(self.pending_batches() =~= Seq::<FlushBatchModel>::empty());
        }
        batches
    }
}

impl LogEventHandler for PushToRedisStream {
    /// Everything received: what earlier flushes moved out, then the buffer.
    closed spec fn texts(&self) -> Seq<TextEventModel> {
        self.past_texts@ + self.text_buffer.deep_view()
    }

    closed spec fn nep297s(&self) -> Seq<Nep297EventModel> {
        self.past_nep297s@ + self.nep297_buffer.deep_view()
    }

    closed spec fn flushed(&self) -> Seq<u64> {
        self.past_heights@
    }

    fn handle_text(&mut self, event: LogTextEvent)
        ensures
            final(self).buffered_texts() == old(self).buffered_texts().push(event@),
            final(self).buffered_nep297s() == old(self).buffered_nep297s(),
            final(self).pending_batches() == old(self).pending_batches(),
            final(self).max_size_spec() == old(self).max_size_spec(),
            final(self).testnet_spec() == old(self).testnet_spec(),
    {
        self.text_buffer.push(event);
        proof {
            assert(self.text_buffer.deep_view() =~= old(self).text_buffer.deep_view().push(
                event@,
            ));
            assert(self.texts() =~= old(self).texts().push(event@));
        }
    }

    fn handle_nep297(&mut self, event: LogNep297Event)
        ensures
            final(self).buffered_texts() == old(self).buffered_texts(),
            final(self).buffered_nep297s() == old(self).buffered_nep297s().push(event@),
            final(self).pending_batches() == old(self).pending_batches(),
            final(self).max_size_spec() == old(self).max_size_spec(),
            final(self).testnet_spec() == old(self).testnet_spec(),
    {
        self.nep297_buffer.push(event);
        proof {
            assert(self.nep297_buffer.deep_view() =~= old(self).nep297_buffer.deep_view().push(
                event@,
            ));
            assert(self.nep297s() =~= old(self).nep297s().push(event@));
        }
    }

    /// One flush per block: the new pending batch holds exactly the events
    /// gathered during this block's processing, never events of another
    /// block, and both buffers are empty afterwards.
    fn flush_events(&mut self, block_height: u64)
        ensures
            final(self).pending_batches() == old(self).pending_batches().push(
                FlushBatchModel {
                    block_height,
                    texts: old(self).buffered_texts(),
                    nep297s: old(self).buffered_nep297s(),
                },
            ),
            final(self).buffered_texts() == Seq::<TextEventModel>::empty(),
            final(self).buffered_nep297s() == Seq::<Nep297EventModel>::empty(),
            final(self).max_size_spec() == old(self).max_size_spec(),
            final(self).testnet_spec() == old(self).testnet_spec(),
    {
        let text_events = self.text_buffer.split_off(0);
        let nep297_events = self.nep297_buffer.split_off(0);
        proof {
            assert(text_events.deep_view() =~= old(self).buffered_texts());
            assert(nep297_events.deep_view() =~= old(self).buffered_nep297s());
            assert(self.text_buffer.deep_view() =~= Seq::<TextEventModel>::empty());
            assert(self.nep297_buffer.deep_view() =~= Seq::<Nep297EventModel>::empty());
        }
        let batch = FlushBatch { block_height, text_events, nep297_events };
        self.pending.push(batch);
        self.past_texts = Ghost(self.past_texts@ + old(self).buffered_texts());
        self.past_nep297s = Ghost(self.past_nep297s@ + old(self).buffered_nep297s());
        self.past_heights = Ghost(self.past_heights@.push(block_height));
        proof {
            assert(self.pending.deep_view() =~= old(self).pending.deep_view().push(
                FlushBatchModel {
                    block_height,
                    texts: old(self).buffered_texts(),
                    nep297s: old(self).buffered_nep297s(),
                },
            ));
            assert(self.texts() =~= old(self).texts());
            assert(self.nep297s() =~= old(self).nep297s());
        }
    }
}

} // verus!
