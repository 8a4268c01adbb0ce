//! An in-memory handler that keeps every event it receives: the publication
//! backend used to observe the pipeline without a stream transport.

use vstd::prelude::*;

use crate::events::LogNep297Event;
use crate::events::LogTextEvent;
use crate::events::Nep297EventModel;
use crate::events::TextEventModel;
use crate::LogEventHandler;

verus! {

/// Collects events and flush requests in arrival order.
pub struct CollectingHandler {
    pub text_events: Vec<LogTextEvent>,
    pub nep297_events: Vec<LogNep297Event>,
    pub flushes: Vec<u64>,
}

impl CollectingHandler {
    /// A collector that has seen nothing yet.
    pub fn new() -> (r: Self)
        ensures
            r.texts() == Seq::<TextEventModel>::empty(),
            r.nep297s() == Seq::<Nep297EventModel>::empty(),
            r.flushed() == Seq::<u64>::empty(),
    {
        let r = CollectingHandler { text_events: Vec::new(), nep297_events: Vec::new(), flushes: Vec::new() };
        proof {
            assert(r.texts() =~= Seq::<TextEventModel>::empty());
            assert(r.nep297s() =~= Seq::<Nep297EventModel>::empty());
            assert(r.flushed() =~= Seq::<u64>::empty());
        }
        r
    }
}

impl LogEventHandler for CollectingHandler {
    open spec fn texts(&self) -> Seq<TextEventModel> {
        self.text_events.deep_view()
    }

    open spec fn nep297s(&self) -> Seq<Nep297EventModel> {
        self.nep297_events.deep_view()
    }

    open spec fn flushed(&self) -> Seq<u64> {
        self.flushes@
    }

    fn handle_text(&mut self, event: LogTextEvent) {
        self.text_events.push(event);
        proof {
            assert(self.texts() =~= old(self).texts().push(event@));
        }
    }

    fn handle_nep297(&mut self, event: LogNep297Event) {
        self.nep297_events.push(event);
        proof {
            assert(self.nep297s() =~= old(self).nep297s().push(event@));
        }
    }

    fn flush_events(&mut self, block_height: u64) {
        self.flushes.push(block_height);
    }
}

} // verus!
