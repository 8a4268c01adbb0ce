//! An in-memory bounded, block-ordered event stream: the produced interface
//! of the pipeline, with `append` and `trim` operations. Trimming keeps the
//! stream's entry count within a configured maximum, evicting oldest first,
//! so the stream always retains the newest suffix of everything appended.

use vstd::prelude::*;

verus! {

/// One stream entry: a value tagged with its sequencing key (a block height).
pub struct StreamEntry<T> {
    pub key: u64,
    pub value: T,
}

/// The model of a [`StreamEntry`].
pub struct StreamEntryModel<V> {
    pub key: u64,
    pub value: V,
}

impl<T: DeepView> DeepView for StreamEntry<T> {
    type V = StreamEntryModel<T::V>;

    open spec fn deep_view(&self) -> StreamEntryModel<T::V> {
        StreamEntryModel { key: self.key, value: self.value.deep_view() }
    }
}

/// A sequence of values keyed uniformly, in their original order.
pub open spec fn keyed<V>(key: u64, values: Seq<V>) -> Seq<StreamEntryModel<V>> {
    values.map_values(|v: V| StreamEntryModel { key, value: v })
}

/// A size-bounded stream. `history_model` is everything ever appended;
/// the retained entries are always its newest suffix.
pub struct BoundedStream<T: DeepView> {
    entries: Vec<StreamEntry<T>>,
    history: Ghost<Seq<StreamEntryModel<T::V>>>,
}

impl<T: DeepView> BoundedStream<T> {
    /// The entries the stream currently retains, oldest first.
    pub closed spec fn entries_model(&self) -> Seq<StreamEntryModel<T::V>> {
        self.entries.deep_view()
    }

    /// Everything ever appended to the stream, oldest first.
    pub closed spec fn history_model(&self) -> Seq<StreamEntryModel<T::V>> {
        self.history@
    }

    /// The retained entries are the newest suffix of the append history.
    pub open spec fn wf(&self) -> bool {
        &&& self.entries_model().len() <= self.history_model().len()
        &&& self.entries_model() == self.history_model().skip(
            self.history_model().len() - self.entries_model().len(),
        )
    }

    /// An empty stream.
    pub fn new() -> (r: Self)
        ensures
            r.wf(),
            r.entries_model() == Seq::<StreamEntryModel<T::V>>::empty(),
            r.history_model() == Seq::<StreamEntryModel<T::V>>::empty(),
    {
        let r = BoundedStream { entries: Vec::new(), history: Ghost(Seq::empty()) };
        proof {
            assert(r.entries_model() =~= Seq::<StreamEntryModel<T::V>>::empty());
            assert(r.entries_model() =~= r.history_model().skip(0));
        }
        r
    }

    /// The number of entries the stream currently retains.
    pub fn len(&self) -> (r: usize)
        ensures
            r == self.entries_model().len(),
    {
        self.entries.len()
    }

    /// The entries the stream currently retains, oldest first.
    pub fn entries(&self) -> (r: &Vec<StreamEntry<T>>)
        ensures
            r.deep_view() == self.entries_model(),
    {
        &self.entries
    }

    /// Append one entry at the newest end.
    pub fn append(&mut self, key: u64, value: T)
        requires
            old(self).wf(),
        ensures
            final(self).wf(),
            final(self).entries_model() == old(self).entries_model().push(
                StreamEntryModel { key, value: value.deep_view() },
            ),
            final(self).history_model() == old(self).history_model().push(
                StreamEntryModel { key, value: value.deep_view() },
            ),
    {
        let ghost entry_model = StreamEntryModel { key, value: value.deep_view() };
        self.entries.push(StreamEntry { key, value });
        self.history = Ghost(self.history@.push(entry_model));
        proof {
            assert(self.entries_model() =~= old(self).entries_model().push(entry_model));
            assert(self.entries_model() =~= self.history_model().skip(
                self.history_model().len() - self.entries_model().len(),
            ));
        }
    }

    /// Evict oldest entries until no more than `max_size` remain. Afterwards
    /// the stream holds the newest entries: the smaller of `max_size` and the
    /// previous count, and under `wf` the newest suffix of the history.
    pub fn trim(&mut self, max_size: usize)
        requires
            old(self).wf(),
        ensures
            final(self).wf(),
            final(self).history_model() == old(self).history_model(),
            final(self).entries_model().len() == vstd::math::min(
                old(self).entries_model().len() as int,
                max_size as int,
            ),
            final(self).entries_model() == old(self).entries_model().skip(
                old(self).entries_model().len() - final(self).entries_model().len(),
            ),
    {
        while self.entries.len() > max_size
            invariant
                self.history_model() == old(self).history_model(),
                self.entries_model().len() <= old(self).entries_model().len(),
                max_size <= self.entries_model().len() || self.entries_model().len() == old(
                    self,
                ).entries_model().len(),
                self.entries_model() == old(self).entries_model().skip(
                    old(self).entries_model().len() - self.entries_model().len(),
                ),
            decreases self.entries.len(),
        {
            let ghost before = self.entries_model();
            self.entries.remove(0);
            proof {
                assert(self.entries_model() =~= before.skip(1));
                assert(self.entries_model() =~= old(self).entries_model().skip(
                    old(self).entries_model().len() - self.entries_model().len(),
                ));
            }
        }
        proof {
            assert(old(self).wf());
            assert(self.entries_model() =~= self.history_model().skip(
                self.history_model().len() - self.entries_model().len(),
            ));
        }
    }

    /// One flush: append every value of the batch in order under the block's
    /// key, then trim to the configured maximum. The stream ends bounded by
    /// `max_size`, retaining the newest entries.
    pub fn flush_batch(&mut self, key: u64, values: Vec<T>, max_size: usize)
        requires
            old(self).wf(),
        ensures
            final(self).wf(),
            final(self).history_model() == old(self).history_model() + keyed(
                key,
                values.deep_view(),
            ),
            final(self).entries_model().len() <= max_size,
            final(self).entries_model().len() == vstd::math::min(
                old(self).entries_model().len() + values.deep_view().len() as int,
                max_size as int,
            ),
    {
        let mut values = values;
        let ghost all_values = values.deep_view();
        let ghost mut done: int = 0;
        while values.len() > 0
            invariant
                self.wf(),
                0 <= done <= all_values.len(),
                values.deep_view() =~= all_values.skip(done),
                self.history_model() == old(self).history_model() + keyed(
                    key,
                    all_values.take(done),
                ),
                self.entries_model().len() == old(self).entries_model().len() + done,
            decreases values.len(),
        {
            let ghost pre = values.deep_view();
            let ghost prevv = values@;
            proof {
                assert(pre.len() == prevv.len());
                assert(pre[0] == all_values[done]);
            }
            let v = values.remove(0);
            proof {
                assert(values@ =~= prevv.skip(1));
                assert forall|k: int| 0 <= k < values.deep_view().len() implies values.deep_view()[k]
                    == pre[k + 1] by {
                    assert(values@[k] == prevv[k + 1]);
                }
                assert(values.deep_view() =~= all_values.skip(done + 1));
                assert(v.deep_view() == pre[0]);
            }
            self.append(key, v);
            proof {
                done = done + 1;
                assert(keyed(key, all_values.take(done)) =~= keyed(
                    key,
                    all_values.take(done - 1),
                ).push(StreamEntryModel { key, value: all_values[done - 1] }));
                assert(self.history_model() =~= old(self).history_model() + keyed(
                    key,
                    all_values.take(done),
                ));
            }
        }
        proof {
            assert(all_values.take(done) =~= all_values);
        }
        self.trim(max_size);
    }
}

} // verus!
