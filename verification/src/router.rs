//! The filter in front of one destination: it applies the destination's
//! condition and remembers, for each earthquake, the report it let through last.

use crate::condition::Condition;
use crate::eew::{EEWView, EEW};
use crate::history::{
    accepted_stream, latest_of, lemma_history_filters_by_succession, record_wf, share,
    succession_filter, Record,
};
use crate::limited_queue::{index_of, lemma_index_of_same_keys, newest, IndexedLimitedQueue};
use std::sync::Arc;
use vstd::prelude::*;

verus! {

/// Number of deliveries that may wait for a destination at a time; what
/// arrives beyond that is dropped.
pub const CHANNEL_SIZE: usize = 256;

/// Number of earthquakes for which a router remembers its last delivery.
pub const EEW_BUFFER_SIZE: usize = 256;

/// For each earthquake, the report that was let through last.
pub type Deliveries = Seq<(Seq<char>, EEWView)>;

pub open spec fn deliveries_of(s: Seq<(Seq<char>, Arc<EEW>)>) -> Deliveries {
    s.map_values(|e: (Seq<char>, Arc<EEW>)| (e.0, (*e.1)@))
}

/// The report let through last for the earthquake `id`.
pub open spec fn delivered_before(cache: Deliveries, id: Seq<char>) -> Option<EEWView> {
    match index_of(cache, id) {
        Some(i) => Some(cache[i].1),
        None => None,
    }
}

/// The deliveries after `e` was let through: `e` takes the place of the
/// earlier report of its earthquake, or goes to the back.
pub open spec fn remembered(cache: Deliveries, e: EEWView, limit: nat) -> Deliveries {
    match index_of(cache, e.id) {
        Some(i) => cache.update(i, (e.id, e)),
        None => newest(cache.push((e.id, e)), limit as int),
    }
}

/// What a router hands to its destination: the report and the one that was
/// delivered before it for the same earthquake.
pub struct Delivery {
    pub latest: Arc<EEW>,
    pub previous: Option<Arc<EEW>>,
}

pub struct Router<C> {
    name: String,
    cond: C,
    buffer: IndexedLimitedQueue<Arc<EEW>>,
}

impl<C: Condition> Router<C> {
    pub closed spec fn cond(&self) -> C {
        self.cond
    }

    pub closed spec fn deliveries(&self) -> Deliveries {
        deliveries_of(self.buffer@)
    }

    pub closed spec fn limit(&self) -> nat {
        self.buffer.limit()
    }

    pub closed spec fn wf(&self) -> bool {
        self.buffer.wf()
    }

    pub closed spec fn spec_name(&self) -> Seq<char> {
        self.name@
    }

    pub fn new(cond: C, name: &str) -> (r: Router<C>)
        ensures
            r.wf(),
            r.cond() == cond,
            r.spec_name() == name@,
            r.deliveries() == Seq::<(Seq<char>, EEWView)>::empty(),
            r.limit() == EEW_BUFFER_SIZE,
    {
        let r = Router {
            name: name.to_owned(),
            cond: cond,
            buffer: IndexedLimitedQueue::new(EEW_BUFFER_SIZE),
        };
        assert(r.deliveries() =~= Seq::<(Seq<char>, EEWView)>::empty());
        r
    }

    pub fn name(&self) -> (r: &str)
        ensures
            r@ == self.spec_name(),
    {
        self.name.as_str()
    }

    /// Decides on one report. Where the condition holds of it and of the
    /// report delivered before it, the report is remembered and handed out
    /// together with the one it replaces; otherwise nothing changes.
    pub fn emit(&mut self, eew: &Arc<EEW>) -> (r: Option<Delivery>)
        requires
            old(self).wf(),
        ensures
            final(self).wf(),
            final(self).cond() == old(self).cond(),
            final(self).limit() == old(self).limit(),
            final(self).spec_name() == old(self).spec_name(),
            match r {
                Some(d) => {
                    &&& old(self).cond().holds(
                        (**eew)@,
                        delivered_before(old(self).deliveries(), eew.id@),
                    )
                    &&& d.latest == *eew
                    &&& match d.previous {
                        Some(p) => Some((*p)@),
                        None => None,
                    } == delivered_before(old(self).deliveries(), eew.id@)
                    &&& final(self).deliveries() == remembered(
                        old(self).deliveries(),
                        (**eew)@,
                        old(self).limit(),
                    )
                },
                None => {
                    &&& !old(self).cond().holds(
                        (**eew)@,
                        delivered_before(old(self).deliveries(), eew.id@),
                    )
                    &&& final(self).deliveries() == old(self).deliveries()
                },
            },
    {
        proof {
            self.buffer.lemma_keys_unique();
            lemma_index_of_same_keys(
                self.buffer@,
                self.deliveries(),
                eew.id@,
            );
        }
        let satisfied = {
            let prev = self.buffer.get(eew.id.as_str());
            match prev {
                Some(p) => self.cond.is_satisfied(eew, Some(p)),
                None => self.cond.is_satisfied(eew, None),
            }
        };
        if !satisfied {
            return None;
        }
        let replaced = self.buffer.upsert(eew.id.as_str(), share(eew));
        proof {
            let before = old(self).deliveries();
            match index_of(before, eew.id@) {
                Some(i) => {
                    assert(self.deliveries() =~= before.update(i, (eew.id@, (**eew)@)));
                },
                None => {
                    assert(self.deliveries() =~= newest(
                        before.push((eew.id@, (**eew)@)),
                        old(self).limit() as int,
                    ));
                },
            }
        }
        Some(Delivery { latest: share(eew), previous: replaced })
    }
}

/// A report reaches a destination as the history took it in: with its id,
/// its number and its phase, and final, drill or test as it was.
pub proof fn lemma_delivery_preserves_report(taken: EEW, shared: Arc<EEW>, delivery: Delivery)
    requires
        *shared == taken,
        delivery.latest == shared,
    ensures
        (*delivery.latest)@.id == taken@.id,
        (*delivery.latest)@.number == taken@.number,
        (*delivery.latest)@.phase() == taken@.phase(),
        (*delivery.latest)@.is_last() == taken@.is_last(),
        (*delivery.latest)@.is_drill() == taken@.is_drill(),
        (*delivery.latest)@.is_test() == taken@.is_test(),
{
}

/// The reports of the stream `events` that a router lets through, starting
/// from the deliveries `cache`.
pub open spec fn delivered_stream<C: Condition>(
    cond: C,
    cache: Deliveries,
    events: Seq<EEWView>,
    limit: nat,
) -> Seq<EEWView>
    decreases events.len(),
{
    if events.len() == 0 {
        Seq::empty()
    } else if cond.holds(events[0], delivered_before(cache, events[0].id)) {
        seq![events[0]] + delivered_stream(
            cond,
            remembered(cache, events[0], limit),
            events.drop_first(),
            limit,
        )
    } else {
        delivered_stream(cond, cache, events.drop_first(), limit)
    }
}

/// `a` is what remains of `b` after leaving out some of its items.
pub open spec fn is_subsequence<T>(a: Seq<T>, b: Seq<T>) -> bool
    decreases b.len(),
{
    if a.len() == 0 {
        true
    } else if b.len() == 0 {
        false
    } else if a[0] == b[0] && is_subsequence(a.drop_first(), b.drop_first()) {
        true
    } else {
        is_subsequence(a, b.drop_first())
    }
}

/// A router passes reports on in the order in which it got them and adds none.
pub proof fn lemma_router_delivers_subsequence<C: Condition>(
    cond: C,
    cache: Deliveries,
    events: Seq<EEWView>,
    limit: nat,
)
    ensures
        is_subsequence(delivered_stream(cond, cache, events, limit), events),
    decreases events.len(),
{
    if events.len() > 0 {
        let rest = events.drop_first();
        if cond.holds(events[0], delivered_before(cache, events[0].id)) {
            let next = remembered(cache, events[0], limit);
            lemma_router_delivers_subsequence(cond, next, rest, limit);
            let d = delivered_stream(cond, cache, events, limit);
            assert(d.drop_first() =~= delivered_stream(cond, next, rest, limit));
        } else {
            lemma_router_delivers_subsequence(cond, cache, rest, limit);
        }
    }
}

/// Of a stream of reports about one earthquake, what any router delivers
/// behind the history is a subsequence of the stream filtered by succession.
pub proof fn lemma_delivery_follows_succession<C: Condition>(
    cond: C,
    cache: Deliveries,
    cache_limit: nat,
    record: Record,
    record_limit: nat,
    stream: Seq<EEWView>,
    id: Seq<char>,
)
    requires
        record_wf(record, record_limit),
        forall|k: int| 0 <= k < stream.len() ==> (#[trigger] stream[k]).id == id,
    ensures
        is_subsequence(
            delivered_stream(
                cond,
                cache,
                accepted_stream(record, stream, record_limit),
                cache_limit,
            ),
            succession_filter(latest_of(record, id), stream),
        ),
{
    lemma_history_filters_by_succession(record, stream, id, record_limit);
    lemma_router_delivers_subsequence(
        cond,
        cache,
        accepted_stream(record, stream, record_limit),
        cache_limit,
    );
}

} // verus!
