//! The record of accepted reports, which decides for every arriving report
//! whether it is news.

use crate::eew::{lemma_succession_irreflexive, EEWView, EEW};
use crate::limited_queue::{
    index_of, keys_unique, lemma_index_of_same_keys, lemma_index_of_unique, newest,
    IndexedLimitedQueue,
};
use std::sync::Arc;
use vstd::prelude::*;

verus! {

/// Another handle to a shared value, through `Arc::clone`. Trusted: the new
/// handle points to the value that the old one points to.
#[verifier::external_body]
pub(crate) fn share<T>(handle: &Arc<T>) -> (r: Arc<T>)
    ensures
        r == *handle,
{
    Arc::clone(handle)
}

/// The accepted reports of each earthquake, oldest earthquake first and,
/// for each, oldest report first.
pub type Record = Seq<(Seq<char>, Seq<EEWView>)>;

pub open spec fn event_views(v: Seq<Arc<EEW>>) -> Seq<EEWView> {
    v.map_values(|a: Arc<EEW>| (*a)@)
}

pub open spec fn record_of(s: Seq<(Seq<char>, Vec<Arc<EEW>>)>) -> Record {
    s.map_values(|e: (Seq<char>, Vec<Arc<EEW>>)| (e.0, event_views(e.1@)))
}

/// Every earthquake is listed once and with at least one report, each list
/// is kept under its earthquake's id, and there are no more earthquakes
/// than `limit`.
pub open spec fn record_wf(h: Record, limit: nat) -> bool {
    &&& limit > 0
    &&& h.len() <= limit
    &&& keys_unique(h)
    &&& forall|i: int| 0 <= i < h.len() ==> (#[trigger] h[i]).1.len() > 0
    &&& forall|i: int, k: int|
        0 <= i < h.len() && 0 <= k < h[i].1.len() ==> (#[trigger] h[i].1[k]).id == h[i].0
}

/// The report `e` is news: nothing is recorded of its earthquake, or it
/// supersedes the latest report recorded of it.
pub open spec fn accepts(h: Record, e: EEWView) -> bool {
    match index_of(h, e.id) {
        None => true,
        Some(i) => h[i].1.last().is_succeeded_by(e),
    }
}

/// The record after `e` arrived: unchanged where `e` is no news; else with
/// `e` added to the reports of its earthquake, or, for an earthquake not
/// recorded yet, as a new list at the back, for which the oldest earthquake
/// leaves when the record was full.
pub open spec fn appended(h: Record, e: EEWView, limit: nat) -> Record {
    match index_of(h, e.id) {
        None => newest(h.push((e.id, seq![e])), limit as int),
        Some(i) => if h[i].1.last().is_succeeded_by(e) {
            h.update(i, (e.id, h[i].1.push(e)))
        } else {
            h
        },
    }
}

/// The store of accepted reports, keyed by earthquake.
#[derive(Debug, Clone)]
pub struct EEWHistory {
    q: IndexedLimitedQueue<Vec<Arc<EEW>>>,
}

impl View for EEWHistory {
    type V = Record;

    closed spec fn view(&self) -> Record {
        record_of(self.q@)
    }
}

impl EEWHistory {
    /// The number of earthquakes that the history remembers at most.
    pub closed spec fn limit(&self) -> nat {
        self.q.limit()
    }

    pub closed spec fn wf(&self) -> bool {
        self.q.wf() && record_wf(self@, self.limit())
    }

    /// What a well-formed history records is a well-formed record.
    pub proof fn lemma_record_wf(&self)
        requires
            self.wf(),
        ensures
            record_wf(self@, self.limit()),
    {
    }

    pub fn new(limit: usize) -> (r: EEWHistory)
        requires
            limit > 0,
        ensures
            r.wf(),
            r@ == Seq::<(Seq<char>, Seq<EEWView>)>::empty(),
            r.limit() == limit,
    {
        let r = EEWHistory { q: IndexedLimitedQueue::new(limit) };
        assert(r@ =~= Seq::<(Seq<char>, Seq<EEWView>)>::empty());
        r
    }

    fn is_acceptable(&self, eew: &EEW) -> (r: bool)
        requires
            self.wf(),
        ensures
            r == accepts(self@, eew@),
    {
        proof {
            self.q.lemma_keys_unique();
            lemma_index_of_same_keys(self.q@, self@, eew.id@);
        }
        match self.q.get(eew.id.as_str()) {
            None => true,
            Some(vec) => {
                let ghost i = index_of(self.q@, eew.id@).unwrap();
                assert(self@[i].1 == event_views(vec@));
                assert(self@[i].1.len() > 0);
                let latest = &vec[vec.len() - 1];
                latest.is_succeeded_by(eew)
            },
        }
    }

    /// Records a shared report where it is news, and says whether it was.
    fn append_shared(&mut self, arc: Arc<EEW>) -> (accepted: bool)
        requires
            old(self).wf(),
        ensures
            final(self).wf(),
            final(self).limit() == old(self).limit(),
            final(self)@ == appended(old(self)@, (*arc)@, old(self).limit()),
            accepted == accepts(old(self)@, (*arc)@),
    {
        if self.is_acceptable(&arc) {
            proof {
                self.q.lemma_keys_unique();
                lemma_index_of_same_keys(self.q@, self@, arc.id@);
            }
            let ghost before = self.q@;
            let ghost e = (*arc)@;
            let v = self.q.get_mut_default(arc.id.as_str());
            let ghost first = v@;
            v.push(share(&arc));
            proof {
                let limit = old(self).limit();
                let h = old(self)@;
                match index_of(before, e.id) {
                    Some(i) => {
                        assert(event_views(first.push(arc)) =~= event_views(first).push(e));
                        assert(self@ =~= h.update(i, (e.id, h[i].1.push(e))));
                    },
                    None => {
                        assert(first =~= Seq::<Arc<EEW>>::empty());
                        assert(event_views(first.push(arc)) =~= seq![e]);
                        assert(self@ =~= newest(h.push((e.id, seq![e])), limit as int));
                    },
                }
                lemma_appended_keeps_wf(h, e, limit);
                lemma_index_of_same_keys(self@, self.q@, e.id);
            }
            true
        } else {
            false
        }
    }

    /// Takes in an arriving report. A report that is news is recorded and
    /// handed back for delivery; any other report leaves no trace.
    pub fn append(&mut self, eew: EEW) -> (r: Option<Arc<EEW>>)
        requires
            old(self).wf(),
        ensures
            final(self).wf(),
            final(self).limit() == old(self).limit(),
            final(self)@ == appended(old(self)@, eew@, old(self).limit()),
            match r {
                Some(shared) => accepts(old(self)@, eew@) && *shared == eew,
                None => !accepts(old(self)@, eew@),
            },
    {
        let arc = Arc::new(eew);
        if self.append_shared(share(&arc)) {
            Some(arc)
        } else {
            None
        }
    }

    /// The reports recorded of the earthquake `id`, oldest first.
    fn block(&self, id: &str) -> (r: Option<&[Arc<EEW>]>)
        requires
            self.wf(),
        ensures
            match r {
                Some(b) => block_of(self@, id@) == Some(event_views(b@)),
                None => block_of(self@, id@) is None,
            },
    {
        proof {
            self.q.lemma_keys_unique();
            lemma_index_of_same_keys(self.q@, self@, id@);
        }
        match self.q.get(id) {
            Some(v) => Some(v.as_slice()),
            None => None,
        }
    }
}

/// The reports recorded of the earthquake `id`, oldest first.
pub open spec fn block_of(h: Record, id: Seq<char>) -> Option<Seq<EEWView>> {
    match index_of(h, id) {
        Some(i) => Some(h[i].1),
        None => None,
    }
}

/// Number of earthquakes that a buffer made by `new` remembers.
pub const DEFAULT_MAX_BLOCK_COUNT: usize = 16;

/// A history that answers every accepted report with all the reports
/// accepted so far about the same earthquake.
#[derive(Debug, Clone)]
pub struct EEWBuffer {
    history: EEWHistory,
}

impl View for EEWBuffer {
    type V = Record;

    closed spec fn view(&self) -> Record {
        self.history@
    }
}

impl EEWBuffer {
    pub closed spec fn limit(&self) -> nat {
        self.history.limit()
    }

    pub closed spec fn wf(&self) -> bool {
        self.history.wf()
    }

    pub fn new() -> (r: EEWBuffer)
        ensures
            r.wf(),
            r@ == Seq::<(Seq<char>, Seq<EEWView>)>::empty(),
            r.limit() == DEFAULT_MAX_BLOCK_COUNT,
    {
        EEWBuffer::with_allocation(DEFAULT_MAX_BLOCK_COUNT)
    }

    pub fn with_allocation(limit: usize) -> (r: EEWBuffer)
        requires
            limit >= 1,
        ensures
            r.wf(),
            r@ == Seq::<(Seq<char>, Seq<EEWView>)>::empty(),
            r.limit() == limit,
    {
        EEWBuffer { history: EEWHistory::new(limit) }
    }

    /// Takes in an arriving report. A report that is news is recorded, and
    /// the reports recorded of its earthquake are handed back, the new one
    /// last; any other report leaves no trace.
    pub fn append(&mut self, eew: Arc<EEW>) -> (r: Option<&[Arc<EEW>]>)
        requires
            old(self).wf(),
        ensures
            final(self).wf(),
            final(self).limit() == old(self).limit(),
            final(self)@ == appended(old(self)@, (*eew)@, old(self).limit()),
            match r {
                Some(block) => accepts(old(self)@, (*eew)@) && block_of(final(self)@, eew.id@)
                    == Some(event_views(block@)),
                None => !accepts(old(self)@, (*eew)@),
            },
    {
        let ghost e = (*eew)@;
        let ghost h = self@;
        let ghost limit = self.limit();
        let id = eew.id.clone();
        if self.history.append_shared(eew) {
            proof {
                self.history.lemma_record_wf();
                lemma_latest_after_append(h, e, limit);
            }
            self.history.block(id.as_str())
        } else {
            None
        }
    }
}

/// Taking in a report leaves a well-formed record well-formed.
pub proof fn lemma_appended_keeps_wf(h: Record, e: EEWView, limit: nat)
    requires
        record_wf(h, limit),
    ensures
        record_wf(appended(h, e, limit), limit),
{
    let r = appended(h, e, limit);
    match index_of(h, e.id) {
        Some(i) => {
            assert(h[i].0 == e.id);
            if h[i].1.last().is_succeeded_by(e) {
                assert forall|a: int, b: int| 0 <= a < r.len() && 0 <= b < r.len() && a != b implies r[a].0
                    != r[b].0 by {
                    assert(r[a].0 == h[a].0);
                    assert(r[b].0 == h[b].0);
                }
                assert forall|a: int, k: int| 0 <= a < r.len() && 0 <= k < r[a].1.len() implies (
                #[trigger] r[a].1[k]).id == r[a].0 by {
                    if a == i {
                        if k < h[i].1.len() {
                            assert(r[a].1[k] == h[i].1[k]);
                        }
                    } else {
                        assert(r[a].1[k] == h[a].1[k]);
                    }
                }
            }
        },
        None => {
            let p = h.push((e.id, seq![e]));
            assert forall|a: int, b: int| 0 <= a < p.len() && 0 <= b < p.len() && a != b implies p[a].0
                != p[b].0 by {
                if a == h.len() {
                    assert(h[b].0 != e.id);
                } else if b == h.len() {
                    assert(h[a].0 != e.id);
                }
            }
            let d = p.len() - r.len();
            assert forall|a: int| 0 <= a < r.len() implies #[trigger] r[a] == p[a + d] by {}
            assert forall|a: int, b: int| 0 <= a < r.len() && 0 <= b < r.len() && a != b implies r[a].0
                != r[b].0 by {
                assert(r[a] == p[a + d]);
                assert(r[b] == p[b + d]);
            }
            assert forall|a: int| 0 <= a < r.len() implies (#[trigger] r[a]).1.len() > 0 by {
                assert(r[a] == p[a + d]);
                if a + d < h.len() {
                    assert(p[a + d] == h[a + d]);
                }
            }
            assert forall|a: int, k: int| 0 <= a < r.len() && 0 <= k < r[a].1.len() implies (
            #[trigger] r[a].1[k]).id == r[a].0 by {
                assert(r[a] == p[a + d]);
                if a + d < h.len() {
                    assert(p[a + d] == h[a + d]);
                    assert(h[a + d].1[k].id == h[a + d].0);
                }
            }
        },
    }
}

/// The latest report recorded of the earthquake `id`.
pub open spec fn latest_of(h: Record, id: Seq<char>) -> Option<EEWView> {
    match index_of(h, id) {
        Some(i) => Some(h[i].1.last()),
        None => None,
    }
}

/// A report that was taken in is the latest of its earthquake.
pub proof fn lemma_latest_after_append(h: Record, e: EEWView, limit: nat)
    requires
        record_wf(h, limit),
        accepts(h, e),
    ensures
        latest_of(appended(h, e, limit), e.id) == Some(e),
{
    let r = appended(h, e, limit);
    lemma_appended_keeps_wf(h, e, limit);
    match index_of(h, e.id) {
        Some(i) => {
            assert(h[i].0 == e.id);
            assert(r[i].0 == e.id);
            lemma_index_of_unique(r, i);
            assert(r[i].1.last() == e);
        },
        None => {
            let p = h.push((e.id, seq![e]));
            let j = r.len() - 1;
            assert(r[j] == p[p.len() - 1]);
            lemma_index_of_unique(r, j);
            assert(r[j].1.last() == e);
        },
    }
}

/// A report that was taken in is no news any more: taking it in again
/// is refused and changes nothing, however often it is tried.
pub proof fn lemma_append_is_idempotent(h: Record, e: EEWView, limit: nat)
    requires
        record_wf(h, limit),
        accepts(h, e),
    ensures
        !accepts(appended(h, e, limit), e),
        appended(appended(h, e, limit), e, limit) == appended(h, e, limit),
{
    lemma_latest_after_append(h, e, limit);
    lemma_succession_irreflexive(e);
}

/// The reports of the stream `s` that a history starting from `h` takes in.
pub open spec fn accepted_stream(h: Record, s: Seq<EEWView>, limit: nat) -> Seq<EEWView>
    decreases s.len(),
{
    if s.len() == 0 {
        Seq::empty()
    } else if accepts(h, s[0]) {
        seq![s[0]] + accepted_stream(appended(h, s[0], limit), s.drop_first(), limit)
    } else {
        accepted_stream(h, s.drop_first(), limit)
    }
}

/// The reports of `s` in the order of succession: a report stays where it
/// supersedes the report that stayed last before it (`last` at the start).
pub open spec fn succession_filter(last: Option<EEWView>, s: Seq<EEWView>) -> Seq<EEWView>
    decreases s.len(),
{
    if s.len() == 0 {
        Seq::empty()
    } else if match last {
        Some(l) => l.is_succeeded_by(s[0]),
        None => true,
    } {
        seq![s[0]] + succession_filter(Some(s[0]), s.drop_first())
    } else {
        succession_filter(last, s.drop_first())
    }
}

/// Of a stream of reports about one earthquake, the history takes in
/// exactly those that follow each other in the order of succession.
pub proof fn lemma_history_filters_by_succession(h: Record, s: Seq<EEWView>, id: Seq<char>, limit: nat)
    requires
        record_wf(h, limit),
        forall|k: int| 0 <= k < s.len() ==> (#[trigger] s[k]).id == id,
    ensures
        accepted_stream(h, s, limit) == succession_filter(latest_of(h, id), s),
    decreases s.len(),
{
    if s.len() > 0 {
        let e = s[0];
        let rest = s.drop_first();
        assert(e.id == id);
        assert forall|k: int| 0 <= k < rest.len() implies (#[trigger] rest[k]).id == id by {
            assert(rest[k] == s[k + 1]);
        }
        if accepts(h, e) {
            lemma_appended_keeps_wf(h, e, limit);
            lemma_latest_after_append(h, e, limit);
            lemma_history_filters_by_succession(appended(h, e, limit), rest, id, limit);
        } else {
            lemma_history_filters_by_succession(h, rest, id, limit);
        }
    }
}

} // verus!
