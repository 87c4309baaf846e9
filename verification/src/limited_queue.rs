//! Fixed-capacity first-in first-out buffers.

use std::collections::vec_deque::{Iter, IterMut};
use std::collections::VecDeque;
use vstd::std_specs::iter::IteratorSpec;
use vstd::prelude::*;

verus! {

broadcast use vstd::std_specs::vecdeque::group_vec_dequeue_axioms;

/// The last `n` items of `s`, or all of `s` when it holds fewer.
pub open spec fn newest<T>(s: Seq<T>, n: int) -> Seq<T> {
    if s.len() <= n {
        s
    } else {
        s.subrange(s.len() - n, s.len() as int)
    }
}

/// Mutable access to one slot of a `VecDeque`, through `IndexMut::index_mut`.
/// Trusted: the reference starts at the item stored at `i`, and whatever is
/// written through it replaces exactly that item.
#[verifier::external_body]
fn deque_index_mut<T>(q: &mut VecDeque<T>, i: usize) -> (slot: &mut T)
    requires
        i < old(q)@.len(),
    ensures
        *slot == old(q)@[i as int],
        final(q)@ == old(q)@.update(i as int, *final(slot)),
{
    &mut q[i]
}

/// `std::collections::vec_deque::IterMut`, which is handed out without a
/// look inside.
#[verifier::external_type_specification]
#[verifier::external_body]
#[verifier::reject_recursive_types(T)]
pub struct ExIterMut<'a, T: 'a>(IterMut<'a, T>);

/// A queue that keeps at most `limit` items and drops the oldest ones first.
#[derive(Debug, Clone)]
pub struct LimitedQueue<T> {
    q: VecDeque<T>,
    limit: usize,
}

impl<T> View for LimitedQueue<T> {
    type V = Seq<T>;

    closed spec fn view(&self) -> Seq<T> {
        self.q@
    }
}

impl<T> LimitedQueue<T> {
    /// The capacity the queue was created with.
    pub closed spec fn limit(&self) -> nat {
        self.limit as nat
    }

    /// The queue has a positive capacity and holds no more items than that.
    pub closed spec fn wf(&self) -> bool {
        0 < self.limit && self.q@.len() <= self.limit
    }

    /// Whatever operations led to it, a well-formed queue holds no more
    /// items than its capacity.
    pub proof fn lemma_len_within_limit(&self)
        requires
            self.wf(),
        ensures
            self@.len() <= self.limit(),
            self.limit() > 0,
    {
    }

    pub fn new(limit: usize) -> (r: LimitedQueue<T>)
        requires
            limit > 0,
        ensures
            r.wf(),
            r@ == Seq::<T>::empty(),
            r.limit() == limit,
    {
        LimitedQueue { q: VecDeque::new(), limit: limit }
    }

    pub fn with_allocation(limit: usize) -> (r: LimitedQueue<T>)
        requires
            limit > 0,
        ensures
            r.wf(),
            r@ == Seq::<T>::empty(),
            r.limit() == limit,
    {
        LimitedQueue { q: VecDeque::with_capacity(limit), limit: limit }
    }

    pub fn len(&self) -> (n: usize)
        ensures
            n == self@.len(),
    {
        self.q.len()
    }

    /// Appends `item`; when the queue was full the oldest item leaves.
    pub fn push(&mut self, item: T)
        requires
            old(self).wf(),
        ensures
            final(self).wf(),
            final(self)@ == newest(old(self)@.push(item), old(self).limit() as int),
            final(self).limit() == old(self).limit(),
            final(self)@.len() <= final(self).limit(),
    {
        self.q.push_back(item);
        if self.q.len() > self.limit {
            self.q.pop_front();
        }
    }

    pub fn iter(&self) -> (it: Iter<'_, T>)
        ensures
            IteratorSpec::remaining(&it) == self@.as_ref(),
    {
        self.q.iter()
    }

    /// Mutable access to the items one after the other, oldest first,
    /// through `VecDeque::iter_mut`. Trusted: whatever is written through the
    /// iterator, the queue keeps the number of its items.
    #[verifier::external_body]
    pub fn iter_mut(&mut self) -> (it: IterMut<'_, T>)
        requires
            old(self).wf(),
        ensures
            final(self).wf(),
            final(self).limit() == old(self).limit(),
            final(self)@.len() == old(self)@.len(),
    {
        self.q.iter_mut()
    }

    pub fn get(&self, index: usize) -> (r: Option<&T>)
        ensures
            r == if index < self@.len() { Some(&self@[index as int]) } else { None },
    {
        if index < self.q.len() {
            Some(&self.q[index])
        } else {
            None
        }
    }

    pub fn front(&self) -> (r: Option<&T>)
        ensures
            r == if self@.len() > 0 { Some(&self@[0]) } else { None },
    {
        self.get(0)
    }

    pub fn back(&self) -> (r: Option<&T>)
        ensures
            r == if self@.len() > 0 { Some(&self@[self@.len() - 1]) } else { None },
    {
        let n = self.q.len();
        if n > 0 {
            Some(&self.q[n - 1])
        } else {
            None
        }
    }

    /// Mutable access to the oldest item.
    pub fn front_mut(&mut self) -> (r: Option<&mut T>)
        requires
            old(self).wf(),
        ensures
            final(self).wf(),
            final(self).limit() == old(self).limit(),
            old(self)@.len() == 0 ==> r is None && final(self)@ == old(self)@,
            old(self)@.len() > 0 ==> r is Some && *r.unwrap() == old(self)@[0] && final(self)@
                == old(self)@.update(0, *final(r.unwrap())),
    {
        if self.q.len() > 0 {
            Some(deque_index_mut(&mut self.q, 0))
        } else {
            None
        }
    }

    /// Mutable access to the newest item.
    pub fn back_mut(&mut self) -> (r: Option<&mut T>)
        requires
            old(self).wf(),
        ensures
            final(self).wf(),
            final(self).limit() == old(self).limit(),
            old(self)@.len() == 0 ==> r is None && final(self)@ == old(self)@,
            old(self)@.len() > 0 ==> r is Some && *r.unwrap() == old(self)@[old(self)@.len() - 1]
                && final(self)@ == old(self)@.update(
                old(self)@.len() - 1,
                *final(r.unwrap()),
            ),
    {
        let n = self.q.len();
        if n > 0 {
            Some(deque_index_mut(&mut self.q, n - 1))
        } else {
            None
        }
    }

    /// Mutable access to the item at `index`, counted from the oldest.
    pub fn index_mut(&mut self, index: usize) -> (slot: &mut T)
        requires
            old(self).wf(),
            index < old(self)@.len(),
        ensures
            final(self).wf(),
            *slot == old(self)@[index as int],
            final(self)@ == old(self)@.update(index as int, *final(slot)),
            final(self).limit() == old(self).limit(),
    {
        deque_index_mut(&mut self.q, index)
    }
}

/// The keys and values of a keyed queue, oldest first.
pub open spec fn entries<D>(s: Seq<(String, D)>) -> Seq<(Seq<char>, D)> {
    s.map_values(|e: (String, D)| (e.0@, e.1))
}

/// No key stands at two places of `s`.
pub open spec fn keys_unique<D>(s: Seq<(Seq<char>, D)>) -> bool {
    forall|i: int, j: int| 0 <= i < s.len() && 0 <= j < s.len() && i != j ==> s[i].0 != s[j].0
}

pub open spec fn has_key<D>(s: Seq<(Seq<char>, D)>, key: Seq<char>) -> bool {
    exists|i: int| 0 <= i < s.len() && #[trigger] s[i].0 == key
}

/// The place at which `key` stands in `s`, if it stands there at all.
pub open spec fn index_of<D>(s: Seq<(Seq<char>, D)>, key: Seq<char>) -> Option<int> {
    if has_key(s, key) {
        Some(choose|i: int| 0 <= i < s.len() && #[trigger] s[i].0 == key)
    } else {
        None
    }
}

/// With unique keys, the place of a key is the one place that holds it.
pub proof fn lemma_index_of_unique<D>(s: Seq<(Seq<char>, D)>, i: int)
    requires
        keys_unique(s),
        0 <= i < s.len(),
    ensures
        index_of(s, s[i].0) == Some(i),
{
    assert(has_key(s, s[i].0));
}

/// Two keyed sequences that hold the same keys at the same places hold
/// every key at the same place, and the keys of both are unique where those
/// of one are.
pub proof fn lemma_index_of_same_keys<A, B>(a: Seq<(Seq<char>, A)>, b: Seq<(Seq<char>, B)>, key: Seq<char>)
    requires
        a.len() == b.len(),
        forall|i: int| 0 <= i < a.len() ==> (#[trigger] a[i]).0 == b[i].0,
        keys_unique(a),
    ensures
        index_of(a, key) == index_of(b, key),
        keys_unique(b),
{
    assert forall|i: int, j: int| 0 <= i < b.len() && 0 <= j < b.len() && i != j implies b[i].0
        != b[j].0 by {
        assert(a[i].0 == b[i].0);
        assert(a[j].0 == b[j].0);
    }
    if let Some(i) = index_of(a, key) {
        assert(a[i].0 == key);
        assert(b[i].0 == key);
        if let Some(j) = index_of(b, key) {
            assert(b[j].0 == key);
        }
    } else {
        if let Some(j) = index_of(b, key) {
            assert(b[j].0 == key);
            assert(a[j].0 == key);
        }
    }
}

/// A bounded queue of values under text keys in which no key occurs twice.
#[derive(Debug, Clone)]
pub struct IndexedLimitedQueue<D> {
    buffer: LimitedQueue<(String, D)>,
}

impl<D> View for IndexedLimitedQueue<D> {
    type V = Seq<(Seq<char>, D)>;

    closed spec fn view(&self) -> Seq<(Seq<char>, D)> {
        entries(self.buffer@)
    }
}

impl<D> IndexedLimitedQueue<D> {
    pub closed spec fn limit(&self) -> nat {
        self.buffer.limit()
    }

    /// The capacity is positive and respected, and every key occurs once.
    pub closed spec fn wf(&self) -> bool {
        self.buffer.wf() && keys_unique(self@)
    }

    /// A well-formed queue holds each key at most once and never more
    /// entries than its capacity.
    pub proof fn lemma_keys_unique(&self)
        requires
            self.wf(),
        ensures
            keys_unique(self@),
            self@.len() <= self.limit(),
            self.limit() > 0,
    {
        self.buffer.lemma_len_within_limit();
    }

    pub fn new(limit: usize) -> (r: IndexedLimitedQueue<D>)
        requires
            limit > 0,
        ensures
            r.wf(),
            r@ == Seq::<(Seq<char>, D)>::empty(),
            r.limit() == limit,
    {
        let r = IndexedLimitedQueue { buffer: LimitedQueue::new(limit) };
        assert(r@ =~= Seq::<(Seq<char>, D)>::empty());
        r
    }

    pub fn with_allocation(limit: usize) -> (r: IndexedLimitedQueue<D>)
        requires
            limit > 0,
        ensures
            r.wf(),
            r@ == Seq::<(Seq<char>, D)>::empty(),
            r.limit() == limit,
    {
        let r = IndexedLimitedQueue { buffer: LimitedQueue::with_allocation(limit) };
        assert(r@ =~= Seq::<(Seq<char>, D)>::empty());
        r
    }

    fn find(&self, key: &String) -> (r: Option<usize>)
        requires
            self.wf(),
        ensures
            match r {
                Some(i) => index_of(self@, key@) == Some(i as int) && i < self@.len()
                    && self@[i as int].0 == key@,
                None => index_of(self@, key@) is None,
            },
    {
        let n = self.buffer.len();
        let mut i: usize = 0;
        while i < n
            invariant
                self.wf(),
                i <= n,
                n == self@.len(),
                n == self.buffer@.len(),
                forall|k: int| 0 <= k < i ==> self@[k].0 != key@,
            decreases n - i,
        {
            let e = self.buffer.get(i).unwrap();
            if e.0 == *key {
                proof {
                    lemma_index_of_unique(self@, i as int);
                }
                return Some(i);
            }
            i = i + 1;
        }
        None
    }

    pub fn get(&self, idx: &str) -> (r: Option<&D>)
        requires
            self.wf(),
        ensures
            r == match index_of(self@, idx@) {
                Some(i) => Some(&self@[i].1),
                None => None,
            },
    {
        let key = idx.to_owned();
        match self.find(&key) {
            Some(i) => Some(&self.buffer.get(i).unwrap().1),
            None => None,
        }
    }

    /// Mutable access to the value stored under `idx`.
    pub fn get_mut(&mut self, idx: &str) -> (r: Option<&mut D>)
        requires
            old(self).wf(),
        ensures
            final(self).wf(),
            final(self).limit() == old(self).limit(),
            match index_of(old(self)@, idx@) {
                Some(i) => r is Some && *r.unwrap() == old(self)@[i].1 && final(self)@ == old(
                    self,
                )@.update(i, (idx@, *final(r.unwrap()))),
                None => r is None && final(self)@ == old(self)@,
            },
    {
        let key = idx.to_owned();
        match self.find(&key) {
            Some(i) => {
                let ghost before = self.buffer@;
                let slot = self.buffer.index_mut(i);
                let ghost stored = slot.0;
                let value = &mut slot.1;
                proof {
                    assert(entries(before.update(i as int, (stored, *final(value)))) =~= entries(
                        before,
                    ).update(i as int, (idx@, *final(value))));
                }
                Some(value)
            },
            None => None,
        }
    }

    /// Mutable access to the value stored under `idx`, after storing a
    /// default value at the back where the key was absent (the oldest entry
    /// leaves when the queue was full).
    pub fn get_mut_default(&mut self, idx: &str) -> (r: &mut D) where D: Default
        requires
            old(self).wf(),
        ensures
            final(self).wf(),
            final(self).limit() == old(self).limit(),
            match index_of(old(self)@, idx@) {
                Some(i) => *r == old(self)@[i].1 && final(self)@ == old(self)@.update(
                    i,
                    (idx@, *final(r)),
                ),
                None => call_ensures(D::default, (), *r) && final(self)@ == newest(
                    old(self)@.push((idx@, *final(r))),
                    old(self).limit() as int,
                ),
            },
    {
        let key = idx.to_owned();
        match self.find(&key) {
            Some(i) => {
                let ghost before = self.buffer@;
                let slot = self.buffer.index_mut(i);
                let ghost stored = slot.0;
                let value = &mut slot.1;
                proof {
                    assert(entries(before.update(i as int, (stored, *final(value)))) =~= entries(
                        before,
                    ).update(i as int, (idx@, *final(value))));
                }
                value
            },
            None => {
                let fresh = D::default();
                let ghost first = fresh;
                self.buffer.push((key, fresh));
                let ghost pushed = self@;
                assert(pushed =~= newest(old(self)@.push((idx@, first)), old(self).limit() as int));
                let last = self.buffer.len() - 1;
                let ghost before = self.buffer@;
                let slot = self.buffer.index_mut(last);
                let ghost stored = slot.0;
                let value = &mut slot.1;
                proof {
                    assert(entries(before.update(last as int, (stored, *final(value)))) =~= newest(
                        old(self)@.push((idx@, *final(value))),
                        old(self).limit() as int,
                    ));
                }
                value
            },
        }
    }

    /// Stores `data` under `idx`. A key that is present keeps its place and
    /// hands back its old value; a new key goes to the back, and the oldest
    /// entry leaves when the queue was full.
    pub fn upsert(&mut self, idx: &str, data: D) -> (r: Option<D>)
        requires
            old(self).wf(),
        ensures
            final(self).wf(),
            final(self).limit() == old(self).limit(),
            match index_of(old(self)@, idx@) {
                Some(i) => r == Some(old(self)@[i].1) && final(self)@ == old(self)@.update(
                    i,
                    (idx@, data),
                ),
                None => r is None && final(self)@ == newest(
                    old(self)@.push((idx@, data)),
                    old(self).limit() as int,
                ),
            },
    {
        let key = idx.to_owned();
        let ghost fresh = data;
        let mut data = data;
        match self.find(&key) {
            Some(i) => {
                let slot = self.buffer.index_mut(i);
                core::mem::swap(&mut slot.1, &mut data);
                proof {
                    assert(self@ =~= old(self)@.update(i as int, (idx@, fresh)));
                }
                Some(data)
            },
            None => {
                self.buffer.push((key, data));
                proof {
                    assert(self@ =~= newest(
                        old(self)@.push((idx@, fresh)),
                        old(self).limit() as int,
                    ));
                }
                None
            },
        }
    }
}

} // verus!
