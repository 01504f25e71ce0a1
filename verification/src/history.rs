//! The bounded history of timestamped records: once full, every new record pushes
//! out the oldest one.
use vstd::prelude::*;
use std::collections::VecDeque;

verus! {

/// What the history holds after `item` is pushed onto `s`, keeping at most
/// `capacity` records, the newest ones, oldest first.
pub open spec fn pushed<T>(s: Seq<(i64, T)>, capacity: nat, item: (i64, T)) -> Seq<(i64, T)> {
    let t = s.push(item);
    if t.len() > capacity {
        t.skip(t.len() - capacity)
    } else {
        t
    }
}

/// The records of `s` whose timestamp lies in `(low, high]`, in order.
pub open spec fn window_of<T>(s: Seq<(i64, T)>, low: i64, high: i64) -> Seq<T>
    decreases s.len(),
{
    if s.len() == 0 {
        Seq::empty()
    } else {
        let rest = window_of(s.drop_last(), low, high);
        if low < s.last().0 && s.last().0 <= high {
            rest.push(s.last().1)
        } else {
            rest
        }
    }
}

/// A bounded, oldest-first history of timestamped records.
pub struct History<T> {
    items: VecDeque<(i64, T)>,
    capacity: usize,
}

impl<T> History<T> {
    /// The records, oldest first, each with its timestamp.
    pub closed spec fn contents(&self) -> Seq<(i64, T)> {
        self.items@
    }

    /// The most records the history keeps.
    pub closed spec fn limit(&self) -> nat {
        self.capacity as nat
    }

    /// Well-formedness: never more records than the limit.
    pub closed spec fn wf(&self) -> bool {
        self.items@.len() <= self.capacity
    }

    /// A well-formed history holds no more records than its limit.
    pub proof fn lemma_wf_bounded(&self)
        requires
            self.wf(),
        ensures
            self.contents().len() <= self.limit(),
    {
    }

    /// An empty history that keeps at most `capacity` records.
    pub fn new(capacity: usize) -> (r: History<T>)
        ensures
            r.wf(),
            r.contents() == Seq::<(i64, T)>::empty(),
            r.limit() == capacity,
    {
        History { items: VecDeque::with_capacity(capacity), capacity }
    }

    /// The number of records held.
    pub fn len(&self) -> (n: usize)
        ensures
            n == self.contents().len(),
    {
        self.items.len()
    }

    /// The most records the history keeps.
    pub fn capacity(&self) -> (n: usize)
        ensures
            n == self.limit(),
    {
        self.capacity
    }

    /// The timestamp of the record at position `i` (0 is the oldest).
    pub fn timestamp_at(&self, i: usize) -> (t: i64)
        requires
            i < self.contents().len(),
        ensures
            t == self.contents()[i as int].0,
    {
        self.items[i].0
    }

    /// The record at position `i` (0 is the oldest).
    pub fn get(&self, i: usize) -> (r: &T)
        requires
            i < self.contents().len(),
        ensures
            *r == self.contents()[i as int].1,
    {
        &self.items[i].1
    }

    /// Appends a record; when the history is full, the oldest records go first.
    pub fn push(&mut self, timestamp: i64, item: T)
        requires
            old(self).wf(),
            old(self).limit() > 0,
        ensures
            final(self).wf(),
            final(self).limit() == old(self).limit(),
            final(self).contents() == pushed(old(self).contents(), old(self).limit(), (timestamp, item)),
    {
        let ghost s0 = self.items@;
        let ghost mut dropped: int = 0;
        while self.items.len() >= self.capacity
            invariant
                self.capacity > 0,
                self.capacity == old(self).capacity,
                0 <= dropped <= s0.len(),
                self.items@ == s0.skip(dropped),
                s0.len() <= self.capacity,
                dropped == 0 || s0.len() - dropped == self.capacity - 1,
            decreases self.items@.len(),
        {
            let _ = self.items.pop_front();
            proof {
                assert(s0.skip(dropped).drop_first() =~= s0.skip(dropped + 1));
                dropped = dropped + 1;
            }
        }
        self.items.push_back((timestamp, item));
        proof {
            let t = s0.push((timestamp, item));
            if t.len() > self.capacity {
                assert(dropped == 1);
                assert(self.items@ =~= t.skip(t.len() - self.capacity));
            } else {
                assert(dropped == 0);
                assert(self.items@ =~= t);
            }
        }
    }

    /// References to the records whose timestamp lies in `(low, high]`, oldest first.
    pub fn window(&self, low: i64, high: i64) -> (r: Vec<&T>)
        ensures
            r@.len() == window_of(self.contents(), low, high).len(),
            forall|i: int|
                0 <= i < r@.len() ==> *r@[i] == window_of(self.contents(), low, high)[i],
    {
        let n = self.items.len();
        let mut out: Vec<&T> = Vec::new();
        let mut i: usize = 0;
        while i < n
            invariant
                n == self.items@.len(),
                i <= n,
                out@.len() == window_of(self.items@.take(i as int), low, high).len(),
                forall|j: int|
                    0 <= j < out@.len() ==> *out@[j] == window_of(self.items@.take(i as int), low, high)[j],
            decreases n - i,
        {
            let entry = &self.items[i];
            proof {
                assert(self.items@.take(i + 1).drop_last() =~= self.items@.take(i as int));
            }
            if low < entry.0 && entry.0 <= high {
                out.push(&entry.1);
            }
            i = i + 1;
        }
        proof {
            assert(self.items@.take(n as int) =~= self.items@);
        }
        out
    }
}

/// After a push, the history holds at most its limit, and the pushed record is the newest.
pub proof fn law_push_bounded<T>(s: Seq<(i64, T)>, capacity: nat, item: (i64, T))
    requires
        capacity > 0,
        s.len() <= capacity,
    ensures
        pushed(s, capacity, item).len() <= capacity,
        pushed(s, capacity, item).len() == if s.len() < capacity { s.len() + 1 } else { capacity },
        pushed(s, capacity, item).last() == item,
{
}

/// A push keeps the order of what stays: the history after a push is the tail of
/// the old records followed by the new one.
pub proof fn law_push_keeps_order<T>(s: Seq<(i64, T)>, capacity: nat, item: (i64, T))
    requires
        capacity > 0,
        s.len() <= capacity,
    ensures
        pushed(s, capacity, item) == s.skip(s.len() + 1 - pushed(s, capacity, item).len()).push(item),
{
    let t = s.push(item);
    if t.len() > capacity {
        assert(t.skip(t.len() - capacity) =~= s.skip(1).push(item));
    } else {
        assert(s.skip(0) =~= s);
    }
}

/// Every record whose timestamp lies in the window is in the window of a history, and
/// nothing else is: the window is the records in `(low, high]`, in order.
pub proof fn law_window_members<T>(s: Seq<(i64, T)>, low: i64, high: i64, x: T)
    ensures
        window_of(s, low, high).contains(x) <==> exists|i: int|
            0 <= i < s.len() && low < s[i].0 <= high && s[i].1 == x,
    decreases s.len(),
{
    if s.len() > 0 {
        let t = s.drop_last();
        law_window_members(t, low, high, x);
        let w = window_of(s, low, high);
        let wt = window_of(t, low, high);
        if wt.contains(x) {
            let i = choose|i: int| 0 <= i < t.len() && low < t[i].0 <= high && t[i].1 == x;
            assert(s[i] == t[i]);
            let j = choose|j: int| 0 <= j < wt.len() && wt[j] == x;
            assert(w[j] == x);
        }
        if w.contains(x) {
            let j = choose|j: int| 0 <= j < w.len() && w[j] == x;
            if j < wt.len() {
                assert(wt.contains(x));
            } else {
                assert(s[s.len() - 1].1 == x);
            }
        }
        if exists|i: int| 0 <= i < s.len() && low < s[i].0 <= high && s[i].1 == x {
            let i = choose|i: int| 0 <= i < s.len() && low < s[i].0 <= high && s[i].1 == x;
            if i < t.len() {
                assert(t[i] == s[i]);
            } else {
                assert(w[w.len() - 1] == x);
            }
        }
    }
}

} // verus!
