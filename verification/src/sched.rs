//! The polling scheduler's decisions and storage discipline.
//!
//! Each registered producer has a fixed poll interval and one cell holding
//! its latest segment. The surrounding binary owns the clock and the
//! threads; at each time unit it asks which sources are due, runs those
//! polls (each behind the fault barrier), stores the results, and
//! composes the full line. Which source is due when, what a store may
//! touch, and the order of the composed line are decided here.

use vstd::prelude::*;

use crate::segment::{ClickView, Segment};

verus! {

/// Whether a source polled every `interval` time units is due at time
/// `t`: at each whole multiple of its interval, counting from the start.
pub open spec fn due(interval: int, t: int) -> bool {
    t > 0 && t % interval == 0
}

/// How many times a source with poll interval `interval` comes due over
/// the times `1..=horizon`.
pub open spec fn due_count(interval: int, horizon: int) -> int
    decreases horizon,
{
    if horizon <= 0 {
        0
    } else {
        due_count(interval, horizon - 1) + if due(interval, horizon) {
            1int
        } else {
            0int
        }
    }
}

/// Over any observation window, a source with interval `interval` is due
/// exactly `horizon / interval` times: sources tick independently, each
/// at its own rate, however many of them are registered.
pub proof fn lemma_due_count(interval: int, horizon: int)
    requires
        interval >= 1,
        horizon >= 0,
    ensures
        due_count(interval, horizon) == horizon / interval,
    decreases horizon,
{
    if horizon == 0 {
        assert(0int / interval == 0) by (nonlinear_arith)
            requires
                interval >= 1,
        ;
    } else {
        lemma_due_count(interval, horizon - 1);
        assert((horizon - 1) / interval + (if horizon % interval == 0 {
            1int
        } else {
            0int
        }) == horizon / interval) by (nonlinear_arith)
            requires
                interval >= 1,
                horizon >= 1,
        ;
    }
}

/// The scheduler: one poll interval and one stored segment per source,
/// in registration order.
pub struct Scheduler {
    pub intervals: Vec<u64>,
    pub segments: Vec<Segment>,
}

impl Scheduler {
    /// One interval and one segment cell per source, and every interval
    /// is at least one time unit.
    pub open spec fn wf(&self) -> bool {
        &&& self.intervals@.len() == self.segments@.len()
        &&& forall|i: int| 0 <= i < self.intervals@.len() ==> self.intervals@[i] >= 1
    }

    /// A scheduler with no sources yet.
    pub fn new() -> (s: Scheduler)
        ensures
            s.wf(),
            s.intervals@.len() == 0,
    {
        Scheduler { intervals: Vec::new(), segments: Vec::new() }
    }

    /// Registers one more source at the given poll interval; its slot in
    /// the composed line is the returned index, and it starts with an
    /// empty segment until its first poll is stored.
    pub fn register(&mut self, interval: u64) -> (idx: usize)
        requires
            old(self).wf(),
            interval >= 1,
        ensures
            final(self).wf(),
            idx == old(self).intervals@.len(),
            final(self).intervals@ == old(self).intervals@.push(interval),
            final(self).segments@.len() == old(self).segments@.len() + 1,
            forall|j: int|
                0 <= j < old(self).segments@.len() ==> final(self).segments@[j] == old(
                    self,
                ).segments@[j],
            final(self).segments@.last()@.text == Seq::<char>::empty(),
            final(self).segments@.last()@.color is None,
            final(self).segments@.last()@.clicks == Seq::<ClickView>::empty(),
    {
        let idx = self.intervals.len();
        self.intervals.push(interval);
        self.segments.push(Segment::empty());
        idx
    }

    /// How many sources are registered.
    pub fn source_count(&self) -> (n: usize)
        ensures
            n == self.intervals@.len(),
    {
        self.intervals.len()
    }

    /// Whether the given source is due at time `t`.
    pub fn due_now(&self, idx: usize, t: u64) -> (r: bool)
        requires
            self.wf(),
            idx < self.intervals@.len(),
        ensures
            r == due(self.intervals@[idx as int] as int, t as int),
    {
        t > 0 && t % self.intervals[idx] == 0
    }

    /// The sources due at time `t`, in registration order: exactly those
    /// whose interval divides `t`. Each due source is polled once per due
    /// time and a slow poll of one source never removes another from this
    /// list.
    pub fn due_at(&self, t: u64) -> (r: Vec<usize>)
        requires
            self.wf(),
        ensures
            forall|a: int, b: int| 0 <= a < b < r@.len() ==> r@[a] < r@[b],
            forall|j: int|
                0 <= j < r@.len() ==> r@[j] < self.intervals@.len() && due(
                    self.intervals@[r@[j] as int] as int,
                    t as int,
                ),
            forall|i: int|
                0 <= i < self.intervals@.len() && due(self.intervals@[i] as int, t as int)
                    ==> r@.contains(i as usize),
    {
        let n = self.intervals.len();
        let mut r: Vec<usize> = Vec::new();
        let mut k: usize = 0;
        while k < n
            invariant
                k <= n,
                n == self.intervals@.len(),
                self.wf(),
                forall|a: int, b: int| 0 <= a < b < r@.len() ==> r@[a] < r@[b],
                forall|j: int|
                    0 <= j < r@.len() ==> r@[j] < k && due(
                        self.intervals@[r@[j] as int] as int,
                        t as int,
                    ),
                forall|i: int|
                    0 <= i < k && due(self.intervals@[i] as int, t as int) ==> r@.contains(
                        i as usize,
                    ),
            decreases n - k,
        {
            let ghost r0 = r@;
            if self.due_now(k, t) {
                r.push(k);
            }
            k = k + 1;
            proof {
                assert forall|i: int|
                    0 <= i < k && due(self.intervals@[i] as int, t as int) implies r@.contains(
                    i as usize,
                ) by {
                    if i < k - 1 {
                        let w = choose|w: int| 0 <= w < r0.len() && r0[w] == i as usize;
                        assert(r@[w] == i as usize);
                    } else if r@.len() > r0.len() {
                        assert(r@[r@.len() - 1] == i as usize);
                    }
                }
            }
        }
        r
    }

    /// Stores a freshly produced segment as the latest value of one
    /// source. Only that source's slot changes; the intervals and every
    /// other stored segment stay as they were.
    pub fn store(&mut self, idx: usize, seg: Segment)
        requires
            old(self).wf(),
            idx < old(self).segments@.len(),
        ensures
            final(self).wf(),
            final(self).intervals@ == old(self).intervals@,
            final(self).segments@ == old(self).segments@.update(idx as int, seg),
    {
        self.segments.set(idx, seg);
    }

    /// The composed line: the latest segment of every source, in
    /// registration order, one slot per source.
    pub fn compose(&self) -> (line: Vec<Segment>)
        requires
            self.wf(),
        ensures
            line@.len() == self.segments@.len(),
            forall|i: int| 0 <= i < line@.len() ==> line@[i]@ == self.segments@[i]@,
    {
        let n = self.segments.len();
        let mut line: Vec<Segment> = Vec::new();
        let mut k: usize = 0;
        while k < n
            invariant
                k <= n,
                n == self.segments@.len(),
                line@.len() == k,
                forall|i: int| 0 <= i < k ==> line@[i]@ == self.segments@[i]@,
            decreases n - k,
        {
            line.push(self.segments[k].duplicate());
            k = k + 1;
        }
        line
    }
}

/// A store moves no segment: after replacing one source's slot, that
/// slot holds the new segment and every other source keeps both its
/// position and its segment, whichever source's update triggered the
/// render that follows.
pub proof fn lemma_store_keeps_order(before: Seq<Segment>, idx: int, seg: Segment)
    requires
        0 <= idx < before.len(),
    ensures
        before.update(idx, seg).len() == before.len(),
        before.update(idx, seg)[idx] == seg,
        forall|j: int|
            0 <= j < before.len() && j != idx ==> before.update(idx, seg)[j] == before[j],
{
}

} // verus!
