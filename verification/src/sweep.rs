//! Control logic of the linear-sweep search strategy.
//!
//! The sweep samples the current range at `steps + 1` evenly spaced levels,
//! indices `0 ..= steps`, in increasing order. The sample currents themselves
//! are computed by the caller from an index; everything the strategy decides —
//! which index comes next, when the sweep stops, and which sample is the last
//! confirmed-safe one — is tracked and verified here. A safe sample advances
//! the maximum safe index and the sweep continues; the first unsafe sample is
//! still recorded as a curve point and ends the sweep at once.

use vstd::prelude::*;

verus! {

/// The index of the last safe sample in a recorded verdict history: the last
/// entry when it is safe, the one before it when the last entry is the single
/// allowed unsafe sample, and zero when no safe sample was recorded (the
/// sample at index zero carries zero current, so zero is the safe default).
pub open spec fn spec_max_safe(h: Seq<bool>) -> int {
    if h.len() == 0 {
        0
    } else if h.last() {
        h.len() - 1
    } else if h.len() >= 2 {
        h.len() - 2
    } else {
        0
    }
}

/// State of one linear sweep over sample indices `0 ..= steps`.
pub struct LinearSweep {
    /// Number of equal intervals the sample range is divided into.
    pub steps: u32,
    /// Index of the next sample to evaluate; also the number recorded so far.
    pub next: u64,
    /// Index of the last confirmed-safe sample (zero before any).
    pub max_safe: u64,
    /// An unsafe sample has been recorded, ending the sweep.
    pub failed: bool,
    /// The verdicts recorded so far, in evaluation order.
    pub hist: Ghost<Seq<bool>>,
}

impl LinearSweep {
    /// The state is consistent with its recorded history: samples are
    /// recorded in index order, every sample before the last was safe, the
    /// sweep is marked failed exactly when the last recorded sample was
    /// unsafe, and the maximum safe index matches the history.
    pub open spec fn wf(self) -> bool {
        &&& self.next == self.hist@.len()
        &&& self.next <= self.steps + 1
        &&& (forall|i: int| 0 <= i < self.hist@.len() - 1 ==> self.hist@[i])
        &&& self.failed == (self.hist@.len() > 0 && !self.hist@.last())
        &&& self.max_safe == spec_max_safe(self.hist@)
    }

    /// The sweep records no further samples: an unsafe sample was seen, or
    /// every index through `steps` has been evaluated.
    pub open spec fn spec_finished(self) -> bool {
        self.failed || self.next > self.steps as u64
    }

    /// Start a sweep over `steps + 1` samples. At least one sample (index
    /// zero) is always evaluated before the sweep can finish.
    pub fn new(steps: u32) -> (t: Self)
        ensures
            t.wf(),
            t.steps == steps,
            t.next == 0,
            !t.failed,
            t.hist@ == Seq::<bool>::empty(),
            !t.spec_finished(),
    {
        LinearSweep { steps, next: 0, max_safe: 0, failed: false, hist: Ghost(Seq::empty()) }
    }

    /// Whether the sweep is finished.
    pub fn finished(&self) -> (r: bool)
        ensures
            r == self.spec_finished(),
    {
        self.failed || self.next > self.steps as u64
    }

    /// The index of the next sample to evaluate.
    pub fn next_index(&self) -> (i: u64)
        requires
            !self.spec_finished(),
        ensures
            i == self.next,
    {
        self.next
    }

    /// Record the verdict of the sample at the next index: a safe sample
    /// advances the maximum safe index to it, an unsafe one ends the sweep
    /// and leaves the maximum safe index where it was.
    pub fn record(&mut self, safe: bool)
        requires
            old(self).wf(),
            !old(self).spec_finished(),
        ensures
            final(self).wf(),
            final(self).steps == old(self).steps,
            final(self).hist@ == old(self).hist@.push(safe),
            final(self).next == old(self).next + 1,
            final(self).failed == !safe,
            safe ==> final(self).max_safe == old(self).next,
            !safe ==> final(self).max_safe == old(self).max_safe,
    {
        proof {
            let h = self.hist@.push(safe);
            assert(h.last() == safe);
            assert forall|i: int| 0 <= i < h.len() - 1 implies h[i] by {
                if self.hist@.len() > 0 && i == self.hist@.len() - 1 {
                    assert(self.hist@.last());
                }
            }
        }
        if safe {
            self.max_safe = self.next;
        } else {
            self.failed = true;
            proof {
                if self.hist@.len() >= 1 {
                    assert(self.hist@.last());
                    assert(spec_max_safe(self.hist@) == self.hist@.len() - 1);
                }
            }
        }
        self.hist = Ghost(self.hist@.push(safe));
        self.next = self.next + 1;
    }

    /// Index of the last confirmed-safe sample.
    pub fn max_safe_index(&self) -> (i: u64)
        ensures
            i == self.max_safe,
    {
        self.max_safe
    }

    /// Whether an unsafe sample ended the sweep.
    pub fn ended_unsafe(&self) -> (r: bool)
        ensures
            r == self.failed,
    {
        self.failed
    }

    /// How many samples have been recorded.
    pub fn recorded(&self) -> (n: u64)
        ensures
            n == self.next,
    {
        self.next
    }
}

/// Law of the linear sweep: it cannot finish without recording a sample, so
/// the curve a sweep produces is never empty. A sweep finishes either on an
/// unsafe sample (which was recorded) or after the sample at index `steps`
/// was evaluated.
pub proof fn lemma_finished_sweep_nonempty(t: LinearSweep)
    requires
        t.wf(),
        t.spec_finished(),
    ensures
        t.hist@.len() >= 1,
{
}

/// Law of the linear sweep: samples are evaluated in increasing index order,
/// and when the sweep ends on an unsafe sample that sample is the last one
/// recorded, every earlier sample was safe, and the maximum safe index is the
/// index immediately before it (zero when the very first sample was already
/// unsafe, whose current is zero).
pub proof fn lemma_unsafe_sample_is_last(t: LinearSweep)
    requires
        t.wf(),
        t.failed,
    ensures
        t.hist@.len() >= 1,
        !t.hist@.last(),
        forall|i: int| 0 <= i < t.hist@.len() - 1 ==> t.hist@[i],
        t.max_safe == if t.hist@.len() >= 2 {
            t.hist@.len() - 2
        } else {
            0int
        },
{
}

/// Law of the linear sweep: while no unsafe sample has been recorded, every
/// recorded sample was safe and the maximum safe index is the highest index
/// evaluated so far (zero before any sample).
pub proof fn lemma_all_safe_sweep(t: LinearSweep)
    requires
        t.wf(),
        !t.failed,
    ensures
        forall|i: int| 0 <= i < t.hist@.len() ==> t.hist@[i],
        t.max_safe == if t.hist@.len() >= 1 {
            t.hist@.len() - 1
        } else {
            0int
        },
{
    assert forall|i: int| 0 <= i < t.hist@.len() implies t.hist@[i] by {
        if i == t.hist@.len() - 1 {
            assert(t.hist@.last());
        }
    }
}

} // verus!
