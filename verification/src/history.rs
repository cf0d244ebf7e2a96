//! Bounded sliding-window history of telemetry samples.
//!
//! One sample lands per control-loop tick; the window keeps the most
//! recent [`HISTORY_CAPACITY`] of them, dropping the oldest first. Append
//! and eviction are both constant-time on the underlying deque.

use vstd::prelude::*;
use vstd::math::max;
use vstd::math::min;
use std::collections::VecDeque;
use crate::HISTORY_CAPACITY;

verus! {

/// One telemetry sample: when it was taken, and the sampled value in
/// hundredths of a percent.
#[derive(Clone, Copy, PartialEq, Eq, Structural, Debug)]
pub struct Sample {
    /// Elapsed time since the run started, in milliseconds.
    pub elapsed_ms: u64,
    /// The sampled value, in hundredths of a percent.
    pub value_cpct: u64,
}

/// What one append does to a full or non-full window: the new sample goes
/// to the end, and when the window is at capacity the oldest sample leaves.
pub open spec fn slide(h: Seq<Sample>, s: Sample) -> Seq<Sample> {
    if h.len() < HISTORY_CAPACITY {
        h.push(s)
    } else {
        h.drop_first().push(s)
    }
}

/// The window left after appending a whole run of samples, oldest first,
/// to an empty window.
pub open spec fn history_of(values: Seq<Sample>) -> Seq<Sample>
    decreases values.len(),
{
    if values.len() == 0 {
        Seq::empty()
    } else {
        slide(history_of(values.drop_last()), values.last())
    }
}

/// The sliding-window law: after `T` appends the window holds exactly
/// `min(T, HISTORY_CAPACITY)` samples, and they are exactly the last
/// `min(T, HISTORY_CAPACITY)` samples appended, in order: every append to
/// a full window evicts exactly the oldest retained sample.
pub proof fn lemma_history_window(values: Seq<Sample>)
    ensures
        history_of(values).len() == min(values.len() as int, HISTORY_CAPACITY as int),
        history_of(values) == values.skip(
            max(values.len() as int - HISTORY_CAPACITY as int, 0),
        ),
    decreases values.len(),
{
    if values.len() == 0 {
        assert(history_of(values) =~= values.skip(0));
    } else {
        let rest = values.drop_last();
        let x = values.last();
        lemma_history_window(rest);
        let cap = HISTORY_CAPACITY as int;
        let cut = max(values.len() as int - cap, 0);
        if rest.len() < HISTORY_CAPACITY {
            assert(history_of(values) =~= values.skip(cut));
        } else {
            let prior = history_of(rest);
            assert(prior.drop_first() =~= rest.skip(rest.len() - cap + 1));
            assert(history_of(values) =~= values.skip(cut));
        }
    }
}

/// A capacity-bounded FIFO window of samples. Its view is the retained
/// sequence, oldest first.
pub struct History {
    items: VecDeque<Sample>,
}

impl View for History {
    type V = Seq<Sample>;

    closed spec fn view(&self) -> Seq<Sample> {
        self.items@
    }
}

impl History {
    /// The window never holds more than [`HISTORY_CAPACITY`] samples.
    pub open spec fn wf(&self) -> bool {
        self@.len() <= HISTORY_CAPACITY
    }

    /// An empty window.
    pub fn new() -> (h: History)
        ensures
            h@ == Seq::<Sample>::empty(),
            h.wf(),
    {
        History { items: VecDeque::new() }
    }

    /// How many samples the window currently holds.
    pub fn len(&self) -> (n: usize)
        ensures
            n == self@.len(),
    {
        self.items.len()
    }

    /// The sample at position `i`, oldest first.
    pub fn get(&self, i: usize) -> (s: Sample)
        requires
            i < self@.len(),
        ensures
            s == self@[i as int],
    {
        *(&self.items[i])
    }

    /// Appends one sample, evicting the oldest retained sample when the
    /// window is already at capacity.
    pub fn push(&mut self, s: Sample)
        requires
            old(self).wf(),
        ensures
            final(self)@ == slide(old(self)@, s),
            final(self).wf(),
    {
        if self.items.len() == HISTORY_CAPACITY {
            self.items.pop_front();
        }
        self.items.push_back(s);
    }
}

} // verus!
