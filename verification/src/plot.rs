//! What the plots keep of the past: the latest samples up to a fixed
//! number, and the scale on which traffic is drawn.

use std::collections::VecDeque;
use vstd::prelude::*;
use crate::bandwidth_utils::{fib_above, nearest_fib, TrafficStatistics, SIZE_MB};

verus! {

/// The number of samples that a plot shows.
pub const HISTORY_SIZE: usize = 80;

/// What a history holds after one more sample: the sample at the end,
/// and the oldest one gone where the history was full.
pub open spec fn pushed<T>(history: Seq<(u128, T)>, sample: (u128, T)) -> Seq<(u128, T)> {
    if history.len() >= HISTORY_SIZE {
        history.subrange(history.len() + 1 - HISTORY_SIZE, history.len() as int).push(sample)
    } else {
        history.push(sample)
    }
}

/// The latest samples of a plot, each with the time at which it was
/// taken, in nanoseconds since the Unix epoch; the oldest first.
pub struct PlotHistory<T> {
    samples: VecDeque<(u128, T)>,
}

impl<T> View for PlotHistory<T> {
    type V = Seq<(u128, T)>;

    closed spec fn view(&self) -> Seq<(u128, T)> {
        self.samples@
    }
}

impl<T: Copy> PlotHistory<T> {
    /// The history holds no more samples than a plot shows.
    pub open spec fn wf(&self) -> bool {
        self@.len() <= HISTORY_SIZE
    }

    pub fn new() -> (r: Self)
        ensures
            r@ == Seq::<(u128, T)>::empty(),
            r.wf(),
    {
        PlotHistory { samples: VecDeque::with_capacity(HISTORY_SIZE) }
    }

    pub fn len(&self) -> (r: usize)
        ensures
            r == self@.len(),
    {
        self.samples.len()
    }

    pub fn is_empty(&self) -> (r: bool)
        ensures
            r == (self@.len() == 0),
    {
        self.samples.len() == 0
    }

    /// The sample at `k`, counted from the oldest.
    pub fn get(&self, k: usize) -> (r: Option<(u128, T)>)
        ensures
            r == if k < self@.len() {
                Some(self@[k as int])
            } else {
                None
            },
    {
        if k < self.samples.len() {
            Some(self.samples[k])
        } else {
            None
        }
    }

    /// Adds the sample `n`, taken at the time `now`.
    pub fn push_value(&mut self, now: u128, n: T)
        ensures
            final(self)@ == pushed(old(self)@, (now, n)),
            final(self).wf(),
    {
        while self.samples.len() >= HISTORY_SIZE
            invariant
                self.samples@.len() <= old(self).samples@.len(),
                old(self).samples@.len() >= HISTORY_SIZE ==> self.samples@.len() + 1
                    >= HISTORY_SIZE,
                old(self).samples@.len() < HISTORY_SIZE ==> self.samples@ == old(self).samples@,
                self.samples@ == old(self).samples@.subrange(
                    old(self).samples@.len() - self.samples@.len(),
                    old(self).samples@.len() as int,
                ),
            decreases self.samples@.len(),
        {
            self.samples.pop_front();
        }
        self.samples.push_back((now, n));
    }

    pub fn clear_history(&mut self)
        ensures
            final(self)@ == Seq::<(u128, T)>::empty(),
            final(self).wf(),
    {
        self.samples.clear();
    }
}

/// The larger of the two rates of a sample.
pub open spec fn larger_rate(sample: TrafficStatistics) -> i64 {
    if sample.dl >= sample.ul {
        sample.dl
    } else {
        sample.ul
    }
}

/// The largest rate among the samples; only meaningful where there is a
/// sample.
pub open spec fn peak_rate(history: Seq<(u128, TrafficStatistics)>) -> i64
    decreases history.len(),
{
    if history.len() <= 1 {
        larger_rate(history[0].1)
    } else {
        let before = peak_rate(history.drop_last());
        if before >= larger_rate(history.last().1) {
            before
        } else {
            larger_rate(history.last().1)
        }
    }
}

/// The largest rate among the samples in whole megabits per second,
/// and zero where that is negative.
pub open spec fn peak_megabits(history: Seq<(u128, TrafficStatistics)>) -> int {
    if peak_rate(history) < 0 {
        0
    } else {
        (peak_rate(history) as int) / (SIZE_MB as int)
    }
}

/// The top of the traffic plot in megabits per second: the smallest
/// Fibonacci number above the largest rate shown, as `nearest_fib` finds
/// it.
pub open spec fn plot_top(history: Seq<(u128, TrafficStatistics)>) -> int {
    fib_above(peak_megabits(history), 0) as int
}

/// The top of the traffic plot in megabits per second; none for a plot
/// without samples.
pub fn traffic_plot_top(history: &PlotHistory<TrafficStatistics>) -> (r: Option<i64>)
    ensures
        r == if history@.len() > 0 {
            Some(plot_top(history@) as i64)
        } else {
            None
        },
        r matches Some(top) ==> top >= 1,
{
    let n: usize = history.len();
    if n == 0 {
        return None;
    }
    let mut peak: i64 = i64::MIN;
    let mut k: usize = 0;
    while k < n
        invariant
            n == history@.len(),
            k <= n,
            k > 0 ==> peak == peak_rate(history@.take(k as int)),
        decreases n - k,
    {
        let sample = match history.get(k) {
            Some(entry) => entry.1,
            None => TrafficStatistics { dl: 0, ul: 0 },
        };
        let larger: i64 = if sample.dl >= sample.ul {
            sample.dl
        } else {
            sample.ul
        };
        proof {
            let next = history@.take(k + 1);
            assert(next.drop_last() == history@.take(k as int));
            assert(next.last() == history@[k as int]);
            assert(next[0] == history@[0]);
        }
        if k == 0 || larger > peak {
            peak = larger;
        }
        k = k + 1;
    }
    assert(history@.take(n as int) == history@);
    let megabits: i64 = if peak >= 0 {
        peak / SIZE_MB
    } else {
        0
    };
    let top = nearest_fib(megabits);
    Some(top)
}

} // verus!
