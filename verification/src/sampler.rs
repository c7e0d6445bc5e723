//! The sampler: one tick of the dashboard. Given the counters read for the
//! charted rule it rolls both bounded series forward, advances the visible
//! window once the rate series is full, and steps the second counter.

use vstd::prelude::*;
use crate::CAPACITY;
use crate::state::App;

verus! {

/// The size history after one tick: the new sample enters at the front and,
/// when the history is already at capacity, the oldest entry (the tail)
/// leaves.
pub open spec fn chart_after(chart: Seq<u64>, sample: u64) -> Seq<u64> {
    if chart.len() >= CAPACITY {
        seq![sample] + chart.drop_last()
    } else {
        seq![sample] + chart
    }
}

/// The rate series after one tick: the new point `(second, delta)` enters at
/// the back and, when the series is already at capacity, the oldest entry
/// (the front) leaves.
pub open spec fn series_after(series: Seq<(u64, u64)>, second: u64, delta: u64) -> Seq<
    (u64, u64),
> {
    if series.len() >= CAPACITY {
        series.skip(1).push((second, delta))
    } else {
        series.push((second, delta))
    }
}

/// Law: a size history within capacity is still within capacity after any
/// tick, whatever value is sampled.
pub proof fn lemma_chart_bounded(chart: Seq<u64>, sample: u64)
    requires
        chart.len() <= CAPACITY,
    ensures
        chart_after(chart, sample).len() <= CAPACITY,
{
}

/// Law: a rate series within capacity is still within capacity after any
/// tick, whatever point is appended.
pub proof fn lemma_series_bounded(series: Seq<(u64, u64)>, second: u64, delta: u64)
    requires
        series.len() <= CAPACITY,
    ensures
        series_after(series, second, delta).len() <= CAPACITY,
{
}

/// Law: when the history is full, a tick evicts exactly the oldest entry:
/// the new sample stands at the front, every surviving entry moves back by
/// one place, and the former tail is the one entry not carried over.
pub proof fn lemma_chart_eviction(chart: Seq<u64>, sample: u64)
    requires
        chart.len() == CAPACITY,
    ensures
        chart_after(chart, sample).len() == CAPACITY,
        chart_after(chart, sample)[0] == sample,
        forall|i: int| 1 <= i < CAPACITY ==> chart_after(chart, sample)[i] == chart[i - 1],
{
}

/// Law: when the rate series is full, a tick evicts exactly the oldest
/// entry: every surviving point moves forward by one place and the new point
/// stands at the back.
pub proof fn lemma_series_eviction(series: Seq<(u64, u64)>, second: u64, delta: u64)
    requires
        series.len() == CAPACITY,
    ensures
        series_after(series, second, delta).len() == CAPACITY,
        series_after(series, second, delta).last() == (second, delta),
        forall|i: int|
            0 <= i < CAPACITY - 1 ==> series_after(series, second, delta)[i] == series[i + 1],
{
}

/// Law: once the rate series has reached capacity it stays exactly at
/// capacity after every further tick; by `tick`'s contract each such tick
/// therefore advances both window bounds by exactly one.
pub proof fn lemma_window_always_advances(series: Seq<(u64, u64)>, second: u64, delta: u64)
    requires
        series.len() == CAPACITY,
    ensures
        series_after(series, second, delta).len() == CAPACITY,
{
}

impl App {
    /// One sampling tick, fed the `len` (instantaneous size) and `total`
    /// (cumulative traffic) counters just read for the charted rule.
    ///
    /// Rolls the size history and the rate series forward by one entry each,
    /// evicting the oldest entry of a full series; advances the visible
    /// window when the rate series was full; records `total` for the next
    /// delta; and steps the second counter by exactly one. The collaborator
    /// guarantees `total` monotone non-decreasing, so the recorded delta
    /// `total - last_total` never underflows.
    pub fn tick(&mut self, len: u64, total: u64)
        requires
            old(self).wf(),
            old(self).last_total <= total,
            old(self).second < u64::MAX,
            old(self).window.1 < u64::MAX,
        ensures
            final(self).wf(),
            final(self).chart@ == chart_after(old(self).chart@, len),
            final(self).net_speed@ == series_after(
                old(self).net_speed@,
                old(self).second,
                (total - old(self).last_total) as u64,
            ),
            old(self).net_speed@.len() >= CAPACITY ==> {
                &&& final(self).window.0 == old(self).window.0 + 1
                &&& final(self).window.1 == old(self).window.1 + 1
            },
            old(self).net_speed@.len() < CAPACITY ==> final(self).window == old(self).window,
            final(self).last_total == total,
            final(self).second == old(self).second + 1,
            final(self).rules == old(self).rules,
            final(self).index == old(self).index,
            final(self).input == old(self).input,
            final(self).input_mode == old(self).input_mode,
    {
        if self.chart.len() >= CAPACITY {
            self.chart.pop();
        }
        self.chart.insert(0, len);
        proof {
            assert(self.chart@ =~= chart_after(old(self).chart@, len));
        }
        let delta: u64 = total - self.last_total;
        if self.net_speed.len() >= CAPACITY {
            self.window.0 = self.window.0 + 1;
            self.window.1 = self.window.1 + 1;
            self.net_speed.remove(0);
        }
        self.net_speed.push((self.second, delta));
        proof {
            assert(self.net_speed@ =~= series_after(
                old(self).net_speed@,
                old(self).second,
                delta,
            ));
        }
        self.last_total = total;
        self.second = self.second + 1;
    }
}

} // verus!
