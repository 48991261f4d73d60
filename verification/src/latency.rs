//! The arguments of a latency test and the statistics of its outcome.
//! Latencies are in nanoseconds, points in time in seconds since the epoch.

use crate::fixed::{quotient_at_least, quotient_at_most};
use crate::series::{total, total_of, total_within};
use vstd::prelude::*;

verus! {

/// What one transaction of a latency test costs, in nanotons.
pub const COST_PER_TRANSACTION: u64 = 8_857_001;

/// The arguments of a latency test.
#[derive(Clone, Debug)]
pub struct LatencyTestArgs {
    /// Number of transactions to send.
    pub num_txs: usize,
    /// Transactions per second.
    pub rps: u32,
    /// Amount to send in nanotons.
    pub amount: u64,
    /// Where to write the latencies, if anywhere.
    pub csv: Option<String>,
    /// Where to save the plot, if anywhere.
    pub plot: Option<String>,
    /// Latency from which a transaction violates the service level.
    pub sla_threshold: Option<u64>,
    /// Time window of the time series, in minutes.
    pub time_window: Option<u64>,
}

impl LatencyTestArgs {
    /// The number of transactions that the test will send: as many as were
    /// asked for, unless the balance pays for fewer.
    pub fn affordable_txs(&self, initial_balance: u128) -> (count: usize)
        ensures
            count == if initial_balance / (COST_PER_TRANSACTION as u128) < self.num_txs {
                initial_balance as int / COST_PER_TRANSACTION as int
            } else {
                self.num_txs as int
            },
    {
        let paid_for: u128 = initial_balance / COST_PER_TRANSACTION as u128;
        if paid_for < self.num_txs as u128 {
            paid_for as usize
        } else {
            self.num_txs
        }
    }
}

/// One latency with the time at which it was measured.
#[derive(Clone, Copy, Debug, PartialEq, Eq, Structural)]
pub struct TimestampedLatency {
    pub timestamp: u64,
    pub latency: u64,
}

impl TimestampedLatency {
    /// The start of the time window of `window_minutes` minutes in which the
    /// latency was measured. Windows are counted from the epoch.
    pub fn window_start(&self, window_minutes: u64) -> (start: u64)
        requires
            0 < window_minutes <= u64::MAX / 60,
        ensures
            start == self.timestamp as int / (window_minutes * 60) * (window_minutes * 60),
            start <= self.timestamp < start + window_minutes * 60,
    {
        let width: u64 = window_minutes * 60;
        proof {
            vstd::arithmetic::div_mod::lemma_fundamental_div_mod(
                self.timestamp as int,
                width as int,
            );
            vstd::arithmetic::div_mod::lemma_mod_bound(self.timestamp as int, width as int);
            vstd::arithmetic::mul::lemma_mul_is_commutative(
                width as int,
                self.timestamp as int / width as int,
            );
        }
        self.timestamp / width * width
    }
}

/// The statistics of the latencies of a test.
#[derive(Clone, Copy, Debug, PartialEq, Eq, Structural)]
pub struct LatencyStats {
    pub avg: u64,
    pub p50: u64,
    pub p95: u64,
    pub p99: u64,
    pub min: u64,
    pub max: u64,
}

/// No value is followed by a smaller one.
pub open spec fn ascending(values: Seq<u64>) -> bool {
    forall|i: int, j: int| 0 <= i <= j < values.len() ==> values[i] <= values[j]
}

/// The index of the value below which `percent` percent of `count` values lie.
pub open spec fn rank(count: int, percent: int) -> int {
    count * percent / 100
}

/// The statistics of latencies that are in ascending order.
pub open spec fn stats_of(sorted: Seq<u64>) -> LatencyStats {
    LatencyStats {
        avg: (total_of(sorted) / (sorted.len() as int)) as u64,
        p50: sorted[sorted.len() as int / 2],
        p95: sorted[rank(sorted.len() as int, 95)],
        p99: sorted[rank(sorted.len() as int, 99)],
        min: sorted[0],
        max: sorted[sorted.len() - 1],
    }
}

/// Of latencies in ascending order the statistics are in order too: the
/// least, the median, the 95th and the 99th percentile and the greatest
/// ascend, and the average lies between the least and the greatest.
pub proof fn stats_are_ordered(sorted: Seq<u64>)
    requires
        sorted.len() > 0,
        ascending(sorted),
    ensures
        stats_of(sorted).min <= stats_of(sorted).p50 <= stats_of(sorted).p95 <= stats_of(
            sorted,
        ).p99 <= stats_of(sorted).max,
        stats_of(sorted).min <= stats_of(sorted).avg <= stats_of(sorted).max,
{
    let count = sorted.len() as int;
    let low = sorted[0] as int;
    let high = sorted[count - 1] as int;
    total_within(sorted, low, high);
    vstd::arithmetic::mul::lemma_mul_is_commutative(count, low);
    vstd::arithmetic::mul::lemma_mul_is_commutative(count, high);
    quotient_at_most(total_of(sorted), count, high);
    quotient_at_least(total_of(sorted), count, low);
}

impl LatencyStats {
    /// The statistics of latencies that are given in ascending order, or
    /// `None` where there are none.
    pub fn from_sorted(sorted: &Vec<u64>) -> (stats: Option<LatencyStats>)
        ensures
            sorted.len() == 0 ==> stats is None,
            sorted.len() > 0 ==> stats == Some(stats_of(sorted@)),
    {
        let count: usize = sorted.len();
        if count == 0 {
            return None;
        }
        let sum: u128 = total(sorted);
        proof {
            quotient_at_most(sum as int, count as int, u64::MAX as int);
            vstd::arithmetic::mul::lemma_mul_is_commutative(count as int, u64::MAX as int);
        }
        let avg: u64 = (sum / count as u128) as u64;
        let p95: usize = (count as u128 * 95 / 100) as usize;
        let p99: usize = (count as u128 * 99 / 100) as usize;
        Some(
            LatencyStats {
                avg,
                p50: sorted[count / 2],
                p95: sorted[p95],
                p99: sorted[p99],
                min: sorted[0],
                max: sorted[count - 1],
            },
        )
    }

    /// Sorts the latencies and gives their statistics, or `None` where there
    /// are none.
    pub fn summarize(latencies: &mut Vec<u64>) -> (stats: Option<LatencyStats>)
        ensures
            ascending(final(latencies)@),
            final(latencies)@.to_multiset() == old(latencies)@.to_multiset(),
            old(latencies).len() == 0 ==> stats is None,
            old(latencies).len() > 0 ==> stats == Some(stats_of(final(latencies)@)),
    {
        sort_ascending(latencies);
        proof {
            final_len_is_kept(old(latencies)@, latencies@);
        }
        LatencyStats::from_sorted(latencies)
    }
}

/// Two sequences with the same elements have the same length.
proof fn final_len_is_kept(before: Seq<u64>, after: Seq<u64>)
    requires
        before.to_multiset() == after.to_multiset(),
    ensures
        before.len() == after.len(),
{
    before.to_multiset_ensures();
    after.to_multiset_ensures();
}

/// Calls `sort` of the standard library's slices, which puts the values in
/// ascending order and keeps each value as often as it was there.
#[verifier::external_body]
fn sort_ascending(values: &mut Vec<u64>)
    ensures
        ascending(final(values)@),
        final(values)@.to_multiset() == old(values)@.to_multiset(),
{
    values.sort();
}

} // verus!
