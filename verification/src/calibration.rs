//! Calibration: a search for tunable parameters with which the timeline of a
//! trial averages the target rate and seldom reaches the maximum rate.

use crate::fixed::{integer_sqrt, isqrt, SCALE};
use crate::pattern::LoadPattern;
use crate::sampling::{PatternModel, Tunables, MAX_BASE_SHARE};
use crate::series::{count_at_least, hits_of, total, total_of};
use vstd::prelude::*;

verus! {

/// The number of trials that a calibration makes at most.
pub const MAX_ITERATIONS: u32 = 50;

/// What a trial measured.
pub struct Trial {
    /// The number of seconds of the trial.
    pub seconds: int,
    /// The sum of the rates of its seconds.
    pub total: int,
    /// The number of its seconds with a rate at or near the maximum.
    pub max_hits: int,
}

/// The distance between two numbers.
pub open spec fn gap(a: int, b: int) -> int {
    if a < b {
        b - a
    } else {
        a - b
    }
}

impl PatternModel {
    /// The least whole rate that counts as at or near the maximum: one of at
    /// least 99.5 percent of it.
    pub open spec fn saturation(self) -> int {
        (self.max_rps * 995 + 999) / 1000
    }

    /// A whole rate is at least `saturation()` exactly if it is at least
    /// 99.5 percent of the maximum rate.
    pub proof fn saturation_is_exact(self, rate: int)
        ensures
            rate >= self.saturation() <==> 1000 * rate >= 995 * self.max_rps,
    {
    }

    /// The measurement of a trial of `seconds` seconds, run with no spike
    /// behind it.
    pub open spec fn trial(self, seconds: nat) -> Trial {
        let rates = self.rested().run(seconds).1;
        Trial {
            seconds: seconds as int,
            total: total_of(rates),
            max_hits: hits_of(rates, self.saturation()),
        }
    }

    /// The error of a trial: the relative error of its average rate plus the
    /// distance of its share of maximum hits from half a percent, both
    /// multiplied by `200 * target_avg * seconds` so that they are whole.
    pub open spec fn error(self, trial: Trial) -> int {
        200 * gap(trial.total, self.target_avg * trial.seconds) + self.target_avg * gap(
            200 * trial.max_hits,
            trial.seconds,
        )
    }

    /// A trial is on target if its average rate is within one percent of the
    /// target average and its share of maximum hits is within half a percent
    /// of half a percent, that is, at most one percent.
    pub open spec fn on_target(self, trial: Trial) -> bool {
        &&& 100 * gap(trial.total, self.target_avg * trial.seconds) <= self.target_avg
            * trial.seconds
        &&& 100 * trial.max_hits <= trial.seconds
    }

    /// The base level that a trial suggests: the present one times the square
    /// root of the target average over the measured one, which goes halfway
    /// towards the target; the highest one after a trial without any request.
    pub open spec fn suggested_base(self, trial: Trial) -> int {
        if trial.total <= 0 {
            self.target_avg * MAX_BASE_SHARE
        } else {
            self.base_level * isqrt(
                self.target_avg * trial.seconds * (SCALE * SCALE) / trial.total,
            ) / (SCALE as int)
        }
    }

    /// The factor, in tenths, by which a trial moves both spike chances: up
    /// by a fifth while fewer than half a percent of the seconds are maximum
    /// hits, down by a fifth otherwise.
    pub open spec fn nudge(trial: Trial) -> int {
        if 200 * trial.max_hits < trial.seconds {
            12
        } else {
            8
        }
    }

    /// The generator after it has learned from a trial.
    pub open spec fn adjusted(self, trial: Trial) -> PatternModel {
        self.retuned(
            Tunables {
                base_level: self.suggested_base(trial),
                spike_chance: self.spike_chance * Self::nudge(trial) / 10,
                max_spike_chance: self.max_spike_chance * Self::nudge(trial) / 10,
            },
        )
    }

    /// The search: up to `rounds` trials, each followed by an adjustment. It
    /// ends with the first parameters whose trial is on target; if none is, it
    /// ends with the parameters of least error among those tried (`best`, with
    /// error `best_error`, is the least so far).
    pub open spec fn search(
        self,
        seconds: nat,
        rounds: nat,
        best: Tunables,
        best_error: Option<int>,
    ) -> PatternModel
        decreases rounds,
    {
        let fresh = self.rested();
        if rounds == 0 {
            fresh.with_tunables(best)
        } else {
            let trial = fresh.trial(seconds);
            if fresh.on_target(trial) {
                fresh
            } else if best_error is None || fresh.error(trial) < best_error->Some_0 {
                fresh.adjusted(trial).search(
                    seconds,
                    (rounds - 1) as nat,
                    fresh.tunables(),
                    Some(fresh.error(trial)),
                )
            } else {
                fresh.adjusted(trial).search(seconds, (rounds - 1) as nat, best, best_error)
            }
        }
    }

    /// The generator after calibration with trials of `seconds` seconds.
    pub open spec fn calibrated(self, seconds: nat) -> PatternModel {
        self.search(seconds, MAX_ITERATIONS as nat, self.tunables(), None)
    }
}

/// The sum of the rates of a timeline and the number of its rates that are
/// at least `threshold`.
pub fn measure(timeline: &Vec<u64>, threshold: u64) -> (measured: (u128, usize))
    ensures
        measured.0 == total_of(timeline@),
        measured.1 == hits_of(timeline@, threshold as int),
        measured.0 <= timeline.len() * u64::MAX,
        measured.1 <= timeline.len(),
{
    (total(timeline), count_at_least(timeline, threshold))
}

/// The distance between two numbers.
pub fn gap_between(a: u128, b: u128) -> (distance: u128)
    ensures
        distance == gap(a as int, b as int),
{
    if a < b {
        b - a
    } else {
        a - b
    }
}

impl LoadPattern {
    /// Learns from a trial of `seconds` seconds whose rates sum to `total`
    /// and hold `max_hits` maximum hits: moves the base level towards the
    /// target average and both spike chances towards the target share of
    /// maximum hits, each within its range.
    pub fn adjust(&mut self, seconds: u32, total: u128, max_hits: usize)
        ensures
            final(self)@ == old(self)@.adjusted(
                Trial { seconds: seconds as int, total: total as int, max_hits: max_hits as int },
            ),
            final(self)@.wf(),
    {
        let target: u64 = self.target_avg() as u64;
        let old_base: u64 = self.base_level();
        let spike_chance: u64 = self.spike_chance();
        let max_spike_chance: u64 = self.max_spike_chance();
        let base_level: u128 = if total == 0 {
            (target * MAX_BASE_SHARE) as u128
        } else {
            assert(target * seconds <= 0xFFFF_FFFF * 0xFFFF_FFFF) by (nonlinear_arith)
                requires
                    0 <= target <= 0xFFFF_FFFF,
                    0 <= seconds <= 0xFFFF_FFFF,
            ;
            let wanted: u128 = target as u128 * seconds as u128;
            let whole: u128 = SCALE as u128 * SCALE as u128;
            assert(wanted * whole <= 0xFFFF_FFFF * 0xFFFF_FFFF * 1_000_000_000_000)
                by (nonlinear_arith)
                requires
                    0 <= wanted <= 0xFFFF_FFFF * 0xFFFF_FFFF,
                    whole == 1_000_000_000_000,
            ;
            assert(wanted * whole == target * seconds * (SCALE * SCALE)) by (nonlinear_arith)
                requires
                    wanted == target * seconds,
                    whole == SCALE * SCALE,
            ;
            let ratio: u128 = wanted * whole / total;
            let root: u64 = integer_sqrt(ratio);
            assert(old_base * root <= 0xFFFF_FFFF_FFFF_FFFF * 0xFFFF_FFFF_FFFF_FFFF)
                by (nonlinear_arith)
                requires
                    0 <= old_base <= 0xFFFF_FFFF_FFFF_FFFF,
                    0 <= root <= 0xFFFF_FFFF_FFFF_FFFF,
            ;
            old_base as u128 * root as u128 / SCALE as u128
        };
        let nudge: u64 = if 200 * (max_hits as u128) < seconds as u128 {
            12
        } else {
            8
        };
        self.retune(
            base_level,
            (spike_chance * nudge / 10) as u128,
            (max_spike_chance * nudge / 10) as u128,
        );
    }

    /// Tunes the base level and the two spike chances so that a trial of
    /// `duration_seconds` seconds averages the target rate and seldom reaches
    /// the maximum rate. Makes up to `MAX_ITERATIONS` trials, each starting
    /// with no spike behind it, and adjusts the parameters after each. Stops
    /// at the first trial that is on target; if none is, the parameters of
    /// least error among those tried are taken. The generator is left with no
    /// spike behind it.
    pub fn calibrate(&mut self, duration_seconds: u32)
        ensures
            final(self)@ == old(self)@.calibrated(duration_seconds as nat),
            final(self)@.wf(),
    {
        let ghost start: PatternModel = self@;
        let target: u64 = self.target_avg() as u64;
        let threshold: u64 = (self.max_rps() as u64 * 995 + 999) / 1000;
        let mut best_base: u64 = self.base_level();
        let mut best_spike: u64 = self.spike_chance();
        let mut best_max_spike: u64 = self.max_spike_chance();
        let mut best_error: Option<u128> = None;
        let ghost mut least: Option<int> = None;
        let mut rounds: u32 = MAX_ITERATIONS;
        let mut settled: bool = false;
        self.reset_spikes();
        while rounds > 0 && !settled
            invariant
                self@.wf(),
                self@ == self@.rested(),
                self@.target_avg == target,
                self@.saturation() == threshold,
                match best_error {
                    Some(error) => least == Some(error as int),
                    None => least is None,
                },
                self@.with_tunables(
                    Tunables {
                        base_level: best_base as int,
                        spike_chance: best_spike as int,
                        max_spike_chance: best_max_spike as int,
                    },
                ).clamped(),
                settled ==> self@ == start.calibrated(duration_seconds as nat),
                !settled ==> start.calibrated(duration_seconds as nat) == self@.search(
                    duration_seconds as nat,
                    rounds as nat,
                    Tunables {
                        base_level: best_base as int,
                        spike_chance: best_spike as int,
                        max_spike_chance: best_max_spike as int,
                    },
                    least,
                ),
            decreases rounds,
        {
            let timeline: Vec<u64> = self.generate_timeline(duration_seconds);
            self.reset_spikes();
            let (total, max_hits) = measure(&timeline, threshold);
            assert(target * duration_seconds <= 0xFFFF_FFFF * 0xFFFF_FFFF) by (nonlinear_arith)
                requires
                    0 <= target <= 0xFFFF_FFFF,
                    0 <= duration_seconds <= 0xFFFF_FFFF,
            ;
            assert(timeline.len() * u64::MAX <= 0xFFFF_FFFF * 0xFFFF_FFFF_FFFF_FFFF)
                by (nonlinear_arith)
                requires
                    0 <= timeline.len() <= 0xFFFF_FFFF,
            ;
            let wanted: u128 = target as u128 * duration_seconds as u128;
            let off: u128 = gap_between(total, wanted);
            let hit_gap: u128 = gap_between(200 * max_hits as u128, duration_seconds as u128);
            assert(target * hit_gap <= 0xFFFF_FFFF * 0xFFFF_FFFF_FFFF) by (nonlinear_arith)
                requires
                    0 <= target <= 0xFFFF_FFFF,
                    0 <= hit_gap <= 0xFFFF_FFFF_FFFF,
            ;
            let error: u128 = 200 * off + target as u128 * hit_gap;
            let on_target: bool = 100 * off <= wanted && 100 * max_hits as u128
                <= duration_seconds as u128;
            if on_target {
                settled = true;
            } else {
                let better: bool = match best_error {
                    Some(least_error) => error < least_error,
                    None => true,
                };
                if better {
                    best_base = self.base_level();
                    best_spike = self.spike_chance();
                    best_max_spike = self.max_spike_chance();
                    best_error = Some(error);
                    proof {
                        least = Some(error as int);
                    }
                }
                self.adjust(duration_seconds, total, max_hits);
            }
            rounds = rounds - 1;
        }
        if !settled {
            self.retune(best_base as u128, best_spike as u128, best_max_spike as u128);
        }
    }
}

} // verus!
