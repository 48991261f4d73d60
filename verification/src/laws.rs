//! What holds of every generator, stated over the model and proved.

use crate::calibration::{Trial, MAX_ITERATIONS};
use crate::fixed::{quotient_at_least, quotient_at_most, scaled_in_range, SCALE};
use crate::random::seeded_words;
use crate::sampling::{
    band_of, drawn_duration, magnitude_in, may_begin, noise_draw, regular_offer, settle,
    spike_lift, tier_draw, walk_sum, PatternModel, Tunables, MAX_BASE_SHARE, MIN_BASE_SHARE,
    WALK_CENTER, WALK_SPAN,
};
use vstd::prelude::*;

verus! {

/// Twice the mean of the whole numbers `low .. high`, each taken as often as
/// any other.
pub open spec fn doubled_mean(low: int, high: int) -> int {
    low + high - 1
}

/// The three bands ascend: as the tier draw grows, neither end of the
/// magnitude range nor of the duration range falls, and so neither does the
/// mean magnitude or the mean duration of the spikes that the band gives.
pub proof fn bands_ascend(lower: int, higher: int)
    requires
        lower <= higher,
    ensures
        band_of(lower).magnitude_low <= band_of(higher).magnitude_low,
        band_of(lower).magnitude_high <= band_of(higher).magnitude_high,
        band_of(lower).duration_low <= band_of(higher).duration_low,
        band_of(lower).duration_high <= band_of(higher).duration_high,
        doubled_mean(band_of(lower).magnitude_low as int, band_of(lower).magnitude_high as int)
            <= doubled_mean(
            band_of(higher).magnitude_low as int,
            band_of(higher).magnitude_high as int,
        ),
        doubled_mean(band_of(lower).duration_low as int, band_of(lower).duration_high as int)
            <= doubled_mean(
            band_of(higher).duration_low as int,
            band_of(higher).duration_high as int,
        ),
{
}

/// With the same magnitude word, a spike of a higher tier draw is at least as
/// high as one of a lower tier draw.
pub proof fn spikes_grow_with_tier(lower: int, higher: int, words: Seq<u64>)
    requires
        lower <= higher,
    ensures
        magnitude_in(band_of(lower), words) <= magnitude_in(band_of(higher), words),
{
    scaled_in_range(words[6], 200_000);
    scaled_in_range(words[6], 100_000);
}

/// A regular spike lies within its band: its magnitude between half and the
/// whole of the headroom, its duration between two and seven seconds.
pub proof fn spike_within_band(tier: int, words: Seq<u64>)
    ensures
        band_of(tier).magnitude_low <= magnitude_in(band_of(tier), words) < band_of(
            tier,
        ).magnitude_high,
        band_of(tier).duration_low <= drawn_duration(regular_offer(band_of(tier), words), words)
            < band_of(tier).duration_high,
        500_000 <= magnitude_in(band_of(tier), words) < SCALE,
        2 <= drawn_duration(regular_offer(band_of(tier), words), words) <= 7,
{
    scaled_in_range(words[6], 200_000);
    scaled_in_range(words[6], 100_000);
}

/// The drift is a sum of twelve numbers below 65536.
pub proof fn walk_sum_is_bounded(words: Seq<u64>)
    ensures
        0 <= walk_sum(words) <= 786_420,
{
}

/// A spike eases out: it begins at its full height, is gone when its duration
/// is over, and in between never rises from one second to the next.
pub proof fn spike_eases_out(full: int, duration: int, earlier: int, later: int)
    requires
        0 <= full,
        0 < duration,
        0 <= earlier <= later <= duration,
    ensures
        spike_lift(full, duration, 0) == full,
        spike_lift(full, duration, duration) == 0,
        0 <= spike_lift(full, duration, later) <= spike_lift(full, duration, earlier) <= full,
{
    let whole = duration * duration;
    assert(0 < whole) by (nonlinear_arith)
        requires
            0 < duration,
            whole == duration * duration,
    ;
    assert(0 <= earlier * earlier <= later * later <= whole) by (nonlinear_arith)
        requires
            0 <= earlier <= later <= duration,
            whole == duration * duration,
    ;
    let left_earlier = whole - earlier * earlier;
    let left_later = whole - later * later;
    assert(0 <= full * left_later <= full * left_earlier <= full * whole) by (nonlinear_arith)
        requires
            0 <= full,
            0 <= left_later <= left_earlier <= whole,
    ;
    vstd::arithmetic::div_mod::lemma_div_is_ordered(
        full * left_later,
        full * left_earlier,
        whole,
    );
    quotient_at_least(full * left_later, whole, 0);
    quotient_at_most(full * left_earlier, whole, full);
    vstd::arithmetic::div_mod::lemma_div_multiples_vanish(full, whole);
    vstd::arithmetic::mul::lemma_mul_is_commutative(full, whole);
    assert(full * (whole - duration * duration) == 0) by (nonlinear_arith)
        requires
            whole == duration * duration,
    ;
}

/// A rate never leaves `0 ..= max_rps`, whatever the level and the noise.
pub proof fn settle_within_bounds(level: int, noise: int, noise_factor: int, max_rps: int)
    requires
        0 <= noise,
        0 <= noise_factor <= SCALE,
        0 <= max_rps,
    ensures
        0 <= settle(level, noise, noise_factor, max_rps) <= max_rps,
{
    if level > 0 {
        let factor = SCALE * SCALE + (noise - SCALE) * noise_factor;
        assert(0 <= factor) by (nonlinear_arith)
            requires
                factor == SCALE * SCALE + (noise - SCALE) * noise_factor,
                0 <= noise,
                0 <= noise_factor <= SCALE,
        ;
        assert(0 <= level * factor) by (nonlinear_arith)
            requires
                0 < level,
                0 <= factor,
        ;
        assert(SCALE * SCALE == 1_000_000_000_000) by (nonlinear_arith)
            requires
                SCALE == 1_000_000,
        ;
    }
}

impl PatternModel {
    /// The base level of a second stays within twelve percent of the base
    /// level, and so below the target average and the maximum rate.
    pub proof fn drift_is_bounded(self, words: Seq<u64>)
        requires
            self.wf(),
        ensures
            self.base_level * 88 / 100 <= self.drifting_base(words) <= self.base_level * 112 / 100,
            0 <= self.drifting_base(words) <= self.target_avg * SCALE <= self.max_rps * SCALE,
            0 <= self.headroom(words),
    {
        walk_sum_is_bounded(words);
        let share = WALK_SPAN - WALK_CENTER + walk_sum(words);
        let base = self.base_level;
        let target = self.target_avg;
        assert(0 <= base <= target * 890_000) by (nonlinear_arith)
            requires
                target * MIN_BASE_SHARE <= base <= target
                    * MAX_BASE_SHARE,
                MAX_BASE_SHARE == 890_000,
                MIN_BASE_SHARE == 10_000,
                0 <= target,
        ;
        assert(base * 2_883_590 <= base * share <= base * 3_670_010) by (nonlinear_arith)
            requires
                0 <= base,
                2_883_590 <= share <= 3_670_010,
        ;
        assert(base * 3_670_010 <= (target * SCALE) * WALK_SPAN) by (nonlinear_arith)
            requires
                0 <= base <= target * 890_000,
                SCALE == 1_000_000,
                WALK_SPAN == 3_276_800,
        ;
        quotient_at_most(base * share, WALK_SPAN as int, target * SCALE);
        assert(target * SCALE <= self.max_rps * SCALE) by (nonlinear_arith)
            requires
                target <= self.max_rps,
                SCALE == 1_000_000,
        ;
    }

    /// Whatever spike the words of a second choose, it may begin.
    pub proof fn spike_choice_may_begin(self, second: int, words: Seq<u64>)
        ensures
            may_begin(self.spike_choice(second, words)),
    {
        spike_within_band(tier_draw(words), words);
    }

    /// One second keeps a generator well formed and its parameters as they
    /// are, and gives a rate within `0 ..= max_rps`, whatever spike begins.
    pub proof fn step_given_keeps_bounds(
        self,
        second: int,
        words: Seq<u64>,
        begun: Option<(int, int)>,
    )
        requires
            self.wf(),
            0 <= second <= u32::MAX,
            may_begin(begun),
        ensures
            self.step_given(second, words, begun).0.wf(),
            self.step_given(second, words, begun).0.rested() == self.rested(),
            0 <= self.step_given(second, words, begun).1 <= self.max_rps,
    {
        scaled_in_range(words[8], 2_000_000);
        let lift = self.spike_step(second, words, begun).1;
        settle_within_bounds(
            self.drifting_base(words) + lift,
            noise_draw(words),
            self.noise_factor,
            self.max_rps,
        );
    }

    /// One second keeps a generator well formed and its parameters as they
    /// are, and gives a rate within `0 ..= max_rps`.
    pub proof fn step_keeps_bounds(self, second: int, words: Seq<u64>)
        requires
            self.wf(),
            0 <= second <= u32::MAX,
        ensures
            self.step(second, words).0.wf(),
            self.step(second, words).0.rested() == self.rested(),
            0 <= self.step(second, words).1 <= self.max_rps,
    {
        self.spike_choice_may_begin(second, words);
        self.step_given_keeps_bounds(second, words, self.spike_choice(second, words));
    }

    /// A timeline has one rate for each second, every rate lies within
    /// `0 ..= max_rps`, and the generator is afterwards well formed with its
    /// parameters as they were.
    pub proof fn run_keeps_bounds(self, seconds: nat)
        requires
            self.wf(),
            seconds <= u32::MAX,
        ensures
            self.run(seconds).0.wf(),
            self.run(seconds).0.rested() == self.rested(),
            self.run(seconds).1.len() == seconds,
            forall|i: int| 0 <= i < seconds ==> #[trigger] self.run(seconds).1[i] <= self.max_rps,
        decreases seconds,
    {
        if seconds > 0 {
            self.run_keeps_bounds((seconds - 1) as nat);
            let before = self.run((seconds - 1) as nat).0;
            before.step_keeps_bounds(seconds - 1, seeded_words((seconds - 1) as u64));
        }
    }

    /// The timeline of a run depends on the spikes behind the generator, but
    /// the parameters after it do not.
    pub proof fn run_keeps_parameters(self, seconds: nat)
        ensures
            self.run(seconds).0.rested() == self.rested(),
        decreases seconds,
    {
        if seconds > 0 {
            self.run_keeps_parameters((seconds - 1) as nat);
        }
    }

    /// An adjustment leaves a well-formed generator well formed, whatever the
    /// trial measured.
    pub proof fn adjusted_keeps_bounds(self, trial: Trial)
        requires
            self.wf(),
        ensures
            self.adjusted(trial).wf(),
            self.adjusted(trial).clamped(),
    {
        assert(self.target_avg * MIN_BASE_SHARE <= self.target_avg
            * MAX_BASE_SHARE) by (nonlinear_arith)
            requires
                0 <= self.target_avg,
                MIN_BASE_SHARE <= MAX_BASE_SHARE,
        ;
    }

    /// However a search goes, it ends in a well-formed generator with no spike
    /// behind it.
    pub proof fn search_keeps_bounds(
        self,
        seconds: nat,
        rounds: nat,
        best: Tunables,
        best_error: Option<int>,
    )
        requires
            self.wf(),
            self.with_tunables(best).clamped(),
        ensures
            self.search(seconds, rounds, best, best_error).wf(),
            self.search(seconds, rounds, best, best_error) == self.search(
                seconds,
                rounds,
                best,
                best_error,
            ).rested(),
        decreases rounds,
    {
        let fresh = self.rested();
        if rounds > 0 {
            let trial = fresh.trial(seconds);
            fresh.adjusted_keeps_bounds(trial);
            if !fresh.on_target(trial) {
                if best_error is None || fresh.error(trial) < best_error->Some_0 {
                    fresh.adjusted(trial).search_keeps_bounds(
                        seconds,
                        (rounds - 1) as nat,
                        fresh.tunables(),
                        Some(fresh.error(trial)),
                    );
                } else {
                    fresh.adjusted(trial).search_keeps_bounds(
                        seconds,
                        (rounds - 1) as nat,
                        best,
                        best_error,
                    );
                }
            }
        }
    }

    /// After calibration the base level and both spike chances lie within
    /// their ranges, and no spike lies behind the generator.
    pub proof fn calibrated_keeps_bounds(self, seconds: nat)
        requires
            self.wf(),
        ensures
            self.calibrated(seconds).wf(),
            self.calibrated(seconds).clamped(),
            self.calibrated(seconds) == self.calibrated(seconds).rested(),
    {
        self.search_keeps_bounds(
            seconds,
            MAX_ITERATIONS as nat,
            self.tunables(),
            None,
        );
    }

    /// A search ends on target, or with an error that is no larger than the
    /// least error before it; where there was none before it, no larger than
    /// the error of its first trial.
    pub proof fn search_is_no_worse(
        self,
        seconds: nat,
        rounds: nat,
        best: Tunables,
        best_error: Option<int>,
    )
        requires
            best_error matches Some(least) ==> {
                let kept = self.rested().with_tunables(best);
                kept.error(kept.trial(seconds)) == least
            },
        ensures
            ({
                let found = self.search(seconds, rounds, best, best_error);
                let trial = found.trial(seconds);
                ||| found.on_target(trial)
                ||| best_error matches Some(least) && found.error(trial) <= least
                ||| best_error is None && (rounds == 0 || found.error(trial) <= self.error(
                    self.trial(seconds),
                ))
            }),
        decreases rounds,
    {
        let fresh = self.rested();
        if rounds > 0 {
            let trial = fresh.trial(seconds);
            if !fresh.on_target(trial) {
                let next = fresh.adjusted(trial);
                if best_error is None || fresh.error(trial) < best_error->Some_0 {
                    next.search_is_no_worse(
                        seconds,
                        (rounds - 1) as nat,
                        fresh.tunables(),
                        Some(fresh.error(trial)),
                    );
                } else {
                    next.search_is_no_worse(seconds, (rounds - 1) as nat, best, best_error);
                }
            }
        }
    }

    /// Calibration never leaves a generator worse than it found it: the
    /// calibrated generator is on target, or the error of its trial is no
    /// larger than that of the generator before calibration.
    pub proof fn calibrated_is_no_worse(self, seconds: nat)
        ensures
            ({
                let found = self.calibrated(seconds);
                found.on_target(found.trial(seconds)) || found.error(found.trial(seconds))
                    <= self.error(self.trial(seconds))
            }),
    {
        self.search_is_no_worse(
            seconds,
            MAX_ITERATIONS as nat,
            self.tunables(),
            None,
        );
    }

    /// Calibration and the timeline after it depend on the bounds and the
    /// tunable parameters alone. Two generators that agree in these, whatever
    /// spikes lie behind them, are the same after calibration with trials of
    /// the same length, and then give the same timeline for the same
    /// duration.
    pub proof fn same_parameters_same_timeline(
        self,
        other: PatternModel,
        trial_seconds: nat,
        seconds: nat,
    )
        requires
            self.rested() == other.rested(),
        ensures
            self.calibrated(trial_seconds) == other.calibrated(trial_seconds),
            self.calibrated(trial_seconds).run(seconds) == other.calibrated(trial_seconds).run(
                seconds,
            ),
    {
    }
}

} // verus!
