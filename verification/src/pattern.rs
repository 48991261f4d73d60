//! The load-pattern generator.

use crate::fixed::{
    clamp_to, quotient_at_least, quotient_at_most, scale_word, scaled_in_range, SCALE,
};
use crate::random::{draw_range, draw_words, seeded_words};
use crate::sampling::{
    band_of, quarters, settle, spike_lift, Band, Offer, PatternModel, SpikeModel,
    Tunables, INITIAL_BASE_SHARE, INITIAL_MAX_SPIKE_CHANCE, INITIAL_SPIKE_CHANCE, LONGEST_SPIKE,
    MAX_BASE_SHARE, MAX_MAX_SPIKE_CHANCE, MAX_SPIKE_CHANCE, MIN_BASE_SHARE, MIN_MAX_SPIKE_CHANCE,
    MIN_SPIKE_CHANCE, NEVER_SPIKED, NOISE_FACTOR, QUIET_SECONDS, WALK_CENTER, WALK_SPAN,
};
use vstd::prelude::*;

verus! {

/// The target average does not lie between the minimum and the maximum rate.
#[derive(Clone, Copy, Debug, PartialEq, Eq, Structural)]
pub struct InvalidBounds {
    pub min_rps: u32,
    pub max_rps: u32,
    pub target_avg: u32,
}

/// A spike that has begun and decays over its duration.
#[derive(Clone, Copy, Debug)]
pub struct Spike {
    /// Share of the headroom at the start, in millionths.
    pub magnitude: u64,
    /// The second in which it began.
    pub start: u32,
    /// Seconds until it is over.
    pub duration: u32,
}

impl View for Spike {
    type V = SpikeModel;

    open spec fn view(&self) -> SpikeModel {
        SpikeModel {
            magnitude: self.magnitude as int,
            start: self.start as int,
            duration: self.duration as int,
        }
    }
}

/// A spike that may begin: its magnitude in millionths of the headroom, and
/// the range of seconds from which its duration is yet to be drawn. The upper
/// end is exclusive.
#[derive(Clone, Copy, Debug, PartialEq, Eq, Structural)]
pub struct SpikeOffer {
    pub magnitude: u64,
    pub duration_low: u32,
    pub duration_high: u32,
}

impl View for SpikeOffer {
    type V = Offer;

    open spec fn view(&self) -> Offer {
        Offer {
            magnitude: self.magnitude as int,
            duration_low: self.duration_low as int,
            duration_high: self.duration_high as int,
        }
    }
}

/// The sum of the four 16-bit quarters of a word.
pub fn quarters_of(word: u64) -> (sum: u64)
    ensures
        sum == quarters(word),
        sum <= 262_140,
{
    let first: u64 = word % 0x1_0000;
    let second: u64 = (word / 0x1_0000) % 0x1_0000;
    let third: u64 = (word / 0x1_0000_0000) % 0x1_0000;
    let fourth: u64 = (word / 0x1_0000_0000_0000) % 0x1_0000;
    first + second + third + fourth
}

/// The band that a tier draw selects.
pub fn band_for(tier: u64) -> (band: Band)
    ensures
        band == band_of(tier as int),
{
    if tier < 300_000 {
        Band { magnitude_low: 500_000, magnitude_high: 700_000, duration_low: 2, duration_high: 5 }
    } else if tier < 600_000 {
        Band { magnitude_low: 700_000, magnitude_high: 900_000, duration_low: 3, duration_high: 6 }
    } else {
        Band {
            magnitude_low: 900_000,
            magnitude_high: 1_000_000,
            duration_low: 4,
            duration_high: 8,
        }
    }
}

/// The share `millionths` of `amount`, rounded down.
fn share_of(amount: u64, millionths: u64) -> (share: u64)
    requires
        millionths <= SCALE,
    ensures
        share == amount * millionths / (SCALE as int),
        share <= amount,
{
    assert(0 <= amount * millionths <= amount * SCALE) by (nonlinear_arith)
        requires
            0 <= millionths <= SCALE,
            0 <= amount,
    ;
    let product: u128 = amount as u128 * millionths as u128;
    proof {
        quotient_at_most(product as int, SCALE as int, amount as int);
    }
    (product / SCALE as u128) as u64
}

/// The level of a second in which a spike of height `full` at its start is
/// `second - start` seconds old: the base plus what is left of the spike, or
/// zero where the sum would be negative.
fn lifted_level(base: u64, full: u64, duration: u32, second: u32, start: u32) -> (level: u64)
    requires
        0 < duration <= LONGEST_SPIKE,
        base + full <= u64::MAX,
        (second as int) < start + duration,
    ensures
        level == if base + spike_lift(full as int, duration as int, second - start) < 0 {
            0
        } else {
            base + spike_lift(full as int, duration as int, second - start)
        },
        level <= base + full,
{
    let distance: u64 = if second >= start {
        (second - start) as u64
    } else {
        (start - second) as u64
    };
    assert(0 < duration * duration <= 49) by (nonlinear_arith)
        requires
            0 < duration <= 7,
    ;
    let square: u64 = duration as u64 * duration as u64;
    assert(distance * distance <= 0xFFFF_FFFF * 0xFFFF_FFFF) by (nonlinear_arith)
        requires
            0 <= distance <= 0xFFFF_FFFF,
    ;
    let gone: u64 = distance * distance;
    assert(gone == (second - start) * (second - start)) by (nonlinear_arith)
        requires
            gone == distance * distance,
            distance == second - start || distance == start - second,
    ;
    if gone <= square {
        let left: u64 = square - gone;
        assert(full * left <= full * square) by (nonlinear_arith)
            requires
                left <= square,
                0 <= full,
        ;
        assert(full * square <= 0xFFFF_FFFF_FFFF_FFFF * 49) by (nonlinear_arith)
            requires
                0 <= full <= 0xFFFF_FFFF_FFFF_FFFF,
                0 < square <= 49,
        ;
        let lift: u128 = (full as u128 * left as u128) / (square as u128);
        proof {
            quotient_at_most(full * left, square as int, full as int);
            quotient_at_least(full * left, square as int, 0);
        }
        base + lift as u64
    } else {
        let over: u64 = gone - square;
        assert(full * over <= 0xFFFF_FFFF_FFFF_FFFF * 0xFFFF_FFFF_FFFF_FFFF) by (nonlinear_arith)
            requires
                0 <= full <= 0xFFFF_FFFF_FFFF_FFFF,
                0 <= over <= 0xFFFF_FFFF_FFFF_FFFF,
        ;
        let sunk: u128 = (full as u128 * over as u128) / (square as u128);
        proof {
            quotient_at_least(full * over, square as int, 0);
        }
        if sunk >= base as u128 {
            0
        } else {
            base - sunk as u64
        }
    }
}

/// The rate that a level settles to.
fn settle_rate(level: u64, noise: u64, noise_factor: u64, max_rps: u32) -> (rate: u64)
    requires
        noise < 2 * SCALE,
        noise_factor <= SCALE,
    ensures
        rate == settle(level as int, noise as int, noise_factor as int, max_rps as int),
        rate <= max_rps,
{
    if level == 0 {
        return 0;
    }
    assert(SCALE * noise_factor <= SCALE * SCALE) by (nonlinear_arith)
        requires
            noise_factor <= SCALE,
    ;
    assert(noise * noise_factor <= 2 * SCALE * SCALE) by (nonlinear_arith)
        requires
            0 <= noise < 2 * SCALE,
            0 <= noise_factor <= SCALE,
    ;
    let whole: u128 = SCALE as u128 * SCALE as u128;
    let factor: u128 = whole - SCALE as u128 * noise_factor as u128 + noise as u128
        * noise_factor as u128;
    assert(factor == SCALE * SCALE + (noise - SCALE) * noise_factor) by (nonlinear_arith)
        requires
            factor == SCALE * SCALE - SCALE * noise_factor + noise * noise_factor,
    ;
    assert(level * factor <= 0xFFFF_FFFF_FFFF_FFFF * 3_000_000_000_000) by (nonlinear_arith)
        requires
            0 <= level <= 0xFFFF_FFFF_FFFF_FFFF,
            0 <= factor <= 3_000_000_000_000,
    ;
    let noisy: u128 = level as u128 * factor / whole;
    let rounded: u128 = (noisy + (SCALE / 2) as u128) / SCALE as u128;
    if rounded > max_rps as u128 {
        max_rps as u64
    } else {
        rounded as u64
    }
}

/// A generator of per-second target rates.
#[derive(Debug)]
pub struct LoadPattern {
    min_rps: u32,
    max_rps: u32,
    target_avg: u32,
    base_level: u64,
    spike_chance: u64,
    max_spike_chance: u64,
    noise_factor: u64,
    last_spike_time: i64,
    current_spike: Option<Spike>,
}

impl View for LoadPattern {
    type V = PatternModel;

    closed spec fn view(&self) -> PatternModel {
        PatternModel {
            min_rps: self.min_rps as int,
            max_rps: self.max_rps as int,
            target_avg: self.target_avg as int,
            base_level: self.base_level as int,
            spike_chance: self.spike_chance as int,
            max_spike_chance: self.max_spike_chance as int,
            noise_factor: self.noise_factor as int,
            last_spike_time: self.last_spike_time as int,
            current_spike: match self.current_spike {
                Some(spike) => Some(spike@),
                None => None,
            },
        }
    }
}

impl Clone for LoadPattern {
    fn clone(&self) -> (copy: LoadPattern)
        ensures
            copy@ == self@,
    {
        proof {
            use_type_invariant(self);
        }
        LoadPattern {
            min_rps: self.min_rps,
            max_rps: self.max_rps,
            target_avg: self.target_avg,
            base_level: self.base_level,
            spike_chance: self.spike_chance,
            max_spike_chance: self.max_spike_chance,
            noise_factor: self.noise_factor,
            last_spike_time: self.last_spike_time,
            current_spike: self.current_spike,
        }
    }
}

impl LoadPattern {
    #[verifier::type_invariant]
    spec fn well_formed(self) -> bool {
        self@.wf()
    }

    /// A generator for rates between `min_rps` and `max_rps` that average
    /// `target_avg`, or `InvalidBounds` if the target average lies outside
    /// the two.
    pub fn new(min_rps: u32, max_rps: u32, target_avg: u32) -> (made: Result<
        LoadPattern,
        InvalidBounds,
    >)
        ensures
            min_rps <= target_avg <= max_rps ==> made is Ok && made->Ok_0@
                == PatternModel::initial(min_rps as int, max_rps as int, target_avg as int)
                && made->Ok_0@.wf(),
            !(min_rps <= target_avg <= max_rps) ==> made == Err::<LoadPattern, InvalidBounds>(
                InvalidBounds { min_rps, max_rps, target_avg },
            ),
    {
        if target_avg < min_rps || target_avg > max_rps {
            return Err(InvalidBounds { min_rps, max_rps, target_avg });
        }
        let base_level: u64 = target_avg as u64 * INITIAL_BASE_SHARE;
        Ok(
            LoadPattern {
                min_rps,
                max_rps,
                target_avg,
                base_level,
                spike_chance: INITIAL_SPIKE_CHANCE,
                max_spike_chance: INITIAL_MAX_SPIKE_CHANCE,
                noise_factor: NOISE_FACTOR,
                last_spike_time: NEVER_SPIKED,
                current_spike: None,
            },
        )
    }

    pub fn min_rps(&self) -> (rate: u32)
        ensures
            rate == self@.min_rps,
            self@.wf(),
    {
        proof {
            use_type_invariant(self);
        }
        self.min_rps
    }

    pub fn max_rps(&self) -> (rate: u32)
        ensures
            rate == self@.max_rps,
            self@.wf(),
    {
        proof {
            use_type_invariant(self);
        }
        self.max_rps
    }

    pub fn target_avg(&self) -> (rate: u32)
        ensures
            rate == self@.target_avg,
            self@.wf(),
    {
        proof {
            use_type_invariant(self);
        }
        self.target_avg
    }

    /// The base level, in millionths of a request per second.
    pub fn base_level(&self) -> (level: u64)
        ensures
            level == self@.base_level,
            self@.wf(),
    {
        proof {
            use_type_invariant(self);
        }
        self.base_level
    }

    /// The chance of a regular spike in a second, in millionths.
    pub fn spike_chance(&self) -> (chance: u64)
        ensures
            chance == self@.spike_chance,
            self@.wf(),
    {
        proof {
            use_type_invariant(self);
        }
        self.spike_chance
    }

    /// The chance of a maximum spike in a second, in millionths.
    pub fn max_spike_chance(&self) -> (chance: u64)
        ensures
            chance == self@.max_spike_chance,
            self@.wf(),
    {
        proof {
            use_type_invariant(self);
        }
        self.max_spike_chance
    }

    /// The second in which the last spike began, or `NEVER_SPIKED`.
    pub fn last_spike_time(&self) -> (second: i64)
        ensures
            second == self@.last_spike_time,
    {
        self.last_spike_time
    }

    /// The spike that is running, if any.
    pub fn current_spike(&self) -> (spike: Option<Spike>)
        ensures
            match spike {
                Some(running) => self@.current_spike == Some(running@),
                None => self@.current_spike is None,
            },
    {
        self.current_spike
    }

    /// Forgets the spikes that were: the generator is again as if none had
    /// ever begun.
    pub fn reset_spikes(&mut self)
        ensures
            final(self)@ == old(self)@.rested(),
            final(self)@.wf(),
    {
        proof {
            use_type_invariant(&*self);
        }
        self.last_spike_time = NEVER_SPIKED;
        self.current_spike = None;
    }

    /// Sets the three tunable parameters, each held within its range.
    pub fn retune(&mut self, base_level: u128, spike_chance: u128, max_spike_chance: u128)
        ensures
            final(self)@ == old(self)@.retuned(
                Tunables {
                    base_level: base_level as int,
                    spike_chance: spike_chance as int,
                    max_spike_chance: max_spike_chance as int,
                },
            ),
            final(self)@.wf(),
    {
        proof {
            use_type_invariant(&*self);
        }
        let target: u64 = self.target_avg as u64;
        let base_level: u64 = clamp_to(base_level, target * MIN_BASE_SHARE, target * MAX_BASE_SHARE);
        let spike_chance: u64 = clamp_to(spike_chance, MIN_SPIKE_CHANCE, MAX_SPIKE_CHANCE);
        let max_spike_chance: u64 = clamp_to(
            max_spike_chance,
            MIN_MAX_SPIKE_CHANCE,
            MAX_MAX_SPIKE_CHANCE,
        );
        self.base_level = base_level;
        self.spike_chance = spike_chance;
        self.max_spike_chance = max_spike_chance;
    }

    /// The spike that the words offer in `second`, if any: a maximum spike if
    /// the first draw falls below its chance, else a regular spike if the
    /// second draw falls below its chance, with the magnitude and the range
    /// of durations of the band that the tier draw selects. Both chances are
    /// doubled after a quiet minute.
    pub fn spike_offer(&self, second: u32, words: &[u64; 9]) -> (offer: Option<SpikeOffer>)
        ensures
            match offer {
                Some(offered) => self@.spike_offer(second as int, words@) == Some(offered@),
                None => self@.spike_offer(second as int, words@) is None,
            },
            offer matches Some(offered) ==> 500_000 <= offered.magnitude <= SCALE && 2
                <= offered.duration_low < offered.duration_high <= LONGEST_SPIKE + 1,
    {
        proof {
            use_type_invariant(self);
            scaled_in_range(words[6], 200_000);
            scaled_in_range(words[6], 100_000);
        }
        let since: i64 = second as i64 - self.last_spike_time;
        let boost: u64 = if since > QUIET_SECONDS {
            2
        } else {
            1
        };
        if scale_word(words[3], SCALE) < self.max_spike_chance * boost {
            return Some(SpikeOffer { magnitude: SCALE, duration_low: 3, duration_high: 8 });
        }
        if scale_word(words[4], SCALE) < self.spike_chance * boost {
            let band: Band = band_for(scale_word(words[5], SCALE));
            let magnitude: u64 = band.magnitude_low + scale_word(
                words[6],
                band.magnitude_high - band.magnitude_low,
            );
            return Some(
                SpikeOffer {
                    magnitude,
                    duration_low: band.duration_low,
                    duration_high: band.duration_high,
                },
            );
        }
        None
    }

    /// Whether a spike begins in `second`, and with which magnitude (in
    /// millionths of the headroom) and duration (in seconds). The duration of
    /// an offered spike is drawn from its range by a generator of its own,
    /// seeded with the duration word of the second.
    pub fn determine_spike_type(&self, second: u32, words: &[u64; 9]) -> (choice: Option<
        (u64, u32),
    >)
        ensures
            match choice {
                Some((magnitude, duration)) => self@.spike_choice(second as int, words@) == Some(
                    (magnitude as int, duration as int),
                ),
                None => self@.spike_choice(second as int, words@) is None,
            },
            choice matches Some((magnitude, duration)) ==> 500_000 <= magnitude <= SCALE && 2
                <= duration <= LONGEST_SPIKE,
    {
        match self.spike_offer(second, words) {
            Some(offered) => {
                let duration: u32 = draw_range(
                    words[7],
                    offered.duration_low,
                    offered.duration_high,
                );
                Some((offered.magnitude, duration))
            },
            None => None,
        }
    }

    /// The base level of one second, in millionths.
    fn drifting_base(&self, words: &[u64; 9]) -> (base: u64)
        ensures
            base == self@.drifting_base(words@),
            base <= self@.target_avg * SCALE,
    {
        proof {
            use_type_invariant(self);
        }
        let sum: u64 = quarters_of(words[0]) + quarters_of(words[1]) + quarters_of(words[2]);
        let share: u64 = WALK_SPAN - WALK_CENTER + sum;
        assert(self.base_level * share <= (self.target_avg * SCALE) * WALK_SPAN)
            by (nonlinear_arith)
            requires
                0 <= self.base_level <= self.target_avg * MAX_BASE_SHARE,
                0 <= share <= 3_670_010,
                0 <= self.target_avg,
                MAX_BASE_SHARE == 890_000,
                SCALE == 1_000_000,
                WALK_SPAN == 3_276_800,
        ;
        let product: u128 = self.base_level as u128 * share as u128;
        proof {
            quotient_at_most(product as int, WALK_SPAN as int, self.target_avg * SCALE);
        }
        (product / WALK_SPAN as u128) as u64
    }

    /// The rate of `second`, given the random words of that second and the
    /// spike that begins in it unless one is running. A spike that is running
    /// decays, one that is over is forgotten, and where none is running the
    /// one of `begun` begins.
    pub fn sample_given(&mut self, second: u32, words: &[u64; 9], begun: Option<(u64, u32)>) -> (rate:
        u64)
        requires
            begun matches Some((magnitude, duration)) ==> 0 < magnitude <= SCALE && 0 < duration
                <= LONGEST_SPIKE,
        ensures
            (final(self)@, rate as int) == old(self)@.step_given(
                second as int,
                words@,
                match begun {
                    Some((magnitude, duration)) => Some((magnitude as int, duration as int)),
                    None => None,
                },
            ),
            rate <= old(self)@.max_rps,
            final(self)@.rested() == old(self)@.rested(),
            old(self)@.wf(),
            final(self)@.wf(),
    {
        proof {
            use_type_invariant(&*self);
            scaled_in_range(words[8], 2_000_000);
        }
        let base: u64 = self.drifting_base(words);
        let headroom: u64 = self.max_rps as u64 * SCALE - base;
        let level: u64 = match self.current_spike {
            Some(spike) => {
                if (second as u64) < spike.start as u64 + spike.duration as u64 {
                    let full: u64 = share_of(headroom, spike.magnitude);
                    lifted_level(base, full, spike.duration, second, spike.start)
                } else {
                    self.current_spike = None;
                    base
                }
            },
            None => match begun {
                Some((magnitude, duration)) => {
                    let level: u64 = base + share_of(headroom, magnitude);
                    self.last_spike_time = second as i64;
                    self.current_spike = Some(Spike { magnitude, start: second, duration });
                    level
                },
                None => base,
            },
        };
        settle_rate(level, scale_word(words[8], 2 * SCALE), self.noise_factor, self.max_rps)
    }

    /// The rate of `second`, given the random words of that second. Where no
    /// spike is running, the words decide whether one begins.
    pub fn sample_with(&mut self, second: u32, words: &[u64; 9]) -> (rate: u64)
        ensures
            (final(self)@, rate as int) == old(self)@.step(second as int, words@),
            rate <= old(self)@.max_rps,
            final(self)@.rested() == old(self)@.rested(),
            old(self)@.wf(),
            final(self)@.wf(),
    {
        let begun: Option<(u64, u32)> = match self.current_spike {
            Some(_) => None,
            None => self.determine_spike_type(second, words),
        };
        self.sample_given(second, words, begun)
    }

    /// The rate of `second`. The random words of a second are drawn from a
    /// generator that is seeded with the second, so the same state and second
    /// always give the same rate.
    pub fn get_tps(&mut self, second: u32) -> (rate: u64)
        ensures
            (final(self)@, rate as int) == old(self)@.step(
                second as int,
                seeded_words(second as u64),
            ),
            rate <= old(self)@.max_rps,
            final(self)@.rested() == old(self)@.rested(),
            old(self)@.wf(),
            final(self)@.wf(),
    {
        let words: [u64; 9] = draw_words(second as u64);
        self.sample_with(second, &words)
    }

    /// The rates of the seconds `0 .. duration_seconds`, one for each second,
    /// in order. The spike state is carried from second to second and stays
    /// with the generator.
    pub fn generate_timeline(&mut self, duration_seconds: u32) -> (timeline: Vec<u64>)
        ensures
            (final(self)@, timeline@) == old(self)@.run(duration_seconds as nat),
            timeline.len() == duration_seconds,
            forall|i: int| 0 <= i < timeline.len() ==> timeline[i] <= old(self)@.max_rps,
            final(self)@.rested() == old(self)@.rested(),
            old(self)@.wf(),
            final(self)@.wf(),
    {
        let ghost start: PatternModel = self@;
        let mut timeline: Vec<u64> = Vec::new();
        let mut second: u32 = 0;
        proof {
            use_type_invariant(&*self);
        }
        while second < duration_seconds
            invariant
                second <= duration_seconds,
                (self@, timeline@) == start.run(second as nat),
                timeline.len() == second,
                self@.rested() == start.rested(),
                start.wf(),
                self@.wf(),
                forall|i: int| 0 <= i < timeline.len() ==> timeline[i] <= start.max_rps,
            decreases duration_seconds - second,
        {
            let rate: u64 = self.get_tps(second);
            timeline.push(rate);
            second = second + 1;
        }
        timeline
    }
}

} // verus!
