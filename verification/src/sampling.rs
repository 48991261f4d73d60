//! The sampling rule: the state of a generator as plain integers, and
//! the rule that takes a state, a second and that second's random words to the
//! next state and the rate of that second.

use crate::fixed::{clamp, scaled, SCALE};
use crate::random::{seeded_range, seeded_words};
use vstd::prelude::*;

verus! {

/// The base level starts at half the target average.
pub const INITIAL_BASE_SHARE: u64 = 500_000;

/// The base level never falls below one percent of the target average.
pub const MIN_BASE_SHARE: u64 = 10_000;

/// The base level never rises above 89 percent of the target average: with the
/// largest upward drift of twelve percent it still stays below the target, and
/// so below the maximum rate.
pub const MAX_BASE_SHARE: u64 = 890_000;

/// The chance of a regular spike in a second, at construction.
pub const INITIAL_SPIKE_CHANCE: u64 = 50_000;

/// The least chance of a regular spike that calibration may set.
pub const MIN_SPIKE_CHANCE: u64 = 20_000;

/// The greatest chance of a regular spike that calibration may set. Doubled
/// after a quiet minute, it is above one: a regular spike is then certain.
pub const MAX_SPIKE_CHANCE: u64 = 600_000;

/// The chance of a maximum spike in a second, at construction.
pub const INITIAL_MAX_SPIKE_CHANCE: u64 = 20_000;

/// The least chance of a maximum spike that calibration may set.
pub const MIN_MAX_SPIKE_CHANCE: u64 = 10_000;

/// The greatest chance of a maximum spike that calibration may set.
pub const MAX_MAX_SPIKE_CHANCE: u64 = 200_000;

/// Every sample is multiplied by a factor between 0.9 and 1.1.
pub const NOISE_FACTOR: u64 = 100_000;

/// The time of the last spike before any spike: far enough in the past for the
/// first second to count as quiet.
pub const NEVER_SPIKED: i64 = -100;

/// After this many quiet seconds both spike chances are doubled.
pub const QUIET_SECONDS: i64 = 60;

/// The mean of the sum of twelve uniform 16-bit numbers.
pub const WALK_CENTER: u64 = 393_210;

/// The sum of twelve uniform 16-bit numbers has a standard deviation of 65536.
/// One deviation moves the base level by two percent, so the whole of the base
/// level corresponds to fifty deviations.
pub const WALK_SPAN: u64 = 3_276_800;

/// The longest a spike can last, in seconds.
pub const LONGEST_SPIKE: u32 = 7;

/// The ranges from which a regular spike takes its magnitude (in millionths
/// of the headroom) and its duration (in seconds). The upper ends are
/// exclusive.
#[derive(Clone, Copy, Debug, PartialEq, Eq, Structural)]
pub struct Band {
    pub magnitude_low: u64,
    pub magnitude_high: u64,
    pub duration_low: u32,
    pub duration_high: u32,
}

/// A spike that may begin: its magnitude, and the range from which its
/// duration is yet to be drawn. The upper end is exclusive.
pub struct Offer {
    pub magnitude: int,
    pub duration_low: int,
    pub duration_high: int,
}

/// A spike that has begun and decays over its duration.
pub struct SpikeModel {
    /// Share of the headroom at the start, in millionths.
    pub magnitude: int,
    /// The second in which it began.
    pub start: int,
    /// Seconds until it is over.
    pub duration: int,
}

impl SpikeModel {
    /// A spike takes some of the headroom, at most all of it, and lasts at
    /// least one second and at most `LONGEST_SPIKE`.
    pub open spec fn wf(self) -> bool {
        &&& 0 < self.magnitude <= SCALE
        &&& 0 <= self.start <= u32::MAX
        &&& 0 < self.duration <= LONGEST_SPIKE
    }
}

/// The state of a generator.
pub struct PatternModel {
    /// The lowest rate that the target average may be.
    pub min_rps: int,
    /// The highest rate of any second.
    pub max_rps: int,
    /// The average rate that calibration aims for.
    pub target_avg: int,
    /// The rate around which the base drifts, in millionths of a request per
    /// second.
    pub base_level: int,
    /// The chance of a regular spike in a second, in millionths.
    pub spike_chance: int,
    /// The chance of a maximum spike in a second, in millionths.
    pub max_spike_chance: int,
    /// The largest share by which noise moves a rate, in millionths.
    pub noise_factor: int,
    /// The second in which the last spike began, or `NEVER_SPIKED`.
    pub last_spike_time: int,
    /// The spike that is running, if any.
    pub current_spike: Option<SpikeModel>,
}

/// The three tunable parameters of a generator.
pub struct Tunables {
    pub base_level: int,
    pub spike_chance: int,
    pub max_spike_chance: int,
}

/// One 16-bit quarter of a word.
pub open spec fn quarter(word: u64, index: int) -> int {
    if index == 0 {
        word as int % 0x1_0000
    } else if index == 1 {
        (word as int / 0x1_0000) % 0x1_0000
    } else if index == 2 {
        (word as int / 0x1_0000_0000) % 0x1_0000
    } else {
        (word as int / 0x1_0000_0000_0000) % 0x1_0000
    }
}

/// The sum of the four quarters of a word.
pub open spec fn quarters(word: u64) -> int {
    quarter(word, 0) + quarter(word, 1) + quarter(word, 2) + quarter(word, 3)
}

/// The drift of the base level in one second: the sum of twelve uniform
/// 16-bit numbers, which is close to normally distributed around
/// `WALK_CENTER`.
pub open spec fn walk_sum(words: Seq<u64>) -> int {
    quarters(words[0]) + quarters(words[1]) + quarters(words[2])
}

/// The draw that decides on a maximum spike, in millionths.
pub open spec fn max_spike_draw(words: Seq<u64>) -> int {
    scaled(words[3], SCALE)
}

/// The draw that decides on a regular spike, in millionths.
pub open spec fn spike_draw(words: Seq<u64>) -> int {
    scaled(words[4], SCALE)
}

/// The draw that selects the band of a regular spike, in millionths.
pub open spec fn tier_draw(words: Seq<u64>) -> int {
    scaled(words[5], SCALE)
}

/// The band that a tier draw selects: medium below 0.3, large below 0.6, very
/// large from there on.
pub open spec fn band_of(tier: int) -> Band {
    if tier < 300_000 {
        Band { magnitude_low: 500_000, magnitude_high: 700_000, duration_low: 2, duration_high: 5 }
    } else if tier < 600_000 {
        Band { magnitude_low: 700_000, magnitude_high: 900_000, duration_low: 3, duration_high: 6 }
    } else {
        Band {
            magnitude_low: 900_000,
            magnitude_high: 1_000_000,
            duration_low: 4,
            duration_high: 8,
        }
    }
}

/// The magnitude that the words give a regular spike of `band`.
pub open spec fn magnitude_in(band: Band, words: Seq<u64>) -> int {
    band.magnitude_low + scaled(words[6], (band.magnitude_high - band.magnitude_low) as u64)
}

/// A maximum spike takes the whole headroom and lasts three to seven seconds.
pub open spec fn maximum_offer() -> Offer {
    Offer { magnitude: SCALE as int, duration_low: 3, duration_high: 8 }
}

/// The regular spike that the words offer in `band`.
pub open spec fn regular_offer(band: Band, words: Seq<u64>) -> Offer {
    Offer {
        magnitude: magnitude_in(band, words),
        duration_low: band.duration_low as int,
        duration_high: band.duration_high as int,
    }
}

/// The duration of an offered spike: drawn from the range of the offer by a
/// generator of its own, which is seeded with the duration word of the
/// second. The draw lies within the range; the model holds it there, so that
/// what is proved of the model does not rest on the draw.
pub open spec fn drawn_duration(offer: Offer, words: Seq<u64>) -> int {
    clamp(
        seeded_range(words[7], offer.duration_low as u32, offer.duration_high as u32) as int,
        offer.duration_low,
        offer.duration_high - 1,
    )
}

/// The noise draw: uniform over `0 .. 2 * SCALE`, where `SCALE` stands for no
/// noise.
pub open spec fn noise_draw(words: Seq<u64>) -> int {
    scaled(words[8], 2_000_000)
}

/// A spike that begins takes some of the headroom, at most all of it, and
/// lasts at least one second and at most `LONGEST_SPIKE`.
pub open spec fn may_begin(begun: Option<(int, int)>) -> bool {
    match begun {
        Some((magnitude, duration)) => 0 < magnitude <= SCALE && 0 < duration <= LONGEST_SPIKE,
        None => true,
    }
}

/// What a spike adds to the base: its full height while it is `elapsed`
/// seconds old, times `1 - (elapsed / duration)^2`. For a second that lies
/// more than a duration before the start the factor is negative.
pub open spec fn spike_lift(full: int, duration: int, elapsed: int) -> int {
    if elapsed * elapsed <= duration * duration {
        full * (duration * duration - elapsed * elapsed) / (duration * duration)
    } else {
        -(full * (elapsed * elapsed - duration * duration) / (duration * duration))
    }
}

/// The rate that a level (in millionths) settles to: multiplied by the noise
/// factor, rounded to the nearest whole rate and held within `0 ..= max_rps`.
pub open spec fn settle(level: int, noise: int, noise_factor: int, max_rps: int) -> int {
    if level <= 0 {
        0
    } else {
        let noisy = level * (SCALE * SCALE + (noise - SCALE) * noise_factor) / (SCALE * SCALE);
        let rounded = (noisy + SCALE / 2) / (SCALE as int);
        if rounded > max_rps {
            max_rps
        } else {
            rounded
        }
    }
}

impl PatternModel {
    /// The tunable parameters lie within their ranges.
    pub open spec fn clamped(self) -> bool {
        &&& self.target_avg * MIN_BASE_SHARE <= self.base_level <= self.target_avg
            * MAX_BASE_SHARE
        &&& MIN_SPIKE_CHANCE <= self.spike_chance <= MAX_SPIKE_CHANCE
        &&& MIN_MAX_SPIKE_CHANCE <= self.max_spike_chance <= MAX_MAX_SPIKE_CHANCE
    }

    /// The invariant of every generator.
    pub open spec fn wf(self) -> bool {
        &&& 0 <= self.min_rps <= self.target_avg <= self.max_rps <= u32::MAX
        &&& self.clamped()
        &&& self.noise_factor == NOISE_FACTOR
        &&& NEVER_SPIKED <= self.last_spike_time <= u32::MAX
        &&& match self.current_spike {
            Some(spike) => spike.wf(),
            None => true,
        }
    }

    /// The state of a new generator.
    pub open spec fn initial(min_rps: int, max_rps: int, target_avg: int) -> PatternModel {
        PatternModel {
            min_rps,
            max_rps,
            target_avg,
            base_level: target_avg * INITIAL_BASE_SHARE,
            spike_chance: INITIAL_SPIKE_CHANCE as int,
            max_spike_chance: INITIAL_MAX_SPIKE_CHANCE as int,
            noise_factor: NOISE_FACTOR as int,
            last_spike_time: NEVER_SPIKED as int,
            current_spike: None,
        }
    }

    /// The tunable parameters of the generator.
    pub open spec fn tunables(self) -> Tunables {
        Tunables {
            base_level: self.base_level,
            spike_chance: self.spike_chance,
            max_spike_chance: self.max_spike_chance,
        }
    }

    /// The same generator with `tunables` as they are given.
    pub open spec fn with_tunables(self, tunables: Tunables) -> PatternModel {
        PatternModel {
            base_level: tunables.base_level,
            spike_chance: tunables.spike_chance,
            max_spike_chance: tunables.max_spike_chance,
            ..self
        }
    }

    /// The same generator with `tunables`, each held within its range: the one
    /// way in which the tunable parameters change.
    pub open spec fn retuned(self, tunables: Tunables) -> PatternModel {
        self.with_tunables(
            Tunables {
                base_level: clamp(
                    tunables.base_level,
                    self.target_avg * MIN_BASE_SHARE,
                    self.target_avg * MAX_BASE_SHARE,
                ),
                spike_chance: clamp(
                    tunables.spike_chance,
                    MIN_SPIKE_CHANCE as int,
                    MAX_SPIKE_CHANCE as int,
                ),
                max_spike_chance: clamp(
                    tunables.max_spike_chance,
                    MIN_MAX_SPIKE_CHANCE as int,
                    MAX_MAX_SPIKE_CHANCE as int,
                ),
            },
        )
    }

    /// The same generator with no spike behind it.
    pub open spec fn rested(self) -> PatternModel {
        PatternModel { last_spike_time: NEVER_SPIKED as int, current_spike: None, ..self }
    }

    /// Both spike chances are doubled after more than a minute without a spike.
    pub open spec fn boost(self, second: int) -> int {
        if second - self.last_spike_time > QUIET_SECONDS {
            2
        } else {
            1
        }
    }

    /// The spike that the words offer in `second`, if any. A maximum spike
    /// goes before a regular one; a regular spike takes its magnitude and the
    /// range of its duration from the band that the tier draw selects.
    pub open spec fn spike_offer(self, second: int, words: Seq<u64>) -> Option<Offer> {
        if max_spike_draw(words) < self.max_spike_chance * self.boost(second) {
            Some(maximum_offer())
        } else if spike_draw(words) < self.spike_chance * self.boost(second) {
            Some(regular_offer(band_of(tier_draw(words)), words))
        } else {
            None
        }
    }

    /// Whether a spike begins in `second`, and with which magnitude and
    /// duration.
    pub open spec fn spike_choice(self, second: int, words: Seq<u64>) -> Option<(int, int)> {
        match self.spike_offer(second, words) {
            Some(offer) => Some((offer.magnitude, drawn_duration(offer, words))),
            None => None,
        }
    }

    /// The base level of one second, in millionths: the base level moved by
    /// the drift, by at most twelve percent either way.
    pub open spec fn drifting_base(self, words: Seq<u64>) -> int {
        self.base_level * (WALK_SPAN - WALK_CENTER + walk_sum(words)) / (WALK_SPAN as int)
    }

    /// The room between the drifting base and the maximum rate, in millionths.
    pub open spec fn headroom(self, words: Seq<u64>) -> int {
        self.max_rps * SCALE - self.drifting_base(words)
    }

    /// The state after `second`, and what the spike adds to the base in it, in
    /// millionths. A running spike decays; one that is over is forgotten and
    /// adds nothing; without a spike the one of `begun` begins, at its full
    /// height.
    pub open spec fn spike_step(self, second: int, words: Seq<u64>, begun: Option<(int, int)>) -> (
        PatternModel,
        int,
    ) {
        match self.current_spike {
            Some(spike) => {
                if second < spike.start + spike.duration {
                    (
                        self,
                        spike_lift(
                            self.headroom(words) * spike.magnitude / (SCALE as int),
                            spike.duration,
                            second - spike.start,
                        ),
                    )
                } else {
                    (PatternModel { current_spike: None, ..self }, 0)
                }
            },
            None => match begun {
                Some((magnitude, duration)) => (
                    PatternModel {
                        last_spike_time: second,
                        current_spike: Some(SpikeModel { magnitude, start: second, duration }),
                        ..self
                    },
                    self.headroom(words) * magnitude / (SCALE as int),
                ),
                None => (self, 0),
            },
        }
    }

    /// The state after `second` and the rate of that second, where `begun` is
    /// the spike that begins in it unless one is running.
    pub open spec fn step_given(self, second: int, words: Seq<u64>, begun: Option<(int, int)>) -> (
        PatternModel,
        int,
    ) {
        let (next, lift) = self.spike_step(second, words, begun);
        (
            next,
            settle(
                self.drifting_base(words) + lift,
                noise_draw(words),
                self.noise_factor,
                self.max_rps,
            ),
        )
    }

    /// The state after `second` and the rate of that second.
    pub open spec fn step(self, second: int, words: Seq<u64>) -> (PatternModel, int) {
        self.step_given(second, words, self.spike_choice(second, words))
    }

    /// The state after the seconds `0 .. seconds`, taken in order, and their
    /// rates. Each second is given the words that belong to it.
    pub open spec fn run(self, seconds: nat) -> (PatternModel, Seq<u64>)
        decreases seconds,
    {
        if seconds == 0 {
            (self, Seq::empty())
        } else {
            let (before, rates) = self.run((seconds - 1) as nat);
            let (after, rate) = before.step(seconds - 1, seeded_words((seconds - 1) as u64));
            (after, rates.push(rate as u64))
        }
    }
}

} // verus!
