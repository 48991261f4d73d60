use nekroddos::fixed::{scale_word, SCALE};
use nekroddos::pattern::{band_for, quarters_of, SpikeOffer};
use nekroddos::sampling::Band;
use nekroddos::LoadPattern;

/// The smallest word that `scale_word` takes to `draw` among `span` slices.
fn word_for(draw: u64, span: u64) -> u64 {
    let top: u128 = (draw as u128) << 64;
    ((top + span as u128 - 1) / span as u128) as u64
}

/// The draws of one second, each as the reader thinks of it.
#[derive(Clone, Copy)]
struct Draws {
    walk: [u64; 3],
    max_spike: u64,
    spike: u64,
    tier: u64,
    magnitude: u64,
    duration_seed: u64,
    noise: u64,
}

/// A second without drift, noise or spike.
fn calm() -> Draws {
    Draws {
        walk: [0xFFFF_FFFF_FFFF_FFFF, 0x0000_0000_FFFF_FFFF, 0],
        max_spike: 999_999,
        spike: 999_999,
        tier: 0,
        magnitude: 0,
        duration_seed: 0,
        noise: 1_000_000,
    }
}

fn words(draws: Draws) -> [u64; 9] {
    [
        draws.walk[0],
        draws.walk[1],
        draws.walk[2],
        word_for(draws.max_spike, SCALE),
        word_for(draws.spike, SCALE),
        word_for(draws.tier, SCALE),
        draws.magnitude,
        draws.duration_seed,
        word_for(draws.noise, 2 * SCALE),
    ]
}

fn fresh() -> LoadPattern {
    LoadPattern::new(1, 100, 50).unwrap()
}

const MAXIMUM: Option<(u64, u32)> = Some((1_000_000, 3));

#[test]
fn words_are_scaled_into_the_span() {
    for draw in [0, 1, 19_999, 20_000, 39_999, 40_000, 99_999, 100_000, 999_999] {
        assert_eq!(scale_word(word_for(draw, SCALE), SCALE), draw);
    }
    assert_eq!(scale_word(0, 5), 0);
    assert_eq!(scale_word(u64::MAX, 5), 4);
    assert_eq!(scale_word(u64::MAX, 1), 0);
    assert_eq!(scale_word(u64::MAX, 0), 0);
    assert_eq!(scale_word(u64::MAX, u64::MAX), u64::MAX - 1);
    assert_eq!(scale_word(1 << 63, 2_000_000), 1_000_000);
    assert_eq!(scale_word((1 << 63) - 1, 2_000_000), 999_999);
}

#[test]
fn a_word_has_four_quarters() {
    assert_eq!(quarters_of(0), 0);
    assert_eq!(quarters_of(u64::MAX), 4 * 65_535);
    assert_eq!(quarters_of(0x0001_0002_0003_0004), 10);
    assert_eq!(quarters_of(0xFFFF_0000_0000_0001), 65_536);
}

#[test]
fn a_calm_second_gives_the_base_level() {
    let mut pattern = fresh();
    assert_eq!(pattern.sample_with(0, &words(calm())), 25);
    assert_eq!(pattern.sample_given(1, &words(calm()), None), 25);
    assert_eq!(pattern.last_spike_time(), -100);
    assert!(pattern.current_spike().is_none());
}

#[test]
fn the_base_drifts_by_at_most_twelve_percent() {
    let mut pattern = fresh();
    assert_eq!(pattern.sample_with(0, &words(Draws { walk: [0, 0, 0], ..calm() })), 22);
    assert_eq!(pattern.sample_with(0, &words(Draws { walk: [u64::MAX; 3], ..calm() })), 28);
}

#[test]
fn noise_moves_a_rate_by_at_most_a_tenth() {
    let mut pattern = fresh();
    assert_eq!(pattern.sample_with(0, &words(Draws { noise: 0, ..calm() })), 23);
    assert_eq!(pattern.sample_with(0, &words(Draws { noise: 1_999_999, ..calm() })), 27);
}

#[test]
fn a_maximum_spike_is_offered_below_its_chance() {
    let pattern = fresh();
    let maximum = SpikeOffer { magnitude: 1_000_000, duration_low: 3, duration_high: 8 };
    assert_eq!(pattern.spike_offer(0, &words(calm())), None);
    assert_eq!(pattern.spike_offer(0, &words(Draws { max_spike: 0, ..calm() })), Some(maximum));
    assert_eq!(pattern.spike_offer(0, &words(Draws { max_spike: 39_999, ..calm() })), Some(maximum));
    assert_eq!(pattern.spike_offer(0, &words(Draws { max_spike: 40_000, ..calm() })), None);
}

#[test]
fn a_regular_spike_is_offered_below_its_chance() {
    let pattern = fresh();
    let medium = SpikeOffer { magnitude: 500_000, duration_low: 2, duration_high: 5 };
    assert_eq!(pattern.spike_offer(0, &words(Draws { spike: 0, ..calm() })), Some(medium));
    assert_eq!(pattern.spike_offer(0, &words(Draws { spike: 99_999, ..calm() })), Some(medium));
    assert_eq!(pattern.spike_offer(0, &words(Draws { spike: 100_000, ..calm() })), None);
}

#[test]
fn a_maximum_spike_goes_before_a_regular_one() {
    let pattern = fresh();
    let both = Draws { max_spike: 0, spike: 0, tier: 999_999, ..calm() };
    assert_eq!(
        pattern.spike_offer(0, &words(both)),
        Some(SpikeOffer { magnitude: 1_000_000, duration_low: 3, duration_high: 8 })
    );
}

fn spiked_at_zero() -> LoadPattern {
    let mut pattern = fresh();
    pattern.sample_given(0, &words(calm()), MAXIMUM);
    for second in 1..4 {
        pattern.sample_given(second, &words(calm()), None);
    }
    assert_eq!(pattern.last_spike_time(), 0);
    assert!(pattern.current_spike().is_none());
    pattern
}

#[test]
fn within_a_minute_of_a_spike_the_chances_are_plain() {
    let pattern = spiked_at_zero();
    assert_eq!(pattern.spike_offer(60, &words(Draws { max_spike: 20_000, ..calm() })), None);
    assert!(pattern.spike_offer(60, &words(Draws { max_spike: 19_999, ..calm() })).is_some());
    assert_eq!(pattern.spike_offer(60, &words(Draws { spike: 50_000, ..calm() })), None);
    assert!(pattern.spike_offer(60, &words(Draws { spike: 49_999, ..calm() })).is_some());
}

#[test]
fn after_a_quiet_minute_the_chances_are_doubled() {
    let pattern = spiked_at_zero();
    assert_eq!(pattern.spike_offer(61, &words(Draws { max_spike: 40_000, ..calm() })), None);
    assert!(pattern.spike_offer(61, &words(Draws { max_spike: 39_999, ..calm() })).is_some());
    assert_eq!(pattern.spike_offer(61, &words(Draws { spike: 100_000, ..calm() })), None);
    assert!(pattern.spike_offer(61, &words(Draws { spike: 99_999, ..calm() })).is_some());
}

#[test]
fn the_tier_draw_selects_the_band() {
    let medium =
        Band { magnitude_low: 500_000, magnitude_high: 700_000, duration_low: 2, duration_high: 5 };
    let large =
        Band { magnitude_low: 700_000, magnitude_high: 900_000, duration_low: 3, duration_high: 6 };
    let very_large = Band {
        magnitude_low: 900_000,
        magnitude_high: 1_000_000,
        duration_low: 4,
        duration_high: 8,
    };
    assert_eq!(band_for(0), medium);
    assert_eq!(band_for(299_999), medium);
    assert_eq!(band_for(300_000), large);
    assert_eq!(band_for(599_999), large);
    assert_eq!(band_for(600_000), very_large);
    assert_eq!(band_for(999_999), very_large);
}

#[test]
fn a_regular_offer_lies_within_its_band() {
    let cases = [
        (0, (500_000, 2, 5), (699_999, 2, 5)),
        (299_999, (500_000, 2, 5), (699_999, 2, 5)),
        (300_000, (700_000, 3, 6), (899_999, 3, 6)),
        (599_999, (700_000, 3, 6), (899_999, 3, 6)),
        (600_000, (900_000, 4, 8), (999_999, 4, 8)),
        (999_999, (900_000, 4, 8), (999_999, 4, 8)),
    ];
    for (tier, lowest, highest) in cases {
        let pattern = fresh();
        let draws = Draws { spike: 0, tier, ..calm() };
        let offer = pattern.spike_offer(5, &words(draws)).unwrap();
        assert_eq!((offer.magnitude, offer.duration_low, offer.duration_high), lowest);
        let draws = Draws { magnitude: u64::MAX, ..draws };
        let offer = pattern.spike_offer(5, &words(draws)).unwrap();
        assert_eq!((offer.magnitude, offer.duration_low, offer.duration_high), highest);
    }
}

#[test]
fn spikes_grow_from_tier_to_tier() {
    for word in [0, 1 << 62, 1 << 63, u64::MAX] {
        let mut last = (0, 0, 0);
        for tier in [0, 150_000, 299_999, 300_000, 450_000, 599_999, 600_000, 800_000, 999_999] {
            let pattern = fresh();
            let draws = Draws { spike: 0, tier, magnitude: word, ..calm() };
            let offer = pattern.spike_offer(0, &words(draws)).unwrap();
            let band = band_for(tier);
            assert!(band.magnitude_low <= offer.magnitude && offer.magnitude < band.magnitude_high);
            assert_eq!((offer.duration_low, offer.duration_high), (band.duration_low, band.duration_high));
            assert!(last.0 <= offer.magnitude);
            assert!(last.1 <= offer.duration_low && last.2 <= offer.duration_high);
            last = (offer.magnitude, offer.duration_low, offer.duration_high);
        }
    }
}

#[test]
fn the_duration_is_drawn_from_the_range_of_the_offer() {
    let pattern = fresh();
    let maximum = Draws { max_spike: 0, ..calm() };
    let drawn: Vec<u32> = (0..5)
        .map(|seed| {
            let draws = Draws { duration_seed: seed, ..maximum };
            pattern.determine_spike_type(0, &words(draws)).unwrap().1
        })
        .collect();
    assert_eq!(drawn, vec![7, 7, 3, 6, 6]);

    let expected = [
        (0, vec![4, 4, 2, 2, 4], 2),
        (300_000, vec![5, 5, 3, 3, 5], 3),
        (600_000, vec![7, 7, 4, 4, 6], 4),
    ];
    for (tier, durations, at_the_largest_seed) in expected {
        let regular = Draws { spike: 0, tier, ..calm() };
        let drawn: Vec<u32> = (0..5)
            .map(|seed| {
                let draws = Draws { duration_seed: seed, ..regular };
                pattern.determine_spike_type(0, &words(draws)).unwrap().1
            })
            .collect();
        assert_eq!(drawn, durations);
        let draws = Draws { duration_seed: u64::MAX, ..regular };
        assert_eq!(pattern.determine_spike_type(0, &words(draws)).unwrap().1, at_the_largest_seed);
    }
}

#[test]
fn every_drawn_duration_lies_within_the_range_of_its_offer() {
    let pattern = fresh();
    for tier in [0, 300_000, 600_000] {
        for seed in 0..300 {
            let draws = Draws { spike: 0, tier, duration_seed: seed * 7_919, ..calm() };
            let offer = pattern.spike_offer(0, &words(draws)).unwrap();
            let (magnitude, duration) = pattern.determine_spike_type(0, &words(draws)).unwrap();
            assert_eq!(magnitude, offer.magnitude);
            assert!(offer.duration_low <= duration && duration < offer.duration_high);
        }
    }
}

#[test]
fn determine_spike_type_decides_without_changing_the_generator() {
    let pattern = fresh();
    assert_eq!(pattern.determine_spike_type(0, &words(calm())), None);
    assert_eq!(
        pattern.determine_spike_type(0, &words(Draws { max_spike: 0, ..calm() })),
        Some((1_000_000, 7))
    );
    assert_eq!(
        pattern.determine_spike_type(
            0,
            &words(Draws { spike: 0, tier: 300_000, duration_seed: 2, ..calm() })
        ),
        Some((700_000, 3))
    );
    assert_eq!(
        pattern.determine_spike_type(
            0,
            &words(Draws { max_spike: 0, spike: 0, tier: 999_999, duration_seed: 3, ..calm() })
        ),
        Some((1_000_000, 6))
    );
    assert_eq!(pattern.last_spike_time(), -100);
    assert!(pattern.current_spike().is_none());
}

#[test]
fn a_spike_that_the_words_choose_begins() {
    let mut pattern = fresh();
    assert_eq!(pattern.sample_with(0, &words(Draws { max_spike: 39_999, ..calm() })), 100);
    let spike = pattern.current_spike().unwrap();
    assert_eq!((spike.magnitude, spike.start, spike.duration), (1_000_000, 0, 7));
    assert_eq!(pattern.last_spike_time(), 0);

    let mut pattern = fresh();
    assert_eq!(pattern.sample_with(0, &words(Draws { max_spike: 40_000, ..calm() })), 25);
    assert!(pattern.current_spike().is_none());

    let mut pattern = fresh();
    assert_eq!(pattern.sample_with(0, &words(Draws { spike: 99_999, ..calm() })), 63);
    let spike = pattern.current_spike().unwrap();
    assert_eq!((spike.magnitude, spike.start, spike.duration), (500_000, 0, 4));

    let mut pattern = fresh();
    assert_eq!(pattern.sample_with(0, &words(Draws { spike: 100_000, ..calm() })), 25);
    assert!(pattern.current_spike().is_none());
}

#[test]
fn a_regular_spike_begins_at_its_share_of_the_headroom() {
    let cases = [
        (0, 63, 77, (500_000, 4), (699_999, 4)),
        (299_999, 63, 77, (500_000, 4), (699_999, 4)),
        (300_000, 78, 92, (700_000, 5), (899_999, 5)),
        (599_999, 78, 92, (700_000, 5), (899_999, 5)),
        (600_000, 93, 100, (900_000, 7), (999_999, 7)),
        (999_999, 93, 100, (900_000, 7), (999_999, 7)),
    ];
    for (tier, low_rate, high_rate, lowest, highest) in cases {
        let mut pattern = fresh();
        let draws = Draws { spike: 99_999, tier, ..calm() };
        assert_eq!(pattern.sample_with(5, &words(draws)), low_rate);
        let spike = pattern.current_spike().unwrap();
        assert_eq!((spike.magnitude, spike.duration), lowest);
        assert_eq!(spike.start, 5);

        let mut pattern = fresh();
        let draws = Draws { magnitude: u64::MAX, duration_seed: 1, ..draws };
        assert_eq!(pattern.sample_with(5, &words(draws)), high_rate);
        let spike = pattern.current_spike().unwrap();
        assert_eq!((spike.magnitude, spike.duration), highest);
    }
}

#[test]
fn a_given_spike_begins_where_none_is_running() {
    let mut pattern = fresh();
    assert_eq!(pattern.sample_given(0, &words(calm()), MAXIMUM), 100);
    let spike = pattern.current_spike().unwrap();
    assert_eq!((spike.magnitude, spike.start, spike.duration), (1_000_000, 0, 3));
    assert_eq!(pattern.last_spike_time(), 0);
}

#[test]
fn a_spike_decays_with_the_square_of_its_age() {
    for (duration, expected) in [
        (1, vec![100, 25, 25]),
        (2, vec![100, 81, 25, 25]),
        (3, vec![100, 92, 67, 25, 25]),
        (7, vec![100, 98, 94, 86, 76, 62, 45, 25, 25]),
    ] {
        let mut pattern = fresh();
        let mut rates = Vec::new();
        for second in 0..duration + 2 {
            let begun = if second == 0 { Some((1_000_000, duration)) } else { None };
            rates.push(pattern.sample_given(second, &words(calm()), begun));
        }
        assert_eq!(rates, expected);
        assert!(pattern.current_spike().is_none());
        assert_eq!(pattern.last_spike_time(), 0);
    }

    let mut pattern = fresh();
    let mut rates = Vec::new();
    for second in 10..16 {
        let begun = if second == 10 { Some((500_000, 4)) } else { None };
        rates.push(pattern.sample_given(second, &words(calm()), begun));
    }
    assert_eq!(rates, vec![63, 60, 53, 41, 25, 25]);
}

#[test]
fn no_spike_begins_while_one_is_running_or_ends() {
    let mut pattern = fresh();
    let mut rates = Vec::new();
    for second in 0..6 {
        rates.push(pattern.sample_given(second, &words(calm()), MAXIMUM));
    }
    assert_eq!(rates, vec![100, 92, 67, 25, 100, 92]);
    let spike = pattern.current_spike().unwrap();
    assert_eq!((spike.magnitude, spike.start, spike.duration), (1_000_000, 4, 3));
    assert_eq!(pattern.last_spike_time(), 4);

    let eager = Draws { max_spike: 0, duration_seed: 2, ..calm() };
    let mut pattern = fresh();
    let mut rates = Vec::new();
    for second in 0..5 {
        rates.push(pattern.sample_with(second, &words(eager)));
    }
    assert_eq!(rates, vec![100, 92, 67, 25, 100]);
    assert_eq!(pattern.current_spike().unwrap().start, 4);
}

#[test]
fn a_second_before_a_running_spike_sees_it_mirrored() {
    for (second, rate) in [
        (102, 67),
        (101, 92),
        (100, 100),
        (99, 92),
        (98, 67),
        (97, 25),
        (96, 0),
        (90, 0),
        (0, 0),
    ] {
        let mut pattern = fresh();
        pattern.sample_given(100, &words(calm()), MAXIMUM);
        assert_eq!(pattern.sample_given(second, &words(calm()), None), rate);
        assert_eq!(pattern.current_spike().unwrap().start, 100);
    }
    let mut pattern = fresh();
    pattern.sample_given(100, &words(calm()), MAXIMUM);
    assert_eq!(pattern.sample_given(103, &words(calm()), None), 25);
    assert!(pattern.current_spike().is_none());
}

#[test]
fn the_largest_rates_and_seconds_are_sampled() {
    let mut pattern = LoadPattern::new(0, u32::MAX, u32::MAX).unwrap();
    assert_eq!(pattern.base_level(), 2_147_483_647_500_000);
    assert_eq!(pattern.sample_given(u32::MAX, &words(calm()), MAXIMUM), 4_294_967_295);
    let spike = pattern.current_spike().unwrap();
    assert_eq!((spike.magnitude, spike.start, spike.duration), (1_000_000, u32::MAX, 3));
    assert_eq!(pattern.sample_given(0, &words(calm()), None), 0);

    let mut pattern = LoadPattern::new(0, u32::MAX, 0).unwrap();
    assert_eq!(pattern.base_level(), 0);
    assert_eq!(pattern.sample_given(7, &words(calm()), MAXIMUM), 4_294_967_295);
    assert_eq!(pattern.sample_given(8, &words(calm()), None), 3_817_748_707);
}

#[test]
fn get_tps_takes_the_words_of_its_second() {
    let first: [u64; 9] = [
        13486662071293341567,
        14267822071968393595,
        476749353381333526,
        10775836403224147664,
        4836194562707913489,
        14240644878566540322,
        4034245940868249875,
        14641429003034911175,
        13822854226189844396,
    ];
    let mut drawn = fresh();
    let mut given = fresh();
    assert_eq!(drawn.get_tps(0), given.sample_with(0, &first));
    assert_eq!(drawn.get_tps(0), 26);
    assert_eq!(drawn.get_tps(1), 26);
    assert_eq!(drawn.get_tps(16), 99);
    assert_eq!(drawn.get_tps(17), 87);
}
