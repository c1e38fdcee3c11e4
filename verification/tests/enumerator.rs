use pll_search::enumerator::{
    enumerate, fractional_multiplier_candidate, integer_multiplier_candidate, MultiplierStrategy,
};
use pll_search::hardware::HardwareConstants;
use pll_search::solver::check_sys_clock;

#[test]
fn integer_candidate_at_the_256_step_boundary() {
    // desired = 3,072,000 Hz with multiplier 40 gives 122,880,000 Hz,
    // which is a whole multiple of 256 and so passes the register-step
    // check; neighbouring non-multiples are rejected there.
    assert_eq!(integer_multiplier_candidate(3_072_000, 40), Some(122_880_000));
    assert_eq!(integer_multiplier_candidate(122_879_744, 1), Some(122_879_744));
    assert_eq!(integer_multiplier_candidate(122_880_256, 1), Some(122_880_256));
    assert_eq!(integer_multiplier_candidate(122_879_999, 1), None);
    assert_eq!(integer_multiplier_candidate(122_880_001, 1), None);
    assert_eq!(integer_multiplier_candidate(122_880_255, 1), None);
}

#[test]
fn candidate_that_passes_the_step_check_can_still_fail_the_solver() {
    // 122,880,000 Hz survives the 256-divisibility check but the PLL
    // solver finds no exact factorization for 122,880 kHz, so the
    // enumerator must not report multiplier 40.
    let mut c = HardwareConstants::rp2040();
    c.max_int_divider = 45;
    assert_eq!(integer_multiplier_candidate(3_072_000, 40), Some(122_880_000));
    assert_eq!(check_sys_clock(&c, 122_880_000), None);
    let hits = enumerate(&c, 3_072_000, MultiplierStrategy::Integer);
    assert!(hits.iter().all(|h| h.candidate.multiplier != 40));
}

#[test]
fn integer_strategy_reports_every_solvable_multiplier() {
    // For desired = 3,072,000 Hz every product is a multiple of 256, and
    // the PLL solves it exactly for multipliers 10, 15, 20 and 25 only;
    // they are reported in descending order with the solver's
    // lowest-jitter configurations.
    let mut c = HardwareConstants::rp2040();
    c.max_int_divider = 45;
    let hits = enumerate(&c, 3_072_000, MultiplierStrategy::Integer);
    let summary: Vec<(u64, u8, u64, u64, u8, u8)> = hits
        .iter()
        .map(|h| {
            (
                h.candidate.multiplier,
                h.candidate.fraction,
                h.system_clock_hz,
                h.configuration.vco_khz,
                h.configuration.post_div1,
                h.configuration.post_div2,
            )
        })
        .collect();
    assert_eq!(
        summary,
        vec![
            (25, 0, 76_800_000, 1_536_000, 5, 4),
            (20, 0, 61_440_000, 1_536_000, 5, 5),
            (15, 0, 46_080_000, 1_152_000, 5, 5),
            (10, 0, 30_720_000, 768_000, 5, 5),
        ]
    );
    assert_eq!(hits[0].configuration.feedback_divider, 128);
    assert_eq!(hits[1].configuration.feedback_divider, 128);
    assert_eq!(hits[2].configuration.feedback_divider, 96);
    assert_eq!(hits[3].configuration.feedback_divider, 64);
}

#[test]
fn integer_strategy_reports_nothing_below_the_system_clock_band() {
    // With multipliers capped at 5 every candidate system clock stays
    // below the supported band, so nothing is reported.
    let mut c = HardwareConstants::rp2040();
    c.max_int_divider = 5;
    let hits = enumerate(&c, 3_072_000, MultiplierStrategy::Integer);
    assert!(hits.is_empty());
}

#[test]
fn candidate_that_is_not_whole_khz_is_never_reported() {
    // desired = 48,000,768 Hz with multiplier 1 passes the 256-step check
    // and its truncation to 48,000 kHz would be solvable, but the exact
    // frequency is not a whole number of kHz, so the solver and hence the
    // enumerator reject it.
    let mut c = HardwareConstants::rp2040();
    c.max_int_divider = 1;
    assert_eq!(integer_multiplier_candidate(48_000_768, 1), Some(48_000_768));
    assert_eq!(check_sys_clock(&c, 48_000_768), None);
    assert_eq!(check_sys_clock(&c, 48_000_000).map(|cfg| cfg.feedback_divider), Some(120));
    assert!(enumerate(&c, 48_000_768, MultiplierStrategy::Integer).is_empty());
}

#[test]
fn fractional_candidate_requires_an_exact_division() {
    // 61,440,000 * (256 + 144) = 24,576,000,000 divides by 256 exactly.
    assert_eq!(fractional_multiplier_candidate(61_440_000, 1, 144), Some(96_000_000));
    assert_eq!(fractional_multiplier_candidate(256, 2, 3), Some(515));
    // 1,001 * 257 = 257,257 leaves remainder 233, so it is rejected.
    assert_eq!(fractional_multiplier_candidate(1_001, 1, 1), None);
}

#[test]
fn fractional_strategy_reports_every_solvable_fraction() {
    // Pinning the VCO band to exactly 1,536,000 kHz (feedback divider
    // 128) and the multiplier to 1, the solvable fractions for
    // desired = 61,440,000 Hz are exactly 144, 64 and 0, reported in
    // descending order.
    let c = HardwareConstants {
        crystal_frequency_khz: 12_000,
        system_clock_min_hz: 15_428_572,
        system_clock_max_hz: 133_000_000,
        vco_min_khz: 1_536_000,
        vco_max_khz: 1_536_000,
        feedback_divider_min: 16,
        feedback_divider_max: 320,
        post_divider_min: 1,
        post_divider_max: 7,
        max_int_divider: 1,
    };
    let hits = enumerate(&c, 61_440_000, MultiplierStrategy::Fractional);
    let summary: Vec<(u64, u8, u64, u64, u64, u8, u8)> = hits
        .iter()
        .map(|h| {
            (
                h.candidate.multiplier,
                h.candidate.fraction,
                h.system_clock_hz,
                h.configuration.vco_khz,
                h.configuration.feedback_divider,
                h.configuration.post_div1,
                h.configuration.post_div2,
            )
        })
        .collect();
    assert_eq!(
        summary,
        vec![
            (1, 144, 96_000_000, 1_536_000, 128, 4, 4),
            (1, 64, 76_800_000, 1_536_000, 128, 5, 4),
            (1, 0, 61_440_000, 1_536_000, 128, 5, 5),
        ]
    );
}

#[test]
fn enumeration_is_order_stable_across_calls() {
    let mut c = HardwareConstants::rp2040();
    c.max_int_divider = 45;
    let first = enumerate(&c, 3_072_000, MultiplierStrategy::Integer);
    let second = enumerate(&c, 3_072_000, MultiplierStrategy::Integer);
    assert_eq!(first, second);
}
