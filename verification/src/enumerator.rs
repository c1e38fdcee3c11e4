use crate::hardware::HardwareConstants;
use crate::solver::{
    check_sys_clock, check_sys_clock_post, in_system_clock_range, solution_exists,
    PllConfiguration,
};
use vstd::prelude::*;

verus! {

/// Which multiplier search the enumerator runs over the peripheral-clock
/// divider space.
#[derive(Clone, Copy, Debug, PartialEq, Eq, Structural)]
pub enum MultiplierStrategy {
    /// Whole-number multipliers only; a candidate system clock must land on
    /// a whole 256-step of the fractional divider register (divider
    /// fraction 0).
    Integer,
    /// Multipliers with an extra fractional numerator out of 256.
    Fractional,
}

/// A peripheral-clock divider candidate: the system clock is the desired
/// peripheral frequency times `multiplier + fraction/256`. The integer
/// strategy always uses fraction 0.
#[derive(Clone, Copy, Debug, PartialEq, Eq, Structural)]
pub struct PeripheralDividerCandidate {
    /// Integer part of the divider.
    pub multiplier: u64,
    /// Fractional numerator of the divider, out of a fixed 256.
    pub fraction: u8,
}

/// One reported search hit: the divider candidate, the system clock it
/// asks for, and the PLL configuration that produces that clock exactly.
#[derive(Clone, Copy, Debug, PartialEq, Eq, Structural)]
pub struct EnumeratedSolution {
    /// The divider candidate that was tried.
    pub candidate: PeripheralDividerCandidate,
    /// Candidate system-clock frequency, Hz.
    pub system_clock_hz: u64,
    /// The exact PLL configuration the solver found for that clock.
    pub configuration: PllConfiguration,
}

/// System clock, Hz, that a candidate asks of the PLL solver.
pub open spec fn candidate_system_clock_hz(
    desired_hz: int,
    strategy: MultiplierStrategy,
    multiplier: int,
    fraction: int,
) -> int {
    match strategy {
        MultiplierStrategy::Integer => desired_hz * multiplier,
        MultiplierStrategy::Fractional => desired_hz * (256 * multiplier + fraction) / 256,
    }
}

/// A candidate is reported exactly when its multiplier is in range, its
/// product with the desired frequency lands on a whole 256-step of the
/// divider register, and the PLL solver finds an exact configuration for
/// the candidate system clock: the clock is in band, a whole number of
/// kHz, and exactly factorizable.
pub open spec fn candidate_reported(
    c: HardwareConstants,
    desired_hz: int,
    strategy: MultiplierStrategy,
    multiplier: int,
    fraction: int,
) -> bool {
    match strategy {
        MultiplierStrategy::Integer => {
            &&& 1 <= multiplier <= c.max_int_divider
            &&& fraction == 0
            &&& desired_hz * multiplier % 256 == 0
            &&& in_system_clock_range(c, desired_hz * multiplier)
            &&& desired_hz * multiplier % 1000 == 0
            &&& solution_exists(c, desired_hz * multiplier / 1000)
        },
        MultiplierStrategy::Fractional => {
            &&& 1 <= multiplier <= c.max_int_divider
            &&& 0 <= fraction < 256
            &&& desired_hz * (256 * multiplier + fraction) % 256 == 0
            &&& in_system_clock_range(c, desired_hz * (256 * multiplier + fraction) / 256)
            &&& desired_hz * (256 * multiplier + fraction) / 256 % 1000 == 0
            &&& solution_exists(c, desired_hz * (256 * multiplier + fraction) / 256 / 1000)
        },
    }
}

/// Everything the enumerator promises of one reported entry: the candidate
/// is one that must be reported, the recorded system clock is the one the
/// candidate asks for, and the configuration is exactly what the PLL
/// solver returns for it.
pub open spec fn reported_entry_ok(
    c: HardwareConstants,
    desired_hz: int,
    strategy: MultiplierStrategy,
    e: EnumeratedSolution,
) -> bool {
    &&& candidate_reported(
        c,
        desired_hz,
        strategy,
        e.candidate.multiplier as int,
        e.candidate.fraction as int,
    )
    &&& e.system_clock_hz == candidate_system_clock_hz(
        desired_hz,
        strategy,
        e.candidate.multiplier as int,
        e.candidate.fraction as int,
    )
    &&& check_sys_clock_post(c, e.system_clock_hz as int, Some(e.configuration))
}

/// Candidate `a` comes strictly earlier in the descending search order
/// than candidate `b`: a larger multiplier, or the same multiplier with a
/// larger fraction.
pub open spec fn candidate_order_gt(
    a: PeripheralDividerCandidate,
    b: PeripheralDividerCandidate,
) -> bool {
    ||| a.multiplier > b.multiplier
    ||| (a.multiplier == b.multiplier && a.fraction > b.fraction)
}

/// Candidate system clock for the integer strategy: the desired peripheral
/// frequency times the multiplier, provided the product fits in 64 bits
/// and lands on a whole 256-step of the fractional divider register.
pub fn integer_multiplier_candidate(desired_pio_frequency_hz: u64, multiplier: u64) -> (r: Option<
    u64,
>)
    ensures
        ({
            let product = desired_pio_frequency_hz as int * multiplier as int;
            match r {
                Some(hz) => product % 256 == 0 && hz == product,
                None => product % 256 != 0 || product > u64::MAX,
            }
        }),
{
    match desired_pio_frequency_hz.checked_mul(multiplier) {
        Some(product) => if product % 256 == 0 {
            Some(product)
        } else {
            None
        },
        None => None,
    }
}

/// Candidate system clock for the fractional strategy: the desired
/// peripheral frequency times `(256*multiplier + fraction)/256`, provided
/// the product fits in 64 bits and the division by 256 is exact. A
/// candidate whose division would truncate is rejected, since a truncated
/// system clock cannot reproduce the desired peripheral frequency exactly.
pub fn fractional_multiplier_candidate(
    desired_pio_frequency_hz: u64,
    multiplier: u64,
    fraction: u8,
) -> (r: Option<u64>)
    requires
        1 <= desired_pio_frequency_hz,
    ensures
        ({
            let product = desired_pio_frequency_hz as int * (256 * multiplier as int
                + fraction as int);
            match r {
                Some(hz) => product % 256 == 0 && product <= u64::MAX && hz == product / 256,
                None => product % 256 != 0 || product > u64::MAX,
            }
        }),
{
    let ghost numerator_int: int = 256 * multiplier as int + fraction as int;
    let numerator: u64 = match multiplier.checked_mul(256) {
        Some(n) => match n.checked_add(fraction as u64) {
            Some(n) => n,
            None => {
                proof {
                    lemma_product_at_least_factor(
                        desired_pio_frequency_hz as int,
                        numerator_int,
                    );
                }
                return None;
            },
        },
        None => {
            proof {
                lemma_product_at_least_factor(desired_pio_frequency_hz as int, numerator_int);
            }
            return None;
        },
    };
    match desired_pio_frequency_hz.checked_mul(numerator) {
        Some(product) => if product % 256 == 0 {
            Some(product / 256)
        } else {
            None
        },
        None => None,
    }
}

/// A product of a positive factor with a non-negative one is at least the
/// non-negative factor.
proof fn lemma_product_at_least_factor(a: int, b: int)
    requires
        1 <= a,
        0 <= b,
    ensures
        b <= a * b,
{
    assert(b <= a * b) by (nonlinear_arith)
        requires
            1 <= a,
            0 <= b,
    ;
}

/// Integer-multiplier search, descending so that larger, lower-jitter
/// system clocks are reported first.
#[verifier::loop_isolation(false)]
fn enumerate_integer(c: &HardwareConstants, desired_pio_frequency_hz: u64) -> (r: Vec<
    EnumeratedSolution,
>)
    requires
        c.wf(),
    ensures
        forall|i: int|
            0 <= i < r@.len() ==> reported_entry_ok(
                *c,
                desired_pio_frequency_hz as int,
                MultiplierStrategy::Integer,
                #[trigger] r@[i],
            ),
        forall|m: int, f: int|
            #[trigger] candidate_reported(
                *c,
                desired_pio_frequency_hz as int,
                MultiplierStrategy::Integer,
                m,
                f,
            ) ==> exists|i: int|
                0 <= i < r@.len() && (#[trigger] r@[i]).candidate.multiplier == m
                    && r@[i].candidate.fraction == f,
        forall|i: int, j: int|
            0 <= i < j < r@.len() ==> candidate_order_gt(r@[i].candidate, r@[j].candidate),
{
    let ghost d: int = desired_pio_frequency_hz as int;
    let mut results: Vec<EnumeratedSolution> = Vec::new();
    let mut multiplier: u64 = c.max_int_divider;
    while multiplier >= 1
        invariant
            multiplier <= c.max_int_divider,
            forall|i: int|
                0 <= i < results@.len() ==> reported_entry_ok(
                    *c,
                    d,
                    MultiplierStrategy::Integer,
                    #[trigger] results@[i],
                ),
            forall|i: int|
                0 <= i < results@.len() ==> (#[trigger] results@[i]).candidate.multiplier
                    > multiplier,
            forall|i: int, j: int|
                0 <= i < j < results@.len() ==> candidate_order_gt(
                    results@[i].candidate,
                    results@[j].candidate,
                ),
            forall|m: int, f: int|
                #[trigger] candidate_reported(*c, d, MultiplierStrategy::Integer, m, f) && m
                    > multiplier ==> exists|i: int|
                    0 <= i < results@.len() && (#[trigger] results@[i]).candidate.multiplier == m
                        && results@[i].candidate.fraction == f,
        decreases multiplier,
    {
        let ghost prev = results@;
        let mut pushed: bool = false;
        if let Some(hz) = integer_multiplier_candidate(desired_pio_frequency_hz, multiplier) {
            if let Some(configuration) = check_sys_clock(c, hz) {
                results.push(
                    EnumeratedSolution {
                        candidate: PeripheralDividerCandidate { multiplier, fraction: 0 },
                        system_clock_hz: hz,
                        configuration,
                    },
                );
                pushed = true;
            }
        }
        proof {
            if pushed {
                assert(results@ =~= prev.push(results@[prev.len() as int]));
                assert(reported_entry_ok(
                    *c,
                    d,
                    MultiplierStrategy::Integer,
                    results@[prev.len() as int],
                ));
            } else {
                assert(results@ =~= prev);
                assert forall|f: int|
                    !candidate_reported(
                        *c,
                        d,
                        MultiplierStrategy::Integer,
                        multiplier as int,
                        f,
                    ) by {};
            }
            assert forall|m: int, f: int|
                #[trigger] candidate_reported(*c, d, MultiplierStrategy::Integer, m, f) && m
                    > multiplier - 1 implies exists|i: int|
                0 <= i < results@.len() && (#[trigger] results@[i]).candidate.multiplier == m
                    && results@[i].candidate.fraction == f by {
                if m == multiplier as int {
                    assert(pushed);
                    assert(results@[prev.len() as int].candidate.multiplier == m
                        && results@[prev.len() as int].candidate.fraction == f);
                } else {
                    assert(exists|i: int|
                        0 <= i < prev.len() && (#[trigger] prev[i]).candidate.multiplier == m
                            && prev[i].candidate.fraction == f);
                    let i = choose|i: int|
                        0 <= i < prev.len() && (#[trigger] prev[i]).candidate.multiplier == m
                            && prev[i].candidate.fraction == f;
                    assert(results@[i].candidate.multiplier == m && results@[i].candidate.fraction
                        == f);
                }
            }
        }
        multiplier = multiplier - 1;
    }
    results
}

/// Fractional-multiplier search: multipliers descend and, within each
/// multiplier, the fractional numerator descends from 255 to 0, so that
/// larger, lower-jitter system clocks are reported first.
#[verifier::loop_isolation(false)]
fn enumerate_fractional(c: &HardwareConstants, desired_pio_frequency_hz: u64) -> (r: Vec<
    EnumeratedSolution,
>)
    requires
        c.wf(),
        1 <= desired_pio_frequency_hz,
    ensures
        forall|i: int|
            0 <= i < r@.len() ==> reported_entry_ok(
                *c,
                desired_pio_frequency_hz as int,
                MultiplierStrategy::Fractional,
                #[trigger] r@[i],
            ),
        forall|m: int, f: int|
            #[trigger] candidate_reported(
                *c,
                desired_pio_frequency_hz as int,
                MultiplierStrategy::Fractional,
                m,
                f,
            ) ==> exists|i: int|
                0 <= i < r@.len() && (#[trigger] r@[i]).candidate.multiplier == m
                    && r@[i].candidate.fraction == f,
        forall|i: int, j: int|
            0 <= i < j < r@.len() ==> candidate_order_gt(r@[i].candidate, r@[j].candidate),
{
    let ghost d: int = desired_pio_frequency_hz as int;
    let mut results: Vec<EnumeratedSolution> = Vec::new();
    let mut multiplier: u64 = c.max_int_divider;
    while multiplier >= 1
        invariant
            multiplier <= c.max_int_divider,
            forall|i: int|
                0 <= i < results@.len() ==> reported_entry_ok(
                    *c,
                    d,
                    MultiplierStrategy::Fractional,
                    #[trigger] results@[i],
                ),
            forall|i: int|
                0 <= i < results@.len() ==> (#[trigger] results@[i]).candidate.multiplier
                    > multiplier,
            forall|i: int, j: int|
                0 <= i < j < results@.len() ==> candidate_order_gt(
                    results@[i].candidate,
                    results@[j].candidate,
                ),
            forall|m: int, f: int|
                #[trigger] candidate_reported(*c, d, MultiplierStrategy::Fractional, m, f) && m
                    > multiplier ==> exists|i: int|
                    0 <= i < results@.len() && (#[trigger] results@[i]).candidate.multiplier == m
                        && results@[i].candidate.fraction == f,
        decreases multiplier,
    {
        let mut fraction_plus_one: u16 = 256;
        while fraction_plus_one >= 1
            invariant
                fraction_plus_one <= 256,
                forall|i: int|
                    0 <= i < results@.len() ==> reported_entry_ok(
                        *c,
                        d,
                        MultiplierStrategy::Fractional,
                        #[trigger] results@[i],
                    ),
                forall|i: int|
                    0 <= i < results@.len() ==> (#[trigger] results@[i]).candidate.multiplier
                        > multiplier || ((#[trigger] results@[i]).candidate.multiplier
                        == multiplier && results@[i].candidate.fraction as int
                        >= fraction_plus_one as int),
                forall|i: int, j: int|
                    0 <= i < j < results@.len() ==> candidate_order_gt(
                        results@[i].candidate,
                        results@[j].candidate,
                    ),
                forall|m: int, f: int|
                    #[trigger] candidate_reported(*c, d, MultiplierStrategy::Fractional, m, f) && (
                    m > multiplier || (m == multiplier && f >= fraction_plus_one)) ==> exists|
                        i: int,
                    |
                        0 <= i < results@.len() && (#[trigger] results@[i]).candidate.multiplier
                            == m && results@[i].candidate.fraction == f,
            decreases fraction_plus_one,
        {
            let fraction: u8 = (fraction_plus_one - 1) as u8;
            let ghost prev = results@;
            let mut pushed: bool = false;
            if let Some(hz) = fractional_multiplier_candidate(
                desired_pio_frequency_hz,
                multiplier,
                fraction,
            ) {
                if let Some(configuration) = check_sys_clock(c, hz) {
                    results.push(
                        EnumeratedSolution {
                            candidate: PeripheralDividerCandidate { multiplier, fraction },
                            system_clock_hz: hz,
                            configuration,
                        },
                    );
                    pushed = true;
                }
            }
            proof {
                if pushed {
                    assert(results@ =~= prev.push(results@[prev.len() as int]));
                    assert(reported_entry_ok(
                        *c,
                        d,
                        MultiplierStrategy::Fractional,
                        results@[prev.len() as int],
                    ));
                } else {
                    assert(results@ =~= prev);
                    assert(!candidate_reported(
                        *c,
                        d,
                        MultiplierStrategy::Fractional,
                        multiplier as int,
                        fraction as int,
                    )) by {
                        let product = d * (256 * multiplier as int + fraction as int);
                        if product > u64::MAX {
                            assert(product / 256 > u64::MAX as int / 256) by (nonlinear_arith)
                                requires
                                    product > u64::MAX,
                            ;
                        }
                    };
                }
                assert forall|m: int, f: int|
                    #[trigger] candidate_reported(*c, d, MultiplierStrategy::Fractional, m, f) && (
                    m > multiplier || (m == multiplier && f >= fraction_plus_one - 1)) implies exists|
                    i: int,
                |
                    0 <= i < results@.len() && (#[trigger] results@[i]).candidate.multiplier == m
                        && results@[i].candidate.fraction == f by {
                    if m == multiplier as int && f == fraction as int {
                        assert(pushed);
                        assert(results@[prev.len() as int].candidate.multiplier == m
                            && results@[prev.len() as int].candidate.fraction == f);
                    } else {
                        assert(exists|i: int|
                            0 <= i < prev.len() && (#[trigger] prev[i]).candidate.multiplier == m
                                && prev[i].candidate.fraction == f);
                        let i = choose|i: int|
                            0 <= i < prev.len() && (#[trigger] prev[i]).candidate.multiplier == m
                                && prev[i].candidate.fraction == f;
                        assert(results@[i].candidate.multiplier == m
                            && results@[i].candidate.fraction == f);
                    }
                }
            }
            fraction_plus_one = fraction_plus_one - 1;
        }
        multiplier = multiplier - 1;
    }
    results
}

/// Runs the chosen multiplier strategy over the whole candidate space and
/// reports every candidate for which the PLL solver finds an exact
/// configuration, in descending search order (larger multipliers first,
/// and larger fractions first within a multiplier). Candidates the solver
/// cannot satisfy are silently skipped; an empty result is an expected
/// outcome, not a failure.
pub fn enumerate(
    c: &HardwareConstants,
    desired_pio_frequency_hz: u64,
    strategy: MultiplierStrategy,
) -> (r: Vec<EnumeratedSolution>)
    requires
        c.wf(),
        1 <= desired_pio_frequency_hz,
    ensures
        forall|i: int|
            0 <= i < r@.len() ==> reported_entry_ok(
                *c,
                desired_pio_frequency_hz as int,
                strategy,
                #[trigger] r@[i],
            ),
        forall|m: int, f: int|
            #[trigger] candidate_reported(*c, desired_pio_frequency_hz as int, strategy, m, f)
                ==> exists|i: int|
                0 <= i < r@.len() && (#[trigger] r@[i]).candidate.multiplier == m
                    && r@[i].candidate.fraction == f,
        forall|i: int, j: int|
            0 <= i < j < r@.len() ==> candidate_order_gt(r@[i].candidate, r@[j].candidate),
{
    match strategy {
        MultiplierStrategy::Integer => enumerate_integer(c, desired_pio_frequency_hz),
        MultiplierStrategy::Fractional => enumerate_fractional(c, desired_pio_frequency_hz),
    }
}

} // verus!
