use crate::hardware::HardwareConstants;
use vstd::prelude::*;

verus! {

/// One exact PLL configuration: the VCO frequency together with the divider
/// triple that produces it from the crystal and divides it down to the
/// target system clock.
#[derive(Clone, Copy, Debug, PartialEq, Eq, Structural)]
pub struct PllConfiguration {
    /// VCO frequency, kHz; always `feedback_divider * crystal_frequency_khz`.
    pub vco_khz: u64,
    /// Feedback divider that multiplies the reference up to the VCO.
    pub feedback_divider: u64,
    /// First post-divider.
    pub post_div1: u8,
    /// Second post-divider; at most `post_div1`.
    pub post_div2: u8,
}

/// VCO frequency, kHz, produced by a feedback divider (the reference
/// divider is fixed at 1, so the reference frequency is the crystal's).
pub open spec fn vco_khz_of(c: HardwareConstants, feedback_divider: int) -> int {
    feedback_divider * c.crystal_frequency_khz
}

/// The divider triple lies within the hardware ranges, with the second
/// post-divider no larger than the first.
pub open spec fn dividers_in_range(
    c: HardwareConstants,
    feedback_divider: int,
    post_div1: int,
    post_div2: int,
) -> bool {
    &&& c.feedback_divider_min <= feedback_divider <= c.feedback_divider_max
    &&& c.post_divider_min <= post_div1 <= c.post_divider_max
    &&& 1 <= post_div2 <= post_div1
}

/// The divider triple reproduces `target_khz` exactly: the VCO lies in its
/// operating band and is divided by the post-dividers with zero remainder.
pub open spec fn exact_solution(
    c: HardwareConstants,
    target_khz: int,
    feedback_divider: int,
    post_div1: int,
    post_div2: int,
) -> bool {
    let vco = vco_khz_of(c, feedback_divider);
    &&& dividers_in_range(c, feedback_divider, post_div1, post_div2)
    &&& c.vco_min_khz <= vco <= c.vco_max_khz
    &&& vco % (post_div1 * post_div2) == 0
    &&& vco / (post_div1 * post_div2) == target_khz
}

/// Some divider triple reproduces `target_khz` exactly.
pub open spec fn solution_exists(c: HardwareConstants, target_khz: int) -> bool {
    exists|fd: int, p1: int, p2: int| exact_solution(c, target_khz, fd, p1, p2)
}

/// Triple `a` is visited no earlier than triple `b` by the search, which
/// descends on the feedback divider, then on post-divider 1, then on
/// post-divider 2. Equivalently, `a` is lexicographically at most `b`.
pub open spec fn search_order_le(
    fd_a: int,
    p1_a: int,
    p2_a: int,
    fd_b: int,
    p1_b: int,
    p2_b: int,
) -> bool {
    ||| fd_a < fd_b
    ||| (fd_a == fd_b && p1_a < p1_b)
    ||| (fd_a == fd_b && p1_a == p1_b && p2_a <= p2_b)
}

/// The frequency lies within the chip's supported system-clock band.
pub open spec fn in_system_clock_range(c: HardwareConstants, hz: int) -> bool {
    c.system_clock_min_hz <= hz <= c.system_clock_max_hz
}

/// Everything `check_sys_clock` promises of its result. A configuration is
/// returned exactly when the desired frequency is inside the system-clock
/// band, is a whole number of kHz (the dividers produce whole-kHz clocks,
/// so any other frequency has no exact solution), and an exact divider
/// triple exists for it; the returned triple is then the first one in the
/// descending search order, i.e. the lexicographically largest exact triple.
pub open spec fn check_sys_clock_post(
    c: HardwareConstants,
    desired_hz: int,
    r: Option<PllConfiguration>,
) -> bool {
    match r {
        Some(cfg) => {
            &&& in_system_clock_range(c, desired_hz)
            &&& desired_hz % 1000 == 0
            &&& cfg.vco_khz == vco_khz_of(c, cfg.feedback_divider as int)
            &&& exact_solution(
                c,
                desired_hz / 1000,
                cfg.feedback_divider as int,
                cfg.post_div1 as int,
                cfg.post_div2 as int,
            )
            &&& forall|fd: int, p1: int, p2: int|
                #[trigger] exact_solution(c, desired_hz / 1000, fd, p1, p2) ==> search_order_le(
                    fd,
                    p1,
                    p2,
                    cfg.feedback_divider as int,
                    cfg.post_div1 as int,
                    cfg.post_div2 as int,
                )
        },
        None => !in_system_clock_range(c, desired_hz) || desired_hz % 1000 != 0
            || !solution_exists(c, desired_hz / 1000),
    }
}

/// Searches for an exact PLL configuration for the desired system clock.
///
/// The feedback divider descends from its maximum, and for each VCO
/// frequency inside the operating band the post-divider pairs descend as
/// well, so among several exact factorizations the one with the largest
/// dividers — the lowest-jitter one — is returned first. Returns `None`
/// when the frequency is outside the supported band, is not a whole
/// number of kHz (the search works in whole kHz, which every produced
/// clock is, so such a frequency cannot be reproduced exactly), or no
/// exact factorization exists: an expected outcome, not a failure.
#[verifier::loop_isolation(false)]
pub fn check_sys_clock(c: &HardwareConstants, desired_frequency_hz: u64) -> (r: Option<
    PllConfiguration,
>)
    requires
        c.wf(),
    ensures
        check_sys_clock_post(*c, desired_frequency_hz as int, r),
{
    if desired_frequency_hz < c.system_clock_min_hz || desired_frequency_hz > c.system_clock_max_hz
    {
        return None;
    }
    if desired_frequency_hz % 1000 != 0 {
        return None;
    }
    let freq_khz: u64 = desired_frequency_hz / 1000;
    let ghost target: int = freq_khz as int;

    let mut feedback_divide: u64 = c.feedback_divider_max;
    while feedback_divide >= c.feedback_divider_min
        invariant
            feedback_divide <= c.feedback_divider_max,
            forall|fd: int, p1: int, p2: int|
                exact_solution(*c, target, fd, p1, p2) ==> fd <= feedback_divide,
        decreases feedback_divide,
    {
        proof {
            assert(feedback_divide * c.crystal_frequency_khz <= c.feedback_divider_max
                * c.crystal_frequency_khz) by (nonlinear_arith)
                requires
                    feedback_divide <= c.feedback_divider_max,
                    0 <= c.crystal_frequency_khz,
            ;
        }
        let vco_khz: u64 = feedback_divide * c.crystal_frequency_khz;

        if vco_khz >= c.vco_min_khz && vco_khz <= c.vco_max_khz {
            let mut post_div1: u8 = c.post_divider_max;
            while post_div1 >= c.post_divider_min
                invariant
                    post_div1 <= c.post_divider_max,
                    forall|p1: int, p2: int|
                        exact_solution(*c, target, feedback_divide as int, p1, p2) ==> p1
                            <= post_div1,
                decreases post_div1,
            {
                let mut post_div2: u8 = post_div1;
                while post_div2 >= 1
                    invariant
                        post_div2 <= post_div1,
                        forall|p2: int|
                            exact_solution(
                                *c,
                                target,
                                feedback_divide as int,
                                post_div1 as int,
                                p2,
                            ) ==> p2 <= post_div2,
                    decreases post_div2,
                {
                    proof {
                        assert(1 <= post_div1 as int * post_div2 as int <= 255 * 255)
                            by (nonlinear_arith)
                            requires
                                1 <= post_div1 as int <= 255,
                                1 <= post_div2 as int <= 255,
                        ;
                    }
                    let divisor: u64 = (post_div1 as u64) * (post_div2 as u64);
                    let out: u64 = vco_khz / divisor;

                    if out == freq_khz && vco_khz % divisor == 0 {
                        return Some(
                            PllConfiguration {
                                vco_khz,
                                feedback_divider: feedback_divide,
                                post_div1,
                                post_div2,
                            },
                        );
                    }
                    post_div2 = post_div2 - 1;
                }
                post_div1 = post_div1 - 1;
            }
        }
        feedback_divide = feedback_divide - 1;
    }
    None
}

/// Exactness: a returned configuration's VCO is the feedback divider times
/// the crystal frequency, the post-dividers divide the VCO with zero
/// remainder down to the target — which the divided clock, in Hz, equals
/// exactly — and the second post-divider is at most the first.
pub proof fn lemma_exactness(c: HardwareConstants, desired_hz: int, cfg: PllConfiguration)
    requires
        check_sys_clock_post(c, desired_hz, Some(cfg)),
    ensures
        cfg.vco_khz == cfg.feedback_divider * c.crystal_frequency_khz,
        1 <= cfg.post_div1 as int * cfg.post_div2 as int,
        cfg.vco_khz as int % (cfg.post_div1 as int * cfg.post_div2 as int) == 0,
        cfg.vco_khz as int / (cfg.post_div1 as int * cfg.post_div2 as int) == desired_hz / 1000,
        1000 * (cfg.vco_khz as int / (cfg.post_div1 as int * cfg.post_div2 as int)) == desired_hz,
        cfg.post_div2 <= cfg.post_div1,
{
    assert(1 <= cfg.post_div1 as int * cfg.post_div2 as int) by (nonlinear_arith)
        requires
            1 <= cfg.post_div1 as int,
            1 <= cfg.post_div2 as int,
    ;
}

/// Range invariants: a returned configuration respects the hardware limits;
/// with the RP2040 limits, the feedback divider lies in [16, 320], the
/// post-dividers in [1, 7], and the VCO in [750 000, 1 600 000] kHz.
pub proof fn lemma_range_invariants(c: HardwareConstants, desired_hz: int, cfg: PllConfiguration)
    requires
        check_sys_clock_post(c, desired_hz, Some(cfg)),
    ensures
        c.feedback_divider_min <= cfg.feedback_divider <= c.feedback_divider_max,
        c.post_divider_min <= cfg.post_div1 <= c.post_divider_max,
        1 <= cfg.post_div2 <= cfg.post_div1,
        c.vco_min_khz <= cfg.vco_khz <= c.vco_max_khz,
        c == HardwareConstants::rp2040_spec() ==> 16 <= cfg.feedback_divider <= 320
            && 1 <= cfg.post_div2 <= cfg.post_div1 <= 7 && 750_000 <= cfg.vco_khz <= 1_600_000,
{
}

/// Determinism: the solver's contract pins at most one result per input, so
/// repeated calls with identical inputs return identical results.
pub proof fn lemma_solver_deterministic(
    c: HardwareConstants,
    desired_hz: int,
    r1: Option<PllConfiguration>,
    r2: Option<PllConfiguration>,
)
    requires
        check_sys_clock_post(c, desired_hz, r1),
        check_sys_clock_post(c, desired_hz, r2),
    ensures
        r1 == r2,
{
    let target = desired_hz / 1000;
    match (r1, r2) {
        (Some(a), Some(b)) => {
            assert(search_order_le(
                a.feedback_divider as int,
                a.post_div1 as int,
                a.post_div2 as int,
                b.feedback_divider as int,
                b.post_div1 as int,
                b.post_div2 as int,
            ));
            assert(search_order_le(
                b.feedback_divider as int,
                b.post_div1 as int,
                b.post_div2 as int,
                a.feedback_divider as int,
                a.post_div1 as int,
                a.post_div2 as int,
            ));
            assert(a == b);
        },
        (Some(a), None) => {
            assert(solution_exists(c, target));
        },
        (None, Some(b)) => {
            assert(solution_exists(c, target));
        },
        (None, None) => {},
    }
}

/// Tie-break preference: among exact post-divider pairs at the returned
/// feedback divider, the solver returns the pair reached first when
/// post-divider 1 descends and, within it, post-divider 2 descends.
pub proof fn lemma_tie_break_preference(
    c: HardwareConstants,
    desired_hz: int,
    cfg: PllConfiguration,
    post_div1: int,
    post_div2: int,
)
    requires
        check_sys_clock_post(c, desired_hz, Some(cfg)),
        exact_solution(c, desired_hz / 1000, cfg.feedback_divider as int, post_div1, post_div2),
    ensures
        post_div1 < cfg.post_div1 || (post_div1 == cfg.post_div1 && post_div2 <= cfg.post_div2),
{
    assert(search_order_le(
        cfg.feedback_divider as int,
        post_div1,
        post_div2,
        cfg.feedback_divider as int,
        cfg.post_div1 as int,
        cfg.post_div2 as int,
    ));
}

/// No-solution correctness: when no divider triple yields an exact
/// factorization of the target, the solver returns the empty result.
pub proof fn lemma_no_solution_returns_empty(
    c: HardwareConstants,
    desired_hz: int,
    r: Option<PllConfiguration>,
)
    requires
        check_sys_clock_post(c, desired_hz, r),
        forall|fd: int, p1: int, p2: int| !(#[trigger] exact_solution(
            c,
            desired_hz / 1000,
            fd,
            p1,
            p2,
        )),
    ensures
        r is None,
{
}

} // verus!

