use vstd::prelude::*;

verus! {

/// Hardware limits for the clock-generator search, fixed per target chip
/// family. Frequencies are plain integers: system-clock bounds in Hz,
/// crystal and VCO bounds in kHz (the reference divider is fixed at 1, so
/// the crystal frequency is also the PLL reference frequency).
#[derive(Clone, Copy, Debug, PartialEq, Eq, Structural)]
pub struct HardwareConstants {
    /// Crystal reference frequency, kHz.
    pub crystal_frequency_khz: u64,
    /// Lowest supported system-clock frequency, Hz.
    pub system_clock_min_hz: u64,
    /// Highest supported system-clock frequency, Hz.
    pub system_clock_max_hz: u64,
    /// Lowest legal VCO frequency, kHz.
    pub vco_min_khz: u64,
    /// Highest legal VCO frequency, kHz.
    pub vco_max_khz: u64,
    /// Smallest legal feedback divider.
    pub feedback_divider_min: u64,
    /// Largest legal feedback divider.
    pub feedback_divider_max: u64,
    /// Smallest legal post-divider (applies to post-divider 1).
    pub post_divider_min: u8,
    /// Largest legal post-divider.
    pub post_divider_max: u8,
    /// Largest integer multiplier tried for the peripheral-clock divider.
    pub max_int_divider: u64,
}

impl HardwareConstants {
    /// Well-formed limits: non-empty ranges, dividers at least 1, and
    /// magnitudes small enough that no search intermediate overflows a u64.
    pub open spec fn wf(self) -> bool {
        &&& 1 <= self.crystal_frequency_khz
        &&& 1 <= self.feedback_divider_min <= self.feedback_divider_max
        &&& 1 <= self.post_divider_min <= self.post_divider_max
        &&& self.feedback_divider_max * self.crystal_frequency_khz <= u64::MAX
        &&& 1 <= self.max_int_divider
        &&& 256 * self.max_int_divider + 255 <= u64::MAX
        &&& self.system_clock_max_hz <= u64::MAX as int / 256
    }

    /// The RP2040 limits: a 12 MHz crystal, VCO band 750-1600 MHz,
    /// feedback divider 16-320, post-dividers 1-7, system clock up to
    /// 133 MHz, and a 16-bit integer part in the PIO clock divider.
    pub open spec fn rp2040_spec() -> HardwareConstants {
        HardwareConstants {
            crystal_frequency_khz: 12_000,
            system_clock_min_hz: 15_428_572,
            system_clock_max_hz: 133_000_000,
            vco_min_khz: 750_000,
            vco_max_khz: 1_600_000,
            feedback_divider_min: 16,
            feedback_divider_max: 320,
            post_divider_min: 1,
            post_divider_max: 7,
            max_int_divider: 65_535,
        }
    }

    /// Builds the RP2040 limits.
    pub fn rp2040() -> (c: HardwareConstants)
        ensures
            c == HardwareConstants::rp2040_spec(),
            c.wf(),
    {
        HardwareConstants {
            crystal_frequency_khz: 12_000,
            system_clock_min_hz: 15_428_572,
            system_clock_max_hz: 133_000_000,
            vco_min_khz: 750_000,
            vco_max_khz: 1_600_000,
            feedback_divider_min: 16,
            feedback_divider_max: 320,
            post_divider_min: 1,
            post_divider_max: 7,
            max_int_divider: 65_535,
        }
    }
}

} // verus!
