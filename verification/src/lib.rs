//! Exact clock-generator configuration search for a microcontroller PLL and
//! its programmable-I/O clock divider.
//!
//! Given a crystal reference frequency, the solver finds an exact integer
//! combination of feedback divider and two cascaded post-dividers that
//! reproduces a target system-clock frequency, honoring the VCO operating
//! range. The enumerator searches integer and fractional system-clock
//! multipliers for a desired peripheral frequency and reports every
//! multiplier for which the solver succeeds.

pub mod enumerator;
pub mod hardware;
pub mod solver;
