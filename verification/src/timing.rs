//! Clock configurator: derives the peripheral's timing register values
//! (input-frequency field, rise-time budget, clock-control divider and
//! duty flag) from a requested bus mode and the peripheral input clock.

use vstd::arithmetic::div_mod::{lemma_div_is_ordered, lemma_fundamental_div_mod, lemma_mod_bound};
use vstd::prelude::*;

use crate::{DutyCycle, Mode};

verus! {

/// The three timing register values plus the Fast-mode duty flag, in the
/// form the peripheral's registers take them.
#[derive(Clone, Copy, Debug, PartialEq, Eq, Structural)]
pub struct Timing {
    /// Peripheral input clock in MHz (input-frequency register field).
    pub freqrange: u8,
    /// Maximum rise time, in input clock periods plus one.
    pub trise: u8,
    /// Clock-control divider.
    pub ccr: u16,
    /// Fast-mode duty flag: set selects the 16:9 low/high ratio.
    pub duty: bool,
}

/// The input-frequency field: the input clock in whole MHz.
pub open spec fn spec_freqrange(i2cclk: u32) -> int {
    i2cclk as int / 1_000_000
}

/// Standard-mode rise-time value for a given input-frequency field.
pub open spec fn spec_trise_standard(freqrange: int) -> int {
    freqrange + 1
}

/// Fast-mode rise-time value: the budget shrinks to 300 ns worth of
/// input clock periods (truncating), plus one.
pub open spec fn spec_trise_fast(freqrange: int) -> int {
    freqrange * 300 / 1000 + 1
}

/// The rise-time register value for a mode.
pub open spec fn spec_trise(mode: Mode, i2cclk: u32) -> int {
    match mode {
        Mode::Standard { .. } => spec_trise_standard(spec_freqrange(i2cclk)),
        Mode::Fast { .. } => spec_trise_fast(spec_freqrange(i2cclk)),
    }
}

/// The raw clock-control quotient before the per-mode floor is applied.
pub open spec fn spec_ccr_quotient(mode: Mode, i2cclk: u32) -> int {
    match mode {
        Mode::Standard { frequency } => i2cclk as int / (2 * frequency),
        Mode::Fast { frequency, duty_cycle: DutyCycle::Ratio1to1 } => i2cclk as int / (3
            * frequency),
        Mode::Fast { frequency, duty_cycle: DutyCycle::Ratio16to9 } => i2cclk as int / (25
            * frequency),
    }
}

/// The per-mode floor below which the divider must never fall: a divider
/// of zero or below the hardware minimum would give an invalid bus clock.
pub open spec fn spec_ccr_floor(mode: Mode) -> int {
    match mode {
        Mode::Standard { .. } => 4,
        Mode::Fast { .. } => 1,
    }
}

/// The clock-control divider: the raw quotient, floored per mode.
pub open spec fn spec_ccr(mode: Mode, i2cclk: u32) -> int {
    if spec_ccr_quotient(mode, i2cclk) < spec_ccr_floor(mode) {
        spec_ccr_floor(mode)
    } else {
        spec_ccr_quotient(mode, i2cclk)
    }
}

/// The duty flag: set only in Fast mode with the 16:9 ratio.
pub open spec fn spec_duty(mode: Mode) -> bool {
    match mode {
        Mode::Standard { .. } => false,
        Mode::Fast { duty_cycle: DutyCycle::Ratio1to1, .. } => false,
        Mode::Fast { duty_cycle: DutyCycle::Ratio16to9, .. } => true,
    }
}

/// The computed values fit their register fields: the rise-time value in
/// eight bits and the divider quotient in sixteen.
pub open spec fn timing_fits(mode: Mode, i2cclk: u32) -> bool {
    &&& spec_freqrange(i2cclk) + 1 <= 255
    &&& spec_ccr_quotient(mode, i2cclk) <= 65535
}

/// Compute the timing register values for a mode and input clock.
pub fn compute_timing(mode: &Mode, i2cclk: u32) -> (t: Timing)
    requires
        mode.valid(),
        timing_fits(*mode, i2cclk),
    ensures
        t.freqrange as int == spec_freqrange(i2cclk),
        t.trise as int == spec_trise(*mode, i2cclk),
        t.ccr as int == spec_ccr(*mode, i2cclk),
        t.duty == spec_duty(*mode),
{
    let freqrange: u32 = i2cclk / 1_000_000;
    let frequency: u32 = mode.get_frequency();
    match *mode {
        Mode::Standard { .. } => {
            let trise: u32 = freqrange + 1;
            let quotient: u32 = i2cclk / (frequency * 2);
            let ccr: u32 = if quotient < 4 {
                4
            } else {
                quotient
            };
            Timing {
                freqrange: freqrange as u8,
                trise: trise as u8,
                ccr: ccr as u16,
                duty: false,
            }
        },
        Mode::Fast { duty_cycle, .. } => {
            proof {
                lemma_div_is_ordered((freqrange * 300) as int, 76200, 1000);
            }
            let trise: u32 = freqrange * 300 / 1000 + 1;
            let (quotient, duty): (u32, bool) = match duty_cycle {
                DutyCycle::Ratio1to1 => (i2cclk / (frequency * 3), false),
                DutyCycle::Ratio16to9 => (i2cclk / (frequency * 25), true),
            };
            let ccr: u32 = if quotient < 1 {
                1
            } else {
                quotient
            };
            Timing { freqrange: freqrange as u8, trise: trise as u8, ccr: ccr as u16, duty }
        },
    }
}

/// In Standard mode the divider never falls below its hardware minimum
/// of 4, for every valid Standard-mode frequency and any input clock.
pub proof fn lemma_standard_ccr_at_least_4(i2cclk: u32, frequency: u32)
    requires
        0 < frequency <= 100_000,
    ensures
        spec_ccr(Mode::Standard { frequency }, i2cclk) >= 4,
{
}

/// In Fast mode the divider never falls below 1, and the duty flag is
/// set exactly for the 16:9 ratio.
pub proof fn lemma_fast_ccr_at_least_1(i2cclk: u32, frequency: u32, duty_cycle: DutyCycle)
    requires
        0 < frequency <= 400_000,
    ensures
        spec_ccr(Mode::Fast { frequency, duty_cycle }, i2cclk) >= 1,
        spec_duty(Mode::Fast { frequency, duty_cycle }) == (duty_cycle is Ratio16to9),
{
}

/// The Fast-mode rise-time value is strictly below the Standard-mode
/// value for the same nonzero input-frequency field: the rise-time
/// budget tightens at higher bus speed.
pub proof fn lemma_trise_fast_below_standard(freqrange: int)
    requires
        1 <= freqrange,
    ensures
        spec_trise_fast(freqrange) < spec_trise_standard(freqrange),
{
    let q = freqrange * 300 / 1000;
    lemma_fundamental_div_mod(freqrange * 300, 1000);
    lemma_mod_bound(freqrange * 300, 1000);
    assert(1000 * q <= freqrange * 300);
    assert(freqrange * 300 < 1000 * freqrange);
    assert(q < freqrange);
}

} // verus!
