use i2c_master::sim::SimPort;
use i2c_master::timing::{compute_timing, Timing};
use i2c_master::{DutyCycle, I2c, Mode};

#[test]
fn get_frequency_reports_mode_frequency() {
    assert_eq!(Mode::Standard { frequency: 100_000 }.get_frequency(), 100_000);
    assert_eq!(
        Mode::Fast { frequency: 400_000, duty_cycle: DutyCycle::Ratio16to9 }.get_frequency(),
        400_000
    );
}

#[test]
fn standard_mode_timing_values() {
    let t = compute_timing(&Mode::Standard { frequency: 100_000 }, 8_000_000);
    assert_eq!(t, Timing { freqrange: 8, trise: 9, ccr: 40, duty: false });
}

#[test]
fn standard_mode_ccr_floor() {
    // 400 kHz input clock: the raw quotient is 2, floored to 4.
    let t = compute_timing(&Mode::Standard { frequency: 100_000 }, 400_000);
    assert_eq!(t, Timing { freqrange: 0, trise: 1, ccr: 4, duty: false });
}

#[test]
fn fast_mode_ratio_1to1_timing_values() {
    let t = compute_timing(
        &Mode::Fast { frequency: 400_000, duty_cycle: DutyCycle::Ratio1to1 },
        36_000_000,
    );
    // freqrange 36; trise 36 * 300 / 1000 + 1 = 11; ccr 36 MHz / (3 * 400 kHz) = 30.
    assert_eq!(t, Timing { freqrange: 36, trise: 11, ccr: 30, duty: false });
}

#[test]
fn fast_mode_ratio_16to9_ccr_floor_and_duty() {
    let t = compute_timing(
        &Mode::Fast { frequency: 400_000, duty_cycle: DutyCycle::Ratio16to9 },
        8_000_000,
    );
    // The raw quotient 8 MHz / (25 * 400 kHz) is 0, floored to 1; duty set.
    assert_eq!(t, Timing { freqrange: 8, trise: 3, ccr: 1, duty: true });
}

#[test]
fn fast_mode_rise_time_below_standard() {
    let standard = compute_timing(&Mode::Standard { frequency: 100_000 }, 8_000_000);
    let fast = compute_timing(
        &Mode::Fast { frequency: 400_000, duty_cycle: DutyCycle::Ratio1to1 },
        8_000_000,
    );
    assert!(fast.trise < standard.trise);
}

#[test]
fn construction_applies_timing_and_enables() {
    let sim = SimPort::new(vec![], vec![]);
    let bus = I2c::new(sim, (), Mode::Standard { frequency: 100_000 }, 8_000_000);
    let (port, ()) = bus.free();
    assert_eq!(port.timing_regs(), Timing { freqrange: 8, trise: 9, ccr: 40, duty: false });
    assert!(port.is_enabled());
    assert!(port.log().is_empty());
}
