//! Synchronous I2C master-mode bus driver.
//!
//! The driver has two halves: a clock configurator that derives the
//! divider and rise-time register values for a requested bus frequency
//! (`timing`), and a transaction engine that sequences start, address,
//! data and stop phases over a register-access port while surfacing the
//! four hardware error flags (`bus`). The port itself is a small trait
//! (`port::I2cPort`); `sim::SimPort` is an in-memory implementation used
//! to exercise the engine against scripted hardware behaviour.

pub mod bus;
pub mod port;
pub mod sim;
pub mod timing;

pub use bus::I2c;

use vstd::prelude::*;

verus! {

/// An error signalled by the bus hardware during a transaction.
///
/// Every variant is detected inside the polling wait shared by the two
/// transaction operations and returned immediately to the caller; the
/// driver attempts no recovery.
#[derive(Clone, Copy, Debug, PartialEq, Eq, Structural)]
#[non_exhaustive]
pub enum Error {
    /// Start/stop protocol misuse detected by the hardware.
    Bus,
    /// Bus ownership was lost to another master.
    Arbitration,
    /// The slave did not acknowledge an address or data byte.
    Acknowledge,
    /// Data register overrun or underrun.
    Overrun,
}

/// The clock duty-cycle ratio used in Fast mode.
#[derive(Clone, Copy, Debug, PartialEq, Eq, Structural)]
pub enum DutyCycle {
    Ratio1to1,
    Ratio16to9,
}

/// The bus speed configuration: Standard mode (up to 100 kHz) or Fast
/// mode (up to 400 kHz) with a duty-cycle ratio.
#[derive(Clone, Copy, Debug, PartialEq, Eq, Structural)]
pub enum Mode {
    Standard { frequency: u32 },
    Fast { frequency: u32, duty_cycle: DutyCycle },
}

impl Mode {
    /// The requested bus frequency in hertz.
    pub open spec fn frequency(self) -> u32 {
        match self {
            Mode::Standard { frequency } => frequency,
            Mode::Fast { frequency, .. } => frequency,
        }
    }

    /// A mode is usable when its frequency is nonzero and does not
    /// exceed the 400 kHz ceiling; a violation is a fatal configuration
    /// error checked once at construction.
    pub open spec fn valid(self) -> bool {
        0 < self.frequency() <= 400_000
    }

    pub fn get_frequency(&self) -> (f: u32)
        ensures
            f == self.frequency(),
    {
        match *self {
            Mode::Standard { frequency } => frequency,
            Mode::Fast { frequency, .. } => frequency,
        }
    }
}

/// A capability marker tying a pair of physical pins to a peripheral:
/// implemented only for pin pairs that can be wired to `I2C`, carrying
/// the pin-remap selector the peripheral must be configured with.
pub trait Pins<I2C> {
    const REMAP: bool;
}

} // verus!
