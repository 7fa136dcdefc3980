//! The register-access port: the capability surface the transaction
//! engine drives. A port exposes the handful of register operations the
//! protocol needs (timing configuration, start/stop assertion, data
//! register access, status polling) together with a ghost model of what
//! each operation does to the bus: the sequence of bus events so far,
//! the configured timing values, the peripheral-enable state, and the
//! statuses and data bytes the coming register reads will observe.

use vstd::prelude::*;

use crate::Error;
use crate::timing::Timing;

verus! {

/// One observable port action.
#[derive(Clone, Copy, Debug, PartialEq, Eq, Structural)]
pub enum BusEvent {
    /// A start (or repeated-start) condition.
    Start,
    /// A stop condition.
    Stop,
    /// A byte shifted out: an address byte with its direction bit, or a
    /// data byte.
    SendByte(u8),
    /// A byte shifted in from the slave.
    RecvByte(u8),
    /// The mandatory second status-register read that clears the
    /// address-matched condition. Not a wire-level bus action, but the
    /// protocol depends on its placement — skipping it stalls every
    /// later wait — so the model records it.
    AddrCleared,
}

/// A snapshot of the status register: the four error flags and the four
/// progress flags the engine waits on.
#[derive(Clone, Copy, Debug, Default, PartialEq, Eq, Structural)]
pub struct Status {
    /// Start/stop protocol misuse detected (BERR).
    pub bus_error: bool,
    /// Arbitration lost to another master (ARLO).
    pub arbitration_lost: bool,
    /// Acknowledge failure: the slave did not acknowledge (AF).
    pub ack_failure: bool,
    /// Data register overrun or underrun (OVR).
    pub overrun: bool,
    /// Start condition sent (SB).
    pub start_sent: bool,
    /// Address sent and acknowledged (ADDR).
    pub addr_matched: bool,
    /// Transmit data register empty (TxE).
    pub tx_empty: bool,
    /// Receive data register not empty (RxNE).
    pub rx_not_empty: bool,
}

/// The first raised error flag, in the fixed priority order bus error,
/// arbitration loss, acknowledge failure, overrun.
pub open spec fn spec_first_error(s: Status) -> Option<Error> {
    if s.bus_error {
        Some(Error::Bus)
    } else if s.arbitration_lost {
        Some(Error::Arbitration)
    } else if s.ack_failure {
        Some(Error::Acknowledge)
    } else if s.overrun {
        Some(Error::Overrun)
    } else {
        None
    }
}

/// Register access to one I2C peripheral.
///
/// The ghost views model the hardware: `events` is the sequence of port
/// actions performed so far, `timing` the timing register fields,
/// `enabled` the peripheral-enable bit, and `pending_statuses` /
/// `pending_data` the statuses and bytes the coming status and
/// data-register reads will observe, oldest first. A status read
/// consumes the head of `pending_statuses`; once that script is empty,
/// a read reports an error flag, as a wedged bus would. A bus that
/// stays flagless forever has no such model: on it the engine's waits
/// would spin exactly as long as the hardware stays silent, which the
/// model deliberately excludes so that every wait can be shown to
/// finish.
pub trait I2cPort: Sized {
    /// The port actions performed so far, oldest first. The default
    /// model is the empty one; a port implemented outside the verified
    /// world keeps it, and nothing is then claimed of its bus.
    open spec fn events(&self) -> Seq<BusEvent> {
        Seq::empty()
    }

    /// The timing register fields as last written.
    open spec fn timing(&self) -> Timing {
        Timing { freqrange: 0, trise: 0, ccr: 0, duty: false }
    }

    /// The peripheral-enable bit.
    open spec fn enabled(&self) -> bool {
        true
    }

    /// The statuses the coming status reads will observe, oldest first.
    open spec fn pending_statuses(&self) -> Seq<Status> {
        Seq::empty()
    }

    /// The bytes the coming data-register reads will observe, oldest
    /// first.
    open spec fn pending_data(&self) -> Seq<u8> {
        Seq::empty()
    }

    /// Enable the peripheral's clock domain and pulse its reset line,
    /// leaving the peripheral disabled.
    fn enable_and_reset(&mut self)
        ensures
            final(self).events() == old(self).events(),
            !final(self).enabled(),
            final(self).pending_statuses() == old(self).pending_statuses(),
            final(self).pending_data() == old(self).pending_data(),
    ;

    /// Write the input-frequency field of the control register.
    fn set_input_frequency(&mut self, freqrange: u8)
        ensures
            final(self).events() == old(self).events(),
            final(self).enabled() == old(self).enabled(),
            final(self).timing() == (Timing { freqrange, ..old(self).timing() }),
            final(self).pending_statuses() == old(self).pending_statuses(),
            final(self).pending_data() == old(self).pending_data(),
    ;

    /// Clear the peripheral-enable bit.
    fn disable_peripheral(&mut self)
        ensures
            final(self).events() == old(self).events(),
            final(self).timing() == old(self).timing(),
            !final(self).enabled(),
            final(self).pending_statuses() == old(self).pending_statuses(),
            final(self).pending_data() == old(self).pending_data(),
    ;

    /// Write the rise-time register. The peripheral must be disabled:
    /// on this hardware family timing registers must not be written
    /// while the peripheral is enabled.
    fn set_rise_time(&mut self, trise: u8)
        requires
            !old(self).enabled(),
        ensures
            final(self).events() == old(self).events(),
            final(self).enabled() == old(self).enabled(),
            final(self).timing() == (Timing { trise, ..old(self).timing() }),
            final(self).pending_statuses() == old(self).pending_statuses(),
            final(self).pending_data() == old(self).pending_data(),
    ;

    /// Write the clock-control register (divider and duty flag), with
    /// the peripheral disabled.
    fn set_clock_control(&mut self, ccr: u16, duty: bool)
        requires
            !old(self).enabled(),
        ensures
            final(self).events() == old(self).events(),
            final(self).enabled() == old(self).enabled(),
            final(self).timing() == (Timing { ccr, duty, ..old(self).timing() }),
            final(self).pending_statuses() == old(self).pending_statuses(),
            final(self).pending_data() == old(self).pending_data(),
    ;

    /// Set the peripheral-enable bit.
    fn enable_peripheral(&mut self)
        ensures
            final(self).events() == old(self).events(),
            final(self).timing() == old(self).timing(),
            final(self).enabled(),
            final(self).pending_statuses() == old(self).pending_statuses(),
            final(self).pending_data() == old(self).pending_data(),
    ;

    /// Assert a start (or repeated-start) condition.
    fn send_start(&mut self)
        requires
            old(self).enabled(),
        ensures
            final(self).events() == old(self).events().push(BusEvent::Start),
            final(self).timing() == old(self).timing(),
            final(self).enabled(),
            final(self).pending_statuses() == old(self).pending_statuses(),
            final(self).pending_data() == old(self).pending_data(),
    ;

    /// Assert a stop condition.
    fn send_stop(&mut self)
        requires
            old(self).enabled(),
        ensures
            final(self).events() == old(self).events().push(BusEvent::Stop),
            final(self).timing() == old(self).timing(),
            final(self).enabled(),
            final(self).pending_statuses() == old(self).pending_statuses(),
            final(self).pending_data() == old(self).pending_data(),
    ;

    /// Load a byte into the data register, shifting it out on the bus.
    fn write_data(&mut self, byte: u8)
        requires
            old(self).enabled(),
        ensures
            final(self).events() == old(self).events().push(BusEvent::SendByte(byte)),
            final(self).timing() == old(self).timing(),
            final(self).enabled(),
            final(self).pending_statuses() == old(self).pending_statuses(),
            final(self).pending_data() == old(self).pending_data(),
    ;

    /// Read the byte the bus shifted in from the data register: the
    /// head of the pending-data script, which the read consumes.
    fn read_data(&mut self) -> (byte: u8)
        requires
            old(self).enabled(),
        ensures
            final(self).events() == old(self).events().push(BusEvent::RecvByte(byte)),
            final(self).timing() == old(self).timing(),
            final(self).enabled(),
            final(self).pending_statuses() == old(self).pending_statuses(),
            old(self).pending_data().len() > 0 ==> byte == old(self).pending_data()[0]
                && final(self).pending_data() == old(self).pending_data().skip(1),
            old(self).pending_data().len() == 0 ==> final(self).pending_data() == old(self).pending_data(),
    ;

    /// Read the status register: the head of the pending-status script,
    /// which the read consumes. Once the script is exhausted, the
    /// status carries an error flag. Reading performs no bus action.
    fn read_status(&mut self) -> (s: Status)
        ensures
            final(self).events() == old(self).events(),
            final(self).timing() == old(self).timing(),
            final(self).enabled() == old(self).enabled(),
            final(self).pending_data() == old(self).pending_data(),
            old(self).pending_statuses().len() > 0 ==> s == old(self).pending_statuses()[0]
                && final(self).pending_statuses() == old(self).pending_statuses().skip(1),
            old(self).pending_statuses().len() == 0 ==> spec_first_error(s) is Some
                && final(self).pending_statuses() == old(self).pending_statuses(),
    ;

    /// The mandatory second status read that clears the address-matched
    /// condition; the model records it as an `AddrCleared` event so
    /// that contracts can state where it happened.
    fn clear_address_flag(&mut self)
        ensures
            final(self).events() == old(self).events().push(BusEvent::AddrCleared),
            final(self).timing() == old(self).timing(),
            final(self).enabled() == old(self).enabled(),
            final(self).pending_statuses() == old(self).pending_statuses(),
            final(self).pending_data() == old(self).pending_data(),
    ;
}

} // verus!
