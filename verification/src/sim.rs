//! A simulated register port: an in-memory implementation of
//! `I2cPort` that follows a script of status-register snapshots and a
//! script of bytes the simulated slave supplies, while recording every
//! port action in a log. It lets the transaction engine be exercised
//! against chosen hardware behaviour, error flags included.

use vstd::prelude::*;

use crate::port::{BusEvent, I2cPort, Status};
use crate::timing::Timing;
use crate::Pins;

verus! {

/// A scripted port. Each status read consumes the next snapshot of the
/// script; once the script is exhausted, reads report a bus error, as
/// a wedged bus would. Each data-register read consumes the next
/// scripted slave byte, or zero once those run out.
pub struct SimPort {
    statuses: Vec<Status>,
    status_cursor: usize,
    rx_data: Vec<u8>,
    rx_cursor: usize,
    log: Vec<BusEvent>,
    timing_regs: Timing,
    pe: bool,
}

impl SimPort {
    /// A port that will answer status reads from `statuses` and
    /// data-register reads from `rx_data`, with an empty log.
    pub fn new(statuses: Vec<Status>, rx_data: Vec<u8>) -> (r: SimPort)
        ensures
            r.events() == Seq::<BusEvent>::empty(),
            r.pending_statuses() == statuses@,
            r.pending_data() == rx_data@,
            !r.enabled(),
    {
        let r = SimPort {
            statuses,
            status_cursor: 0,
            rx_data,
            rx_cursor: 0,
            log: Vec::new(),
            timing_regs: Timing { freqrange: 0, trise: 0, ccr: 0, duty: false },
            pe: false,
        };
        proof {
            assert(r.pending_statuses() =~= r.statuses@);
            assert(r.pending_data() =~= r.rx_data@);
        }
        r
    }

    /// The recorded port actions, oldest first.
    pub fn log(&self) -> (l: &Vec<BusEvent>)
        ensures
            l@ == self.events(),
    {
        &self.log
    }

    /// The timing register fields as last written.
    pub fn timing_regs(&self) -> (t: Timing)
        ensures
            t == self.timing(),
    {
        self.timing_regs
    }

    /// Whether the peripheral-enable bit is set.
    pub fn is_enabled(&self) -> (b: bool)
        ensures
            b == self.enabled(),
    {
        self.pe
    }
}

impl I2cPort for SimPort {
    closed spec fn events(&self) -> Seq<BusEvent> {
        self.log@
    }

    closed spec fn timing(&self) -> Timing {
        self.timing_regs
    }

    closed spec fn enabled(&self) -> bool {
        self.pe
    }

    closed spec fn pending_statuses(&self) -> Seq<Status> {
        if self.status_cursor <= self.statuses@.len() {
            self.statuses@.skip(self.status_cursor as int)
        } else {
            Seq::empty()
        }
    }

    closed spec fn pending_data(&self) -> Seq<u8> {
        if self.rx_cursor <= self.rx_data@.len() {
            self.rx_data@.skip(self.rx_cursor as int)
        } else {
            Seq::empty()
        }
    }

    fn enable_and_reset(&mut self) {
        self.pe = false;
        self.timing_regs = Timing { freqrange: 0, trise: 0, ccr: 0, duty: false };
    }

    fn set_input_frequency(&mut self, freqrange: u8) {
        self.timing_regs = Timing { freqrange, ..self.timing_regs };
    }

    fn disable_peripheral(&mut self) {
        self.pe = false;
    }

    fn set_rise_time(&mut self, trise: u8) {
        self.timing_regs = Timing { trise, ..self.timing_regs };
    }

    fn set_clock_control(&mut self, ccr: u16, duty: bool) {
        self.timing_regs = Timing { ccr, duty, ..self.timing_regs };
    }

    fn enable_peripheral(&mut self) {
        self.pe = true;
    }

    fn send_start(&mut self) {
        self.log.push(BusEvent::Start);
    }

    fn send_stop(&mut self) {
        self.log.push(BusEvent::Stop);
    }

    fn write_data(&mut self, byte: u8) {
        self.log.push(BusEvent::SendByte(byte));
    }

    fn read_data(&mut self) -> (byte: u8) {
        let ghost pre = self.pending_data();
        let byte: u8 = if self.rx_cursor < self.rx_data.len() {
            let b = self.rx_data[self.rx_cursor];
            self.rx_cursor = self.rx_cursor + 1;
            proof {
                assert(self.pending_data() =~= pre.skip(1));
            }
            b
        } else {
            0
        };
        self.log.push(BusEvent::RecvByte(byte));
        byte
    }

    fn read_status(&mut self) -> (s: Status) {
        let ghost pre = self.pending_statuses();
        if self.status_cursor < self.statuses.len() {
            let s = self.statuses[self.status_cursor];
            self.status_cursor = self.status_cursor + 1;
            proof {
                assert(self.pending_statuses() =~= pre.skip(1));
            }
            s
        } else {
            Status {
                bus_error: true,
                arbitration_lost: false,
                ack_failure: false,
                overrun: false,
                start_sent: false,
                addr_matched: false,
                tx_empty: false,
                rx_not_empty: false,
            }
        }
    }

    fn clear_address_flag(&mut self) {
        self.log.push(BusEvent::AddrCleared);
    }
}

/// Marker for the simulated port's virtual pin pair; it needs no
/// register-level remap.
pub struct SimPins;

impl Pins<SimPort> for SimPins {
    const REMAP: bool = false;
}

} // verus!
