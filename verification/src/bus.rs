//! Transaction engine: drives the bus through start, address, data and
//! stop phases with a busy-polling wait, surfacing the four hardware
//! error flags as typed failures.

use vstd::prelude::*;

use crate::port::{spec_first_error, BusEvent, I2cPort, Status};
use crate::timing::{
    compute_timing, spec_ccr, spec_duty, spec_freqrange, spec_trise, timing_fits, Timing,
};
use crate::{Error, Mode};

verus! {

/// The progress flag a wait targets.
#[derive(Clone, Copy, Debug, PartialEq, Eq, Structural)]
pub enum WaitFlag {
    /// Start condition sent.
    StartSent,
    /// Address sent and acknowledged.
    AddressAcked,
    /// Transmit data register empty.
    TransmitEmpty,
    /// Receive data register not empty.
    ReceiveNotEmpty,
}

/// What one status snapshot means for a wait.
#[derive(Clone, Copy, Debug, PartialEq, Eq, Structural)]
pub enum PollOutcome {
    /// Neither an error flag nor the awaited flag: keep polling.
    Pending,
    /// The awaited flag is set and no error flag is.
    Ready,
    /// An error flag is set; the wait fails with this error.
    Failed(Error),
}

/// Whether the awaited flag is set in a status snapshot.
pub open spec fn spec_flag_set(s: Status, flag: WaitFlag) -> bool {
    match flag {
        WaitFlag::StartSent => s.start_sent,
        WaitFlag::AddressAcked => s.addr_matched,
        WaitFlag::TransmitEmpty => s.tx_empty,
        WaitFlag::ReceiveNotEmpty => s.rx_not_empty,
    }
}

/// The decision rule of the busy wait: the four error flags are checked
/// in priority order before the awaited flag, so a status with both an
/// error flag and the awaited flag set reports the error, never success.
pub open spec fn spec_poll(s: Status, flag: WaitFlag) -> PollOutcome {
    match spec_first_error(s) {
        Some(e) => PollOutcome::Failed(e),
        None => if spec_flag_set(s, flag) {
            PollOutcome::Ready
        } else {
            PollOutcome::Pending
        },
    }
}

/// Classify one status snapshot for a wait on `flag`.
pub fn check_status(s: Status, flag: WaitFlag) -> (r: PollOutcome)
    ensures
        r == spec_poll(s, flag),
{
    if s.bus_error {
        PollOutcome::Failed(Error::Bus)
    } else if s.arbitration_lost {
        PollOutcome::Failed(Error::Arbitration)
    } else if s.ack_failure {
        PollOutcome::Failed(Error::Acknowledge)
    } else if s.overrun {
        PollOutcome::Failed(Error::Overrun)
    } else {
        let hit = match flag {
            WaitFlag::StartSent => s.start_sent,
            WaitFlag::AddressAcked => s.addr_matched,
            WaitFlag::TransmitEmpty => s.tx_empty,
            WaitFlag::ReceiveNotEmpty => s.rx_not_empty,
        };
        if hit {
            PollOutcome::Ready
        } else {
            PollOutcome::Pending
        }
    }
}

/// Error flags take priority: whenever a status snapshot carries an
/// error flag, a wait on any flag reports that error — even if the
/// awaited flag is set in the same snapshot, which marks a corrupted
/// transaction, not a genuine completion.
pub proof fn lemma_error_has_priority(s: Status, flag: WaitFlag, e: Error)
    requires
        spec_first_error(s) == Some(e),
    ensures
        spec_poll(s, flag) == PollOutcome::Failed(e),
{
}

/// An acknowledge failure with no higher-priority flag raised fails any
/// wait with the Acknowledge error, whichever flag was awaited.
pub proof fn lemma_ack_failure_fails_any_wait(s: Status, flag: WaitFlag)
    requires
        s.ack_failure,
        !s.bus_error,
        !s.arbitration_lost,
    ensures
        spec_poll(s, flag) == PollOutcome::Failed(Error::Acknowledge),
{
}

/// Poll the status register until the awaited flag or an error flag
/// comes up, error flags taking priority. Performs no bus action. When
/// the head of the port's status script settles the wait outright, the
/// result is fixed: success for a clean awaited flag, the scripted
/// error otherwise, one status consumed either way.
#[verifier::loop_isolation(false)]
fn busy_wait<P: I2cPort>(port: &mut P, flag: WaitFlag) -> (r: Result<(), Error>)
    ensures
        final(port).events() == old(port).events(),
        final(port).timing() == old(port).timing(),
        final(port).enabled() == old(port).enabled(),
        final(port).pending_data() == old(port).pending_data(),
        old(port).pending_statuses().len() > 0 ==> match spec_poll(
            old(port).pending_statuses()[0],
            flag,
        ) {
            PollOutcome::Ready => r is Ok && final(port).pending_statuses() == old(port).pending_statuses().skip(1),
            PollOutcome::Failed(e) => r == Err::<(), Error>(e) && final(port).pending_statuses() == old(port).pending_statuses().skip(1),
            PollOutcome::Pending => true,
        },
{
    loop
        invariant
            port.events() == old(port).events(),
            port.timing() == old(port).timing(),
            port.enabled() == old(port).enabled(),
            port.pending_data() == old(port).pending_data(),
            port.pending_statuses() == old(port).pending_statuses() || (old(port).pending_statuses().len() > 0 && spec_poll(
                old(port).pending_statuses()[0],
                flag,
            ) == PollOutcome::Pending),
        decreases port.pending_statuses().len(),
    {
        let ghost pend0 = port.pending_statuses();
        let s = port.read_status();
        match check_status(s, flag) {
            PollOutcome::Pending => {
                proof {
                    if pend0.len() == 0 {
                        assert(spec_first_error(s) is Some);
                        assert(false);
                    }
                }
            },
            PollOutcome::Ready => {
                return Ok(());
            },
            PollOutcome::Failed(e) => {
                return Err(e);
            },
        }
    }
}

/// The port actions of the write phase of a transaction: a start
/// condition, the address byte with its direction bit cleared, the
/// mandatory address-clearing status read, then each data byte shifted
/// out.
pub open spec fn spec_write_phase(addr: u8, bytes: Seq<u8>) -> Seq<BusEvent> {
    seq![BusEvent::Start, BusEvent::SendByte(addr & 0xFE), BusEvent::AddrCleared]
        + bytes.map_values(|b: u8| BusEvent::SendByte(b))
}

/// The full trace of a successful write: the write phase closed by a
/// stop condition.
pub open spec fn spec_write_trace(addr: u8, bytes: Seq<u8>) -> Seq<BusEvent> {
    spec_write_phase(addr, bytes).push(BusEvent::Stop)
}

/// The port actions of the read phase: a (repeated) start condition,
/// the address byte with its direction bit set, the mandatory
/// address-clearing status read, then each byte shifted in.
pub open spec fn spec_read_phase(addr: u8, data: Seq<u8>) -> Seq<BusEvent> {
    seq![BusEvent::Start, BusEvent::SendByte(addr | 1), BusEvent::AddrCleared]
        + data.map_values(|b: u8| BusEvent::RecvByte(b))
}

/// The full trace of a successful write-then-read: the write phase,
/// the read phase entered by a repeated start with no stop in between,
/// closed by a single stop condition.
pub open spec fn spec_write_read_trace(addr: u8, bytes: Seq<u8>, data: Seq<u8>) -> Seq<BusEvent> {
    spec_write_phase(addr, bytes) + spec_read_phase(addr, data).push(BusEvent::Stop)
}

/// The waits a write performs, in order: start sent, address
/// acknowledged, then one transmit-empty wait per data byte plus the
/// final shift-register drain.
pub open spec fn spec_write_waits(n: nat) -> Seq<WaitFlag> {
    seq![WaitFlag::StartSent, WaitFlag::AddressAcked] + Seq::new(
        n + 1,
        |i: int| WaitFlag::TransmitEmpty,
    )
}

/// The waits a write-then-read performs: the write's waits, then the
/// repeated start and read-direction address waits, then one
/// receive-not-empty wait per byte read.
pub open spec fn spec_write_read_waits(n: nat, m: nat) -> Seq<WaitFlag> {
    spec_write_waits(n) + seq![WaitFlag::StartSent, WaitFlag::AddressAcked] + Seq::new(
        m,
        |i: int| WaitFlag::ReceiveNotEmpty,
    )
}

/// A status script cooperates with a sequence of waits when it is long
/// enough and its i-th status completes the i-th wait outright, with no
/// error flag raised.
pub open spec fn script_acks(script: Seq<Status>, waits: Seq<WaitFlag>) -> bool {
    script.len() >= waits.len() && (forall|i: int|
        0 <= i < waits.len() ==> #[trigger] spec_poll(script[i], waits[i]) == PollOutcome::Ready)
}

/// An I2C peripheral operating in master mode: exclusively owns its
/// register port and the pin pair wired to it for the bus's lifetime.
pub struct I2c<I2C, PINS> {
    i2c: I2C,
    pins: PINS,
}

impl<I2C: I2cPort, PINS> I2c<I2C, PINS> {
    /// The port actions performed through this handle's port so far.
    pub closed spec fn events(&self) -> Seq<BusEvent> {
        self.i2c.events()
    }

    /// The timing register fields of the owned port.
    pub closed spec fn timing(&self) -> Timing {
        self.i2c.timing()
    }

    /// The statuses the port's coming status reads will observe.
    pub closed spec fn pending_statuses(&self) -> Seq<Status> {
        self.i2c.pending_statuses()
    }

    /// The bytes the port's coming data-register reads will observe.
    pub closed spec fn pending_data(&self) -> Seq<u8> {
        self.i2c.pending_data()
    }

    /// Construction leaves the peripheral enabled; every transaction
    /// keeps it so.
    pub closed spec fn wf(&self) -> bool {
        self.i2c.enabled()
    }

    /// Configure the port to work in master mode: enable and reset the
    /// peripheral's clock domain, then — with the peripheral disabled —
    /// write the input-frequency, rise-time and clock-control values
    /// derived from `mode` and the input clock `i2cclk` (in Hz), and
    /// re-enable the peripheral.
    ///
    /// A frequency above 400 kHz is a fatal configuration error: such a
    /// mode is excluded here, before any register is touched.
    pub fn new(i2c: I2C, pins: PINS, mode: Mode, i2cclk: u32) -> (r: Self)
        requires
            mode.valid(),
            timing_fits(mode, i2cclk),
        ensures
            r.wf(),
            r.events() == i2c.events(),
            r.pending_statuses() == i2c.pending_statuses(),
            r.pending_data() == i2c.pending_data(),
            r.timing().freqrange as int == spec_freqrange(i2cclk),
            r.timing().trise as int == spec_trise(mode, i2cclk),
            r.timing().ccr as int == spec_ccr(mode, i2cclk),
            r.timing().duty == spec_duty(mode),
    {
        let t = compute_timing(&mode, i2cclk);
        let mut port = i2c;
        port.enable_and_reset();
        port.set_input_frequency(t.freqrange);
        port.disable_peripheral();
        port.set_rise_time(t.trise);
        port.set_clock_control(t.ccr, t.duty);
        port.enable_peripheral();
        I2c { i2c: port, pins }
    }

    /// Release the port and pins, consuming the handle. The peripheral
    /// is left enabled, not reset.
    pub fn free(self) -> (r: (I2C, PINS))
        ensures
            r.0.events() == self.events(),
            r.0.timing() == self.timing(),
            r.0.pending_statuses() == self.pending_statuses(),
            r.0.pending_data() == self.pending_data(),
            r.0.enabled() == self.wf(),
    {
        (self.i2c, self.pins)
    }

    /// Run the write phase: start condition, address byte with the
    /// direction bit cleared, the mandatory address-clearing status
    /// read, then every data byte, each loaded after a transmit-empty
    /// wait, with one final transmit-empty wait to see the last byte
    /// leave the shift register. No stop condition.
    #[verifier::loop_isolation(false)]
    fn run_write_phase(&mut self, addr: u8, bytes: &[u8]) -> (r: Result<(), Error>)
        requires
            old(self).wf(),
            0 < bytes@.len() < 256,
        ensures
            final(self).wf(),
            final(self).timing() == old(self).timing(),
            final(self).pending_data() == old(self).pending_data(),
            r is Ok ==> final(self).events() == old(self).events() + spec_write_phase(
                addr,
                bytes@,
            ),
            r is Err ==> (exists|k: int|
                0 <= k <= spec_write_phase(addr, bytes@).len() && final(self).events() == old(self).events() + spec_write_phase(addr, bytes@).take(k)),
            script_acks(old(self).pending_statuses(), spec_write_waits(bytes@.len())) ==> r is Ok
                && final(self).pending_statuses() == old(self).pending_statuses().skip(
                spec_write_waits(bytes@.len()).len() as int,
            ),
    {
        let ghost events0 = self.i2c.events();
        let ghost phase = spec_write_phase(addr, bytes@);
        let ghost s0 = self.i2c.pending_statuses();
        let ghost waits = spec_write_waits(bytes@.len());
        let ghost coop = script_acks(s0, waits);

        self.i2c.send_start();
        proof {
            assert(self.i2c.events() =~= events0 + phase.take(1));
            if coop {
                assert(spec_poll(s0[0], waits[0]) == PollOutcome::Ready);
                assert(waits[0] == WaitFlag::StartSent);
            }
        }
        match busy_wait(&mut self.i2c, WaitFlag::StartSent) {
            Ok(()) => {},
            Err(e) => {
                return Err(e);
            },
        }

        self.i2c.write_data(addr & 0xFE);
        proof {
            assert(self.i2c.events() =~= events0 + phase.take(2));
            if coop {
                assert(s0.skip(1)[0] == s0[1]);
                assert(spec_poll(s0[1], waits[1]) == PollOutcome::Ready);
                assert(waits[1] == WaitFlag::AddressAcked);
            }
        }
        match busy_wait(&mut self.i2c, WaitFlag::AddressAcked) {
            Ok(()) => {},
            Err(e) => {
                return Err(e);
            },
        }
        proof {
            if coop {
                assert(s0.skip(1).skip(1) =~= s0.skip(2));
            }
        }
        self.i2c.clear_address_flag();
        proof {
            assert(self.i2c.events() =~= events0 + phase.take(3));
        }

        let mut i: usize = 0;
        while i < bytes.len()
            invariant
                i <= bytes@.len(),
                self.i2c.enabled(),
                self.i2c.timing() == old(self).timing(),
                self.i2c.pending_data() == old(self).pending_data(),
                self.i2c.events() == events0 + phase.take(3 + i as int),
                coop ==> self.i2c.pending_statuses() == s0.skip(2 + i as int),
            decreases bytes@.len() - i,
        {
            proof {
                if coop {
                    assert(s0.skip(2 + i as int)[0] == s0[2 + i]);
                    assert(spec_poll(s0[2 + i], waits[2 + i]) == PollOutcome::Ready);
                    assert(waits[2 + i] == WaitFlag::TransmitEmpty);
                }
            }
            match busy_wait(&mut self.i2c, WaitFlag::TransmitEmpty) {
                Ok(()) => {},
                Err(e) => {
                    return Err(e);
                },
            }
            proof {
                if coop {
                    assert(s0.skip(2 + i as int).skip(1) =~= s0.skip(2 + (i + 1)));
                }
            }
            let byte = bytes[i];
            self.i2c.write_data(byte);
            proof {
                assert(phase[3 + i as int] == BusEvent::SendByte(byte));
                assert(self.i2c.events() =~= events0 + phase.take(3 + (i + 1) as int));
            }
            i = i + 1;
        }
        proof {
            assert(phase.take(3 + i as int) =~= phase);
            if coop {
                assert(s0.skip(2 + i as int)[0] == s0[2 + i]);
                assert(spec_poll(s0[2 + i], waits[2 + i]) == PollOutcome::Ready);
                assert(waits[2 + i] == WaitFlag::TransmitEmpty);
            }
        }
        match busy_wait(&mut self.i2c, WaitFlag::TransmitEmpty) {
            Ok(()) => {},
            Err(e) => {
                return Err(e);
            },
        }
        proof {
            if coop {
                assert(s0.skip(2 + i as int).skip(1) =~= s0.skip(waits.len() as int));
            }
        }
        Ok(())
    }

    /// Write `bytes` to the slave at `addr`: start condition, address
    /// with the direction bit cleared, the mandatory address-clearing
    /// status read, every data byte, stop condition. On success the bus
    /// saw exactly that sequence; on an error the trace is confined to
    /// a strict prefix of it, in particular with no stop condition. A
    /// status script that completes every wait outright guarantees
    /// success.
    ///
    /// Zero-length and 256-byte-or-longer inputs are fatal precondition
    /// violations, excluded before any hardware interaction.
    pub fn write(&mut self, addr: u8, bytes: &[u8]) -> (r: Result<(), Error>)
        requires
            old(self).wf(),
            0 < bytes@.len() < 256,
        ensures
            final(self).wf(),
            final(self).timing() == old(self).timing(),
            final(self).pending_data() == old(self).pending_data(),
            r is Ok ==> final(self).events() == old(self).events() + spec_write_trace(
                addr,
                bytes@,
            ),
            r is Err ==> (exists|k: int|
                0 <= k < spec_write_trace(addr, bytes@).len() && final(self).events() == old(self).events() + spec_write_trace(addr, bytes@).take(k)),
            script_acks(old(self).pending_statuses(), spec_write_waits(bytes@.len())) ==> r is Ok
                && final(self).pending_statuses() == old(self).pending_statuses().skip(
                spec_write_waits(bytes@.len()).len() as int,
            ),
    {
        let ghost phase = spec_write_phase(addr, bytes@);
        let ghost full = spec_write_trace(addr, bytes@);
        proof {
            assert(forall|k: int| 0 <= k <= phase.len() ==> phase.take(k) =~= full.take(k));
        }
        match self.run_write_phase(addr, bytes) {
            Ok(()) => {},
            Err(e) => {
                return Err(e);
            },
        }
        self.i2c.send_stop();
        proof {
            assert(self.i2c.events() =~= old(self).events() + full);
        }
        Ok(())
    }

    /// Write `bytes` to the slave at `addr`, then — after a repeated
    /// start with no stop in between, so the slave does not release the
    /// bus — re-address it with the direction bit set and read exactly
    /// `buffer.len()` bytes into `buffer`. On success the bus saw the
    /// write phase, the read phase carrying the bytes now in `buffer`,
    /// and one final stop; on an error the trace breaks off where the
    /// error flag came up, with no stop condition, and the buffer holds
    /// the bytes stored so far with its remaining elements untouched. A
    /// status script that completes every wait outright, with enough
    /// scripted slave bytes, guarantees success with the buffer filled
    /// from exactly those bytes.
    ///
    /// Zero-length and 256-byte-or-longer inputs (either direction) are
    /// fatal precondition violations, excluded before any hardware
    /// interaction.
    #[verifier::loop_isolation(false)]
    pub fn write_read(&mut self, addr: u8, bytes: &[u8], buffer: &mut Vec<u8>) -> (r: Result<
        (),
        Error,
    >)
        requires
            old(self).wf(),
            0 < bytes@.len() < 256,
            0 < old(buffer)@.len() < 256,
        ensures
            final(self).wf(),
            final(self).timing() == old(self).timing(),
            final(buffer)@.len() == old(buffer)@.len(),
            r is Ok ==> final(self).events() == old(self).events() + spec_write_read_trace(
                addr,
                bytes@,
                final(buffer)@,
            ),
            r is Err ==> (exists|received: Seq<u8>, k: int|
                0 <= k < spec_write_read_trace(addr, bytes@, received).len() && final(self).events() == old(self).events() + spec_write_read_trace(addr, bytes@, received).take(k)
                    && final(buffer)@ == received + old(buffer)@.skip(received.len() as int)),
            script_acks(
                old(self).pending_statuses(),
                spec_write_read_waits(bytes@.len(), old(buffer)@.len()),
            ) && old(self).pending_data().len() >= old(buffer)@.len() ==> r is Ok
                && final(buffer)@ == old(self).pending_data().take(old(buffer)@.len() as int)
                && final(self).pending_statuses() == old(self).pending_statuses().skip(
                spec_write_read_waits(bytes@.len(), old(buffer)@.len()).len() as int,
            ) && final(self).pending_data() == old(self).pending_data().skip(
                old(buffer)@.len() as int,
            ),
    {
        let ghost phase_w = spec_write_phase(addr, bytes@);
        let ghost buf0 = buffer@;
        let ghost s0 = self.i2c.pending_statuses();
        let ghost pd0 = self.i2c.pending_data();
        let ghost wwaits = spec_write_waits(bytes@.len());
        let ghost waits = spec_write_read_waits(bytes@.len(), buf0.len());
        let ghost nw = wwaits.len() as int;
        let ghost coop = script_acks(s0, waits) && pd0.len() >= buf0.len();

        proof {
            if coop {
                assert forall|i: int| 0 <= i < wwaits.len() implies #[trigger] spec_poll(
                    s0[i],
                    wwaits[i],
                ) == PollOutcome::Ready by {
                    assert(waits[i] == wwaits[i]);
                    assert(spec_poll(s0[i], waits[i]) == PollOutcome::Ready);
                }
                assert(script_acks(s0, wwaits));
            }
        }
        match self.run_write_phase(addr, bytes) {
            Ok(()) => {},
            Err(e) => {
                proof {
                    let k0 = choose|k: int|
                        0 <= k <= phase_w.len() && self.i2c.events() == old(self).events()
                            + phase_w.take(k);
                    assert(phase_w.take(k0) =~= spec_write_read_trace(
                        addr,
                        bytes@,
                        Seq::<u8>::empty(),
                    ).take(k0));
                    assert(self.i2c.events() == old(self).events() + spec_write_read_trace(
                        addr,
                        bytes@,
                        Seq::<u8>::empty(),
                    ).take(k0));
                    assert(buffer@ =~= Seq::<u8>::empty() + buf0.skip(0));
                }
                return Err(e);
            },
        }

        let ghost pre_read = old(self).events() + phase_w;
        let ghost none_received = Seq::<u8>::empty();
        self.i2c.send_start();
        proof {
            lemma_partial_write_read_trace(addr, bytes@, none_received, 1);
            assert(self.i2c.events() =~= old(self).events() + spec_write_read_trace(
                addr,
                bytes@,
                none_received,
            ).take(phase_w.len() as int + 1));
            assert(buffer@ =~= none_received + buf0.skip(0));
            if coop {
                assert(s0.skip(nw)[0] == s0[nw]);
                assert(spec_poll(s0[nw], waits[nw]) == PollOutcome::Ready);
                assert(waits[nw] == WaitFlag::StartSent);
            }
        }
        match busy_wait(&mut self.i2c, WaitFlag::StartSent) {
            Ok(()) => {},
            Err(e) => {
                return Err(e);
            },
        }

        self.i2c.write_data(addr | 1);
        proof {
            lemma_partial_write_read_trace(addr, bytes@, none_received, 2);
            assert(self.i2c.events() =~= old(self).events() + spec_write_read_trace(
                addr,
                bytes@,
                none_received,
            ).take(phase_w.len() as int + 2));
            if coop {
                assert(s0.skip(nw).skip(1) =~= s0.skip(nw + 1));
                assert(s0.skip(nw + 1)[0] == s0[nw + 1]);
                assert(spec_poll(s0[nw + 1], waits[nw + 1]) == PollOutcome::Ready);
                assert(waits[nw + 1] == WaitFlag::AddressAcked);
            }
        }
        match busy_wait(&mut self.i2c, WaitFlag::AddressAcked) {
            Ok(()) => {},
            Err(e) => {
                return Err(e);
            },
        }
        proof {
            if coop {
                assert(s0.skip(nw + 1).skip(1) =~= s0.skip(nw + 2));
            }
        }
        self.i2c.clear_address_flag();

        let ghost mut received: Seq<u8> = Seq::empty();
        proof {
            assert(buffer@ =~= received + buf0.skip(0));
            assert(self.i2c.events() =~= pre_read + spec_read_phase(addr, received));
            if coop {
                assert(pd0.skip(0) =~= pd0);
                assert(received =~= pd0.take(0));
            }
        }
        let mut j: usize = 0;
        while j < buffer.len()
            invariant
                j == received.len(),
                j <= buf0.len(),
                buffer@.len() == buf0.len(),
                buffer@ == received + buf0.skip(j as int),
                self.i2c.enabled(),
                self.i2c.timing() == old(self).timing(),
                self.i2c.events() == pre_read + spec_read_phase(addr, received),
                coop ==> self.i2c.pending_statuses() == s0.skip(nw + 2 + j as int),
                coop ==> self.i2c.pending_data() == pd0.skip(j as int),
                coop ==> received == pd0.take(j as int),
            decreases buf0.len() - j,
        {
            proof {
                if coop {
                    assert(s0.skip(nw + 2 + j as int)[0] == s0[nw + 2 + j as int]);
                    assert(spec_poll(s0[nw + 2 + j as int], waits[nw + 2 + j as int])
                        == PollOutcome::Ready);
                    assert(waits[nw + 2 + j as int] == WaitFlag::ReceiveNotEmpty);
                }
            }
            match busy_wait(&mut self.i2c, WaitFlag::ReceiveNotEmpty) {
                Ok(()) => {},
                Err(e) => {
                    proof {
                        let upto = 3 + received.len() as int;
                        assert(spec_read_phase(addr, received).take(upto) =~= spec_read_phase(
                            addr,
                            received,
                        ));
                        lemma_partial_write_read_trace(addr, bytes@, received, upto);
                        assert(self.i2c.events() =~= old(self).events() + spec_write_read_trace(
                            addr,
                            bytes@,
                            received,
                        ).take(phase_w.len() as int + upto));
                    }
                    return Err(e);
                },
            }
            proof {
                if coop {
                    assert(s0.skip(nw + 2 + j as int).skip(1) =~= s0.skip(nw + 2 + (j + 1)));
                }
            }
            let byte = self.i2c.read_data();
            buffer.set(j, byte);
            proof {
                let prev = received;
                received = received.push(byte);
                assert(spec_read_phase(addr, received) =~= spec_read_phase(addr, prev).push(
                    BusEvent::RecvByte(byte),
                ));
                assert(self.i2c.events() =~= pre_read + spec_read_phase(addr, received));
                assert(buffer@ =~= received + buf0.skip(j + 1));
                if coop {
                    assert(pd0.skip(j as int)[0] == pd0[j as int]);
                    assert(self.i2c.pending_data() =~= pd0.skip(j + 1));
                    assert(received =~= pd0.take(j + 1));
                }
            }
            j = j + 1;
        }

        self.i2c.send_stop();
        proof {
            assert(buffer@ =~= received);
            assert(self.i2c.events() =~= old(self).events() + spec_write_read_trace(
                addr,
                bytes@,
                buffer@,
            ));
            if coop {
                assert(waits.len() == nw + 2 + buf0.len());
                assert(self.i2c.pending_statuses() == s0.skip(waits.len() as int));
            }
        }
        Ok(())
    }
}

/// The first `3 + extra` events of the read phase, appended to the
/// write phase, form a proper prefix of the full write-read trace: the
/// shape every error return during the read setup and read loop leaves
/// on the bus.
proof fn lemma_partial_write_read_trace(addr: u8, bytes: Seq<u8>, received: Seq<u8>, upto: int)
    requires
        0 <= upto <= 3 + received.len(),
    ensures
        spec_write_phase(addr, bytes) + spec_read_phase(addr, received).take(upto)
            =~= spec_write_read_trace(addr, bytes, received).take(
            spec_write_phase(addr, bytes).len() + upto,
        ),
        spec_write_phase(addr, bytes).len() + upto < spec_write_read_trace(
            addr,
            bytes,
            received,
        ).len(),
{
}

} // verus!
