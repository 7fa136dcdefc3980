use i2c_master::bus::{check_status, PollOutcome, WaitFlag};
use i2c_master::port::{BusEvent, Status};
use i2c_master::sim::SimPort;
use i2c_master::{Error, I2c, Mode};

fn ok(flag: fn(&mut Status)) -> Status {
    let mut s = Status::default();
    flag(&mut s);
    s
}

fn sb() -> Status {
    ok(|s| s.start_sent = true)
}

fn addr() -> Status {
    ok(|s| s.addr_matched = true)
}

fn txe() -> Status {
    ok(|s| s.tx_empty = true)
}

fn rxne() -> Status {
    ok(|s| s.rx_not_empty = true)
}

fn new_bus(statuses: Vec<Status>, rx: Vec<u8>) -> I2c<SimPort, ()> {
    I2c::new(SimPort::new(statuses, rx), (), Mode::Standard { frequency: 100_000 }, 8_000_000)
}

#[test]
fn write_produces_exact_trace() {
    // Start ack, address ack, then one transmit-empty event per byte
    // plus the final shift-register drain.
    let mut bus = new_bus(vec![sb(), addr(), txe(), txe(), txe()], vec![]);
    let r = bus.write(0x42, &[0xAA, 0xBB]);
    assert_eq!(r, Ok(()));
    let (port, ()) = bus.free();
    assert_eq!(
        *port.log(),
        vec![
            BusEvent::Start,
            BusEvent::SendByte(0x42),
            BusEvent::AddrCleared,
            BusEvent::SendByte(0xAA),
            BusEvent::SendByte(0xBB),
            BusEvent::Stop,
        ]
    );
}

#[test]
fn write_read_produces_exact_trace() {
    let mut bus = new_bus(
        vec![sb(), addr(), txe(), txe(), sb(), addr(), rxne(), rxne()],
        vec![0xDE, 0xAD],
    );
    let mut buffer = vec![0, 0];
    let r = bus.write_read(0x42, &[0x10], &mut buffer);
    assert_eq!(r, Ok(()));
    assert_eq!(buffer, vec![0xDE, 0xAD]);
    let (port, ()) = bus.free();
    // Repeated start between the phases, no stop; read address has the
    // direction bit set (0x43); one final stop.
    assert_eq!(
        *port.log(),
        vec![
            BusEvent::Start,
            BusEvent::SendByte(0x42),
            BusEvent::AddrCleared,
            BusEvent::SendByte(0x10),
            BusEvent::Start,
            BusEvent::SendByte(0x43),
            BusEvent::AddrCleared,
            BusEvent::RecvByte(0xDE),
            BusEvent::RecvByte(0xAD),
            BusEvent::Stop,
        ]
    );
}

#[test]
fn ack_failure_during_address_wait_stops_write() {
    let mut bus = new_bus(vec![sb(), ok(|s| s.ack_failure = true)], vec![]);
    let r = bus.write(0x42, &[0xAA]);
    assert_eq!(r, Err(Error::Acknowledge));
    let (port, ()) = bus.free();
    // The transaction broke off after the address byte: no data bytes,
    // no stop condition.
    assert_eq!(*port.log(), vec![BusEvent::Start, BusEvent::SendByte(0x42)]);
}

#[test]
fn ack_failure_during_read_address_wait_stops_write_read() {
    let mut bus = new_bus(
        vec![sb(), addr(), txe(), txe(), sb(), ok(|s| s.ack_failure = true)],
        vec![0x55],
    );
    let mut buffer = vec![0];
    let r = bus.write_read(0x42, &[0x10], &mut buffer);
    assert_eq!(r, Err(Error::Acknowledge));
    let (port, ()) = bus.free();
    assert_eq!(
        *port.log(),
        vec![
            BusEvent::Start,
            BusEvent::SendByte(0x42),
            BusEvent::AddrCleared,
            BusEvent::SendByte(0x10),
            BusEvent::Start,
            BusEvent::SendByte(0x43),
        ]
    );
}

#[test]
fn error_flag_beats_success_flag_in_same_poll() {
    // Overrun and transmit-empty raised together during the data phase:
    // the error wins.
    let both = ok(|s| {
        s.overrun = true;
        s.tx_empty = true;
    });
    let mut bus = new_bus(vec![sb(), addr(), both], vec![]);
    let r = bus.write(0x42, &[0xAA]);
    assert_eq!(r, Err(Error::Overrun));
}

#[test]
fn check_status_reports_error_over_set_success_flag() {
    let s = ok(|s| {
        s.bus_error = true;
        s.start_sent = true;
    });
    assert_eq!(check_status(s, WaitFlag::StartSent), PollOutcome::Failed(Error::Bus));
}

#[test]
fn check_status_error_priority_order() {
    let mut s = Status::default();
    s.bus_error = true;
    s.arbitration_lost = true;
    s.ack_failure = true;
    s.overrun = true;
    assert_eq!(check_status(s, WaitFlag::TransmitEmpty), PollOutcome::Failed(Error::Bus));
    s.bus_error = false;
    assert_eq!(check_status(s, WaitFlag::TransmitEmpty), PollOutcome::Failed(Error::Arbitration));
    s.arbitration_lost = false;
    assert_eq!(check_status(s, WaitFlag::TransmitEmpty), PollOutcome::Failed(Error::Acknowledge));
    s.ack_failure = false;
    assert_eq!(check_status(s, WaitFlag::TransmitEmpty), PollOutcome::Failed(Error::Overrun));
    s.overrun = false;
    assert_eq!(check_status(s, WaitFlag::TransmitEmpty), PollOutcome::Pending);
    s.tx_empty = true;
    assert_eq!(check_status(s, WaitFlag::TransmitEmpty), PollOutcome::Ready);
}

#[test]
fn bus_error_during_start_wait() {
    let mut bus = new_bus(vec![ok(|s| s.bus_error = true)], vec![]);
    assert_eq!(bus.write(0x42, &[0x01]), Err(Error::Bus));
}

#[test]
fn arbitration_loss_during_start_wait() {
    let mut bus = new_bus(vec![ok(|s| s.arbitration_lost = true)], vec![]);
    assert_eq!(bus.write(0x42, &[0x01]), Err(Error::Arbitration));
}

#[test]
fn overrun_during_receive_wait() {
    let mut bus = new_bus(
        vec![sb(), addr(), txe(), txe(), sb(), addr(), ok(|s| s.overrun = true)],
        vec![],
    );
    let mut buffer = vec![0];
    assert_eq!(bus.write_read(0x42, &[0x10], &mut buffer), Err(Error::Overrun));
}

#[test]
fn failed_read_keeps_unstored_buffer_elements() {
    // One byte is received before the error; the second buffer element
    // keeps its prior value.
    let mut bus = new_bus(
        vec![sb(), addr(), txe(), txe(), sb(), addr(), rxne(), ok(|s| s.overrun = true)],
        vec![0xDE],
    );
    let mut buffer = vec![0x11, 0x22];
    assert_eq!(bus.write_read(0x42, &[0x10], &mut buffer), Err(Error::Overrun));
    assert_eq!(buffer, vec![0xDE, 0x22]);
}

#[test]
fn exhausted_status_script_reads_as_bus_error() {
    // A port whose script runs out behaves like a wedged bus.
    let mut bus = new_bus(vec![], vec![]);
    assert_eq!(bus.write(0x42, &[0x01]), Err(Error::Bus));
}

#[test]
fn address_byte_direction_bit_is_cleared() {
    // An address with bit 0 set: write still emits it with bit 0 clear.
    let mut bus = new_bus(vec![sb(), addr(), txe(), txe()], vec![]);
    let r = bus.write(0x43, &[0x01]);
    assert_eq!(r, Ok(()));
    let (port, ()) = bus.free();
    assert_eq!(port.log()[1], BusEvent::SendByte(0x42));
}

#[test]
fn write_accepts_largest_transfer() {
    // 255 bytes: one start-ack, one address-ack, one transmit-empty per
    // byte plus the final drain.
    let mut statuses = vec![sb(), addr()];
    for _ in 0..256 {
        statuses.push(txe());
    }
    let mut bus = new_bus(statuses, vec![]);
    let payload = vec![0x5A; 255];
    let r = bus.write(0x42, &payload);
    assert_eq!(r, Ok(()));
    let (port, ()) = bus.free();
    // Start, address, the clearing status read, 255 data bytes, stop.
    assert_eq!(port.log().len(), 259);
    assert_eq!(port.log()[2], BusEvent::AddrCleared);
    assert_eq!(port.log()[3], BusEvent::SendByte(0x5A));
    assert_eq!(port.log()[257], BusEvent::SendByte(0x5A));
    assert_eq!(port.log()[258], BusEvent::Stop);
}
