//! The clocked master bus: transaction programming, byte transfer under
//! the fault timer, the composite register-style operations, and the
//! loopback round trip.

use l552ze_hal::common::BusError;
use l552ze_hal::common::MsiRange;
use l552ze_hal::i2c::I2c;
use l552ze_hal::i2c::TimingMode;

fn open_bus() -> I2c {
    let mut bus = I2c::init(0x4000_5400);
    bus.open(MsiRange::Clk16MHz, TimingMode::Sm100KHz);
    bus
}

#[test]
fn setup_programs_the_transaction() {
    let mut bus = open_bus();
    bus.setup(0x4A, false, false, 3, true);
    let cr2 = bus.regs.cr2;
    assert_eq!((cr2 >> 1) & 0x1FF, 0x4A); // seven-bit address field
    assert_eq!(cr2 & 0x800, 0); // seven-bit addressing
    assert_eq!(cr2 & 0x400, 0); // write direction
    assert_eq!((cr2 >> 16) & 0xFF, 3); // byte count
    assert_eq!(cr2 & 0x1000000, 0); // reload off
    assert_eq!(cr2 & 0x2000000, 0); // automatic end off

    bus.setup(0x123, true, true, 255, false);
    let cr2 = bus.regs.cr2;
    assert_eq!(cr2 & 0x3FF, 0x123); // ten-bit address field
    assert_ne!(cr2 & 0x800, 0); // ten-bit addressing
    assert_ne!(cr2 & 0x1000, 0); // header-only read
    assert_ne!(cr2 & 0x400, 0); // read direction
    assert_eq!((cr2 >> 16) & 0xFF, 255);
}

#[test]
fn start_and_stop_need_the_peripheral_enabled() {
    let mut bus = I2c::init(0x4000_5400);
    assert_eq!(bus.start(), Err(BusError::Timeout));
    assert_eq!(bus.stop(), Err(BusError::Timeout));
    bus.start_bus();
    assert_eq!(bus.start(), Ok(()));
    assert_eq!(bus.stop(), Ok(()));
    bus.stop_bus();
    assert_eq!(bus.start(), Err(BusError::Timeout));
}

#[test]
fn write_appends_to_the_wire() {
    let mut bus = open_bus();
    bus.setup(0x4A, false, false, 2, true);
    assert_eq!(bus.start(), Ok(()));
    let data = vec![0xDE, 0xAD];
    assert_eq!(bus.write(&data), Ok(2));
    assert_eq!(bus.tx, vec![0xDE, 0xAD]);
    assert_eq!(bus.tc(), Ok(()));
    assert_eq!(bus.stop(), Ok(()));
}

#[test]
fn write_times_out_disabled() {
    let mut bus = I2c::init(0x4000_5400);
    let data = vec![0x01];
    assert_eq!(bus.write(&data), Err(BusError::Timeout));
    assert!(bus.tx.is_empty());
    assert_eq!(bus.write_u8(0x55), Err(BusError::Timeout));
}

#[test]
fn read_drains_what_the_peer_queued() {
    let mut bus = open_bus();
    bus.rx.push(0x10);
    bus.rx.push(0x20);
    bus.rx.push(0x30);
    let mut buf = vec![0u8; 2];
    assert_eq!(bus.read(&mut buf), Ok(2));
    assert_eq!(buf, vec![0x10, 0x20]);
    assert_eq!(bus.rx, vec![0x30]);
}

#[test]
fn read_partial_then_timeout() {
    let mut bus = open_bus();
    bus.rx.push(0xAB);
    let mut buf = vec![0u8; 3];
    assert_eq!(bus.read(&mut buf), Err(BusError::Timeout));
    // The shortfall is observable: one byte moved, the rest untouched.
    assert_eq!(buf, vec![0xAB, 0, 0]);
    assert!(bus.rx.is_empty());
}

#[test]
fn read_u8_and_timeout() {
    let mut bus = open_bus();
    assert_eq!(bus.read_u8(), Err(BusError::Timeout));
    bus.rx.push(0x77);
    assert_eq!(bus.read_u8(), Ok(0x77));
}

#[test]
fn transfer_complete_tracks_the_byte_count() {
    let mut bus = open_bus();
    bus.setup(0x4A, false, false, 2, true);
    assert_eq!(bus.start(), Ok(()));
    assert_eq!(bus.write_u8(0x01), Ok(()));
    // One of two bytes moved: completion has not come yet.
    assert_eq!(bus.tc(), Err(BusError::Timeout));
    assert_eq!(bus.write_u8(0x02), Ok(()));
    assert_eq!(bus.tc(), Ok(()));
}

#[test]
fn write_then_read_loopback_round_trip() {
    let mut bus = open_bus();
    let data = vec![0x03, 0x06, 0x04, 0x0D];

    bus.setup(0x4A, false, false, data.len() as u32, true);
    assert_eq!(bus.start(), Ok(()));
    assert_eq!(bus.write(&data), Ok(4));
    assert_eq!(bus.tc(), Ok(()));

    // A loopback-wired peer hands every sent byte straight back.
    let sent = bus.tx.clone();
    for b in sent {
        bus.rx.push(b);
    }

    bus.setup(0x4A, false, false, data.len() as u32, false);
    assert_eq!(bus.start(), Ok(()));
    let mut echo = vec![0u8; 4];
    assert_eq!(bus.read(&mut echo), Ok(4));
    assert_eq!(bus.tc(), Ok(()));
    assert_eq!(bus.stop(), Ok(()));

    assert_eq!(echo, data);
}

#[test]
fn std_write_chains_the_whole_transaction() {
    let mut bus = open_bus();
    let data = vec![0x11, 0x22, 0x33];
    assert_eq!(bus.std_write(0x4A, false, false, &data), Ok(3));
    assert_eq!(bus.tx, data);

    let mut dead = I2c::init(0x4000_5400);
    assert_eq!(dead.std_write(0x4A, false, false, &data), Err(BusError::Timeout));
    assert!(dead.tx.is_empty());
}

#[test]
fn std_read_request_and_response() {
    let mut bus = open_bus();
    bus.rx.push(0xBE);
    bus.rx.push(0xEF);
    let request = vec![0x0F];
    let mut response = vec![0u8; 2];
    assert_eq!(bus.std_read(0x4A, false, false, &request, &mut response), Ok(2));
    assert_eq!(bus.tx, vec![0x0F]);
    assert_eq!(response, vec![0xBE, 0xEF]);
}

#[test]
fn std_read_u8_single_byte_exchange() {
    let mut bus = open_bus();
    bus.rx.push(0x42);
    assert_eq!(bus.std_read_u8(0x4A, false, false, 0x1F), Ok(0x42));
    assert_eq!(bus.tx, vec![0x1F]);

    // No response queued: the read half times out.
    assert_eq!(bus.std_read_u8(0x4A, false, false, 0x1F), Err(BusError::Timeout));
}
