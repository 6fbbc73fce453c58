//! The shift-register bus: configuration encoding, transfer counts
//! bounded by request and capacity, fault flags surfaced first-class,
//! and the disable sequencing being safe to repeat.

use l552ze_hal::common::BusError;
use l552ze_hal::common::FaultKind;
use l552ze_hal::spi::BaudRateDiv;
use l552ze_hal::spi::BitFirst;
use l552ze_hal::spi::ClockSetup;
use l552ze_hal::spi::DataSize;
use l552ze_hal::spi::Spi;

fn open_bus() -> Spi {
    let mut bus = Spi::init(0x4001_3000);
    bus.open(
        BaudRateDiv::Clk16,
        ClockSetup::RisingEdgeClockLow,
        BitFirst::Msb,
        DataSize::Bits8,
    );
    bus.enable();
    bus
}

#[test]
fn open_programs_the_control_registers() {
    let mut bus = Spi::init(0x4001_3000);
    bus.open(
        BaudRateDiv::Clk16,
        ClockSetup::FallingEdgeClockHigh,
        BitFirst::Lsb,
        DataSize::Bits8,
    );
    let cr1 = bus.regs.cr1;
    assert_eq!((cr1 >> 3) & 0x7, 3); // divisor code of sixteen
    assert_ne!(cr1 & 0x1, 0); // falling-edge sampling
    assert_ne!(cr1 & 0x2, 0); // clock idles high
    assert_ne!(cr1 & 0x80, 0); // least significant bit first
    assert_ne!(cr1 & 0x800, 0); // checksum length
    assert_ne!(cr1 & 0x2000, 0); // checksum enabled
    assert_ne!(cr1 & 0x100, 0); // internal select level
    assert_ne!(cr1 & 0x200, 0); // software select management
    assert_ne!(cr1 & 0x4, 0); // master mode
    assert_eq!((bus.regs.cr2 >> 8) & 0xF, 0x7); // eight-bit frames
    assert_eq!(cr1 & 0x40, 0); // enable bit untouched
}

#[test]
fn write_enabled_goes_straight_to_the_wire() {
    let mut bus = open_bus();
    let data = vec![0x03, 0x06, 0x04, 0x0D];
    assert_eq!(bus.write(&data), Ok(4));
    assert_eq!(bus.tx, data);
    assert!(bus.tx_fifo.is_empty());
    assert_ne!(bus.regs.cr1 & 0x1000, 0); // checksum-transfer bit set
}

#[test]
fn write_disabled_fills_the_queue_then_times_out() {
    let mut bus = Spi::init(0x4001_3000);
    let data = vec![1, 2, 3, 4, 5];
    assert_eq!(bus.write(&data), Err(BusError::Timeout));
    // Three bytes fit before the threshold level reads full.
    assert_eq!(bus.tx_fifo, vec![1, 2, 3]);
    assert!(bus.tx.is_empty());

    let mut small = Spi::init(0x4001_3000);
    assert_eq!(small.write(&vec![9, 8]), Ok(2));
    assert_eq!(small.tx_fifo, vec![9, 8]);
}

#[test]
fn write_surfaces_fault_flags() {
    let mut bus = open_bus();
    bus.regs.sr |= 0x10; // checksum-error flag
    assert_eq!(bus.write(&vec![1]), Err(BusError::BusFault(FaultKind::CrcError)));
    assert!(bus.tx.is_empty());

    let mut bus = open_bus();
    bus.regs.sr |= 0x20; // mode-fault flag
    assert_eq!(bus.write(&vec![1]), Err(BusError::BusFault(FaultKind::ModeFault)));

    let mut bus = open_bus();
    bus.regs.sr |= 0x40; // overrun flag
    assert_eq!(bus.write(&vec![1]), Err(BusError::BusFault(FaultKind::Overrun)));
}

#[test]
fn enable_flushes_the_pending_queue() {
    let mut bus = Spi::init(0x4001_3000);
    assert_eq!(bus.write(&vec![7, 8]), Ok(2));
    assert_eq!(bus.tx_fifo, vec![7, 8]);
    bus.enable();
    assert_eq!(bus.tx, vec![7, 8]);
    assert!(bus.tx_fifo.is_empty());
}

#[test]
fn read_never_exceeds_request_or_capacity() {
    // More data queued than asked: the request bounds the count.
    let mut bus = open_bus();
    for b in [1, 2, 3, 4, 5] {
        bus.rx.push(b);
    }
    let mut buf = vec![0u8; 4];
    assert_eq!(bus.read(&mut buf, 2), 2);
    assert_eq!(buf, vec![1, 2, 0, 0]);
    assert_eq!(bus.rx, vec![3, 4, 5]);

    // A request beyond the buffer: capacity bounds the count.
    assert_eq!(bus.read(&mut buf, 10), 3);
    assert_eq!(buf, vec![3, 4, 5, 0]);

    // A zero request means the whole buffer.
    let mut bus = open_bus();
    for b in [9, 9, 9, 9, 9] {
        bus.rx.push(b);
    }
    let mut buf = vec![0u8; 4];
    assert_eq!(bus.read(&mut buf, 0), 4);
    assert_eq!(bus.rx.len(), 1);
}

#[test]
fn read_returns_what_was_actually_there() {
    let mut bus = open_bus();
    bus.rx.push(0x5A);
    let mut buf = vec![0u8; 4];
    assert_eq!(bus.read(&mut buf, 4), 1);
    assert_eq!(buf[0], 0x5A);
    assert_eq!(bus.read(&mut buf, 4), 0);
}

#[test]
fn write_byte_paths() {
    let mut bus = open_bus();
    assert_eq!(bus.write_byte(0x33), Ok(()));
    assert_eq!(bus.tx, vec![0x33]);

    let mut idle = Spi::init(0x4001_3000);
    assert_eq!(idle.write_byte(0x44), Ok(()));
    assert_eq!(idle.tx_fifo, vec![0x44]);
    // The transmit buffer no longer reads empty: the next byte waits it out.
    assert_eq!(idle.write_byte(0x55), Err(BusError::Timeout));
}

#[test]
fn disable_twice_is_safe() {
    let mut bus = open_bus();
    assert_eq!(bus.write(&vec![0xAA]), Ok(1));
    assert_eq!(bus.disable(), Ok(()));
    assert_eq!(bus.regs.cr1 & 0x40, 0);
    assert_eq!(bus.disable(), Ok(()));
    assert_eq!(bus.regs.cr1 & 0x40, 0);
}

#[test]
fn disable_waits_out_a_stuck_queue_or_busy_flag() {
    let mut bus = Spi::init(0x4001_3000);
    assert_eq!(bus.write_byte(0x01), Ok(()));
    // Disabled with a byte still queued: the drain wait times out and
    // nothing changes.
    assert_eq!(bus.disable(), Err(BusError::Timeout));
    assert_eq!(bus.tx_fifo, vec![0x01]);

    let mut busy = open_bus();
    busy.regs.sr |= 0x80; // busy flag held by the line side
    assert_eq!(busy.disable(), Err(BusError::Timeout));
    assert_ne!(busy.regs.cr1 & 0x40, 0); // still enabled, caller recovers
}
