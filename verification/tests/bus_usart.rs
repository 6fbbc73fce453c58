//! The asynchronous serial bus: terminator-bounded reads with the three
//! distinct outcomes, baud-divisor values for both oversampling factors,
//! and transmit sequencing.

use l552ze_hal::common::BusError;
use l552ze_hal::common::FaultKind;
use l552ze_hal::usart::BaudRate;
use l552ze_hal::usart::OverSample;
use l552ze_hal::usart::StopLen;
use l552ze_hal::usart::Usart;
use l552ze_hal::usart::WordLen;

fn open_line() -> Usart {
    let mut line = Usart::init(0x4000_4800);
    line.open(
        WordLen::Bits8,
        StopLen::StopBit1,
        BaudRate::Baud9600,
        16000,
        OverSample::Oversample16,
    );
    line
}

#[test]
fn open_programs_the_line() {
    let line = open_line();
    assert_ne!(line.regs.cr1 & 0x1, 0); // receiver-transmitter enabled
    assert_ne!(line.regs.cr1 & 0x4, 0); // receiver enabled
    assert_eq!(line.regs.cr1 & 0x1000, 0); // eight-bit words
    assert_eq!(line.regs.cr1 & 0x1000000, 0);
    assert_eq!(line.regs.cr1 & 0x8000, 0); // sixteenfold oversampling
    assert_ne!(line.regs.cr2 & 0x800000, 0); // receive-timeout window armed
    assert_eq!((line.regs.cr2 >> 12) & 0x3, 0); // one stop bit
    assert_eq!(line.regs.rtor & 0xFFFFFF, 10);
    // 16 MHz over 9600 baud.
    assert_eq!(line.regs.brr & 0xFFFF, 1666);
}

#[test]
fn divisor_with_eightfold_oversampling_splits_the_low_nibble() {
    let mut line = Usart::init(0x4000_4800);
    line.open(
        WordLen::Bits8,
        StopLen::StopBit1,
        BaudRate::Baud115200,
        16000,
        OverSample::Oversample8,
    );
    // Twice 16 MHz over 115200 is 277; the low nibble 0x5 is stored
    // shifted right once: 0x110 | 0x2.
    assert_eq!(line.regs.brr & 0xFFFF, 0x112);
    assert_ne!(line.regs.cr1 & 0x8000, 0);
}

#[test]
fn word_length_codes() {
    let mut line = Usart::init(0x4000_4800);
    line.open(WordLen::Bits9, StopLen::StopBit2, BaudRate::Baud9600, 16000, OverSample::Oversample16);
    assert_ne!(line.regs.cr1 & 0x1000, 0);
    assert_eq!(line.regs.cr1 & 0x1000000, 0);
    assert_eq!((line.regs.cr2 >> 12) & 0x3, 2);

    let mut line = Usart::init(0x4000_4800);
    line.open(WordLen::Bits7, StopLen::StopBit15, BaudRate::Baud9600, 16000, OverSample::Oversample16);
    assert_eq!(line.regs.cr1 & 0x1000, 0);
    assert_ne!(line.regs.cr1 & 0x1000000, 0);
    assert_eq!((line.regs.cr2 >> 12) & 0x3, 3);
}

#[test]
fn read_stops_at_the_terminator_and_keeps_the_rest() {
    let mut line = open_line();
    for b in [0x41, 0x42, 0x0D, 0x43] {
        line.rx.push(b);
    }
    let mut buf = vec![0u8; 8];
    assert_eq!(line.read(&mut buf, 0x0D), Ok(3));
    assert_eq!(&buf[..3], &[0x41, 0x42, 0x0D]);
    // The byte after the terminator stays unconsumed.
    assert_eq!(line.rx, vec![0x43]);
}

#[test]
fn read_fills_the_buffer_without_a_terminator_match() {
    let mut line = open_line();
    for b in [0x41, 0x42, 0x43, 0x44] {
        line.rx.push(b);
    }
    let mut buf = vec![0u8; 3];
    assert_eq!(line.read(&mut buf, 0x0D), Ok(3));
    assert_eq!(buf, vec![0x41, 0x42, 0x43]);
    assert_eq!(line.rx, vec![0x44]);

    // A zero terminator never matches, even on a zero byte.
    let mut line = open_line();
    for b in [0x00, 0x00] {
        line.rx.push(b);
    }
    let mut buf = vec![0u8; 2];
    assert_eq!(line.read(&mut buf, 0x00), Ok(2));
}

#[test]
fn read_idle_timeout_is_distinct_from_a_line_fault() {
    // Nothing arrives: the idle trap runs out.
    let mut quiet = open_line();
    let mut buf = vec![0u8; 2];
    assert_eq!(quiet.read(&mut buf, 0), Err(BusError::Timeout));

    // A frame error raised by the line: a fault, not a timeout.
    let mut noisy = open_line();
    noisy.line_fault = Some(FaultKind::FrameError);
    let mut buf = vec![0u8; 2];
    assert_eq!(noisy.read(&mut buf, 0), Err(BusError::BusFault(FaultKind::FrameError)));

    let mut flooded = open_line();
    flooded.line_fault = Some(FaultKind::Overrun);
    let mut buf = vec![0u8; 2];
    assert_eq!(flooded.read(&mut buf, 0), Err(BusError::BusFault(FaultKind::Overrun)));

    let mut dropped = open_line();
    dropped.line_fault = Some(FaultKind::IdleLine);
    let mut buf = vec![0u8; 2];
    assert_eq!(dropped.read(&mut buf, 0), Err(BusError::BusFault(FaultKind::IdleLine)));
}

#[test]
fn read_partial_data_then_idle_timeout() {
    let mut line = open_line();
    line.rx.push(0x41);
    let mut buf = vec![0u8; 3];
    assert_eq!(line.read(&mut buf, 0), Err(BusError::Timeout));
    assert_eq!(buf[0], 0x41);
    assert!(line.rx.is_empty());
}

#[test]
fn read_clears_stale_flags_first() {
    let mut line = open_line();
    line.regs.isr |= 0x2 | 0x8 | 0x10 | 0x800; // stale frame, overrun, idle, timeout
    line.rx.push(0x55);
    let mut buf = vec![0u8; 1];
    // The stale flags do not fault the fresh reception.
    assert_eq!(line.read(&mut buf, 0), Ok(1));
    assert_eq!(buf[0], 0x55);
}

#[test]
fn write_pushes_the_frame_out() {
    let mut line = open_line();
    let data = vec![0x68, 0x69];
    assert_eq!(line.write(&data), Ok(2));
    assert_eq!(line.tx, data);
    assert_eq!(line.regs.cr1 & 0x8, 0); // transmit-enable back down
}

#[test]
fn write_times_out_when_the_block_is_disabled() {
    let mut line = Usart::init(0x4000_4800);
    let data = vec![0x68];
    assert_eq!(line.write(&data), Err(BusError::Timeout));
    assert!(line.tx.is_empty());
}

#[test]
fn get_read_reflects_the_queue() {
    let mut line = open_line();
    assert!(!line.get_read());
    line.rx.push(0x01);
    assert!(line.get_read());
}
