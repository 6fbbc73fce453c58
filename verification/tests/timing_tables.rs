//! The clocked-master-bus timing tables: every supported (clock, speed)
//! pair programs exactly the documented tuple, and every unsupported
//! clock falls back to the documented default.

use l552ze_hal::common::MsiRange;
use l552ze_hal::i2c::I2c;
use l552ze_hal::i2c::TimingMode;

fn timing_fields(t: u32) -> (u32, u32, u32, u32, u32) {
    (t & 0xFF, (t >> 8) & 0xFF, (t >> 16) & 0xF, (t >> 20) & 0xF, (t >> 28) & 0xF)
}

fn open_and_extract(sclk: MsiRange, mode: TimingMode) -> (u32, u32, u32, u32, u32) {
    let mut bus = I2c::init(0x4000_5400);
    bus.open(sclk, mode);
    timing_fields(bus.regs.timingr)
}

#[test]
fn timing_table_clk8() {
    assert_eq!(
        open_and_extract(MsiRange::Clk8MHz, TimingMode::Sm10KHz),
        (0xC7, 0xC3, 0x02, 0x04, 0x01)
    );
    assert_eq!(
        open_and_extract(MsiRange::Clk8MHz, TimingMode::Sm100KHz),
        (0x13, 0x0F, 0x02, 0x04, 0x01)
    );
    assert_eq!(
        open_and_extract(MsiRange::Clk8MHz, TimingMode::Fm400KHz),
        (0x09, 0x03, 0x01, 0x03, 0x00)
    );
    assert_eq!(
        open_and_extract(MsiRange::Clk8MHz, TimingMode::FmPlus),
        (0xC7, 0xC3, 0x02, 0x04, 0x01)
    );
}

#[test]
fn timing_table_clk16() {
    assert_eq!(
        open_and_extract(MsiRange::Clk16MHz, TimingMode::Sm10KHz),
        (0xC7, 0xC3, 0x02, 0x04, 0x03)
    );
    assert_eq!(
        open_and_extract(MsiRange::Clk16MHz, TimingMode::Sm100KHz),
        (0x13, 0x0F, 0x02, 0x04, 0x03)
    );
    assert_eq!(
        open_and_extract(MsiRange::Clk16MHz, TimingMode::Fm400KHz),
        (0x09, 0x03, 0x02, 0x03, 0x01)
    );
    assert_eq!(
        open_and_extract(MsiRange::Clk16MHz, TimingMode::FmPlus),
        (0x04, 0x02, 0x00, 0x02, 0x00)
    );
}

#[test]
fn timing_table_clk48() {
    assert_eq!(
        open_and_extract(MsiRange::Clk48MHz, TimingMode::Sm10KHz),
        (0xC7, 0xC3, 0x02, 0x04, 0x0B)
    );
    assert_eq!(
        open_and_extract(MsiRange::Clk48MHz, TimingMode::Sm100KHz),
        (0x13, 0x0F, 0x02, 0x04, 0x0B)
    );
    assert_eq!(
        open_and_extract(MsiRange::Clk48MHz, TimingMode::Fm400KHz),
        (0x09, 0x03, 0x03, 0x03, 0x05)
    );
    assert_eq!(
        open_and_extract(MsiRange::Clk48MHz, TimingMode::FmPlus),
        (0x03, 0x01, 0x00, 0x01, 0x05)
    );
}

#[test]
fn timing_table_unsupported_clock_falls_back() {
    let default = (0x19, 0x06, 0x00, 0x03, 0x00);
    for sclk in [
        MsiRange::Clk100kHz,
        MsiRange::Clk200kHz,
        MsiRange::Clk400kHz,
        MsiRange::Clk800kHz,
        MsiRange::Clk1MHz,
        MsiRange::Clk2MHz,
        MsiRange::Clk4MHz,
        MsiRange::Clk24MHz,
        MsiRange::Clk32MHz,
    ] {
        for mode in [
            TimingMode::Sm10KHz,
            TimingMode::Sm100KHz,
            TimingMode::Fm400KHz,
            TimingMode::FmPlus,
        ] {
            assert_eq!(open_and_extract(sclk, mode), default);
        }
    }
}

#[test]
fn open_enables_the_peripheral() {
    let mut bus = I2c::init(0x4000_5400);
    assert_eq!(bus.regs.cr1 & 0x1, 0);
    bus.open(MsiRange::Clk16MHz, TimingMode::Sm100KHz);
    assert_eq!(bus.regs.cr1 & 0x1, 1);
}
