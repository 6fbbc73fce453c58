//! Bit and mask constants shared by the register maps, the clock-range
//! enumeration, and the tagged error type that every bus operation reports.

use vstd::prelude::*;

verus! {

/* Standard bit positions for 32-bit words */
pub const BIT_0: u32 = 0x1;
pub const BIT_1: u32 = 0x2;
pub const BIT_2: u32 = 0x4;
pub const BIT_3: u32 = 0x8;
pub const BIT_4: u32 = 0x10;
pub const BIT_5: u32 = 0x20;
pub const BIT_6: u32 = 0x40;
pub const BIT_7: u32 = 0x80;
pub const BIT_8: u32 = 0x100;
pub const BIT_9: u32 = 0x200;
pub const BIT_10: u32 = 0x400;
pub const BIT_11: u32 = 0x800;
pub const BIT_12: u32 = 0x1000;
pub const BIT_13: u32 = 0x2000;
pub const BIT_14: u32 = 0x4000;
pub const BIT_15: u32 = 0x8000;
pub const BIT_16: u32 = 0x10000;
pub const BIT_17: u32 = 0x20000;
pub const BIT_18: u32 = 0x40000;
pub const BIT_19: u32 = 0x80000;
pub const BIT_20: u32 = 0x100000;
pub const BIT_21: u32 = 0x200000;
pub const BIT_22: u32 = 0x400000;
pub const BIT_23: u32 = 0x800000;
pub const BIT_24: u32 = 0x1000000;
pub const BIT_25: u32 = 0x2000000;
pub const BIT_26: u32 = 0x4000000;
pub const BIT_27: u32 = 0x8000000;
pub const BIT_28: u32 = 0x10000000;
pub const BIT_29: u32 = 0x20000000;
pub const BIT_30: u32 = 0x40000000;
pub const BIT_31: u32 = 0x80000000;

/* Standard contiguous masks for 32-bit words */
pub const MASK_1_BIT: u32 = 0x00000001;
pub const MASK_2_BIT: u32 = 0x00000003;
pub const MASK_3_BIT: u32 = 0x00000007;
pub const MASK_4_BIT: u32 = 0x0000000F;
pub const MASK_5_BIT: u32 = 0x0000001F;
pub const MASK_6_BIT: u32 = 0x0000003F;
pub const MASK_7_BIT: u32 = 0x0000007F;
pub const MASK_8_BIT: u32 = 0x000000FF;
pub const MASK_9_BIT: u32 = 0x000001FF;
pub const MASK_10_BIT: u32 = 0x000003FF;
pub const MASK_16_BIT: u32 = 0x0000FFFF;
pub const MASK_24_BIT: u32 = 0x00FFFFFF;
pub const MASK_32_BIT: u32 = 0xFFFFFFFF;

/// Iteration bound of the fault timers: roughly the number of polling
/// iterations covering 100 microseconds at the default core clock.
pub const WAIT100US: u32 = 1600;

/// The ranges the internal multi-speed oscillator can be programmed to.
#[derive(Clone, Copy, PartialEq, Eq, Structural, Debug)]
pub enum MsiRange {
    Clk100kHz,
    Clk200kHz,
    Clk400kHz,
    Clk800kHz,
    Clk1MHz,
    Clk2MHz,
    Clk4MHz,
    Clk8MHz,
    Clk16MHz,
    Clk24MHz,
    Clk32MHz,
    Clk48MHz,
}

/// The frequency of a clock range in kHz.
pub open spec fn spec_range(rng: MsiRange) -> u32 {
    match rng {
        MsiRange::Clk100kHz => 100,
        MsiRange::Clk200kHz => 200,
        MsiRange::Clk400kHz => 400,
        MsiRange::Clk800kHz => 800,
        MsiRange::Clk1MHz => 1000,
        MsiRange::Clk2MHz => 2000,
        MsiRange::Clk4MHz => 4000,
        MsiRange::Clk8MHz => 8000,
        MsiRange::Clk16MHz => 16000,
        MsiRange::Clk24MHz => 24000,
        MsiRange::Clk32MHz => 32000,
        MsiRange::Clk48MHz => 48000,
    }
}

/// The register-field code of a clock range, in declaration order.
pub open spec fn spec_range_code(rng: MsiRange) -> u32 {
    match rng {
        MsiRange::Clk100kHz => 0,
        MsiRange::Clk200kHz => 1,
        MsiRange::Clk400kHz => 2,
        MsiRange::Clk800kHz => 3,
        MsiRange::Clk1MHz => 4,
        MsiRange::Clk2MHz => 5,
        MsiRange::Clk4MHz => 6,
        MsiRange::Clk8MHz => 7,
        MsiRange::Clk16MHz => 8,
        MsiRange::Clk24MHz => 9,
        MsiRange::Clk32MHz => 10,
        MsiRange::Clk48MHz => 11,
    }
}

/// Frequency of a clock range in kHz.
#[verifier::when_used_as_spec(spec_range)]
pub fn range(rng: MsiRange) -> (khz: u32)
    ensures
        khz == spec_range(rng),
{
    match rng {
        MsiRange::Clk100kHz => 100,
        MsiRange::Clk200kHz => 200,
        MsiRange::Clk400kHz => 400,
        MsiRange::Clk800kHz => 800,
        MsiRange::Clk1MHz => 1000,
        MsiRange::Clk2MHz => 2000,
        MsiRange::Clk4MHz => 4000,
        MsiRange::Clk8MHz => 8000,
        MsiRange::Clk16MHz => 16000,
        MsiRange::Clk24MHz => 24000,
        MsiRange::Clk32MHz => 32000,
        MsiRange::Clk48MHz => 48000,
    }
}

/// The register-field code of a clock range, in declaration order.
#[verifier::when_used_as_spec(spec_range_code)]
pub fn range_code(rng: MsiRange) -> (code: u32)
    ensures
        code == spec_range_code(rng),
        code <= 11,
{
    match rng {
        MsiRange::Clk100kHz => 0,
        MsiRange::Clk200kHz => 1,
        MsiRange::Clk400kHz => 2,
        MsiRange::Clk800kHz => 3,
        MsiRange::Clk1MHz => 4,
        MsiRange::Clk2MHz => 5,
        MsiRange::Clk4MHz => 6,
        MsiRange::Clk8MHz => 7,
        MsiRange::Clk16MHz => 8,
        MsiRange::Clk24MHz => 9,
        MsiRange::Clk32MHz => 10,
        MsiRange::Clk48MHz => 11,
    }
}

/// Frequency of a clock range in whole MHz (ranges below 1 MHz give 0).
pub fn range_mhz(rng: MsiRange) -> (mhz: u32)
    ensures
        mhz == spec_range(rng) / 1000,
{
    range(rng) / 1000
}

/// Number of busy-wait cycles that cover `us` microseconds at clock range
/// `rng`: one cycle per clock tick, `range(rng) / 1000` ticks per
/// microsecond.
pub fn wait_in_us(us: u32, rng: MsiRange) -> (cycles: u32)
    requires
        us * (spec_range(rng) / 1000) <= u32::MAX,
    ensures
        cycles == us * (spec_range(rng) / 1000),
{
    us * (range(rng) / 1000)
}

/// The status-bit faults a bus can report.
#[derive(Clone, Copy, PartialEq, Eq, Structural, Debug)]
pub enum FaultKind {
    /// Checksum mismatch on a received frame.
    CrcError,
    /// Master-mode conflict on the select line.
    ModeFault,
    /// A received byte arrived before the previous one was read.
    Overrun,
    /// A malformed frame (bad stop bit) was received.
    FrameError,
    /// The receive line went idle mid-message.
    IdleLine,
}

/// The single tagged error type of every driver operation.
#[derive(Clone, Copy, PartialEq, Eq, Structural, Debug)]
pub enum BusError {
    /// A fault timer expired while waiting on a status flag.
    Timeout,
    /// A dedicated error flag was found set.
    BusFault(FaultKind),
    /// A configuration index lies beyond the supported range.
    OutOfRange,
}

} // verus!
