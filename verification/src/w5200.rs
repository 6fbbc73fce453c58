//! Stub of the external network-controller driver the shift-register bus
//! serves: the fixed bus policy the chip asks for, and the register image
//! a full driver would hold.  The chip's own register map lives on the far
//! side of the bus and is not modelled here.

use vstd::prelude::*;

use crate::spi;

verus! {

/// Image of the bus-facing register words a driver for the chip keeps.
#[derive(Clone, Copy, PartialEq, Eq, Structural, Debug)]
pub struct W5200 {
    pub cr1: u32,
    pub cr2: u32,
    pub sr: u32,
    pub dr: u32,
    pub crcpr: u32,
    pub rxcrcpr: u32,
    pub txcrcpr: u32,
}

/// The chip samples on the rising edge with the clock idling low.
pub const CLK_SETUP: spi::ClockSetup = spi::ClockSetup::RisingEdgeClockLow;

/// The chip takes the most significant bit first.
pub const BIT_SETUP: spi::BitFirst = spi::BitFirst::Msb;

/// The chip exchanges eight-bit frames.
pub const WORD_SETUP: spi::DataSize = spi::DataSize::Bits8;

} // verus!
