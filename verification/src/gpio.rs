//! General-purpose I/O: pin mode, output type, speed, pull resistors and
//! alternate-function routing, plus single-pin set, clear and read.  The
//! handle owns an image of the port's register block; each configuration
//! call states exactly which two- or four-bit field of which register it
//! programs.

use vstd::prelude::*;

use crate::common;
use crate::pointer;

verus! {

/// Image of one I/O port's register block.
#[derive(Clone, Copy, PartialEq, Eq, Structural, Debug)]
pub struct GpioRegs {
    pub moder: u32,    // Mode Register
    pub otyper: u32,   // Output Type Register
    pub ospeedr: u32,  // Output Speed Register
    pub pupdr: u32,    // Pull Up / Pull Down Register
    pub idr: u32,      // Input Data Register
    pub odr: u32,      // Output Data Register
    pub bsrr: u32,     // Bit Set Reset Register
    pub lckr: u32,     // Configuration Lock Register
    pub afrl: u32,     // Alternate Function Low Register
    pub afrh: u32,     // Alternate Function High Register
    pub brr: u32,      // Bit Reset Register
}

/// The whole register block with every word clear.
pub open spec fn gpio_regs_zeroed() -> GpioRegs {
    GpioRegs {
        moder: 0,
        otyper: 0,
        ospeedr: 0,
        pupdr: 0,
        idr: 0,
        odr: 0,
        bsrr: 0,
        lckr: 0,
        afrl: 0,
        afrh: 0,
        brr: 0,
    }
}

/// Handle over one I/O port.
pub struct Gpio {
    /// Base address the handle was resolved from.
    pub base: u32,
    /// Image of the register block.
    pub regs: GpioRegs,
}

/// Pin mode: input, general-purpose output, alternate function, analog.
#[derive(Clone, Copy, PartialEq, Eq, Structural, Debug)]
pub enum Mode {
    In,
    Out,
    Alt,
    An,
}

/// Output driver type: push-pull or open drain.
#[derive(Clone, Copy, PartialEq, Eq, Structural, Debug)]
pub enum OType {
    PushPull,
    OpenDrain,
}

/// Output slew-rate class.
#[derive(Clone, Copy, PartialEq, Eq, Structural, Debug)]
pub enum OSpeed {
    Low,
    Medium,
    High,
    VeryHigh,
}

/// Pull-resistor selection.
#[derive(Clone, Copy, PartialEq, Eq, Structural, Debug)]
pub enum Pupd {
    NoPuPd,
    Pu,
    Pd,
}

/// Alternate-function number a pin can be routed to.
#[derive(Clone, Copy, PartialEq, Eq, Structural, Debug)]
pub enum AltFunc {
    Af0,
    Af1,
    Af2,
    Af3,
    Af4,
    Af5,
    Af6,
    Af7,
    Af8,
    Af9,
    Af10,
    Af11,
    Af12,
    Af13,
    Af14,
    Af15,
}

/// Two-bit register code of a pin mode.
pub open spec fn spec_mode_code(m: Mode) -> u32 {
    match m {
        Mode::In => 0,
        Mode::Out => 1,
        Mode::Alt => 2,
        Mode::An => 3,
    }
}

/// Two-bit register code of a pin mode.
#[verifier::when_used_as_spec(spec_mode_code)]
pub fn mode_code(m: Mode) -> (code: u32)
    ensures
        code == spec_mode_code(m),
        code <= 3,
{
    match m {
        Mode::In => 0,
        Mode::Out => 1,
        Mode::Alt => 2,
        Mode::An => 3,
    }
}

/// Two-bit register code of a slew-rate class.
pub open spec fn spec_ospeed_code(s: OSpeed) -> u32 {
    match s {
        OSpeed::Low => 0,
        OSpeed::Medium => 1,
        OSpeed::High => 2,
        OSpeed::VeryHigh => 3,
    }
}

/// Two-bit register code of a slew-rate class.
#[verifier::when_used_as_spec(spec_ospeed_code)]
pub fn ospeed_code(s: OSpeed) -> (code: u32)
    ensures
        code == spec_ospeed_code(s),
        code <= 3,
{
    match s {
        OSpeed::Low => 0,
        OSpeed::Medium => 1,
        OSpeed::High => 2,
        OSpeed::VeryHigh => 3,
    }
}

/// Two-bit register code of a pull-resistor selection.
pub open spec fn spec_pupd_code(p: Pupd) -> u32 {
    match p {
        Pupd::NoPuPd => 0,
        Pupd::Pu => 1,
        Pupd::Pd => 2,
    }
}

/// Two-bit register code of a pull-resistor selection.
#[verifier::when_used_as_spec(spec_pupd_code)]
pub fn pupd_code(p: Pupd) -> (code: u32)
    ensures
        code == spec_pupd_code(p),
        code <= 3,
{
    match p {
        Pupd::NoPuPd => 0,
        Pupd::Pu => 1,
        Pupd::Pd => 2,
    }
}

/// Four-bit register code of an alternate function.
pub open spec fn spec_alt_func_code(f: AltFunc) -> u32 {
    match f {
        AltFunc::Af0 => 0,
        AltFunc::Af1 => 1,
        AltFunc::Af2 => 2,
        AltFunc::Af3 => 3,
        AltFunc::Af4 => 4,
        AltFunc::Af5 => 5,
        AltFunc::Af6 => 6,
        AltFunc::Af7 => 7,
        AltFunc::Af8 => 8,
        AltFunc::Af9 => 9,
        AltFunc::Af10 => 10,
        AltFunc::Af11 => 11,
        AltFunc::Af12 => 12,
        AltFunc::Af13 => 13,
        AltFunc::Af14 => 14,
        AltFunc::Af15 => 15,
    }
}

/// Four-bit register code of an alternate function.
#[verifier::when_used_as_spec(spec_alt_func_code)]
pub fn alt_func_code(f: AltFunc) -> (code: u32)
    ensures
        code == spec_alt_func_code(f),
        code <= 15,
{
    match f {
        AltFunc::Af0 => 0,
        AltFunc::Af1 => 1,
        AltFunc::Af2 => 2,
        AltFunc::Af3 => 3,
        AltFunc::Af4 => 4,
        AltFunc::Af5 => 5,
        AltFunc::Af6 => 6,
        AltFunc::Af7 => 7,
        AltFunc::Af8 => 8,
        AltFunc::Af9 => 9,
        AltFunc::Af10 => 10,
        AltFunc::Af11 => 11,
        AltFunc::Af12 => 12,
        AltFunc::Af13 => 13,
        AltFunc::Af14 => 14,
        AltFunc::Af15 => 15,
    }
}

/// Pins per port: pin indices run from 0 to 15.
pub const PINS_PER_PORT: u32 = 16;

/* Register Masks */
pub const MODER_MASK: u32 = common::MASK_2_BIT;
pub const OSPEED_MASK: u32 = common::MASK_2_BIT;
pub const PUPD_MASK: u32 = common::MASK_2_BIT;
pub const AF_MASK: u32 = common::MASK_4_BIT;

/* Field strides: each pin's field is this many bits wide */
pub const MODER_OFFSET: u32 = 2;
pub const OSPEED_OFFSET: u32 = 2;
pub const PUPD_OFFSET: u32 = 2;
pub const AF_OFFSET: u32 = 4;

/// Shift facts about the two- and four-bit pin fields.
proof fn gpio_bit_facts()
    by (bit_vector)
    ensures
        forall|o: u32| o <= 30 ==> ((0x3u32 << o) >> o) == 0x3,
        forall|o: u32| o <= 28 ==> ((0xFu32 << o) >> o) == 0xF,
        forall|v: u32| v <= 3 ==> #[trigger] (v & 0x3) == v,
        forall|v: u32| v <= 15 ==> #[trigger] (v & 0xF) == v,
{
}

impl Gpio {
    /// Resolve a handle from the port's base address; the register image
    /// starts out all clear.
    pub fn init(base: u32) -> (r: Gpio)
        ensures
            r.base == base,
            r.regs == gpio_regs_zeroed(),
    {
        Gpio {
            base,
            regs: GpioRegs {
                moder: 0,
                otyper: 0,
                ospeedr: 0,
                pupdr: 0,
                idr: 0,
                odr: 0,
                bsrr: 0,
                lckr: 0,
                afrl: 0,
                afrh: 0,
                brr: 0,
            },
        }
    }

    /// Whether any input-data bit of `val` reads set.
    pub fn get_pin(&self, val: u32) -> (r: bool)
        ensures
            r == pointer::bit_set(self.regs.idr, val),
    {
        pointer::get_ptr_vol_bit_u32(&self.regs.idr, val)
    }

    /// Drive high every output pin named by the set bits of `val`.
    pub fn set_pin(&mut self, val: u32)
        ensures
            final(self).regs.odr == (old(self).regs.odr | val),
            final(self).regs == (GpioRegs { odr: final(self).regs.odr, ..old(self).regs }),
            final(self).base == old(self).base,
    {
        pointer::set_ptr_vol_bit_u32(&mut self.regs.odr, val);
    }

    /// Drive low every output pin named by the set bits of `val`.
    pub fn clr_pin(&mut self, val: u32)
        ensures
            final(self).regs.odr == (old(self).regs.odr & !val),
            final(self).regs == (GpioRegs { odr: final(self).regs.odr, ..old(self).regs }),
            final(self).base == old(self).base,
    {
        pointer::clr_ptr_vol_bit_u32(&mut self.regs.odr, val);
    }

    /// Set the configuration-lock bits named by `val`.
    pub fn set_lock(&mut self, val: u32)
        ensures
            final(self).regs.lckr == (old(self).regs.lckr | val),
            final(self).regs == (GpioRegs { lckr: final(self).regs.lckr, ..old(self).regs }),
            final(self).base == old(self).base,
    {
        pointer::set_ptr_vol_bit_u32(&mut self.regs.lckr, val);
    }

    /// Clear the configuration-lock bits named by `val`.
    pub fn clr_lock(&mut self, val: u32)
        ensures
            final(self).regs.lckr == (old(self).regs.lckr & !val),
            final(self).regs == (GpioRegs { lckr: final(self).regs.lckr, ..old(self).regs }),
            final(self).base == old(self).base,
    {
        pointer::clr_ptr_vol_bit_u32(&mut self.regs.lckr, val);
    }

    /// Program pin `bit`'s mode and output type, and - when the mode is
    /// alternate-function - route it to `alt_func` through the low or high
    /// alternate-function register.
    pub fn otype(&mut self, bit: u32, mode: Mode, otype: OType, alt_func: AltFunc)
        requires
            bit < PINS_PER_PORT,
        ensures
            pointer::field(final(self).regs.moder, (bit * MODER_OFFSET) as u32, MODER_MASK)
                == spec_mode_code(mode),
            pointer::bit_set(final(self).regs.otyper, 1u32 << bit) == (otype is OpenDrain),
            mode is Alt && bit <= 7 ==> pointer::field(
                final(self).regs.afrl,
                (bit * AF_OFFSET) as u32,
                AF_MASK,
            ) == spec_alt_func_code(alt_func),
            mode is Alt && bit > 7 ==> pointer::field(
                final(self).regs.afrh,
                ((bit - 8) * AF_OFFSET) as u32,
                AF_MASK,
            ) == spec_alt_func_code(alt_func),
            !(mode is Alt) ==> final(self).regs.afrl == old(self).regs.afrl
                && final(self).regs.afrh == old(self).regs.afrh,
            final(self).regs == (GpioRegs {
                moder: final(self).regs.moder,
                otyper: final(self).regs.otyper,
                afrl: final(self).regs.afrl,
                afrh: final(self).regs.afrh,
                ..old(self).regs
            }),
            final(self).base == old(self).base,
    {
        proof {
            gpio_bit_facts();
        }
        let alt = match mode {
            Mode::Alt => true,
            _ => false,
        };

        pointer::set_ptr_vol_u32(&mut self.regs.moder, bit * MODER_OFFSET, MODER_MASK, mode_code(mode));
        proof {
            pointer::lemma_field_written_reads_back(
                old(self).regs.moder,
                (bit * MODER_OFFSET) as u32,
                MODER_MASK,
                spec_mode_code(mode),
            );
        }

        match otype {
            OType::OpenDrain => {
                let ghost r = self.regs.otyper;
                pointer::set_ptr_vol_bit_u32(&mut self.regs.otyper, 1 << bit);
                proof {
                    assert(1u32 << bit != 0) by (bit_vector)
                        requires
                            bit < 16u32,
                    ;
                    pointer::lemma_or_sets(r, 1u32 << bit);
                }
            },
            OType::PushPull => {
                let ghost r = self.regs.otyper;
                pointer::clr_ptr_vol_bit_u32(&mut self.regs.otyper, 1 << bit);
                proof {
                    pointer::lemma_andnot_clears(r, 1u32 << bit);
                }
            },
        }

        if alt {
            if bit <= 7 {
                pointer::set_ptr_vol_u32(&mut self.regs.afrl, bit * AF_OFFSET, AF_MASK, alt_func_code(alt_func));
                proof {
                    pointer::lemma_field_written_reads_back(
                        old(self).regs.afrl,
                        (bit * AF_OFFSET) as u32,
                        AF_MASK,
                        spec_alt_func_code(alt_func),
                    );
                }
            } else {
                pointer::set_ptr_vol_u32(&mut self.regs.afrh, (bit - 8) * AF_OFFSET, AF_MASK, alt_func_code(alt_func));
                proof {
                    pointer::lemma_field_written_reads_back(
                        old(self).regs.afrh,
                        ((bit - 8) * AF_OFFSET) as u32,
                        AF_MASK,
                        spec_alt_func_code(alt_func),
                    );
                }
            }
        }
    }

    /// Program pin `bit`'s slew-rate class.
    pub fn ospeed(&mut self, bit: u32, speed: OSpeed)
        requires
            bit < PINS_PER_PORT,
        ensures
            pointer::field(final(self).regs.ospeedr, (bit * OSPEED_OFFSET) as u32, OSPEED_MASK)
                == spec_ospeed_code(speed),
            final(self).regs == (GpioRegs { ospeedr: final(self).regs.ospeedr, ..old(self).regs }),
            final(self).base == old(self).base,
    {
        proof {
            gpio_bit_facts();
        }
        pointer::set_ptr_vol_u32(&mut self.regs.ospeedr, bit * OSPEED_OFFSET, OSPEED_MASK, ospeed_code(speed));
        proof {
            pointer::lemma_field_written_reads_back(
                old(self).regs.ospeedr,
                (bit * OSPEED_OFFSET) as u32,
                OSPEED_MASK,
                spec_ospeed_code(speed),
            );
        }
    }

    /// Program pin `bit`'s pull-resistor selection.
    pub fn pupd(&mut self, bit: u32, mode: Pupd)
        requires
            bit < PINS_PER_PORT,
        ensures
            pointer::field(final(self).regs.pupdr, (bit * PUPD_OFFSET) as u32, PUPD_MASK)
                == spec_pupd_code(mode),
            final(self).regs == (GpioRegs { pupdr: final(self).regs.pupdr, ..old(self).regs }),
            final(self).base == old(self).base,
    {
        proof {
            gpio_bit_facts();
        }
        pointer::set_ptr_vol_u32(&mut self.regs.pupdr, bit * PUPD_OFFSET, PUPD_MASK, pupd_code(mode));
        proof {
            pointer::lemma_field_written_reads_back(
                old(self).regs.pupdr,
                (bit * PUPD_OFFSET) as u32,
                PUPD_MASK,
                spec_pupd_code(mode),
            );
        }
    }
}

} // verus!
