//! Reset and clock control: programs the oscillator range and the
//! clock-enable bits of the peripheral buses.  The handle owns an image of
//! the control register block; every write states exactly which bits it
//! sets and which it leaves alone.

use vstd::prelude::*;

use crate::common;
use crate::pointer;

verus! {

/// Image of the reset-and-clock-control register block, one word per
/// hardware register.
#[derive(Clone, Copy, PartialEq, Eq, Structural, Debug)]
pub struct RccRegs {
    pub cr: u32,             // Control Register
    pub icscr: u32,          // Internal Clock Sources Calibration Register
    pub cfgr: u32,           // Clock Configuration Register
    pub pll_cfgr: u32,       // PLL Configuration Register
    pub pll_sai1_cfgr: u32,  // PLL SAI1 Configuration Register
    pub cier: u32,           // Clock Interrupt Enable Register
    pub cifr: u32,           // Clock Interrupt Flag Status Register
    pub cicr: u32,           // Clock Interrupt Clear Register
    pub ahb1_rstr: u32,      // AHB1 Peripheral Reset Register
    pub ahb2_rstr: u32,      // AHB2 Peripheral Reset Register
    pub ahb3_rstr: u32,      // AHB3 Peripheral Reset Register
    pub apb1_rstr1: u32,     // APB1 Peripheral Reset Register 1
    pub apb1_rstr2: u32,     // APB1 Peripheral Reset Register 2
    pub apb2_rstr: u32,      // APB2 Peripheral Reset Register
    pub ahb1_enr: u32,       // AHB1 Peripheral Enable Register
    pub ahb2_enr: u32,       // AHB2 Peripheral Enable Register
    pub ahb3_enr: u32,       // AHB3 Peripheral Enable Register
    pub apb1_enr1: u32,      // APB1 Peripheral Enable Register 1
    pub apb1_enr2: u32,      // APB1 Peripheral Enable Register 2
    pub apb2_enr: u32,       // APB2 Peripheral Enable Register
    pub ahb1_sm_enr: u32,    // AHB1 Sleep And Stop Modes Enable Register
    pub ahb2_sm_enr: u32,    // AHB2 Sleep And Stop Modes Enable Register
    pub ahb3_sm_enr: u32,    // AHB3 Sleep And Stop Modes Enable Register
    pub apb1_sm_enr1: u32,   // APB1 Sleep And Stop Modes Enable Register 1
    pub apb1_sm_enr2: u32,   // APB1 Sleep And Stop Modes Enable Register 2
    pub apb2_sm_enr: u32,    // APB2 Sleep And Stop Modes Enable Register
    pub ccipr1: u32,         // Independent Clock Configuration Register
    pub bdcr: u32,           // Backup Domain Control Register
    pub csr: u32,            // Control Status Register
    pub crrcr: u32,          // Clock Recovery RC Register
    pub ccipr2: u32,         // Independent Clock Configuration Register 2
}

/// The whole register block with every word clear.
pub open spec fn rcc_regs_zeroed() -> RccRegs {
    RccRegs {
        cr: 0,
        icscr: 0,
        cfgr: 0,
        pll_cfgr: 0,
        pll_sai1_cfgr: 0,
        cier: 0,
        cifr: 0,
        cicr: 0,
        ahb1_rstr: 0,
        ahb2_rstr: 0,
        ahb3_rstr: 0,
        apb1_rstr1: 0,
        apb1_rstr2: 0,
        apb2_rstr: 0,
        ahb1_enr: 0,
        ahb2_enr: 0,
        ahb3_enr: 0,
        apb1_enr1: 0,
        apb1_enr2: 0,
        apb2_enr: 0,
        ahb1_sm_enr: 0,
        ahb2_sm_enr: 0,
        ahb3_sm_enr: 0,
        apb1_sm_enr1: 0,
        apb1_sm_enr2: 0,
        apb2_sm_enr: 0,
        ccipr1: 0,
        bdcr: 0,
        csr: 0,
        crrcr: 0,
        ccipr2: 0,
    }
}

/// Handle over one reset-and-clock-control peripheral.
pub struct Rcc {
    /// Base address the handle was resolved from.
    pub base: u32,
    /// Image of the register block.
    pub regs: RccRegs,
}

/* Register Bits */
pub const MSI_ON_BIT: u32 = common::BIT_0;
pub const MSI_RANGE_BIT: u32 = common::BIT_3;

/* Register Masks */
pub const MSI_RANGE_MASK: u32 = common::MASK_4_BIT;

/* Register Offsets */
pub const MSI_RANGE_OFFSET: u32 = 4;

/// Literal mask facts this module's proofs lean on.
proof fn rcc_bit_facts()
    by (bit_vector)
    ensures
        ((0xFu32 << 4) >> 4) == 0xF,
        (0x1u32 & (0xFu32 << 4)) == 0,
        (0x8u32 & (0xFu32 << 4)) == 0,
        (0x1u32 & 0x8u32) == 0,
        forall|v: u32| v <= 11 ==> #[trigger] (v & 0xF) == v,
{
}

impl Rcc {
    /// Resolve a handle from the peripheral's base address; the register
    /// image starts out all clear.
    pub fn init(base: u32) -> (r: Rcc)
        ensures
            r.base == base,
            r.regs == rcc_regs_zeroed(),
    {
        Rcc { base, regs: rcc_regs_zeroed_exec() }
    }

    /// Program the oscillator range: the oscillator is switched off, the
    /// range code and the range-select bit are written, and the oscillator
    /// is switched back on.
    pub fn write_msi_range(&mut self, rng: common::MsiRange)
        ensures
            final(self).regs.cr == ((pointer::field_written(
                old(self).regs.cr & !MSI_ON_BIT,
                MSI_RANGE_OFFSET,
                MSI_RANGE_MASK,
                common::spec_range_code(rng),
            ) | MSI_RANGE_BIT) | MSI_ON_BIT),
            pointer::field(final(self).regs.cr, MSI_RANGE_OFFSET, MSI_RANGE_MASK)
                == common::spec_range_code(rng),
            pointer::bit_set(final(self).regs.cr, MSI_ON_BIT),
            pointer::bit_set(final(self).regs.cr, MSI_RANGE_BIT),
            final(self).regs == (RccRegs { cr: final(self).regs.cr, ..old(self).regs }),
            final(self).base == old(self).base,
    {
        pointer::clr_ptr_vol_bit_u32(&mut self.regs.cr, MSI_ON_BIT);
        let code = common::range_code(rng);
        proof {
            rcc_bit_facts();
        }
        pointer::set_ptr_vol_u32(&mut self.regs.cr, MSI_RANGE_OFFSET, MSI_RANGE_MASK, code);
        let ghost w = self.regs.cr;
        pointer::set_ptr_vol_bit_u32(&mut self.regs.cr, MSI_RANGE_BIT);
        pointer::set_ptr_vol_bit_u32(&mut self.regs.cr, MSI_ON_BIT);
        proof {
            pointer::lemma_field_written_reads_back(
                old(self).regs.cr & !MSI_ON_BIT,
                MSI_RANGE_OFFSET,
                MSI_RANGE_MASK,
                common::spec_range_code(rng),
            );
            pointer::lemma_or_preserves_field(w, MSI_RANGE_BIT, MSI_RANGE_OFFSET, MSI_RANGE_MASK);
            pointer::lemma_or_preserves_field(
                w | MSI_RANGE_BIT,
                MSI_ON_BIT,
                MSI_RANGE_OFFSET,
                MSI_RANGE_MASK,
            );
            pointer::lemma_or_sets(w, MSI_RANGE_BIT);
            pointer::lemma_or_preserves_bits(w | MSI_RANGE_BIT, MSI_ON_BIT, MSI_RANGE_BIT);
            pointer::lemma_or_sets(w | MSI_RANGE_BIT, MSI_ON_BIT);
        }
    }

    /// Switch on the AHB1 peripheral clocks named by the set bits of `val`.
    pub fn write_ahb1_enr(&mut self, val: u32)
        ensures
            final(self).regs.ahb1_enr == (old(self).regs.ahb1_enr | val),
            final(self).regs == (RccRegs { ahb1_enr: final(self).regs.ahb1_enr, ..old(self).regs }),
            final(self).base == old(self).base,
    {
        pointer::set_ptr_vol_bit_u32(&mut self.regs.ahb1_enr, val);
    }

    /// Switch on the AHB2 peripheral clocks named by the set bits of `val`.
    pub fn write_ahb2_enr(&mut self, val: u32)
        ensures
            final(self).regs.ahb2_enr == (old(self).regs.ahb2_enr | val),
            final(self).regs == (RccRegs { ahb2_enr: final(self).regs.ahb2_enr, ..old(self).regs }),
            final(self).base == old(self).base,
    {
        pointer::set_ptr_vol_bit_u32(&mut self.regs.ahb2_enr, val);
    }

    /// Switch on the AHB3 peripheral clocks named by the set bits of `val`.
    pub fn write_ahb3_enr(&mut self, val: u32)
        ensures
            final(self).regs.ahb3_enr == (old(self).regs.ahb3_enr | val),
            final(self).regs == (RccRegs { ahb3_enr: final(self).regs.ahb3_enr, ..old(self).regs }),
            final(self).base == old(self).base,
    {
        pointer::set_ptr_vol_bit_u32(&mut self.regs.ahb3_enr, val);
    }

    /// Switch on the first bank of APB1 peripheral clocks named by `val`.
    pub fn write_apb1_enr1(&mut self, val: u32)
        ensures
            final(self).regs.apb1_enr1 == (old(self).regs.apb1_enr1 | val),
            final(self).regs == (RccRegs {
                apb1_enr1: final(self).regs.apb1_enr1,
                ..old(self).regs
            }),
            final(self).base == old(self).base,
    {
        pointer::set_ptr_vol_bit_u32(&mut self.regs.apb1_enr1, val);
    }

    /// Switch on the second bank of APB1 peripheral clocks named by `val`.
    pub fn write_apb1_enr2(&mut self, val: u32)
        ensures
            final(self).regs.apb1_enr2 == (old(self).regs.apb1_enr2 | val),
            final(self).regs == (RccRegs {
                apb1_enr2: final(self).regs.apb1_enr2,
                ..old(self).regs
            }),
            final(self).base == old(self).base,
    {
        pointer::set_ptr_vol_bit_u32(&mut self.regs.apb1_enr2, val);
    }

    /// Switch on the APB2 peripheral clocks named by the set bits of `val`.
    pub fn write_apb2_enr(&mut self, val: u32)
        ensures
            final(self).regs.apb2_enr == (old(self).regs.apb2_enr | val),
            final(self).regs == (RccRegs { apb2_enr: final(self).regs.apb2_enr, ..old(self).regs }),
            final(self).base == old(self).base,
    {
        pointer::set_ptr_vol_bit_u32(&mut self.regs.apb2_enr, val);
    }
}

/// The whole register block with every word clear.
fn rcc_regs_zeroed_exec() -> (r: RccRegs)
    ensures
        r == rcc_regs_zeroed(),
{
    RccRegs {
        cr: 0,
        icscr: 0,
        cfgr: 0,
        pll_cfgr: 0,
        pll_sai1_cfgr: 0,
        cier: 0,
        cifr: 0,
        cicr: 0,
        ahb1_rstr: 0,
        ahb2_rstr: 0,
        ahb3_rstr: 0,
        apb1_rstr1: 0,
        apb1_rstr2: 0,
        apb2_rstr: 0,
        ahb1_enr: 0,
        ahb2_enr: 0,
        ahb3_enr: 0,
        apb1_enr1: 0,
        apb1_enr2: 0,
        apb2_enr: 0,
        ahb1_sm_enr: 0,
        ahb2_sm_enr: 0,
        ahb3_sm_enr: 0,
        apb1_sm_enr1: 0,
        apb1_sm_enr2: 0,
        apb2_sm_enr: 0,
        ccipr1: 0,
        bdcr: 0,
        csr: 0,
        crrcr: 0,
        ccipr2: 0,
    }
}

} // verus!
