//! General-purpose timer: one-shot or continuous counting, prescaler and
//! auto-reload programming from a wanted period, a bounded wait on the
//! update flag, and the capture/compare setup used for pulse-width
//! modulation.  The handle owns an image of the timer's register block.

use vstd::prelude::*;

use crate::common;
use crate::pointer;

verus! {

/// Image of one timer's register block.
#[derive(Clone, Copy, PartialEq, Eq, Structural, Debug)]
pub struct TimerRegs {
    pub cr1: u32,    // Control Register 1
    pub cr2: u32,    // Control Register 2
    pub smcr: u32,   // Slave Mode Control Register
    pub dier: u32,   // DMA / Interrupt Enable Register
    pub sr: u32,     // Status Register
    pub egr: u32,    // Event Generation Register
    pub ccmr1: u32,  // Capture/Compare Mode Register 1
    pub ccmr2: u32,  // Capture/Compare Mode Register 2
    pub ccer: u32,   // Capture/Compare Enable Register
    pub cnt: u32,    // Counter Register
    pub psc: u32,    // Prescaler Register
    pub arr: u32,    // Auto Reload Register
    pub ccr1: u32,   // Capture/Compare Register 1
    pub ccr2: u32,   // Capture/Compare Register 2
    pub ccr3: u32,   // Capture/Compare Register 3
    pub ccr4: u32,   // Capture/Compare Register 4
    pub dcr: u32,    // DMA Control Register
    pub dmar: u32,   // DMA Address Register
    pub or_reg: u32, // Option Register
}

/// The whole register block with every word clear.
pub open spec fn timer_regs_zeroed() -> TimerRegs {
    TimerRegs {
        cr1: 0,
        cr2: 0,
        smcr: 0,
        dier: 0,
        sr: 0,
        egr: 0,
        ccmr1: 0,
        ccmr2: 0,
        ccer: 0,
        cnt: 0,
        psc: 0,
        arr: 0,
        ccr1: 0,
        ccr2: 0,
        ccr3: 0,
        ccr4: 0,
        dcr: 0,
        dmar: 0,
        or_reg: 0,
    }
}

/// Handle over one timer peripheral.
pub struct Timer {
    /// Base address the handle was resolved from.
    pub base: u32,
    /// Image of the register block.
    pub regs: TimerRegs,
}

/// Counting style: continuous, or one-shot (the enable bit clears itself).
#[derive(Clone, Copy, PartialEq, Eq, Structural, Debug)]
pub enum TimerType {
    Cont,
    Ons,
}

/// Counting direction.
#[derive(Clone, Copy, PartialEq, Eq, Structural, Debug)]
pub enum Direction {
    Upcount,
    Downcount,
}

/* Register Masks */
pub const CMS_MASK: u32 = common::MASK_2_BIT;
pub const CKD_MASK: u32 = common::MASK_2_BIT;
pub const CCS_MASK: u32 = common::MASK_2_BIT;
pub const OCM_MASK: u32 = common::MASK_3_BIT;

/* Register Bits: control register 1 */
pub const EN_BIT: u32 = common::BIT_0;
pub const UDIS_BIT: u32 = common::BIT_1;
pub const URS_BIT: u32 = common::BIT_2;
pub const OPM_BIT: u32 = common::BIT_3;
pub const DIR_BIT: u32 = common::BIT_4;
pub const ARPE_BIT: u32 = common::BIT_7;
pub const UIFREMAP_BIT: u32 = common::BIT_11;

/* Register Bits: status register */
pub const UPDATE_BIT: u32 = common::BIT_0;

/* Register Bits: capture/compare enable register */
pub const CC1E_BIT: u32 = common::BIT_0;
pub const CC1P_BIT: u32 = common::BIT_1;
pub const CC1NP_BIT: u32 = common::BIT_3;
pub const CC2E_BIT: u32 = common::BIT_4;
pub const CC2P_BIT: u32 = common::BIT_5;
pub const CC2NP_BIT: u32 = common::BIT_7;
pub const CC3E_BIT: u32 = common::BIT_8;
pub const CC3P_BIT: u32 = common::BIT_9;
pub const CC3NP_BIT: u32 = common::BIT_11;
pub const CC4E_BIT: u32 = common::BIT_12;
pub const CC4P_BIT: u32 = common::BIT_13;
pub const CC4NP_BIT: u32 = common::BIT_15;

/* Register Offsets */
pub const CMS_OFFSET: u32 = 5;
pub const CKD_OFFSET: u32 = 8;
pub const CC1S_OFFSET: u32 = 0;
pub const OC1M_OFFSET: u32 = 4;
pub const CC2S_OFFSET: u32 = 8;
pub const OC2M_OFFSET: u32 = 12;

/* Counter reset value and output-compare codes */
pub const CLEAR_CNT: u32 = 0;
pub const PWM_MODE1: u32 = 6;
pub const CCS_OUTPUT: u32 = 0;

/// Fault-timer bound of the bounded update-flag wait.
pub const TIMEOUT: u32 = common::WAIT100US;

/// Literal mask facts this module's proofs lean on.
proof fn timer_bit_facts()
    by (bit_vector)
    ensures
        ((0x3u32 << 0) >> 0) == 0x3,
        ((0x7u32 << 4) >> 4) == 0x7,
        ((0x3u32 << 8) >> 8) == 0x3,
        ((0x7u32 << 12) >> 12) == 0x7,
        (0x6u32 & 0x7) == 0x6,
        (0u32 & 0x3) == 0,
        ((0x3u32 << 0) & (0x7u32 << 4)) == 0,
        ((0x3u32 << 8) & (0x7u32 << 12)) == 0,
        ((0x7u32 << 4) & (0x3u32 << 0)) == 0,
        ((0x7u32 << 12) & (0x3u32 << 8)) == 0,
        (0x2u32 & 0x1) == 0,
        (0x8u32 & 0x1) == 0,
        (0x8u32 & 0x2) == 0,
        (0x20u32 & 0x10) == 0,
        (0x80u32 & 0x10) == 0,
        (0x80u32 & 0x20) == 0,
        (0x200u32 & 0x100) == 0,
        (0x800u32 & 0x100) == 0,
        (0x800u32 & 0x200) == 0,
        (0x2000u32 & 0x1000) == 0,
        (0x8000u32 & 0x1000) == 0,
        (0x8000u32 & 0x2000) == 0,
{
}

impl Timer {
    /// Resolve a handle from the timer's base address; the register image
    /// starts out all clear.
    pub fn init(base: u32) -> (r: Timer)
        ensures
            r.base == base,
            r.regs == timer_regs_zeroed(),
    {
        Timer {
            base,
            regs: TimerRegs {
                cr1: 0,
                cr2: 0,
                smcr: 0,
                dier: 0,
                sr: 0,
                egr: 0,
                ccmr1: 0,
                ccmr2: 0,
                ccer: 0,
                cnt: 0,
                psc: 0,
                arr: 0,
                ccr1: 0,
                ccr2: 0,
                ccr3: 0,
                ccr4: 0,
                dcr: 0,
                dmar: 0,
                or_reg: 0,
            },
        }
    }

    /// Program the counting style and direction: update events enabled,
    /// edge-aligned counting, no clock division, no flag remap.  The
    /// enable bit is left as it was.
    pub fn open(&mut self, timer_type: TimerType, dir: Direction)
        ensures
            pointer::bit_set(final(self).regs.cr1, OPM_BIT) == (timer_type is Ons),
            pointer::bit_set(final(self).regs.cr1, DIR_BIT) == (dir is Downcount),
            !pointer::bit_set(final(self).regs.cr1, UDIS_BIT),
            !pointer::bit_set(final(self).regs.cr1, URS_BIT),
            !pointer::bit_set(final(self).regs.cr1, ARPE_BIT),
            !pointer::bit_set(final(self).regs.cr1, UIFREMAP_BIT),
            pointer::field(final(self).regs.cr1, CMS_OFFSET, CMS_MASK) == 0,
            pointer::field(final(self).regs.cr1, CKD_OFFSET, CKD_MASK) == 0,
            pointer::bit_set(final(self).regs.cr1, EN_BIT) == pointer::bit_set(
                old(self).regs.cr1,
                EN_BIT,
            ),
            final(self).regs == (TimerRegs { cr1: final(self).regs.cr1, ..old(self).regs }),
            final(self).base == old(self).base,
    {
        proof {
            timer_bit_facts();
        }
        let opm_val: u32 = match timer_type {
            TimerType::Ons => OPM_BIT,
            TimerType::Cont => 0,
        };
        let dir_val: u32 = match dir {
            Direction::Downcount => DIR_BIT,
            Direction::Upcount => 0,
        };

        pointer::clr_ptr_vol_bit_u32(&mut self.regs.cr1, UDIS_BIT);
        pointer::clr_ptr_vol_bit_u32(&mut self.regs.cr1, URS_BIT);
        pointer::clr_ptr_vol_bit_u32(&mut self.regs.cr1, OPM_BIT);
        pointer::set_ptr_vol_bit_u32(&mut self.regs.cr1, opm_val);
        pointer::clr_ptr_vol_bit_u32(&mut self.regs.cr1, DIR_BIT);
        pointer::set_ptr_vol_bit_u32(&mut self.regs.cr1, dir_val);
        pointer::set_ptr_vol_u32(&mut self.regs.cr1, CMS_OFFSET, CMS_MASK, 0);
        pointer::clr_ptr_vol_bit_u32(&mut self.regs.cr1, ARPE_BIT);
        pointer::set_ptr_vol_u32(&mut self.regs.cr1, CKD_OFFSET, CKD_MASK, 0);
        pointer::clr_ptr_vol_bit_u32(&mut self.regs.cr1, UIFREMAP_BIT);

        proof {
            let c0 = old(self).regs.cr1;
            let ov = opm_val;
            let dv = dir_val;
            let f = self.regs.cr1;
            assert((f & 0x8 != 0) == (ov == 0x8) && (f & 0x10 != 0) == (dv == 0x10) && (f & 0x2
                == 0) && (f & 0x4 == 0) && (f & 0x80 == 0) && (f & 0x800 == 0) && ((f >> 5) & 0x3
                == 0) && ((f >> 8) & 0x3 == 0) && (f & 0x1 != 0) == (c0 & 0x1 != 0))
                by (bit_vector)
                requires
                    (ov == 0 || ov == 0x8) && (dv == 0 || dv == 0x10) && f == ((((((((((((c0
                        & !0x2) & !0x4) & !0x8) | ov) & !0x10) | dv) & !(0x3u32 << 5)) | (0u32
                        << 5)) & !0x80) & !(0x3u32 << 8)) | (0u32 << 8)) & !0x800),
            ;
        }
    }

    /// Whether the update flag is set.
    pub fn get_flag(&self) -> (r: bool)
        ensures
            r == pointer::bit_set(self.regs.sr, UPDATE_BIT),
    {
        pointer::get_ptr_vol_bit_u32(&self.regs.sr, UPDATE_BIT)
    }

    /// Clear the update flag.
    pub fn clr_flag(&mut self)
        ensures
            final(self).regs.sr == (old(self).regs.sr & !UPDATE_BIT),
            final(self).regs == (TimerRegs { sr: final(self).regs.sr, ..old(self).regs }),
            final(self).base == old(self).base,
    {
        pointer::clr_ptr_vol_bit_u32(&mut self.regs.sr, UPDATE_BIT);
    }

    /// Enable the update interrupt.
    pub fn set_interrupt(&mut self)
        ensures
            final(self).regs.dier == (old(self).regs.dier | UPDATE_BIT),
            final(self).regs == (TimerRegs { dier: final(self).regs.dier, ..old(self).regs }),
            final(self).base == old(self).base,
    {
        pointer::set_ptr_vol_bit_u32(&mut self.regs.dier, UPDATE_BIT);
    }

    /// Read the counter.
    pub fn get_cnt(&self) -> (r: u32)
        ensures
            r == self.regs.cnt,
    {
        self.regs.cnt
    }

    /// Reset the counter to zero.
    pub fn clr_cnt(&mut self)
        ensures
            final(self).regs.cnt == CLEAR_CNT,
            final(self).regs == (TimerRegs { cnt: CLEAR_CNT, ..old(self).regs }),
            final(self).base == old(self).base,
    {
        self.regs.cnt = CLEAR_CNT;
    }

    /// Start the counter.
    pub fn start(&mut self)
        ensures
            final(self).regs.cr1 == (old(self).regs.cr1 | EN_BIT),
            final(self).regs == (TimerRegs { cr1: final(self).regs.cr1, ..old(self).regs }),
            final(self).base == old(self).base,
    {
        pointer::set_ptr_vol_bit_u32(&mut self.regs.cr1, EN_BIT);
    }

    /// Stop the counter.
    pub fn stop(&mut self)
        ensures
            final(self).regs.cr1 == (old(self).regs.cr1 & !EN_BIT),
            final(self).regs == (TimerRegs { cr1: final(self).regs.cr1, ..old(self).regs }),
            final(self).base == old(self).base,
    {
        pointer::clr_ptr_vol_bit_u32(&mut self.regs.cr1, EN_BIT);
    }

    /// Program the prescaler and auto-reload value for a period of `time`
    /// ticks at `clk_speed` kHz: with no prescaler the full product counts
    /// down, otherwise the product is divided by the prescaler first.
    pub fn set_scl(&mut self, time: u32, clk_speed: u32, prescl: u32)
        requires
            time * clk_speed <= u32::MAX,
            prescl == 0 ==> time * clk_speed >= 1,
            prescl != 0 ==> time * clk_speed >= prescl,
        ensures
            prescl == 0 ==> final(self).regs.psc == 0 && final(self).regs.arr == time * clk_speed
                - 1,
            prescl != 0 ==> final(self).regs.psc == prescl - 1 && final(self).regs.arr == (time
                * clk_speed) as u32 / prescl - 1,
            final(self).regs == (TimerRegs {
                psc: final(self).regs.psc,
                arr: final(self).regs.arr,
                ..old(self).regs
            }),
            final(self).base == old(self).base,
    {
        let val: u32;
        let psc: u32;

        if prescl == 0 {
            val = (time * clk_speed) - 1;
            psc = prescl;
        } else {
            proof {
                assert((time * clk_speed) as u32 / prescl >= 1) by (nonlinear_arith)
                    requires
                        prescl != 0,
                        time * clk_speed >= prescl,
                        time * clk_speed <= u32::MAX,
                ;
            }
            val = ((time * clk_speed) / prescl) - 1;
            psc = prescl - 1;
        }

        self.regs.psc = psc;
        self.regs.arr = val;
    }

    /// Bounded wait on the update flag: when the flag is up it is cleared
    /// and the wait reports success; otherwise the fault timer expires and
    /// the wait reports failure with nothing changed.
    pub fn wait(&mut self) -> (r: bool)
        ensures
            r == pointer::bit_set(old(self).regs.sr, UPDATE_BIT),
            r ==> final(self).regs == (TimerRegs {
                sr: old(self).regs.sr & !UPDATE_BIT,
                ..old(self).regs
            }),
            !r ==> final(self).regs == old(self).regs,
            final(self).base == old(self).base,
    {
        let mut t: u32 = 0;
        while t <= TIMEOUT
            invariant
                self.regs == old(self).regs,
                self.base == old(self).base,
                t > 0 ==> !pointer::bit_set(self.regs.sr, UPDATE_BIT),
            decreases TIMEOUT + 1 - t,
        {
            if pointer::get_ptr_vol_bit_u32(&self.regs.sr, UPDATE_BIT) {
                pointer::clr_ptr_vol_bit_u32(&mut self.regs.sr, UPDATE_BIT);
                return true;
            }
            t = t + 1;
        }
        false
    }

    /// Program the channel-1 compare value.
    pub fn set_pwm_ccr1(&mut self, cnt: u32)
        ensures
            final(self).regs == (TimerRegs { ccr1: cnt, ..old(self).regs }),
            final(self).base == old(self).base,
    {
        self.regs.ccr1 = cnt;
    }

    /// Program the channel-2 compare value.
    pub fn set_pwm_ccr2(&mut self, cnt: u32)
        ensures
            final(self).regs == (TimerRegs { ccr2: cnt, ..old(self).regs }),
            final(self).base == old(self).base,
    {
        self.regs.ccr2 = cnt;
    }

    /// Program the channel-3 compare value.
    pub fn set_pwm_ccr3(&mut self, cnt: u32)
        ensures
            final(self).regs == (TimerRegs { ccr3: cnt, ..old(self).regs }),
            final(self).base == old(self).base,
    {
        self.regs.ccr3 = cnt;
    }

    /// Program the channel-4 compare value.
    pub fn set_pwm_ccr4(&mut self, cnt: u32)
        ensures
            final(self).regs == (TimerRegs { ccr4: cnt, ..old(self).regs }),
            final(self).base == old(self).base,
    {
        self.regs.ccr4 = cnt;
    }

    /// Route channel 1 as a pulse-width-modulated output: compare mode
    /// one, output enabled, active-high polarity.
    pub fn set_pwm_ch1(&mut self)
        ensures
            pointer::field(final(self).regs.ccmr1, CC1S_OFFSET, CCS_MASK) == CCS_OUTPUT,
            pointer::field(final(self).regs.ccmr1, OC1M_OFFSET, OCM_MASK) == PWM_MODE1,
            pointer::bit_set(final(self).regs.ccer, CC1E_BIT),
            !pointer::bit_set(final(self).regs.ccer, CC1P_BIT),
            !pointer::bit_set(final(self).regs.ccer, CC1NP_BIT),
            final(self).regs == (TimerRegs {
                ccmr1: final(self).regs.ccmr1,
                ccer: final(self).regs.ccer,
                ..old(self).regs
            }),
            final(self).base == old(self).base,
    {
        proof {
            timer_bit_facts();
        }
        pointer::set_ptr_vol_u32(&mut self.regs.ccmr1, CC1S_OFFSET, CCS_MASK, CCS_OUTPUT);
        let ghost w1 = self.regs.ccmr1;
        pointer::set_ptr_vol_u32(&mut self.regs.ccmr1, OC1M_OFFSET, OCM_MASK, PWM_MODE1);
        proof {
            pointer::lemma_field_written_reads_back(old(self).regs.ccmr1, CC1S_OFFSET, CCS_MASK, CCS_OUTPUT);
            pointer::lemma_field_written_preserves_field(
                w1,
                OC1M_OFFSET,
                OCM_MASK,
                PWM_MODE1,
                CC1S_OFFSET,
                CCS_MASK,
            );
            pointer::lemma_field_written_reads_back(w1, OC1M_OFFSET, OCM_MASK, PWM_MODE1);
        }
        let ghost e0 = self.regs.ccer;
        pointer::set_ptr_vol_bit_u32(&mut self.regs.ccer, CC1E_BIT);
        let ghost e1 = self.regs.ccer;
        pointer::clr_ptr_vol_bit_u32(&mut self.regs.ccer, CC1P_BIT);
        let ghost e2 = self.regs.ccer;
        pointer::clr_ptr_vol_bit_u32(&mut self.regs.ccer, CC1NP_BIT);
        proof {
            pointer::lemma_or_sets(e0, CC1E_BIT);
            pointer::lemma_andnot_preserves_bits(e1, CC1P_BIT, CC1E_BIT);
            pointer::lemma_andnot_preserves_bits(e2, CC1NP_BIT, CC1E_BIT);
            pointer::lemma_andnot_clears(e1, CC1P_BIT);
            pointer::lemma_andnot_preserves_bits(e2, CC1NP_BIT, CC1P_BIT);
            pointer::lemma_andnot_clears(e2, CC1NP_BIT);
        }
    }

    /// Route channel 2 as a pulse-width-modulated output.
    pub fn set_pwm_ch2(&mut self)
        ensures
            pointer::field(final(self).regs.ccmr1, CC2S_OFFSET, CCS_MASK) == CCS_OUTPUT,
            pointer::field(final(self).regs.ccmr1, OC2M_OFFSET, OCM_MASK) == PWM_MODE1,
            pointer::bit_set(final(self).regs.ccer, CC2E_BIT),
            !pointer::bit_set(final(self).regs.ccer, CC2P_BIT),
            !pointer::bit_set(final(self).regs.ccer, CC2NP_BIT),
            final(self).regs == (TimerRegs {
                ccmr1: final(self).regs.ccmr1,
                ccer: final(self).regs.ccer,
                ..old(self).regs
            }),
            final(self).base == old(self).base,
    {
        proof {
            timer_bit_facts();
        }
        pointer::set_ptr_vol_u32(&mut self.regs.ccmr1, CC2S_OFFSET, CCS_MASK, CCS_OUTPUT);
        let ghost w1 = self.regs.ccmr1;
        pointer::set_ptr_vol_u32(&mut self.regs.ccmr1, OC2M_OFFSET, OCM_MASK, PWM_MODE1);
        proof {
            pointer::lemma_field_written_reads_back(old(self).regs.ccmr1, CC2S_OFFSET, CCS_MASK, CCS_OUTPUT);
            pointer::lemma_field_written_preserves_field(
                w1,
                OC2M_OFFSET,
                OCM_MASK,
                PWM_MODE1,
                CC2S_OFFSET,
                CCS_MASK,
            );
            pointer::lemma_field_written_reads_back(w1, OC2M_OFFSET, OCM_MASK, PWM_MODE1);
        }
        let ghost e0 = self.regs.ccer;
        pointer::set_ptr_vol_bit_u32(&mut self.regs.ccer, CC2E_BIT);
        let ghost e1 = self.regs.ccer;
        pointer::clr_ptr_vol_bit_u32(&mut self.regs.ccer, CC2P_BIT);
        let ghost e2 = self.regs.ccer;
        pointer::clr_ptr_vol_bit_u32(&mut self.regs.ccer, CC2NP_BIT);
        proof {
            pointer::lemma_or_sets(e0, CC2E_BIT);
            pointer::lemma_andnot_preserves_bits(e1, CC2P_BIT, CC2E_BIT);
            pointer::lemma_andnot_preserves_bits(e2, CC2NP_BIT, CC2E_BIT);
            pointer::lemma_andnot_clears(e1, CC2P_BIT);
            pointer::lemma_andnot_preserves_bits(e2, CC2NP_BIT, CC2P_BIT);
            pointer::lemma_andnot_clears(e2, CC2NP_BIT);
        }
    }

    /// Route channel 3 as a pulse-width-modulated output.
    pub fn set_pwm_ch3(&mut self)
        ensures
            pointer::field(final(self).regs.ccmr2, CC1S_OFFSET, CCS_MASK) == CCS_OUTPUT,
            pointer::field(final(self).regs.ccmr2, OC1M_OFFSET, OCM_MASK) == PWM_MODE1,
            pointer::bit_set(final(self).regs.ccer, CC3E_BIT),
            !pointer::bit_set(final(self).regs.ccer, CC3P_BIT),
            !pointer::bit_set(final(self).regs.ccer, CC3NP_BIT),
            final(self).regs == (TimerRegs {
                ccmr2: final(self).regs.ccmr2,
                ccer: final(self).regs.ccer,
                ..old(self).regs
            }),
            final(self).base == old(self).base,
    {
        proof {
            timer_bit_facts();
        }
        pointer::set_ptr_vol_u32(&mut self.regs.ccmr2, CC1S_OFFSET, CCS_MASK, CCS_OUTPUT);
        let ghost w1 = self.regs.ccmr2;
        pointer::set_ptr_vol_u32(&mut self.regs.ccmr2, OC1M_OFFSET, OCM_MASK, PWM_MODE1);
        proof {
            pointer::lemma_field_written_reads_back(old(self).regs.ccmr2, CC1S_OFFSET, CCS_MASK, CCS_OUTPUT);
            pointer::lemma_field_written_preserves_field(
                w1,
                OC1M_OFFSET,
                OCM_MASK,
                PWM_MODE1,
                CC1S_OFFSET,
                CCS_MASK,
            );
            pointer::lemma_field_written_reads_back(w1, OC1M_OFFSET, OCM_MASK, PWM_MODE1);
        }
        let ghost e0 = self.regs.ccer;
        pointer::set_ptr_vol_bit_u32(&mut self.regs.ccer, CC3E_BIT);
        let ghost e1 = self.regs.ccer;
        pointer::clr_ptr_vol_bit_u32(&mut self.regs.ccer, CC3P_BIT);
        let ghost e2 = self.regs.ccer;
        pointer::clr_ptr_vol_bit_u32(&mut self.regs.ccer, CC3NP_BIT);
        proof {
            pointer::lemma_or_sets(e0, CC3E_BIT);
            pointer::lemma_andnot_preserves_bits(e1, CC3P_BIT, CC3E_BIT);
            pointer::lemma_andnot_preserves_bits(e2, CC3NP_BIT, CC3E_BIT);
            pointer::lemma_andnot_clears(e1, CC3P_BIT);
            pointer::lemma_andnot_preserves_bits(e2, CC3NP_BIT, CC3P_BIT);
            pointer::lemma_andnot_clears(e2, CC3NP_BIT);
        }
    }

    /// Route channel 4 as a pulse-width-modulated output.
    pub fn set_pwm_ch4(&mut self)
        ensures
            pointer::field(final(self).regs.ccmr2, CC2S_OFFSET, CCS_MASK) == CCS_OUTPUT,
            pointer::field(final(self).regs.ccmr2, OC2M_OFFSET, OCM_MASK) == PWM_MODE1,
            pointer::bit_set(final(self).regs.ccer, CC4E_BIT),
            !pointer::bit_set(final(self).regs.ccer, CC4P_BIT),
            !pointer::bit_set(final(self).regs.ccer, CC4NP_BIT),
            final(self).regs == (TimerRegs {
                ccmr2: final(self).regs.ccmr2,
                ccer: final(self).regs.ccer,
                ..old(self).regs
            }),
            final(self).base == old(self).base,
    {
        proof {
            timer_bit_facts();
        }
        pointer::set_ptr_vol_u32(&mut self.regs.ccmr2, CC2S_OFFSET, CCS_MASK, CCS_OUTPUT);
        let ghost w1 = self.regs.ccmr2;
        pointer::set_ptr_vol_u32(&mut self.regs.ccmr2, OC2M_OFFSET, OCM_MASK, PWM_MODE1);
        proof {
            pointer::lemma_field_written_reads_back(old(self).regs.ccmr2, CC2S_OFFSET, CCS_MASK, CCS_OUTPUT);
            pointer::lemma_field_written_preserves_field(
                w1,
                OC2M_OFFSET,
                OCM_MASK,
                PWM_MODE1,
                CC2S_OFFSET,
                CCS_MASK,
            );
            pointer::lemma_field_written_reads_back(w1, OC2M_OFFSET, OCM_MASK, PWM_MODE1);
        }
        let ghost e0 = self.regs.ccer;
        pointer::set_ptr_vol_bit_u32(&mut self.regs.ccer, CC4E_BIT);
        let ghost e1 = self.regs.ccer;
        pointer::clr_ptr_vol_bit_u32(&mut self.regs.ccer, CC4P_BIT);
        let ghost e2 = self.regs.ccer;
        pointer::clr_ptr_vol_bit_u32(&mut self.regs.ccer, CC4NP_BIT);
        proof {
            pointer::lemma_or_sets(e0, CC4E_BIT);
            pointer::lemma_andnot_preserves_bits(e1, CC4P_BIT, CC4E_BIT);
            pointer::lemma_andnot_preserves_bits(e2, CC4NP_BIT, CC4E_BIT);
            pointer::lemma_andnot_clears(e1, CC4P_BIT);
            pointer::lemma_andnot_preserves_bits(e2, CC4NP_BIT, CC4P_BIT);
            pointer::lemma_andnot_clears(e2, CC4NP_BIT);
        }
    }
}

} // verus!
