//! Clocked master bus (inter-integrated-circuit class): timing-table
//! programming keyed by input clock and target speed, addressed
//! transactions framed by explicit start and stop conditions, and byte
//! transfers gated by status flags under a fault timer.
//!
//! The handle owns an image of the register block and the wire-side byte
//! queues: `rx` holds the bytes the addressed peer has placed on the bus
//! and not yet read out of the data register, `tx` the bytes shifted out
//! on the bus.  The flag behaviour the reference manual guarantees is
//! reflected by the image: while the peripheral-enable bit is set the
//! hardware consumes a written start or stop condition at once, accepts a
//! transmit byte per transmit-flag poll, and raises the receive flag
//! while bytes are queued; with the peripheral disabled every such wait
//! runs its fault timer out.

use vstd::prelude::*;

use crate::common;
use crate::common::BusError;
use crate::pointer;

verus! {

/// Image of the clocked-master-bus register block.  The receive and
/// transmit data registers are modelled by the handle's byte queues.
#[derive(Clone, Copy, PartialEq, Eq, Structural, Debug)]
pub struct I2cRegs {
    pub cr1: u32,      // Control Register 1
    pub cr2: u32,      // Control Register 2
    pub oar1: u32,     // Own Address Register 1
    pub oar2: u32,     // Own Address Register 2
    pub timingr: u32,  // Timing Register
    pub timeoutr: u32, // Timeout Register
    pub isr: u32,      // Interrupt And Status Register
    pub icr: u32,      // Interrupt Flag Clear Register
    pub pecr: u32,     // Packet Error Checking Register
}

/// The whole register block with every word clear.
pub open spec fn i2c_regs_zeroed() -> I2cRegs {
    I2cRegs {
        cr1: 0,
        cr2: 0,
        oar1: 0,
        oar2: 0,
        timingr: 0,
        timeoutr: 0,
        isr: 0,
        icr: 0,
        pecr: 0,
    }
}

/// Handle over one clocked-master-bus peripheral.
pub struct I2c {
    /// Base address the handle was resolved from.
    pub base: u32,
    /// Image of the register block.
    pub regs: I2cRegs,
    /// Bytes the addressed peer has placed on the bus, not yet read.
    pub rx: Vec<u8>,
    /// Bytes shifted out on the bus.
    pub tx: Vec<u8>,
    /// Bytes moved since the last start condition, saturating at 256.
    pub transferred: u32,
}

/// Target bus speed: standard mode 10 kHz or 100 kHz, fast mode 400 kHz,
/// or fast mode plus.
#[derive(Clone, Copy, PartialEq, Eq, Structural, Debug)]
pub enum TimingMode {
    Sm10KHz,
    Sm100KHz,
    Fm400KHz,
    FmPlus,
}

/* Register Masks */
pub const ADDR_10_MASK: u32 = common::MASK_10_BIT;
pub const ADDR_7_MASK: u32 = common::MASK_9_BIT;
pub const NBYTES_MASK: u32 = common::MASK_8_BIT;
pub const SCL_MASK: u32 = common::MASK_8_BIT;
pub const DEL_MASK: u32 = common::MASK_4_BIT;

/* Register Bits: control register 1 */
pub const PE_BIT: u32 = common::BIT_0;

/* Register Bits: control register 2 */
pub const RD_WRN_BIT: u32 = common::BIT_10;
pub const ADDR_10_BIT: u32 = common::BIT_11;
pub const HEAD_10_BIT: u32 = common::BIT_12;
pub const START_BIT: u32 = common::BIT_13;
pub const STOP_BIT: u32 = common::BIT_14;
pub const RELOAD_BIT: u32 = common::BIT_24;
pub const AUTOEND_BIT: u32 = common::BIT_25;

/* Register Offsets: control register 2 */
pub const ADDR_10_OFFSET: u32 = 0;
pub const ADDR_7_OFFSET: u32 = 1;
pub const NBYTES_OFFSET: u32 = 16;

/* Register Offsets: timing register */
pub const SCLL_OFFSET: u32 = 0;
pub const SCLH_OFFSET: u32 = 8;
pub const SDADEL_OFFSET: u32 = 16;
pub const SCLDEL_OFFSET: u32 = 20;
pub const PRESC_OFFSET: u32 = 28;

/* Transfer direction codes of `setup` */
pub const READ: bool = false;
pub const WRITE: bool = true;
pub const LEN_1_BYTE: u32 = 1;

/// Largest byte count one transaction can carry: the count field is eight
/// bits wide, and chaining longer transfers is out of scope.
pub const NBYTES_MAX: u32 = 255;

/// Fault-timer bound of every polling wait.
pub const TIMEOUT: u32 = common::WAIT100US;

/// The transfer counter after `k` more bytes, saturating at 256.
pub open spec fn bump(t: u32, k: nat) -> u32 {
    if t >= 256 {
        t
    } else if t + k >= 256 {
        256u32
    } else {
        (t + k) as u32
    }
}

/// The five timing fields of the timing register: low clock phase, high
/// clock phase, data delay, setup delay, prescaler.
pub open spec fn timing_view(t: u32) -> (u32, u32, u32, u32, u32) {
    (
        pointer::field(t, SCLL_OFFSET, SCL_MASK),
        pointer::field(t, SCLH_OFFSET, SCL_MASK),
        pointer::field(t, SDADEL_OFFSET, DEL_MASK),
        pointer::field(t, SCLDEL_OFFSET, DEL_MASK),
        pointer::field(t, PRESC_OFFSET, DEL_MASK),
    )
}

/// The documented timing tuple for an input clock and target speed; an
/// input clock outside the supported set falls back to the conservative
/// default tuple.
pub open spec fn spec_timing(sclk: common::MsiRange, mode: TimingMode) -> (u32, u32, u32, u32, u32) {
    match sclk {
        common::MsiRange::Clk8MHz => match mode {
            TimingMode::Sm10KHz => (0xC7, 0xC3, 0x02, 0x04, 0x01),
            TimingMode::Sm100KHz => (0x13, 0x0F, 0x02, 0x04, 0x01),
            TimingMode::Fm400KHz => (0x09, 0x03, 0x01, 0x03, 0x00),
            TimingMode::FmPlus => (0xC7, 0xC3, 0x02, 0x04, 0x01),
        },
        common::MsiRange::Clk16MHz => match mode {
            TimingMode::Sm10KHz => (0xC7, 0xC3, 0x02, 0x04, 0x03),
            TimingMode::Sm100KHz => (0x13, 0x0F, 0x02, 0x04, 0x03),
            TimingMode::Fm400KHz => (0x09, 0x03, 0x02, 0x03, 0x01),
            TimingMode::FmPlus => (0x04, 0x02, 0x00, 0x02, 0x00),
        },
        common::MsiRange::Clk48MHz => match mode {
            TimingMode::Sm10KHz => (0xC7, 0xC3, 0x02, 0x04, 0x0B),
            TimingMode::Sm100KHz => (0x13, 0x0F, 0x02, 0x04, 0x0B),
            TimingMode::Fm400KHz => (0x09, 0x03, 0x03, 0x03, 0x05),
            TimingMode::FmPlus => (0x03, 0x01, 0x00, 0x01, 0x05),
        },
        _ => (0x19, 0x06, 0x00, 0x03, 0x00),
    }
}

/// Literal mask facts this module's proofs lean on.
proof fn i2c_bit_facts()
    by (bit_vector)
    ensures
        forall|v: u32| v <= 0xFF ==> #[trigger] (v & 0xFF) == v,
        forall|v: u32| v <= 0xF ==> #[trigger] (v & 0xF) == v,
        forall|v: u32| v <= 0x3FF ==> #[trigger] (v & 0x3FF) == v,
        forall|v: u32| v <= 0x1FF ==> #[trigger] (v & 0x1FF) == v,
        (0x2000u32 & (0xFFu32 << 16)) == 0,
        (0x4000u32 & (0xFFu32 << 16)) == 0,
{
}

impl I2c {
    /// Whether the peripheral-enable bit is set.
    pub open spec fn pe(self) -> bool {
        pointer::bit_set(self.regs.cr1, PE_BIT)
    }

    /// The programmed byte count of the current transaction.
    pub open spec fn nbytes(self) -> u32 {
        pointer::field(self.regs.cr2, NBYTES_OFFSET, NBYTES_MASK)
    }

    /// The transfer-complete flag: the peripheral is enabled and the
    /// programmed byte count has been moved since the last start.
    pub open spec fn tc_set(self) -> bool {
        self.pe() && self.transferred >= self.nbytes()
    }

    /// The receive flag: the peripheral is enabled and a byte is queued.
    pub open spec fn rxne(self) -> bool {
        self.pe() && self.rx@.len() > 0
    }

    /// What a successful whole-buffer write leaves behind: the bytes
    /// appended to the wire, the receive queue and registers untouched,
    /// the transfer counter advanced.
    pub open spec fn write_effect(pre: I2c, post: I2c, data: Seq<u8>) -> bool {
        &&& post.regs == pre.regs
        &&& post.base == pre.base
        &&& post.rx@ == pre.rx@
        &&& post.tx@ == pre.tx@ + data
        &&& post.transferred == bump(pre.transferred, data.len())
    }

    /// What a successful whole-buffer read of `n` bytes leaves behind:
    /// the first `n` queued bytes moved into the buffer, the queue
    /// shortened by `n`, the wire and registers untouched.
    pub open spec fn read_effect(pre: I2c, post: I2c, n: nat, buf: Seq<u8>) -> bool {
        &&& buf == pre.rx@.take(n as int)
        &&& post.rx@ == pre.rx@.skip(n as int)
        &&& post.regs == pre.regs
        &&& post.base == pre.base
        &&& post.tx@ == pre.tx@
        &&& post.transferred == bump(pre.transferred, n)
    }

    /// Resolve a handle from the peripheral's base address; the register
    /// image starts out all clear, the bus quiet.
    pub fn init(base: u32) -> (r: I2c)
        ensures
            r.base == base,
            r.regs == i2c_regs_zeroed(),
            r.rx@ == Seq::<u8>::empty(),
            r.tx@ == Seq::<u8>::empty(),
            r.transferred == 0,
    {
        let r = I2c {
            base,
            regs: I2cRegs {
                cr1: 0,
                cr2: 0,
                oar1: 0,
                oar2: 0,
                timingr: 0,
                timeoutr: 0,
                isr: 0,
                icr: 0,
                pecr: 0,
            },
            rx: Vec::new(),
            tx: Vec::new(),
            transferred: 0,
        };
        proof {
            assert(r.rx@ =~= Seq::<u8>::empty());
            assert(r.tx@ =~= Seq::<u8>::empty());
        }
        r
    }

    /// Open the bus for a target speed: the peripheral is disabled, the
    /// timing tuple documented for the input clock and target speed - or
    /// the conservative default for an unsupported clock - is programmed,
    /// and the peripheral is re-enabled.
    pub fn open(&mut self, sclk: common::MsiRange, mode: TimingMode)
        ensures
            timing_view(final(self).regs.timingr) == spec_timing(sclk, mode),
            final(self).pe(),
            final(self).regs.cr1 == ((old(self).regs.cr1 & !PE_BIT) | PE_BIT),
            final(self).regs == (I2cRegs {
                cr1: final(self).regs.cr1,
                timingr: final(self).regs.timingr,
                ..old(self).regs
            }),
            final(self).rx@ == old(self).rx@,
            final(self).tx@ == old(self).tx@,
            final(self).transferred == old(self).transferred,
            final(self).base == old(self).base,
    {
        pointer::clr_ptr_vol_bit_u32(&mut self.regs.cr1, PE_BIT);

        match sclk {
            common::MsiRange::Clk8MHz => {
                match mode {
                    TimingMode::Sm10KHz => self.set_timing_register(0xC7, 0xC3, 0x02, 0x04, 0x01),
                    TimingMode::Sm100KHz => self.set_timing_register(0x13, 0x0F, 0x02, 0x04, 0x01),
                    TimingMode::Fm400KHz => self.set_timing_register(0x09, 0x03, 0x01, 0x03, 0x00),
                    TimingMode::FmPlus => self.set_timing_register(0xC7, 0xC3, 0x02, 0x04, 0x01),
                }
            },
            common::MsiRange::Clk16MHz => {
                match mode {
                    TimingMode::Sm10KHz => self.set_timing_register(0xC7, 0xC3, 0x02, 0x04, 0x03),
                    TimingMode::Sm100KHz => self.set_timing_register(0x13, 0x0F, 0x02, 0x04, 0x03),
                    TimingMode::Fm400KHz => self.set_timing_register(0x09, 0x03, 0x02, 0x03, 0x01),
                    TimingMode::FmPlus => self.set_timing_register(0x04, 0x02, 0x00, 0x02, 0x00),
                }
            },
            common::MsiRange::Clk48MHz => {
                match mode {
                    TimingMode::Sm10KHz => self.set_timing_register(0xC7, 0xC3, 0x02, 0x04, 0x0B),
                    TimingMode::Sm100KHz => self.set_timing_register(0x13, 0x0F, 0x02, 0x04, 0x0B),
                    TimingMode::Fm400KHz => self.set_timing_register(0x09, 0x03, 0x03, 0x03, 0x05),
                    TimingMode::FmPlus => self.set_timing_register(0x03, 0x01, 0x00, 0x01, 0x05),
                }
            },
            _ => self.set_timing_register(0x19, 0x06, 0x00, 0x03, 0x00),
        }

        let ghost w = self.regs.cr1;
        pointer::set_ptr_vol_bit_u32(&mut self.regs.cr1, PE_BIT);
        proof {
            pointer::lemma_or_sets(w, PE_BIT);
        }
    }

    /// Enable the peripheral without touching the timing registers.
    pub fn start_bus(&mut self)
        ensures
            final(self).regs.cr1 == (old(self).regs.cr1 | PE_BIT),
            final(self).pe(),
            final(self).regs == (I2cRegs { cr1: final(self).regs.cr1, ..old(self).regs }),
            final(self).rx@ == old(self).rx@,
            final(self).tx@ == old(self).tx@,
            final(self).transferred == old(self).transferred,
            final(self).base == old(self).base,
    {
        let ghost w = self.regs.cr1;
        pointer::set_ptr_vol_bit_u32(&mut self.regs.cr1, PE_BIT);
        proof {
            pointer::lemma_or_sets(w, PE_BIT);
        }
    }

    /// Disable the peripheral; the hardware needs a settling time before
    /// it may be re-enabled, which a port to a device must respect.
    pub fn stop_bus(&mut self)
        ensures
            final(self).regs.cr1 == (old(self).regs.cr1 & !PE_BIT),
            !final(self).pe(),
            final(self).regs == (I2cRegs { cr1: final(self).regs.cr1, ..old(self).regs }),
            final(self).rx@ == old(self).rx@,
            final(self).tx@ == old(self).tx@,
            final(self).transferred == old(self).transferred,
            final(self).base == old(self).base,
    {
        let ghost w = self.regs.cr1;
        pointer::clr_ptr_vol_bit_u32(&mut self.regs.cr1, PE_BIT);
        proof {
            pointer::lemma_andnot_clears(w, PE_BIT);
        }
    }

    /// Program a transaction: addressing mode and target address,
    /// ten-bit-header-only selection, transfer direction, and byte count;
    /// reload and automatic-end stay off, so the transfer ends under
    /// software control.  Counts beyond one count-field worth of bytes
    /// are out of scope and must be chained by the caller.
    pub fn setup(&mut self, slave_addr: u32, addr_10bit: bool, req_10bit: bool, byte_cnt: u32, write: bool)
        requires
            addr_10bit ==> slave_addr <= ADDR_10_MASK,
            !addr_10bit ==> slave_addr <= ADDR_7_MASK,
            byte_cnt <= NBYTES_MAX,
        ensures
            pointer::bit_set(final(self).regs.cr2, ADDR_10_BIT) == addr_10bit,
            addr_10bit ==> pointer::field(final(self).regs.cr2, ADDR_10_OFFSET, ADDR_10_MASK)
                == slave_addr,
            addr_10bit ==> pointer::bit_set(final(self).regs.cr2, HEAD_10_BIT) == req_10bit,
            !addr_10bit ==> pointer::field(final(self).regs.cr2, ADDR_7_OFFSET, ADDR_7_MASK)
                == slave_addr,
            !addr_10bit ==> pointer::bit_set(final(self).regs.cr2, HEAD_10_BIT) == pointer::bit_set(
                old(self).regs.cr2,
                HEAD_10_BIT,
            ),
            pointer::bit_set(final(self).regs.cr2, RD_WRN_BIT) == !write,
            final(self).nbytes() == byte_cnt,
            !pointer::bit_set(final(self).regs.cr2, RELOAD_BIT),
            !pointer::bit_set(final(self).regs.cr2, AUTOEND_BIT),
            pointer::bit_set(final(self).regs.cr2, START_BIT) == pointer::bit_set(
                old(self).regs.cr2,
                START_BIT,
            ),
            pointer::bit_set(final(self).regs.cr2, STOP_BIT) == pointer::bit_set(
                old(self).regs.cr2,
                STOP_BIT,
            ),
            final(self).regs == (I2cRegs { cr2: final(self).regs.cr2, ..old(self).regs }),
            final(self).rx@ == old(self).rx@,
            final(self).tx@ == old(self).tx@,
            final(self).transferred == old(self).transferred,
            final(self).base == old(self).base,
    {
        proof {
            i2c_bit_facts();
        }
        if addr_10bit {
            pointer::set_ptr_vol_bit_u32(&mut self.regs.cr2, ADDR_10_BIT);
            pointer::set_ptr_vol_u32(&mut self.regs.cr2, ADDR_10_OFFSET, ADDR_10_MASK, slave_addr);
            pointer::clr_ptr_vol_bit_u32(&mut self.regs.cr2, HEAD_10_BIT);
            let head_val: u32 = if req_10bit {
                HEAD_10_BIT
            } else {
                0
            };
            pointer::set_ptr_vol_bit_u32(&mut self.regs.cr2, head_val);
        } else {
            pointer::clr_ptr_vol_bit_u32(&mut self.regs.cr2, ADDR_10_BIT);
            pointer::set_ptr_vol_u32(&mut self.regs.cr2, ADDR_7_OFFSET, ADDR_7_MASK, slave_addr);
        }
        let ghost mid = self.regs.cr2;

        pointer::clr_ptr_vol_bit_u32(&mut self.regs.cr2, RD_WRN_BIT);
        let rd_val: u32 = if write {
            0
        } else {
            RD_WRN_BIT
        };
        pointer::set_ptr_vol_bit_u32(&mut self.regs.cr2, rd_val);

        pointer::set_ptr_vol_u32(&mut self.regs.cr2, NBYTES_OFFSET, NBYTES_MASK, byte_cnt);

        pointer::clr_ptr_vol_bit_u32(&mut self.regs.cr2, RELOAD_BIT);
        pointer::clr_ptr_vol_bit_u32(&mut self.regs.cr2, AUTOEND_BIT);

        proof {
            let c0 = old(self).regs.cr2;
            let sa = slave_addr;
            let bc = byte_cnt;
            let a10: u32 = if addr_10bit { 1u32 } else { 0u32 };
            let hv: u32 = if addr_10bit && req_10bit { HEAD_10_BIT } else { 0u32 };
            let rv: u32 = if write { 0u32 } else { RD_WRN_BIT };
            let m = mid;
            let f = self.regs.cr2;
            assert((f & 0x800 != 0) == (a10 == 1) && (a10 == 1 ==> (f >> 0) & 0x3FF == sa && ((f
                & 0x1000 != 0) == (hv == 0x1000))) && (a10 == 0 ==> (f >> 1) & 0x1FF == sa && ((f
                & 0x1000 != 0) == (c0 & 0x1000 != 0))) && ((f & 0x400 != 0) == (rv == 0x400)) && ((
            f >> 16) & 0xFF == bc) && (f & 0x1000000 == 0) && (f & 0x2000000 == 0) && ((f & 0x2000
                != 0) == (c0 & 0x2000 != 0)) && ((f & 0x4000 != 0) == (c0 & 0x4000 != 0)))
                by (bit_vector)
                requires
                    (a10 == 0 || a10 == 1) && (hv == 0 || hv == 0x1000) && (rv == 0 || rv == 0x400)
                        && (a10 == 1 ==> sa <= 0x3FF) && (a10 == 0 ==> sa <= 0x1FF) && bc <= 0xFF
                        && (a10 == 1 ==> m == ((((((c0 | 0x800) & !(0x3FFu32 << 0)) | (sa << 0))
                        & !0x1000) | hv))) && (a10 == 0 ==> m == (((c0 & !0x800) & !(0x1FFu32 << 1))
                        | (sa << 1))) && f == (((((((m & !0x400) | rv) & !(0xFFu32 << 16)) | (bc
                        << 16)) & !0x1000000) & !0x2000000)),
            ;
        }
    }

    /// Write the start condition and wait for the hardware to take it.
    /// While the peripheral is enabled the hardware consumes the start at
    /// once and a fresh transfer begins; disabled, the condition stays
    /// pending and the fault timer runs out.
    pub fn start(&mut self) -> (r: Result<(), BusError>)
        ensures
            old(self).pe() ==> r is Ok && final(self).regs.cr2 == (old(self).regs.cr2 & !START_BIT)
                && final(self).transferred == 0,
            !old(self).pe() ==> r == Result::<(), BusError>::Err(BusError::Timeout) && final(self).regs.cr2 == (old(self).regs.cr2 | START_BIT) && final(self).transferred == old(self).transferred,
            final(self).nbytes() == old(self).nbytes(),
            final(self).regs == (I2cRegs { cr2: final(self).regs.cr2, ..old(self).regs }),
            final(self).rx@ == old(self).rx@,
            final(self).tx@ == old(self).tx@,
            final(self).base == old(self).base,
    {
        proof {
            i2c_bit_facts();
            pointer::lemma_or_sets(old(self).regs.cr2, START_BIT);
            pointer::lemma_andnot_clears(old(self).regs.cr2, START_BIT);
            pointer::lemma_or_preserves_field(
                old(self).regs.cr2,
                START_BIT,
                NBYTES_OFFSET,
                NBYTES_MASK,
            );
            pointer::lemma_andnot_preserves_field(
                old(self).regs.cr2,
                START_BIT,
                NBYTES_OFFSET,
                NBYTES_MASK,
            );
        }
        if pointer::get_ptr_vol_bit_u32(&self.regs.cr1, PE_BIT) {
            // Enabled: the hardware sends the start and clears the bit
            // before the first poll sees it; the byte counter restarts.
            pointer::clr_ptr_vol_bit_u32(&mut self.regs.cr2, START_BIT);
            self.transferred = 0;
        } else {
            pointer::set_ptr_vol_bit_u32(&mut self.regs.cr2, START_BIT);
        }

        let mut t: u32 = 0;
        while t <= TIMEOUT
            invariant
                old(self).pe() ==> self.regs.cr2 == (old(self).regs.cr2 & !START_BIT)
                    && self.transferred == 0,
                !old(self).pe() ==> self.regs.cr2 == (old(self).regs.cr2 | START_BIT)
                    && self.transferred == old(self).transferred,
                self.regs == (I2cRegs { cr2: self.regs.cr2, ..old(self).regs }),
                self.rx@ == old(self).rx@,
                self.tx@ == old(self).tx@,
                self.base == old(self).base,
                old(self).pe() ==> !pointer::bit_set(self.regs.cr2, START_BIT),
                !old(self).pe() ==> pointer::bit_set(self.regs.cr2, START_BIT),
                t > 0 ==> pointer::bit_set(self.regs.cr2, START_BIT),
                self.nbytes() == old(self).nbytes(),
            decreases TIMEOUT + 1 - t,
        {
            if !pointer::get_ptr_vol_bit_u32(&self.regs.cr2, START_BIT) {
                return Ok(());
            }
            t = t + 1;
        }
        Err(BusError::Timeout)
    }

    /// Write the stop condition and wait for the hardware to take it.
    /// While the peripheral is enabled the hardware sends the stop at
    /// once; disabled, the condition stays pending and the fault timer
    /// runs out.
    pub fn stop(&mut self) -> (r: Result<(), BusError>)
        ensures
            old(self).pe() ==> r is Ok && final(self).regs.cr2 == (old(self).regs.cr2 & !STOP_BIT),
            !old(self).pe() ==> r == Result::<(), BusError>::Err(BusError::Timeout) && final(self).regs.cr2 == (old(self).regs.cr2 | STOP_BIT),
            final(self).regs == (I2cRegs { cr2: final(self).regs.cr2, ..old(self).regs }),
            final(self).rx@ == old(self).rx@,
            final(self).tx@ == old(self).tx@,
            final(self).transferred == old(self).transferred,
            final(self).base == old(self).base,
    {
        if pointer::get_ptr_vol_bit_u32(&self.regs.cr1, PE_BIT) {
            pointer::clr_ptr_vol_bit_u32(&mut self.regs.cr2, STOP_BIT);
        } else {
            pointer::set_ptr_vol_bit_u32(&mut self.regs.cr2, STOP_BIT);
            proof {
                pointer::lemma_or_sets(old(self).regs.cr2, STOP_BIT);
            }
        }
        proof {
            pointer::lemma_andnot_clears(old(self).regs.cr2, STOP_BIT);
        }

        let mut t: u32 = 0;
        while t <= TIMEOUT
            invariant
                old(self).pe() ==> self.regs.cr2 == (old(self).regs.cr2 & !STOP_BIT),
                !old(self).pe() ==> self.regs.cr2 == (old(self).regs.cr2 | STOP_BIT),
                self.regs == (I2cRegs { cr2: self.regs.cr2, ..old(self).regs }),
                self.rx@ == old(self).rx@,
                self.tx@ == old(self).tx@,
                self.transferred == old(self).transferred,
                self.base == old(self).base,
                old(self).pe() ==> !pointer::bit_set(self.regs.cr2, STOP_BIT),
                !old(self).pe() ==> pointer::bit_set(self.regs.cr2, STOP_BIT),
                t > 0 ==> pointer::bit_set(self.regs.cr2, STOP_BIT),
            decreases TIMEOUT + 1 - t,
        {
            if !pointer::get_ptr_vol_bit_u32(&self.regs.cr2, STOP_BIT) {
                return Ok(());
            }
            t = t + 1;
        }
        Err(BusError::Timeout)
    }

    /// Wait for the transfer-complete flag: up once the programmed byte
    /// count has been moved since the last start; otherwise the fault
    /// timer runs out.
    pub fn tc(&mut self) -> (r: Result<(), BusError>)
        ensures
            r is Ok <==> old(self).tc_set(),
            !old(self).tc_set() ==> r == Result::<(), BusError>::Err(BusError::Timeout),
            final(self).regs == old(self).regs,
            final(self).rx@ == old(self).rx@,
            final(self).tx@ == old(self).tx@,
            final(self).transferred == old(self).transferred,
            final(self).base == old(self).base,
    {
        let mut t: u32 = 0;
        while t <= TIMEOUT
            invariant
                self.regs == old(self).regs,
                self.rx@ == old(self).rx@,
                self.tx@ == old(self).tx@,
                self.transferred == old(self).transferred,
                self.base == old(self).base,
                t > 0 ==> !old(self).tc_set(),
            decreases TIMEOUT + 1 - t,
        {
            if self.tc_read() {
                return Ok(());
            }
            t = t + 1;
        }
        Err(BusError::Timeout)
    }

    /// Read `buf.len()` bytes of the current transaction, one per
    /// receive-flag poll, each poll bounded by the fault timer.  When the
    /// peer has queued fewer bytes than asked the read times out after
    /// moving what was there - the shortfall is observable in the buffer
    /// and the queue, and nothing is rolled back.
    pub fn read(&mut self, buf: &mut Vec<u8>) -> (r: Result<usize, BusError>)
        ensures
            old(buf)@.len() == 0 ==> r == Result::<usize, BusError>::Ok(0) && final(buf)@ == old(buf)@ && final(self).rx@ == old(self).rx@ && final(self).tx@ == old(self).tx@ && final(self).regs == old(self).regs && final(self).transferred == old(self).transferred,
            old(self).pe() && old(self).rx@.len() >= old(buf)@.len() ==> r
                == Result::<usize, BusError>::Ok(old(buf)@.len() as usize) && I2c::read_effect(
                *old(self),
                *final(self),
                old(buf)@.len(),
                final(buf)@,
            ),
            old(self).pe() && old(self).rx@.len() < old(buf)@.len() ==> r
                == Result::<usize, BusError>::Err(BusError::Timeout) && final(buf)@ == old(self).rx@ + old(buf)@.skip(old(self).rx@.len() as int) && final(self).rx@.len() == 0
                && final(self).transferred == bump(old(self).transferred, old(self).rx@.len())
                && final(self).regs == old(self).regs && final(self).tx@ == old(self).tx@,
            !old(self).pe() && old(buf)@.len() > 0 ==> r == Result::<usize, BusError>::Err(
                BusError::Timeout,
            ) && final(buf)@ == old(buf)@ && final(self).rx@ == old(self).rx@ && final(self).transferred == old(self).transferred && final(self).regs == old(self).regs && final(self).tx@ == old(self).tx@,
            final(buf)@.len() == old(buf)@.len(),
            final(self).base == old(self).base,
    {
        let mut i: usize = 0;
        let mut t: u32 = 0;
        proof {
            assert(old(self).rx@.skip(0) =~= old(self).rx@);
        }
        while i < buf.len()
            invariant
                i <= buf.len(),
                buf@.len() == old(buf)@.len(),
                t <= TIMEOUT + 1,
                self.regs == old(self).regs,
                self.tx@ == old(self).tx@,
                self.base == old(self).base,
                i <= old(self).rx@.len(),
                self.rx@ == old(self).rx@.skip(i as int),
                self.transferred == bump(old(self).transferred, i as nat),
                forall|j: int| 0 <= j < i ==> buf@[j] == old(self).rx@[j],
                forall|j: int| i <= j < buf@.len() ==> buf@[j] == old(buf)@[j],
                !old(self).pe() ==> i == 0,
            decreases buf@.len() - i, TIMEOUT + 1 - t,
        {
            if self.rxne_read() {
                let b = self.pop_rx();
                buf[i] = b;
                i = i + 1;
                t = 0;
            } else {
                if t > TIMEOUT {
                    proof {
                        self.lemma_read_return(*old(self), old(buf)@, buf@, i as int);
                    }
                    return Err(BusError::Timeout);
                }
                t = t + 1;
            }
        }
        proof {
            self.lemma_read_return(*old(self), old(buf)@, buf@, i as int);
        }
        Ok(i)
    }

    /// The sequence facts behind `read`'s postcondition, shared by its
    /// two ways out of the polling loop.
    proof fn lemma_read_return(&self, pre: I2c, buf0: Seq<u8>, buf: Seq<u8>, i: int)
        requires
            0 <= i <= buf.len(),
            i <= pre.rx@.len(),
            buf.len() == buf0.len(),
            self.rx@ == pre.rx@.skip(i),
            forall|j: int| 0 <= j < i ==> buf[j] == pre.rx@[j],
            forall|j: int| i <= j < buf.len() ==> buf[j] == buf0[j],
        ensures
            i == buf.len() ==> buf == pre.rx@.take(i),
            i == pre.rx@.len() ==> buf == pre.rx@ + buf0.skip(i),
            i == 0 ==> buf == buf0 && self.rx@ == pre.rx@,
    {
        if i == 0 {
            assert(self.rx@ =~= pre.rx@);
        }
        if i == buf.len() {
            assert(buf =~= pre.rx@.take(i));
        }
        if i == pre.rx@.len() {
            assert(buf =~= pre.rx@ + buf0.skip(i));
        }
        if i == 0 {
            assert(buf =~= buf0);
        }
    }

    /// Read one byte of the current transaction, bounded by the fault
    /// timer.
    pub fn read_u8(&mut self) -> (r: Result<u8, BusError>)
        ensures
            old(self).rxne() ==> r == Result::<u8, BusError>::Ok(old(self).rx@[0]) && final(self).rx@ == old(self).rx@.skip(1) && final(self).transferred == bump(
                old(self).transferred,
                1,
            ),
            !old(self).rxne() ==> r == Result::<u8, BusError>::Err(BusError::Timeout) && final(self).rx@ == old(self).rx@ && final(self).transferred == old(self).transferred,
            final(self).regs == old(self).regs,
            final(self).tx@ == old(self).tx@,
            final(self).base == old(self).base,
    {
        let mut t: u32 = 0;
        while t <= TIMEOUT
            invariant
                self.regs == old(self).regs,
                self.rx@ == old(self).rx@,
                self.tx@ == old(self).tx@,
                self.transferred == old(self).transferred,
                self.base == old(self).base,
                t > 0 ==> !old(self).rxne(),
            decreases TIMEOUT + 1 - t,
        {
            if self.rxne_read() {
                let b = self.pop_rx();
                return Ok(b);
            }
            t = t + 1;
        }
        Err(BusError::Timeout)
    }

    /// Write every byte of `buf` into the current transaction, one per
    /// transmit-flag poll, each poll bounded by the fault timer.  With
    /// the peripheral disabled the transmit flag never rises and nothing
    /// is sent.
    pub fn write(&mut self, buf: &Vec<u8>) -> (r: Result<usize, BusError>)
        ensures
            buf@.len() == 0 ==> r == Result::<usize, BusError>::Ok(0) && final(self).regs == old(self).regs && final(self).rx@ == old(self).rx@ && final(self).tx@ == old(self).tx@ && final(self).transferred == old(self).transferred,
            old(self).pe() ==> r == Result::<usize, BusError>::Ok(buf@.len() as usize)
                && I2c::write_effect(*old(self), *final(self), buf@),
            !old(self).pe() && buf@.len() > 0 ==> r == Result::<usize, BusError>::Err(
                BusError::Timeout,
            ) && final(self).regs == old(self).regs && final(self).rx@ == old(self).rx@ && final(self).tx@ == old(self).tx@ && final(self).transferred == old(self).transferred,
            final(self).base == old(self).base,
    {
        let mut i: usize = 0;
        let mut t: u32 = 0;
        proof {
            assert(self.tx@ =~= self.tx@ + buf@.take(0));
        }
        while i < buf.len()
            invariant
                i <= buf@.len(),
                t <= TIMEOUT + 1,
                self.regs == old(self).regs,
                self.rx@ == old(self).rx@,
                self.base == old(self).base,
                self.tx@ == old(self).tx@ + buf@.take(i as int),
                self.transferred == bump(old(self).transferred, i as nat),
                !old(self).pe() ==> i == 0,
            decreases buf@.len() - i, TIMEOUT + 1 - t,
        {
            if pointer::get_ptr_vol_bit_u32(&self.regs.cr1, PE_BIT) {
                let b = buf[i];
                self.push_tx(b);
                proof {
                    assert(self.tx@ =~= old(self).tx@ + buf@.take(i + 1));
                }
                i = i + 1;
            } else {
                if t > TIMEOUT {
                    proof {
                        assert(self.tx@ =~= old(self).tx@ + buf@.take(0));
                    }
                    return Err(BusError::Timeout);
                }
                t = t + 1;
            }
        }
        proof {
            assert(buf@.take(i as int) =~= buf@);
            if buf@.len() == 0 {
                assert(self.tx@ =~= old(self).tx@);
            }
        }
        Ok(i)
    }

    /// Write one byte into the current transaction, bounded by the fault
    /// timer.
    pub fn write_u8(&mut self, byte: u8) -> (r: Result<(), BusError>)
        ensures
            old(self).pe() ==> r is Ok && final(self).tx@ == old(self).tx@.push(byte) && final(self).transferred == bump(old(self).transferred, 1),
            !old(self).pe() ==> r == Result::<(), BusError>::Err(BusError::Timeout) && final(self).tx@ == old(self).tx@ && final(self).transferred == old(self).transferred,
            final(self).regs == old(self).regs,
            final(self).rx@ == old(self).rx@,
            final(self).base == old(self).base,
    {
        let mut t: u32 = 0;
        while t <= TIMEOUT
            invariant
                self.regs == old(self).regs,
                self.rx@ == old(self).rx@,
                self.tx@ == old(self).tx@,
                self.transferred == old(self).transferred,
                self.base == old(self).base,
                t > 0 ==> !old(self).pe(),
            decreases TIMEOUT + 1 - t,
        {
            if pointer::get_ptr_vol_bit_u32(&self.regs.cr1, PE_BIT) {
                self.push_tx(byte);
                return Ok(());
            }
            t = t + 1;
        }
        Err(BusError::Timeout)
    }

    /// A whole register-style write transaction: program the address and
    /// count, start, send the buffer, wait for completion, stop.  The
    /// first step that times out aborts the chain and its error is
    /// returned.
    pub fn std_write(&mut self, slave_addr: u32, addr_10bit: bool, req_10bit: bool, buf: &Vec<u8>) -> (r: Result<
        usize,
        BusError,
    >)
        requires
            addr_10bit ==> slave_addr <= ADDR_10_MASK,
            !addr_10bit ==> slave_addr <= ADDR_7_MASK,
            buf@.len() <= NBYTES_MAX,
        ensures
            r is Ok <==> old(self).pe(),
            old(self).pe() ==> r == Result::<usize, BusError>::Ok(buf@.len() as usize) && final(self).tx@ == old(self).tx@ + buf@ && final(self).rx@ == old(self).rx@,
            !old(self).pe() ==> r == Result::<usize, BusError>::Err(BusError::Timeout) && final(self).tx@ == old(self).tx@ && final(self).rx@ == old(self).rx@,
            final(self).pe() == old(self).pe(),
            final(self).base == old(self).base,
    {
        self.setup(slave_addr, addr_10bit, req_10bit, buf.len() as u32, WRITE);
        match self.start() {
            Ok(u) => u,
            Err(e) => {
                return Err(e);
            },
        };
        let n = match self.write(buf) {
            Ok(n) => n,
            Err(e) => {
                return Err(e);
            },
        };
        match self.tc() {
            Ok(u) => u,
            Err(e) => {
                return Err(e);
            },
        };
        match self.stop() {
            Ok(u) => u,
            Err(e) => {
                return Err(e);
            },
        };
        Ok(n)
    }

    /// A whole register-style request/response transaction: send the
    /// request buffer, then read the response into `buf_read`, each half
    /// framed by its own start and completion wait, and a single stop at
    /// the end.  The first step that times out aborts the chain.
    pub fn std_read(&mut self, slave_addr: u32, addr_10bit: bool, req_10bit: bool, buf_write: &Vec<u8>, buf_read: &mut Vec<
        u8,
    >) -> (r: Result<usize, BusError>)
        requires
            addr_10bit ==> slave_addr <= ADDR_10_MASK,
            !addr_10bit ==> slave_addr <= ADDR_7_MASK,
            buf_write@.len() <= NBYTES_MAX,
            old(buf_read)@.len() <= NBYTES_MAX,
        ensures
            r is Ok <==> old(self).pe() && old(self).rx@.len() >= old(buf_read)@.len(),
            old(self).pe() && old(self).rx@.len() >= old(buf_read)@.len() ==> r
                == Result::<usize, BusError>::Ok(old(buf_read)@.len() as usize) && final(self).tx@
                == old(self).tx@ + buf_write@ && final(buf_read)@ == old(self).rx@.take(
                old(buf_read)@.len() as int,
            ) && final(self).rx@ == old(self).rx@.skip(old(buf_read)@.len() as int),
            old(self).pe() && old(self).rx@.len() < old(buf_read)@.len() ==> r
                == Result::<usize, BusError>::Err(BusError::Timeout) && final(self).tx@ == old(self).tx@ + buf_write@ && final(buf_read)@ == old(self).rx@ + old(buf_read)@.skip(
                old(self).rx@.len() as int,
            ) && final(self).rx@.len() == 0,
            !old(self).pe() ==> r == Result::<usize, BusError>::Err(BusError::Timeout) && final(self).tx@ == old(self).tx@ && final(buf_read)@ == old(buf_read)@ && final(self).rx@ == old(self).rx@,
            final(buf_read)@.len() == old(buf_read)@.len(),
            final(self).pe() == old(self).pe(),
            final(self).base == old(self).base,
    {
        self.setup(slave_addr, addr_10bit, req_10bit, buf_write.len() as u32, WRITE);
        match self.start() {
            Ok(u) => u,
            Err(e) => {
                return Err(e);
            },
        };
        match self.write(buf_write) {
            Ok(n) => n,
            Err(e) => {
                return Err(e);
            },
        };
        match self.tc() {
            Ok(u) => u,
            Err(e) => {
                return Err(e);
            },
        };
        self.setup(slave_addr, addr_10bit, req_10bit, buf_read.len() as u32, READ);
        match self.start() {
            Ok(u) => u,
            Err(e) => {
                return Err(e);
            },
        };
        let n = match self.read(buf_read) {
            Ok(n) => n,
            Err(e) => {
                return Err(e);
            },
        };
        match self.tc() {
            Ok(u) => u,
            Err(e) => {
                return Err(e);
            },
        };
        match self.stop() {
            Ok(u) => u,
            Err(e) => {
                return Err(e);
            },
        };
        Ok(n)
    }

    /// A one-byte request/response transaction: send `byte_write`, read
    /// one byte back.
    pub fn std_read_u8(&mut self, slave_addr: u32, addr_10bit: bool, req_10bit: bool, byte_write: u8) -> (r: Result<
        u8,
        BusError,
    >)
        requires
            addr_10bit ==> slave_addr <= ADDR_10_MASK,
            !addr_10bit ==> slave_addr <= ADDR_7_MASK,
        ensures
            r is Ok <==> old(self).pe() && old(self).rx@.len() >= 1,
            old(self).pe() && old(self).rx@.len() >= 1 ==> r == Result::<u8, BusError>::Ok(
                old(self).rx@[0],
            ) && final(self).tx@ == old(self).tx@.push(byte_write) && final(self).rx@ == old(self).rx@.skip(1),
            !(old(self).pe() && old(self).rx@.len() >= 1) ==> r == Result::<u8, BusError>::Err(
                BusError::Timeout,
            ) && final(self).rx@ == old(self).rx@,
            old(self).pe() ==> final(self).tx@ == old(self).tx@.push(byte_write),
            !old(self).pe() ==> final(self).tx@ == old(self).tx@,
            final(self).pe() == old(self).pe(),
            final(self).base == old(self).base,
    {
        self.setup(slave_addr, addr_10bit, req_10bit, LEN_1_BYTE, WRITE);
        match self.start() {
            Ok(u) => u,
            Err(e) => {
                return Err(e);
            },
        };
        match self.write_u8(byte_write) {
            Ok(u) => u,
            Err(e) => {
                return Err(e);
            },
        };
        match self.tc() {
            Ok(u) => u,
            Err(e) => {
                return Err(e);
            },
        };
        self.setup(slave_addr, addr_10bit, req_10bit, LEN_1_BYTE, READ);
        match self.start() {
            Ok(u) => u,
            Err(e) => {
                return Err(e);
            },
        };
        let byte = match self.read_u8() {
            Ok(b) => b,
            Err(e) => {
                return Err(e);
            },
        };
        match self.tc() {
            Ok(u) => u,
            Err(e) => {
                return Err(e);
            },
        };
        match self.stop() {
            Ok(u) => u,
            Err(e) => {
                return Err(e);
            },
        };
        Ok(byte)
    }

    /// Program the five timing fields of the timing register.
    fn set_timing_register(&mut self, scll: u32, sclh: u32, sdadel: u32, scldel: u32, presc: u32)
        requires
            scll <= SCL_MASK,
            sclh <= SCL_MASK,
            sdadel <= DEL_MASK,
            scldel <= DEL_MASK,
            presc <= DEL_MASK,
        ensures
            timing_view(final(self).regs.timingr) == (scll, sclh, sdadel, scldel, presc),
            final(self).regs == (I2cRegs { timingr: final(self).regs.timingr, ..old(self).regs }),
            final(self).rx@ == old(self).rx@,
            final(self).tx@ == old(self).tx@,
            final(self).transferred == old(self).transferred,
            final(self).base == old(self).base,
    {
        proof {
            i2c_bit_facts();
        }
        pointer::set_ptr_vol_u32(&mut self.regs.timingr, SCLL_OFFSET, SCL_MASK, scll);
        pointer::set_ptr_vol_u32(&mut self.regs.timingr, SCLH_OFFSET, SCL_MASK, sclh);
        pointer::set_ptr_vol_u32(&mut self.regs.timingr, SDADEL_OFFSET, DEL_MASK, sdadel);
        pointer::set_ptr_vol_u32(&mut self.regs.timingr, SCLDEL_OFFSET, DEL_MASK, scldel);
        pointer::set_ptr_vol_u32(&mut self.regs.timingr, PRESC_OFFSET, DEL_MASK, presc);
        proof {
            let t0 = old(self).regs.timingr;
            let a = scll;
            let b = sclh;
            let c = sdadel;
            let d = scldel;
            let e = presc;
            let f = self.regs.timingr;
            assert((f >> 0) & 0xFF == a && (f >> 8) & 0xFF == b && (f >> 16) & 0xF == c && (f
                >> 20) & 0xF == d && (f >> 28) & 0xF == e)
                by (bit_vector)
                requires
                    a <= 0xFF && b <= 0xFF && c <= 0xF && d <= 0xF && e <= 0xF && f == (((((((((((t0
                        & !(0xFFu32 << 0)) | (a << 0)) & !(0xFFu32 << 8)) | (b << 8)) & !(0xFu32
                        << 16)) | (c << 16)) & !(0xFu32 << 20)) | (d << 20)) & !(0xFu32 << 28)) | (e
                        << 28))),
            ;
        }
    }

    /// Whether the transfer-complete flag reads set.
    fn tc_read(&self) -> (r: bool)
        ensures
            r == self.tc_set(),
    {
        let pe = pointer::get_ptr_vol_bit_u32(&self.regs.cr1, PE_BIT);
        let nb = pointer::get_ptr_vol_u32(&self.regs.cr2, NBYTES_OFFSET, NBYTES_MASK);
        pe && self.transferred >= nb
    }

    /// Whether the receive flag reads set.
    fn rxne_read(&self) -> (r: bool)
        ensures
            r == self.rxne(),
    {
        pointer::get_ptr_vol_bit_u32(&self.regs.cr1, PE_BIT) && self.rx.len() > 0
    }

    /// Take the byte at the head of the receive queue out of the data
    /// register; the hardware advances the transfer counter.
    fn pop_rx(&mut self) -> (r: u8)
        requires
            old(self).rx@.len() > 0,
        ensures
            r == old(self).rx@[0],
            final(self).rx@ == old(self).rx@.skip(1),
            final(self).transferred == bump(old(self).transferred, 1),
            final(self).regs == old(self).regs,
            final(self).tx@ == old(self).tx@,
            final(self).base == old(self).base,
    {
        let b = self.rx.remove(0);
        if self.transferred < 256 {
            self.transferred = self.transferred + 1;
        }
        proof {
            assert(self.rx@ =~= old(self).rx@.skip(1));
        }
        b
    }

    /// Put a byte into the transmit data register; the hardware shifts it
    /// out and advances the transfer counter.
    fn push_tx(&mut self, byte: u8)
        ensures
            final(self).tx@ == old(self).tx@.push(byte),
            final(self).transferred == bump(old(self).transferred, 1),
            final(self).regs == old(self).regs,
            final(self).rx@ == old(self).rx@,
            final(self).base == old(self).base,
    {
        self.tx.push(byte);
        if self.transferred < 256 {
            self.transferred = self.transferred + 1;
        }
    }
}

/// Round trip: the bytes a whole-buffer write placed on the wire, fed
/// back into the receive queue by a loopback-wired peer, are exactly what
/// a whole-buffer read of the same length then returns.
///
/// `pre` is the driver state before the write, with the peripheral
/// enabled and the receive queue empty; `mid` the state the write's
/// contract leaves; `looped` is `mid` with the newly sent bytes arrived
/// back; `post` and `out` are what the read's contract leaves of the
/// state and the buffer.
pub proof fn lemma_write_read_round_trip(
    pre: I2c,
    mid: I2c,
    looped: I2c,
    post: I2c,
    data: Seq<u8>,
    out: Seq<u8>,
)
    requires
        pre.pe(),
        pre.rx@.len() == 0,
        I2c::write_effect(pre, mid, data),
        looped.regs == mid.regs,
        looped.base == mid.base,
        looped.tx@ == mid.tx@,
        looped.transferred == mid.transferred,
        looped.rx@ == mid.rx@ + mid.tx@.skip(pre.tx@.len() as int),
        I2c::read_effect(looped, post, data.len(), out),
    ensures
        out == data,
{
    assert(mid.tx@.skip(pre.tx@.len() as int) =~= data);
    assert(looped.rx@ =~= data);
    assert(out =~= data);
}

} // verus!
