//! Synchronous shift-register bus (serial-peripheral-interface class):
//! full-duplex byte transfer gated by the transmit-queue threshold level,
//! explicit enable/disable sequencing, and checksum-enabled master-mode
//! configuration.
//!
//! The handle owns an image of the register block and three byte queues:
//! `tx_fifo` holds bytes written into the data register while the bus is
//! disabled and not yet shifted out, `tx` the bytes shifted out on the
//! wire, `rx` the bytes shifted in and not yet read.  While the enable
//! bit is set a written byte passes straight to the wire and the transmit
//! queue drains, as the reference manual guarantees of an enabled master;
//! disabled, bytes pile up in the transmit queue until its threshold
//! level reads full.  The status image holds the fault and busy bits; the
//! queue levels derive from the queues themselves.

use vstd::prelude::*;

use crate::common;
use crate::common::BusError;
use crate::common::FaultKind;
use crate::pointer;

verus! {

/// Image of the shift-register-bus register block.  The data register is
/// modelled by the handle's byte queues.
#[derive(Clone, Copy, PartialEq, Eq, Structural, Debug)]
pub struct SpiRegs {
    pub cr1: u32,    // Control Register 1
    pub cr2: u32,    // Control Register 2
    pub sr: u32,     // Status Register (fault and busy bits)
    pub crcpr: u32,  // CRC Polynomial Register
    pub rxcrcr: u32, // Receive CRC Register
    pub txcrcr: u32, // Transmit CRC Register
}

/// The whole register block with every word clear.
pub open spec fn spi_regs_zeroed() -> SpiRegs {
    SpiRegs { cr1: 0, cr2: 0, sr: 0, crcpr: 0, rxcrcr: 0, txcrcr: 0 }
}

/// Handle over one shift-register-bus peripheral.
pub struct Spi {
    /// Base address the handle was resolved from.
    pub base: u32,
    /// Image of the register block.
    pub regs: SpiRegs,
    /// Bytes written while disabled, waiting in the transmit queue.
    pub tx_fifo: Vec<u8>,
    /// Bytes shifted in from the wire, not yet read.
    pub rx: Vec<u8>,
    /// Bytes shifted out on the wire.
    pub tx: Vec<u8>,
}

/// Clock idle level and sampling edge, the four combinations.
#[derive(Clone, Copy, PartialEq, Eq, Structural, Debug)]
pub enum ClockSetup {
    RisingEdgeClockLow,
    FallingEdgeClockLow,
    RisingEdgeClockHigh,
    FallingEdgeClockHigh,
}

/// Which end of the byte goes out first.
#[derive(Clone, Copy, PartialEq, Eq, Structural, Debug)]
pub enum BitFirst {
    Lsb,
    Msb,
}

/// Clock divisor: the bus clock is the input clock over this power of two.
#[derive(Clone, Copy, PartialEq, Eq, Structural, Debug)]
pub enum BaudRateDiv {
    Clk2,
    Clk4,
    Clk8,
    Clk16,
    Clk32,
    Clk64,
    Clk128,
    Clk256,
}

/// Frame width of one transfer.
#[derive(Clone, Copy, PartialEq, Eq, Structural, Debug)]
pub enum DataSize {
    Bits4,
    Bits5,
    Bits6,
    Bits7,
    Bits8,
    Bits9,
    Bits10,
    Bits11,
    Bits12,
    Bits13,
    Bits14,
    Bits15,
    Bits16,
}

/// Three-bit register code of a clock divisor.
pub open spec fn spec_baud_div_code(b: BaudRateDiv) -> u32 {
    match b {
        BaudRateDiv::Clk2 => 0,
        BaudRateDiv::Clk4 => 1,
        BaudRateDiv::Clk8 => 2,
        BaudRateDiv::Clk16 => 3,
        BaudRateDiv::Clk32 => 4,
        BaudRateDiv::Clk64 => 5,
        BaudRateDiv::Clk128 => 6,
        BaudRateDiv::Clk256 => 7,
    }
}

/// Three-bit register code of a clock divisor.
#[verifier::when_used_as_spec(spec_baud_div_code)]
pub fn baud_div_code(b: BaudRateDiv) -> (code: u32)
    ensures
        code == spec_baud_div_code(b),
        code <= 7,
{
    match b {
        BaudRateDiv::Clk2 => 0,
        BaudRateDiv::Clk4 => 1,
        BaudRateDiv::Clk8 => 2,
        BaudRateDiv::Clk16 => 3,
        BaudRateDiv::Clk32 => 4,
        BaudRateDiv::Clk64 => 5,
        BaudRateDiv::Clk128 => 6,
        BaudRateDiv::Clk256 => 7,
    }
}

/// Four-bit register code of a frame width: width less one, so an
/// eight-bit frame is coded 0x7.
pub open spec fn spec_data_size_code(d: DataSize) -> u32 {
    match d {
        DataSize::Bits4 => 0x3,
        DataSize::Bits5 => 0x4,
        DataSize::Bits6 => 0x5,
        DataSize::Bits7 => 0x6,
        DataSize::Bits8 => 0x7,
        DataSize::Bits9 => 0x8,
        DataSize::Bits10 => 0x9,
        DataSize::Bits11 => 0xA,
        DataSize::Bits12 => 0xB,
        DataSize::Bits13 => 0xC,
        DataSize::Bits14 => 0xD,
        DataSize::Bits15 => 0xE,
        DataSize::Bits16 => 0xF,
    }
}

/// Four-bit register code of a frame width.
#[verifier::when_used_as_spec(spec_data_size_code)]
pub fn data_size_code(d: DataSize) -> (code: u32)
    ensures
        code == spec_data_size_code(d),
        code <= 15,
{
    match d {
        DataSize::Bits4 => 0x3,
        DataSize::Bits5 => 0x4,
        DataSize::Bits6 => 0x5,
        DataSize::Bits7 => 0x6,
        DataSize::Bits8 => 0x7,
        DataSize::Bits9 => 0x8,
        DataSize::Bits10 => 0x9,
        DataSize::Bits11 => 0xA,
        DataSize::Bits12 => 0xB,
        DataSize::Bits13 => 0xC,
        DataSize::Bits14 => 0xD,
        DataSize::Bits15 => 0xE,
        DataSize::Bits16 => 0xF,
    }
}

/* Register Bits: control register 1 */
pub const CPHA_BIT: u32 = common::BIT_0;
pub const CPOL_BIT: u32 = common::BIT_1;
pub const MSTR_BIT: u32 = common::BIT_2;
pub const SPE_BIT: u32 = common::BIT_6;
pub const LSBFIRST_BIT: u32 = common::BIT_7;
pub const SSI_BIT: u32 = common::BIT_8;
pub const SSM_BIT: u32 = common::BIT_9;
pub const CRCL_BIT: u32 = common::BIT_11;
pub const CRCNEXT_BIT: u32 = common::BIT_12;
pub const CRCEN_BIT: u32 = common::BIT_13;

/* Register Bits: status register */
pub const CRCERR_BIT: u32 = common::BIT_4;
pub const MODF_BIT: u32 = common::BIT_5;
pub const OVR_BIT: u32 = common::BIT_6;
pub const BSY_BIT: u32 = common::BIT_7;
pub const FRE_BIT: u32 = common::BIT_8;

/* Register Masks */
pub const BR_MASK: u32 = common::MASK_3_BIT;
pub const DS_MASK: u32 = common::MASK_4_BIT;

/* Register Offsets */
pub const BR_OFFSET: u32 = 3;
pub const DS_OFFSET: u32 = 8;

/// The transmit queue reads full at this threshold level.
pub const FIFO_FULL: u32 = 3;

/// Fault-timer bound of every polling wait.
pub const TIMEOUT: u32 = common::WAIT100US;

/// The fault a status word reports, checksum error first, then mode
/// fault, then overrun.
pub open spec fn fault_of(sr: u32) -> Option<FaultKind> {
    if pointer::bit_set(sr, CRCERR_BIT) {
        Some(FaultKind::CrcError)
    } else if pointer::bit_set(sr, MODF_BIT) {
        Some(FaultKind::ModeFault)
    } else if pointer::bit_set(sr, OVR_BIT) {
        Some(FaultKind::Overrun)
    } else {
        None
    }
}

/// Literal mask facts this module's proofs lean on.
proof fn spi_bit_facts()
    by (bit_vector)
    ensures
        ((0x7u32 << 3) >> 3) == 0x7,
        ((0xFu32 << 8) >> 8) == 0xF,
        forall|v: u32| v <= 7 ==> #[trigger] (v & 0x7) == v,
        forall|v: u32| v <= 15 ==> #[trigger] (v & 0xF) == v,
        (0x1000u32 & 0x40u32) == 0,
{
}

impl Spi {
    /// Whether the enable bit is set.
    pub open spec fn spe(self) -> bool {
        pointer::bit_set(self.regs.cr1, SPE_BIT)
    }

    /// The transmit-queue threshold level: how many bytes wait, read as
    /// full at three.
    pub open spec fn ftlvl(self) -> u32 {
        if self.tx_fifo@.len() >= FIFO_FULL {
            FIFO_FULL
        } else {
            self.tx_fifo@.len() as u32
        }
    }

    /// Whether the busy flag is set.
    pub open spec fn busy(self) -> bool {
        pointer::bit_set(self.regs.sr, BSY_BIT)
    }

    /// Well-formedness: an enabled bus has shifted its transmit queue
    /// out, and the queue never holds more than its full level.
    pub open spec fn wf(self) -> bool {
        &&& self.spe() ==> self.tx_fifo@.len() == 0
        &&& self.tx_fifo@.len() <= FIFO_FULL
    }

    /// What `disable` leaves behind for each way it can go: a transmit
    /// queue still draining or a busy frame time out with nothing
    /// changed; otherwise the enable bit is cleared and nothing else
    /// moves.
    pub open spec fn disable_post(pre: Spi, post: Spi, r: Result<(), BusError>) -> bool {
        &&& pre.tx_fifo@.len() > 0 ==> r == Result::<(), BusError>::Err(BusError::Timeout) && post
            == pre
        &&& pre.tx_fifo@.len() == 0 && pre.busy() ==> r == Result::<(), BusError>::Err(
            BusError::Timeout,
        ) && post == pre
        &&& pre.tx_fifo@.len() == 0 && !pre.busy() ==> r is Ok && post.regs.cr1 == (pre.regs.cr1
            & !SPE_BIT) && !post.spe() && post.regs == (SpiRegs { cr1: post.regs.cr1, ..pre.regs })
            && post.tx_fifo@ == pre.tx_fifo@ && post.rx@ == pre.rx@ && post.tx@ == pre.tx@
            && post.base == pre.base
    }

    /// Resolve a handle from the peripheral's base address; the register
    /// image starts out all clear, the queues empty.
    pub fn init(base: u32) -> (r: Spi)
        ensures
            r.base == base,
            r.regs == spi_regs_zeroed(),
            r.tx_fifo@ == Seq::<u8>::empty(),
            r.rx@ == Seq::<u8>::empty(),
            r.tx@ == Seq::<u8>::empty(),
            r.wf(),
            !r.spe(),
    {
        let r = Spi {
            base,
            regs: SpiRegs { cr1: 0, cr2: 0, sr: 0, crcpr: 0, rxcrcr: 0, txcrcr: 0 },
            tx_fifo: Vec::new(),
            rx: Vec::new(),
            tx: Vec::new(),
        };
        proof {
            assert(r.tx_fifo@ =~= Seq::<u8>::empty());
            assert(r.rx@ =~= Seq::<u8>::empty());
            assert(r.tx@ =~= Seq::<u8>::empty());
            assert(!pointer::bit_set(0u32, SPE_BIT)) by (bit_vector);
        }
        r
    }

    /// Program the bus for master operation: clock divisor, clock idle
    /// level and sampling edge, bit order and frame width, with the
    /// checksum fixed on at eight bits and software select management -
    /// the fixed policy of this driver.  The enable bit is left as it
    /// was.
    pub fn open(&mut self, br: BaudRateDiv, cs: ClockSetup, bit: BitFirst, ds: DataSize)
        ensures
            pointer::field(final(self).regs.cr1, BR_OFFSET, BR_MASK) == spec_baud_div_code(br),
            pointer::bit_set(final(self).regs.cr1, CPHA_BIT) == (cs is FallingEdgeClockLow || cs
                is FallingEdgeClockHigh),
            pointer::bit_set(final(self).regs.cr1, CPOL_BIT) == (cs is RisingEdgeClockHigh || cs
                is FallingEdgeClockHigh),
            pointer::bit_set(final(self).regs.cr1, LSBFIRST_BIT) == (bit is Lsb),
            pointer::bit_set(final(self).regs.cr1, CRCL_BIT),
            pointer::bit_set(final(self).regs.cr1, CRCEN_BIT),
            pointer::bit_set(final(self).regs.cr1, SSI_BIT),
            pointer::bit_set(final(self).regs.cr1, SSM_BIT),
            pointer::bit_set(final(self).regs.cr1, MSTR_BIT),
            pointer::field(final(self).regs.cr2, DS_OFFSET, DS_MASK) == spec_data_size_code(ds),
            final(self).spe() == old(self).spe(),
            final(self).regs == (SpiRegs {
                cr1: final(self).regs.cr1,
                cr2: final(self).regs.cr2,
                ..old(self).regs
            }),
            final(self).tx_fifo@ == old(self).tx_fifo@,
            final(self).rx@ == old(self).rx@,
            final(self).tx@ == old(self).tx@,
            final(self).base == old(self).base,
            old(self).wf() ==> final(self).wf(),
    {
        proof {
            spi_bit_facts();
        }
        pointer::set_ptr_vol_u32(&mut self.regs.cr1, BR_OFFSET, BR_MASK, baud_div_code(br));

        let phase_val: u32 = match cs {
            ClockSetup::FallingEdgeClockLow => CPHA_BIT,
            ClockSetup::FallingEdgeClockHigh => CPHA_BIT,
            _ => 0,
        };
        let polarity_val: u32 = match cs {
            ClockSetup::RisingEdgeClockHigh => CPOL_BIT,
            ClockSetup::FallingEdgeClockHigh => CPOL_BIT,
            _ => 0,
        };
        pointer::clr_ptr_vol_bit_u32(&mut self.regs.cr1, CPHA_BIT);
        pointer::set_ptr_vol_bit_u32(&mut self.regs.cr1, phase_val);
        pointer::clr_ptr_vol_bit_u32(&mut self.regs.cr1, CPOL_BIT);
        pointer::set_ptr_vol_bit_u32(&mut self.regs.cr1, polarity_val);

        let lsb_val: u32 = match bit {
            BitFirst::Lsb => LSBFIRST_BIT,
            BitFirst::Msb => 0,
        };
        pointer::clr_ptr_vol_bit_u32(&mut self.regs.cr1, LSBFIRST_BIT);
        pointer::set_ptr_vol_bit_u32(&mut self.regs.cr1, lsb_val);

        pointer::set_ptr_vol_bit_u32(&mut self.regs.cr1, CRCL_BIT);
        pointer::set_ptr_vol_bit_u32(&mut self.regs.cr1, CRCEN_BIT);
        pointer::set_ptr_vol_bit_u32(&mut self.regs.cr1, SSI_BIT);
        pointer::set_ptr_vol_bit_u32(&mut self.regs.cr1, SSM_BIT);
        pointer::set_ptr_vol_bit_u32(&mut self.regs.cr1, MSTR_BIT);

        pointer::set_ptr_vol_u32(&mut self.regs.cr2, DS_OFFSET, DS_MASK, data_size_code(ds));

        proof {
            let c0 = old(self).regs.cr1;
            let brv = spec_baud_div_code(br);
            let phav = phase_val;
            let polv = polarity_val;
            let lsbv = lsb_val;
            let f = self.regs.cr1;
            assert(((f >> 3) & 0x7 == brv) && ((f & 0x1 != 0) == (phav == 0x1)) && ((f & 0x2 != 0)
                == (polv == 0x2)) && ((f & 0x80 != 0) == (lsbv == 0x80)) && (f & 0x800 != 0) && (f
                & 0x2000 != 0) && (f & 0x100 != 0) && (f & 0x200 != 0) && (f & 0x4 != 0) && ((f
                & 0x40 != 0) == (c0 & 0x40 != 0)))
                by (bit_vector)
                requires
                    brv <= 7 && (phav == 0 || phav == 0x1) && (polv == 0 || polv == 0x2) && (lsbv
                        == 0 || lsbv == 0x80) && f == (((((((((((((c0 & !(0x7u32 << 3)) | (brv
                        << 3)) & !0x1) | phav) & !0x2) | polv) & !0x80) | lsbv) | 0x800) | 0x2000)
                        | 0x100) | 0x200) | 0x4),
            ;
            pointer::lemma_field_written_reads_back(
                old(self).regs.cr2,
                DS_OFFSET,
                DS_MASK,
                spec_data_size_code(ds),
            );
        }
    }

    /// Set the enable bit; the master starts to shift at once, so every
    /// byte waiting in the transmit queue goes out on the wire.
    pub fn enable(&mut self)
        ensures
            final(self).regs.cr1 == (old(self).regs.cr1 | SPE_BIT),
            final(self).spe(),
            final(self).tx@ == old(self).tx@ + old(self).tx_fifo@,
            final(self).tx_fifo@.len() == 0,
            final(self).regs == (SpiRegs { cr1: final(self).regs.cr1, ..old(self).regs }),
            final(self).rx@ == old(self).rx@,
            final(self).base == old(self).base,
            final(self).wf(),
    {
        let ghost w = self.regs.cr1;
        pointer::set_ptr_vol_bit_u32(&mut self.regs.cr1, SPE_BIT);
        proof {
            pointer::lemma_or_sets(w, SPE_BIT);
        }
        let fifo = &mut self.tx_fifo;
        self.tx.append(fifo);
    }

    /// Drain the receive queue into `buf`: up to `len` bytes when `len`
    /// is non-zero, up to the buffer's length otherwise, one byte per
    /// receive-flag poll under the fault timer.  Returns how many bytes
    /// actually moved, which callers must check: never more than asked
    /// and never more than were queued.
    pub fn read(&mut self, buf: &mut Vec<u8>, len: usize) -> (cnt: usize)
        ensures
            cnt <= old(buf)@.len(),
            len > 0 ==> cnt <= len,
            cnt == vstd::math::min(
                if len > 0 && len < old(buf)@.len() {
                    len as int
                } else {
                    old(buf)@.len() as int
                },
                old(self).rx@.len() as int,
            ),
            final(buf)@.len() == old(buf)@.len(),
            final(buf)@ == old(self).rx@.take(cnt as int) + old(buf)@.skip(cnt as int),
            final(self).rx@ == old(self).rx@.skip(cnt as int),
            final(self).regs == old(self).regs,
            final(self).tx_fifo@ == old(self).tx_fifo@,
            final(self).tx@ == old(self).tx@,
            final(self).base == old(self).base,
            old(self).wf() ==> final(self).wf(),
    {
        let limit: usize = if len > 0 && len < buf.len() {
            len
        } else {
            buf.len()
        };
        let mut i: usize = 0;
        let mut t: u32 = 0;
        proof {
            assert(old(self).rx@.skip(0) =~= old(self).rx@);
        }
        while i < limit
            invariant
                i <= limit,
                limit <= buf@.len(),
                limit == (if len > 0 && len < old(buf)@.len() {
                    len as int
                } else {
                    old(buf)@.len() as int
                }),
                buf@.len() == old(buf)@.len(),
                i <= old(self).rx@.len(),
                self.rx@ == old(self).rx@.skip(i as int),
                self.regs == old(self).regs,
                self.tx_fifo@ == old(self).tx_fifo@,
                self.tx@ == old(self).tx@,
                self.base == old(self).base,
                forall|j: int| 0 <= j < i ==> buf@[j] == old(self).rx@[j],
                forall|j: int| i <= j < buf@.len() ==> buf@[j] == old(buf)@[j],
            decreases limit - i, TIMEOUT + 1 - t,
        {
            if self.rx.len() > 0 {
                let b = self.rx.remove(0);
                proof {
                    assert(self.rx@ =~= old(self).rx@.skip(i + 1));
                }
                buf[i] = b;
                i = i + 1;
                t = 0;
            } else {
                if t > TIMEOUT {
                    proof {
                        self.lemma_read_stop(*old(self), old(buf)@, buf@, i as int);
                    }
                    return i;
                }
                t = t + 1;
            }
        }
        proof {
            self.lemma_read_stop(*old(self), old(buf)@, buf@, i as int);
        }
        i
    }

    /// The sequence fact behind `read`'s postcondition at both ways out
    /// of the polling loop.
    proof fn lemma_read_stop(&self, pre: Spi, buf0: Seq<u8>, buf: Seq<u8>, i: int)
        requires
            0 <= i <= buf.len(),
            i <= pre.rx@.len(),
            buf.len() == buf0.len(),
            forall|j: int| 0 <= j < i ==> buf[j] == pre.rx@[j],
            forall|j: int| i <= j < buf.len() ==> buf[j] == buf0[j],
        ensures
            buf == pre.rx@.take(i) + buf0.skip(i),
    {
        assert(buf =~= pre.rx@.take(i) + buf0.skip(i));
    }

    /// Write every byte of `buf` into the data register, each gated on
    /// the transmit-queue level reading below full, under the fault
    /// timer; a set fault flag is a first-class failure.  Enabled, every
    /// byte passes to the wire; disabled, bytes fill the transmit queue
    /// until it reads full and the wait times out, the shortfall left
    /// observable in the queue.  After a whole buffer the
    /// checksum-transfer bit is set.
    pub fn write(&mut self, buf: &Vec<u8>) -> (r: Result<usize, BusError>)
        requires
            old(self).wf(),
        ensures
            final(self).wf(),
            buf@.len() == 0 ==> r == Result::<usize, BusError>::Ok(0) && final(self).regs.cr1 == (
            old(self).regs.cr1 | CRCNEXT_BIT) && final(self).regs == (SpiRegs {
                cr1: final(self).regs.cr1,
                ..old(self).regs
            }) && final(self).tx@ == old(self).tx@ && final(self).tx_fifo@ == old(self).tx_fifo@,
            buf@.len() > 0 && fault_of(old(self).regs.sr) is Some ==> r
                == Result::<usize, BusError>::Err(
                BusError::BusFault(fault_of(old(self).regs.sr)->Some_0),
            ) && final(self).regs == old(self).regs && final(self).tx@ == old(self).tx@ && final(self).tx_fifo@ == old(self).tx_fifo@,
            buf@.len() > 0 && fault_of(old(self).regs.sr) is None && old(self).spe() ==> r
                == Result::<usize, BusError>::Ok(buf@.len() as usize) && final(self).tx@ == old(self).tx@ + buf@ && final(self).tx_fifo@ == old(self).tx_fifo@ && final(self).regs.cr1 == (
            old(self).regs.cr1 | CRCNEXT_BIT) && final(self).regs == (SpiRegs {
                cr1: final(self).regs.cr1,
                ..old(self).regs
            }),
            buf@.len() > 0 && fault_of(old(self).regs.sr) is None && !old(self).spe() && buf@.len()
                + old(self).tx_fifo@.len() <= FIFO_FULL ==> r == Result::<usize, BusError>::Ok(
                buf@.len() as usize,
            ) && final(self).tx_fifo@ == old(self).tx_fifo@ + buf@ && final(self).tx@ == old(self).tx@ && final(self).regs.cr1 == (old(self).regs.cr1 | CRCNEXT_BIT) && final(self).regs
                == (SpiRegs { cr1: final(self).regs.cr1, ..old(self).regs }),
            buf@.len() > 0 && fault_of(old(self).regs.sr) is None && !old(self).spe() && buf@.len()
                + old(self).tx_fifo@.len() > FIFO_FULL ==> r == Result::<usize, BusError>::Err(
                BusError::Timeout,
            ) && final(self).tx_fifo@ == old(self).tx_fifo@ + buf@.take(
                FIFO_FULL - old(self).tx_fifo@.len() as int,
            ) && final(self).tx@ == old(self).tx@ && final(self).regs == old(self).regs,
            final(self).rx@ == old(self).rx@,
            final(self).base == old(self).base,
    {
        let mut i: usize = 0;
        let mut t: u32 = 0;
        proof {
            assert(self.tx@ =~= self.tx@ + buf@.take(0));
            assert(self.tx_fifo@ =~= self.tx_fifo@ + buf@.take(0));
        }
        while i < buf.len()
            invariant
                old(self).wf(),
                self.wf(),
                i <= buf@.len(),
                self.regs == old(self).regs,
                self.rx@ == old(self).rx@,
                self.base == old(self).base,
                fault_of(old(self).regs.sr) is Some ==> i == 0 && t == 0,
                old(self).spe() ==> self.tx@ == old(self).tx@ + buf@.take(i as int) && self.tx_fifo@
                    == old(self).tx_fifo@,
                !old(self).spe() ==> self.tx@ == old(self).tx@ && self.tx_fifo@ == old(self).tx_fifo@ + buf@.take(i as int) && i + old(self).tx_fifo@.len() <= FIFO_FULL,
            decreases buf@.len() - i, TIMEOUT + 1 - t,
        {
            match self.fault_read() {
                Some(k) => {
                    proof {
                        assert(self.tx@ =~= old(self).tx@);
                        assert(self.tx_fifo@ =~= old(self).tx_fifo@);
                    }
                    return Err(BusError::BusFault(k));
                },
                None => {},
            }
            if self.ftlvl_read() != FIFO_FULL {
                let b = buf[i];
                self.push_dr(b);
                proof {
                    if old(self).spe() {
                        assert(self.tx@ =~= old(self).tx@ + buf@.take(i + 1));
                    } else {
                        assert(self.tx_fifo@ =~= old(self).tx_fifo@ + buf@.take(i + 1));
                    }
                }
                i = i + 1;
                t = 0;
            } else {
                if t > TIMEOUT {
                    proof {
                        assert(buf@.take(i as int) =~= buf@.take(
                            FIFO_FULL - old(self).tx_fifo@.len() as int,
                        ));
                    }
                    return Err(BusError::Timeout);
                }
                t = t + 1;
            }
        }
        proof {
            assert(buf@.take(i as int) =~= buf@);
        }
        let ghost w = self.regs.cr1;
        pointer::set_ptr_vol_bit_u32(&mut self.regs.cr1, CRCNEXT_BIT);
        proof {
            spi_bit_facts();
            pointer::lemma_or_preserves_bits(w, CRCNEXT_BIT, SPE_BIT);
        }
        Ok(i)
    }

    /// Write one byte into the data register, gated on the transmit flag
    /// under the fault timer: the flag reads set while the bus is
    /// enabled or the transmit queue is empty.
    pub fn write_byte(&mut self, buf: u8) -> (r: Result<(), BusError>)
        requires
            old(self).wf(),
        ensures
            final(self).wf(),
            old(self).spe() ==> r is Ok && final(self).tx@ == old(self).tx@.push(buf) && final(self).tx_fifo@ == old(self).tx_fifo@,
            !old(self).spe() && old(self).tx_fifo@.len() == 0 ==> r is Ok && final(self).tx_fifo@
                == old(self).tx_fifo@.push(buf) && final(self).tx@ == old(self).tx@,
            !old(self).spe() && old(self).tx_fifo@.len() > 0 ==> r == Result::<(), BusError>::Err(
                BusError::Timeout,
            ) && final(self).tx_fifo@ == old(self).tx_fifo@ && final(self).tx@ == old(self).tx@,
            final(self).regs == old(self).regs,
            final(self).rx@ == old(self).rx@,
            final(self).base == old(self).base,
    {
        let mut t: u32 = 0;
        while t <= TIMEOUT
            invariant
                old(self).wf(),
                self == old(self),
                t > 0 ==> !old(self).spe() && old(self).tx_fifo@.len() > 0,
            decreases TIMEOUT + 1 - t,
        {
            let txe = pointer::get_ptr_vol_bit_u32(&self.regs.cr1, SPE_BIT) || self.tx_fifo.len()
                == 0;
            if txe {
                self.push_dr(buf);
                return Ok(());
            }
            t = t + 1;
        }
        Err(BusError::Timeout)
    }

    /// Disable the bus in the documented order: wait for the transmit
    /// queue to read empty, wait for the busy flag to clear - each wait
    /// bounded by the fault timer - then clear the enable bit.  A timed
    /// out wait leaves the bus exactly as it was, enable bit included;
    /// recovery is the caller's policy.
    pub fn disable(&mut self) -> (r: Result<(), BusError>)
        requires
            old(self).wf(),
        ensures
            Spi::disable_post(*old(self), *final(self), r),
            r is Ok <==> old(self).tx_fifo@.len() == 0 && !old(self).busy(),
            final(self).wf(),
    {
        let mut t: u32 = 0;
        while t <= TIMEOUT
            invariant_except_break
                t <= TIMEOUT + 1,
                old(self).wf(),
                self == old(self),
                t > 0 ==> old(self).tx_fifo@.len() > 0,
            ensures
                self == old(self),
                t <= TIMEOUT ==> old(self).tx_fifo@.len() == 0,
                t > TIMEOUT ==> old(self).tx_fifo@.len() > 0,
            decreases TIMEOUT + 1 - t,
        {
            if self.ftlvl_read() == 0 {
                break;
            }
            t = t + 1;
        }
        if t > TIMEOUT {
            return Err(BusError::Timeout);
        }

        let mut u: u32 = 0;
        while u <= TIMEOUT
            invariant_except_break
                u <= TIMEOUT + 1,
                old(self).wf(),
                self == old(self),
                u > 0 ==> old(self).busy(),
            ensures
                self == old(self),
                u <= TIMEOUT ==> !old(self).busy(),
                u > TIMEOUT ==> old(self).busy(),
            decreases TIMEOUT + 1 - u,
        {
            if !pointer::get_ptr_vol_bit_u32(&self.regs.sr, BSY_BIT) {
                break;
            }
            u = u + 1;
        }
        if u > TIMEOUT {
            return Err(BusError::Timeout);
        }

        let ghost w = self.regs.cr1;
        pointer::clr_ptr_vol_bit_u32(&mut self.regs.cr1, SPE_BIT);
        proof {
            pointer::lemma_andnot_clears(w, SPE_BIT);
        }
        Ok(())
    }

    /// Whether any fault flag is set.
    fn error(&self) -> (r: bool)
        ensures
            r == (fault_of(self.regs.sr) is Some),
    {
        if pointer::get_ptr_vol_bit_u32(&self.regs.sr, CRCERR_BIT) || pointer::get_ptr_vol_bit_u32(
            &self.regs.sr,
            MODF_BIT,
        ) || pointer::get_ptr_vol_bit_u32(&self.regs.sr, OVR_BIT) {
            true
        } else {
            false
        }
    }

    /// The set fault flag as a small code: checksum error 1, mode fault
    /// 2, overrun 3, none 0.
    fn error_byte(&self) -> (r: u8)
        ensures
            fault_of(self.regs.sr) is None ==> r == 0,
            fault_of(self.regs.sr) == Some(FaultKind::CrcError) ==> r == 1,
            fault_of(self.regs.sr) == Some(FaultKind::ModeFault) ==> r == 2,
            fault_of(self.regs.sr) == Some(FaultKind::Overrun) ==> r == 3,
    {
        if pointer::get_ptr_vol_bit_u32(&self.regs.sr, CRCERR_BIT) {
            1
        } else if pointer::get_ptr_vol_bit_u32(&self.regs.sr, MODF_BIT) {
            2
        } else if pointer::get_ptr_vol_bit_u32(&self.regs.sr, OVR_BIT) {
            3
        } else {
            0
        }
    }

    /// The set fault flag, if any.
    fn fault_read(&self) -> (r: Option<FaultKind>)
        ensures
            r == fault_of(self.regs.sr),
    {
        if pointer::get_ptr_vol_bit_u32(&self.regs.sr, CRCERR_BIT) {
            Some(FaultKind::CrcError)
        } else if pointer::get_ptr_vol_bit_u32(&self.regs.sr, MODF_BIT) {
            Some(FaultKind::ModeFault)
        } else if pointer::get_ptr_vol_bit_u32(&self.regs.sr, OVR_BIT) {
            Some(FaultKind::Overrun)
        } else {
            None
        }
    }

    /// The transmit-queue threshold level as the status field reads it.
    fn ftlvl_read(&self) -> (r: u32)
        ensures
            r == self.ftlvl(),
    {
        if self.tx_fifo.len() >= 3 {
            FIFO_FULL
        } else {
            self.tx_fifo.len() as u32
        }
    }

    /// Put a byte into the data register: an enabled master shifts it
    /// straight out on the wire, a disabled one queues it.
    fn push_dr(&mut self, b: u8)
        requires
            old(self).wf(),
            old(self).tx_fifo@.len() < FIFO_FULL,
        ensures
            final(self).wf(),
            old(self).spe() ==> final(self).tx@ == old(self).tx@.push(b) && final(self).tx_fifo@
                == old(self).tx_fifo@,
            !old(self).spe() ==> final(self).tx_fifo@ == old(self).tx_fifo@.push(b) && final(self).tx@ == old(self).tx@,
            final(self).regs == old(self).regs,
            final(self).rx@ == old(self).rx@,
            final(self).base == old(self).base,
    {
        if pointer::get_ptr_vol_bit_u32(&self.regs.cr1, SPE_BIT) {
            self.tx.push(b);
        } else {
            self.tx_fifo.push(b);
        }
    }
}

/// Disabling twice is safe: a disable that went through leaves the
/// transmit queue drained, the busy flag untouched and the enable bit
/// clear, so a second disable goes through as well, and the enable bit
/// reads clear after each of the two.
pub proof fn lemma_disable_idempotent(
    s0: Spi,
    s1: Spi,
    s2: Spi,
    r1: Result<(), BusError>,
    r2: Result<(), BusError>,
)
    requires
        s0.wf(),
        Spi::disable_post(s0, s1, r1),
        r1 is Ok,
        Spi::disable_post(s1, s2, r2),
    ensures
        r2 is Ok,
        !s1.spe(),
        !s2.spe(),
{
    pointer::lemma_andnot_clears(s0.regs.cr1, SPE_BIT);
}

} // verus!
