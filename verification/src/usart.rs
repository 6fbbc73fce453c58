//! Asynchronous serial bus (universal-receiver-transmitter class):
//! baud-divisor computation split by oversampling factor, frame-based
//! reads with terminator matching, idle-line trapping and error-flag
//! detection as three distinct outcomes, and writes gated on the
//! transmit flags.
//!
//! The handle owns an image of the register block and the wire-side byte
//! queues.  The status image holds the error flags; a write of the
//! matching clear bit takes them down, as the hardware's write-one-to-
//! clear registers do.  A fault the line will raise during the next
//! reception is carried in `line_fault` and shows in the status flags
//! the moment a read begins.

use vstd::prelude::*;

use crate::common;
use crate::common::BusError;
use crate::common::FaultKind;
use crate::pointer;

verus! {

/// Image of the asynchronous-serial register block.  The receive and
/// transmit data registers are modelled by the handle's byte queues.
#[derive(Clone, Copy, PartialEq, Eq, Structural, Debug)]
pub struct UsartRegs {
    pub cr1: u32,  // Control Register 1
    pub cr2: u32,  // Control Register 2
    pub cr3: u32,  // Control Register 3
    pub brr: u32,  // Baud Rate Register
    pub gtpr: u32, // Guard Time / Prescaler Register
    pub rtor: u32, // Receiver Timeout Register
    pub rqr: u32,  // Request Register
    pub isr: u32,  // Interrupt And Status Register (error flags)
    pub icr: u32,  // Interrupt Flag Clear Register
}

/// The whole register block with every word clear.
pub open spec fn usart_regs_zeroed() -> UsartRegs {
    UsartRegs { cr1: 0, cr2: 0, cr3: 0, brr: 0, gtpr: 0, rtor: 0, rqr: 0, isr: 0, icr: 0 }
}

/// Handle over one asynchronous-serial peripheral.
pub struct Usart {
    /// Base address the handle was resolved from.
    pub base: u32,
    /// Image of the register block.
    pub regs: UsartRegs,
    /// Bytes arrived on the receive line, not yet read.
    pub rx: Vec<u8>,
    /// Bytes sent out on the transmit line.
    pub tx: Vec<u8>,
    /// A condition the line will raise when the next reception begins.
    pub line_fault: Option<FaultKind>,
}

/// Oversampling factor of the receiver.
#[derive(Clone, Copy, PartialEq, Eq, Structural, Debug)]
pub enum OverSample {
    Oversample16,
    Oversample8,
}

/// Data bits per frame.
#[derive(Clone, Copy, PartialEq, Eq, Structural, Debug)]
pub enum WordLen {
    Bits8,
    Bits9,
    Bits7,
}

/// Stop bits per frame.
#[derive(Clone, Copy, PartialEq, Eq, Structural, Debug)]
pub enum StopLen {
    StopBit1,
    StopBit05,
    StopBit2,
    StopBit15,
}

/// Line speeds the driver knows.
#[derive(Clone, Copy, PartialEq, Eq, Structural, Debug)]
pub enum BaudRate {
    Baud1200,
    Baud1800,
    Baud2400,
    Baud4800,
    Baud9600,
    Baud19200,
    Baud28800,
    Baud38400,
    Baud57600,
    Baud76800,
    Baud115200,
    Baud230400,
    Baud460800,
    Baud576000,
    Baud921600,
}

/// The line speed in bits per second.
pub open spec fn spec_baud_value(b: BaudRate) -> u32 {
    match b {
        BaudRate::Baud1200 => 1200,
        BaudRate::Baud1800 => 1800,
        BaudRate::Baud2400 => 2400,
        BaudRate::Baud4800 => 4800,
        BaudRate::Baud9600 => 9600,
        BaudRate::Baud19200 => 19200,
        BaudRate::Baud28800 => 28800,
        BaudRate::Baud38400 => 38400,
        BaudRate::Baud57600 => 57600,
        BaudRate::Baud76800 => 76800,
        BaudRate::Baud115200 => 115200,
        BaudRate::Baud230400 => 230400,
        BaudRate::Baud460800 => 460800,
        BaudRate::Baud576000 => 576000,
        BaudRate::Baud921600 => 921600,
    }
}

/// The line speed in bits per second.
#[verifier::when_used_as_spec(spec_baud_value)]
pub fn baud_value(b: BaudRate) -> (v: u32)
    ensures
        v == spec_baud_value(b),
        v >= 1200,
{
    match b {
        BaudRate::Baud1200 => 1200,
        BaudRate::Baud1800 => 1800,
        BaudRate::Baud2400 => 2400,
        BaudRate::Baud4800 => 4800,
        BaudRate::Baud9600 => 9600,
        BaudRate::Baud19200 => 19200,
        BaudRate::Baud28800 => 28800,
        BaudRate::Baud38400 => 38400,
        BaudRate::Baud57600 => 57600,
        BaudRate::Baud76800 => 76800,
        BaudRate::Baud115200 => 115200,
        BaudRate::Baud230400 => 230400,
        BaudRate::Baud460800 => 460800,
        BaudRate::Baud576000 => 576000,
        BaudRate::Baud921600 => 921600,
    }
}

/// Two-bit register code of a stop-bit length, in declaration order.
pub open spec fn spec_stop_code(s: StopLen) -> u32 {
    match s {
        StopLen::StopBit1 => 0,
        StopLen::StopBit05 => 1,
        StopLen::StopBit2 => 2,
        StopLen::StopBit15 => 3,
    }
}

/// Two-bit register code of a stop-bit length.
#[verifier::when_used_as_spec(spec_stop_code)]
pub fn stop_code(s: StopLen) -> (code: u32)
    ensures
        code == spec_stop_code(s),
        code <= 3,
{
    match s {
        StopLen::StopBit1 => 0,
        StopLen::StopBit05 => 1,
        StopLen::StopBit2 => 2,
        StopLen::StopBit15 => 3,
    }
}

/* Input clock scaling and the receiver-timeout window */
pub const SCLK_HZ: u32 = 1000;
pub const RTO_TIMEO_VALUE: u32 = 10;

/* Register Masks */
pub const OVER8_MASK: u32 = common::MASK_4_BIT;
pub const STOP_BIT_MASK: u32 = common::MASK_2_BIT;
pub const BAUD_RATE_MASK: u32 = common::MASK_16_BIT;
pub const RTO_TIMEO_MASK: u32 = common::MASK_24_BIT;

/* Register Bits: control register 1 */
pub const UE_BIT: u32 = common::BIT_0;
pub const RE_BIT: u32 = common::BIT_2;
pub const TE_BIT: u32 = common::BIT_3;
pub const M0_BIT: u32 = common::BIT_12;
pub const OVER_8_BIT: u32 = common::BIT_15;
pub const M1_BIT: u32 = common::BIT_24;

/* Register Bits: control register 2 */
pub const RTOEN_BIT: u32 = common::BIT_23;

/* Register Bits: flag-clear register */
pub const FECF_BIT: u32 = common::BIT_1;
pub const ORECR_BIT: u32 = common::BIT_3;
pub const IDLECF_BIT: u32 = common::BIT_4;
pub const RTOCF_BIT: u32 = common::BIT_11;

/* Register Bits: status register */
pub const FE_BIT: u32 = common::BIT_1;
pub const ORE_BIT: u32 = common::BIT_3;
pub const IDLE_BIT: u32 = common::BIT_4;

/* Register Offsets */
pub const STOP_BIT_OFFSET: u32 = 12;
pub const BAUD_RATE_OFFSET: u32 = 0;
pub const RTO_TIMEO_OFFSET: u32 = 0;

/* Register Shifts */
pub const OVER8_SHIFT: u32 = 1;

/// Iteration bound of the idle-line trap: a dead line must not hold the
/// reader captive.
pub const IDLE_TIMEOUT: u32 = 100000;

/// Fault-timer bound of the transmit waits.
pub const TIMEOUT: u32 = common::WAIT100US;

/// The baud-rate register word for a line speed: the input clock in kHz
/// scaled to Hz over the speed.  With eightfold oversampling the divisor
/// is taken at twice the clock and its low nibble is stored shifted right
/// by one, the hardware's split-field encoding.
pub open spec fn spec_usart_div(baud_hz: u32, sclk_khz: u32, samp: OverSample) -> u32 {
    match samp {
        OverSample::Oversample8 => {
            let d = (((sclk_khz * SCLK_HZ) * 2) as u32 / baud_hz) as u32;
            (d & !OVER8_MASK) | ((d & OVER8_MASK) >> OVER8_SHIFT)
        },
        OverSample::Oversample16 => ((sclk_khz * SCLK_HZ) as u32 / baud_hz) as u32,
    }
}

/// The status flag a line condition raises.
pub open spec fn fault_bits(k: FaultKind) -> u32 {
    match k {
        FaultKind::FrameError => FE_BIT,
        FaultKind::Overrun => ORE_BIT,
        FaultKind::IdleLine => IDLE_BIT,
        _ => 0,
    }
}

/// The line condition a status word reports: a frame error first, then
/// an idle line, then an overrun.
pub open spec fn fault_of(isr: u32) -> Option<FaultKind> {
    if pointer::bit_set(isr, FE_BIT) {
        Some(FaultKind::FrameError)
    } else if pointer::bit_set(isr, IDLE_BIT) {
        Some(FaultKind::IdleLine)
    } else if pointer::bit_set(isr, ORE_BIT) {
        Some(FaultKind::Overrun)
    } else {
        None
    }
}

/// The status word with the stale timeout, frame, idle and overrun flags
/// taken down, as `read` leaves it on entry.
pub open spec fn stale_cleared(isr: u32) -> u32 {
    (((isr & !RTOCF_BIT) & !FECF_BIT) & !IDLECF_BIT) & !ORECR_BIT
}

/// Position of the first occurrence of `term` in `s`.
pub open spec fn term_pos(s: Seq<u8>, term: u8) -> Option<int>
    decreases s.len(),
{
    if s.len() <= 0 {
        None
    } else if s[0] == term {
        Some(0int)
    } else {
        match term_pos(s.skip(1), term) {
            Some(p) => Some(p + 1),
            None => None,
        }
    }
}

/// A terminator at position `p` with none before it is the first.
pub proof fn lemma_term_pos_at(s: Seq<u8>, term: u8, p: int)
    requires
        0 <= p < s.len(),
        s[p] == term,
        forall|j: int| 0 <= j < p ==> s[j] != term,
    ensures
        term_pos(s, term) == Some(p),
    decreases p,
{
    if p > 0 {
        lemma_term_pos_at(s.skip(1), term, p - 1);
    }
}

/// A sequence without the terminator has no first occurrence.
pub proof fn lemma_term_pos_none(s: Seq<u8>, term: u8)
    requires
        forall|j: int| 0 <= j < s.len() ==> s[j] != term,
    ensures
        term_pos(s, term) is None,
    decreases s.len(),
{
    if s.len() > 0 {
        lemma_term_pos_none(s.skip(1), term);
    }
}

/// Literal mask facts this module's proofs lean on.
proof fn usart_bit_facts()
    by (bit_vector)
    ensures
        ((0xFFFFu32 << 0) >> 0) == 0xFFFF,
        ((0xFFFFFFu32 << 0) >> 0) == 0xFFFFFF,
        ((0x3u32 << 12) >> 12) == 0x3,
        ((0x3u32 << 12) & 0x800000u32) == 0,
        (10u32 & 0xFFFFFF) == 10,
        (0x8u32 & 0x1u32) == 0,
        forall|v: u32| v <= 3 ==> #[trigger] (v & 0x3) == v,
        forall|v: u32| v <= 0xFFFF ==> #[trigger] (v & 0xFFFF) == v,
{
}

/// Taking the stale flags down leaves no error flag standing.
proof fn usart_cleared_facts(c: u32)
    by (bit_vector)
    ensures
        (((((c & !0x800) & !0x2) & !0x10) & !0x8) & 0x2) == 0,
        (((((c & !0x800) & !0x2) & !0x10) & !0x8) & 0x10) == 0,
        (((((c & !0x800) & !0x2) & !0x10) & !0x8) & 0x8) == 0,
{
}

/// Raising one condition shows exactly that condition.
proof fn usart_raise_facts(c: u32)
    by (bit_vector)
    ensures
        ((c | 0x2) & 0x2) != 0,
        ((c | 0x10) & 0x2) == (c & 0x2),
        ((c | 0x10) & 0x10) != 0,
        ((c | 0x8) & 0x2) == (c & 0x2),
        ((c | 0x8) & 0x10) == (c & 0x10),
        ((c | 0x8) & 0x8) != 0,
        (c | 0) == c,
{
}

impl Usart {
    /// Whether the receiver-transmitter enable bit is set.
    pub open spec fn ue(self) -> bool {
        pointer::bit_set(self.regs.cr1, UE_BIT)
    }

    /// Well-formedness: a pending line condition is one the status
    /// register can report.
    pub open spec fn wf(self) -> bool {
        self.line_fault matches Some(k) ==> fault_bits(k) != 0
    }

    /// Resolve a handle from the peripheral's base address; the register
    /// image starts out all clear, the line quiet.
    pub fn init(base: u32) -> (r: Usart)
        ensures
            r.base == base,
            r.regs == usart_regs_zeroed(),
            r.rx@ == Seq::<u8>::empty(),
            r.tx@ == Seq::<u8>::empty(),
            r.line_fault is None,
            r.wf(),
    {
        let r = Usart {
            base,
            regs: UsartRegs {
                cr1: 0,
                cr2: 0,
                cr3: 0,
                brr: 0,
                gtpr: 0,
                rtor: 0,
                rqr: 0,
                isr: 0,
                icr: 0,
            },
            rx: Vec::new(),
            tx: Vec::new(),
            line_fault: None,
        };
        proof {
            assert(r.rx@ =~= Seq::<u8>::empty());
            assert(r.tx@ =~= Seq::<u8>::empty());
        }
        r
    }

    /// Open the line: program word length, stop bits, oversampling and
    /// the baud divisor, enable the receiver-transmitter and the
    /// receiver, and arm the receive-timeout window.
    pub fn open(&mut self, word_len: WordLen, stop: StopLen, baud: BaudRate, sclk_khz: u32, samp: OverSample)
        requires
            samp is Oversample16 ==> sclk_khz * SCLK_HZ <= u32::MAX,
            samp is Oversample8 ==> sclk_khz * SCLK_HZ * 2 <= u32::MAX,
            spec_usart_div(spec_baud_value(baud), sclk_khz, samp) <= BAUD_RATE_MASK,
        ensures
            pointer::bit_set(final(self).regs.cr1, M0_BIT) == (word_len is Bits9),
            pointer::bit_set(final(self).regs.cr1, M1_BIT) == (word_len is Bits7),
            pointer::bit_set(final(self).regs.cr1, OVER_8_BIT) == (samp is Oversample8),
            pointer::bit_set(final(self).regs.cr1, UE_BIT),
            pointer::bit_set(final(self).regs.cr1, RE_BIT),
            pointer::bit_set(final(self).regs.cr1, TE_BIT) == pointer::bit_set(
                old(self).regs.cr1,
                TE_BIT,
            ),
            pointer::bit_set(final(self).regs.cr2, RTOEN_BIT),
            pointer::field(final(self).regs.cr2, STOP_BIT_OFFSET, STOP_BIT_MASK) == spec_stop_code(
                stop,
            ),
            pointer::field(final(self).regs.brr, BAUD_RATE_OFFSET, BAUD_RATE_MASK)
                == spec_usart_div(spec_baud_value(baud), sclk_khz, samp),
            pointer::field(final(self).regs.rtor, RTO_TIMEO_OFFSET, RTO_TIMEO_MASK)
                == RTO_TIMEO_VALUE,
            final(self).regs == (UsartRegs {
                cr1: final(self).regs.cr1,
                cr2: final(self).regs.cr2,
                brr: final(self).regs.brr,
                rtor: final(self).regs.rtor,
                ..old(self).regs
            }),
            final(self).rx@ == old(self).rx@,
            final(self).tx@ == old(self).tx@,
            final(self).line_fault == old(self).line_fault,
            final(self).base == old(self).base,
            old(self).wf() ==> final(self).wf(),
    {
        proof {
            usart_bit_facts();
        }
        let m0_val: u32 = match word_len {
            WordLen::Bits9 => M0_BIT,
            _ => 0,
        };
        let m1_val: u32 = match word_len {
            WordLen::Bits7 => M1_BIT,
            _ => 0,
        };
        pointer::clr_ptr_vol_bit_u32(&mut self.regs.cr1, M0_BIT);
        pointer::set_ptr_vol_bit_u32(&mut self.regs.cr1, m0_val);
        pointer::clr_ptr_vol_bit_u32(&mut self.regs.cr1, M1_BIT);
        pointer::set_ptr_vol_bit_u32(&mut self.regs.cr1, m1_val);

        let ov8_val: u32 = match samp {
            OverSample::Oversample8 => OVER_8_BIT,
            OverSample::Oversample16 => 0,
        };
        pointer::clr_ptr_vol_bit_u32(&mut self.regs.cr1, OVER_8_BIT);
        pointer::set_ptr_vol_bit_u32(&mut self.regs.cr1, ov8_val);

        pointer::set_ptr_vol_bit_u32(&mut self.regs.cr2, RTOEN_BIT);
        let div = self.clock_setup(baud, sclk_khz, samp);
        pointer::set_ptr_vol_u32(&mut self.regs.brr, BAUD_RATE_OFFSET, BAUD_RATE_MASK, div);
        let ghost c2 = self.regs.cr2;
        pointer::set_ptr_vol_u32(&mut self.regs.cr2, STOP_BIT_OFFSET, STOP_BIT_MASK, stop_code(stop));
        pointer::set_ptr_vol_bit_u32(&mut self.regs.cr1, UE_BIT);
        pointer::set_ptr_vol_bit_u32(&mut self.regs.cr1, RE_BIT);
        pointer::set_ptr_vol_u32(&mut self.regs.rtor, RTO_TIMEO_OFFSET, RTO_TIMEO_MASK, RTO_TIMEO_VALUE);

        proof {
            let c0 = old(self).regs.cr1;
            let m0 = m0_val;
            let m1 = m1_val;
            let ov = ov8_val;
            let f = self.regs.cr1;
            assert(((f & 0x1000 != 0) == (m0 == 0x1000)) && ((f & 0x1000000 != 0) == (m1
                == 0x1000000)) && ((f & 0x8000 != 0) == (ov == 0x8000)) && (f & 0x1 != 0) && (f
                & 0x4 != 0) && ((f & 0x8 != 0) == (c0 & 0x8 != 0)))
                by (bit_vector)
                requires
                    (m0 == 0 || m0 == 0x1000) && (m1 == 0 || m1 == 0x1000000) && (ov == 0 || ov
                        == 0x8000) && f == (((((((((c0 & !0x1000) | m0) & !0x1000000) | m1)
                        & !0x8000) | ov) | 0x1) | 0x4)),
            ;
            pointer::lemma_or_sets(old(self).regs.cr2, RTOEN_BIT);
            pointer::lemma_field_written_preserves_bits(
                c2,
                STOP_BIT_OFFSET,
                STOP_BIT_MASK,
                spec_stop_code(stop),
                RTOEN_BIT,
            );
            pointer::lemma_field_written_reads_back(
                c2,
                STOP_BIT_OFFSET,
                STOP_BIT_MASK,
                spec_stop_code(stop),
            );
            pointer::lemma_field_written_reads_back(
                old(self).regs.brr,
                BAUD_RATE_OFFSET,
                BAUD_RATE_MASK,
                spec_usart_div(spec_baud_value(baud), sclk_khz, samp),
            );
            pointer::lemma_field_written_reads_back(
                old(self).regs.rtor,
                RTO_TIMEO_OFFSET,
                RTO_TIMEO_MASK,
                RTO_TIMEO_VALUE,
            );
        }
    }

    /// Whether a received byte is waiting.
    pub fn get_read(&self) -> (r: bool)
        ensures
            r == (self.rx@.len() > 0),
    {
        self.rx.len() > 0
    }

    /// Read up to `buf.len()` bytes from the line, after taking down the
    /// stale timeout, frame, idle and overrun flags.  Three outcomes,
    /// which callers must tell apart: success with the byte count - the
    /// whole buffer, or up to and including a match of the non-zero
    /// terminator, later bytes left unconsumed; a fault the line raised,
    /// surfaced from the status flags, frame error before idle line
    /// before overrun; or the idle trap running out while the line stays
    /// quiet.
    pub fn read(&mut self, buf: &mut Vec<u8>, term: u8) -> (r: Result<usize, BusError>)
        requires
            old(self).wf(),
        ensures
            final(self).wf(),
            final(self).line_fault is None,
            final(buf)@.len() == old(buf)@.len(),
            final(self).tx@ == old(self).tx@,
            final(self).base == old(self).base,
            final(self).regs == (UsartRegs {
                isr: stale_cleared(old(self).regs.isr) | (match old(self).line_fault {
                    Some(k) => fault_bits(k),
                    None => 0u32,
                }),
                icr: ORECR_BIT,
                ..old(self).regs
            }),
            old(buf)@.len() == 0 ==> r == Result::<usize, BusError>::Ok(0) && final(buf)@ == old(buf)@ && final(self).rx@ == old(self).rx@,
            old(buf)@.len() > 0 ==> (old(self).line_fault matches Some(k) ==> (if old(self).rx@.len() == 0 {
                r == Result::<usize, BusError>::Err(BusError::BusFault(k)) && final(buf)@ == old(buf)@ && final(self).rx@ == old(self).rx@
            } else if term != 0 && old(self).rx@[0] == term {
                r == Result::<usize, BusError>::Ok(1) && final(buf)@ == old(self).rx@.take(1) + old(buf)@.skip(1) && final(self).rx@ == old(self).rx@.skip(1)
            } else {
                r == Result::<usize, BusError>::Err(BusError::BusFault(k)) && final(buf)@ == old(self).rx@.take(1) + old(buf)@.skip(1) && final(self).rx@ == old(self).rx@.skip(1)
            })),
            old(buf)@.len() > 0 && old(self).line_fault is None ==> {
                let scanned = old(self).rx@.take(
                    vstd::math::min(old(buf)@.len() as int, old(self).rx@.len() as int),
                );
                let tp = if term != 0 {
                    term_pos(scanned, term)
                } else {
                    Option::<int>::None
                };
                match tp {
                    Some(p) => r == Result::<usize, BusError>::Ok((p + 1) as usize) && final(buf)@
                        == old(self).rx@.take(p + 1) + old(buf)@.skip(p + 1) && final(self).rx@
                        == old(self).rx@.skip(p + 1),
                    None => if old(self).rx@.len() >= old(buf)@.len() {
                        r == Result::<usize, BusError>::Ok(old(buf)@.len() as usize) && final(buf)@
                            == old(self).rx@.take(old(buf)@.len() as int) && final(self).rx@ == old(self).rx@.skip(old(buf)@.len() as int)
                    } else {
                        r == Result::<usize, BusError>::Err(BusError::Timeout) && final(buf)@
                            == old(self).rx@ + old(buf)@.skip(old(self).rx@.len() as int) && final(self).rx@.len() == 0
                    },
                }
            },
    {
        self.clear_flags(RTOCF_BIT);
        self.clear_flags(FECF_BIT);
        self.clear_flags(IDLECF_BIT);
        self.clear_flags(ORECR_BIT);
        // Reception begins: a condition pending on the line raises its
        // status flag now.
        self.raise_line_fault();
        proof {
            usart_cleared_facts(old(self).regs.isr);
            usart_raise_facts(stale_cleared(old(self).regs.isr));
            assert(self.rx@ =~= old(self).rx@.skip(0));
        }

        let ghost rxq = old(self).rx@;
        let mut i: usize = 0;
        let mut t: u32 = 0;
        while i < buf.len()
            invariant
                rxq == old(self).rx@,
                old(self).wf(),
                i <= buf@.len(),
                buf@.len() == old(buf)@.len(),
                i <= rxq.len(),
                self.rx@ == rxq.skip(i as int),
                self.tx@ == old(self).tx@,
                self.base == old(self).base,
                self.line_fault is None,
                self.regs == (UsartRegs {
                    isr: stale_cleared(old(self).regs.isr) | (match old(self).line_fault {
                        Some(k) => fault_bits(k),
                        None => 0u32,
                    }),
                    icr: ORECR_BIT,
                    ..old(self).regs
                }),
                fault_of(self.regs.isr) == old(self).line_fault,
                forall|j: int| 0 <= j < i ==> buf@[j] == rxq[j],
                forall|j: int| i <= j < buf@.len() ==> buf@[j] == old(buf)@[j],
                term != 0 ==> forall|j: int| 0 <= j < i ==> rxq[j] != term,
                old(self).line_fault is Some ==> i == 0 && t == 0,
            decreases buf@.len() - i, IDLE_TIMEOUT + 1 - t,
        {
            if self.rx.len() > 0 {
                let b = self.rx.remove(0);
                proof {
                    assert(self.rx@ =~= rxq.skip(i + 1));
                }
                buf[i] = b;
                if term != 0 && b == term {
                    proof {
                        self.lemma_read_stop(rxq, old(buf)@, buf@, i + 1);
                        let n = buf@.len() as int;
                        let scanned = rxq.take(vstd::math::min(n, rxq.len() as int));
                        if old(self).line_fault is None {
                            assert(scanned[i as int] == term);
                            lemma_term_pos_at(scanned, term, i as int);
                            let scanned2 = old(self).rx@.take(
                                vstd::math::min(old(buf)@.len() as int, old(self).rx@.len() as int),
                            );
                            assert(scanned2 =~= scanned);
                            assert(term_pos(scanned2, term) == Some(i as int));
                        }
                    }
                    return Ok(i + 1);
                }
                i = i + 1;
                t = 0;
            } else {
                if t > IDLE_TIMEOUT {
                    proof {
                        self.lemma_read_stop(rxq, old(buf)@, buf@, i as int);
                        let n = buf@.len() as int;
                        let scanned = rxq.take(vstd::math::min(n, rxq.len() as int));
                        if term != 0 && old(self).line_fault is None {
                            assert(scanned =~= rxq);
                            lemma_term_pos_none(scanned, term);
                            let scanned2 = old(self).rx@.take(
                                vstd::math::min(old(buf)@.len() as int, old(self).rx@.len() as int),
                            );
                            assert(scanned2 =~= scanned);
                            assert(term_pos(scanned2, term) is None);
                        }
                        assert(buf@ =~= rxq + old(buf)@.skip(rxq.len() as int));
                    }
                    return Err(BusError::Timeout);
                }
                t = t + 1;
            }
            match self.fault_read() {
                Some(k) => {
                    proof {
                        self.lemma_read_stop(rxq, old(buf)@, buf@, i as int);
                        if i == 0 {
                            assert(buf@ =~= old(buf)@);
                            assert(self.rx@ =~= rxq);
                        }
                    }
                    return Err(BusError::BusFault(k));
                },
                None => {},
            }
        }
        proof {
            self.lemma_read_stop(rxq, old(buf)@, buf@, i as int);
            if buf@.len() == 0 {
                assert(buf@ =~= old(buf)@);
                assert(self.rx@ =~= rxq);
            }
            let n = buf@.len() as int;
            let scanned = rxq.take(vstd::math::min(n, rxq.len() as int));
            if term != 0 && i > 0 {
                assert(scanned =~= rxq.take(n));
                lemma_term_pos_none(scanned, term);
            }
            if i > 0 {
                assert(rxq.take(n) + old(buf)@.skip(n) =~= rxq.take(n));
            }
        }
        Ok(i)
    }

    /// The sequence fact behind `read`'s postcondition at every way out
    /// of the polling loop.
    proof fn lemma_read_stop(&self, rxq: Seq<u8>, buf0: Seq<u8>, buf: Seq<u8>, i: int)
        requires
            0 <= i <= buf.len(),
            i <= rxq.len(),
            buf.len() == buf0.len(),
            forall|j: int| 0 <= j < i ==> buf[j] == rxq[j],
            forall|j: int| i <= j < buf.len() ==> buf[j] == buf0[j],
        ensures
            buf == rxq.take(i) + buf0.skip(i),
    {
        assert(buf =~= rxq.take(i) + buf0.skip(i));
    }

    /// Send every byte of `buf` out the line: transmit-enable up, one
    /// byte per transmit-flag poll, a bounded wait on transmission
    /// complete, transmit-enable back down.  The flags only rise while
    /// the receiver-transmitter is enabled; otherwise the fault timer
    /// runs out with transmit-enable left up for the caller to clean up.
    pub fn write(&mut self, buf: &Vec<u8>) -> (r: Result<usize, BusError>)
        ensures
            old(self).ue() ==> r == Result::<usize, BusError>::Ok(buf@.len() as usize) && final(self).tx@ == old(self).tx@ + buf@ && final(self).regs.cr1 == ((old(self).regs.cr1 | TE_BIT)
                & !TE_BIT),
            !old(self).ue() ==> r == Result::<usize, BusError>::Err(BusError::Timeout) && final(self).tx@ == old(self).tx@ && final(self).regs.cr1 == (old(self).regs.cr1 | TE_BIT),
            final(self).regs == (UsartRegs { cr1: final(self).regs.cr1, ..old(self).regs }),
            final(self).rx@ == old(self).rx@,
            final(self).line_fault == old(self).line_fault,
            final(self).base == old(self).base,
            old(self).wf() ==> final(self).wf(),
    {
        pointer::set_ptr_vol_bit_u32(&mut self.regs.cr1, TE_BIT);
        proof {
            usart_bit_facts();
            pointer::lemma_or_preserves_bits(old(self).regs.cr1, TE_BIT, UE_BIT);
            assert(self.tx@ =~= self.tx@ + buf@.take(0));
        }

        let mut i: usize = 0;
        let mut t: u32 = 0;
        while i < buf.len()
            invariant
                i <= buf@.len(),
                t <= TIMEOUT + 1,
                self.regs == (UsartRegs {
                    cr1: old(self).regs.cr1 | TE_BIT,
                    ..old(self).regs
                }),
                self.rx@ == old(self).rx@,
                self.line_fault == old(self).line_fault,
                self.base == old(self).base,
                self.tx@ == old(self).tx@ + buf@.take(i as int),
                old(self).ue() == self.ue(),
                !old(self).ue() ==> i == 0,
            decreases buf@.len() - i, TIMEOUT + 1 - t,
        {
            if pointer::get_ptr_vol_bit_u32(&self.regs.cr1, UE_BIT) {
                let b = buf[i];
                self.tx.push(b);
                proof {
                    assert(self.tx@ =~= old(self).tx@ + buf@.take(i + 1));
                }
                i = i + 1;
                t = 0;
            } else {
                if t > TIMEOUT {
                    proof {
                        assert(self.tx@ =~= old(self).tx@);
                    }
                    return Err(BusError::Timeout);
                }
                t = t + 1;
            }
        }
        proof {
            assert(buf@.take(i as int) =~= buf@);
        }

        // Transmission complete only rises while the block is enabled.
        let mut u: u32 = 0;
        while u <= TIMEOUT
            invariant_except_break
                u <= TIMEOUT + 1,
                self.regs == (UsartRegs {
                    cr1: old(self).regs.cr1 | TE_BIT,
                    ..old(self).regs
                }),
                self.rx@ == old(self).rx@,
                self.tx@ == old(self).tx@ + buf@,
                self.line_fault == old(self).line_fault,
                self.base == old(self).base,
                old(self).ue() == self.ue(),
                u > 0 ==> !self.ue(),
            ensures
                self.regs == (UsartRegs {
                    cr1: old(self).regs.cr1 | TE_BIT,
                    ..old(self).regs
                }),
                self.rx@ == old(self).rx@,
                self.tx@ == old(self).tx@ + buf@,
                self.line_fault == old(self).line_fault,
                self.base == old(self).base,
                old(self).ue() == self.ue(),
                u <= TIMEOUT ==> self.ue(),
                u > TIMEOUT ==> !self.ue(),
            decreases TIMEOUT + 1 - u,
        {
            if pointer::get_ptr_vol_bit_u32(&self.regs.cr1, UE_BIT) {
                break;
            }
            u = u + 1;
        }
        if u > TIMEOUT {
            return Err(BusError::Timeout);
        }

        let ghost w = self.regs.cr1;
        pointer::clr_ptr_vol_bit_u32(&mut self.regs.cr1, TE_BIT);
        Ok(buf.len())
    }

    /// The baud-rate register word for the asked line speed at the given
    /// input clock, split by oversampling factor.
    fn clock_setup(&self, baud: BaudRate, sclk_khz: u32, samp: OverSample) -> (div: u32)
        requires
            samp is Oversample16 ==> sclk_khz * SCLK_HZ <= u32::MAX,
            samp is Oversample8 ==> sclk_khz * SCLK_HZ * 2 <= u32::MAX,
        ensures
            div == spec_usart_div(spec_baud_value(baud), sclk_khz, samp),
    {
        match samp {
            OverSample::Oversample8 => {
                let baud_div = ((sclk_khz * SCLK_HZ) * 2) / baud_value(baud);
                (baud_div & !OVER8_MASK) | ((baud_div & OVER8_MASK) >> OVER8_SHIFT)
            },
            OverSample::Oversample16 => (sclk_khz * SCLK_HZ) / baud_value(baud),
        }
    }

    /// Write a flag-clear bit: the matching status flag goes down, the
    /// hardware's write-one-to-clear behaviour.
    fn clear_flags(&mut self, bits: u32)
        ensures
            final(self).regs.isr == (old(self).regs.isr & !bits),
            final(self).regs.icr == bits,
            final(self).regs == (UsartRegs {
                isr: final(self).regs.isr,
                icr: bits,
                ..old(self).regs
            }),
            final(self).rx@ == old(self).rx@,
            final(self).tx@ == old(self).tx@,
            final(self).line_fault == old(self).line_fault,
            final(self).base == old(self).base,
    {
        self.regs.icr = bits;
        pointer::clr_ptr_vol_bit_u32(&mut self.regs.isr, bits);
    }

    /// A condition pending on the line raises its status flag; the line
    /// is then clear again.
    fn raise_line_fault(&mut self)
        ensures
            final(self).regs.isr == (old(self).regs.isr | (match old(self).line_fault {
                Some(k) => fault_bits(k),
                None => 0u32,
            })),
            final(self).line_fault is None,
            final(self).regs == (UsartRegs { isr: final(self).regs.isr, ..old(self).regs }),
            final(self).rx@ == old(self).rx@,
            final(self).tx@ == old(self).tx@,
            final(self).base == old(self).base,
    {
        let bits: u32 = match self.line_fault {
            Some(FaultKind::FrameError) => FE_BIT,
            Some(FaultKind::Overrun) => ORE_BIT,
            Some(FaultKind::IdleLine) => IDLE_BIT,
            Some(_) => 0,
            None => 0,
        };
        self.line_fault = None;
        pointer::set_ptr_vol_bit_u32(&mut self.regs.isr, bits);
    }

    /// The line condition the status flags report, if any.
    fn fault_read(&self) -> (r: Option<FaultKind>)
        ensures
            r == fault_of(self.regs.isr),
    {
        if pointer::get_ptr_vol_bit_u32(&self.regs.isr, FE_BIT) {
            Some(FaultKind::FrameError)
        } else if pointer::get_ptr_vol_bit_u32(&self.regs.isr, IDLE_BIT) {
            Some(FaultKind::IdleLine)
        } else if pointer::get_ptr_vol_bit_u32(&self.regs.isr, ORE_BIT) {
            Some(FaultKind::Overrun)
        } else {
            None
        }
    }
}

} // verus!
