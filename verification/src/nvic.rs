//! Interrupt controller: enables an interrupt line and programs its
//! priority, addressing a flat line-index space as a register index and a
//! bit within it for enabling, and a single priority byte per line.  An
//! index beyond the supported lines is reported to the caller as an
//! explicit out-of-range error, never dropped in silence.

use vstd::prelude::*;

use crate::common::BusError;
use crate::pointer;

verus! {

/// Image of the interrupt controller's register arrays.
pub struct NVICReg {
    pub iser: Vec<u32>,  // Interrupt Set-Enable registers
    pub icer: Vec<u32>,  // Interrupt Clear-Enable registers
    pub ispr: Vec<u32>,  // Interrupt Set-Pending registers
    pub icpr: Vec<u32>,  // Interrupt Clear-Pending registers
    pub iabr: Vec<u32>,  // Interrupt Active Bit registers
    pub itns: Vec<u32>,  // Interrupt Target Non-Secure registers
    pub ipr: Vec<u8>,    // Interrupt Priority registers, one byte a line
}

/// Handle over the interrupt controller.
pub struct Nvic {
    /// Base address the handle was resolved from.
    pub base: u32,
    /// Image of the register arrays.
    pub registers: NVICReg,
}

/// Bits per enable word.
pub const U32SIZE: u32 = 32;

/// Words in each enable register array.
pub const ARRAYU32SIZE: usize = 16;

/// Priority bytes, one per supported interrupt line.
pub const ARRAYU8SIZE: u32 = 480;

/// The supported interrupt lines: indices 0 up to this bound.
pub const IRQ_LINES: u32 = 480;

impl Nvic {
    /// Well-formedness: the register arrays have their hardware sizes.
    pub open spec fn wf(self) -> bool {
        &&& self.registers.iser@.len() == ARRAYU32SIZE
        &&& self.registers.icer@.len() == ARRAYU32SIZE
        &&& self.registers.ispr@.len() == ARRAYU32SIZE
        &&& self.registers.icpr@.len() == ARRAYU32SIZE
        &&& self.registers.iabr@.len() == ARRAYU32SIZE
        &&& self.registers.itns@.len() == ARRAYU32SIZE
        &&& self.registers.ipr@.len() == ARRAYU8SIZE
    }

    /// Resolve a handle from the controller's base address; every enable
    /// word and priority byte starts out clear.
    pub fn init(base: u32) -> (r: Nvic)
        ensures
            r.wf(),
            r.base == base,
            forall|j: int| 0 <= j < ARRAYU32SIZE ==> r.registers.iser@[j] == 0,
            forall|j: int| 0 <= j < ARRAYU8SIZE ==> r.registers.ipr@[j] == 0,
    {
        Nvic {
            base,
            registers: NVICReg {
                iser: make_words(),
                icer: make_words(),
                ispr: make_words(),
                icpr: make_words(),
                iabr: make_words(),
                itns: make_words(),
                ipr: make_priority_bytes(),
            },
        }
    }

    /// Enable interrupt line `irq_num`: the bit `irq_num` modulo 32 of
    /// set-enable word `irq_num` over 32 goes up, every other bit and
    /// word stays.  A line beyond the supported range is refused.
    pub fn set_interrupt(&mut self, irq_num: u32) -> (r: Result<(), BusError>)
        requires
            old(self).wf(),
        ensures
            final(self).wf(),
            irq_num < IRQ_LINES ==> r is Ok && final(self).registers.iser@ == old(
                self,
            ).registers.iser@.update(
                irq_num as int / U32SIZE as int,
                old(self).registers.iser@[irq_num as int / U32SIZE as int] | (1u32 << (irq_num
                    % U32SIZE)),
            ),
            irq_num >= IRQ_LINES ==> r == Result::<(), BusError>::Err(BusError::OutOfRange)
                && final(self).registers.iser@ == old(self).registers.iser@,
            final(self).registers.icer@ == old(self).registers.icer@,
            final(self).registers.ispr@ == old(self).registers.ispr@,
            final(self).registers.icpr@ == old(self).registers.icpr@,
            final(self).registers.iabr@ == old(self).registers.iabr@,
            final(self).registers.itns@ == old(self).registers.itns@,
            final(self).registers.ipr@ == old(self).registers.ipr@,
            final(self).base == old(self).base,
    {
        if irq_num >= IRQ_LINES {
            return Err(BusError::OutOfRange);
        }
        let reg = self.get_reg(irq_num);
        let bit = self.get_bit(irq_num);
        let word = &mut self.registers.iser[reg];
        pointer::set_ptr_vol_bit_u32(word, bit);
        Ok(())
    }

    /// Program interrupt line `irq_num`'s priority byte: the priority in
    /// the high bits, the masked sub-priority below it.  A line beyond
    /// the supported range is refused.
    pub fn set_priority(&mut self, irq_num: u32, priority: u8, sub_priority: u8) -> (r: Result<
        (),
        BusError,
    >)
        requires
            old(self).wf(),
        ensures
            final(self).wf(),
            irq_num < IRQ_LINES ==> r is Ok && final(self).registers.ipr@ == old(
                self,
            ).registers.ipr@.update(
                irq_num as int,
                ((priority << 6) | ((sub_priority & 3) << 4)) as u8,
            ),
            irq_num >= IRQ_LINES ==> r == Result::<(), BusError>::Err(BusError::OutOfRange)
                && final(self).registers.ipr@ == old(self).registers.ipr@,
            final(self).registers.iser@ == old(self).registers.iser@,
            final(self).registers.icer@ == old(self).registers.icer@,
            final(self).registers.ispr@ == old(self).registers.ispr@,
            final(self).registers.icpr@ == old(self).registers.icpr@,
            final(self).registers.iabr@ == old(self).registers.iabr@,
            final(self).registers.itns@ == old(self).registers.itns@,
            final(self).base == old(self).base,
    {
        if irq_num >= IRQ_LINES {
            return Err(BusError::OutOfRange);
        }
        let byte = self.get_priority(priority, sub_priority);
        self.registers.ipr[irq_num as usize] = byte;
        Ok(())
    }

    /// The set-enable word a line lives in.
    fn get_reg(&self, irq_num: u32) -> (r: usize)
        ensures
            r == irq_num as int / U32SIZE as int,
    {
        (irq_num / U32SIZE) as usize
    }

    /// The bit a line occupies within its set-enable word.
    fn get_bit(&self, irq_num: u32) -> (r: u32)
        ensures
            r == 1u32 << (irq_num % U32SIZE),
    {
        1 << (irq_num % U32SIZE)
    }

    /// The priority byte: priority in the high bits, the two sub-priority
    /// bits below it.
    fn get_priority(&self, priority: u8, sub_priority: u8) -> (r: u8)
        ensures
            r == ((priority << 6) | ((sub_priority & 3) << 4)) as u8,
    {
        (priority << 6) | ((sub_priority & 3) << 4)
    }
}

/// One cleared enable-register array.
fn make_words() -> (r: Vec<u32>)
    ensures
        r@.len() == ARRAYU32SIZE,
        forall|j: int| 0 <= j < ARRAYU32SIZE ==> r@[j] == 0,
{
    let mut v: Vec<u32> = Vec::new();
    let mut i: usize = 0;
    while i < ARRAYU32SIZE
        invariant
            i <= ARRAYU32SIZE,
            v@.len() == i,
            forall|j: int| 0 <= j < i ==> v@[j] == 0,
        decreases ARRAYU32SIZE - i,
    {
        v.push(0);
        i = i + 1;
    }
    v
}

/// The cleared priority-byte array.
fn make_priority_bytes() -> (r: Vec<u8>)
    ensures
        r@.len() == ARRAYU8SIZE,
        forall|j: int| 0 <= j < ARRAYU8SIZE ==> r@[j] == 0,
{
    let mut v: Vec<u8> = Vec::new();
    let mut i: usize = 0;
    while i < 480
        invariant
            i <= 480,
            v@.len() == i,
            forall|j: int| 0 <= j < i ==> v@[j] == 0,
        decreases 480 - i,
    {
        v.push(0);
        i = i + 1;
    }
    v
}

} // verus!
