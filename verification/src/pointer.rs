//! Word-level register access: bit set, bit clear, and masked-field read and
//! write against a single register cell, together with the bit-vector lemmas
//! that relate a masked-field write to what each field of the cell reads
//! afterwards.  Every higher driver goes through these operations.

use vstd::prelude::*;

verus! {

/// The value of the field of width `mask` at bit position `offset`.
pub open spec fn field(reg: u32, offset: u32, mask: u32) -> u32 {
    (reg >> offset) & mask
}

/// Whether any bit of `mask` is set in `reg`.
pub open spec fn bit_set(reg: u32, mask: u32) -> bool {
    reg & mask != 0
}

/// The register value after writing `val` into the field of width `mask` at
/// bit position `offset`, leaving every other bit unchanged.
pub open spec fn field_written(reg: u32, offset: u32, mask: u32, val: u32) -> u32 {
    (reg & !(mask << offset)) | (val << offset)
}

/// Whether a bit test on `mask` reads any set bit.
pub fn get_ptr_vol_bit_u32(reg: &u32, val: u32) -> (r: bool)
    ensures
        r == bit_set(*reg, val),
{
    if (*reg & val) > 0 {
        true
    } else {
        false
    }
}

/// Read-modify-write that sets every bit of `val`.
pub fn set_ptr_vol_bit_u32(reg: &mut u32, val: u32)
    ensures
        *final(reg) == (*old(reg) | val),
{
    *reg = *reg | val;
}

/// Read-modify-write that clears every bit of `val`.
pub fn clr_ptr_vol_bit_u32(reg: &mut u32, val: u32)
    ensures
        *final(reg) == (*old(reg) & !val),
{
    *reg = *reg & !val;
}

/// Read of the field of width `mask` at bit position `offset`.
pub fn get_ptr_vol_u32(reg: &u32, offset: u32, mask: u32) -> (r: u32)
    requires
        offset < 32,
    ensures
        r == field(*reg, offset, mask),
{
    (*reg >> offset) & mask
}

/// Read-modify-write of the field of width `mask` at bit position `offset`:
/// the field bits are cleared, then `val` is shifted into place.
pub fn set_ptr_vol_u32(reg: &mut u32, offset: u32, mask: u32, val: u32)
    requires
        offset < 32,
        val & mask == val,
    ensures
        *final(reg) == field_written(*old(reg), offset, mask, val),
{
    let mut word = *reg;
    word = word & !(mask << offset);
    word = word | (val << offset);
    *reg = word;
}

/// After a bit set, every bit of the written mask reads set.
pub proof fn lemma_or_sets(r: u32, b: u32)
    by (bit_vector)
    requires
        b != 0,
    ensures
        bit_set(r | b, b),
{
}

/// A bit set leaves bits outside the written mask unchanged.
pub proof fn lemma_or_preserves_bits(r: u32, b: u32, c: u32)
    by (bit_vector)
    requires
        b & c == 0,
    ensures
        ((r | b) & c) == (r & c),
{
}

/// A bit set leaves fields disjoint from the written mask unchanged.
pub proof fn lemma_or_preserves_field(r: u32, b: u32, o: u32, m: u32)
    by (bit_vector)
    requires
        b & (m << o) == 0,
        o < 32,
    ensures
        field(r | b, o, m) == field(r, o, m),
{
}

/// After a bit clear, every bit of the written mask reads clear.
pub proof fn lemma_andnot_clears(r: u32, b: u32)
    by (bit_vector)
    ensures
        !bit_set(r & !b, b),
{
}

/// A bit clear leaves bits outside the written mask unchanged.
pub proof fn lemma_andnot_preserves_bits(r: u32, b: u32, c: u32)
    by (bit_vector)
    requires
        b & c == 0,
    ensures
        ((r & !b) & c) == (r & c),
{
}

/// A bit clear leaves fields disjoint from the written mask unchanged.
pub proof fn lemma_andnot_preserves_field(r: u32, b: u32, o: u32, m: u32)
    by (bit_vector)
    requires
        b & (m << o) == 0,
        o < 32,
    ensures
        field(r & !b, o, m) == field(r, o, m),
{
}

/// A field write reads back as the written value, provided the field fits
/// the word: shifting the mask into place and back must lose no bit.
pub proof fn lemma_field_written_reads_back(r: u32, o: u32, m: u32, v: u32)
    by (bit_vector)
    requires
        o < 32,
        v & m == v,
        ((m << o) >> o) == m,
    ensures
        field(field_written(r, o, m, v), o, m) == v,
{
}

/// A field write leaves bits outside the shifted mask unchanged.
pub proof fn lemma_field_written_preserves_bits(r: u32, o: u32, m: u32, v: u32, c: u32)
    by (bit_vector)
    requires
        o < 32,
        v & m == v,
        ((m << o) & c) == 0,
    ensures
        (field_written(r, o, m, v) & c) == (r & c),
{
}

/// A field write leaves fields disjoint from the shifted mask unchanged.
pub proof fn lemma_field_written_preserves_field(r: u32, o: u32, m: u32, v: u32, o2: u32, m2: u32)
    by (bit_vector)
    requires
        o < 32,
        o2 < 32,
        v & m == v,
        ((m << o) & (m2 << o2)) == 0,
    ensures
        field(field_written(r, o, m, v), o2, m2) == field(r, o2, m2),
{
}

} // verus!

