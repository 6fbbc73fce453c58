//! The word-level register operations: bit set, bit clear, masked-field
//! read and write, on exact values.

use l552ze_hal::pointer;

#[test]
fn bit_test_set_and_clear() {
    let mut reg: u32 = 0;
    assert!(!pointer::get_ptr_vol_bit_u32(&reg, 0x4));
    pointer::set_ptr_vol_bit_u32(&mut reg, 0x4);
    assert_eq!(reg, 0x4);
    assert!(pointer::get_ptr_vol_bit_u32(&reg, 0x4));
    pointer::set_ptr_vol_bit_u32(&mut reg, 0x30);
    assert_eq!(reg, 0x34);
    pointer::clr_ptr_vol_bit_u32(&mut reg, 0x14);
    assert_eq!(reg, 0x20);
    assert!(!pointer::get_ptr_vol_bit_u32(&reg, 0x14));
}

#[test]
fn field_write_reads_back_and_spares_the_rest() {
    let mut reg: u32 = 0xFFFF_FFFF;
    pointer::set_ptr_vol_u32(&mut reg, 8, 0xFF, 0x3C);
    assert_eq!(pointer::get_ptr_vol_u32(&reg, 8, 0xFF), 0x3C);
    // Bits on both sides of the field keep their old value.
    assert_eq!(reg & 0xFF, 0xFF);
    assert_eq!(reg >> 16, 0xFFFF);

    pointer::set_ptr_vol_u32(&mut reg, 28, 0xF, 0x5);
    assert_eq!(pointer::get_ptr_vol_u32(&reg, 28, 0xF), 0x5);
    assert_eq!(pointer::get_ptr_vol_u32(&reg, 8, 0xFF), 0x3C);
}

#[test]
fn field_write_overwrites_in_place() {
    let mut reg: u32 = 0;
    pointer::set_ptr_vol_u32(&mut reg, 4, 0xF, 0xA);
    assert_eq!(reg, 0xA0);
    pointer::set_ptr_vol_u32(&mut reg, 4, 0xF, 0x3);
    assert_eq!(reg, 0x30);
}
