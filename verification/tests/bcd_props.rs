//! Exhaustive checks of the packed-BCD helpers over their whole valid range.

use mos6502::bcd::BcdOps;

#[test]
fn from_dec_packs_digits() {
    assert_eq!(u8::from_dec(&0).unwrap(), 0x00);
    assert_eq!(u8::from_dec(&9).unwrap(), 0x09);
    assert_eq!(u8::from_dec(&10).unwrap(), 0x10);
    assert_eq!(u8::from_dec(&42).unwrap(), 0x42);
    assert_eq!(u8::from_dec(&99).unwrap(), 0x99);
}

#[test]
fn from_dec_rejects_values_over_ninety_nine() {
    assert!(u8::from_dec(&100).is_err());
    assert!(u8::from_dec(&255).is_err());
    let err = u8::from_dec(&200).unwrap_err();
    assert_eq!(err.message(), "Binary-coded decimal must be between 0x00 and 0x99!");
}

#[test]
fn to_dec_unpacks_digits() {
    assert_eq!(0x00u8.to_dec(), 0);
    assert_eq!(0x25u8.to_dec(), 25);
    assert_eq!(0x99u8.to_dec(), 99);
}

#[test]
fn round_trip_all_two_digit_values() {
    for n in 0u8..=99 {
        let packed = u8::from_dec(&n).unwrap();
        assert_eq!(packed.to_dec(), n);
    }
}

#[test]
fn add_with_carry_concrete() {
    // 25 + 48 = 73, no decimal carry.
    let (r, c) = 0x25u8.overflowing_add_bcd(&0x48, &false);
    assert_eq!(r, 0x73);
    assert!(!c);
    // 99 + 1 carries out of the byte.
    let (r, c) = 0x99u8.overflowing_add_bcd(&0x01, &false);
    assert_eq!(r, 0x00);
    assert!(c);
    // Carry in participates: 58 + 46 + 1 = 105.
    let (r, c) = 0x58u8.overflowing_add_bcd(&0x46, &true);
    assert_eq!(r, 0x05);
    assert!(c);
}

#[test]
fn add_with_carry_is_exact_for_all_decimal_inputs() {
    for a in 0u8..=99 {
        for b in 0u8..=99 {
            for carry in [false, true] {
                let pa = u8::from_dec(&a).unwrap();
                let pb = u8::from_dec(&b).unwrap();
                let (r, c) = pa.overflowing_add_bcd(&pb, &carry);
                let total = r.to_dec() as u16 + if c { 100 } else { 0 };
                assert_eq!(total, a as u16 + b as u16 + if carry { 1 } else { 0 });
            }
        }
    }
}

#[test]
fn sub_with_carry_concrete() {
    // 44 - 29 with no incoming borrow.
    let (r, borrow) = 0x44u8.overflowing_sub_bcd(&0x29, &true);
    assert_eq!(r, 0x15);
    assert!(!borrow);
    // 3 - 5 borrows and wraps to 98.
    let (r, borrow) = 0x03u8.overflowing_sub_bcd(&0x05, &true);
    assert_eq!(r, 0x98);
    assert!(borrow);
}

#[test]
fn sub_with_carry_is_exact_for_all_decimal_inputs() {
    for a in 0u8..=99 {
        for b in 0u8..=99 {
            for carry in [false, true] {
                let pa = u8::from_dec(&a).unwrap();
                let pb = u8::from_dec(&b).unwrap();
                let (r, borrow) = pa.overflowing_sub_bcd(&pb, &carry);
                let lhs = r.to_dec() as i32 - if borrow { 100 } else { 0 };
                let rhs = a as i32 - b as i32 - if carry { 0 } else { 1 };
                assert_eq!(lhs, rhs);
            }
        }
    }
}
