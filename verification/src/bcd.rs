//! Packed binary-coded decimal arithmetic for the decimal mode of the 6502.
//!
//! A packed BCD byte stores two decimal digits: the tens digit in the high
//! nibble (bits 7..4) and the units digit in the low nibble (bits 3..0).
//! The operations here are the pure helpers behind the decimal-mode variants
//! of the ADC and SBC instructions.

use vstd::prelude::*;

verus! {

use vstd::arithmetic::div_mod::lemma_fundamental_div_mod;
use vstd::arithmetic::div_mod::lemma_fundamental_div_mod_converse;

/// Error raised when a value outside `0..=99` is packed into a BCD byte.
#[derive(Debug)]
pub struct BcdConvertError {
    details: String,
}

impl View for BcdConvertError {
    type V = Seq<char>;

    closed spec fn view(&self) -> Seq<char> {
        self.details@
    }
}

impl BcdConvertError {
    pub fn new(msg: &str) -> (r: BcdConvertError)
        ensures
            r@ == msg@,
    {
        BcdConvertError { details: String::from_str(msg) }
    }

    /// The human-readable description carried by the error.
    pub fn message(&self) -> (m: &str)
        ensures
            m@ == self@,
    {
        self.details.as_str()
    }
}

/// The packed BCD byte holding tens digit `n / 10` and units digit `n % 10`.
pub open spec fn spec_from_dec(n: u8) -> u8 {
    ((n / 10) * 16 + n % 10) as u8
}

/// The decimal reading of a packed BCD byte: ten times the high nibble plus
/// the low nibble.
pub open spec fn spec_to_dec(b: u8) -> u8 {
    ((b / 16) * 10 + b % 16) as u8
}

/// Nibble-by-nibble decimal addition with carry in and carry out, exactly as
/// the 6502 performs it in decimal mode.  Defined for every byte; the result
/// is only a meaningful decimal number when both inputs are valid BCD.
pub open spec fn spec_bcd_add(a: u8, b: u8, carry: bool) -> (u8, bool) {
    let low0 = a % 16 + b % 16 + (if carry {
        1int
    } else {
        0int
    });
    let low = if low0 > 9 {
        low0 - 10
    } else {
        low0
    };
    let high0 = a / 16 + b / 16 + (if low0 > 9 {
        1int
    } else {
        0int
    });
    let over = high0 > 9;
    let high = if over {
        high0 - 10
    } else {
        high0
    };
    (((high * 16 + low) % 256) as u8, over)
}

/// Nibble-by-nibble decimal subtraction where `carry == true` means
/// "no borrow" on the way in, and a `true` result flag means a borrow
/// happened.  Wrapping on pathological (non-BCD) input mirrors the nibble
/// arithmetic and stays deterministic.
pub open spec fn spec_bcd_sub(a: u8, b: u8, carry: bool) -> (u8, bool) {
    let bl = (b % 16 + (if carry {
        0int
    } else {
        1int
    })) as u8;
    let al = (a % 16) as u8;
    let low_borrow = al < bl;
    let low = if low_borrow {
        al.wrapping_sub(bl).wrapping_add(10)
    } else {
        (al - bl) as u8
    };
    let ah = (a / 16) as u8;
    let bh = (b / 16) as u8;
    let high1 = ah.wrapping_sub(bh);
    let high2 = if low_borrow {
        high1.wrapping_sub(1)
    } else {
        high1
    };
    let borrow = ah < bh || (low_borrow && high1 == 0);
    let high = if borrow {
        high2.wrapping_add(10)
    } else {
        high2
    };
    (((high * 16 + low) % 256) as u8, borrow)
}

/// Packed-BCD operations on a byte.
pub trait BcdOps: Sized {
    /// Decimal addition of two packed BCD bytes with carry in; the flag is
    /// the decimal carry out.
    fn overflowing_add_bcd(&self, value: &u8, carry: &bool) -> (u8, bool);

    /// Decimal subtraction of two packed BCD bytes, where the incoming flag
    /// `true` means "no borrow" and the outgoing flag `true` means a borrow
    /// happened.
    fn overflowing_sub_bcd(&self, value: &u8, carry: &bool) -> (u8, bool);

    /// Packs a decimal value `0..=99` into a BCD byte.
    fn from_dec(value: &u8) -> Result<u8, BcdConvertError>;

    /// Reads a packed BCD byte back as a decimal value.
    fn to_dec(&self) -> u8;
}

impl BcdOps for u8 {
    fn overflowing_add_bcd(&self, value: &u8, carry: &bool) -> (r: (u8, bool))
        ensures
            r == spec_bcd_add(*self, *value, *carry),
    {
        let mut low: u8 = *self % 16 + *value % 16 + (if *carry {
            1
        } else {
            0
        });
        let mut high: u8 = *self / 16 + *value / 16;
        if low > 9 {
            low = low - 10;
            high = high + 1;
        }
        let mut overflow = false;
        if high > 9 {
            high = high - 10;
            overflow = true;
        }
        let packed: u16 = (high as u16 * 16 + low as u16) % 256;
        (packed as u8, overflow)
    }

    fn overflowing_sub_bcd(&self, value: &u8, carry: &bool) -> (r: (u8, bool))
        ensures
            r == spec_bcd_sub(*self, *value, *carry),
    {
        let bl: u8 = *value % 16 + (if *carry {
            0
        } else {
            1
        });
        let al: u8 = *self % 16;
        let low_borrow = al < bl;
        let low: u8 = if low_borrow {
            al.wrapping_sub(bl).wrapping_add(10)
        } else {
            al - bl
        };
        let ah: u8 = *self / 16;
        let bh: u8 = *value / 16;
        let high1 = ah.wrapping_sub(bh);
        let high2 = if low_borrow {
            high1.wrapping_sub(1)
        } else {
            high1
        };
        let borrow = ah < bh || (low_borrow && high1 == 0);
        let high: u8 = if borrow {
            high2.wrapping_add(10)
        } else {
            high2
        };
        let packed: u16 = (high as u16 * 16 + low as u16) % 256;
        (packed as u8, borrow)
    }

    fn from_dec(value: &u8) -> (r: Result<u8, BcdConvertError>)
        ensures
            *value <= 99 ==> (r matches Ok(v) && v == spec_from_dec(*value)),
            *value > 99 ==> r is Err,
    {
        let high = *value / 10;
        let low = *value % 10;
        if high > 9 {
            return Err(BcdConvertError::new("Binary-coded decimal must be between 0x00 and 0x99!"));
        }
        Ok(high * 16 + low)
    }

    fn to_dec(&self) -> (r: u8)
        ensures
            r == spec_to_dec(*self),
    {
        (*self / 16) * 10 + *self % 16
    }
}

/// Unpacking a packed pair of digits recovers both digits.
proof fn lemma_pack_unpack(hi: int, lo: int)
    requires
        0 <= hi <= 9,
        0 <= lo <= 9,
    ensures
        (hi * 16 + lo) as u8 / 16 == hi,
        (hi * 16 + lo) as u8 % 16 == lo,
{
    lemma_fundamental_div_mod_converse(hi * 16 + lo, 16, hi, lo);
}

/// Packing a decimal value `0..=99` and reading it back is the identity.
pub proof fn lemma_bcd_round_trip(n: u8)
    requires
        n <= 99,
    ensures
        spec_to_dec(spec_from_dec(n)) == n,
{
    lemma_fundamental_div_mod(n as int, 10);
    lemma_pack_unpack(n as int / 10, n as int % 10);
}

/// Decimal addition is exact: reading the packed result back and weighting
/// the carry by one hundred recovers the arithmetic sum of the inputs.
pub proof fn lemma_bcd_add_with_carry(a: u8, b: u8, c: bool)
    requires
        a <= 99,
        b <= 99,
    ensures
        ({
            let (r, co) = spec_bcd_add(spec_from_dec(a), spec_from_dec(b), c);
            spec_to_dec(r) + (if co {
                100int
            } else {
                0int
            }) == a + b + (if c {
                1int
            } else {
                0int
            })
        }),
{
    lemma_fundamental_div_mod(a as int, 10);
    lemma_fundamental_div_mod(b as int, 10);
    lemma_pack_unpack(a as int / 10, a as int % 10);
    lemma_pack_unpack(b as int / 10, b as int % 10);
    let pa = spec_from_dec(a);
    let pb = spec_from_dec(b);
    let low0 = pa % 16 + pb % 16 + (if c {
        1int
    } else {
        0int
    });
    let low = if low0 > 9 {
        low0 - 10
    } else {
        low0
    };
    let high0 = pa / 16 + pb / 16 + (if low0 > 9 {
        1int
    } else {
        0int
    });
    let high = if high0 > 9 {
        high0 - 10
    } else {
        high0
    };
    assert((high * 16 + low) % 256 == high * 16 + low) by {
        lemma_fundamental_div_mod_converse(high * 16 + low, 256, 0, high * 16 + low);
    }
    lemma_pack_unpack(high, low);
}

/// Decimal subtraction is exact under the "carry in means no borrow"
/// convention: the packed result plus one hundred when a borrow happened
/// recovers the arithmetic difference.
pub proof fn lemma_bcd_sub_with_carry(a: u8, b: u8, c: bool)
    requires
        a <= 99,
        b <= 99,
    ensures
        ({
            let (r, bo) = spec_bcd_sub(spec_from_dec(a), spec_from_dec(b), c);
            spec_to_dec(r) - (if bo {
                100int
            } else {
                0int
            }) == a - b - (if c {
                0int
            } else {
                1int
            })
        }),
{
    lemma_fundamental_div_mod(a as int, 10);
    lemma_fundamental_div_mod(b as int, 10);
    lemma_pack_unpack(a as int / 10, a as int % 10);
    lemma_pack_unpack(b as int / 10, b as int % 10);
    let pa = spec_from_dec(a);
    let pb = spec_from_dec(b);
    let bl = (pb % 16 + (if c {
        0int
    } else {
        1int
    })) as u8;
    let al = (pa % 16) as u8;
    let low_borrow = al < bl;
    let low = if low_borrow {
        al.wrapping_sub(bl).wrapping_add(10)
    } else {
        (al - bl) as u8
    };
    let ah = (pa / 16) as u8;
    let bh = (pb / 16) as u8;
    let high1 = ah.wrapping_sub(bh);
    let high2 = if low_borrow {
        high1.wrapping_sub(1)
    } else {
        high1
    };
    let borrow = ah < bh || (low_borrow && high1 == 0);
    let high = if borrow {
        high2.wrapping_add(10)
    } else {
        high2
    };
    assert(high <= 9 && low <= 9);
    assert((high * 16 + low) % 256 == high * 16 + low) by {
        lemma_fundamental_div_mod_converse(high as int * 16 + low, 256, 0, high as int * 16 + low);
    }
    lemma_pack_unpack(high as int, low as int);
}

} // verus!
