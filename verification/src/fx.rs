//! Signed binary fixed-point numbers with 48 fractional bits.
//!
//! All balances, prices, weights and health values are carried in this
//! representation: a value is `bits / 2^48`, held in an `i128`.  Addition and
//! subtraction of two such values are plain `i128` operations on the bit
//! representations and are implemented and verified here directly.
//! Multiplication needs a 256-bit intermediate product and is delegated to the
//! `fixed` crate's `I80F48` type, whose bit representation is identical.
//!
//! Every operation that can overflow the 128-bit representation is exposed in
//! a checked form; the contracts describe the result exactly in terms of the
//! bit representation.

use vstd::prelude::*;

use fixed::types::I80F48;

verus! {

/// The scale factor of the representation: 2^48.
pub const SCALE: i128 = 0x1_0000_0000_0000;

/// A fixed-point number with 48 fractional bits; the represented value is
/// `bits / 2^48`.
#[derive(Clone, Copy, Debug, PartialEq, Eq, Structural)]
pub struct Fx {
    pub bits: i128,
}

impl View for Fx {
    type V = int;

    open spec fn view(&self) -> int {
        self.bits as int
    }
}

/// Does a bit value fit the 128-bit representation?
pub open spec fn fits_bits(v: int) -> bool {
    i128::MIN <= v <= i128::MAX
}

/// The bit representation of the product of two fixed-point values: the exact
/// product of the bit representations, scaled back down with the quotient
/// rounded toward negative infinity.
pub open spec fn mul_down(a: int, b: int) -> int {
    (a * b) / (SCALE as int)
}

/// `Some(v)` when `v` fits the representation, `None` otherwise.
pub open spec fn checked(v: int) -> Option<int> {
    if fits_bits(v) {
        Some(v)
    } else {
        None
    }
}

pub open spec fn checked_add_val(a: int, b: int) -> Option<int> {
    checked(a + b)
}

pub open spec fn checked_sub_val(a: int, b: int) -> Option<int> {
    checked(a - b)
}

pub open spec fn checked_mul_val(a: int, b: int) -> Option<int> {
    checked(mul_down(a, b))
}

/// The bit value held by an optional result, for stating contracts of the
/// checked operations.
pub open spec fn opt_val(r: Option<Fx>) -> Option<int> {
    match r {
        Some(f) => Some(f@),
        None => None,
    }
}

impl Fx {
    pub fn zero() -> (r: Fx)
        ensures
            r@ == 0,
    {
        Fx { bits: 0 }
    }

    pub fn from_bits(bits: i128) -> (r: Fx)
        ensures
            r@ == bits,
    {
        Fx { bits }
    }

    pub fn to_bits(self) -> (r: i128)
        ensures
            r == self@,
    {
        self.bits
    }

    /// The exact fixed-point value of an unsigned native amount.
    pub fn from_u64(v: u64) -> (r: Fx)
        ensures
            r@ == v * SCALE,
    {
        Fx { bits: (v as i128) * SCALE }
    }

    /// The exact fixed-point value of a signed lot or native count.
    pub fn from_i64(v: i64) -> (r: Fx)
        ensures
            r@ == v * SCALE,
    {
        Fx { bits: (v as i128) * SCALE }
    }

    pub fn checked_add(self, other: Fx) -> (r: Option<Fx>)
        ensures
            opt_val(r) == checked_add_val(self@, other@),
    {
        match self.bits.checked_add(other.bits) {
            Some(bits) => Some(Fx { bits }),
            None => None,
        }
    }

    pub fn checked_sub(self, other: Fx) -> (r: Option<Fx>)
        ensures
            opt_val(r) == checked_sub_val(self@, other@),
    {
        match self.bits.checked_sub(other.bits) {
            Some(bits) => Some(Fx { bits }),
            None => None,
        }
    }

    /// Relies on `fixed::types::I80F48::checked_mul`: the result is the full
    /// 256-bit product of the two bit representations, arithmetically shifted
    /// right by 48 bits (the quotient rounded toward negative infinity), or
    /// `None` when that value does not fit in 128 bits.
    #[verifier::external_body]
    pub fn checked_mul(self, other: Fx) -> (r: Option<Fx>)
        ensures
            opt_val(r) == checked_mul_val(self@, other@),
    {
        I80F48::from_bits(self.bits)
            .checked_mul(I80F48::from_bits(other.bits))
            .map(|v| Fx { bits: v.to_bits() })
    }

    pub fn is_negative(self) -> (r: bool)
        ensures
            r == (self@ < 0),
    {
        self.bits < 0
    }

    pub fn is_positive(self) -> (r: bool)
        ensures
            r == (self@ > 0),
    {
        self.bits > 0
    }

    pub fn is_zero(self) -> (r: bool)
        ensures
            r == (self@ == 0),
    {
        self.bits == 0
    }

    /// The smaller of two values.
    pub fn min(self, other: Fx) -> (r: Fx)
        ensures
            r@ == if self@ <= other@ {
                self@
            } else {
                other@
            },
    {
        if self.bits <= other.bits {
            self
        } else {
            other
        }
    }
}

} // verus!
