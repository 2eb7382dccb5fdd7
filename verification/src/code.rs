//! The two error-code value types and their conversion, negation and
//! comparison semantics.

use vstd::prelude::*;

verus! {

/// A positive operating-system error number (an errno).
///
/// The stored magnitude is never zero: zero conventionally means "no error"
/// and is unrepresentable in this type.
#[derive(Clone, Copy, PartialEq, Eq, Structural, Debug, Hash)]
pub struct ErrorCode {
    code: u16,
}

/// The negated form of an error code: the mathematical value `-(magnitude)`.
///
/// System calls that return `-errno` on failure are modelled by this type.
/// It cannot be constructed directly; the only way to obtain one is to negate
/// an [`ErrorCode`], so its magnitude is always a valid positive errno.
#[derive(Clone, Copy, PartialEq, Eq, Structural, Debug, Hash)]
pub struct NegErrorCode {
    code: u16,
}

impl ErrorCode {
    #[verifier::type_invariant]
    spec fn inv(self) -> bool {
        self.code != 0
    }

    /// The positive numeric value stored in this code.
    pub closed spec fn magnitude(self) -> u16 {
        self.code
    }

    /// The negated form of this code, at the specification level.
    pub closed spec fn spec_neg(self) -> NegErrorCode {
        NegErrorCode { code: self.code }
    }

    /// Wraps a non-zero 16-bit value as an error code.
    pub fn new(n: u16) -> (r: ErrorCode)
        requires
            n != 0,
        ensures
            r.magnitude() == n,
            r.magnitude() != 0,
    {
        ErrorCode { code: n }
    }

    /// Negates this code, yielding the `-errno` form of the same magnitude.
    pub fn negate(self) -> (r: NegErrorCode)
        ensures
            r == self.spec_neg(),
            r.magnitude() == self.magnitude(),
            r.magnitude() != 0,
    {
        proof {
            use_type_invariant(self);
        }
        NegErrorCode { code: self.code }
    }

    /// The magnitude as a 16-bit unsigned integer; it is never zero.
    pub fn as_u16(self) -> (r: u16)
        ensures
            r == self.magnitude(),
            r != 0,
    {
        proof {
            use_type_invariant(self);
        }
        self.code
    }

    /// The magnitude widened to a 32-bit unsigned integer.
    pub fn as_u32(self) -> (r: u32)
        ensures
            r == self.magnitude() as u32,
    {
        self.code as u32
    }

    /// The magnitude widened to a 64-bit unsigned integer.
    pub fn as_u64(self) -> (r: u64)
        ensures
            r == self.magnitude() as u64,
    {
        self.code as u64
    }

    /// The magnitude widened to a pointer-sized unsigned integer.
    pub fn as_usize(self) -> (r: usize)
        ensures
            r == self.magnitude() as usize,
    {
        self.code as usize
    }

    /// The magnitude widened to a 32-bit signed integer.
    pub fn as_i32(self) -> (r: i32)
        ensures
            r == self.magnitude() as i32,
    {
        self.code as i32
    }

    /// The magnitude widened to a 64-bit signed integer.
    pub fn as_i64(self) -> (r: i64)
        ensures
            r == self.magnitude() as i64,
    {
        self.code as i64
    }

    /// The magnitude widened to a pointer-sized signed integer.
    pub fn as_isize(self) -> (r: isize)
        ensures
            r == self.magnitude() as isize,
    {
        self.code as isize
    }

    /// Equality against a 16-bit unsigned value: true exactly when the value
    /// equals the magnitude.
    pub fn eq_u16(self, x: u16) -> (r: bool)
        ensures
            r <==> x == self.magnitude(),
    {
        self.code == x
    }

    /// Equality against a 32-bit unsigned value.
    pub fn eq_u32(self, x: u32) -> (r: bool)
        ensures
            r <==> x as int == self.magnitude() as int,
    {
        self.code as u32 == x
    }

    /// Equality against a 64-bit unsigned value.
    pub fn eq_u64(self, x: u64) -> (r: bool)
        ensures
            r <==> x as int == self.magnitude() as int,
    {
        self.code as u64 == x
    }

    /// Equality against a pointer-sized unsigned value.
    pub fn eq_usize(self, x: usize) -> (r: bool)
        ensures
            r <==> x as int == self.magnitude() as int,
    {
        self.code as usize == x
    }

    /// Equality against a 16-bit signed value: true exactly when the value is
    /// strictly positive and equals the magnitude. A positive error code
    /// never equals zero or a negative number.
    pub fn eq_i16(self, x: i16) -> (r: bool)
        ensures
            r <==> (x > 0 && x as int == self.magnitude() as int),
    {
        x > 0 && x as i32 == self.code as i32
    }

    /// Equality against a 32-bit signed value, with the same sign discipline.
    pub fn eq_i32(self, x: i32) -> (r: bool)
        ensures
            r <==> (x > 0 && x as int == self.magnitude() as int),
    {
        x > 0 && x == self.code as i32
    }

    /// Equality against a 64-bit signed value, with the same sign discipline.
    pub fn eq_i64(self, x: i64) -> (r: bool)
        ensures
            r <==> (x > 0 && x as int == self.magnitude() as int),
    {
        x > 0 && x == self.code as i64
    }

    /// Equality against a pointer-sized signed value, with the same sign
    /// discipline.
    pub fn eq_isize(self, x: isize) -> (r: bool)
        ensures
            r <==> (x > 0 && x as int == self.magnitude() as int),
    {
        x > 0 && x == self.code as isize
    }
}

impl NegErrorCode {
    #[verifier::type_invariant]
    spec fn inv(self) -> bool {
        self.code != 0
    }

    /// The positive magnitude; the value this type denotes is its negation.
    pub closed spec fn magnitude(self) -> u16 {
        self.code
    }

    /// The positive form of this code, at the specification level.
    pub closed spec fn spec_neg(self) -> ErrorCode {
        ErrorCode { code: self.code }
    }

    /// Negates this code, recovering the positive [`ErrorCode`] of the same
    /// magnitude.
    pub fn negate(self) -> (r: ErrorCode)
        ensures
            r == self.spec_neg(),
            r.magnitude() == self.magnitude(),
            r.magnitude() != 0,
    {
        proof {
            use_type_invariant(self);
        }
        ErrorCode { code: self.code }
    }

    /// The magnitude as a 16-bit unsigned integer; it is never zero.
    pub fn as_u16(self) -> (r: u16)
        ensures
            r == self.magnitude(),
            r != 0,
    {
        proof {
            use_type_invariant(self);
        }
        self.code
    }

    /// Equality against a 16-bit unsigned value: constantly false. A negative
    /// mathematical value never equals any unsigned representation.
    pub fn eq_u16(self, _x: u16) -> (r: bool)
        ensures
            r == false,
    {
        false
    }

    /// Equality against a 32-bit unsigned value: constantly false.
    pub fn eq_u32(self, _x: u32) -> (r: bool)
        ensures
            r == false,
    {
        false
    }

    /// Equality against a 64-bit unsigned value: constantly false.
    pub fn eq_u64(self, _x: u64) -> (r: bool)
        ensures
            r == false,
    {
        false
    }

    /// Equality against a pointer-sized unsigned value: constantly false.
    pub fn eq_usize(self, _x: usize) -> (r: bool)
        ensures
            r == false,
    {
        false
    }

    /// Equality against a 16-bit signed value: true exactly when the value is
    /// strictly negative and its additive inverse equals the magnitude.
    pub fn eq_i16(self, x: i16) -> (r: bool)
        ensures
            r <==> (x < 0 && x as int == -(self.magnitude() as int)),
    {
        x < 0 && x as i32 == -(self.code as i32)
    }

    /// Equality against a 32-bit signed value, with the same sign discipline.
    pub fn eq_i32(self, x: i32) -> (r: bool)
        ensures
            r <==> (x < 0 && x as int == -(self.magnitude() as int)),
    {
        x < 0 && x == -(self.code as i32)
    }

    /// Equality against a 64-bit signed value, with the same sign discipline.
    pub fn eq_i64(self, x: i64) -> (r: bool)
        ensures
            r <==> (x < 0 && x as int == -(self.magnitude() as int)),
    {
        x < 0 && x == -(self.code as i64)
    }

    /// Equality against a pointer-sized signed value, with the same sign
    /// discipline.
    pub fn eq_isize(self, x: isize) -> (r: bool)
        ensures
            r <==> (x < 0 && x as int == -(self.magnitude() as int)),
    {
        x < 0 && x == -(self.code as isize)
    }
}

/// Negation is a self-inverse on positive codes: negating twice reproduces
/// the original value, and negation preserves the magnitude.
pub proof fn lemma_negate_involution(c: ErrorCode)
    ensures
        c.spec_neg().spec_neg() == c,
        c.spec_neg().magnitude() == c.magnitude(),
{
}

/// Negation is a self-inverse on negated codes as well.
pub proof fn lemma_negate_involution_neg(n: NegErrorCode)
    ensures
        n.spec_neg().spec_neg() == n,
        n.spec_neg().magnitude() == n.magnitude(),
{
}

/// Same-type equality is identity of the underlying magnitude.
pub proof fn lemma_eq_is_magnitude_eq(a: ErrorCode, b: ErrorCode)
    ensures
        a == b <==> a.magnitude() == b.magnitude(),
{
}

/// Same-type equality of negated codes is identity of the magnitude too.
pub proof fn lemma_neg_eq_is_magnitude_eq(a: NegErrorCode, b: NegErrorCode)
    ensures
        a == b <==> a.magnitude() == b.magnitude(),
{
}

} // verus!
