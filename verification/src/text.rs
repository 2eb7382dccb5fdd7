//! Textual rendering of error codes in decimal, binary and hexadecimal.
//!
//! A positive code prints its magnitude; a negated code prints a leading
//! minus sign followed by the magnitude, in every base — the sign is applied
//! to the mathematical value, never folded into a two's-complement bit
//! pattern.

use vstd::prelude::*;

use crate::code::ErrorCode;
use crate::code::NegErrorCode;

verus! {

/// The character for one digit value, in lower or upper case.
pub open spec fn digit_char(d: nat, upper: bool) -> char {
    if d == 0 {
        '0'
    } else if d == 1 {
        '1'
    } else if d == 2 {
        '2'
    } else if d == 3 {
        '3'
    } else if d == 4 {
        '4'
    } else if d == 5 {
        '5'
    } else if d == 6 {
        '6'
    } else if d == 7 {
        '7'
    } else if d == 8 {
        '8'
    } else if d == 9 {
        '9'
    } else if d == 10 {
        if upper { 'A' } else { 'a' }
    } else if d == 11 {
        if upper { 'B' } else { 'b' }
    } else if d == 12 {
        if upper { 'C' } else { 'c' }
    } else if d == 13 {
        if upper { 'D' } else { 'd' }
    } else if d == 14 {
        if upper { 'E' } else { 'e' }
    } else {
        if upper { 'F' } else { 'f' }
    }
}

/// The positional representation of `n` in the given base, most significant
/// digit first, with no leading zeros (zero itself is the single digit `0`).
pub open spec fn digits(n: nat, base: nat, upper: bool) -> Seq<char>
    decreases n,
        when 2 <= base
        via digits_decreases
{
    if n < base {
        seq![digit_char(n, upper)]
    } else {
        digits(n / base, base, upper).push(digit_char(n % base, upper))
    }
}

#[via_fn]
proof fn digits_decreases(n: nat, base: nat, upper: bool) {
    if 2 <= base && base <= n {
        assert(((n as int) / (base as int)) < (n as int)) by (nonlinear_arith)
            requires
                2 <= base <= n,
        ;
    }
}

/// One digit as a static string slice.
fn digit_str(d: u16, upper: bool) -> (r: &'static str)
    requires
        d < 16,
    ensures
        r@ == seq![digit_char(d as nat, upper)],
{
    let r: &'static str = if d == 0 {
        proof { reveal_strlit("0"); }
        "0"
    } else if d == 1 {
        proof { reveal_strlit("1"); }
        "1"
    } else if d == 2 {
        proof { reveal_strlit("2"); }
        "2"
    } else if d == 3 {
        proof { reveal_strlit("3"); }
        "3"
    } else if d == 4 {
        proof { reveal_strlit("4"); }
        "4"
    } else if d == 5 {
        proof { reveal_strlit("5"); }
        "5"
    } else if d == 6 {
        proof { reveal_strlit("6"); }
        "6"
    } else if d == 7 {
        proof { reveal_strlit("7"); }
        "7"
    } else if d == 8 {
        proof { reveal_strlit("8"); }
        "8"
    } else if d == 9 {
        proof { reveal_strlit("9"); }
        "9"
    } else if d == 10 {
        if upper {
            proof { reveal_strlit("A"); }
            "A"
        } else {
            proof { reveal_strlit("a"); }
            "a"
        }
    } else if d == 11 {
        if upper {
            proof { reveal_strlit("B"); }
            "B"
        } else {
            proof { reveal_strlit("b"); }
            "b"
        }
    } else if d == 12 {
        if upper {
            proof { reveal_strlit("C"); }
            "C"
        } else {
            proof { reveal_strlit("c"); }
            "c"
        }
    } else if d == 13 {
        if upper {
            proof { reveal_strlit("D"); }
            "D"
        } else {
            proof { reveal_strlit("d"); }
            "d"
        }
    } else if d == 14 {
        if upper {
            proof { reveal_strlit("E"); }
            "E"
        } else {
            proof { reveal_strlit("e"); }
            "e"
        }
    } else {
        if upper {
            proof { reveal_strlit("F"); }
            "F"
        } else {
            proof { reveal_strlit("f"); }
            "f"
        }
    };
    proof {
        assert(r@ =~= seq![digit_char(d as nat, upper)]);
    }
    r
}

/// Appends the digits of `n` in the given base to `s`.
fn push_digits(s: &mut String, n: u16, base: u16, upper: bool)
    requires
        2 <= base <= 16,
    ensures
        final(s)@ == old(s)@ + digits(n as nat, base as nat, upper),
    decreases n,
{
    if n >= base {
        proof {
            assert(((n as int) / (base as int)) < (n as int)) by (nonlinear_arith)
                requires
                    2 <= base <= n,
            ;
        }
        push_digits(s, n / base, base, upper);
    }
    proof {
        if n < base {
            assert(n % base == n) by (nonlinear_arith)
                requires
                    0 <= n < base,
            ;
        }
    }
    let d = n % base;
    s.append(digit_str(d, upper));
    proof {
        assert(s@ =~= old(s)@ + digits(n as nat, base as nat, upper));
    }
}

/// Renders the magnitude of `c` in the given base into a fresh string.
fn render_positive(c: ErrorCode, base: u16, upper: bool) -> (r: String)
    requires
        2 <= base <= 16,
    ensures
        r@ == digits(c.magnitude() as nat, base as nat, upper),
{
    let mut s = String::new();
    push_digits(&mut s, c.as_u16(), base, upper);
    proof {
        assert(s@ =~= digits(c.magnitude() as nat, base as nat, upper));
    }
    s
}

/// Renders a minus sign followed by the magnitude of `n` in the given base.
fn render_negative(n: NegErrorCode, base: u16, upper: bool) -> (r: String)
    requires
        2 <= base <= 16,
    ensures
        r@ == seq!['-'] + digits(n.magnitude() as nat, base as nat, upper),
{
    proof {
        reveal_strlit("-");
    }
    let mut s = String::from_str("-");
    proof {
        assert(s@ =~= seq!['-']);
    }
    let m = n.negate();
    push_digits(&mut s, m.as_u16(), base, upper);
    s
}

impl ErrorCode {
    /// The magnitude in decimal.
    pub fn to_decimal_string(self) -> (r: String)
        ensures
            r@ == digits(self.magnitude() as nat, 10, false),
    {
        render_positive(self, 10, false)
    }

    /// The magnitude in binary.
    pub fn to_binary_string(self) -> (r: String)
        ensures
            r@ == digits(self.magnitude() as nat, 2, false),
    {
        render_positive(self, 2, false)
    }

    /// The magnitude in lower-case hexadecimal.
    pub fn to_lower_hex_string(self) -> (r: String)
        ensures
            r@ == digits(self.magnitude() as nat, 16, false),
    {
        render_positive(self, 16, false)
    }

    /// The magnitude in upper-case hexadecimal.
    pub fn to_upper_hex_string(self) -> (r: String)
        ensures
            r@ == digits(self.magnitude() as nat, 16, true),
    {
        render_positive(self, 16, true)
    }
}

impl NegErrorCode {
    /// The negative value in decimal: a minus sign, then the magnitude.
    pub fn to_decimal_string(self) -> (r: String)
        ensures
            r@ == seq!['-'] + digits(self.magnitude() as nat, 10, false),
    {
        render_negative(self, 10, false)
    }

    /// The negative value in binary: a minus sign, then the magnitude.
    pub fn to_binary_string(self) -> (r: String)
        ensures
            r@ == seq!['-'] + digits(self.magnitude() as nat, 2, false),
    {
        render_negative(self, 2, false)
    }

    /// The negative value in lower-case hexadecimal: a minus sign, then the
    /// magnitude — never a two's-complement bit pattern.
    pub fn to_lower_hex_string(self) -> (r: String)
        ensures
            r@ == seq!['-'] + digits(self.magnitude() as nat, 16, false),
    {
        render_negative(self, 16, false)
    }

    /// The negative value in upper-case hexadecimal: a minus sign, then the
    /// magnitude.
    pub fn to_upper_hex_string(self) -> (r: String)
        ensures
            r@ == seq!['-'] + digits(self.magnitude() as nat, 16, true),
    {
        render_negative(self, 16, true)
    }
}

} // verus!
