//! Decimal text for the integers and thousandth-scaled numbers that the
//! payload model carries: the text a raw value degrades to when it shows
//! up where a string was expected.

use vstd::prelude::*;

verus! {

/// The decimal digit character for `d` in `0..10`.
pub open spec fn digit_char(d: int) -> char {
    if d == 0 {
        '0'
    } else if d == 1 {
        '1'
    } else if d == 2 {
        '2'
    } else if d == 3 {
        '3'
    } else if d == 4 {
        '4'
    } else if d == 5 {
        '5'
    } else if d == 6 {
        '6'
    } else if d == 7 {
        '7'
    } else if d == 8 {
        '8'
    } else {
        '9'
    }
}

/// Decimal text of a natural number, most significant digit first.
pub open spec fn dec_text(n: nat) -> Seq<char>
    decreases n,
{
    if n < 10 {
        Seq::empty().push(digit_char(n as int))
    } else {
        dec_text(n / 10).push(digit_char((n % 10) as int))
    }
}

/// Decimal text of an integer: a minus sign for negative values, then the
/// digits of the magnitude.
pub open spec fn int_text(i: int) -> Seq<char> {
    if i < 0 {
        Seq::empty().push('-') + dec_text((-i) as nat)
    } else {
        dec_text(i as nat)
    }
}

/// Text of a fractional part given in thousandths, `f < 1000`: up to three
/// digits with trailing zeros dropped, and a single zero when `f` is zero.
pub open spec fn frac_text(f: nat) -> Seq<char> {
    if f == 0 {
        Seq::empty().push('0')
    } else if f % 10 != 0 {
        Seq::empty().push(digit_char(f as int / 100)).push(digit_char((f / 10) as int % 10)).push(
            digit_char(f as int % 10),
        )
    } else if (f / 10) % 10 != 0 {
        Seq::empty().push(digit_char(f as int / 100)).push(digit_char((f / 10) as int % 10))
    } else {
        Seq::empty().push(digit_char(f as int / 100))
    }
}

/// Text of a number held in thousandths: sign, whole part, a point, then
/// the fractional digits.
pub open spec fn milli_text(m: int) -> Seq<char> {
    let mag = if m < 0 {
        -m
    } else {
        m
    };
    let sign: Seq<char> = if m < 0 {
        Seq::empty().push('-')
    } else {
        Seq::empty()
    };
    sign + dec_text((mag / 1000) as nat) + Seq::empty().push('.') + frac_text((mag % 1000) as nat)
}

/// The digit character for `d` in `0..10`, as executable code.
pub fn digit_of(d: u64) -> (c: char)
    requires
        d < 10,
    ensures
        c == digit_char(d as int),
{
    if d == 0 {
        '0'
    } else if d == 1 {
        '1'
    } else if d == 2 {
        '2'
    } else if d == 3 {
        '3'
    } else if d == 4 {
        '4'
    } else if d == 5 {
        '5'
    } else if d == 6 {
        '6'
    } else if d == 7 {
        '7'
    } else if d == 8 {
        '8'
    } else {
        '9'
    }
}

/// Relies on `String::push`: appends exactly the one character to the end
/// of the string.
#[verifier::external_body]
pub(crate) fn push_char(s: &mut String, c: char)
    ensures
        final(s)@ == old(s)@.push(c),
{
    s.push(c);
}

/// Appends the decimal text of `n` to `out`.
pub fn push_u64_text(out: &mut String, n: u64)
    ensures
        final(out)@ == old(out)@ + dec_text(n as nat),
    decreases n,
{
    if n < 10 {
        push_char(out, digit_of(n));
        assert(out@ =~= old(out)@ + dec_text(n as nat));
    } else {
        assert(n / 10 < n && n / 10 >= 1) by (nonlinear_arith)
            requires
                n >= 10,
        ;
        push_u64_text(out, n / 10);
        assert(n % 10 < 10) by (nonlinear_arith);
        push_char(out, digit_of(n % 10));
        assert(out@ =~= old(out)@ + dec_text(n as nat));
    }
}

/// Decimal text of an unsigned value.
pub fn u64_text(n: u64) -> (r: String)
    ensures
        r@ == dec_text(n as nat),
{
    let mut s = String::new();
    push_u64_text(&mut s, n);
    proof {
        assert(s@ =~= dec_text(n as nat));
    }
    s
}

/// Decimal text of a signed value.
pub fn i64_text(i: i64) -> (r: String)
    ensures
        r@ == int_text(i as int),
{
    if i >= 0 {
        let r = u64_text(i as u64);
        assert(r@ =~= int_text(i as int));
        r
    } else {
        let mag: u64 = (-(i as i128)) as u64;
        assert(mag == -(i as int));
        let mut s = String::new();
        push_char(&mut s, '-');
        push_u64_text(&mut s, mag);
        proof {
            assert(s@ =~= int_text(i as int));
        }
        s
    }
}

/// Text of a value held in thousandths.
pub fn milli_to_text(m: i64) -> (r: String)
    ensures
        r@ == milli_text(m as int),
{
    let mag: u64 = if m >= 0 {
        m as u64
    } else {
        (-(m as i128)) as u64
    };
    assert(mag == if m < 0 {
        -(m as int)
    } else {
        m as int
    });
    let mut s = String::new();
    if m < 0 {
        push_char(&mut s, '-');
    }
    push_u64_text(&mut s, mag / 1000);
    push_char(&mut s, '.');
    let f: u64 = mag % 1000;
    assert(f < 1000);
    assert(f / 100 < 10 && (f / 10) % 10 < 10 && f % 10 < 10) by (nonlinear_arith)
        requires
            f < 1000,
    ;
    if f == 0 {
        push_char(&mut s, '0');
    } else if f % 10 != 0 {
        push_char(&mut s, digit_of(f / 100));
        push_char(&mut s, digit_of((f / 10) % 10));
        push_char(&mut s, digit_of(f % 10));
    } else if (f / 10) % 10 != 0 {
        push_char(&mut s, digit_of(f / 100));
        push_char(&mut s, digit_of((f / 10) % 10));
    } else {
        push_char(&mut s, digit_of(f / 100));
    }
    proof {
        assert(s@ =~= milli_text(m as int));
    }
    s
}

} // verus!
