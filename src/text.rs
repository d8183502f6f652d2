//! Decimal rendering of unsigned integers and fixed-point numbers.

use vstd::prelude::*;
use vstd::string::StringExecFns;

verus! {

/// The character of a decimal digit.
pub open spec fn digit_char(d: int) -> char {
    if d == 0 {
        '0'
    } else if d == 1 {
        '1'
    } else if d == 2 {
        '2'
    } else if d == 3 {
        '3'
    } else if d == 4 {
        '4'
    } else if d == 5 {
        '5'
    } else if d == 6 {
        '6'
    } else if d == 7 {
        '7'
    } else if d == 8 {
        '8'
    } else {
        '9'
    }
}

/// The decimal digits of `n`, most significant first, without leading zeros.
pub open spec fn decimal(n: nat) -> Seq<char>
    decreases n,
{
    if n < 10 {
        seq![digit_char(n as int)]
    } else {
        decimal(n / 10).push(digit_char((n % 10) as int))
    }
}

/// The last `width` decimal digits of `n`, with leading zeros.
pub open spec fn zero_padded(n: nat, width: nat) -> Seq<char>
    decreases width,
{
    if width == 0 {
        Seq::empty()
    } else {
        zero_padded(n / 10, (width - 1) as nat).push(digit_char((n % 10) as int))
    }
}

/// `n / scale` written in decimal with `places` digits after the point,
/// where `scale` is ten to the power `places`.
pub open spec fn fixed_point(n: nat, scale: nat, places: nat) -> Seq<char> {
    decimal(n / scale) + seq!['.'] + zero_padded(n % scale, places)
}

fn digit_str(d: u64) -> (r: &'static str)
    requires
        d < 10,
    ensures
        r@ == seq![digit_char(d as int)],
{
    proof {
        reveal_strlit("0");
        reveal_strlit("1");
        reveal_strlit("2");
        reveal_strlit("3");
        reveal_strlit("4");
        reveal_strlit("5");
        reveal_strlit("6");
        reveal_strlit("7");
        reveal_strlit("8");
        reveal_strlit("9");
    }
    let r = if d == 0 {
        "0"
    } else if d == 1 {
        "1"
    } else if d == 2 {
        "2"
    } else if d == 3 {
        "3"
    } else if d == 4 {
        "4"
    } else if d == 5 {
        "5"
    } else if d == 6 {
        "6"
    } else if d == 7 {
        "7"
    } else if d == 8 {
        "8"
    } else {
        "9"
    };
    assert(r@ =~= seq![digit_char(d as int)]);
    r
}

/// Appends the decimal digits of `n`.
pub fn push_decimal(s: &mut String, n: u64)
    ensures
        final(s)@ == old(s)@ + decimal(n as nat),
    decreases n,
{
    if n >= 10 {
        push_decimal(s, n / 10);
    }
    s.append(digit_str(n % 10));
    assert(s@ =~= old(s)@ + decimal(n as nat));
}

/// Appends the last `width` decimal digits of `n`, with leading zeros.
pub fn push_zero_padded(s: &mut String, n: u64, width: u64)
    ensures
        final(s)@ == old(s)@ + zero_padded(n as nat, width as nat),
    decreases width,
{
    if width > 0 {
        push_zero_padded(s, n / 10, width - 1);
        s.append(digit_str(n % 10));
    }
    assert(s@ =~= old(s)@ + zero_padded(n as nat, width as nat));
}

/// Appends `n / scale` with `places` digits after the point.
pub fn push_fixed_point(s: &mut String, n: u64, scale: u64, places: u64)
    requires
        scale > 0,
    ensures
        final(s)@ == old(s)@ + fixed_point(n as nat, scale as nat, places as nat),
{
    push_decimal(s, n / scale);
    s.append(".");
    push_zero_padded(s, n % scale, places);
    proof {
        reveal_strlit(".");
    }
    assert(s@ =~= old(s)@ + fixed_point(n as nat, scale as nat, places as nat));
}

} // verus!
