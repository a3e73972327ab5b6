//! Verified decimal rendering for the display strings the round exposes:
//! plain integers, two-digit zero-padded fields (for `MM:SS` clocks), and
//! centi-scaled fixed-point values printed with exactly two decimals.
use vstd::prelude::*;
use vstd::string::StringExecFns;

verus! {

/// The character for a single decimal digit.
pub open spec fn spec_digit(d: int) -> char {
    if d == 0 {
        '0'
    } else if d == 1 {
        '1'
    } else if d == 2 {
        '2'
    } else if d == 3 {
        '3'
    } else if d == 4 {
        '4'
    } else if d == 5 {
        '5'
    } else if d == 6 {
        '6'
    } else if d == 7 {
        '7'
    } else if d == 8 {
        '8'
    } else {
        '9'
    }
}

/// Ordinary base-10 rendering of a non-negative integer, no padding.
pub open spec fn spec_dec(n: int) -> Seq<char>
    decreases n,
{
    if n < 10 {
        seq![spec_digit(n)]
    } else {
        spec_dec(n / 10).push(spec_digit(n % 10))
    }
}

/// Base-10 rendering padded with a leading zero to at least two digits.
pub open spec fn spec_pad2(n: int) -> Seq<char> {
    if n < 10 {
        seq!['0', spec_digit(n)]
    } else {
        spec_dec(n)
    }
}

/// Rendering of a centi-scaled value as a fixed-point decimal with exactly
/// two digits after the point: 4138 prints as `41.38`.
pub open spec fn spec_centi(v: int) -> Seq<char> {
    spec_dec(v / 100) + seq!['.', spec_digit((v % 100) / 10), spec_digit(v % 10)]
}

/// The string of one decimal digit.
fn digit_str(d: u128) -> (r: &'static str)
    requires
        d < 10,
    ensures
        r@ == seq![spec_digit(d as int)],
{
    proof {
        reveal_strlit("0");
        reveal_strlit("1");
        reveal_strlit("2");
        reveal_strlit("3");
        reveal_strlit("4");
        reveal_strlit("5");
        reveal_strlit("6");
        reveal_strlit("7");
        reveal_strlit("8");
        reveal_strlit("9");
    }
    let r: &'static str = match d {
        0 => "0",
        1 => "1",
        2 => "2",
        3 => "3",
        4 => "4",
        5 => "5",
        6 => "6",
        7 => "7",
        8 => "8",
        _ => "9",
    };
    proof {
        assert(r@ =~= seq![spec_digit(d as int)]);
    }
    r
}

/// Appends the base-10 rendering of `n` to `s`.
pub fn push_dec(s: &mut String, n: u128)
    ensures
        final(s)@ == old(s)@ + spec_dec(n as int),
    decreases n,
{
    if n >= 10 {
        push_dec(s, n / 10);
    }
    let d = digit_str(n % 10);
    s.append(d);
    proof {
        assert(s@ =~= old(s)@ + spec_dec(n as int));
    }
}

/// The base-10 rendering of `n`.
pub fn dec_string(n: u128) -> (r: String)
    ensures
        r@ == spec_dec(n as int),
{
    let mut s = String::new();
    push_dec(&mut s, n);
    proof {
        assert(s@ =~= spec_dec(n as int));
    }
    s
}

/// Appends `n` zero-padded to at least two digits, as in a clock field.
pub fn push_pad2(s: &mut String, n: u128)
    ensures
        final(s)@ == old(s)@ + spec_pad2(n as int),
{
    if n < 10 {
        proof {
            reveal_strlit("0");
        }
        s.append("0");
        let d = digit_str(n);
        s.append(d);
        proof {
            assert(s@ =~= old(s)@ + spec_pad2(n as int));
        }
    } else {
        push_dec(s, n);
    }
}

/// Appends the fixed-point rendering of a centi-scaled value, two decimals.
pub fn push_centi(s: &mut String, v: u128)
    ensures
        final(s)@ == old(s)@ + spec_centi(v as int),
{
    push_dec(s, v / 100);
    proof {
        reveal_strlit(".");
    }
    s.append(".");
    let hi = digit_str((v % 100) / 10);
    s.append(hi);
    let lo = digit_str(v % 10);
    s.append(lo);
    proof {
        assert(s@ =~= old(s)@ + spec_centi(v as int));
    }
}

/// The fixed-point rendering of a centi-scaled value, two decimals.
pub fn centi_string(v: u128) -> (r: String)
    ensures
        r@ == spec_centi(v as int),
{
    let mut s = String::new();
    push_centi(&mut s, v);
    proof {
        assert(s@ =~= spec_centi(v as int));
    }
    s
}

} // verus!
