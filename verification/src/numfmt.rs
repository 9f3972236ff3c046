//! Decimal rendering of small unsigned integers, used to build the
//! `address:port` strings handed to the transport.

use vstd::prelude::*;
use vstd::string::StringExecFns;

verus! {

/// The decimal digit with value `v`, as a character.
pub open spec fn dec_digit(v: int) -> char
    recommends
        0 <= v < 10,
{
    if v == 0 {
        '0'
    } else if v == 1 {
        '1'
    } else if v == 2 {
        '2'
    } else if v == 3 {
        '3'
    } else if v == 4 {
        '4'
    } else if v == 5 {
        '5'
    } else if v == 6 {
        '6'
    } else if v == 7 {
        '7'
    } else if v == 8 {
        '8'
    } else {
        '9'
    }
}

/// The decimal spelling of `n`, most significant digit first, with no leading
/// zeroes (a single `0` for zero).
pub open spec fn dec_chars_of(n: nat) -> Seq<char>
    decreases n,
{
    if n < 10 {
        seq![dec_digit(n as int)]
    } else {
        dec_chars_of(n / 10).push(dec_digit((n % 10) as int))
    }
}

/// The one-character string slice holding the decimal digit `v`.
fn dec_digit_str(v: u32) -> (r: &'static str)
    requires
        v < 10,
    ensures
        r@ == seq![dec_digit(v as int)],
{
    proof {
        reveal_strlit("0");
        reveal_strlit("1");
        reveal_strlit("2");
        reveal_strlit("3");
        reveal_strlit("4");
        reveal_strlit("5");
        reveal_strlit("6");
        reveal_strlit("7");
        reveal_strlit("8");
        reveal_strlit("9");
    }
    let s = if v == 0 {
        "0"
    } else if v == 1 {
        "1"
    } else if v == 2 {
        "2"
    } else if v == 3 {
        "3"
    } else if v == 4 {
        "4"
    } else if v == 5 {
        "5"
    } else if v == 6 {
        "6"
    } else if v == 7 {
        "7"
    } else if v == 8 {
        "8"
    } else {
        "9"
    };
    proof {
        assert(s@ =~= seq![dec_digit(v as int)]);
    }
    s
}

/// Append the decimal spelling of `n` to `out`.
pub fn push_decimal(out: &mut String, n: u32)
    ensures
        final(out)@ == old(out)@ + dec_chars_of(n as nat),
    decreases n,
{
    if n < 10 {
        let d = dec_digit_str(n);
        out.append(d);
        proof {
            assert(out@ =~= old(out)@ + dec_chars_of(n as nat));
        }
    } else {
        push_decimal(out, n / 10);
        let d = dec_digit_str(n % 10);
        out.append(d);
        proof {
            assert(out@ =~= old(out)@ + dec_chars_of(n as nat));
        }
    }
}

} // verus!
