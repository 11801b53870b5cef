//! Decimal rendering of integers, pinned to a spec-level character sequence.

use vstd::prelude::*;
use vstd::string::StringExecFns;

verus! {

/// The character for one decimal digit.
pub open spec fn dec_digit(d: nat) -> char {
    if d == 0 {
        '0'
    } else if d == 1 {
        '1'
    } else if d == 2 {
        '2'
    } else if d == 3 {
        '3'
    } else if d == 4 {
        '4'
    } else if d == 5 {
        '5'
    } else if d == 6 {
        '6'
    } else if d == 7 {
        '7'
    } else if d == 8 {
        '8'
    } else {
        '9'
    }
}

/// Decimal digits of a natural number, most significant first.
pub open spec fn dec_str_of(n: nat) -> Seq<char>
    decreases n,
{
    if n < 10 {
        seq![dec_digit(n)]
    } else {
        dec_str_of(n / 10) + seq![dec_digit(n % 10)]
    }
}

/// Decimal rendering of an integer, with a leading minus sign when negative.
pub open spec fn int_str_of(i: int) -> Seq<char> {
    if i < 0 {
        seq!['-'] + dec_str_of((-i) as nat)
    } else {
        dec_str_of(i as nat)
    }
}

/// Appends the digit character for `d`.
fn push_digit(d: u64, out: &mut String)
    requires
        d < 10,
    ensures
        final(out)@ == old(out)@ + seq![dec_digit(d as nat)],
{
    let s: &str = if d == 0 {
        "0"
    } else if d == 1 {
        "1"
    } else if d == 2 {
        "2"
    } else if d == 3 {
        "3"
    } else if d == 4 {
        "4"
    } else if d == 5 {
        "5"
    } else if d == 6 {
        "6"
    } else if d == 7 {
        "7"
    } else if d == 8 {
        "8"
    } else {
        "9"
    };
    proof {
        reveal_strlit("0");
        reveal_strlit("1");
        reveal_strlit("2");
        reveal_strlit("3");
        reveal_strlit("4");
        reveal_strlit("5");
        reveal_strlit("6");
        reveal_strlit("7");
        reveal_strlit("8");
        reveal_strlit("9");
    }
    out.append(s);
}

/// Appends the decimal rendering of `n`.
pub fn append_u64(n: u64, out: &mut String)
    ensures
        final(out)@ == old(out)@ + dec_str_of(n as nat),
    decreases n,
{
    if n < 10 {
        push_digit(n, out);
    } else {
        append_u64(n / 10, out);
        push_digit(n % 10, out);
        proof {
            assert(old(out)@ + dec_str_of((n / 10) as nat) + seq![dec_digit((n % 10) as nat)]
                == old(out)@ + (dec_str_of((n / 10) as nat) + seq![dec_digit((n % 10) as nat)]));
        }
    }
}

/// Appends the decimal rendering of a signed value.
pub fn append_i64(n: i64, out: &mut String)
    ensures
        final(out)@ == old(out)@ + int_str_of(n as int),
{
    if n < 0 {
        proof {
            reveal_strlit("-");
        }
        out.append("-");
        let m: u64 = if n == i64::MIN {
            9223372036854775808u64
        } else {
            (-n) as u64
        };
        let ghost mid = out@;
        append_u64(m, out);
        proof {
            assert(out@ == old(out)@ + seq!['-'] + dec_str_of(m as nat));
            assert(old(out)@ + seq!['-'] + dec_str_of(m as nat)
                == old(out)@ + (seq!['-'] + dec_str_of(m as nat)));
        }
    } else {
        append_u64(n as u64, out);
    }
}

/// The decimal rendering of `n` as an owned string.
pub fn u64_to_string(n: u64) -> (r: String)
    ensures
        r@ == dec_str_of(n as nat),
{
    let mut out = String::new();
    append_u64(n, &mut out);
    out
}

} // verus!
