//! The one-line explanation of the grid source in query plans.

use vstd::prelude::*;
use vstd::string::StringExecFns;

verus! {

/// The character of the decimal digit `d`.
pub open spec fn digit_char(d: nat) -> char {
    seq!['0', '1', '2', '3', '4', '5', '6', '7', '8', '9'][d as int]
}

/// The decimal digits of `n`, most significant first, without leading zeros.
pub open spec fn digits(n: nat) -> Seq<char>
    decreases n,
{
    if n < 10 {
        seq![digit_char(n)]
    } else {
        digits(n / 10).push(digit_char(n % 10))
    }
}

/// `n` written in decimal, with a leading `-` when it is negative.
pub open spec fn decimal(n: int) -> Seq<char> {
    if n < 0 {
        seq!['-'] + digits((-n) as nat)
    } else {
        digits(n as nat)
    }
}

/// The explanation line for the range `[start..end]` with step `interval`.
pub open spec fn explain_line(start: int, end: int, interval: int) -> Seq<char> {
    "EmptyMetric: range=["@ + decimal(start) + ".."@ + decimal(end) + "], interval=["@
        + decimal(interval) + "]"@
}

/// The decimal digit `d`, as a one-character string.
fn digit_str(d: u64) -> (r: &'static str)
    requires
        d < 10,
    ensures
        r@ == seq![digit_char(d as nat)],
{
    proof {
        reveal_strlit("0");
        reveal_strlit("1");
        reveal_strlit("2");
        reveal_strlit("3");
        reveal_strlit("4");
        reveal_strlit("5");
        reveal_strlit("6");
        reveal_strlit("7");
        reveal_strlit("8");
        reveal_strlit("9");
    }
    match d {
        0 => "0",
        1 => "1",
        2 => "2",
        3 => "3",
        4 => "4",
        5 => "5",
        6 => "6",
        7 => "7",
        8 => "8",
        _ => "9",
    }
}

/// Appends the decimal digits of `n` to `out`.
fn append_digits(out: &mut String, n: u64)
    ensures
        final(out)@ == old(out)@ + digits(n as nat),
    decreases n,
{
    if n >= 10 {
        append_digits(out, n / 10);
    }
    out.append(digit_str(n % 10));
    proof {
        if n >= 10 {
            assert(digits(n as nat) == digits((n / 10) as nat).push(digit_char((n % 10) as nat)));
        }
    }
}

/// `n` in decimal, preceded by `-` when it is negative.
fn decimal_string(n: i64) -> (r: String)
    ensures
        r@ == decimal(n as int),
{
    let mut s = String::new();
    if n < 0 {
        s.append("-");
        proof {
            reveal_strlit("-");
        }
        append_digits(&mut s, (-(n as i128)) as u64);
    } else {
        append_digits(&mut s, n as u64);
    }
    s
}

/// `EmptyMetric: range=[start..end], interval=[interval]`.
pub fn explain(start: i64, end: i64, interval: i64) -> (r: String)
    ensures
        r@ == explain_line(start as int, end as int, interval as int),
{
    let mut s = String::from_str("EmptyMetric: range=[");
    let a = decimal_string(start);
    s.append(a.as_str());
    s.append("..");
    let b = decimal_string(end);
    s.append(b.as_str());
    s.append("], interval=[");
    let c = decimal_string(interval);
    s.append(c.as_str());
    s.append("]");
    proof {
        reveal_strlit("EmptyMetric: range=[");
        reveal_strlit("..");
        reveal_strlit("], interval=[");
        reveal_strlit("]");
    }
    s
}

} // verus!
