//! Rendering of the counter into the display text `count is {n}`, with the
//! decimal form of the counter specified character by character.

use vstd::prelude::*;
use vstd::string::StringExecFns;

verus! {

/// The character for one decimal digit.
pub open spec fn digit_char(d: int) -> char {
    if d == 0 {
        '0'
    } else if d == 1 {
        '1'
    } else if d == 2 {
        '2'
    } else if d == 3 {
        '3'
    } else if d == 4 {
        '4'
    } else if d == 5 {
        '5'
    } else if d == 6 {
        '6'
    } else if d == 7 {
        '7'
    } else if d == 8 {
        '8'
    } else {
        '9'
    }
}

/// The decimal digits of `n`, most significant first, with no leading zeros
/// except for `n == 0` itself.
pub open spec fn dec_rep(n: nat) -> Seq<char>
    decreases n,
{
    if n < 10 {
        seq![digit_char(n as int)]
    } else {
        dec_rep(n / 10) + seq![digit_char((n % 10) as int)]
    }
}

/// The decimal form of a signed value: a leading minus sign when negative.
pub open spec fn int_string(n: int) -> Seq<char> {
    if n < 0 {
        seq!['-'] + dec_rep((-n) as nat)
    } else {
        dec_rep(n as nat)
    }
}

/// The display text the reducer shows for a counter value.
pub open spec fn render_of(n: int) -> Seq<char> {
    "count is "@ + int_string(n)
}

/// The one-character string for a decimal digit.
fn digit_str(d: u32) -> (r: &'static str)
    requires
        d < 10,
    ensures
        r@ =~= seq![digit_char(d as int)],
{
    proof {
        reveal_strlit("0");
        reveal_strlit("1");
        reveal_strlit("2");
        reveal_strlit("3");
        reveal_strlit("4");
        reveal_strlit("5");
        reveal_strlit("6");
        reveal_strlit("7");
        reveal_strlit("8");
        reveal_strlit("9");
    }
    if d == 0 {
        "0"
    } else if d == 1 {
        "1"
    } else if d == 2 {
        "2"
    } else if d == 3 {
        "3"
    } else if d == 4 {
        "4"
    } else if d == 5 {
        "5"
    } else if d == 6 {
        "6"
    } else if d == 7 {
        "7"
    } else if d == 8 {
        "8"
    } else {
        "9"
    }
}

/// The decimal digits of an unsigned value, most significant first.
fn u32_string(n: u32) -> (r: String)
    ensures
        r@ =~= dec_rep(n as nat),
    decreases n,
{
    if n < 10 {
        digit_str(n).to_owned()
    } else {
        let prefix = u32_string(n / 10);
        prefix.concat(digit_str(n % 10))
    }
}

/// The decimal form of a signed counter value, minus sign included.
pub fn decimal_string(n: i32) -> (r: String)
    ensures
        r@ =~= int_string(n as int),
{
    if n >= 0 {
        u32_string(n as u32)
    } else {
        let wide: i64 = -(n as i64);
        let mag: u32 = wide as u32;
        proof {
            reveal_strlit("-");
        }
        let minus = "-".to_owned();
        let digits = u32_string(mag);
        minus.concat(digits.as_str())
    }
}

/// The display text for a counter value: `count is ` followed by the decimal
/// form of the value.
pub fn render_count(n: i32) -> (r: String)
    ensures
        r@ =~= render_of(n as int),
{
    let prefix = "count is ".to_owned();
    let digits = decimal_string(n);
    prefix.concat(digits.as_str())
}

} // verus!
