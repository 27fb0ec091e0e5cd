//! Decimal rendering of integers, used for the fixed-width fields of the
//! displayed timestamp.

use vstd::prelude::*;
use vstd::string::StringExecFns;

verus! {

/// The character for a single decimal digit.
pub open spec fn spec_digit_char(d: nat) -> char {
    if d == 0 {
        '0'
    } else if d == 1 {
        '1'
    } else if d == 2 {
        '2'
    } else if d == 3 {
        '3'
    } else if d == 4 {
        '4'
    } else if d == 5 {
        '5'
    } else if d == 6 {
        '6'
    } else if d == 7 {
        '7'
    } else if d == 8 {
        '8'
    } else {
        '9'
    }
}

/// The decimal rendering of `n`, zero-padded on the left to at least `width`
/// characters (and never shorter than `n`'s own digits).
pub open spec fn spec_decimal_padded(n: nat, width: nat) -> Seq<char>
    decreases n, width,
{
    if n >= 10 || width > 1 {
        spec_decimal_padded(n / 10, if width > 0 { (width - 1) as nat } else { 0 }) + seq![
            spec_digit_char(n % 10),
        ]
    } else {
        seq![spec_digit_char(n)]
    }
}

fn digit_str(d: u32) -> (r: &'static str)
    requires
        d < 10,
    ensures
        r@ == seq![spec_digit_char(d as nat)],
{
    proof {
        reveal_strlit("0");
        reveal_strlit("1");
        reveal_strlit("2");
        reveal_strlit("3");
        reveal_strlit("4");
        reveal_strlit("5");
        reveal_strlit("6");
        reveal_strlit("7");
        reveal_strlit("8");
        reveal_strlit("9");
    }
    let r: &'static str = match d {
        0 => "0",
        1 => "1",
        2 => "2",
        3 => "3",
        4 => "4",
        5 => "5",
        6 => "6",
        7 => "7",
        8 => "8",
        _ => "9",
    };
    assert(r@ =~= seq![spec_digit_char(d as nat)]);
    r
}

/// Renders `n` in decimal, zero-padded on the left to at least `width`
/// characters.
pub fn decimal_padded(n: u32, width: u32) -> (r: String)
    ensures
        r@ == spec_decimal_padded(n as nat, width as nat),
    decreases n, width,
{
    if n >= 10 || width > 1 {
        let mut r = decimal_padded(n / 10, if width > 0 { width - 1 } else { 0 });
        r.append(digit_str(n % 10));
        r
    } else {
        digit_str(n).to_owned()
    }
}

} // verus!
