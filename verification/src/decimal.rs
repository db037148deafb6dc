//! Decimal rendering of small counts, used for the canonical display string
//! of an item record.

use vstd::prelude::*;
use vstd::string::StringExecFns;

verus! {

/// The character for a single decimal digit.
pub open spec fn spec_digit_char(d: nat) -> char {
    if d == 0 {
        '0'
    } else if d == 1 {
        '1'
    } else if d == 2 {
        '2'
    } else if d == 3 {
        '3'
    } else if d == 4 {
        '4'
    } else if d == 5 {
        '5'
    } else if d == 6 {
        '6'
    } else if d == 7 {
        '7'
    } else if d == 8 {
        '8'
    } else {
        '9'
    }
}

/// The decimal representation of a number: most significant digit first,
/// no leading zeros (a single '0' for zero itself).
pub open spec fn spec_decimal(n: nat) -> Seq<char>
    decreases n,
{
    if n < 10 {
        seq![spec_digit_char(n)]
    } else {
        spec_decimal(n / 10).push(spec_digit_char(n % 10))
    }
}

/// The one-character string for a single decimal digit.
fn digit_str(d: u8) -> (r: &'static str)
    requires
        d < 10,
    ensures
        r@ == seq![spec_digit_char(d as nat)],
{
    proof {
        reveal_strlit("0");
        reveal_strlit("1");
        reveal_strlit("2");
        reveal_strlit("3");
        reveal_strlit("4");
        reveal_strlit("5");
        reveal_strlit("6");
        reveal_strlit("7");
        reveal_strlit("8");
        reveal_strlit("9");
    }
    let r: &'static str = match d {
        0 => "0",
        1 => "1",
        2 => "2",
        3 => "3",
        4 => "4",
        5 => "5",
        6 => "6",
        7 => "7",
        8 => "8",
        _ => "9",
    };
    assert(r@ =~= seq![spec_digit_char(d as nat)]);
    r
}

/// Renders a count as its decimal string.
pub fn decimal_string(n: u8) -> (s: String)
    ensures
        s@ == spec_decimal(n as nat),
{
    if n < 10 {
        let s = digit_str(n).to_owned();
        assert(s@ =~= spec_decimal(n as nat));
        s
    } else {
        let q: u8 = n / 10;
        let r: u8 = n % 10;
        assert(q == n as nat / 10 && r == n as nat % 10);
        if q < 10 {
            let mut s = digit_str(q).to_owned();
            s.append(digit_str(r));
            assert(spec_decimal(q as nat) =~= seq![spec_digit_char(q as nat)]);
            assert(s@ =~= spec_decimal(n as nat));
            s
        } else {
            let mut s = digit_str(q / 10).to_owned();
            s.append(digit_str(q % 10));
            s.append(digit_str(r));
            assert(spec_decimal((q / 10) as nat) =~= seq![spec_digit_char((q / 10) as nat)]);
            assert(spec_decimal(q as nat) =~= spec_decimal((q / 10) as nat).push(
                spec_digit_char((q % 10) as nat),
            ));
            assert(s@ =~= spec_decimal(n as nat));
            s
        }
    }
}

} // verus!
