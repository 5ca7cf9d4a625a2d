//! Exact JSON rendering of the status body: `{"heart_beat":<value>}` with the
//! integer written in decimal, or `{"heart_beat":null}` when no fresh reading
//! exists.

use vstd::prelude::*;
use vstd::string::StringExecFns;

verus! {

/// The character for a single decimal digit `d` (`0 <= d <= 9`).
pub open spec fn digit_char(d: nat) -> char {
    if d == 0 {
        '0'
    } else if d == 1 {
        '1'
    } else if d == 2 {
        '2'
    } else if d == 3 {
        '3'
    } else if d == 4 {
        '4'
    } else if d == 5 {
        '5'
    } else if d == 6 {
        '6'
    } else if d == 7 {
        '7'
    } else if d == 8 {
        '8'
    } else {
        '9'
    }
}

/// The decimal digits of `n`, most significant first, with no leading zeros
/// (zero itself is written as the single digit `0`).
pub open spec fn dec_seq(n: nat) -> Seq<char>
    decreases n,
{
    if n < 10 {
        seq![digit_char(n)]
    } else {
        dec_seq(n / 10) + seq![digit_char(n % 10)]
    }
}

/// The decimal rendering of an integer, with a leading minus sign when
/// negative.
pub open spec fn dec_int_seq(i: int) -> Seq<char> {
    if i < 0 {
        seq!['-'] + dec_seq((-i) as nat)
    } else {
        dec_seq(i as nat)
    }
}

/// The JSON status body: the single key `heart_beat` bound to the decimal
/// value, or to `null` when there is none.
pub open spec fn heart_json(v: Option<i32>) -> Seq<char> {
    "{\"heart_beat\":"@ + (match v {
        Some(x) => dec_int_seq(x as int),
        None => "null"@,
    }) + "}"@
}

/// The one-character string for a single decimal digit.
fn digit_str(d: u32) -> (r: &'static str)
    requires
        d < 10,
    ensures
        r@ == seq![digit_char(d as nat)],
{
    proof {
        reveal_strlit("0");
        reveal_strlit("1");
        reveal_strlit("2");
        reveal_strlit("3");
        reveal_strlit("4");
        reveal_strlit("5");
        reveal_strlit("6");
        reveal_strlit("7");
        reveal_strlit("8");
        reveal_strlit("9");
        assert("0"@ =~= seq!['0']);
        assert("1"@ =~= seq!['1']);
        assert("2"@ =~= seq!['2']);
        assert("3"@ =~= seq!['3']);
        assert("4"@ =~= seq!['4']);
        assert("5"@ =~= seq!['5']);
        assert("6"@ =~= seq!['6']);
        assert("7"@ =~= seq!['7']);
        assert("8"@ =~= seq!['8']);
        assert("9"@ =~= seq!['9']);
    }
    match d {
        0 => "0",
        1 => "1",
        2 => "2",
        3 => "3",
        4 => "4",
        5 => "5",
        6 => "6",
        7 => "7",
        8 => "8",
        _ => "9",
    }
}

/// The decimal rendering of an unsigned 32-bit integer.
pub fn u32_dec_string(n: u32) -> (s: String)
    ensures
        s@ == dec_seq(n as nat),
    decreases n,
{
    if n < 10 {
        String::from_str(digit_str(n))
    } else {
        let mut s = u32_dec_string(n / 10);
        s.append(digit_str(n % 10));
        proof {
            assert(s@ =~= dec_seq(n as nat));
        }
        s
    }
}

/// The decimal rendering of a signed 32-bit integer.
pub fn i32_dec_string(n: i32) -> (s: String)
    ensures
        s@ == dec_int_seq(n as int),
{
    if n < 0 {
        let magnitude: u32 = (-(n as i64)) as u32;
        assert(magnitude as nat == (-(n as int)) as nat);
        let mut s = String::from_str("-");
        let digits = u32_dec_string(magnitude);
        s.append(digits.as_str());
        proof {
            reveal_strlit("-");
            assert("-"@ =~= seq!['-']);
            assert(s@ =~= dec_int_seq(n as int));
        }
        s
    } else {
        u32_dec_string(n as u32)
    }
}

/// Render the JSON status body for an optional reading value.
pub fn heart_json_body(v: Option<i32>) -> (s: String)
    ensures
        s@ == heart_json(v),
{
    let mut s = String::from_str("{\"heart_beat\":");
    match v {
        Some(x) => {
            let digits = i32_dec_string(x);
            s.append(digits.as_str());
        },
        None => {
            s.append("null");
        },
    }
    s.append("}");
    proof {
        assert(s@ =~= heart_json(v));
    }
    s
}

} // verus!
