//! Decimal rendering of status codes.
//!
//! The response message for an unclassified native status code carries the
//! raw code in decimal, so the message table needs a verified integer
//! renderer: `dec_digits` is the mathematical digit string and the exec
//! functions produce exactly it.

use vstd::prelude::*;
use vstd::string::*;

verus! {

/// The character for a single decimal digit.
pub open spec fn digit_char(d: int) -> char {
    if d == 0 {
        '0'
    } else if d == 1 {
        '1'
    } else if d == 2 {
        '2'
    } else if d == 3 {
        '3'
    } else if d == 4 {
        '4'
    } else if d == 5 {
        '5'
    } else if d == 6 {
        '6'
    } else if d == 7 {
        '7'
    } else if d == 8 {
        '8'
    } else {
        '9'
    }
}

/// The decimal digit string of a natural number, most significant digit
/// first, with no leading zeros (zero itself is rendered as "0").
pub open spec fn dec_digits(n: nat) -> Seq<char>
    decreases n,
{
    if n < 10 {
        seq![digit_char(n as int)]
    } else {
        dec_digits(n / 10).push(digit_char((n % 10) as int))
    }
}

/// The decimal rendering of an integer: a minus sign before the digit
/// string when negative.
pub open spec fn int_to_dec(n: int) -> Seq<char> {
    if n >= 0 {
        dec_digits(n as nat)
    } else {
        seq!['-'] + dec_digits((-n) as nat)
    }
}

/// The literal for a single decimal digit.
fn digit_str(d: u64) -> (s: &'static str)
    requires
        d < 10,
    ensures
        s@ == seq![digit_char(d as int)],
{
    match d {
        0 => {
            proof {
                reveal_strlit("0");
                assert("0"@ =~= seq![digit_char(0)]);
            }
            "0"
        },
        1 => {
            proof {
                reveal_strlit("1");
                assert("1"@ =~= seq![digit_char(1)]);
            }
            "1"
        },
        2 => {
            proof {
                reveal_strlit("2");
                assert("2"@ =~= seq![digit_char(2)]);
            }
            "2"
        },
        3 => {
            proof {
                reveal_strlit("3");
                assert("3"@ =~= seq![digit_char(3)]);
            }
            "3"
        },
        4 => {
            proof {
                reveal_strlit("4");
                assert("4"@ =~= seq![digit_char(4)]);
            }
            "4"
        },
        5 => {
            proof {
                reveal_strlit("5");
                assert("5"@ =~= seq![digit_char(5)]);
            }
            "5"
        },
        6 => {
            proof {
                reveal_strlit("6");
                assert("6"@ =~= seq![digit_char(6)]);
            }
            "6"
        },
        7 => {
            proof {
                reveal_strlit("7");
                assert("7"@ =~= seq![digit_char(7)]);
            }
            "7"
        },
        8 => {
            proof {
                reveal_strlit("8");
                assert("8"@ =~= seq![digit_char(8)]);
            }
            "8"
        },
        _ => {
            proof {
                reveal_strlit("9");
                assert("9"@ =~= seq![digit_char(9)]);
            }
            "9"
        },
    }
}

/// Render an unsigned number in decimal.
pub fn u64_dec_string(n: u64) -> (s: String)
    ensures
        s@ == dec_digits(n as nat),
{
    let mut m: u64 = n;
    let mut s: String = String::new();
    proof {
        assert(dec_digits(n as nat) =~= dec_digits(n as nat) + s@);
    }
    while m >= 10
        invariant
            dec_digits(n as nat) == dec_digits(m as nat) + s@,
        decreases m,
    {
        let ghost old_m: u64 = m;
        let ghost old_s: Seq<char> = s@;
        let d: u64 = m % 10;
        let piece = String::from_str(digit_str(d));
        s = piece.concat(s.as_str());
        m = m / 10;
        proof {
            assert(dec_digits(old_m as nat) == dec_digits(m as nat).push(digit_char(d as int)));
            assert(dec_digits(m as nat).push(digit_char(d as int)) + old_s =~= dec_digits(m as nat)
                + s@);
        }
    }
    let last = String::from_str(digit_str(m));
    let r = last.concat(s.as_str());
    proof {
        assert(dec_digits(m as nat) + s@ =~= r@);
    }
    r
}

/// Render a native status code in decimal, minus sign included.
pub fn i32_dec_string(code: i32) -> (s: String)
    ensures
        s@ == int_to_dec(code as int),
{
    if code >= 0 {
        u64_dec_string(code as u64)
    } else {
        let mag_wide: i64 = -(code as i64);
        let mag: u64 = mag_wide as u64;
        let digits = u64_dec_string(mag);
        let r = String::from_str("-").concat(digits.as_str());
        proof {
            reveal_strlit("-");
            assert("-"@ =~= seq!['-']);
            assert(mag as nat == (-(code as int)) as nat);
            assert(r@ =~= int_to_dec(code as int));
        }
        r
    }
}

} // verus!
