//! Decimal rendering of integers.
//!
//! Query parameter values, path segments and HTTP status codes are all
//! rendered as plain base-ten strings; the spec functions here define that
//! rendering and the exec functions produce it.

use vstd::prelude::*;
use vstd::string::*;

verus! {

/// The character for a single decimal digit.
pub open spec fn digit_char(d: int) -> char {
    if d == 0 {
        '0'
    } else if d == 1 {
        '1'
    } else if d == 2 {
        '2'
    } else if d == 3 {
        '3'
    } else if d == 4 {
        '4'
    } else if d == 5 {
        '5'
    } else if d == 6 {
        '6'
    } else if d == 7 {
        '7'
    } else if d == 8 {
        '8'
    } else {
        '9'
    }
}

/// The decimal digit sequence of a natural number, most significant digit
/// first, with no leading zeros (zero itself is rendered as "0").
pub open spec fn dec_digits(n: nat) -> Seq<char>
    decreases n,
{
    if n < 10 {
        seq![digit_char(n as int)]
    } else {
        dec_digits(n / 10) + seq![digit_char((n % 10) as int)]
    }
}

/// The decimal rendering of an integer: the digit sequence of its magnitude,
/// preceded by a minus sign when the integer is negative.
pub open spec fn dec_int(n: int) -> Seq<char> {
    if n < 0 {
        seq!['-'] + dec_digits((-n) as nat)
    } else {
        dec_digits(n as nat)
    }
}

/// The literal for a single decimal digit.
fn digit_str(d: u64) -> (r: &'static str)
    requires
        d < 10,
    ensures
        r@ == seq![digit_char(d as int)],
{
    proof {
        reveal_strlit("0");
        reveal_strlit("1");
        reveal_strlit("2");
        reveal_strlit("3");
        reveal_strlit("4");
        reveal_strlit("5");
        reveal_strlit("6");
        reveal_strlit("7");
        reveal_strlit("8");
        reveal_strlit("9");
    }
    let r: &'static str = if d == 0 {
        "0"
    } else if d == 1 {
        "1"
    } else if d == 2 {
        "2"
    } else if d == 3 {
        "3"
    } else if d == 4 {
        "4"
    } else if d == 5 {
        "5"
    } else if d == 6 {
        "6"
    } else if d == 7 {
        "7"
    } else if d == 8 {
        "8"
    } else {
        "9"
    };
    proof {
        assert(r@ =~= seq![digit_char(d as int)]);
    }
    r
}

/// The digit characters of a least-significant-first digit list, read back
/// most significant first.
spec fn digits_rev(s: Seq<u64>) -> Seq<char> {
    Seq::new(s.len(), |i: int| digit_char(s[s.len() - 1 - i] as int))
}

/// Renders a natural number in decimal.
pub fn u64_to_string(n: u64) -> (r: String)
    ensures
        r@ == dec_digits(n as nat),
{
    let mut digits: Vec<u64> = Vec::new();
    let mut m: u64 = n;
    if m == 0 {
        digits.push(0);
        proof {
            assert(digits_rev(digits@) =~= dec_digits(0));
        }
    }
    proof {
        if n > 0 {
            assert(dec_digits(n as nat) =~= dec_digits(n as nat) + digits_rev(digits@));
        }
    }
    while m > 0
        invariant
            m > 0 ==> dec_digits(n as nat) == dec_digits(m as nat) + digits_rev(digits@),
            m == 0 ==> dec_digits(n as nat) == digits_rev(digits@),
            forall|k: int| 0 <= k < digits.len() ==> #[trigger] digits@[k] < 10,
        decreases m,
    {
        let d: u64 = m % 10;
        let ghost prev = digits@;
        let ghost m0 = m as nat;
        digits.push(d);
        m = m / 10;
        proof {
            assert(digits_rev(digits@) =~= seq![digit_char(d as int)] + digits_rev(prev));
            if m0 < 10 {
                assert(dec_digits(m0) == seq![digit_char(d as int)]);
                assert(dec_digits(n as nat) =~= digits_rev(digits@));
            } else {
                assert(dec_digits(m0) == dec_digits(m0 / 10) + seq![digit_char((m0 % 10) as int)]);
                assert(dec_digits(n as nat) =~= dec_digits(m as nat) + digits_rev(digits@));
            }
        }
    }
    let mut r = String::new();
    let mut i: usize = digits.len();
    proof {
        assert(r@ =~= digits_rev(digits@).take(0));
    }
    while i > 0
        invariant
            i <= digits.len(),
            dec_digits(n as nat) == digits_rev(digits@),
            forall|k: int| 0 <= k < digits.len() ==> #[trigger] digits@[k] < 10,
            r@ == digits_rev(digits@).take(digits.len() - i),
        decreases i,
    {
        i = i - 1;
        let ghost before = r@;
        r.append(digit_str(digits[i]));
        proof {
            assert(r@ =~= digits_rev(digits@).take(digits@.len() - i));
        }
    }
    proof {
        assert(r@ =~= dec_digits(n as nat));
    }
    r
}

/// Renders a signed integer in decimal.
pub fn i64_to_string(n: i64) -> (r: String)
    ensures
        r@ == dec_int(n as int),
{
    if n >= 0 {
        u64_to_string(n as u64)
    } else {
        let mag: u64 = (-(n as i128)) as u64;
        let mut r = String::from_str("-");
        proof {
            reveal_strlit("-");
            assert(r@ =~= seq!['-']);
        }
        let ds = u64_to_string(mag);
        r.append(ds.as_str());
        r
    }
}

/// Renders a 32-bit signed integer in decimal.
pub fn i32_to_string(n: i32) -> (r: String)
    ensures
        r@ == dec_int(n as int),
{
    i64_to_string(n as i64)
}

/// Renders an HTTP status code in decimal.
pub fn u16_to_string(n: u16) -> (r: String)
    ensures
        r@ == dec_digits(n as nat),
{
    u64_to_string(n as u64)
}

} // verus!
