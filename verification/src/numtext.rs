//! Decimal text for the widget: rendering integers and tenths-valued
//! quantities as strings, and parsing the numeric input field.
//!
//! The status panel shows zoom and brightness with one decimal place and the
//! cam value as a plain integer; the input field hands back free text that
//! must be read as an integer, with malformed text rejected rather than
//! trusted.

use vstd::prelude::*;
use vstd::string::StrSliceExecFns;
use vstd::string::StringExecFns;

verus! {

/// Whether `c` is an ASCII decimal digit.
pub open spec fn is_digit_char(c: char) -> bool {
    48 <= c as int <= 57
}

/// The numeric value of an ASCII digit character.
pub open spec fn digit_val(c: char) -> int {
    c as int - 48
}

/// The digit character for a value in 0..=9.
pub open spec fn digit_char(d: int) -> char {
    if d == 0 {
        '0'
    } else if d == 1 {
        '1'
    } else if d == 2 {
        '2'
    } else if d == 3 {
        '3'
    } else if d == 4 {
        '4'
    } else if d == 5 {
        '5'
    } else if d == 6 {
        '6'
    } else if d == 7 {
        '7'
    } else if d == 8 {
        '8'
    } else {
        '9'
    }
}

/// Standard decimal form of a natural number: most significant digit first,
/// no leading zero except for zero itself.
pub open spec fn spec_nat_str(n: nat) -> Seq<char>
    decreases n,
{
    if n < 10 {
        seq![digit_char(n as int)]
    } else {
        spec_nat_str(n / 10) + seq![digit_char((n % 10) as int)]
    }
}

/// Decimal form of an integer: a leading minus sign when negative.
pub open spec fn spec_int_str(v: int) -> Seq<char> {
    if v < 0 {
        seq!['-'] + spec_nat_str((-v) as nat)
    } else {
        spec_nat_str(v as nat)
    }
}

/// One-decimal fixed-point form of a value counted in tenths: `15` renders
/// as `1.5`, `-5` as `-0.5`, `30` as `3.0`.
pub open spec fn spec_tenths_str(t: int) -> Seq<char> {
    let sign: Seq<char> = if t < 0 {
        seq!['-']
    } else {
        Seq::<char>::empty()
    };
    let m: int = if t < 0 {
        -t
    } else {
        t
    };
    sign + spec_nat_str((m / 10) as nat) + seq!['.'] + seq![digit_char(m % 10)]
}

/// The string slice holding exactly one given digit.
fn digit_str(d: u32) -> (r: &'static str)
    requires
        d < 10,
    ensures
        r@ == seq![digit_char(d as int)],
{
    proof {
        reveal_strlit("0");
        reveal_strlit("1");
        reveal_strlit("2");
        reveal_strlit("3");
        reveal_strlit("4");
        reveal_strlit("5");
        reveal_strlit("6");
        reveal_strlit("7");
        reveal_strlit("8");
        reveal_strlit("9");
    }
    let r = match d {
        0 => "0",
        1 => "1",
        2 => "2",
        3 => "3",
        4 => "4",
        5 => "5",
        6 => "6",
        7 => "7",
        8 => "8",
        _ => "9",
    };
    proof {
        assert(r@ =~= seq![digit_char(d as int)]);
    }
    r
}

/// Decimal rendering of an unsigned 32-bit value.
pub fn u32_to_string(n: u32) -> (r: String)
    ensures
        r@ == spec_nat_str(n as nat),
    decreases n,
{
    if n < 10 {
        String::from_str(digit_str(n))
    } else {
        let mut s = u32_to_string(n / 10);
        s.append(digit_str(n % 10));
        s
    }
}

/// Decimal rendering of a signed 32-bit value.
pub fn i32_to_string(v: i32) -> (r: String)
    ensures
        r@ == spec_int_str(v as int),
{
    if v >= 0 {
        u32_to_string(v as u32)
    } else {
        let mag: u32 = (-(v as i64)) as u32;
        proof {
            assert(mag as int == -(v as int));
            reveal_strlit("-");
        }
        let mut s = String::from_str("-");
        let digits = u32_to_string(mag);
        s.append(digits.as_str());
        proof {
            assert(s@ =~= spec_int_str(v as int));
        }
        s
    }
}

/// One-decimal rendering of a tenths-valued quantity, as the status panel
/// shows zoom and brightness.
pub fn tenths_to_string(t: i32) -> (r: String)
    ensures
        r@ == spec_tenths_str(t as int),
{
    let mag: u32 = if t >= 0 {
        t as u32
    } else {
        (-(t as i64)) as u32
    };
    proof {
        assert(mag as int == if t < 0 {
            -(t as int)
        } else {
            t as int
        });
        reveal_strlit("-");
        reveal_strlit(".");
    }
    let mut s = if t < 0 {
        String::from_str("-")
    } else {
        String::new()
    };
    let whole = u32_to_string(mag / 10);
    s.append(whole.as_str());
    s.append(".");
    s.append(digit_str(mag % 10));
    proof {
        assert(s@ =~= spec_tenths_str(t as int));
    }
    s
}

/// Whether every character of `s` is an ASCII decimal digit.
pub open spec fn all_digits(s: Seq<char>) -> bool {
    forall|i: int| 0 <= i < s.len() ==> is_digit_char(#[trigger] s[i])
}

/// The base-10 value of a digit string (the empty string counts as 0).
pub open spec fn digits_val(s: Seq<char>) -> int
    decreases s.len(),
{
    if s.len() == 0 {
        0
    } else {
        digits_val(s.drop_last()) * 10 + digit_val(s.last())
    }
}

/// What the numeric input accepts: an optional single leading sign followed
/// by one or more ASCII digits, whose value fits in a 32-bit signed
/// integer. Anything else - empty text, stray characters, an out-of-range
/// value - is rejected.
pub open spec fn spec_parse_i32(s: Seq<char>) -> Option<i32> {
    let negative = s.len() > 0 && s[0] == '-';
    let body = if s.len() > 0 && (s[0] == '-' || s[0] == '+') {
        s.skip(1)
    } else {
        s
    };
    if body.len() == 0 || !all_digits(body) {
        None
    } else {
        let v = if negative {
            -digits_val(body)
        } else {
            digits_val(body)
        };
        if -0x8000_0000 <= v <= 0x7fff_ffff {
            Some(v as i32)
        } else {
            None
        }
    }
}

/// Fallible integer parse for the input field. Returns exactly the value
/// the text denotes, or `None` on malformed or out-of-range text; it never
/// panics, whatever the text holds.
pub fn parse_i32(s: &str) -> (r: Option<i32>)
    ensures
        r == spec_parse_i32(s@),
{
    let len = s.unicode_len();
    let mut start: usize = 0;
    let mut negative = false;
    if len > 0 {
        let c0 = s.get_char(0);
        if c0 == '-' {
            negative = true;
            start = 1;
        } else if c0 == '+' {
            start = 1;
        }
    }
    if start >= len {
        return None;
    }
    let ghost body = s@.skip(start as int);
    proof {
        assert(s@.skip(0) =~= s@);
    }
    let mut acc: u64 = 0;
    let mut j: usize = start;
    while j < len
        invariant
            start <= j <= len,
            len == s@.len(),
            start <= 1,
            start == 1 <==> s@.len() > 0 && (s@[0] == '-' || s@[0] == '+'),
            body == s@.skip(start as int),
            all_digits(body.take(j - start)),
            0 <= digits_val(body.take(j - start)),
            digits_val(body.take(j - start)) <= 0xffff_ffff ==> acc == digits_val(
                body.take(j - start),
            ),
            digits_val(body.take(j - start)) > 0xffff_ffff ==> acc == 0x1_0000_0000,
            acc <= 0x1_0000_0000,
        decreases len - j,
    {
        let c = s.get_char(j);
        let u = c as u32;
        if u < 48 || u > 57 {
            proof {
                assert(body[j - start] == s@[j as int]);
                assert(!is_digit_char(body[j - start]));
                assert(!all_digits(body));
            }
            return None;
        }
        let d = (u - 48) as u64;
        proof {
            let pref = body.take(j - start);
            let pref2 = body.take(j + 1 - start);
            assert(pref2.drop_last() =~= pref);
            assert(pref2.last() == body[j - start]);
            assert(body[j - start] == s@[j as int]);
            assert(digits_val(pref2) == digits_val(pref) * 10 + digit_val(s@[j as int]));
        }
        acc = acc * 10 + d;
        if acc > 0xffff_ffff {
            acc = 0x1_0000_0000;
        }
        j = j + 1;
    }
    proof {
        assert(body.take(len - start) =~= body);
    }
    if negative {
        if acc <= 0x8000_0000 {
            Some((-(acc as i64)) as i32)
        } else {
            None
        }
    } else {
        if acc <= 0x7fff_ffff {
            Some(acc as i32)
        } else {
            None
        }
    }
}

} // verus!
