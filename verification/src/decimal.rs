//! Decimal numerals: parsing caller-supplied numeric parameters (with
//! saturation at a cap, so that arbitrarily long numerals still clamp
//! correctly) and printing unsigned integers as decimal text for statement
//! limits and out-of-range value fallbacks.

use vstd::prelude::*;
use vstd::string::StrSliceExecFns;
use vstd::string::StringExecFns;

verus! {

/// An ASCII decimal digit.
pub open spec fn is_dec_digit(c: char) -> bool {
    ('0' as u32) <= c as u32 && c as u32 <= ('9' as u32)
}

/// Numeric value of a decimal digit character.
pub open spec fn digit_val(c: char) -> nat
    recommends
        is_dec_digit(c),
{
    (c as u32 - '0' as u32) as nat
}

/// Every character of the sequence is a decimal digit.
pub open spec fn all_digits(s: Seq<char>) -> bool {
    forall|i: int| 0 <= i < s.len() ==> is_dec_digit(s[i])
}

/// The numerical value of a digit sequence read in base ten.
pub open spec fn dec_val(s: Seq<char>) -> nat
    decreases s.len(),
{
    if s.len() == 0 {
        0
    } else {
        dec_val(s.drop_last()) * 10 + digit_val(s.last())
    }
}

/// The numeral with an optional leading plus sign stripped, as the standard
/// integer parsers accept.
pub open spec fn digits_part(s: Seq<char>) -> Seq<char> {
    if s.len() > 0 && s[0] == '+' {
        s.skip(1)
    } else {
        s
    }
}

/// The sequence is a well-formed non-negative decimal numeral: non-empty
/// digits after an optional leading plus sign.
pub open spec fn is_dec_numeral(s: Seq<char>) -> bool {
    digits_part(s).len() > 0 && all_digits(digits_part(s))
}

/// The digit character for a value in 0..10.
pub open spec fn digit_char(d: nat) -> char {
    if d == 0 {
        '0'
    } else if d == 1 {
        '1'
    } else if d == 2 {
        '2'
    } else if d == 3 {
        '3'
    } else if d == 4 {
        '4'
    } else if d == 5 {
        '5'
    } else if d == 6 {
        '6'
    } else if d == 7 {
        '7'
    } else if d == 8 {
        '8'
    } else {
        '9'
    }
}

/// The canonical decimal numeral of a natural number (no sign, no leading
/// zeros except for zero itself).
pub open spec fn dec_rep(n: nat) -> Seq<char>
    decreases n,
{
    if n < 10 {
        seq![digit_char(n)]
    } else {
        dec_rep(n / 10).push(digit_char(n % 10))
    }
}

fn digit_str(d: u64) -> (r: &'static str)
    requires
        d < 10,
    ensures
        r@ == seq![digit_char(d as nat)],
{
    proof {
        reveal_strlit("0");
        reveal_strlit("1");
        reveal_strlit("2");
        reveal_strlit("3");
        reveal_strlit("4");
        reveal_strlit("5");
        reveal_strlit("6");
        reveal_strlit("7");
        reveal_strlit("8");
        reveal_strlit("9");
    }
    if d == 0 {
        proof {
            assert("0"@ =~= seq![digit_char(0)]);
        }
        "0"
    } else if d == 1 {
        proof {
            assert("1"@ =~= seq![digit_char(1)]);
        }
        "1"
    } else if d == 2 {
        proof {
            assert("2"@ =~= seq![digit_char(2)]);
        }
        "2"
    } else if d == 3 {
        proof {
            assert("3"@ =~= seq![digit_char(3)]);
        }
        "3"
    } else if d == 4 {
        proof {
            assert("4"@ =~= seq![digit_char(4)]);
        }
        "4"
    } else if d == 5 {
        proof {
            assert("5"@ =~= seq![digit_char(5)]);
        }
        "5"
    } else if d == 6 {
        proof {
            assert("6"@ =~= seq![digit_char(6)]);
        }
        "6"
    } else if d == 7 {
        proof {
            assert("7"@ =~= seq![digit_char(7)]);
        }
        "7"
    } else if d == 8 {
        proof {
            assert("8"@ =~= seq![digit_char(8)]);
        }
        "8"
    } else {
        proof {
            assert("9"@ =~= seq![digit_char(9)]);
        }
        "9"
    }
}

/// Prints an unsigned integer as its canonical decimal numeral.
pub fn u64_to_dec(n: u64) -> (r: String)
    ensures
        r@ == dec_rep(n as nat),
    decreases n,
{
    if n < 10 {
        String::from_str(digit_str(n))
    } else {
        let mut s = u64_to_dec(n / 10);
        s.append(digit_str(n % 10));
        proof {
            assert(s@ =~= dec_rep((n / 10) as nat).push(digit_char((n % 10) as nat)));
        }
        s
    }
}

/// The canonical decimal numeral of an integer: a minus sign before the
/// magnitude for negative values.
pub open spec fn int_dec_rep(i: int) -> Seq<char> {
    if i < 0 {
        seq!['-'] + dec_rep((-i) as nat)
    } else {
        dec_rep(i as nat)
    }
}

/// Prints a signed integer as its canonical decimal numeral.
pub fn i64_to_dec(n: i64) -> (r: String)
    ensures
        r@ == int_dec_rep(n as int),
{
    if n >= 0 {
        u64_to_dec(n as u64)
    } else {
        // The magnitude is computed without negating n itself, which would
        // overflow at the smallest value.
        let mag: u64 = ((-(n + 1)) as u64) + 1;
        proof {
            assert(mag == -(n as int));
        }
        let mut s = String::from_str("-");
        let digits = u64_to_dec(mag);
        s.append(digits.as_str());
        proof {
            reveal_strlit("-");
            assert("-"@ =~= seq!['-']);
            assert(s@ =~= seq!['-'] + dec_rep((-(n as int)) as nat));
        }
        s
    }
}

/// Reads a decimal numeral, saturating at `cap + 1`: the result is `None`
/// when the text is not a numeral, `Some(v)` with the exact value when the
/// value is at most `cap`, and `Some(cap + 1)` otherwise.
pub fn parse_dec_saturating(s: &str, cap: u32) -> (r: Option<u32>)
    requires
        cap <= 0xffff,
    ensures
        r == if is_dec_numeral(s@) {
            if dec_val(digits_part(s@)) > cap {
                Some((cap + 1) as u32)
            } else {
                Some(dec_val(digits_part(s@)) as u32)
            }
        } else {
            None::<u32>
        },
{
    let len = s.unicode_len();
    let mut i: usize = 0;
    if len > 0 && s.get_char(0) == '+' {
        i = 1;
    }
    proof {
        assert(digits_part(s@) =~= s@.skip(i as int));
    }
    if i == len {
        return None;
    }
    let ghost d = digits_part(s@);
    let start = i;
    let mut acc: u32 = 0;
    while i < len
        invariant
            start <= i <= len,
            len == s@.len(),
            d == digits_part(s@),
            d =~= s@.skip(start as int),
            start < len,
            start <= 1,
            cap <= 0xffff,
            all_digits(d.take(i - start)),
            acc == if dec_val(d.take(i - start)) > cap {
                (cap + 1) as nat
            } else {
                dec_val(d.take(i - start))
            },
        decreases len - i,
    {
        let c = s.get_char(i);
        let u = c as u32;
        if !(48 <= u && u <= 57) {
            proof {
                assert(d[i - start] == s@[i as int]);
                assert(!is_dec_digit(d[i - start]));
            }
            return None;
        }
        let dv: u32 = u - 48;
        proof {
            assert(d.take(i - start + 1).drop_last() =~= d.take(i - start));
            assert(d.take(i - start + 1).last() == s@[i as int]);
            assert(dec_val(d.take(i - start + 1)) == dec_val(d.take(i - start)) * 10 + dv);
        }
        if acc > cap {
            acc = cap + 1;
        } else {
            // While acc still tracks the value exactly, the next value
            // exceeds the cap whenever acc is above cap / 10: saturate then,
            // which also keeps acc * 10 + dv inside u32.
            if acc > (cap / 10) {
                acc = cap + 1;
                proof {
                    assert(dec_val(d.take(i - start)) * 10 + dv > cap) by (nonlinear_arith)
                        requires
                            dec_val(d.take(i - start)) > cap / 10,
                            dec_val(d.take(i - start)) <= cap,
                            cap >= 0,
                            dv >= 0,
                    ;
                }
            } else {
                acc = acc * 10 + dv;
                if acc > cap {
                    acc = cap + 1;
                }
            }
        }
        i += 1;
    }
    proof {
        assert(d.take(len - start) =~= d);
    }
    Some(acc)
}

} // verus!
