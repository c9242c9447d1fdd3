//! Base-ten digit strings: reading a partition number out of tool output
//! and rendering one back when a device node name is built.

use vstd::arithmetic::div_mod::lemma_div_denominator;
use vstd::prelude::*;
use vstd::string::*;

use crate::text::FatalParseError;

verus! {

/// Whether `c` is a decimal digit.
pub open spec fn is_digit(c: char) -> bool {
    48 <= c as int && c as int <= 57
}

/// Numeric value of the digit `c`.
pub open spec fn digit_val(c: char) -> int {
    c as int - 48
}

/// Whether every character of `s` is a decimal digit.
pub open spec fn all_digits(s: Seq<char>) -> bool {
    forall|k: int| 0 <= k < s.len() ==> is_digit(#[trigger] s[k])
}

/// The number that the digit string `s` denotes in base ten.
pub open spec fn dec_value(s: Seq<char>) -> int
    decreases s.len(),
{
    if s.len() == 0 {
        0
    } else {
        dec_value(s.drop_last()) * 10 + digit_val(s.last())
    }
}

/// A digit string denotes a non-negative number.
pub proof fn lemma_dec_value_nonneg(s: Seq<char>)
    requires
        all_digits(s),
    ensures
        dec_value(s) >= 0,
    decreases s.len(),
{
    if s.len() > 0 {
        assert(all_digits(s.drop_last()));
        lemma_dec_value_nonneg(s.drop_last());
    }
}

/// A prefix of a digit string denotes at most what the whole denotes.
pub proof fn lemma_dec_value_take_le(s: Seq<char>, k: int)
    requires
        all_digits(s),
        0 <= k <= s.len(),
    ensures
        dec_value(s.take(k)) <= dec_value(s),
    decreases s.len() - k,
{
    if k == s.len() {
        assert(s.take(k) =~= s);
    } else {
        assert(s.take(k + 1).drop_last() =~= s.take(k));
        assert(s.take(k + 1).last() == s[k]);
        assert(all_digits(s.take(k)));
        lemma_dec_value_nonneg(s.take(k));
        assert(dec_value(s.take(k + 1)) == dec_value(s.take(k)) * 10 + digit_val(s[k]));
        assert(dec_value(s.take(k)) <= dec_value(s.take(k + 1)));
        lemma_dec_value_take_le(s, k + 1);
    }
}

/// Read a base-ten number out of `s`. The call succeeds exactly when `s`
/// is non-empty, consists of decimal digits only, and denotes a value
/// that fits in a `u8`; any other shape is a structural failure.
pub fn parse_u8(s: &str) -> (r: Result<u8, FatalParseError>)
    ensures
        r matches Ok(v) ==> s@.len() > 0 && all_digits(s@) && dec_value(s@) == v as int,
        r is Err ==> !(s@.len() > 0 && all_digits(s@) && dec_value(s@) <= 255),
{
    let n: usize = s.unicode_len();
    if n == 0 {
        return Err(FatalParseError);
    }
    let mut acc: u32 = 0;
    let mut i: usize = 0;
    proof {
        assert(s@.take(0) =~= Seq::<char>::empty());
    }
    while i < n
        invariant
            i <= n,
            n == s@.len(),
            n > 0,
            acc <= 255,
            all_digits(s@.take(i as int)),
            acc as int == dec_value(s@.take(i as int)),
        decreases n - i,
    {
        let c = s.get_char(i);
        let v = c as u32;
        if v < 48 || v > 57 {
            proof {
                assert(!is_digit(s@[i as int]));
            }
            return Err(FatalParseError);
        }
        let next = acc * 10 + (v - 48);
        proof {
            assert(s@.take(i + 1).drop_last() =~= s@.take(i as int));
            assert(s@.take(i + 1).last() == s@[i as int]);
            assert(all_digits(s@.take(i + 1)));
        }
        if next > 255 {
            proof {
                if all_digits(s@) {
                    lemma_dec_value_take_le(s@, i + 1);
                }
            }
            return Err(FatalParseError);
        }
        acc = next;
        i = i + 1;
    }
    proof {
        assert(s@.take(n as int) =~= s@);
    }
    Ok(acc as u8)
}

/// The digit character for the value `d`.
pub open spec fn digit_char(d: int) -> char {
    if d == 0 {
        '0'
    } else if d == 1 {
        '1'
    } else if d == 2 {
        '2'
    } else if d == 3 {
        '3'
    } else if d == 4 {
        '4'
    } else if d == 5 {
        '5'
    } else if d == 6 {
        '6'
    } else if d == 7 {
        '7'
    } else if d == 8 {
        '8'
    } else {
        '9'
    }
}

/// The base-ten rendering of a non-negative `n`, without leading zeros
/// (zero renders as the single digit `0`).
pub open spec fn dec_rep(n: int) -> Seq<char>
    decreases n,
{
    if n < 10 {
        seq![digit_char(n)]
    } else {
        dec_rep(n / 10) + seq![digit_char(n % 10)]
    }
}

/// The single-character string for the digit value `d`.
fn digit_str(d: u8) -> (r: &'static str)
    requires
        d < 10,
    ensures
        r@ == seq![digit_char(d as int)],
{
    let r: &'static str = if d == 0 {
        "0"
    } else if d == 1 {
        "1"
    } else if d == 2 {
        "2"
    } else if d == 3 {
        "3"
    } else if d == 4 {
        "4"
    } else if d == 5 {
        "5"
    } else if d == 6 {
        "6"
    } else if d == 7 {
        "7"
    } else if d == 8 {
        "8"
    } else {
        "9"
    };
    proof {
        reveal_strlit("0");
        reveal_strlit("1");
        reveal_strlit("2");
        reveal_strlit("3");
        reveal_strlit("4");
        reveal_strlit("5");
        reveal_strlit("6");
        reveal_strlit("7");
        reveal_strlit("8");
        reveal_strlit("9");
        assert(r@ =~= seq![digit_char(d as int)]);
    }
    r
}

/// Render `n` in base ten, as it appears in a device node name.
pub fn u8_to_decimal(n: u8) -> (r: String)
    ensures
        r@ == dec_rep(n as int),
{
    let mut out = String::new();
    if n >= 100 {
        let h = n / 100;
        let t = (n / 10) % 10;
        let u = n % 10;
        proof {
            lemma_div_denominator(n as int, 10, 10);
            assert(n as int / 10 / 10 == n as int / 100);
            assert(dec_rep(n as int / 10) == dec_rep(n as int / 100) + seq![
                digit_char((n as int / 10) % 10),
            ]);
            assert(dec_rep(n as int / 100) == seq![digit_char(n as int / 100)]);
        }
        out.append(digit_str(h));
        out.append(digit_str(t));
        out.append(digit_str(u));
        proof {
            assert(out@ =~= dec_rep(n as int));
        }
    } else if n >= 10 {
        let t = n / 10;
        let u = n % 10;
        proof {
            assert(dec_rep(n as int / 10) == seq![digit_char(n as int / 10)]);
        }
        out.append(digit_str(t));
        out.append(digit_str(u));
        proof {
            assert(out@ =~= dec_rep(n as int));
        }
    } else {
        out.append(digit_str(n));
        proof {
            assert(out@ =~= dec_rep(n as int));
        }
    }
    out
}

} // verus!
