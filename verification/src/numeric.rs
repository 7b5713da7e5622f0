//! Unsigned decimal and hexadecimal text: parsing and formatting.
//!
//! Chain validators read block heights either as decimal strings or as
//! `0x`-prefixed hexadecimal strings; the metrics surface renders status
//! codes as decimal strings.

use vstd::prelude::*;
use vstd::string::*;

verus! {

/// Numeric value of one digit character, or `None` when the character is not
/// a digit of the given base (10 or 16).
pub open spec fn digit_val(c: char, base: int) -> Option<int> {
    let x = c as u32;
    if 48 <= x && x <= 57 {
        Some(x as int - 48)
    } else if base == 16 && 97 <= x && x <= 102 {
        Some(x as int - 97 + 10)
    } else if base == 16 && 65 <= x && x <= 70 {
        Some(x as int - 65 + 10)
    } else {
        None
    }
}

/// Value of a digit string, most significant digit first; `None` when any
/// character is not a digit.  The empty string has value 0.
pub open spec fn digits_val(s: Seq<char>, base: int) -> Option<int>
    decreases s.len(),
{
    if s.len() == 0 {
        Some(0)
    } else {
        match (digits_val(s.drop_last(), base), digit_val(s.last(), base)) {
            (Some(v), Some(d)) => Some(base * v + d),
            _ => None,
        }
    }
}

/// What an unsigned 64-bit parse of `s` in the given base returns: one
/// optional leading `+`, then one or more digits, value within `u64` range.
pub open spec fn parse_u64_of(s: Seq<char>, base: int) -> Option<u64> {
    let t = if s.len() > 0 && s[0] == '+' {
        s.drop_first()
    } else {
        s
    };
    if t.len() == 0 {
        None
    } else {
        match digits_val(t, base) {
            Some(v) => if v <= u64::MAX {
                Some(v as u64)
            } else {
                None
            },
            None => None,
        }
    }
}

pub proof fn lemma_digits_val_nonneg(s: Seq<char>, base: int)
    requires
        base >= 2,
        digits_val(s, base) is Some,
    ensures
        digits_val(s, base).unwrap() >= 0,
    decreases s.len(),
{
    if s.len() > 0 {
        lemma_digits_val_nonneg(s.drop_last(), base);
        let v = digits_val(s.drop_last(), base).unwrap();
        let d = digit_val(s.last(), base).unwrap();
        assert(base * v >= 0) by (nonlinear_arith)
            requires
                base >= 2,
                v >= 0,
        ;
    }
}

/// One bad digit anywhere makes the whole string unparseable.
pub proof fn lemma_digits_val_bad(s: Seq<char>, base: int, j: int)
    requires
        0 <= j < s.len(),
        digit_val(s[j], base) is None,
    ensures
        digits_val(s, base) is None,
    decreases s.len(),
{
    if j < s.len() - 1 {
        lemma_digits_val_bad(s.drop_last(), base, j);
    }
}

/// Every prefix of a parseable digit string is parseable, with a value no
/// larger than the whole string's value.
pub proof fn lemma_digits_val_prefix(s: Seq<char>, base: int, j: int)
    requires
        base >= 2,
        0 <= j <= s.len(),
        digits_val(s, base) is Some,
    ensures
        digits_val(s.take(j), base) is Some,
        digits_val(s.take(j), base).unwrap() <= digits_val(s, base).unwrap(),
    decreases s.len() - j,
{
    if j == s.len() {
        assert(s.take(j) =~= s);
    } else {
        lemma_digits_val_prefix(s, base, j + 1);
        let t1 = s.take(j + 1);
        assert(t1.drop_last() =~= s.take(j));
        let v = digits_val(s.take(j), base).unwrap();
        let d = digit_val(t1.last(), base).unwrap();
        lemma_digits_val_nonneg(s.take(j), base);
        assert(base * v + d >= v) by (nonlinear_arith)
            requires
                base >= 2,
                v >= 0,
                d >= 0,
        ;
    }
}

/// Digit value of one character, as executable code.
fn digit_of(c: char, base: u64) -> (r: Option<u64>)
    requires
        base == 10 || base == 16,
    ensures
        match r {
            Some(d) => digit_val(c, base as int) == Some(d as int) && d < base,
            None => digit_val(c, base as int) is None,
        },
{
    let x = c as u32;
    if 48 <= x && x <= 57 {
        Some((x - 48) as u64)
    } else if base == 16 && 97 <= x && x <= 102 {
        Some((x - 97 + 10) as u64)
    } else if base == 16 && 65 <= x && x <= 70 {
        Some((x - 65 + 10) as u64)
    } else {
        None
    }
}

/// Parse an unsigned 64-bit integer written in base 10 or 16: an optional
/// leading `+`, then one or more digits; rejects anything else, the empty
/// string, and values above `u64::MAX`.
pub fn parse_u64_str(s: &str, base: u64) -> (r: Option<u64>)
    requires
        base == 10 || base == 16,
    ensures
        r == parse_u64_of(s@, base as int),
{
    let n = s.unicode_len();
    let start: usize = if n > 0 && s.get_char(0) == '+' {
        1
    } else {
        0
    };
    let ghost t = s@.skip(start as int);
    proof {
        if start == 1 {
            assert(t =~= s@.drop_first());
        } else {
            assert(t =~= s@);
        }
    }
    if start >= n {
        return None;
    }
    let mut acc: u64 = 0;
    let mut i: usize = start;
    while i < n
        invariant
            base == 10 || base == 16,
            start <= i <= n,
            n == s@.len(),
            start <= 1,
            t == s@.skip(start as int),
            t == (if s@.len() > 0 && s@[0] == '+' {
                s@.drop_first()
            } else {
                s@
            }),
            t.len() == n - start,
            digits_val(t.take(i - start), base as int) == Some(acc as int),
        decreases n - i,
    {
        let c = s.get_char(i);
        proof {
            assert(t[i - start] == s@[i as int]);
        }
        match digit_of(c, base) {
            None => {
                proof {
                    lemma_digits_val_bad(t, base as int, i - start);
                }
                return None;
            },
            Some(d) => {
                let ghost acc0 = acc as int;
                let ghost w = base as int * acc0 + d;
                proof {
                    let tj = t.take(i - start + 1);
                    assert(tj.drop_last() =~= t.take(i - start));
                    assert(tj.last() == t[i - start]);
                    assert(digits_val(tj, base as int) == Some(w));
                }
                let limit: u64 = if base == 16 {
                    1152921504606846975
                } else {
                    1844674407370955161
                };
                if acc > limit {
                    proof {
                        if base == 16 {
                            assert(w == 16 * acc0 + d);
                        } else {
                            assert(w == 10 * acc0 + d);
                        }
                        assert(w > u64::MAX);
                        if digits_val(t, base as int) is Some {
                            lemma_digits_val_prefix(t, base as int, i - start + 1);
                        }
                    }
                    return None;
                }
                let acc2: u64 = if base == 16 {
                    acc * 16
                } else {
                    acc * 10
                };
                proof {
                    assert(acc2 as int == base as int * acc0);
                }
                if d > u64::MAX - acc2 {
                    proof {
                        assert(w > u64::MAX);
                        if digits_val(t, base as int) is Some {
                            lemma_digits_val_prefix(t, base as int, i - start + 1);
                        }
                    }
                    return None;
                }
                acc = acc2 + d;
            },
        }
        i = i + 1;
    }
    proof {
        assert(t.take(i - start) =~= t);
    }
    Some(acc)
}

/// The decimal digit character for a value in 0..=9.
pub open spec fn dec_digit(d: int) -> char {
    if d == 0 {
        '0'
    } else if d == 1 {
        '1'
    } else if d == 2 {
        '2'
    } else if d == 3 {
        '3'
    } else if d == 4 {
        '4'
    } else if d == 5 {
        '5'
    } else if d == 6 {
        '6'
    } else if d == 7 {
        '7'
    } else if d == 8 {
        '8'
    } else {
        '9'
    }
}

/// The decimal rendering of a non-negative integer, without sign or leading
/// zeros (`0` itself renders as `"0"`).
pub open spec fn dec_str_of(n: nat) -> Seq<char>
    decreases n,
{
    if n < 10 {
        seq![dec_digit(n as int)]
    } else {
        dec_str_of(n / 10).push(dec_digit((n % 10) as int))
    }
}

/// One decimal digit as a string slice.
fn digit_str(d: u64) -> (r: &'static str)
    requires
        d < 10,
    ensures
        r@ == seq![dec_digit(d as int)],
{
    proof {
        reveal_strlit("0");
        reveal_strlit("1");
        reveal_strlit("2");
        reveal_strlit("3");
        reveal_strlit("4");
        reveal_strlit("5");
        reveal_strlit("6");
        reveal_strlit("7");
        reveal_strlit("8");
        reveal_strlit("9");
    }
    let r: &'static str = if d == 0 {
        "0"
    } else if d == 1 {
        "1"
    } else if d == 2 {
        "2"
    } else if d == 3 {
        "3"
    } else if d == 4 {
        "4"
    } else if d == 5 {
        "5"
    } else if d == 6 {
        "6"
    } else if d == 7 {
        "7"
    } else {
        "8"
    };
    let r: &'static str = if d == 9 {
        "9"
    } else {
        r
    };
    proof {
        assert(r@ =~= seq![dec_digit(d as int)]);
    }
    r
}

/// Render an unsigned integer in decimal.
pub fn u64_to_dec_string(n: u64) -> (r: String)
    ensures
        r@ == dec_str_of(n as nat),
    decreases n,
{
    if n < 10 {
        digit_str(n).to_owned()
    } else {
        let mut s = u64_to_dec_string(n / 10);
        s.append(digit_str(n % 10));
        proof {
            assert(s@ =~= dec_str_of((n / 10) as nat).push(dec_digit((n % 10) as int)));
        }
        s
    }
}

} // verus!
