//! Decimal-integer parsing for wire fields that must carry a number (the
//! CVV). A string parses as an `i64` exactly when it is an optional sign
//! followed by one or more decimal digits and its value fits the type;
//! anything else is rejected, so a malformed field becomes a typed error
//! upstream rather than a silently defaulted value.

use vstd::prelude::*;

verus! {

/// A decimal digit, by code point (`'0'` is 48, `'9'` is 57).
pub open spec fn is_digit_char(c: char) -> bool {
    48 <= c as int <= 57
}

/// The numeric value of a decimal digit.
pub open spec fn digit_val(c: char) -> int {
    c as int - 48
}

pub open spec fn all_digits(s: Seq<char>) -> bool {
    forall|i: int| 0 <= i < s.len() ==> is_digit_char(s[i])
}

/// The value of a digit string read most-significant first.
pub open spec fn digits_value(s: Seq<char>) -> int
    decreases s.len(),
{
    if s.len() == 0 {
        0
    } else {
        digits_value(s.drop_last()) * 10 + digit_val(s.last())
    }
}

/// The digit portion of a decimal string: everything after an optional
/// leading sign.
pub open spec fn digits_part(s: Seq<char>) -> Seq<char> {
    if s.len() > 0 && (s[0] == '+' || s[0] == '-') {
        s.subrange(1, s.len() as int)
    } else {
        s
    }
}

/// A decimal integer string: an optional sign, then one or more digits.
pub open spec fn is_decimal_string(s: Seq<char>) -> bool {
    digits_part(s).len() > 0 && all_digits(digits_part(s))
}

/// The signed value of a decimal integer string.
pub open spec fn decimal_value(s: Seq<char>) -> int {
    if s.len() > 0 && s[0] == '-' {
        -digits_value(digits_part(s))
    } else {
        digits_value(digits_part(s))
    }
}

/// What parsing a string as an `i64` yields: its value when the string is a
/// decimal integer whose value fits, nothing otherwise.
pub open spec fn spec_parse_i64(s: Seq<char>) -> Option<int> {
    if is_decimal_string(s) && i64::MIN <= decimal_value(s) <= i64::MAX {
        Some(decimal_value(s))
    } else {
        None
    }
}

proof fn lemma_digits_value_nonneg(s: Seq<char>)
    requires
        all_digits(s),
    ensures
        digits_value(s) >= 0,
    decreases s.len(),
{
    if s.len() > 0 {
        assert(all_digits(s.drop_last()));
        lemma_digits_value_nonneg(s.drop_last());
    }
}

proof fn lemma_digits_value_take_succ(s: Seq<char>, j: int)
    requires
        0 <= j < s.len(),
    ensures
        digits_value(s.take(j + 1)) == digits_value(s.take(j)) * 10 + digit_val(s[j]),
{
    assert(s.take(j + 1).drop_last() =~= s.take(j));
    assert(s.take(j + 1).last() == s[j]);
}

/// Appending digits can only grow a digit string's value.
proof fn lemma_digits_value_prefix_le(s: Seq<char>, j: int)
    requires
        all_digits(s),
        0 <= j <= s.len(),
    ensures
        digits_value(s.take(j)) <= digits_value(s),
    decreases s.len() - j,
{
    if j == s.len() {
        assert(s.take(j) =~= s);
    } else {
        lemma_digits_value_take_succ(s, j);
        assert(all_digits(s.take(j)));
        lemma_digits_value_nonneg(s.take(j));
        lemma_digits_value_prefix_le(s, j + 1);
    }
}

/// Parse a decimal integer string as an `i64`, accepting exactly the
/// strings that [`spec_parse_i64`] accepts.
pub fn parse_i64(s: &str) -> (r: Option<i64>)
    ensures
        r matches Some(v) ==> spec_parse_i64(s@) == Some(v as int),
        r is None ==> spec_parse_i64(s@) is None,
{
    let n = s.unicode_len();
    let mut start: usize = 0;
    let mut negative = false;
    if n > 0 {
        let c0 = s.get_char(0);
        if c0 == '-' {
            negative = true;
            start = 1;
        } else if c0 == '+' {
            start = 1;
        }
    }
    let ghost ds = digits_part(s@);
    proof {
        assert(ds =~= s@.subrange(start as int, n as int));
    }
    if start >= n {
        return None;
    }
    let mut acc: i128 = 0;
    let mut j: usize = start;
    while j < n
        invariant
            start <= j <= n,
            n == s@.len(),
            start == 0 || start == 1,
            negative <==> (s@.len() > 0 && s@[0] == '-'),
            ds == digits_part(s@),
            ds =~= s@.subrange(start as int, n as int),
            ds.len() == n - start,
            all_digits(ds.take(j - start)),
            acc == digits_value(ds.take(j - start)),
            0 <= acc <= 0x8000_0000_0000_0000,
        decreases n - j,
    {
        let c = s.get_char(j);
        let cp: u32 = c as u32;
        if cp < 48 || cp > 57 {
            proof {
                assert(ds[j - start] == c);
                assert(!all_digits(ds)) by {
                    assert(!is_digit_char(ds[j - start]));
                }
            }
            return None;
        }
        let dv: i128 = (cp - 48) as i128;
        proof {
            assert(ds[j - start] == c);
            assert(is_digit_char(c));
            assert(dv == digit_val(c));
            lemma_digits_value_take_succ(ds, j - start);
        }
        acc = acc * 10 + dv;
        proof {
            assert(all_digits(ds.take(j + 1 - start)));
        }
        if acc > 0x8000_0000_0000_0000i128 {
            proof {
                if all_digits(ds) {
                    lemma_digits_value_prefix_le(ds, j + 1 - start);
                }
            }
            return None;
        }
        j = j + 1;
    }
    proof {
        assert(ds.take(n - start) =~= ds);
    }
    if negative {
        proof {
            assert(decimal_value(s@) == -digits_value(ds));
        }
        Some((-acc) as i64)
    } else {
        if acc > 0x7fff_ffff_ffff_ffffi128 {
            return None;
        }
        Some(acc as i64)
    }
}

} // verus!
