//! Parsing a runtime field: an optional sign followed by decimal digits,
//! exactly the strings that Rust's `i32` parser accepts.

use vstd::prelude::*;
use vstd::string::*;

verus! {

/// Whether the character is a decimal digit.
pub open spec fn is_digit_char(c: char) -> bool {
    48 <= c as int <= 57
}

/// The numeric value of a digit character.
pub open spec fn digit_val(c: char) -> int {
    c as int - 48
}

/// Whether every character of the sequence is a decimal digit.
pub open spec fn all_digits(s: Seq<char>) -> bool {
    forall|i: int| 0 <= i < s.len() ==> is_digit_char(#[trigger] s[i])
}

/// The number the digit sequence denotes, read left to right.
pub open spec fn digits_value(s: Seq<char>) -> int
    decreases s.len(),
{
    if s.len() == 0 {
        0
    } else {
        digits_value(s.drop_last()) * 10 + digit_val(s.last())
    }
}

/// The strings an `i32` parse accepts — an optional `+` or `-` sign, then
/// one or more digits, the value within range — and the value it returns.
pub open spec fn parse_i32_of(s: Seq<char>) -> Option<i32> {
    let signed = s.len() > 0 && (s[0] == '+' || s[0] == '-');
    let neg = s.len() > 0 && s[0] == '-';
    let ds = if signed {
        s.subrange(1, s.len() as int)
    } else {
        s
    };
    if ds.len() == 0 || !all_digits(ds) {
        None
    } else {
        let v = if neg {
            -digits_value(ds)
        } else {
            digits_value(ds)
        };
        if -2147483648 <= v <= 2147483647 {
            Some(v as i32)
        } else {
            None
        }
    }
}

/// A digit string denotes a non-negative number.
proof fn lemma_digits_value_nonneg(s: Seq<char>)
    requires
        all_digits(s),
    ensures
        digits_value(s) >= 0,
    decreases s.len(),
{
    if s.len() > 0 {
        assert(all_digits(s.drop_last())) by {
            assert(forall|i: int|
                0 <= i < s.len() - 1 ==> s.drop_last()[i] == #[trigger] s[i]);
        }
        lemma_digits_value_nonneg(s.drop_last());
    }
}

/// Reading more digits never shrinks the denoted number.
proof fn lemma_digits_value_monotone(s: Seq<char>, t: Seq<char>)
    requires
        all_digits(t),
        s.len() <= t.len(),
        s == t.subrange(0, s.len() as int),
    ensures
        digits_value(s) <= digits_value(t),
    decreases t.len() - s.len(),
{
    if s.len() == t.len() {
        assert(s =~= t);
    } else {
        let t0 = t.drop_last();
        assert(all_digits(t0)) by {
            assert(forall|i: int| 0 <= i < t0.len() ==> t0[i] == #[trigger] t[i]);
        }
        assert(s == t0.subrange(0, s.len() as int)) by {
            assert(t0.subrange(0, s.len() as int) =~= t.subrange(0, s.len() as int));
        }
        lemma_digits_value_monotone(s, t0);
        lemma_digits_value_nonneg(t0);
    }
}

/// Parses the string as Rust's `i32` parser does: an optional sign, then
/// one or more decimal digits, rejected when any other character appears
/// or the value falls outside the `i32` range.
pub fn parse_i32(s: &str) -> (r: Option<i32>)
    ensures
        r == parse_i32_of(s@),
{
    let len = s.unicode_len();
    if len == 0 {
        return None;
    }
    let c0 = s.get_char(0);
    let has_sign = c0 == '+' || c0 == '-';
    let neg = c0 == '-';
    let start: usize = if has_sign {
        1
    } else {
        0
    };
    if start == len {
        return None;
    }
    let ghost ds = if has_sign {
        s@.subrange(1, s@.len() as int)
    } else {
        s@
    };
    let mut i: usize = start;
    let mut acc: i64 = 0;
    while i < len
        invariant
            start <= i <= len,
            len == s@.len(),
            has_sign == (s@.len() > 0 && (s@[0] == '+' || s@[0] == '-')),
            neg == (s@.len() > 0 && s@[0] == '-'),
            start == if has_sign { 1int } else { 0int },
            ds == if has_sign { s@.subrange(1, s@.len() as int) } else { s@ },
            ds.len() == len - start,
            forall|k: int| 0 <= k < ds.len() ==> ds[k] == s@[k + start],
            all_digits(ds.subrange(0, i - start)),
            acc == digits_value(ds.subrange(0, i - start)),
            0 <= acc <= 2147483648,
        decreases len - i,
    {
        let c = s.get_char(i);
        let ghost done = ds.subrange(0, i - start);
        let ghost next = ds.subrange(0, i + 1 - start);
        proof {
            assert(next.drop_last() =~= done);
            assert(next.last() == s@[i as int]);
        }
        let cv = c as u32;
        if cv < 48 || cv > 57 {
            proof {
                assert(!is_digit_char(ds[i - start]));
            }
            return None;
        }
        let d = (cv - 48) as i64;
        acc = acc * 10 + d;
        i = i + 1;
        if acc > 2147483648 {
            proof {
                if all_digits(ds) {
                    lemma_digits_value_monotone(next, ds);
                }
            }
            return None;
        }
    }
    proof {
        assert(ds.subrange(0, (len - start) as int) =~= ds);
    }
    if neg {
        if acc <= 2147483648 {
            Some((-acc) as i32)
        } else {
            None
        }
    } else {
        if acc <= 2147483647 {
            Some(acc as i32)
        } else {
            None
        }
    }
}

} // verus!
