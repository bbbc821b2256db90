//! Decimal integer parsing for the value resolver.
//!
//! `spec_parse_int` states what a signed decimal text means: an optional
//! `'+'` or `'-'` sign, then one or more ASCII decimal digits, and a value
//! inside the given bounds; anything else parses to `None`. The executable
//! parser is proved to return exactly that.

use vstd::prelude::*;
use vstd::string::StrSliceExecFns;

verus! {

pub open spec fn is_dec_digit(c: char) -> bool {
    '0' as int <= c as int && c as int <= '9' as int
}

pub open spec fn digit_val(c: char) -> int {
    c as int - '0' as int
}

pub open spec fn all_dec_digits(s: Seq<char>) -> bool {
    forall|i: int| 0 <= i < s.len() ==> is_dec_digit(#[trigger] s[i])
}

/// The value of a sequence of decimal digits, most significant first.
pub open spec fn dec_val(s: Seq<char>) -> int
    decreases s.len(),
{
    if s.len() == 0 {
        0
    } else {
        dec_val(s.drop_last()) * 10 + digit_val(s.last())
    }
}

/// What parsing `s` as a signed decimal integer within `[lo, hi]` yields:
/// an optional single sign, then at least one digit, nothing else, and a
/// value inside the bounds; otherwise nothing.
pub open spec fn spec_parse_int(s: Seq<char>, lo: int, hi: int) -> Option<int> {
    let signed = s.len() > 0 && (s[0] == '-' || s[0] == '+');
    let body = if signed {
        s.subrange(1, s.len() as int)
    } else {
        s
    };
    if body.len() > 0 && all_dec_digits(body) {
        let v = if s.len() > 0 && s[0] == '-' {
            -dec_val(body)
        } else {
            dec_val(body)
        };
        if lo <= v && v <= hi {
            Some(v)
        } else {
            None
        }
    } else {
        None
    }
}

proof fn lemma_all_dec_digits_drop_last(s: Seq<char>)
    requires
        s.len() > 0,
        all_dec_digits(s),
    ensures
        all_dec_digits(s.drop_last()),
{
    assert(forall|i: int| 0 <= i < s.len() - 1 ==> #[trigger] s.drop_last()[i] == s[i]);
}

/// A digit string's value is non-negative.
proof fn lemma_dec_val_nonneg(s: Seq<char>)
    requires
        all_dec_digits(s),
    ensures
        dec_val(s) >= 0,
    decreases s.len(),
{
    if s.len() > 0 {
        lemma_all_dec_digits_drop_last(s);
        lemma_dec_val_nonneg(s.drop_last());
        assert(is_dec_digit(s.last()));
        assert(dec_val(s) == dec_val(s.drop_last()) * 10 + digit_val(s.last()));
    }
}

/// Appending digits never decreases a digit string's value.
proof fn lemma_dec_val_prefix_le(s: Seq<char>, m: int)
    requires
        all_dec_digits(s),
        0 <= m <= s.len(),
    ensures
        dec_val(s.subrange(0, m)) <= dec_val(s),
    decreases s.len() - m,
{
    if m == s.len() {
        assert(s.subrange(0, m) =~= s);
    } else {
        lemma_dec_val_prefix_le(s, m + 1);
        let shorter = s.subrange(0, m);
        let longer = s.subrange(0, m + 1);
        assert(longer.drop_last() =~= shorter);
        assert(longer.last() == s[m]);
        assert(dec_val(longer) == dec_val(shorter) * 10 + digit_val(s[m]));
        assert(forall|i: int| 0 <= i < m ==> #[trigger] shorter[i] == s[i]);
        lemma_dec_val_nonneg(shorter);
        assert(is_dec_digit(s[m]));
    }
}

/// Parses `s` as a signed decimal integer, accepting exactly the texts that
/// `spec_parse_int` accepts for the bounds `[lo, hi]`.
#[verifier::loop_isolation(false)]
pub fn parse_int_text(s: &str, lo: i64, hi: i64) -> (r: Option<i64>)
    ensures
        match r {
            Some(v) => spec_parse_int(s@, lo as int, hi as int) == Some(v as int),
            None => spec_parse_int(s@, lo as int, hi as int) is None,
        },
{
    let n = s.unicode_len();
    let mut i: usize = 0;
    let mut neg = false;
    if n > 0 {
        let c0 = s.get_char(0);
        if c0 == '-' {
            neg = true;
            i = 1;
        } else if c0 == '+' {
            i = 1;
        }
    }
    let ghost signed = s@.len() > 0 && (s@[0] == '-' || s@[0] == '+');
    let ghost body = if signed {
        s@.subrange(1, s@.len() as int)
    } else {
        s@
    };
    proof {
        if !signed {
            assert(s@.subrange(0, s@.len() as int) =~= s@);
        }
        assert(body == s@.subrange(i as int, n as int));
    }
    if i == n {
        // empty text, or a sign with no digits
        return None;
    }
    // every remaining character must be a digit
    let mut j: usize = i;
    while j < n
        invariant
            i <= j <= n,
            forall|k: int| i <= k < j ==> is_dec_digit(#[trigger] s@[k]),
        decreases n - j,
    {
        let c = s.get_char(j);
        let u = c as u32;
        if !(48 <= u && u <= 57) {
            proof {
                assert(body[j - i] == s@[j as int]);
                assert(!all_dec_digits(body));
            }
            return None;
        }
        j += 1;
    }
    proof {
        assert(forall|k: int| 0 <= k < body.len() ==> #[trigger] body[k] == s@[k + i]);
        assert(all_dec_digits(body));
    }
    // accumulate; any value beyond every i64 bound ends the parse early
    let mut acc: i128 = 0;
    let mut k: usize = i;
    while k < n
        invariant
            i <= k <= n,
            acc == dec_val(s@.subrange(i as int, k as int)),
            0 <= acc <= 9_223_372_036_854_775_809,
        decreases n - k,
    {
        let c = s.get_char(k);
        let u = c as u32;
        proof {
            assert(is_dec_digit(s@[k as int]));
        }
        let d = (u - 48) as i128;
        let ghost prefix = s@.subrange(i as int, k as int);
        let ghost next = s@.subrange(i as int, k + 1);
        proof {
            assert(next.drop_last() =~= prefix);
            assert(next.last() == s@[k as int]);
            assert(dec_val(next) == dec_val(prefix) * 10 + digit_val(s@[k as int]));
            assert(d == digit_val(s@[k as int]));
        }
        if acc > 922_337_203_685_477_580 {
            // one more digit makes the magnitude exceed 2^63, hence every
            // i64 bound, whatever the sign
            proof {
                assert(body.subrange(0, k + 1 - i) =~= next);
                lemma_dec_val_prefix_le(body, k + 1 - i);
                assert(dec_val(body) >= dec_val(next));
                assert(dec_val(next) > 9_223_372_036_854_775_808);
            }
            return None;
        }
        acc = acc * 10 + d;
        k += 1;
    }
    proof {
        assert(s@.subrange(i as int, n as int) == body);
        assert(acc == dec_val(body));
    }
    let v: i128 = if neg {
        -acc
    } else {
        acc
    };
    if lo as i128 <= v && v <= hi as i128 {
        Some(v as i64)
    } else {
        None
    }
}

} // verus!
