//! The shape of a numeric value token.
//!
//! A request's value must be a numeric literal: an optional sign, then
//! either one of the spelled words (`inf`, `infinity`, `nan`, in any case)
//! or a mantissa of digits with at most one decimal point, optionally
//! followed by an exponent introduced by `e` or `E`.  The recognizer here
//! decides that grammar exactly; it never converts the digits to a value.

use vstd::prelude::*;

verus! {

/// A decimal digit.
pub open spec fn is_digit(c: char) -> bool {
    '0' <= c && c <= '9'
}

/// A leading sign.
pub open spec fn is_sign(c: char) -> bool {
    c == '+' || c == '-'
}

/// Every character of `s` is a digit.
pub open spec fn all_digits(s: Seq<char>) -> bool {
    forall|i: int| 0 <= i < s.len() ==> is_digit(#[trigger] s[i])
}

/// The word `inf`, in any mix of upper and lower case.
pub open spec fn is_inf_word(s: Seq<char>) -> bool {
    &&& s.len() == 3
    &&& (s[0] == 'i' || s[0] == 'I')
    &&& (s[1] == 'n' || s[1] == 'N')
    &&& (s[2] == 'f' || s[2] == 'F')
}

/// The word `infinity`, in any mix of upper and lower case.
pub open spec fn is_infinity_word(s: Seq<char>) -> bool {
    &&& s.len() == 8
    &&& (s[0] == 'i' || s[0] == 'I')
    &&& (s[1] == 'n' || s[1] == 'N')
    &&& (s[2] == 'f' || s[2] == 'F')
    &&& (s[3] == 'i' || s[3] == 'I')
    &&& (s[4] == 'n' || s[4] == 'N')
    &&& (s[5] == 'i' || s[5] == 'I')
    &&& (s[6] == 't' || s[6] == 'T')
    &&& (s[7] == 'y' || s[7] == 'Y')
}

/// The word `nan`, in any mix of upper and lower case.
pub open spec fn is_nan_word(s: Seq<char>) -> bool {
    &&& s.len() == 3
    &&& (s[0] == 'n' || s[0] == 'N')
    &&& (s[1] == 'a' || s[1] == 'A')
    &&& (s[2] == 'n' || s[2] == 'N')
}

/// A mantissa: digits with at most one decimal point among them, holding at
/// least one digit.  `12`, `12.`, `12.5` and `.5` qualify; `.` and the
/// empty sequence do not.
pub open spec fn is_mantissa(s: Seq<char>) -> bool {
    &&& forall|i: int| 0 <= i < s.len() ==> (is_digit(#[trigger] s[i]) || s[i] == '.')
    &&& exists|i: int| 0 <= i < s.len() && is_digit(#[trigger] s[i])
    &&& forall|i: int, j: int|
        #![trigger s[i], s[j]]
        0 <= i < j < s.len() ==> !(s[i] == '.' && s[j] == '.')
}

/// An exponent: an optional sign followed by at least one digit.
pub open spec fn is_exponent(s: Seq<char>) -> bool {
    if s.len() > 0 && is_sign(s[0]) {
        s.len() > 1 && all_digits(s.skip(1))
    } else {
        s.len() > 0 && all_digits(s)
    }
}

/// A numeric literal without its sign: a spelled word, a bare mantissa, or
/// a mantissa and an exponent separated by `e` or `E`.
pub open spec fn is_unsigned_number(s: Seq<char>) -> bool {
    ||| is_inf_word(s) || is_infinity_word(s) || is_nan_word(s)
    ||| is_mantissa(s)
    ||| exists|k: int|
        #![auto]
        0 <= k < s.len() && (s[k] == 'e' || s[k] == 'E') && is_mantissa(s.take(k))
            && is_exponent(s.skip(k + 1))
}

/// A numeric literal: an optional sign followed by an unsigned number.
pub open spec fn is_number_token(s: Seq<char>) -> bool {
    if s.len() > 0 && is_sign(s[0]) {
        is_unsigned_number(s.skip(1))
    } else {
        is_unsigned_number(s)
    }
}

/// Decides whether `c` is a decimal digit.
fn check_digit(c: char) -> (r: bool)
    ensures
        r == is_digit(c),
{
    '0' <= c && c <= '9'
}

/// Decides whether the characters of `s` in `[from, to)` are all digits.
fn check_all_digits(s: &str, from: usize, to: usize) -> (r: bool)
    requires
        from <= to <= s@.len(),
    ensures
        r == all_digits(s@.subrange(from as int, to as int)),
{
    let ghost sub = s@.subrange(from as int, to as int);
    assert forall|k: int| 0 <= k < sub.len() implies sub[k] == s@[from + k] by {}
    let mut i: usize = from;
    while i < to
        invariant
            from <= i <= to <= s@.len(),
            sub == s@.subrange(from as int, to as int),
            forall|k: int| from <= k < i ==> is_digit(#[trigger] s@[k]),
        decreases to - i,
    {
        if !check_digit(s.get_char(i)) {
            assert(sub[i - from] == s@[i as int]);
            return false;
        }
        i = i + 1;
    }
    assert forall|k: int| 0 <= k < sub.len() implies is_digit(sub[k]) by {
        assert(sub[k] == s@[from + k]);
    }
    true
}

/// Decides whether the characters of `s` from `from` on spell `inf`,
/// `infinity` or `nan`, in any case.
fn check_word(s: &str, from: usize) -> (r: bool)
    requires
        from <= s@.len(),
    ensures
        ({
            let t = s@.skip(from as int);
            r == (is_inf_word(t) || is_infinity_word(t) || is_nan_word(t))
        }),
{
    let ghost t = s@.skip(from as int);
    assert forall|k: int| 0 <= k < t.len() implies t[k] == s@[from + k] by {}
    let len = s.unicode_len();
    let n = len - from;
    if n == 3 {
        let c0 = s.get_char(from);
        let c1 = s.get_char(from + 1);
        let c2 = s.get_char(from + 2);
        ((c0 == 'i' || c0 == 'I') && (c1 == 'n' || c1 == 'N') && (c2 == 'f' || c2 == 'F')) || ((c0
            == 'n' || c0 == 'N') && (c1 == 'a' || c1 == 'A') && (c2 == 'n' || c2 == 'N'))
    } else if n == 8 {
        let c0 = s.get_char(from);
        let c1 = s.get_char(from + 1);
        let c2 = s.get_char(from + 2);
        let c3 = s.get_char(from + 3);
        let c4 = s.get_char(from + 4);
        let c5 = s.get_char(from + 5);
        let c6 = s.get_char(from + 6);
        let c7 = s.get_char(from + 7);
        (c0 == 'i' || c0 == 'I') && (c1 == 'n' || c1 == 'N') && (c2 == 'f' || c2 == 'F') && (c3
            == 'i' || c3 == 'I') && (c4 == 'n' || c4 == 'N') && (c5 == 'i' || c5 == 'I') && (c6
            == 't' || c6 == 'T') && (c7 == 'y' || c7 == 'Y')
    } else {
        false
    }
}

/// Decides whether the characters of `s` in `[from, to)` form a mantissa.
fn check_mantissa(s: &str, from: usize, to: usize) -> (r: bool)
    requires
        from <= to <= s@.len(),
    ensures
        r == is_mantissa(s@.subrange(from as int, to as int)),
{
    let ghost sub = s@.subrange(from as int, to as int);
    assert forall|k: int| 0 <= k < sub.len() implies sub[k] == s@[from + k] by {}
    let mut seen_digit = false;
    let mut seen_dot = false;
    let ghost mut digit_at: int = 0;
    let ghost mut dot_at: int = 0;
    let mut i: usize = from;
    while i < to
        invariant
            from <= i <= to <= s@.len(),
            sub == s@.subrange(from as int, to as int),
            forall|k: int| from <= k < i ==> (is_digit(#[trigger] s@[k]) || s@[k] == '.'),
            seen_digit ==> from <= digit_at < i && is_digit(s@[digit_at]),
            !seen_digit ==> forall|k: int| from <= k < i ==> !is_digit(#[trigger] s@[k]),
            seen_dot ==> from <= dot_at < i && s@[dot_at] == '.',
            !seen_dot ==> forall|k: int| from <= k < i ==> #[trigger] s@[k] != '.',
            forall|k1: int, k2: int|
                #![trigger s@[k1], s@[k2]]
                from <= k1 < k2 < i ==> !(s@[k1] == '.' && s@[k2] == '.'),
        decreases to - i,
    {
        let c = s.get_char(i);
        if check_digit(c) {
            seen_digit = true;
            proof {
                digit_at = i as int;
            }
        } else if c == '.' {
            if seen_dot {
                assert(sub[dot_at - from] == '.' && sub[i - from] == '.');
                assert(!is_mantissa(sub));
                return false;
            }
            seen_dot = true;
            proof {
                dot_at = i as int;
            }
        } else {
            assert(sub[i - from] == s@[i as int]);
            assert(!(is_digit(sub[i - from]) || sub[i - from] == '.'));
            return false;
        }
        i = i + 1;
    }
    if seen_digit {
        assert(is_mantissa(sub)) by {
            assert forall|k: int| 0 <= k < sub.len() implies (is_digit(#[trigger] sub[k]) || sub[k]
                == '.') by {
                assert(sub[k] == s@[from + k]);
            }
            assert(sub[digit_at - from] == s@[digit_at] && is_digit(sub[digit_at - from]));
            assert forall|k1: int, k2: int|
                #![trigger sub[k1], sub[k2]]
                0 <= k1 < k2 < sub.len() implies !(sub[k1] == '.' && sub[k2] == '.') by {
                assert(sub[k1] == s@[from + k1] && sub[k2] == s@[from + k2]);
            }
        }
        true
    } else {
        assert(!is_mantissa(sub)) by {
            assert forall|k: int| 0 <= k < sub.len() implies !is_digit(sub[k]) by {
                assert(sub[k] == s@[from + k]);
            }
        }
        false
    }
}

/// Decides whether the characters of `s` in `[from, to)` form an exponent.
fn check_exponent(s: &str, from: usize, to: usize) -> (r: bool)
    requires
        from <= to <= s@.len(),
    ensures
        r == is_exponent(s@.subrange(from as int, to as int)),
{
    let ghost sub = s@.subrange(from as int, to as int);
    assert forall|k: int| 0 <= k < sub.len() implies sub[k] == s@[from + k] by {}
    if from == to {
        return false;
    }
    let c = s.get_char(from);
    if c == '+' || c == '-' {
        if from + 1 == to {
            assert(!is_exponent(sub));
            return false;
        }
        let r = check_all_digits(s, from + 1, to);
        assert(sub.skip(1) =~= s@.subrange(from + 1, to as int));
        r
    } else {
        let r = check_all_digits(s, from, to);
        assert(sub =~= s@.subrange(from as int, to as int));
        r
    }
}

/// Decides whether `s` is a numeric literal.
pub fn check_number_token(s: &str) -> (r: bool)
    ensures
        r == is_number_token(s@),
{
    let len = s.unicode_len();
    let start: usize = if len > 0 {
        let c = s.get_char(0);
        if c == '+' || c == '-' {
            1
        } else {
            0
        }
    } else {
        0
    };
    let ghost t = s@.skip(start as int);
    assert forall|k: int| 0 <= k < t.len() implies t[k] == s@[start + k] by {}
    proof {
        if start == 0 {
            assert(t =~= s@);
        }
    }
    assert(is_number_token(s@) == is_unsigned_number(t));
    if check_word(s, start) {
        return true;
    }
    // Find the first exponent separator, if any.
    let mut e_found = false;
    let mut e_pos: usize = start;
    let mut i: usize = start;
    while i < len && !e_found
        invariant
            start <= i <= len == s@.len(),
            e_found ==> start <= e_pos < len && (s@[e_pos as int] == 'e' || s@[e_pos as int]
                == 'E') && i == e_pos,
            forall|k: int|
                start <= k < (if e_found {
                    e_pos as int
                } else {
                    i as int
                }) ==> !(#[trigger] s@[k] == 'e' || s@[k] == 'E'),
        decreases len - i + (if e_found { 0int } else { 1int }),
    {
        let c = s.get_char(i);
        if c == 'e' || c == 'E' {
            e_found = true;
            e_pos = i;
        } else {
            i = i + 1;
        }
    }
    if !e_found {
        let r = check_mantissa(s, start, len);
        assert(t =~= s@.subrange(start as int, len as int));
        assert(is_unsigned_number(t) == r) by {
            assert forall|k: int|
                0 <= k < t.len() implies !(#[trigger] t[k] == 'e' || t[k] == 'E') by {
                assert(t[k] == s@[start + k]);
            }
        }
        r
    } else {
        let p = e_pos;
        let m = check_mantissa(s, start, p);
        let x = if m {
            check_exponent(s, p + 1, len)
        } else {
            false
        };
        proof {
            let rel = p - start;
            assert(t[rel] == s@[p as int]);
            assert(t.take(rel) =~= s@.subrange(start as int, p as int));
            assert(t.skip(rel + 1) =~= s@.subrange(p + 1, len as int));
            // The token is not one of the spelled words, and a mantissa
            // holds no separator, so only a split at the first separator
            // can witness a number.
            assert(!is_mantissa(t)) by {
                assert(t[rel] == 'e' || t[rel] == 'E');
            }
            if m && x {
                assert(is_unsigned_number(t));
            } else {
                assert forall|k: int|
                    0 <= k < t.len() && (#[trigger] t[k] == 'e' || t[k] == 'E') && is_mantissa(
                    t.take(k),
                ) implies !is_exponent(t.skip(k + 1)) by {
                    if k < rel {
                        assert(t[k] == s@[start + k]);
                        assert(false);
                    } else if k > rel {
                        assert(t.take(k)[rel] == t[rel]);
                        assert(!(is_digit(t.take(k)[rel]) || t.take(k)[rel] == '.'));
                        assert(false);
                    } else {
                        assert(!(m && x));
                        if m {
                            assert(!x);
                            assert(!is_exponent(t.skip(rel + 1)));
                        } else {
                            assert(!is_mantissa(t.take(rel)));
                            assert(false);
                        }
                    }
                }
                assert(!is_unsigned_number(t));
            }
        }
        m && x
    }
}

} // verus!
