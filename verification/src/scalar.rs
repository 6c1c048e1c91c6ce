//! Scalar coercion: decoding integers, booleans and decimal numerals out of
//! the textual scalars that the attribute-centric wire encoding produces.
//!
//! One wire encoding carries numbers and booleans natively, the other as
//! quoted text, so every numeric or boolean field accepts a string-encoded
//! scalar as well.  The parsers here are total: malformed text yields `None`,
//! never a panic.

use vstd::prelude::*;

verus! {

/// A decimal digit, by code point.
pub open spec fn is_digit(c: char) -> bool {
    48 <= c as u32 <= 57
}

/// Numeric value of a decimal digit.
pub open spec fn digit_val(c: char) -> int {
    c as u32 - '0' as u32
}

/// Every character of `s` is a decimal digit.
pub open spec fn is_digit_seq(s: Seq<char>) -> bool {
    forall|i: int| 0 <= i < s.len() ==> is_digit(#[trigger] s[i])
}

/// The integer denoted by a sequence of decimal digits (most significant
/// digit first).
pub open spec fn digits_val(s: Seq<char>) -> int
    decreases s.len(),
{
    if s.len() == 0 {
        0
    } else {
        digits_val(s.drop_last()) * 10 + digit_val(s.last())
    }
}

pub proof fn lemma_digits_val_nonneg(s: Seq<char>)
    requires
        is_digit_seq(s),
    ensures
        digits_val(s) >= 0,
    decreases s.len(),
{
    if s.len() > 0 {
        assert(is_digit_seq(s.drop_last()));
        lemma_digits_val_nonneg(s.drop_last());
    }
}

/// A digit string denotes at least as much as any of its prefixes.
pub proof fn lemma_digits_val_prefix(s: Seq<char>, k: int)
    requires
        is_digit_seq(s),
        0 <= k <= s.len(),
    ensures
        digits_val(s.take(k)) <= digits_val(s),
    decreases s.len(),
{
    lemma_digits_val_nonneg(s);
    if k < s.len() {
        assert(is_digit_seq(s.drop_last()));
        assert(s.take(k) =~= s.drop_last().take(k));
        lemma_digits_val_prefix(s.drop_last(), k);
        lemma_digits_val_nonneg(s.drop_last());
    } else {
        assert(s.take(k) =~= s);
    }
}

/// The value read so far grows by one digit.
pub proof fn lemma_digits_val_step(s: Seq<char>, i: int)
    requires
        0 <= i < s.len(),
    ensures
        digits_val(s.take(i + 1)) == digits_val(s.take(i)) * 10 + digit_val(s[i]),
{
    assert(s.take(i + 1).drop_last() =~= s.take(i));
    assert(s.take(i + 1).last() == s[i]);
}

/// What [`parse_i64`] returns: an optional minus sign followed by one or
/// more decimal digits, denoting a value that fits in `i64`.
pub open spec fn spec_parse_i64(s: Seq<char>) -> Option<i64> {
    if s.len() > 0 && s[0] == '-' {
        let ds = s.skip(1);
        if ds.len() > 0 && is_digit_seq(ds) && -digits_val(ds) >= i64::MIN {
            Some((-digits_val(ds)) as i64)
        } else {
            None
        }
    } else {
        if s.len() > 0 && is_digit_seq(s) && digits_val(s) <= i64::MAX {
            Some(digits_val(s) as i64)
        } else {
            None
        }
    }
}

/// Decode a signed 64-bit integer from decimal text.
pub fn parse_i64(s: &str) -> (r: Option<i64>)
    ensures
        r == spec_parse_i64(s@),
{
    let n: usize = s.unicode_len();
    if n == 0 {
        return None;
    }
    let neg = s.get_char(0) == '-';
    let start: usize = if neg { 1 } else { 0 };
    if start == n {
        return None;
    }
    let ghost ds: Seq<char> = if neg { s@.skip(1) } else { s@ };
    proof {
        assert forall|j: int| 0 <= j < ds.len() implies #[trigger] ds[j] == s@[start + j] by {}
    }
    let mut acc: i64 = 0;
    let mut i: usize = start;
    while i < n
        invariant
            start <= i <= n,
            n == s@.len(),
            s@.len() > 0,
            neg == (s@[0] == '-'),
            start == if neg { 1int } else { 0int },
            ds == if neg { s@.skip(1) } else { s@ },
            ds.len() == n - start,
            forall|j: int| 0 <= j < i - start ==> is_digit(#[trigger] ds[j]),
            neg ==> acc == -digits_val(ds.take(i - start)),
            !neg ==> acc == digits_val(ds.take(i - start)),
        decreases n - i,
    {
        let ghost k: int = i - start;
        let c = s.get_char(i);
        let cu: u32 = c as u32;
        proof {
            assert(ds[k] == s@[i as int]);
        }
        if cu < 48 || cu > 57 {
            proof {
                assert(!is_digit(ds[k]));
                assert(!is_digit_seq(ds));
            }
            return None;
        }
        let d: i64 = (cu - 48) as i64;
        proof {
            assert(is_digit(ds[k]));
            assert(d == digit_val(ds[k]));
            assert forall|j: int| 0 <= j < k + 1 implies is_digit(#[trigger] ds.take(k + 1)[j]) by {
                assert(ds.take(k + 1)[j] == ds[j]);
            }
            assert(is_digit_seq(ds.take(k + 1)));
            assert forall|j: int| 0 <= j < k implies is_digit(#[trigger] ds.take(k)[j]) by {
                assert(ds.take(k)[j] == ds[j]);
            }
            assert(is_digit_seq(ds.take(k)));
            lemma_digits_val_step(ds, k);
            lemma_digits_val_nonneg(ds.take(k));
            lemma_digits_val_nonneg(ds.take(k + 1));
        }
        let a1 = match acc.checked_mul(10) {
            Some(a) => a,
            None => {
                proof {
                    if neg {
                        assert(-digits_val(ds.take(k + 1)) < i64::MIN);
                        lemma_overflow_neg(ds, k + 1);
                    } else {
                        assert(digits_val(ds.take(k + 1)) > i64::MAX);
                        lemma_overflow_pos(ds, k + 1);
                    }
                }
                return None;
            },
        };
        let step2 = if neg { a1.checked_sub(d) } else { a1.checked_add(d) };
        acc = match step2 {
            Some(a) => a,
            None => {
                proof {
                    if neg {
                        assert(-digits_val(ds.take(k + 1)) < i64::MIN);
                        lemma_overflow_neg(ds, k + 1);
                    } else {
                        assert(digits_val(ds.take(k + 1)) > i64::MAX);
                        lemma_overflow_pos(ds, k + 1);
                    }
                }
                return None;
            },
        };
        i = i + 1;
    }
    proof {
        assert(ds.take(i - start) =~= ds);
        assert(is_digit_seq(ds));
    }
    Some(acc)
}

/// What [`parse_u8`] returns: one or more decimal digits denoting a value
/// that fits in `u8`; no sign is accepted.
pub open spec fn spec_parse_u8(s: Seq<char>) -> Option<u8> {
    if s.len() > 0 && is_digit_seq(s) && digits_val(s) <= u8::MAX {
        Some(digits_val(s) as u8)
    } else {
        None
    }
}

/// Decode an unsigned 8-bit integer from decimal text.
pub fn parse_u8(s: &str) -> (r: Option<u8>)
    ensures
        r == spec_parse_u8(s@),
{
    let n: usize = s.unicode_len();
    if n == 0 {
        return None;
    }
    if s.get_char(0) == '-' {
        proof {
            assert(!is_digit(s@[0]));
        }
        return None;
    }
    match parse_i64(s) {
        Some(v) => {
            proof {
                lemma_digits_val_nonneg(s@);
            }
            if v <= 255 {
                Some(v as u8)
            } else {
                None
            }
        },
        None => None,
    }
}

/// Exact string equality, stated over the character sequences.
pub fn str_is(a: &str, b: &str) -> (r: bool)
    ensures
        r == (a@ == b@),
{
    let x: String = a.to_owned();
    let y: String = b.to_owned();
    x == y
}

/// What [`parse_bool`] returns: exactly the literals `true` and `false`.
pub open spec fn spec_parse_bool(s: Seq<char>) -> Option<bool> {
    if s == "true"@ {
        Some(true)
    } else if s == "false"@ {
        Some(false)
    } else {
        None
    }
}

/// Decode a boolean from text.
pub fn parse_bool(s: &str) -> (r: Option<bool>)
    ensures
        r == spec_parse_bool(s@),
{
    if str_is(s, "true") {
        Some(true)
    } else if str_is(s, "false") {
        Some(false)
    } else {
        None
    }
}

/// Acceptor for what may follow the first digit of a decimal numeral:
/// further digits, then optionally one point followed by at least one digit.
pub open spec fn dec_tail(t: Seq<char>) -> bool
    decreases t.len(),
{
    if t.len() == 0 {
        true
    } else if is_digit(t[0]) {
        dec_tail(t.skip(1))
    } else if t[0] == '.' {
        t.len() > 1 && is_digit_seq(t.skip(1))
    } else {
        false
    }
}

/// A decimal numeral: an optional minus sign, one or more digits, and
/// optionally a point followed by one or more digits.
pub open spec fn is_decimal_seq(s: Seq<char>) -> bool {
    let t = if s.len() > 0 && s[0] == '-' {
        s.skip(1)
    } else {
        s
    };
    t.len() > 0 && is_digit(t[0]) && dec_tail(t.skip(1))
}

/// Check that `s` is a decimal numeral.
pub fn is_decimal(s: &str) -> (r: bool)
    ensures
        r == is_decimal_seq(s@),
{
    let n: usize = s.unicode_len();
    if n == 0 {
        return false;
    }
    let neg = s.get_char(0) == '-';
    let start: usize = if neg { 1 } else { 0 };
    if start == n {
        return false;
    }
    let ghost t: Seq<char> = if neg { s@.skip(1) } else { s@ };
    proof {
        assert forall|j: int| 0 <= j < t.len() implies #[trigger] t[j] == s@[start + j] by {}
    }
    let c0 = s.get_char(start);
    let c0u: u32 = c0 as u32;
    if c0u < 48 || c0u > 57 {
        proof {
            assert(!is_digit(t[0]));
        }
        return false;
    }
    let mut i: usize = start + 1;
    while i < n
        invariant
            start + 1 <= i <= n,
            n == s@.len(),
            s@.len() > 0,
            neg == (s@[0] == '-'),
            start == if neg { 1int } else { 0int },
            t == if neg { s@.skip(1) } else { s@ },
            t.len() == n - start,
            is_digit(t[0]),
            dec_tail(t.skip(1)) == dec_tail(t.skip(i - start)),
        decreases n - i,
    {
        let ghost k: int = i - start;
        let c = s.get_char(i);
        let cu: u32 = c as u32;
        proof {
            assert(t[k] == s@[i as int]);
        }
        if 48 <= cu && cu <= 57 {
            proof {
                assert(is_digit(t[k]));
                assert(t.skip(k)[0] == t[k]);
                assert(t.skip(k).skip(1) =~= t.skip(k + 1));
            }
            i = i + 1;
        } else if c == '.' {
            proof {
                assert(t.skip(k)[0] == t[k]);
                assert(!is_digit(t[k]));
            }
            // after the point: at least one digit, digits only
            let p: usize = i + 1;
            if p == n {
                proof {
                    assert(t.skip(k).len() == 1);
                }
                return false;
            }
            let mut j: usize = p;
            while j < n
                invariant
                    p <= j <= n,
                    p == i + 1,
                    start + 1 <= i < n,
                    n == s@.len(),
                    s@.len() > 0,
                    neg == (s@[0] == '-'),
                    start == if neg { 1int } else { 0int },
                    t == if neg { s@.skip(1) } else { s@ },
                    t.len() == n - start,
                    is_digit(t[0]),
                    t[i - start] == '.',
                    !is_digit(t[i - start]),
                    dec_tail(t.skip(1)) == dec_tail(t.skip(i - start)),
                    forall|m: int| p - start <= m < j - start ==> is_digit(#[trigger] t[m]),
                decreases n - j,
            {
                let cj = s.get_char(j);
                let cju: u32 = cj as u32;
                proof {
                    assert(t[j - start] == s@[j as int]);
                }
                if cju < 48 || cju > 57 {
                    proof {
                        assert(!is_digit(t[j - start]));
                        assert(t.skip(i - start + 1)[j - start - (i - start + 1)] == t[j - start]);
                        assert(!is_digit_seq(t.skip(i - start + 1)));
                        assert(t.skip(i - start).skip(1) =~= t.skip(i - start + 1));
                        assert(!dec_tail(t.skip(i - start)));
                    }
                    return false;
                }
                j = j + 1;
            }
            proof {
                assert forall|m: int| 0 <= m < t.skip(i - start + 1).len() implies is_digit(
                    #[trigger] t.skip(i - start + 1)[m],
                ) by {
                    assert(t.skip(i - start + 1)[m] == t[m + i - start + 1]);
                }
                assert(is_digit_seq(t.skip(i - start + 1)));
                assert(t.skip(i - start).skip(1) =~= t.skip(i - start + 1));
                assert(t.skip(i - start).len() > 1);
                assert(dec_tail(t.skip(i - start)));
            }
            return true;
        } else {
            proof {
                assert(t.skip(k)[0] == t[k]);
                assert(!is_digit(t[k]));
                assert(t[k] != '.');
                assert(!dec_tail(t.skip(k)));
            }
            return false;
        }
    }
    proof {
        assert(t.skip(i - start).len() == 0);
        assert(dec_tail(t.skip(i - start)));
    }
    true
}

/// If some prefix of the digit string already denotes more than `i64::MAX`,
/// the whole string does.
proof fn lemma_overflow_pos(ds: Seq<char>, k: int)
    requires
        0 <= k <= ds.len(),
        is_digit_seq(ds.take(k)),
        digits_val(ds.take(k)) > i64::MAX,
    ensures
        is_digit_seq(ds) ==> digits_val(ds) > i64::MAX,
{
    if is_digit_seq(ds) {
        lemma_digits_val_prefix(ds, k);
    }
}

/// If some prefix of the digit string already denotes more than `-i64::MIN`,
/// the whole string does.
proof fn lemma_overflow_neg(ds: Seq<char>, k: int)
    requires
        0 <= k <= ds.len(),
        is_digit_seq(ds.take(k)),
        -digits_val(ds.take(k)) < i64::MIN,
    ensures
        is_digit_seq(ds) ==> -digits_val(ds) < i64::MIN,
{
    if is_digit_seq(ds) {
        lemma_digits_val_prefix(ds, k);
    }
}

} // verus!
