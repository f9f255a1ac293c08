//! Reading a row id from a path segment.
//!
//! A segment names an id when it is an optional sign, `+` or `-`, followed by
//! one or more decimal digits, and the number they write fits in an `i64`.

use vstd::prelude::*;
use vstd::string::*;

verus! {

/// A decimal digit.
pub open spec fn is_digit(c: char) -> bool {
    '0' <= c <= '9'
}

/// Every character is a decimal digit.
pub open spec fn all_digits(s: Seq<char>) -> bool {
    forall|i: int| 0 <= i < s.len() ==> is_digit(#[trigger] s[i])
}

/// The number that a run of decimal digits writes; 0 for the empty run.
pub open spec fn digits_value(s: Seq<char>) -> int
    decreases s.len(),
{
    if s.len() == 0 {
        0
    } else {
        10 * digits_value(s.drop_last()) + (s.last() as int - '0' as int)
    }
}

/// The segment begins with a sign.
pub open spec fn has_sign(s: Seq<char>) -> bool {
    s.len() > 0 && (s[0] == '-' || s[0] == '+')
}

/// The segment without its sign.
pub open spec fn digits_of(s: Seq<char>) -> Seq<char> {
    if has_sign(s) {
        s.skip(1)
    } else {
        s
    }
}

/// The number that the segment writes, whether or not it fits in an `i64`.
/// It means something only where the digits are digits.
pub open spec fn signed_value(s: Seq<char>) -> int {
    if s.len() > 0 && s[0] == '-' {
        -digits_value(digits_of(s))
    } else {
        digits_value(digits_of(s))
    }
}

/// The id that a segment names, if it names one.
pub open spec fn parsed_id(s: Seq<char>) -> Option<i64> {
    if digits_of(s).len() > 0 && all_digits(digits_of(s)) && i64::MIN <= signed_value(s)
        <= i64::MAX {
        Some(signed_value(s) as i64)
    } else {
        None
    }
}

/// A run of digits writes no negative number.
pub proof fn lemma_digits_value_nonnegative(s: Seq<char>)
    requires
        all_digits(s),
    ensures
        digits_value(s) >= 0,
    decreases s.len(),
{
    if s.len() > 0 {
        lemma_digits_value_nonnegative(s.drop_last());
    }
}

/// One more digit: the number so far times ten, plus the digit.
pub proof fn lemma_digits_value_step(s: Seq<char>, k: int)
    requires
        0 <= k < s.len(),
    ensures
        digits_value(s.take(k + 1)) == 10 * digits_value(s.take(k)) + (s[k] as int - '0' as int),
{
    assert(s.take(k + 1).drop_last() =~= s.take(k));
}

/// A prefix of a run of digits writes a number no greater than the whole run.
pub proof fn lemma_digits_value_prefix(s: Seq<char>, k: int)
    requires
        all_digits(s),
        0 <= k <= s.len(),
    ensures
        digits_value(s.take(k)) <= digits_value(s),
    decreases s.len() - k,
{
    if k == s.len() {
        assert(s.take(k) =~= s);
    } else {
        lemma_digits_value_prefix(s, k + 1);
        lemma_digits_value_step(s, k);
        lemma_digits_value_nonnegative(s.take(k));
    }
}

/// A segment with a character after its sign that is no decimal digit names
/// no id; neither does a segment with nothing after its sign.
pub proof fn law_not_a_number_names_no_id(s: Seq<char>)
    requires
        digits_of(s).len() == 0 || exists|i: int|
            0 <= i < digits_of(s).len() && !is_digit(#[trigger] digits_of(s)[i]),
    ensures
        parsed_id(s) is None,
{
}

/// A number beyond the range of `i64` names no id.
pub proof fn law_out_of_range_names_no_id(s: Seq<char>)
    requires
        signed_value(s) < i64::MIN || signed_value(s) > i64::MAX,
    ensures
        parsed_id(s) is None,
{
}

/// A segment that names an id is made of ASCII characters.
pub proof fn lemma_parsed_is_ascii(s: Seq<char>)
    requires
        parsed_id(s) is Some,
    ensures
        vstd::utf8::is_ascii_chars(s),
{
    assert forall|i: int| 0 <= i < s.len() implies '\0' <= #[trigger] s[i] <= '\u{7f}' by {
        if has_sign(s) {
            if i > 0 {
                assert(is_digit(digits_of(s)[i - 1]));
            }
        } else {
            assert(is_digit(digits_of(s)[i]));
        }
    }
}

/// Reads the id that a path segment names: `Some(id)` exactly when the
/// segment is an optional sign and one or more decimal digits that write a
/// number within `i64`, and `None` for every other segment.
pub fn parse_id(segment: &str) -> (id: Option<i64>)
    ensures
        id == parsed_id(segment@),
{
    if !segment.is_ascii() {
        proof {
            if parsed_id(segment@) is Some {
                lemma_parsed_is_ascii(segment@);
            }
        }
        return None;
    }
    broadcast use is_ascii_spec_bytes;

    let bytes = segment.as_bytes();
    let n = bytes.len();
    if n == 0 {
        return None;
    }
    let negative = bytes[0] == 45u8;
    let start: usize = if bytes[0] == 45u8 || bytes[0] == 43u8 {
        1
    } else {
        0
    };
    let ghost digits = digits_of(segment@);
    assert(segment@[0] as u8 == bytes@[0]);
    assert(has_sign(segment@) <==> start == 1);
    assert(negative <==> segment@[0] == '-');
    assert(digits.len() == n - start);
    if start == n {
        return None;
    }
    let mut acc: i64 = 0;
    let mut i: usize = start;
    assert(digits.take(0) =~= Seq::<char>::empty());
    while i < n
        invariant
            segment.is_ascii(),
            bytes@ == segment.spec_bytes(),
            n == bytes@.len(),
            n == segment@.len(),
            digits == digits_of(segment@),
            digits.len() == n - start,
            has_sign(segment@) <==> start == 1,
            start <= 1,
            negative <==> segment@[0] == '-',
            start <= i <= n,
            all_digits(digits.take(i - start)),
            acc == if negative {
                -digits_value(digits.take(i - start))
            } else {
                digits_value(digits.take(i - start))
            },
        decreases n - i,
    {
        let b = bytes[i];
        let ghost k = i - start;
        assert(bytes@[i as int] == segment@[i as int] as u8);
        assert(digits[k] == segment@[i as int]);
        if b < 48u8 || b > 57u8 {
            assert(!is_digit(digits[k]));
            return None;
        }
        assert(is_digit(digits[k]));
        let d: i64 = (b - 48u8) as i64;
        proof {
            lemma_digits_value_step(digits, k);
            lemma_digits_value_nonnegative(digits.take(k));
            if all_digits(digits) {
                lemma_digits_value_prefix(digits, k + 1);
            }
        }
        let next = match acc.checked_mul(10) {
            None => None,
            Some(tens) => if negative {
                tens.checked_sub(d)
            } else {
                tens.checked_add(d)
            },
        };
        match next {
            None => {
                return None;
            },
            Some(value) => {
                acc = value;
            },
        }
        assert forall|j: int| 0 <= j < digits.take(k + 1).len() implies is_digit(
            #[trigger] digits.take(k + 1)[j],
        ) by {
            if j < k {
                assert(digits.take(k + 1)[j] == digits.take(k)[j]);
            }
        }
        i = i + 1;
    }
    assert(digits.take(n - start) =~= digits);
    Some(acc)
}

} // verus!
