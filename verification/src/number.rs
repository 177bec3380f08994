//! Numbers in decimal text: the integers that `i32` can hold, and the
//! grammar of floating-point literals.

use vstd::prelude::*;
use crate::text::chars_of;

verus! {

/// Whether a character is one of the ten decimal digits.
pub open spec fn is_digit(c: char) -> bool {
    '0' <= c <= '9'
}

/// Whether a character is a sign.
pub open spec fn is_sign(c: char) -> bool {
    c == '+' || c == '-'
}

/// What a digit counts for.
pub open spec fn digit_of(c: char) -> nat {
    if is_digit(c) {
        (c as u32 - 0x30) as nat
    } else {
        0
    }
}

/// Whether every character is a digit.
pub open spec fn all_digits(s: Seq<char>) -> bool {
    forall|i: int| 0 <= i < s.len() ==> is_digit(#[trigger] s[i])
}

/// The number that a sequence of digits is in decimal.
pub open spec fn digits_value(s: Seq<char>) -> nat
    decreases s.len(),
{
    if s.len() == 0 {
        0
    } else {
        digits_value(s.drop_last()) * 10 + digit_of(s.last())
    }
}

/// The integer that a text is in decimal: an optional sign, then one digit
/// or more, and nothing else.
pub open spec fn signed_decimal(text: Seq<char>) -> Option<int> {
    let signed = text.len() > 0 && is_sign(text[0]);
    let digits = if signed {
        text.skip(1)
    } else {
        text
    };
    if digits.len() > 0 && all_digits(digits) {
        if signed && text[0] == '-' {
            Some(-(digits_value(digits) as int))
        } else {
            Some(digits_value(digits) as int)
        }
    } else {
        None
    }
}

/// The `i32` that a text is in decimal, or `None` where the text is no
/// integer or the integer does not fit.
pub open spec fn parsed_i32(text: Seq<char>) -> Option<i32> {
    match signed_decimal(text) {
        Some(value) => if i32::MIN <= value <= i32::MAX {
            Some(value as i32)
        } else {
            None
        },
        None => None,
    }
}

/// More digits make no smaller number.
proof fn lemma_digits_value_grows(s: Seq<char>, k: int)
    requires
        0 <= k <= s.len(),
    ensures
        digits_value(s.take(k)) <= digits_value(s),
    decreases s.len() - k,
{
    if k == s.len() {
        assert(s.take(k) =~= s);
    } else {
        assert(s.drop_last().take(k) =~= s.take(k));
        lemma_digits_value_grows(s.drop_last(), k);
    }
}

/// Parses an integer in decimal, as `str::parse::<i32>` does.
pub fn parse_i32(text: &str) -> (value: Option<i32>)
    ensures
        value == parsed_i32(text@),
{
    let chars = chars_of(text);
    let n = chars.len();
    if n == 0 {
        return None;
    }
    let negative = chars[0] == '-';
    let start: usize = if chars[0] == '-' || chars[0] == '+' {
        1
    } else {
        0
    };
    let ghost digits = text@.skip(start as int);
    assert(text@.skip(0) =~= text@);
    if start == n {
        return None;
    }
    let mut magnitude: i64 = 0;
    let mut i: usize = start;
    while i < n
        invariant
            start <= i <= n,
            n == chars.len(),
            chars@ == text@,
            start == sign_len(text@, 0),
            n > 0,
            negative == (text@[0] == '-'),
            digits == if is_sign(text@[0]) {
                text@.skip(1)
            } else {
                text@
            },
            all_digits(digits.take(i - start)),
            magnitude == digits_value(digits.take(i - start)),
            0 <= magnitude <= 0x8000_0000,
        decreases n - i,
    {
        let c = chars[i];
        assert(digits.take(i + 1 - start).drop_last() =~= digits.take(i - start));
        if !(c >= '0' && c <= '9') {
            assert(!is_digit(digits[i - start]));
            return None;
        }
        let digit: i64 = (c as u32 - 0x30) as i64;
        magnitude = magnitude * 10 + digit;
        if magnitude > 0x8000_0000 {
            proof {
                lemma_digits_value_grows(digits, i + 1 - start);
            }
            return None;
        }
        i += 1;
    }
    assert(digits.take(n - start) =~= digits);
    if negative {
        Some((-magnitude) as i32)
    } else if magnitude > 0x7fff_ffff {
        None
    } else {
        Some(magnitude as i32)
    }
}

/// How many digits stand in a row from the index `from` on.
pub open spec fn digit_run(s: Seq<char>, from: int) -> nat
    decreases s.len() - from,
{
    if 0 <= from < s.len() && is_digit(s[from]) {
        1 + digit_run(s, from + 1)
    } else {
        0
    }
}

/// The length of the sign at the index `from`: one where a sign stands
/// there, zero where none does.
pub open spec fn sign_len(s: Seq<char>, from: int) -> int {
    if 0 <= from < s.len() && is_sign(s[from]) {
        1
    } else {
        0
    }
}

/// Whether an exponent stands from the index `from` to the end: `e` or `E`,
/// an optional sign, then one digit or more.
pub open spec fn is_exponent(s: Seq<char>, from: int) -> bool {
    let digits = from + 1 + sign_len(s, from + 1);
    &&& 0 <= from < s.len()
    &&& (s[from] == 'e' || s[from] == 'E')
    &&& digit_run(s, digits) > 0
    &&& digits + digit_run(s, digits) == s.len()
}

/// Whether a number stands from the index `from` to the end: digits with
/// at most one point among them, at least one digit, then an optional
/// exponent.
pub open spec fn is_number(s: Seq<char>, from: int) -> bool {
    let whole = digit_run(s, from);
    let point = from + whole;
    let pointed = point < s.len() && s[point] == '.';
    let fraction = if pointed {
        digit_run(s, point + 1)
    } else {
        0
    };
    let behind = if pointed {
        point + 1 + fraction
    } else {
        point
    };
    &&& whole + fraction > 0
    &&& (behind == s.len() || is_exponent(s, behind))
}

/// A letter as a small letter, and every other character as it is.
pub open spec fn lowered(c: char) -> char {
    if 'A' <= c <= 'Z' {
        ((c as u8) + 0x20) as u8 as char
    } else {
        c
    }
}

/// Whether the word stands from the index `from` to the end, in small or
/// capital letters.
pub open spec fn is_word(s: Seq<char>, from: int, word: Seq<char>) -> bool {
    &&& 0 <= from
    &&& from + word.len() == s.len()
    &&& forall|i: int| 0 <= i < word.len() ==> lowered(#[trigger] s[from + i]) == word[i]
}

/// Whether a text is a floating-point literal, as `str::parse::<f32>`
/// accepts it: an optional sign, then `inf`, `infinity` or `nan` in any
/// case, or a number.
pub open spec fn is_float_literal(text: Seq<char>) -> bool {
    let from = sign_len(text, 0);
    ||| is_word(text, from, "inf"@)
    ||| is_word(text, from, "infinity"@)
    ||| is_word(text, from, "nan"@)
    ||| is_number(text, from)
}

/// Counts the digits that stand in a row from the index `from` on.
fn count_digits(chars: &Vec<char>, from: usize) -> (count: usize)
    requires
        from <= chars.len(),
    ensures
        count == digit_run(chars@, from as int),
        from + count <= chars.len(),
{
    let mut i: usize = from;
    while i < chars.len() && chars[i] >= '0' && chars[i] <= '9'
        invariant
            from <= i <= chars.len(),
            digit_run(chars@, from as int) == (i - from) + digit_run(chars@, i as int),
        decreases chars.len() - i,
    {
        i += 1;
    }
    i - from
}

/// Whether a small-letter word stands from the index `from` to the end, in
/// small or capital letters.
fn ends_with_word(chars: &Vec<char>, from: usize, word: &Vec<char>) -> (found: bool)
    requires
        from <= chars.len(),
    ensures
        found == is_word(chars@, from as int, word@),
{
    if chars.len() - from != word.len() {
        return false;
    }
    let mut i: usize = 0;
    while i < word.len()
        invariant
            i <= word.len(),
            from + word.len() == chars.len(),
            forall|j: int| 0 <= j < i ==> lowered(#[trigger] chars@[from + j]) == word@[j],
        decreases word.len() - i,
    {
        let c = chars[from + i];
        let small = if c >= 'A' && c <= 'Z' {
            (c as u8 + 0x20) as char
        } else {
            c
        };
        if small != word[i] {
            return false;
        }
        i += 1;
    }
    true
}

/// Whether a text is a floating-point literal.
pub fn is_float_text(text: &str) -> (valid: bool)
    ensures
        valid == is_float_literal(text@),
{
    let chars = chars_of(text);
    let n = chars.len();
    let from: usize = if n > 0 && (chars[0] == '+' || chars[0] == '-') {
        1
    } else {
        0
    };
    if ends_with_word(&chars, from, &chars_of("inf")) || ends_with_word(
        &chars,
        from,
        &chars_of("infinity"),
    ) || ends_with_word(&chars, from, &chars_of("nan")) {
        return true;
    }
    let whole = count_digits(&chars, from);
    let point = from + whole;
    let mut behind = point;
    let mut fraction: usize = 0;
    if point < n && chars[point] == '.' {
        fraction = count_digits(&chars, point + 1);
        behind = point + 1 + fraction;
    }
    if whole == 0 && fraction == 0 {
        return false;
    }
    if behind == n {
        return true;
    }
    if !(chars[behind] == 'e' || chars[behind] == 'E') {
        return false;
    }
    let mut digits = behind + 1;
    if digits < n && (chars[digits] == '+' || chars[digits] == '-') {
        digits += 1;
    }
    let exponent = count_digits(&chars, digits);
    exponent > 0 && digits + exponent == n
}

} // verus!
