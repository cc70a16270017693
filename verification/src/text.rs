//! Character-level helpers for tensor and module names.

use vstd::prelude::*;
use vstd::string::StrSliceExecFns;

verus! {

/// Whether `pattern` occurs contiguously inside `text`.
pub open spec fn contains_subsequence(text: Seq<char>, pattern: Seq<char>) -> bool {
    exists|start: int|
        0 <= start && start + pattern.len() <= text.len() && #[trigger] text.subrange(
            start,
            start + pattern.len(),
        ) == pattern
}

pub open spec fn has_prefix(text: Seq<char>, prefix: Seq<char>) -> bool {
    prefix.len() <= text.len() && text.subrange(0, prefix.len() as int) == prefix
}

pub open spec fn has_suffix(text: Seq<char>, suffix: Seq<char>) -> bool {
    suffix.len() <= text.len() && text.subrange(text.len() - suffix.len(), text.len() as int)
        == suffix
}

/// Decimal digits of `value`, most significant first, without leading zeros.
pub open spec fn decimal_digits(value: nat) -> Seq<char>
    decreases value,
{
    let digit = ((value % 10) + ('0' as nat)) as char;
    if value < 10 {
        seq![digit]
    } else {
        decimal_digits(value / 10).push(digit)
    }
}

/// The characters of `text`.
pub fn characters(text: &str) -> (chars: Vec<char>)
    ensures
        chars@ == text@,
{
    let length = text.unicode_len();
    let mut chars: Vec<char> = Vec::new();
    let mut index: usize = 0;
    while index < length
        invariant
            length == text@.len(),
            index <= length,
            chars@ == text@.subrange(0, index as int),
        decreases length - index,
    {
        chars.push(text.get_char(index));
        index += 1;
        assert(chars@ =~= text@.subrange(0, index as int));
    }
    assert(chars@ =~= text@);
    chars
}

pub(crate) fn occurs_at(text: &Vec<char>, pattern: &Vec<char>, start: usize) -> (found: bool)
    requires
        start + pattern@.len() <= text@.len(),
    ensures
        found == (text@.subrange(start as int, start + pattern@.len()) == pattern@),
{
    let text_length = text.len();
    let mut offset: usize = 0;
    while offset < pattern.len()
        invariant
            text_length == text@.len(),
            start + pattern@.len() <= text@.len(),
            offset <= pattern@.len(),
            forall|j: int| 0 <= j < offset ==> text@[start + j] == pattern@[j],
        decreases pattern.len() - offset,
    {
        assert(start + offset < text_length);
        if text[start + offset] != pattern[offset] {
            assert(text@.subrange(start as int, start + pattern@.len())[offset as int] != pattern@[offset as int]);
            return false;
        }
        offset += 1;
    }
    assert(text@.subrange(start as int, start + pattern@.len()) =~= pattern@);
    true
}

/// Whether `pattern` occurs inside `text`.
pub fn str_contains(text: &str, pattern: &str) -> (found: bool)
    ensures
        found == contains_subsequence(text@, pattern@),
{
    let text_chars = characters(text);
    let pattern_chars = characters(pattern);
    if pattern_chars.len() > text_chars.len() {
        return false;
    }
    let last_start = text_chars.len() - pattern_chars.len();
    let mut start: usize = 0;
    while start <= last_start
        invariant
            text_chars@ == text@,
            pattern_chars@ == pattern@,
            last_start == text@.len() - pattern@.len(),
            pattern@.len() <= text@.len(),
            start <= last_start + 1,
            forall|s: int|
                0 <= s < start ==> #[trigger] text@.subrange(s, s + pattern@.len()) != pattern@,
        decreases last_start + 1 - start,
    {
        if occurs_at(&text_chars, &pattern_chars, start) {
            return true;
        }
        if start == last_start {
            return false;
        }
        start += 1;
    }
    false
}

/// Whether `text` starts with `prefix`.
pub fn str_has_prefix(text: &str, prefix: &str) -> (found: bool)
    ensures
        found == has_prefix(text@, prefix@),
{
    let text_chars = characters(text);
    let prefix_chars = characters(prefix);
    if prefix_chars.len() > text_chars.len() {
        return false;
    }
    occurs_at(&text_chars, &prefix_chars, 0)
}

/// Whether `text` ends with `suffix`.
pub fn str_has_suffix(text: &str, suffix: &str) -> (found: bool)
    ensures
        found == has_suffix(text@, suffix@),
{
    let text_chars = characters(text);
    let suffix_chars = characters(suffix);
    if suffix_chars.len() > text_chars.len() {
        return false;
    }
    occurs_at(&text_chars, &suffix_chars, text_chars.len() - suffix_chars.len())
}

/// `text` without its `suffix`, when it has one.
pub fn str_strip_suffix(text: &str, suffix: &str) -> (stripped: Option<String>)
    ensures
        has_suffix(text@, suffix@) ==> (stripped matches Some(s) && s@ == text@.subrange(
            0,
            text@.len() - suffix@.len(),
        )),
        !has_suffix(text@, suffix@) ==> stripped is None,
{
    if !str_has_suffix(text, suffix) {
        return None;
    }
    let text_length = text.unicode_len();
    let suffix_length = suffix.unicode_len();
    let stripped = text.substring_char(0, text_length - suffix_length);
    Some(stripped.to_owned())
}

/// The decimal representation of `value`.
pub fn decimal_string(value: usize) -> (text: String)
    ensures
        text@ == decimal_digits(value as nat),
{
    let mut digits: Vec<char> = Vec::new();
    let mut remaining = value;
    loop
        invariant_except_break
            decimal_digits(value as nat) == decimal_digits(remaining as nat) + digits@.reverse(),
        ensures
            decimal_digits(value as nat) =~= digits@.reverse(),
        decreases remaining,
    {
        let digit = ((remaining % 10) as u8 + 48u8) as char;
        assert(digit == ((remaining as nat % 10) + ('0' as nat)) as char);
        assert(decimal_digits(remaining as nat) == if remaining < 10 {
            seq![digit]
        } else {
            decimal_digits((remaining / 10) as nat).push(digit)
        });
        let ghost previous = digits@;
        digits.push(digit);
        assert(digits@.reverse() =~= seq![digit] + previous.reverse());
        if remaining < 10 {
            assert(decimal_digits(value as nat) =~= digits@.reverse());
            break;
        }
        remaining = remaining / 10;
        assert(decimal_digits(value as nat) =~= decimal_digits(remaining as nat) + digits@.reverse());
    }
    let mut text = String::new();
    let mut index = digits.len();
    while index > 0
        invariant
            index <= digits@.len(),
            text@ == digits@.reverse().subrange(0, digits@.len() - index),
            decimal_digits(value as nat) =~= digits@.reverse(),
        decreases index,
    {
        index -= 1;
        let digit = digits[index];
        text = push_char(text, digit);
        assert(text@ =~= digits@.reverse().subrange(0, digits@.len() - index));
    }
    text
}

/// The string made of `chars`, in order.
pub fn string_from_characters(chars: &Vec<char>) -> (text: String)
    ensures
        text@ == chars@,
{
    let mut text = String::new();
    let mut index: usize = 0;
    while index < chars.len()
        invariant
            index <= chars@.len(),
            text@ == chars@.subrange(0, index as int),
        decreases chars.len() - index,
    {
        text = push_char(text, chars[index]);
        index += 1;
        assert(text@ =~= chars@.subrange(0, index as int));
    }
    assert(chars@.subrange(0, index as int) =~= chars@);
    text
}

/// Wraps `String::push` from std: the contract claims that the character is
/// appended after the existing characters.
#[verifier::external_body]
fn push_char(text: String, character: char) -> (extended: String)
    ensures
        extended@ == text@.push(character),
{
    let mut extended = text;
    extended.push(character);
    extended
}

} // verus!
