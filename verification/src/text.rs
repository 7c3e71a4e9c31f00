//! Character-level helpers shared by the text that the library builds and
//! reads: string characters, equality, prefixes and decimal numbers.

use vstd::prelude::*;
use vstd::string::StrSliceExecFns;

verus! {

/// Calls `String::from_iter` on the characters, in order.
#[verifier::external_body]
pub(crate) fn string_from_chars(chars: &Vec<char>) -> (s: String)
    ensures
        s@ == chars@,
{
    String::from_iter(chars.iter())
}

/// The characters of a string slice.
pub fn chars_of(s: &str) -> (chars: Vec<char>)
    ensures
        chars@ == s@,
{
    let len = s.unicode_len();
    let mut chars: Vec<char> = Vec::new();
    let mut i: usize = 0;
    while i < len
        invariant
            len == s@.len(),
            i <= len,
            chars@ == s@.subrange(0, i as int),
        decreases len - i,
    {
        chars.push(s.get_char(i));
        i = i + 1;
        assert(chars@ =~= s@.subrange(0, i as int));
    }
    assert(chars@ =~= s@);
    chars
}

/// Appends the characters of `s` to `out`.
pub fn push_str(out: &mut Vec<char>, s: &str)
    ensures
        final(out)@ == old(out)@ + s@,
{
    let len = s.unicode_len();
    let mut i: usize = 0;
    while i < len
        invariant
            len == s@.len(),
            i <= len,
            out@ == old(out)@ + s@.subrange(0, i as int),
        decreases len - i,
    {
        out.push(s.get_char(i));
        i = i + 1;
        assert(out@ =~= old(out)@ + s@.subrange(0, i as int));
    }
    assert(s@.subrange(0, len as int) =~= s@);
}

/// Whether two string slices hold the same characters.
pub fn str_equals(a: &str, b: &str) -> (equal: bool)
    ensures
        equal == (a@ == b@),
{
    let a_chars = chars_of(a);
    let b_chars = chars_of(b);
    if a_chars.len() != b_chars.len() {
        return false;
    }
    let mut i: usize = 0;
    while i < a_chars.len()
        invariant
            a_chars@ == a@,
            b_chars@ == b@,
            a@.len() == b@.len(),
            i <= a@.len(),
            forall|k: int| 0 <= k < i ==> a@[k] == b@[k],
        decreases a@.len() - i,
    {
        if a_chars[i] != b_chars[i] {
            return false;
        }
        i = i + 1;
    }
    assert(a@ =~= b@);
    true
}

/// `prefix` begins `text`.
pub open spec fn has_prefix(text: Seq<char>, prefix: Seq<char>) -> bool {
    prefix.len() <= text.len() && text.subrange(0, prefix.len() as int) == prefix
}

/// `suffix` ends `text`.
pub open spec fn has_suffix(text: Seq<char>, suffix: Seq<char>) -> bool {
    suffix.len() <= text.len() && text.subrange(text.len() - suffix.len(), text.len() as int)
        == suffix
}

/// Whether the characters of `pattern` stand in `text` from `offset` on.
fn matches_at(text: &Vec<char>, offset: usize, pattern: &Vec<char>) -> (found: bool)
    requires
        offset + pattern@.len() <= text@.len(),
    ensures
        found == (text@.subrange(offset as int, offset + pattern@.len()) == pattern@),
{
    let mut i: usize = 0;
    while i < pattern.len()
        invariant
            offset + pattern.len() <= text.len(),
            i <= pattern@.len(),
            forall|k: int| 0 <= k < i ==> text@[offset + k] == pattern@[k],
        decreases pattern@.len() - i,
    {
        if text[offset + i] != pattern[i] {
            assert(text@.subrange(offset as int, offset + pattern@.len())[i as int]
                != pattern@[i as int]);
            return false;
        }
        i = i + 1;
    }
    assert(text@.subrange(offset as int, offset + pattern@.len()) =~= pattern@);
    true
}

/// `pattern` stands somewhere in `text`.
pub open spec fn contains_text(text: Seq<char>, pattern: Seq<char>) -> bool {
    exists|i: int|
        0 <= i && i + pattern.len() <= text.len() && #[trigger] text.subrange(i, i + pattern.len())
            == pattern
}

/// Whether `pattern` stands somewhere in `text`, as `str::contains` finds it.
pub fn contains_str(text: &str, pattern: &str) -> (found: bool)
    ensures
        found == contains_text(text@, pattern@),
{
    let chars = chars_of(text);
    let wanted = chars_of(pattern);
    if wanted.len() > chars.len() {
        return false;
    }
    if wanted.len() == 0 {
        assert(text@.subrange(0, 0 + pattern@.len() as int) =~= pattern@);
        return true;
    }
    let last = chars.len() - wanted.len();
    let mut i: usize = 0;
    while i <= last
        invariant
            chars@ == text@,
            wanted@ == pattern@,
            last == chars@.len() - wanted@.len(),
            0 < wanted@.len() <= chars@.len(),
            last < chars.len(),
            i <= last + 1,
            forall|k: int| 0 <= k < i ==> #[trigger] chars@.subrange(k, k + wanted@.len()) != wanted@,
        decreases last + 1 - i,
    {
        if matches_at(&chars, i, &wanted) {
            return true;
        }
        i = i + 1;
    }
    assert forall|k: int| 0 <= k && k + pattern@.len() <= text@.len() implies #[trigger] text@.subrange(k, k + pattern@.len()) != pattern@ by {
        assert(k < i);
    }
    false
}

/// Whether `prefix` begins `text`.
pub fn starts_with_chars(text: &Vec<char>, prefix: &Vec<char>) -> (found: bool)
    ensures
        found == has_prefix(text@, prefix@),
{
    if prefix.len() > text.len() {
        return false;
    }
    matches_at(text, 0, prefix)
}

/// Whether `suffix` ends `text`.
pub fn ends_with(text: &Vec<char>, suffix: &str) -> (found: bool)
    ensures
        found == has_suffix(text@, suffix@),
{
    let pattern = chars_of(suffix);
    if pattern.len() > text.len() {
        return false;
    }
    matches_at(text, text.len() - pattern.len(), &pattern)
}

/// The decimal digit character for `d` in `0..10`.
pub open spec fn digit_char(d: int) -> char {
    if d == 0 {
        '0'
    } else if d == 1 {
        '1'
    } else if d == 2 {
        '2'
    } else if d == 3 {
        '3'
    } else if d == 4 {
        '4'
    } else if d == 5 {
        '5'
    } else if d == 6 {
        '6'
    } else if d == 7 {
        '7'
    } else if d == 8 {
        '8'
    } else {
        '9'
    }
}

/// The decimal representation of `n`, most significant digit first, without
/// leading zeros.
pub open spec fn decimal(n: nat) -> Seq<char>
    decreases n,
{
    if n < 10 {
        seq![digit_char(n as int)]
    } else {
        decimal(n / 10).push(digit_char((n % 10) as int))
    }
}

/// The character of one decimal digit.
fn digit(d: u128) -> (c: char)
    requires
        d < 10,
    ensures
        c == digit_char(d as int),
{
    if d == 0 {
        '0'
    } else if d == 1 {
        '1'
    } else if d == 2 {
        '2'
    } else if d == 3 {
        '3'
    } else if d == 4 {
        '4'
    } else if d == 5 {
        '5'
    } else if d == 6 {
        '6'
    } else if d == 7 {
        '7'
    } else if d == 8 {
        '8'
    } else {
        '9'
    }
}

/// Appends the decimal representation of `n` to `out`.
pub fn push_decimal(out: &mut Vec<char>, n: u128)
    ensures
        final(out)@ == old(out)@ + decimal(n as nat),
    decreases n,
{
    if n >= 10 {
        push_decimal(out, n / 10);
    }
    out.push(digit(n % 10));
    assert(out@ =~= old(out)@ + decimal(n as nat));
}

/// `n` in decimal, left-padded with zeros to at least `width` characters.
pub open spec fn padded_decimal(n: nat, width: nat) -> Seq<char> {
    let digits = decimal(n);
    if digits.len() < width {
        Seq::new((width - digits.len()) as nat, |_i: int| '0') + digits
    } else {
        digits
    }
}

/// Appends `n` in decimal, left-padded with zeros to `width` characters.
pub fn push_padded_decimal(out: &mut Vec<char>, n: u128, width: usize)
    ensures
        final(out)@ == old(out)@ + padded_decimal(n as nat, width as nat),
{
    let mut digits: Vec<char> = Vec::new();
    push_decimal(&mut digits, n);
    assert(digits@ =~= decimal(n as nat));
    let mut pad: usize = 0;
    let ghost start = out@;
    if digits.len() < width {
        let zeros = width - digits.len();
        while pad < zeros
            invariant
                zeros == width - digits@.len(),
                digits@ == decimal(n as nat),
                pad <= zeros,
                out@ == start + Seq::new(pad as nat, |_i: int| '0'),
            decreases zeros - pad,
        {
            out.push('0');
            pad = pad + 1;
            assert(out@ =~= start + Seq::new(pad as nat, |_i: int| '0'));
        }
    }
    let ghost padded = out@;
    let mut i: usize = 0;
    while i < digits.len()
        invariant
            out@ == padded + digits@.subrange(0, i as int),
            i <= digits@.len(),
        decreases digits@.len() - i,
    {
        out.push(digits[i]);
        i = i + 1;
        assert(out@ =~= padded + digits@.subrange(0, i as int));
    }
    assert(digits@.subrange(0, digits@.len() as int) =~= digits@);
    assert(out@ =~= old(out)@ + padded_decimal(n as nat, width as nat));
}

} // verus!
