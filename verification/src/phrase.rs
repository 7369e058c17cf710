//! Which texts may be handed to the grammar of date phrases.
//!
//! The grammar reads phrases such as `tomorrow`, `next friday` or
//! `3 days ago`. It gives up with a panic on a clock unit after `this`,
//! `next` or `last` (`next hour`), and its arithmetic on dates overflows on
//! very large numbers. A text is admitted to it only where neither can
//! happen: it is short, in ASCII, holds no number of five digits or more and
//! no clock unit after one of those three words.
//!
//! The bounds are wider than the texts that do fail. A number of five
//! digits is harmless before `days` as long as no hours, minutes or
//! seconds follow, but it can carry the date to the last day that the
//! grammar's calendar holds, where any clock span after it overflows; to
//! tell the two apart the units would have to be read as the grammar
//! reads them. The grammar turns capital letters into small ones by the
//! rules of Unicode, which are not stated here, so only ASCII is let
//! through. A text that is kept from the grammar is still read strictly,
//! as `YYYY-MM-DD`.

use vstd::prelude::*;
use vstd::string::is_ascii_spec_bytes;
use crate::date::{has_iso_shape, is_digit};

verus! {

/// The longest text, in characters, that is admitted to the grammar.
pub const PHRASE_LIMIT: usize = 64;

/// `c` with an ASCII capital letter turned into its small letter.
pub open spec fn lower(c: char) -> char {
    if 'A' <= c <= 'Z' {
        ((c as int) + 32) as char
    } else {
        c
    }
}

/// Whether `this`, `next` or `last` stands at `at`, in capital or small letters.
pub open spec fn relative_word_at(s: Seq<char>, at: int) -> bool {
    &&& 0 <= at
    &&& at + 4 <= s.len()
    &&& {
        let a = lower(s[at]);
        let b = lower(s[at + 1]);
        let c = lower(s[at + 2]);
        let d = lower(s[at + 3]);
        ||| (a == 't' && b == 'h' && c == 'i' && d == 's')
        ||| (a == 'n' && b == 'e' && c == 'x' && d == 't')
        ||| (a == 'l' && b == 'a' && c == 's' && d == 't')
    }
}

/// Whether `mon`, `sat` or `sun` stands at `at`, in capital or small letters.
pub open spec fn weekday_at(s: Seq<char>, at: int) -> bool {
    &&& 0 <= at
    &&& at + 3 <= s.len()
    &&& {
        let a = lower(s[at]);
        let b = lower(s[at + 1]);
        let c = lower(s[at + 2]);
        ||| (a == 'm' && b == 'o' && c == 'n')
        ||| (a == 's' && b == 'a' && c == 't')
        ||| (a == 's' && b == 'u' && c == 'n')
    }
}

/// Whether what stands at `at` would be read as hours, minutes or seconds:
/// it begins with `h`, `m` or `s` and is no day of the week.
pub open spec fn clock_unit_at(s: Seq<char>, at: int) -> bool {
    &&& 0 <= at < s.len()
    &&& (lower(s[at]) == 'h' || lower(s[at]) == 'm' || lower(s[at]) == 's')
    &&& !weekday_at(s, at)
}

/// The first position from `at` on that holds no space.
pub open spec fn skip_spaces(s: Seq<char>, at: int) -> int
    decreases s.len() - at,
{
    if 0 <= at < s.len() && s[at] == ' ' {
        skip_spaces(s, at + 1)
    } else {
        at
    }
}

/// Whether five digits in a row begin at `at`.
pub open spec fn five_digits_at(s: Seq<char>, at: int) -> bool {
    &&& 0 <= at
    &&& at + 5 <= s.len()
    &&& is_digit(s[at])
    &&& is_digit(s[at + 1])
    &&& is_digit(s[at + 2])
    &&& is_digit(s[at + 3])
    &&& is_digit(s[at + 4])
}

/// Whether something begins at `at` that the grammar must not be given.
pub open spec fn risky_at(s: Seq<char>, at: int) -> bool {
    five_digits_at(s, at) || (relative_word_at(s, at) && clock_unit_at(s, skip_spaces(s, at + 4)))
}

/// Whether `s` may be handed to the grammar of date phrases.
pub open spec fn phrase_admitted(s: Seq<char>) -> bool {
    &&& s.len() <= PHRASE_LIMIT
    &&& vstd::utf8::is_ascii_chars(s)
    &&& forall|at: int| 0 <= at < s.len() ==> !#[trigger] risky_at(s, at)
}

/// A text of the shape `YYYY-MM-DD` is admitted to the grammar: it is
/// short, its numbers have at most four digits, and it holds no letter.
pub proof fn lemma_iso_shape_is_admitted(s: Seq<char>)
    requires
        has_iso_shape(s),
    ensures
        phrase_admitted(s),
{
    assert forall|at: int| 0 <= at < s.len() implies !#[trigger] risky_at(s, at) by {
        assert(!is_digit(s[4]));
        assert(!is_digit(s[7]));
        assert(!relative_word_at(s, at)) by {
            if at + 4 <= s.len() {
                assert(is_digit(s[at]) || s[at] == '-');
            }
        }
    }
    assert(vstd::utf8::is_ascii_chars(s)) by {
        assert forall|i: int| 0 <= i < s.len() implies '\0' <= #[trigger] s[i] <= '\u{7f}' by {
            assert(is_digit(s[i]) || s[i] == '-');
        }
    }
}

/// `bytes` holds the characters of `s`, which are all ASCII.
spec fn spells(bytes: Seq<u8>, s: Seq<char>) -> bool {
    &&& vstd::utf8::is_ascii_chars(s)
    &&& bytes.len() == s.len()
    &&& forall|k: int| 0 <= k < s.len() ==> #[trigger] bytes[k] == s[k] as u8
}

fn lower_byte(b: u8) -> (r: u8)
    ensures
        b < 128 ==> r == lower(b as char) as u8 && r < 128,
{
    if 65 <= b && b <= 90 {
        b + 32
    } else {
        b
    }
}

fn is_digit_byte(b: u8) -> (r: bool)
    ensures
        b < 128 ==> r == is_digit(b as char),
{
    48 <= b && b <= 57
}

fn relative_word(bytes: &[u8], at: usize, Ghost(s): Ghost<Seq<char>>) -> (r: bool)
    requires
        spells(bytes@, s),
        at < bytes.len(),
    ensures
        r == relative_word_at(s, at as int),
{
    if bytes.len() - at < 4 {
        return false;
    }
    assert(bytes@[at as int] == s[at as int] as u8);
    assert(bytes@[at + 1] == s[at + 1] as u8);
    assert(bytes@[at + 2] == s[at + 2] as u8);
    assert(bytes@[at + 3] == s[at + 3] as u8);
    let a = lower_byte(bytes[at]);
    let b = lower_byte(bytes[at + 1]);
    let c = lower_byte(bytes[at + 2]);
    let d = lower_byte(bytes[at + 3]);
    (a == 116 && b == 104 && c == 105 && d == 115) || (a == 110 && b == 101 && c == 120 && d
        == 116) || (a == 108 && b == 97 && c == 115 && d == 116)
}

fn weekday(bytes: &[u8], at: usize, Ghost(s): Ghost<Seq<char>>) -> (r: bool)
    requires
        spells(bytes@, s),
        at <= bytes.len(),
    ensures
        r == weekday_at(s, at as int),
{
    if bytes.len() - at < 3 {
        return false;
    }
    assert(bytes@[at as int] == s[at as int] as u8);
    assert(bytes@[at + 1] == s[at + 1] as u8);
    assert(bytes@[at + 2] == s[at + 2] as u8);
    let a = lower_byte(bytes[at]);
    let b = lower_byte(bytes[at + 1]);
    let c = lower_byte(bytes[at + 2]);
    (a == 109 && b == 111 && c == 110) || (a == 115 && b == 97 && c == 116) || (a == 115 && b
        == 117 && c == 110)
}

fn clock_unit(bytes: &[u8], at: usize, Ghost(s): Ghost<Seq<char>>) -> (r: bool)
    requires
        spells(bytes@, s),
        at <= bytes.len(),
    ensures
        r == clock_unit_at(s, at as int),
{
    if at >= bytes.len() {
        return false;
    }
    assert(bytes@[at as int] == s[at as int] as u8);
    let a = lower_byte(bytes[at]);
    (a == 104 || a == 109 || a == 115) && !weekday(bytes, at, Ghost(s))
}

fn after_spaces(bytes: &[u8], at: usize, Ghost(s): Ghost<Seq<char>>) -> (r: usize)
    requires
        spells(bytes@, s),
        at <= bytes.len(),
    ensures
        r == skip_spaces(s, at as int),
        at <= r <= bytes.len(),
{
    let mut j = at;
    while j < bytes.len() && bytes[j] == 32
        invariant
            spells(bytes@, s),
            at <= j <= bytes.len(),
            skip_spaces(s, at as int) == skip_spaces(s, j as int),
        decreases bytes.len() - j,
    {
        assert(bytes@[j as int] == s[j as int] as u8);
        j += 1;
    }
    proof {
        if j < bytes.len() {
            assert(bytes@[j as int] == s[j as int] as u8);
        }
    }
    j
}

fn five_digits(bytes: &[u8], at: usize, Ghost(s): Ghost<Seq<char>>) -> (r: bool)
    requires
        spells(bytes@, s),
        at < bytes.len(),
    ensures
        r == five_digits_at(s, at as int),
{
    if bytes.len() - at < 5 {
        return false;
    }
    assert(bytes@[at as int] == s[at as int] as u8);
    assert(bytes@[at + 1] == s[at + 1] as u8);
    assert(bytes@[at + 2] == s[at + 2] as u8);
    assert(bytes@[at + 3] == s[at + 3] as u8);
    assert(bytes@[at + 4] == s[at + 4] as u8);
    is_digit_byte(bytes[at]) && is_digit_byte(bytes[at + 1]) && is_digit_byte(bytes[at + 2])
        && is_digit_byte(bytes[at + 3]) && is_digit_byte(bytes[at + 4])
}

fn risky(bytes: &[u8], at: usize, Ghost(s): Ghost<Seq<char>>) -> (r: bool)
    requires
        spells(bytes@, s),
        at < bytes.len(),
    ensures
        r == risky_at(s, at as int),
{
    if five_digits(bytes, at, Ghost(s)) {
        return true;
    }
    if relative_word(bytes, at, Ghost(s)) {
        let next = after_spaces(bytes, at + 4, Ghost(s));
        clock_unit(bytes, next, Ghost(s))
    } else {
        false
    }
}

/// Whether `value` may be handed to the grammar of date phrases.
pub fn admits_phrase(value: &str) -> (r: bool)
    ensures
        r == phrase_admitted(value@),
{
    if !value.is_ascii() {
        return false;
    }
    let bytes = value.as_bytes();
    proof {
        is_ascii_spec_bytes(value);
    }
    assert(spells(bytes@, value@));
    if bytes.len() > PHRASE_LIMIT {
        return false;
    }
    let mut at: usize = 0;
    while at < bytes.len()
        invariant
            spells(bytes@, value@),
            at <= bytes.len(),
            forall|k: int| 0 <= k < at ==> !#[trigger] risky_at(value@, k),
        decreases bytes.len() - at,
    {
        if risky(bytes, at, Ghost(value@)) {
            return false;
        }
        at += 1;
    }
    true
}

} // verus!
