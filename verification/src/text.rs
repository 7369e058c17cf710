//! Small operations on text that the rest of the library is built from.

use vstd::prelude::*;
use vstd::string::StringSliceAdditionalSpecFns;
use vstd::utf8::{decode_utf8, encode_utf8, is_char_boundary};

verus! {

/// Whether `c` is white space: a character with the Unicode property
/// `White_Space`.
pub open spec fn is_white_space(c: char) -> bool {
    let n = c as int;
    ||| 0x09 <= n <= 0x0d
    ||| n == 0x20
    ||| n == 0x85
    ||| n == 0xa0
    ||| n == 0x1680
    ||| 0x2000 <= n <= 0x200a
    ||| n == 0x2028
    ||| n == 0x2029
    ||| n == 0x202f
    ||| n == 0x205f
    ||| n == 0x3000
}

/// `s` without the white space at its start.
pub open spec fn trimmed_start(s: Seq<char>) -> Seq<char>
    decreases s.len(),
{
    if s.len() > 0 && is_white_space(s[0]) {
        trimmed_start(s.drop_first())
    } else {
        s
    }
}

/// `s` without the white space at its end.
pub open spec fn trimmed_end(s: Seq<char>) -> Seq<char>
    decreases s.len(),
{
    if s.len() > 0 && is_white_space(s.last()) {
        trimmed_end(s.drop_last())
    } else {
        s
    }
}

/// `s` without the white space at its start and at its end.
pub open spec fn trimmed(s: Seq<char>) -> Seq<char> {
    trimmed_end(trimmed_start(s))
}

/// The part of `s` without its white space at both ends.
///
/// Trusted: calls `str::trim`, which returns the slice with leading and
/// trailing white space removed, white space being the characters with the
/// Unicode property `White_Space`.
#[verifier::external_body]
pub(crate) fn trim(s: &str) -> (r: &str)
    ensures
        r@ == trimmed(s@),
{
    s.trim()
}

/// Whether `a` and `b` hold the same characters.
pub fn same_text(a: &str, b: &str) -> (r: bool)
    ensures
        r == (a@ == b@),
{
    let x = a.as_bytes();
    let y = b.as_bytes();
    proof {
        // Two texts with the same bytes are the same text.
        vstd::utf8::encode_utf8_decode_utf8(a@);
        vstd::utf8::encode_utf8_decode_utf8(b@);
    }
    if x.len() != y.len() {
        return false;
    }
    let mut at: usize = 0;
    while at < x.len()
        invariant
            x@ == encode_utf8(a@),
            y@ == encode_utf8(b@),
            x@.len() == y@.len(),
            at <= x.len(),
            forall|k: int| 0 <= k < at ==> x@[k] == y@[k],
        decreases x.len() - at,
    {
        if x[at] != y[at] {
            assert(x@[at as int] != y@[at as int]);
            return false;
        }
        at += 1;
    }
    assert(x@ =~= y@);
    true
}

/// The words of a line as a shell would split it.
pub uninterp spec fn words_of(line: Seq<char>) -> Seq<Seq<char>>;

/// The words of a line.
///
/// Trusted: collects what the iterator `shlex::Shlex::new` hands out for
/// the line. The result depends on the line alone.
#[verifier::external_body]
pub(crate) fn shell_words(line: &str) -> (r: Vec<String>)
    ensures
        r@.len() == words_of(line@).len(),
        forall|i: int| 0 <= i < r@.len() ==> (#[trigger] r@[i])@ == words_of(line@)[i],
{
    shlex::Shlex::new(line).collect()
}

/// The characters of `s` from the byte position `start` of its UTF-8 form on.
pub open spec fn tail_of(s: Seq<char>, start: int) -> Seq<char> {
    decode_utf8(encode_utf8(s).subrange(start, encode_utf8(s).len() as int))
}

/// Whether the byte position `start` of the UTF-8 form of `s` lies between
/// two characters, or at an end.
pub open spec fn is_boundary(s: Seq<char>, start: int) -> bool {
    is_char_boundary(encode_utf8(s), start)
}

/// The part of `s` from the byte position `start` on, where that position
/// lies between two characters.
pub fn tail_from(s: &str, start: usize) -> (r: Option<&str>)
    ensures
        r is Some <==> is_boundary(s@, start as int),
        r matches Some(t) ==> t@ == tail_of(s@, start as int),
{
    if s.is_char_boundary(start) {
        let (_, tail) = s.split_at(start);
        proof {
            vstd::utf8::encode_utf8_decode_utf8(tail@);
        }
        Some(tail)
    } else {
        None
    }
}

/// Appends one character to `s`.
///
/// Trusted: calls `String::push`, which appends the given `char` to the end
/// of the string and changes nothing before it.
#[verifier::external_body]
pub(crate) fn push_char(s: &mut String, c: char)
    ensures
        final(s)@ == old(s)@.push(c),
{
    s.push(c);
}

/// The views of an optional text.
pub open spec fn opt_view(o: Option<String>) -> Option<Seq<char>> {
    match o {
        Some(s) => Some(s@),
        None => None,
    }
}

/// A copy of an optional text.
pub fn clone_opt(o: &Option<String>) -> (r: Option<String>)
    ensures
        opt_view(r) == opt_view(*o),
{
    match o {
        Some(s) => Some(s.clone()),
        None => None,
    }
}

} // verus!
