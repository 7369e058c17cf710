//! Where the key of the service comes from, and how it is sent.
//!
//! The key is given in one of three ways: in a file, by a command that
//! prints it, or as it is. Exactly one of them is to be chosen.

use vstd::prelude::*;
use vstd::string::StringExecFns;
use crate::text::{opt_view, shell_words, trim, trimmed, words_of};

verus! {

/// The one place that the key comes from.
#[derive(Clone, Debug, PartialEq, Eq)]
pub enum KeySource {
    /// The file with this path holds the key.
    File(String),
    /// This command prints the key.
    Command(String),
    /// This is the key.
    Value(String),
}

/// A [`KeySource`] with its text as a sequence of characters.
pub enum KeySourceView {
    File(Seq<char>),
    Command(Seq<char>),
    Value(Seq<char>),
}

impl View for KeySource {
    type V = KeySourceView;

    open spec fn view(&self) -> KeySourceView {
        match *self {
            KeySource::File(path) => KeySourceView::File(path@),
            KeySource::Command(command) => KeySourceView::Command(command@),
            KeySource::Value(key) => KeySourceView::Value(key@),
        }
    }
}

/// The source of the key where exactly one is given; none where none or
/// more than one is.
pub open spec fn source_spec(
    file: Option<Seq<char>>,
    command: Option<Seq<char>>,
    key: Option<Seq<char>>,
) -> Option<KeySourceView> {
    match (file, command, key) {
        (Some(path), None, None) => Some(KeySourceView::File(path)),
        (None, Some(line), None) => Some(KeySourceView::Command(line)),
        (None, None, Some(value)) => Some(KeySourceView::Value(value)),
        _ => None,
    }
}

/// The source of the key where exactly one is given.
pub fn key_source(file: Option<String>, command: Option<String>, key: Option<String>) -> (r: Option<
    KeySource,
>)
    ensures
        match source_spec(opt_view(file), opt_view(command), opt_view(key)) {
            Some(source) => r matches Some(s) && s@ == source,
            None => r is None,
        },
{
    match (file, command, key) {
        (Some(path), None, None) => Some(KeySource::File(path)),
        (None, Some(line), None) => Some(KeySource::Command(line)),
        (None, None, Some(value)) => Some(KeySource::Value(value)),
        _ => None,
    }
}

/// The program and the arguments of a command that prints the key: the
/// first word of the line and the words after it. A line without a word
/// names no program.
pub fn key_command(line: &str) -> (r: Option<(String, Vec<String>)>)
    ensures
        words_of(line@).len() == 0 ==> r is None,
        words_of(line@).len() > 0 ==> (r matches Some((program, arguments)) && program@ == words_of(
            line@,
        )[0] && arguments@.len() == words_of(line@).len() - 1 && forall|i: int|
            0 <= i < arguments@.len() ==> (#[trigger] arguments@[i])@ == words_of(line@)[i + 1]),
{
    let words = shell_words(line);
    if words.len() == 0 {
        return None;
    }
    let program = words[0].clone();
    let mut arguments: Vec<String> = Vec::new();
    let mut at: usize = 1;
    while at < words.len()
        invariant
            1 <= at <= words.len(),
            arguments@.len() == at - 1,
            forall|i: int| 0 <= i < arguments@.len() ==> (#[trigger] arguments@[i])@ == words@[i + 1]@,
        decreases words.len() - at,
    {
        arguments.push(words[at].clone());
        at += 1;
    }
    proof {
        assert forall|i: int| 0 <= i < arguments@.len() implies (#[trigger] arguments@[i])@
            == words_of(line@)[i + 1] by {
            assert(words@[i + 1]@ == words_of(line@)[i + 1]);
        }
        assert(words@[0]@ == words_of(line@)[0]);
    }
    Some((program, arguments))
}

/// The value of the header that carries a key.
pub open spec fn bearer_spec(key: Seq<char>) -> Seq<char> {
    "Bearer "@ + key
}

/// The value of the header that carries the key that was given as it is.
pub fn bearer(key: &str) -> (r: String)
    ensures
        r@ == bearer_spec(key@),
{
    let mut out = String::from_str("Bearer ");
    out.append(key);
    out
}

/// The value of the header that carries the key that a file holds or a
/// command printed: the text without the white space around it.
pub fn bearer_of_output(text: &str) -> (r: String)
    ensures
        r@ == bearer_spec(trimmed(text@)),
{
    bearer(trim(text))
}

} // verus!
