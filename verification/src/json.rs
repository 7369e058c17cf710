//! The body of a request: a JSON object with a member for each field
//! that is given.
//!
//! The object is put together here; the writing of a text as a JSON
//! string is left to the encoder, and stated here.

use vstd::prelude::*;
use vstd::string::StringExecFns;
use crate::text::opt_view;

verus! {

/// The small letter or digit that stands for `n` in base sixteen.
pub open spec fn hex_digit(n: int) -> char {
    if n < 10 {
        (48 + n) as char
    } else {
        (87 + n) as char
    }
}

/// What is written for one character inside a JSON string: a backslash
/// and a letter for the quote, the backslash and the five control
/// characters that have a letter; `\u00` and two digits for any other
/// character below the space; the character itself for all others.
pub open spec fn escape_of(c: char) -> Seq<char> {
    if c == '"' {
        seq!['\\', '"']
    } else if c == '\\' {
        seq!['\\', '\\']
    } else if c == '\u{8}' {
        seq!['\\', 'b']
    } else if c == '\t' {
        seq!['\\', 't']
    } else if c == '\n' {
        seq!['\\', 'n']
    } else if c == '\u{c}' {
        seq!['\\', 'f']
    } else if c == '\r' {
        seq!['\\', 'r']
    } else if (c as int) < 0x20 {
        seq!['\\', 'u', '0', '0', hex_digit(c as int / 16), hex_digit(c as int % 16)]
    } else {
        seq![c]
    }
}

/// The characters of `text`, each as it is written inside a JSON string.
pub open spec fn escaped(text: Seq<char>) -> Seq<char>
    decreases text.len(),
{
    if text.len() == 0 {
        Seq::<char>::empty()
    } else {
        escaped(text.drop_last()) + escape_of(text.last())
    }
}

/// The JSON string that stands for `text`: its characters as they are
/// written inside a string, between two quotes.
pub open spec fn json_string_of(text: Seq<char>) -> Seq<char> {
    seq!['"'] + escaped(text) + seq!['"']
}

/// Writes `text` as a JSON string.
///
/// Trusted: calls `serde_json::to_string` on the text and hands back
/// what it returned. The encoder writes a quote, each character as its
/// table of escapes says, and a quote. The call does not fail: the
/// encoder fails only where the value itself refuses to be written or a
/// map has a key that is no text, and a text is neither; it writes into
/// memory, which takes all it is given.
#[verifier::external_body]
fn json_string(text: &str) -> (r: Result<String, serde_json::Error>)
    ensures
        r is Ok,
        r matches Ok(s) ==> s@ == json_string_of(text@),
{
    serde_json::to_string(text)
}

/// One member of a JSON object: its key, which needs no escaping, and
/// its value as a JSON string.
pub open spec fn member_text(key: Seq<char>, value: Seq<char>) -> Seq<char> {
    "\""@ + key + "\":"@ + value
}

/// The first `count` members of an object, with commas between them.
pub open spec fn members_text(members: Seq<(Seq<char>, Seq<char>)>, count: int) -> Seq<char>
    decreases count,
{
    if count <= 0 {
        Seq::<char>::empty()
    } else if count == 1 {
        member_text(members[0].0, members[0].1)
    } else {
        members_text(members, count - 1) + ","@ + member_text(
            members[count - 1].0,
            members[count - 1].1,
        )
    }
}

/// The JSON object with the given members.
pub open spec fn object_text(members: Seq<(Seq<char>, Seq<char>)>) -> Seq<char> {
    "{"@ + members_text(members, members.len() as int) + "}"@
}

/// The fields of a body that are given, in their order, each with the
/// text that is to be written for it.
pub open spec fn given(fields: Seq<(Seq<char>, Option<Seq<char>>)>) -> Seq<(Seq<char>, Seq<char>)>
    decreases fields.len(),
{
    if fields.len() == 0 {
        Seq::empty()
    } else {
        let rest = given(fields.drop_last());
        match fields.last().1 {
            Some(text) => rest.push((fields.last().0, text)),
            None => rest,
        }
    }
}

/// The members with each text written as a JSON string.
pub open spec fn encoded(members: Seq<(Seq<char>, Seq<char>)>) -> Seq<(Seq<char>, Seq<char>)> {
    Seq::new(members.len(), |i: int| (members[i].0, json_string_of(members[i].1)))
}

/// The body that holds the given fields: a JSON object with a member for
/// each field that is given, in the order of the fields.
pub open spec fn body_text(fields: Seq<(Seq<char>, Option<Seq<char>>)>) -> Seq<char> {
    object_text(encoded(given(fields)))
}

/// The views of a list of fields.
pub open spec fn fields_view(fields: Seq<(&'static str, Option<String>)>) -> Seq<
    (Seq<char>, Option<Seq<char>>),
> {
    Seq::new(fields.len(), |i: int| (fields[i].0@, opt_view(fields[i].1)))
}

proof fn lemma_given_push(fields: Seq<(Seq<char>, Option<Seq<char>>)>, count: int)
    requires
        0 <= count < fields.len(),
    ensures
        given(fields.take(count + 1)) == match fields[count].1 {
            Some(text) => given(fields.take(count)).push((fields[count].0, text)),
            None => given(fields.take(count)),
        },
{
    assert(fields.take(count + 1).drop_last() =~= fields.take(count));
}

proof fn lemma_members_push(members: Seq<(Seq<char>, Seq<char>)>, count: int, longer: Seq<
    (Seq<char>, Seq<char>),
>)
    requires
        0 <= count <= members.len(),
        count <= longer.len(),
        forall|i: int| 0 <= i < count ==> members[i] == longer[i],
    ensures
        members_text(members, count) == members_text(longer, count),
    decreases count,
{
    if count > 1 {
        lemma_members_push(members, count - 1, longer);
    }
}

/// Writes the body that holds the given fields.
pub fn write_body(fields: &Vec<(&'static str, Option<String>)>) -> (r: String)
    ensures
        r@ == body_text(fields_view(fields@)),
{
    let ghost all = fields_view(fields@);
    let mut out = String::new();
    out.append("{");
    let mut at: usize = 0;
    let mut written: usize = 0;
    assert(all.take(0) =~= Seq::empty());
    assert(out@ =~= "{"@ + members_text(encoded(given(all.take(0))), 0));
    while at < fields.len()
        invariant
            at <= fields.len(),
            all == fields_view(fields@),
            written == given(all.take(at as int)).len(),
            written <= at,
            out@ == "{"@ + members_text(encoded(given(all.take(at as int))), written as int),
        decreases fields.len() - at,
    {
        let entry = &fields[at];
        proof {
            lemma_given_push(all, at as int);
            assert(all[at as int] == (entry.0@, opt_view(entry.1)));
        }
        let ghost before = given(all.take(at as int));
        let ghost after = given(all.take(at + 1));
        match &entry.1 {
            Some(text) => {
                // The encoder does not fail on a text.
                let value = match json_string(text.as_str()) {
                    Ok(value) => value,
                    Err(_) => String::new(),
                };
                proof {
                    assert(after == before.push((entry.0@, text@)));
                    lemma_members_push(encoded(before), written as int, encoded(after));
                }
                if written > 0 {
                    out.append(",");
                }
                out.append("\"");
                out.append(entry.0);
                out.append("\":");
                out.append(value.as_str());
                written += 1;
                proof {
                    assert(encoded(after)[written - 1] == (entry.0@, value@));
                    assert(out@ =~= "{"@ + members_text(encoded(after), written as int));
                }
            },
            None => {
                assert(after == before);
            },
        }
        at += 1;
    }
    assert(all.take(at as int) =~= all);
    out.append("}");
    assert(out@ =~= object_text(encoded(given(all))));
    out
}

} // verus!
