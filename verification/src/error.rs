//! The ways in which an operation of the library can fail.

use vstd::prelude::*;
use vstd::string::StringExecFns;
use crate::date::{padded, push_padded};

verus! {

/// Why a text could not be read as a publish date.
#[derive(Clone, Debug, PartialEq, Eq)]
pub enum DateError {
    /// The text held here names no date.
    InvalidDate(String),
    /// The text held here names a time of day and no date.
    NeedDateNotTime(String),
}

/// Why the fields of a frontmatter block could not be read.
#[derive(Clone, Debug, PartialEq, Eq)]
pub enum DecodeFault {
    /// The block is no YAML or JSON mapping; the decoder's words are held here.
    Malformed(String),
    /// A key of the block is no text.
    KeyNotText,
    /// The key held here is none of `title`, `slug` and `published_at`.
    UnknownField(String),
    /// The key held here stands twice.
    DuplicateField(String),
    /// The value of the key held here is neither a text nor null.
    WrongType(String),
    /// The text given as `published_at` is no publish date.
    Date(DateError),
}

/// Why a command could not be carried out.
#[derive(Clone, Debug, PartialEq, Eq)]
pub enum CommandError {
    /// The frontmatter block is marked with the language held here, which
    /// is neither YAML nor JSON.
    UnsupportedFrontmatterLanguage(String),
    /// The fields of the frontmatter block could not be read.
    FrontmatterDecode(DecodeFault),
    /// The byte position held here, reported as the start of the body, does
    /// not lie between two characters of the document.
    BodyOffset(usize),
    /// A post is to be created and no title is known for it.
    MissingTitle,
    /// A post is to be updated and no slug is known for it.
    MissingSlug,
    /// The service answered with the status and the body held here.
    RequestFailed(u16, String),
}

/// A [`DateError`] with its text as a sequence of characters.
pub enum DateErrorView {
    InvalidDate(Seq<char>),
    NeedDateNotTime(Seq<char>),
}

/// A [`DecodeFault`] with its texts as sequences of characters, and
/// without the decoder's words.
pub enum DecodeFaultView {
    Malformed,
    KeyNotText,
    UnknownField(Seq<char>),
    DuplicateField(Seq<char>),
    WrongType(Seq<char>),
    Date(DateErrorView),
}

/// A [`CommandError`] with its texts as sequences of characters.
pub enum CommandErrorView {
    UnsupportedFrontmatterLanguage(Seq<char>),
    FrontmatterDecode(DecodeFaultView),
    BodyOffset(usize),
    MissingTitle,
    MissingSlug,
    RequestFailed(u16, Seq<char>),
}

impl View for DateError {
    type V = DateErrorView;

    open spec fn view(&self) -> DateErrorView {
        match *self {
            DateError::InvalidDate(text) => DateErrorView::InvalidDate(text@),
            DateError::NeedDateNotTime(text) => DateErrorView::NeedDateNotTime(text@),
        }
    }
}

impl View for DecodeFault {
    type V = DecodeFaultView;

    open spec fn view(&self) -> DecodeFaultView {
        match *self {
            DecodeFault::Malformed(_) => DecodeFaultView::Malformed,
            DecodeFault::KeyNotText => DecodeFaultView::KeyNotText,
            DecodeFault::UnknownField(key) => DecodeFaultView::UnknownField(key@),
            DecodeFault::DuplicateField(key) => DecodeFaultView::DuplicateField(key@),
            DecodeFault::WrongType(key) => DecodeFaultView::WrongType(key@),
            DecodeFault::Date(fault) => DecodeFaultView::Date(fault@),
        }
    }
}

impl View for CommandError {
    type V = CommandErrorView;

    open spec fn view(&self) -> CommandErrorView {
        match *self {
            CommandError::UnsupportedFrontmatterLanguage(tag) => CommandErrorView::UnsupportedFrontmatterLanguage(
                tag@,
            ),
            CommandError::FrontmatterDecode(fault) => CommandErrorView::FrontmatterDecode(fault@),
            CommandError::BodyOffset(at) => CommandErrorView::BodyOffset(at),
            CommandError::MissingTitle => CommandErrorView::MissingTitle,
            CommandError::MissingSlug => CommandErrorView::MissingSlug,
            CommandError::RequestFailed(status, body) => CommandErrorView::RequestFailed(status, body@),
        }
    }
}

impl DateError {
    /// The words of the error.
    pub open spec fn words(&self) -> Seq<char> {
        match *self {
            DateError::InvalidDate(text) => "'"@ + text@ + "' is not a valid date"@,
            DateError::NeedDateNotTime(_) => "need a date, not just a time"@,
        }
    }

    /// The words of the error. They name the text that is no date.
    pub fn message(&self) -> (r: String)
        ensures
            r@ == self.words(),
    {
        match self {
            DateError::InvalidDate(text) => {
                let mut out = String::from_str("'");
                out.append(text.as_str());
                out.append("' is not a valid date");
                assert(out@ =~= self.words());
                out
            },
            DateError::NeedDateNotTime(_) => String::from_str("need a date, not just a time"),
        }
    }
}

fn quoted(before: &str, text: &String, after: &str) -> (r: String)
    ensures
        r@ == before@ + text@ + after@,
{
    let mut out = String::from_str(before);
    out.append(text.as_str());
    out.append(after);
    assert(out@ =~= before@ + text@ + after@);
    out
}

impl DecodeFault {
    /// The words of the fault.
    pub open spec fn words(&self) -> Seq<char> {
        match *self {
            DecodeFault::Malformed(words) => words@,
            DecodeFault::KeyNotText => "a key of the frontmatter is not a text"@,
            DecodeFault::UnknownField(key) => "unknown field `"@ + key@
                + "`, expected one of `title`, `slug`, `published_at`"@,
            DecodeFault::DuplicateField(key) => "duplicate field `"@ + key@ + "`"@,
            DecodeFault::WrongType(key) => "invalid type for `"@ + key@ + "`, expected a string"@,
            DecodeFault::Date(fault) => fault.words(),
        }
    }

    /// The words of the fault. They name the key at fault.
    pub fn message(&self) -> (r: String)
        ensures
            r@ == self.words(),
    {
        match self {
            DecodeFault::Malformed(words) => words.clone(),
            DecodeFault::KeyNotText => String::from_str("a key of the frontmatter is not a text"),
            DecodeFault::UnknownField(key) => quoted(
                "unknown field `",
                key,
                "`, expected one of `title`, `slug`, `published_at`",
            ),
            DecodeFault::DuplicateField(key) => quoted("duplicate field `", key, "`"),
            DecodeFault::WrongType(key) => quoted("invalid type for `", key, "`, expected a string"),
            DecodeFault::Date(fault) => fault.message(),
        }
    }
}

impl CommandError {
    /// The words of the error.
    pub open spec fn words(&self) -> Seq<char> {
        match *self {
            CommandError::UnsupportedFrontmatterLanguage(tag) => "'"@ + tag@
                + "' is not supported, only yaml and json are."@,
            CommandError::FrontmatterDecode(fault) => fault.words(),
            CommandError::BodyOffset(_) =>
                "the body of the document does not begin between two characters"@,
            CommandError::MissingTitle =>
                "The title is required to create a new post. It can be provided via the --title flag, or as the title key in the post frontmatter, or as a leading h1 before the post frontmatter"@,
            CommandError::MissingSlug =>
                "The slug is required to update a post. It can be provided via the --slug flag, or as the slug key in the post frontmatter."@,
            CommandError::RequestFailed(status, body) => "request failed with status "@ + padded(
                status as nat,
                1,
            ) + ": "@ + body@,
        }
    }

    /// The words of the error. Where a mark of a block is refused they
    /// name the mark; where a title or a slug is missing they name the
    /// places in which it can be given.
    pub fn message(&self) -> (r: String)
        ensures
            r@ == self.words(),
    {
        match self {
            CommandError::UnsupportedFrontmatterLanguage(tag) => quoted(
                "'",
                tag,
                "' is not supported, only yaml and json are.",
            ),
            CommandError::FrontmatterDecode(fault) => fault.message(),
            CommandError::BodyOffset(_) => String::from_str(
                "the body of the document does not begin between two characters",
            ),
            CommandError::MissingTitle => String::from_str(
                "The title is required to create a new post. It can be provided via the --title flag, or as the title key in the post frontmatter, or as a leading h1 before the post frontmatter",
            ),
            CommandError::MissingSlug => String::from_str(
                "The slug is required to update a post. It can be provided via the --slug flag, or as the slug key in the post frontmatter.",
            ),
            CommandError::RequestFailed(status, body) => {
                let mut out = String::from_str("request failed with status ");
                push_padded(&mut out, *status as u32, 1);
                out.append(": ");
                out.append(body.as_str());
                assert(out@ =~= self.words());
                out
            },
        }
    }
}

/// What an answer of the service amounts to: its body where the status
/// is one of success, 200 to 299, else a failure that holds both.
pub fn check_status(status: u16, body: String) -> (r: Result<String, CommandError>)
    ensures
        200 <= status <= 299 ==> (r matches Ok(text) && text@ == body@),
        !(200 <= status <= 299) ==> (r matches Err(e) && e@ == CommandErrorView::RequestFailed(
            status,
            body@,
        )),
{
    if 200 <= status && status <= 299 {
        Ok(body)
    } else {
        Err(CommandError::RequestFailed(status, body))
    }
}

} // verus!
