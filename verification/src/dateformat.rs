//! The publish date of a post: a draft, or a day.
//!
//! A publish date is written by hand as `draft`, as a phrase such as
//! `tomorrow`, or as a day in the form `YYYY-MM-DD`. On the wire it is the
//! empty text for a draft and `YYYY-MM-DD` for a day.

use vstd::prelude::*;
use chrono::Datelike;
use crate::date::{Date, Moment, is_iso_text, iso_date, iso_text, lemma_iso_date_writes_back};
use crate::error::{DateError, DateErrorView};
use crate::phrase::{admits_phrase, lower, phrase_admitted};

verus! {

/// When a post is published.
#[derive(Copy, Clone, Debug, PartialEq, Eq, Structural)]
pub enum PublishDate {
    /// Not published: the post stays a draft.
    Draft,
    /// Published on this day.
    Date(Date),
}

/// What the grammar of date phrases makes of a text.
#[derive(Copy, Clone, Debug, PartialEq, Eq, Structural)]
pub enum Phrase {
    /// The text names this day.
    Date(Date),
    /// The text names a time on this day.
    DateTime(Date),
    /// The text names a time of day and no day.
    Time,
    /// The text is no phrase of the grammar.
    Unrecognized,
}

/// What the grammar of date phrases makes of `value` when the clock reads `now`.
pub uninterp spec fn phrase_of(value: Seq<char>, now: Moment) -> Phrase;

/// The day that `value` gives when read strictly as year, month and day.
pub uninterp spec fn strict_date_of(value: Seq<char>) -> Option<Date>;

/// Reads `value` as a phrase of the grammar of date phrases.
///
/// Trusted: calls `human_date_parser::from_human_time` with `now` as the
/// reference time and hands back which of its three results came, with the
/// day that chrono reports for it, or that it failed. The result depends on
/// the two arguments alone. The days are days that exist, as all of
/// chrono's are. A text of the form `YYYY-MM-DD` that names a day is read by
/// the grammar's rule for ISO dates, as that day. The `requires` keeps away
/// the texts on which the grammar panics, and makes `now` a reading that
/// chrono can hold.
#[verifier::external_body]
fn read_phrase(value: &str, now: &Moment) -> (r: Phrase)
    requires
        phrase_admitted(value@),
        now.wf(),
    ensures
        r == phrase_of(value@, *now),
        r matches Phrase::Date(d) ==> d.wf(),
        r matches Phrase::DateTime(d) ==> d.wf(),
        is_iso_text(value@) ==> r == Phrase::Date(iso_date(value@)),
{
    let day = chrono::NaiveDate::from_ymd_opt(now.date.year, now.date.month, now.date.day);
    let now = day.unwrap().and_hms_opt(now.hour, now.minute, now.second).unwrap();
    match human_date_parser::from_human_time(value, now) {
        Ok(human_date_parser::ParseResult::Date(d)) => Phrase::Date(
            Date { year: d.year(), month: d.month(), day: d.day() },
        ),
        Ok(human_date_parser::ParseResult::DateTime(t)) => Phrase::DateTime(
            Date { year: t.year(), month: t.month(), day: t.day() },
        ),
        Ok(human_date_parser::ParseResult::Time(_)) => Phrase::Time,
        Err(_) => Phrase::Unrecognized,
    }
}

/// Why chrono could not read a text.
#[verifier::external_type_specification]
#[verifier::external_body]
pub struct ExParseError(chrono::ParseError);

/// Reads `value` strictly, as year, month and day joined by `-`.
///
/// Trusted: calls `chrono::NaiveDate::parse_from_str` with the pattern
/// `%Y-%m-%d` and hands back the day it read, or its error. The result
/// depends on the text alone. The day is a day that exists. A text of the
/// form `YYYY-MM-DD` that names a day is read as that day.
#[verifier::external_body]
fn read_strict(value: &str) -> (r: Result<Date, chrono::ParseError>)
    ensures
        (r is Ok) == (strict_date_of(value@) is Some),
        r matches Ok(d) ==> d.wf() && strict_date_of(value@) == Some(d),
        is_iso_text(value@) ==> r is Ok && r->Ok_0 == iso_date(value@),
{
    match chrono::NaiveDate::parse_from_str(value, "%Y-%m-%d") {
        Ok(d) => Ok(Date { year: d.year(), month: d.month(), day: d.day() }),
        Err(e) => Err(e),
    }
}

/// Whether `s` is empty, or is `draft` or `none` in capital or small letters.
pub open spec fn is_draft_word(s: Seq<char>) -> bool {
    ||| s.len() == 0
    ||| (s.len() == 5 && lower(s[0]) == 'd' && lower(s[1]) == 'r' && lower(s[2]) == 'a' && lower(
        s[3],
    ) == 'f' && lower(s[4]) == 't')
    ||| (s.len() == 4 && lower(s[0]) == 'n' && lower(s[1]) == 'o' && lower(s[2]) == 'n' && lower(
        s[3],
    ) == 'e')
}

/// The publish date that a text stands for, given what the grammar of date
/// phrases made of it and what a strict reading gave: the phrase's day,
/// without its time of day, where there is one; no date for a time of day
/// alone; the strict reading where the text is no phrase.
pub open spec fn decide_spec(value: Seq<char>, phrase: Phrase, strict: Option<Date>) -> Result<
    PublishDate,
    DateErrorView,
> {
    match phrase {
        Phrase::Date(d) => Ok(PublishDate::Date(d)),
        Phrase::DateTime(d) => Ok(PublishDate::Date(d)),
        Phrase::Time => Err(DateErrorView::NeedDateNotTime(value)),
        Phrase::Unrecognized => match strict {
            Some(d) => Ok(PublishDate::Date(d)),
            None => Err(DateErrorView::InvalidDate(value)),
        },
    }
}

/// The publish date that `value` stands for when the clock reads `now`.
pub open spec fn parse_spec(value: Seq<char>, now: Moment) -> Result<PublishDate, DateErrorView> {
    if is_draft_word(value) {
        Ok(PublishDate::Draft)
    } else if phrase_admitted(value) {
        decide_spec(value, phrase_of(value, now), strict_date_of(value))
    } else {
        decide_spec(value, Phrase::Unrecognized, strict_date_of(value))
    }
}

/// A result with its error as sequences of characters.
pub open spec fn date_result_view(r: Result<PublishDate, DateError>) -> Result<PublishDate, DateErrorView> {
    match r {
        Ok(p) => Ok(p),
        Err(e) => Err(e@),
    }
}

/// The text of a publish date on the wire.
pub open spec fn wire_text(date: PublishDate) -> Seq<char> {
    match date {
        PublishDate::Draft => Seq::<char>::empty(),
        PublishDate::Date(d) => iso_text(d),
    }
}

impl PublishDate {
    /// A day, if any, is a day that exists.
    pub open spec fn wf(self) -> bool {
        match self {
            PublishDate::Draft => true,
            PublishDate::Date(d) => d.wf(),
        }
    }

    /// The text of this publish date on the wire: empty for a draft, else
    /// the day as `YYYY-MM-DD`.
    pub fn format(&self) -> (s: String)
        ensures
            s@ == wire_text(*self),
    {
        match self {
            PublishDate::Draft => String::new(),
            PublishDate::Date(d) => d.to_text(),
        }
    }
}

impl Default for PublishDate {
    fn default() -> (r: PublishDate)
        ensures
            r == PublishDate::Draft,
    {
        PublishDate::Draft
    }
}

fn lower_of(c: char) -> (r: char)
    ensures
        r == lower(c),
{
    if 'A' <= c && c <= 'Z' {
        ((c as u8) + 32u8) as char
    } else {
        c
    }
}

fn is_word(value: &str, word: &str) -> (r: bool)
    requires
        word@.len() <= 5,
    ensures
        r == (value@.len() == word@.len() && forall|k: int|
            0 <= k < word@.len() ==> lower(#[trigger] value@[k]) == word@[k]),
{
    let n = word.unicode_len();
    if value.unicode_len() != n {
        return false;
    }
    let mut k: usize = 0;
    while k < n
        invariant
            n == word@.len(),
            n == value@.len(),
            k <= n,
            forall|j: int| 0 <= j < k ==> lower(#[trigger] value@[j]) == word@[j],
        decreases n - k,
    {
        if lower_of(value.get_char(k)) != word.get_char(k) {
            return false;
        }
        k += 1;
    }
    true
}

/// Whether `value` is empty, or is `draft` or `none` in capital or small letters.
pub fn stands_for_draft(value: &str) -> (r: bool)
    ensures
        r == is_draft_word(value@),
{
    proof {
        reveal_strlit("draft");
        reveal_strlit("none");
    }
    value.is_empty() || is_word(value, "draft") || is_word(value, "none")
}

/// The publish date that `value` stands for, given what the grammar of
/// date phrases made of it and what a strict reading gave.
pub fn decide(value: &str, phrase: Phrase, strict: Option<Date>) -> (r: Result<PublishDate, DateError>)
    ensures
        date_result_view(r) == decide_spec(value@, phrase, strict),
{
    match phrase {
        Phrase::Date(d) => Ok(PublishDate::Date(d)),
        Phrase::DateTime(d) => Ok(PublishDate::Date(d)),
        Phrase::Time => Err(DateError::NeedDateNotTime(value.to_owned())),
        Phrase::Unrecognized => match strict {
            Some(d) => Ok(PublishDate::Date(d)),
            None => Err(DateError::InvalidDate(value.to_owned())),
        },
    }
}

/// Reads a publish date as a user writes it, with the clock at `now`.
///
/// The empty text, `draft` and `none` give a draft. A phrase of the grammar
/// of date phrases gives its day. Any other text is read strictly as
/// `YYYY-MM-DD`. A text of that form that names a day gives that day, so
/// that its wire text is the text itself.
pub fn parse(value: &str, now: &Moment) -> (r: Result<PublishDate, DateError>)
    requires
        now.wf(),
    ensures
        date_result_view(r) == parse_spec(value@, *now),
        r matches Ok(p) ==> p.wf(),
        is_iso_text(value@) ==> r == Ok::<PublishDate, DateError>(PublishDate::Date(iso_date(value@)))
            && wire_text(r->Ok_0) == value@,
{
    proof {
        if is_iso_text(value@) {
            lemma_iso_date_writes_back(value@);
        }
    }
    if stands_for_draft(value) {
        return Ok(PublishDate::Draft);
    }
    let phrase = if admits_phrase(value) {
        read_phrase(value, now)
    } else {
        Phrase::Unrecognized
    };
    match phrase {
        Phrase::Unrecognized => {
            let strict = match read_strict(value) {
                Ok(d) => Some(d),
                Err(_) => None,
            };
            decide(value, phrase, strict)
        },
        _ => decide(value, phrase, None),
    }
}

/// The wire value of an optional publish date: none where there is none.
pub fn serialize(option: &Option<PublishDate>) -> (r: Option<String>)
    ensures
        r is Some <==> option is Some,
        *option matches Some(date) ==> r->Some_0@ == wire_text(date),
{
    match option {
        Some(date) => Some(date.format()),
        None => None,
    }
}

/// The optional publish date of a wire value, with the clock at `now`: none
/// where the value is absent, else what [`parse`] makes of the text.
pub fn deserialize(wire: Option<&str>, now: &Moment) -> (r: Result<Option<PublishDate>, DateError>)
    requires
        now.wf(),
    ensures
        match wire {
            None => r == Ok::<Option<PublishDate>, DateError>(None),
            Some(text) => match parse_spec(text@, *now) {
                Ok(date) => r == Ok::<Option<PublishDate>, DateError>(Some(date)),
                Err(e) => r matches Err(f) && f@ == e,
            },
        },
        r matches Ok(Some(p)) ==> p.wf(),
{
    match wire {
        None => Ok(None),
        Some(text) => match parse(text, now) {
            Ok(date) => Ok(Some(date)),
            Err(e) => Err(e),
        },
    }
}

} // verus!
