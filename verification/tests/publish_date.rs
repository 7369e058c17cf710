use mataroa_cli::date::{Date, Moment};
use mataroa_cli::dateformat::{
    decide, deserialize, parse, serialize, stands_for_draft, Phrase, PublishDate,
};
use mataroa_cli::error::DateError;
use mataroa_cli::phrase::admits_phrase;

fn day(year: i32, month: u32, day: u32) -> Date {
    Date::new(year, month, day).unwrap()
}

fn noon() -> Moment {
    Moment::new(day(2030, 1, 1), 12, 0, 0).unwrap()
}

#[test]
fn parse_empty_is_draft() {
    assert_eq!(parse("", &noon()), Ok(PublishDate::Draft));
}

#[test]
fn parse_draft_is_draft() {
    assert_eq!(parse("draft", &noon()), Ok(PublishDate::Draft));
}

#[test]
fn parse_draft_in_capitals_is_draft() {
    assert_eq!(parse("DRAFT", &noon()), Ok(PublishDate::Draft));
    assert_eq!(parse("Draft", &noon()), Ok(PublishDate::Draft));
}

#[test]
fn parse_none_is_draft() {
    assert_eq!(parse("none", &noon()), Ok(PublishDate::Draft));
    assert_eq!(parse("NONE", &noon()), Ok(PublishDate::Draft));
}

#[test]
fn format_draft_is_empty() {
    assert_eq!(PublishDate::Draft.format(), "");
}

#[test]
fn default_is_draft() {
    assert_eq!(PublishDate::default(), PublishDate::Draft);
}

#[test]
fn draft_words_are_told_apart() {
    assert!(stands_for_draft(""));
    assert!(stands_for_draft("dRaFt"));
    assert!(stands_for_draft("None"));
    assert!(!stands_for_draft("drafts"));
    assert!(!stands_for_draft("non"));
    assert!(!stands_for_draft(" "));
    assert!(!stands_for_draft("dr\u{e4}ft"));
}

#[test]
fn parse_not_a_date_fails() {
    assert_eq!(
        parse("not-a-date", &noon()),
        Err(DateError::InvalidDate("not-a-date".to_owned()))
    );
}

#[test]
fn invalid_date_message_names_the_text() {
    let error = parse("not-a-date", &noon()).unwrap_err();
    assert_eq!(error.message(), "'not-a-date' is not a valid date");
}

#[test]
fn parse_then_format_gives_the_text_back() {
    for text in ["2030-01-01", "2024-02-29", "0001-12-31", "9999-12-31", "2015-10-21", "0000-01-01"]
    {
        let date = parse(text, &noon()).unwrap();
        assert_eq!(date.format(), text);
    }
}

#[test]
fn parse_iso_date_gives_its_day() {
    assert_eq!(parse("2030-01-01", &noon()), Ok(PublishDate::Date(day(2030, 1, 1))));
    assert_eq!(parse("2024-02-29", &noon()), Ok(PublishDate::Date(day(2024, 2, 29))));
}

#[test]
fn parse_day_that_does_not_exist_fails() {
    assert_eq!(
        parse("2023-02-29", &noon()),
        Err(DateError::InvalidDate("2023-02-29".to_owned()))
    );
    assert_eq!(
        parse("2030-13-01", &noon()),
        Err(DateError::InvalidDate("2030-13-01".to_owned()))
    );
}

#[test]
fn parse_phrases_against_the_clock() {
    assert_eq!(parse("today", &noon()), Ok(PublishDate::Date(day(2030, 1, 1))));
    assert_eq!(parse("tomorrow", &noon()), Ok(PublishDate::Date(day(2030, 1, 2))));
    assert_eq!(parse("Tomorrow", &noon()), Ok(PublishDate::Date(day(2030, 1, 2))));
    assert_eq!(parse("yesterday", &noon()), Ok(PublishDate::Date(day(2029, 12, 31))));
    assert_eq!(parse("next week", &noon()), Ok(PublishDate::Date(day(2030, 1, 8))));
}

#[test]
fn parse_phrase_depends_on_the_clock() {
    let later = Moment::new(day(2031, 6, 30), 8, 15, 0).unwrap();
    assert_eq!(parse("tomorrow", &later), Ok(PublishDate::Date(day(2031, 7, 1))));
}

#[test]
fn parse_date_time_keeps_the_day() {
    assert_eq!(parse("now", &noon()), Ok(PublishDate::Date(day(2030, 1, 1))));
    assert_eq!(parse("tomorrow at 10:30", &noon()), Ok(PublishDate::Date(day(2030, 1, 2))));
    assert_eq!(parse("in 13 hours", &noon()), Ok(PublishDate::Date(day(2030, 1, 2))));
}

#[test]
fn parse_time_alone_is_no_date() {
    assert_eq!(
        parse("10:30", &noon()),
        Err(DateError::NeedDateNotTime("10:30".to_owned()))
    );
    assert_eq!(
        parse("10:30", &noon()).unwrap_err().message(),
        "need a date, not just a time"
    );
}

#[test]
fn parse_clock_unit_after_relative_word_is_no_date() {
    for text in ["next hour", "this minute", "last second", "next   h", "This Summer", "3 days ago at next hour"] {
        assert!(!admits_phrase(text), "{text}");
        assert_eq!(parse(text, &noon()), Err(DateError::InvalidDate(text.to_owned())));
    }
}

#[test]
fn parse_large_number_is_no_date() {
    let text = "in 4000000000 hours";
    assert!(!admits_phrase(text));
    assert_eq!(parse(text, &noon()), Err(DateError::InvalidDate(text.to_owned())));
}

#[test]
fn admitted_phrases() {
    for text in [
        "tomorrow",
        "next monday",
        "last saturday",
        "this sunday",
        "next month",
        "next year",
        "3 days ago",
        "in 9999 hours",
        "2030-01-01",
        "",
    ] {
        assert!(admits_phrase(text), "{text}");
    }
}

#[test]
fn refused_phrases() {
    let long = "tomorrow ".repeat(8);
    assert_eq!(long.len(), 72);
    assert!(!admits_phrase(&long));
    assert!(admits_phrase(&long[..64]));
    assert!(!admits_phrase(&long[..65]));
    assert!(!admits_phrase("t\u{f6}morrow"));
    assert!(!admits_phrase("12345"));
    assert!(!admits_phrase("in 10000 days"));
    assert!(admits_phrase("in 9999 days"));
    assert!(!admits_phrase("NEXT HOUR"));
    assert!(!admits_phrase("last   minute"));
    assert!(admits_phrase("last   month"));
}

#[test]
fn parse_signed_year_is_read_strictly() {
    assert_eq!(parse("+12345-06-07", &noon()), Ok(PublishDate::Date(day(12345, 6, 7))));
    assert_eq!(parse("+12345-06-07", &noon()).unwrap().format(), "+12345-06-07");
    assert_eq!(parse("-0044-03-15", &noon()), Ok(PublishDate::Date(day(-44, 3, 15))));
    assert_eq!(parse("-0044-03-15", &noon()).unwrap().format(), "-0044-03-15");
}

#[test]
fn decide_takes_the_day_of_a_phrase() {
    let d = day(2030, 5, 6);
    let other = day(1999, 1, 1);
    assert_eq!(decide("x", Phrase::Date(d), Some(other)), Ok(PublishDate::Date(d)));
    assert_eq!(decide("x", Phrase::DateTime(d), None), Ok(PublishDate::Date(d)));
}

#[test]
fn decide_refuses_a_time_alone() {
    assert_eq!(
        decide("9:00", Phrase::Time, Some(day(2030, 5, 6))),
        Err(DateError::NeedDateNotTime("9:00".to_owned()))
    );
}

#[test]
fn decide_falls_back_to_the_strict_reading() {
    let d = day(2030, 5, 6);
    assert_eq!(decide("x", Phrase::Unrecognized, Some(d)), Ok(PublishDate::Date(d)));
    assert_eq!(
        decide("x", Phrase::Unrecognized, None),
        Err(DateError::InvalidDate("x".to_owned()))
    );
}

#[test]
fn serialize_gives_the_wire_value() {
    assert_eq!(serialize(&None), None);
    assert_eq!(serialize(&Some(PublishDate::Draft)), Some(String::new()));
    assert_eq!(
        serialize(&Some(PublishDate::Date(day(2030, 1, 1)))),
        Some("2030-01-01".to_owned())
    );
}

#[test]
fn deserialize_reads_the_wire_value() {
    assert_eq!(deserialize(None, &noon()), Ok(None));
    assert_eq!(deserialize(Some(""), &noon()), Ok(Some(PublishDate::Draft)));
    assert_eq!(
        deserialize(Some("2030-01-01"), &noon()),
        Ok(Some(PublishDate::Date(day(2030, 1, 1))))
    );
    assert_eq!(
        deserialize(Some("soonish"), &noon()),
        Err(DateError::InvalidDate("soonish".to_owned()))
    );
}

#[test]
fn date_text_is_padded() {
    assert_eq!(day(2030, 1, 1).to_text(), "2030-01-01");
    assert_eq!(day(5, 12, 31).to_text(), "0005-12-31");
    assert_eq!(day(0, 2, 29).to_text(), "0000-02-29");
    assert_eq!(day(-1, 1, 1).to_text(), "-0001-01-01");
    assert_eq!(day(10000, 1, 1).to_text(), "+10000-01-01");
    assert_eq!(day(i32::MIN, 1, 1).to_text(), "-2147483648-01-01");
}

#[test]
fn date_new_knows_the_calendar() {
    assert!(Date::new(2024, 2, 29).is_some());
    assert!(Date::new(2023, 2, 29).is_none());
    assert!(Date::new(1900, 2, 29).is_none());
    assert!(Date::new(2000, 2, 29).is_some());
    assert!(Date::new(2030, 4, 31).is_none());
    assert!(Date::new(2030, 4, 30).is_some());
    assert!(Date::new(2030, 0, 1).is_none());
    assert!(Date::new(2030, 13, 1).is_none());
    assert!(Date::new(2030, 1, 0).is_none());
    assert_eq!(Date::new(2030, 12, 31), Some(Date { year: 2030, month: 12, day: 31 }));
}

#[test]
fn moment_new_checks_its_parts() {
    let d = day(2030, 1, 1);
    assert!(Moment::new(d, 23, 59, 59).is_some());
    assert!(Moment::new(d, 24, 0, 0).is_none());
    assert!(Moment::new(d, 0, 60, 0).is_none());
    assert!(Moment::new(d, 0, 0, 60).is_none());
    assert!(Moment::new(day(10000, 1, 1), 0, 0, 0).is_none());
    assert!(Moment::new(day(-1, 1, 1), 0, 0, 0).is_none());
    assert!(Moment::new(Date { year: 2030, month: 2, day: 30 }, 0, 0, 0).is_none());
}
