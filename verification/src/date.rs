//! Calendar dates and their canonical `YYYY-MM-DD` text.

use vstd::prelude::*;
use crate::text::push_char;

verus! {

/// Whether `year` is a leap year of the proleptic Gregorian calendar.
pub open spec fn is_leap_year(year: int) -> bool {
    year % 4 == 0 && (year % 100 != 0 || year % 400 == 0)
}

/// The number of days of `month` in `year`; 0 where `month` is no month.
pub open spec fn days_in_month(year: int, month: int) -> int {
    if month == 2 {
        if is_leap_year(year) {
            29
        } else {
            28
        }
    } else if month == 4 || month == 6 || month == 9 || month == 11 {
        30
    } else if 1 <= month <= 12 {
        31
    } else {
        0
    }
}

/// Whether year, month and day name a day that exists.
pub open spec fn is_calendar_day(year: int, month: int, day: int) -> bool {
    1 <= month <= 12 && 1 <= day <= days_in_month(year, month)
}

/// The character of a decimal digit.
pub open spec fn digit_char(d: int) -> char {
    (d + 48) as char
}

/// The decimal digits of `n`, with zeros in front to at least `width` characters.
pub open spec fn padded(n: nat, width: nat) -> Seq<char>
    decreases n, width,
{
    if n < 10 && width <= 1 {
        seq![digit_char(n as int)]
    } else {
        padded(n / 10, if width > 0 { (width - 1) as nat } else { 0 }).push(digit_char((n % 10) as int))
    }
}

/// The text of a year: four digits for the years 0 to 9999, else a sign
/// and at least four digits.
pub open spec fn year_text(year: int) -> Seq<char> {
    if 0 <= year <= 9999 {
        padded(year as nat, 4)
    } else if year < 0 {
        seq!['-'] + padded((-year) as nat, 4)
    } else {
        seq!['+'] + padded(year as nat, 4)
    }
}

/// The canonical text of a day: year, month and day, joined by `-`.
pub open spec fn iso_text(date: Date) -> Seq<char> {
    year_text(date.year as int) + seq!['-'] + padded(date.month as nat, 2) + seq!['-'] + padded(
        date.day as nat,
        2,
    )
}

/// Whether `c` is one of the digits `0` to `9`.
pub open spec fn is_digit(c: char) -> bool {
    '0' <= c <= '9'
}

/// The number that the digit `c` stands for.
pub open spec fn digit_value(c: char) -> int {
    c as int - 48
}

/// Whether `s` has the shape `YYYY-MM-DD`: ten characters, digits but for
/// the two hyphens.
pub open spec fn has_iso_shape(s: Seq<char>) -> bool {
    &&& s.len() == 10
    &&& is_digit(s[0])
    &&& is_digit(s[1])
    &&& is_digit(s[2])
    &&& is_digit(s[3])
    &&& s[4] == '-'
    &&& is_digit(s[5])
    &&& is_digit(s[6])
    &&& s[7] == '-'
    &&& is_digit(s[8])
    &&& is_digit(s[9])
}

/// The year, month and day that a text of the shape `YYYY-MM-DD` gives.
pub open spec fn iso_date(s: Seq<char>) -> Date {
    Date {
        year: (digit_value(s[0]) * 1000 + digit_value(s[1]) * 100 + digit_value(s[2]) * 10
            + digit_value(s[3])) as i32,
        month: (digit_value(s[5]) * 10 + digit_value(s[6])) as u32,
        day: (digit_value(s[8]) * 10 + digit_value(s[9])) as u32,
    }
}

/// Whether `s` is the canonical text of a day that exists.
pub open spec fn is_iso_text(s: Seq<char>) -> bool {
    has_iso_shape(s) && iso_date(s).wf()
}

/// A day of the proleptic Gregorian calendar, without a time of day.
#[derive(Clone, Copy, Debug, PartialEq, Eq, Structural)]
pub struct Date {
    pub year: i32,
    pub month: u32,
    pub day: u32,
}

fn leap_year(year: i32) -> (r: bool)
    ensures
        r == is_leap_year(year as int),
{
    // A multiple of 400 is added, so that the year counts from a year
    // before all others and keeps its place in the cycle of leap years.
    let shifted: u64 = (year as i64 + 2147484000i64) as u64;
    assert(shifted as int == year as int + 400 * 5368710);
    assert(shifted as int % 4 == year as int % 4);
    assert(shifted as int % 100 == year as int % 100);
    assert(shifted as int % 400 == year as int % 400);
    shifted % 4 == 0 && (shifted % 100 != 0 || shifted % 400 == 0)
}

fn month_length(year: i32, month: u32) -> (n: u32)
    ensures
        n == days_in_month(year as int, month as int),
{
    if month == 2 {
        if leap_year(year) {
            29
        } else {
            28
        }
    } else if month == 4 || month == 6 || month == 9 || month == 11 {
        30
    } else if 1 <= month && month <= 12 {
        31
    } else {
        0
    }
}

/// Appends the decimal digits of `n` to `s`, with zeros in front to at
/// least `width` characters.
pub(crate) fn push_padded(s: &mut String, n: u32, width: u32)
    ensures
        final(s)@ == old(s)@ + padded(n as nat, width as nat),
    decreases n, width,
{
    if n < 10 && width <= 1 {
        let c: char = (n as u8 + 48u8) as char;
        push_char(s, c);
        assert(old(s)@.push(c) =~= old(s)@ + padded(n as nat, width as nat));
    } else {
        let rest: u32 = if width > 0 { width - 1 } else { 0 };
        push_padded(s, n / 10, rest);
        let c: char = ((n % 10) as u8 + 48u8) as char;
        push_char(s, c);
        assert((old(s)@ + padded((n / 10) as nat, rest as nat)).push(c) =~= old(s)@ + padded(
            n as nat,
            width as nat,
        ));
    }
}

impl Date {
    /// The date names a day that exists.
    pub open spec fn wf(self) -> bool {
        is_calendar_day(self.year as int, self.month as int, self.day as int)
    }

    /// The day with this year, month and day, if there is one.
    pub fn new(year: i32, month: u32, day: u32) -> (r: Option<Date>)
        ensures
            r == if is_calendar_day(year as int, month as int, day as int) {
                Some(Date { year, month, day })
            } else {
                None::<Date>
            },
    {
        if 1 <= month && month <= 12 && 1 <= day && day <= month_length(year, month) {
            Some(Date { year, month, day })
        } else {
            None
        }
    }

    /// The canonical text of this day.
    pub fn to_text(&self) -> (s: String)
        ensures
            s@ == iso_text(*self),
    {
        let mut s = String::new();
        if 0 <= self.year && self.year <= 9999 {
            push_padded(&mut s, self.year as u32, 4);
        } else if self.year < 0 {
            push_char(&mut s, '-');
            let magnitude: u32 = (-(self.year as i64)) as u32;
            push_padded(&mut s, magnitude, 4);
        } else {
            push_char(&mut s, '+');
            push_padded(&mut s, self.year as u32, 4);
        }
        assert(s@ =~= year_text(self.year as int));
        push_char(&mut s, '-');
        push_padded(&mut s, self.month, 2);
        push_char(&mut s, '-');
        push_padded(&mut s, self.day, 2);
        assert(s@ =~= iso_text(*self));
        s
    }
}

/// A reading of the wall clock: a day of the years 0 to 9999 and a time of
/// day, to the second.
#[derive(Clone, Copy, Debug, PartialEq, Eq, Structural)]
pub struct Moment {
    pub date: Date,
    pub hour: u32,
    pub minute: u32,
    pub second: u32,
}

impl Moment {
    /// The reading names a second that exists, in a year of four digits.
    pub open spec fn wf(self) -> bool {
        &&& self.date.wf()
        &&& 0 <= self.date.year <= 9999
        &&& self.hour < 24
        &&& self.minute < 60
        &&& self.second < 60
    }

    /// The reading with these parts, if they name a second that exists in
    /// a year of four digits.
    pub fn new(date: Date, hour: u32, minute: u32, second: u32) -> (r: Option<Moment>)
        ensures
            r == if (Moment { date, hour, minute, second }).wf() {
                Some(Moment { date, hour, minute, second })
            } else {
                None::<Moment>
            },
    {
        if 1 <= date.month && date.month <= 12 && 1 <= date.day && date.day <= month_length(
            date.year,
            date.month,
        ) && 0 <= date.year && date.year <= 9999 && hour < 24 && minute < 60 && second < 60 {
            Some(Moment { date, hour, minute, second })
        } else {
            None
        }
    }
}

proof fn lemma_padded_two(n: nat)
    requires
        n < 100,
    ensures
        padded(n, 2) =~= seq![digit_char((n / 10) as int), digit_char((n % 10) as int)],
{
    reveal_with_fuel(padded, 3);
}

proof fn lemma_padded_four(n: nat)
    requires
        n < 10000,
    ensures
        padded(n, 4) =~= seq![
            digit_char((n / 10 / 10 / 10) as int),
            digit_char((n / 10 / 10 % 10) as int),
            digit_char((n / 10 % 10) as int),
            digit_char((n % 10) as int),
        ],
{
    let a = n / 10;
    let b = a / 10;
    let c = b / 10;
    assert(a < 1000);
    assert(b < 100);
    assert(c < 10);
    assert(padded(c, 1) =~= seq![digit_char(c as int)]);
    assert(padded(b, 2) =~= padded(c, 1).push(digit_char((b % 10) as int)));
    assert(padded(a, 3) =~= padded(b, 2).push(digit_char((a % 10) as int)));
    assert(padded(n, 4) =~= padded(a, 3).push(digit_char((n % 10) as int)));
}

proof fn lemma_digit_value_of_char(d: int)
    requires
        0 <= d <= 9,
    ensures
        is_digit(digit_char(d)),
        digit_value(digit_char(d)) == d,
{
}

proof fn lemma_digit_char_of_value(c: char)
    requires
        is_digit(c),
    ensures
        0 <= digit_value(c) <= 9,
        digit_char(digit_value(c)) == c,
{
}

/// The canonical text of a day of the years 0 to 9999 has the shape
/// `YYYY-MM-DD`, and read back it gives the same day.
pub proof fn lemma_iso_text_reads_back(date: Date)
    requires
        date.wf(),
        0 <= date.year <= 9999,
    ensures
        is_iso_text(iso_text(date)),
        iso_date(iso_text(date)) == date,
{
    let y = date.year as int;
    let m = date.month as int;
    let d = date.day as int;
    lemma_padded_four(y as nat);
    lemma_padded_two(m as nat);
    lemma_padded_two(d as nat);
    let y1 = y / 10;
    let y2 = y1 / 10;
    let y3 = y2 / 10;
    assert(0 <= y1 <= 999);
    assert(0 <= y2 <= 99);
    assert(0 <= y3 <= 9);
    let s = iso_text(date);
    let t = seq![
        digit_char(y3),
        digit_char(y2 % 10),
        digit_char(y1 % 10),
        digit_char(y % 10),
        '-',
        digit_char(m / 10),
        digit_char(m % 10),
        '-',
        digit_char(d / 10),
        digit_char(d % 10),
    ];
    assert(s =~= t);
    lemma_digit_value_of_char(y3);
    lemma_digit_value_of_char(y2 % 10);
    lemma_digit_value_of_char(y1 % 10);
    lemma_digit_value_of_char(y % 10);
    lemma_digit_value_of_char(m / 10);
    lemma_digit_value_of_char(m % 10);
    lemma_digit_value_of_char(d / 10);
    lemma_digit_value_of_char(d % 10);
    assert(has_iso_shape(t));
    assert(y2 == y3 * 10 + y2 % 10);
    assert(y1 == y2 * 10 + y1 % 10);
    assert(y == y1 * 10 + y % 10);
    assert(iso_date(t).year == y);
    assert(iso_date(t).month == m);
    assert(iso_date(t).day == d);
}

proof fn lemma_last_digit(q: int, r: int)
    requires
        0 <= q,
        0 <= r <= 9,
    ensures
        (q * 10 + r) / 10 == q,
        (q * 10 + r) % 10 == r,
{
}

/// A text of the shape `YYYY-MM-DD` that names a day is the canonical text
/// of that day.
pub proof fn lemma_iso_date_writes_back(s: Seq<char>)
    requires
        is_iso_text(s),
    ensures
        0 <= iso_date(s).year <= 9999,
        iso_text(iso_date(s)) == s,
{
    let date = iso_date(s);
    lemma_digit_char_of_value(s[0]);
    lemma_digit_char_of_value(s[1]);
    lemma_digit_char_of_value(s[2]);
    lemma_digit_char_of_value(s[3]);
    lemma_digit_char_of_value(s[5]);
    lemma_digit_char_of_value(s[6]);
    lemma_digit_char_of_value(s[8]);
    lemma_digit_char_of_value(s[9]);
    let d0 = digit_value(s[0]);
    let d1 = digit_value(s[1]);
    let d2 = digit_value(s[2]);
    let d3 = digit_value(s[3]);
    let y = d0 * 1000 + d1 * 100 + d2 * 10 + d3;
    let y1 = d0 * 100 + d1 * 10 + d2;
    let y2 = d0 * 10 + d1;
    assert(y == y1 * 10 + d3);
    lemma_last_digit(y1, d3);
    assert(y1 == y2 * 10 + d2);
    lemma_last_digit(y2, d2);
    lemma_last_digit(d0, d1);
    assert(0 <= y <= 9999);
    assert(date.year == y);
    assert(y / 10 == y1);
    assert(y / 10 / 10 == y2);
    assert(y / 10 / 10 / 10 == d0);
    lemma_last_digit(digit_value(s[5]), digit_value(s[6]));
    lemma_last_digit(digit_value(s[8]), digit_value(s[9]));
    lemma_padded_four(date.year as nat);
    lemma_padded_two(date.month as nat);
    lemma_padded_two(date.day as nat);
    let year = padded(date.year as nat, 4);
    let month = padded(date.month as nat, 2);
    let day = padded(date.day as nat, 2);
    assert(year =~= seq![s[0], s[1], s[2], s[3]]);
    assert(month =~= seq![s[5], s[6]]);
    assert(day =~= seq![s[8], s[9]]);
    assert(year + seq!['-'] + month + seq!['-'] + day =~= s);
}

} // verus!
