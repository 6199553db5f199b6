//! Calendar dates in UTC: taken from a Unix timestamp, written as text.
//!
//! Which date an instant falls on is chrono's to say. The text of a date is
//! `YYYY-MM-DD`; a year that four digits cannot hold is written with its sign.

use chrono::Datelike;
use vstd::prelude::*;
use crate::text::push_char;

verus! {

/// A day of the proleptic Gregorian calendar, as year, month and day of the month.
///
/// Only the ranges of month and day are part of the type's validity; which day
/// numbers a given month has is the calendar's business.
#[derive(Clone, Copy, Debug, PartialEq, Eq, Structural)]
pub struct CivilDate {
    pub year: i32,
    pub month: u32,
    pub day: u32,
}

impl CivilDate {
    /// The month is one of 1 to 12, the day one of 1 to 31.
    pub open spec fn wf(self) -> bool {
        1 <= self.month <= 12 && 1 <= self.day <= 31
    }

    /// The date with these fields, if month and day are in range.
    pub fn new(year: i32, month: u32, day: u32) -> (date: Option<CivilDate>)
        ensures
            date == if 1 <= month <= 12 && 1 <= day <= 31 {
                Some(CivilDate { year, month, day })
            } else {
                None
            },
    {
        if 1 <= month && month <= 12 && 1 <= day && day <= 31 {
            Some(CivilDate { year, month, day })
        } else {
            None
        }
    }
}

/// Year, month and day in UTC of the instant `secs` seconds and `nsecs`
/// nanoseconds after the Unix epoch, as chrono computes them; `None` where
/// chrono has no date for it.
pub uninterp spec fn utc_ymd_of(secs: i64, nsecs: u32) -> Option<(i32, u32, u32)>;

/// Trusted: `chrono::DateTime::from_timestamp`, read through
/// `Datelike::year`, `month` and `day`.
///
/// The contract only names the result, which depends on the two numbers
/// alone. `from_timestamp` returns `None` for an instant outside chrono's
/// range or a nanosecond count that no second has.
#[verifier::external_body]
fn utc_ymd(secs: i64, nsecs: u32) -> (ymd: Option<(i32, u32, u32)>)
    ensures
        ymd == utc_ymd_of(secs, nsecs),
{
    chrono::DateTime::from_timestamp(secs, nsecs).map(|t| (t.year(), t.month(), t.day()))
}

/// The UTC date of the instant `secs` whole seconds after the Unix epoch,
/// where there is one and its month and day are in range.
pub open spec fn utc_date_of(secs: i64) -> Option<CivilDate> {
    match utc_ymd_of(secs, 0) {
        Some((year, month, day)) => if 1 <= month <= 12 && 1 <= day <= 31 {
            Some(CivilDate { year, month, day })
        } else {
            None
        },
        None => None,
    }
}

/// The UTC date of the instant `secs` seconds after the Unix epoch, or `None`
/// where the instant lies outside the range of dates that can be computed.
pub fn utc_date(secs: i64) -> (date: Option<CivilDate>)
    ensures
        date == utc_date_of(secs),
        date matches Some(d) ==> d.wf(),
{
    match utc_ymd(secs, 0) {
        Some((year, month, day)) => CivilDate::new(year, month, day),
        None => None,
    }
}

/// The character for the decimal digit `d`, for `d` below ten.
pub open spec fn digit(d: nat) -> char {
    ('0' as nat + d) as char
}

/// The decimal digits of `n`, most significant first, with leading zeros up
/// to `width` digits; at least one digit.
pub open spec fn decimal(n: nat, width: nat) -> Seq<char>
    decreases n, width,
{
    if n < 10 && width <= 1 {
        seq![digit(n)]
    } else {
        let rest = if width > 0 { (width - 1) as nat } else { 0 };
        decimal(n / 10, rest).push(digit(n % 10))
    }
}

/// The year as text: four digits for the years 0 to 9999; outside of them a
/// sign, then at least four digits.
pub open spec fn year_text(year: int) -> Seq<char> {
    if 0 <= year <= 9999 {
        decimal(year as nat, 4)
    } else if year < 0 {
        seq!['-'] + decimal((-year) as nat, 4)
    } else {
        seq!['+'] + decimal(year as nat, 4)
    }
}

/// The date as `YYYY-MM-DD`.
pub open spec fn date_text(date: CivilDate) -> Seq<char> {
    year_text(date.year as int) + seq!['-'] + decimal(date.month as nat, 2) + seq!['-'] + decimal(
        date.day as nat,
        2,
    )
}

fn digit_char(d: u64) -> (c: char)
    requires
        d < 10,
    ensures
        c == digit(d as nat),
{
    match d {
        0 => '0',
        1 => '1',
        2 => '2',
        3 => '3',
        4 => '4',
        5 => '5',
        6 => '6',
        7 => '7',
        8 => '8',
        _ => '9',
    }
}

/// Appends the decimal digits of `n` to `text`, padded with zeros to `width` digits.
fn push_decimal(text: &mut String, n: u64, width: u64)
    ensures
        final(text)@ == old(text)@ + decimal(n as nat, width as nat),
    decreases n, width,
{
    if n < 10 && width <= 1 {
        push_char(text, digit_char(n));
        assert(text@ =~= old(text)@ + decimal(n as nat, width as nat));
    } else {
        let rest: u64 = if width > 0 { width - 1 } else { 0 };
        push_decimal(text, n / 10, rest);
        push_char(text, digit_char(n % 10));
        assert(text@ =~= old(text)@ + decimal(n as nat, width as nat));
    }
}

/// The date as `YYYY-MM-DD`.
pub fn format_date(date: &CivilDate) -> (text: String)
    requires
        date.wf(),
    ensures
        text@ == date_text(*date),
{
    let mut text = String::new();
    let year: i64 = date.year as i64;
    if 0 <= year && year <= 9999 {
        push_decimal(&mut text, year as u64, 4);
    } else if year < 0 {
        push_char(&mut text, '-');
        push_decimal(&mut text, (-year) as u64, 4);
    } else {
        push_char(&mut text, '+');
        push_decimal(&mut text, year as u64, 4);
    }
    push_char(&mut text, '-');
    push_decimal(&mut text, date.month as u64, 2);
    push_char(&mut text, '-');
    push_decimal(&mut text, date.day as u64, 2);
    text
}

/// Every character of a decimal text is a digit, and there is at least one,
/// and at least `width` of them.
proof fn lemma_decimal_shape(n: nat, width: nat)
    ensures
        decimal(n, width).len() >= 1,
        decimal(n, width).len() >= width,
        forall|i: int|
            0 <= i < decimal(n, width).len() ==> '0' <= #[trigger] decimal(n, width)[i] <= '9',
    decreases n, width,
{
    if n < 10 && width <= 1 {
    } else {
        let rest = if width > 0 { (width - 1) as nat } else { 0 };
        lemma_decimal_shape(n / 10, rest);
    }
}

/// A number below one hundred takes exactly two digits at width two.
proof fn lemma_two_digits(n: nat)
    requires
        n < 100,
    ensures
        decimal(n, 2).len() == 2,
{
    reveal_with_fuel(decimal, 3);
}

/// At a given width, different numbers have different decimal texts.
proof fn lemma_decimal_injective(a: nat, b: nat, width: nat)
    requires
        decimal(a, width) == decimal(b, width),
    ensures
        a == b,
    decreases a, width,
{
    let rest = if width > 0 { (width - 1) as nat } else { 0 };
    let a_short = a < 10 && width <= 1;
    let b_short = b < 10 && width <= 1;
    if a_short && b_short {
        assert(decimal(a, width)[0] == digit(a));
        assert(decimal(b, width)[0] == digit(b));
    } else if a_short {
        lemma_decimal_shape(b / 10, rest);
    } else if b_short {
        lemma_decimal_shape(a / 10, rest);
    } else {
        let da = decimal(a / 10, rest);
        let db = decimal(b / 10, rest);
        assert(decimal(a, width).last() == digit(a % 10));
        assert(decimal(b, width).last() == digit(b % 10));
        assert(decimal(a, width).drop_last() =~= da);
        assert(decimal(b, width).drop_last() =~= db);
        lemma_decimal_injective(a / 10, b / 10, rest);
    }
}

/// Different years have different texts.
proof fn lemma_year_text_injective(a: int, b: int)
    requires
        year_text(a) == year_text(b),
    ensures
        a == b,
{
    let mag_a = (if a < 0 { -a } else { a }) as nat;
    let mag_b = (if b < 0 { -b } else { b }) as nat;
    lemma_decimal_shape(mag_a, 4);
    lemma_decimal_shape(mag_b, 4);
    let plain_a = 0 <= a <= 9999;
    let plain_b = 0 <= b <= 9999;
    assert(year_text(a)[0] == (if plain_a { decimal(mag_a, 4)[0] } else if a < 0 { '-' } else { '+' }));
    assert(year_text(b)[0] == (if plain_b { decimal(mag_b, 4)[0] } else if b < 0 { '-' } else { '+' }));
    if !plain_a {
        assert(year_text(a).subrange(1, year_text(a).len() as int) =~= decimal(mag_a, 4));
    }
    if !plain_b {
        assert(year_text(b).subrange(1, year_text(b).len() as int) =~= decimal(mag_b, 4));
    }
    lemma_decimal_injective(mag_a, mag_b, 4);
}

/// Where in a date's text the year, the month and the day stand.
proof fn lemma_date_text_parts(date: CivilDate)
    requires
        date.wf(),
    ensures
        ({
            let text = date_text(date);
            let len = text.len() as int;
            &&& len == year_text(date.year as int).len() + 6
            &&& text.subrange(0, len - 6) == year_text(date.year as int)
            &&& text.subrange(len - 5, len - 3) == decimal(date.month as nat, 2)
            &&& text.subrange(len - 2, len) == decimal(date.day as nat, 2)
        }),
{
    lemma_two_digits(date.month as nat);
    lemma_two_digits(date.day as nat);
    let text = date_text(date);
    let len = text.len() as int;
    assert(text.subrange(0, len - 6) =~= year_text(date.year as int));
    assert(text.subrange(len - 5, len - 3) =~= decimal(date.month as nat, 2));
    assert(text.subrange(len - 2, len) =~= decimal(date.day as nat, 2));
}

/// In the years 0 to 9999 the text of a date has ten characters: four digits,
/// a hyphen, two digits, a hyphen, two digits.
pub proof fn lemma_date_text_shape(date: CivilDate)
    requires
        date.wf(),
        0 <= date.year <= 9999,
    ensures
        date_text(date).len() == 10,
        date_text(date)[4] == '-',
        date_text(date)[7] == '-',
        forall|i: int|
            0 <= i < 10 && i != 4 && i != 7 ==> '0' <= #[trigger] date_text(date)[i] <= '9',
{
    let year = decimal(date.year as nat, 4);
    let month = decimal(date.month as nat, 2);
    let day = decimal(date.day as nat, 2);
    assert(year.len() == 4) by {
        reveal_with_fuel(decimal, 5);
    }
    lemma_two_digits(date.month as nat);
    lemma_two_digits(date.day as nat);
    lemma_decimal_shape(date.year as nat, 4);
    lemma_decimal_shape(date.month as nat, 2);
    lemma_decimal_shape(date.day as nat, 2);
    let text = date_text(date);
    assert forall|i: int| 0 <= i < 10 && i != 4 && i != 7 implies '0' <= #[trigger] text[i]
        <= '9' by {
        if i < 4 {
            assert(text[i] == year[i]);
        } else if i < 7 {
            assert(text[i] == month[i - 5]);
        } else {
            assert(text[i] == day[i - 8]);
        }
    }
}

/// Different dates have different texts.
pub proof fn lemma_date_text_injective(a: CivilDate, b: CivilDate)
    requires
        a.wf(),
        b.wf(),
        date_text(a) == date_text(b),
    ensures
        a == b,
{
    lemma_date_text_parts(a);
    lemma_date_text_parts(b);
    lemma_year_text_injective(a.year as int, b.year as int);
    lemma_decimal_injective(a.month as nat, b.month as nat, 2);
    lemma_decimal_injective(a.day as nat, b.day as nat, 2);
}

} // verus!
