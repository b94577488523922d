//! Calendar dates and how they are written: year, month and day without separators.

use crate::decimal::{
    append_padded, append_zero_padded, digit_char, digits, is_digit, padded_decimal, zero_padded,
};
use chrono::Datelike;
use vstd::prelude::*;

verus! {

/// A day of the calendar, as the clock reports it.
#[derive(Debug, Clone, Copy, PartialEq, Eq, Structural)]
pub struct Date {
    pub year: i32,
    pub month: u32,
    pub day: u32,
}

impl Date {
    /// The month is one of the twelve and the day one of at most thirty-one.
    pub open spec fn on_calendar(self) -> bool {
        1 <= self.month <= 12 && 1 <= self.day <= 31
    }

    /// The date's text: the year on at least four characters, the month and the day on at
    /// least two each, all padded with zeros.
    pub open spec fn text(self) -> Seq<char> {
        padded_decimal(self.year as int, 4) + zero_padded(self.month as nat, 2) + zero_padded(
            self.day as nat,
            2,
        )
    }

    /// Writes the date.
    pub fn to_text(&self) -> (text: String)
        ensures
            text@ == self.text(),
    {
        let mut text = String::new();
        append_padded(&mut text, self.year as i64, 4);
        append_zero_padded(&mut text, self.month as u64, 2);
        append_zero_padded(&mut text, self.day as u64, 2);
        text
    }
}

/// The text of a date is never shorter than eight characters.
pub proof fn lemma_date_text_min_len(date: Date)
    ensures
        date.text().len() >= 8,
{
}

/// A date of the years 0 to 9999 is written with exactly eight characters, all of them
/// digits: four for the year, two for the month, two for the day, each with its leading
/// zeros.
pub proof fn lemma_date_text_eight_digits(date: Date)
    requires
        0 <= date.year <= 9999,
        date.month < 100,
        date.day < 100,
    ensures
        date.text().len() == 8,
        forall|i: int| 0 <= i < 8 ==> is_digit(#[trigger] date.text()[i]),
        date.text() == seq![
            digit_char((date.year / 1000) as nat),
            digit_char((date.year / 100 % 10) as nat),
            digit_char((date.year / 10 % 10) as nat),
            digit_char((date.year % 10) as nat),
            digit_char((date.month / 10) as nat),
            digit_char((date.month % 10) as nat),
            digit_char((date.day / 10) as nat),
            digit_char((date.day % 10) as nat),
        ],
{
    let y = date.year as nat;
    let m = date.month as nat;
    let d = date.day as nat;
    lemma_four_digits(y);
    lemma_two_digits(m);
    lemma_two_digits(d);
}

/// A number below a hundred, padded to two places, is its tens and its units.
proof fn lemma_two_digits(n: nat)
    requires
        n < 100,
    ensures
        zero_padded(n, 2) == seq![digit_char(n / 10), digit_char(n % 10)],
{
    reveal_with_fuel(digits, 3);
}

/// A number below ten thousand, padded to four places, is its four decimal places.
proof fn lemma_four_digits(n: nat)
    requires
        n < 10000,
    ensures
        zero_padded(n, 4) == seq![
            digit_char(n / 1000),
            digit_char(n / 100 % 10),
            digit_char(n / 10 % 10),
            digit_char(n % 10),
        ],
{
    reveal_with_fuel(digits, 5);
}

/// Reads the local date from the system clock, through `chrono::Local::now` and the
/// `year`, `month` and `day` of `chrono::Datelike`. Assumed of chrono, not proved: the
/// month it reports lies between 1 and 12 and the day between 1 and 31. Nothing is
/// assumed of the year, and two readings need not agree. Chrono gives up, and the call
/// does not return, where the system clock stands before the year 1970.
#[verifier::external_body]
pub(crate) fn local_today() -> (today: Date)
    ensures
        today.on_calendar(),
{
    let now = chrono::Local::now();
    Date { year: now.year(), month: now.month(), day: now.day() }
}

/// The text of the local date at the moment of the call.
pub fn get_date_str() -> (text: String)
    ensures
        exists|today: Date| today.on_calendar() && text@ == today.text(),
{
    let today = local_today();
    today.to_text()
}

} // verus!
