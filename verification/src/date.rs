//! Calendar dates, read by the `time` crate.
//!
//! Release tags and build dates are calendar dates written after a format
//! description of `time`, in this crate [`DATE_FORMAT`]. A date that was
//! read is kept as its Julian day number, so that "one day later" is the
//! next integer.

use vstd::prelude::*;

verus! {

/// The format description of dated release tags and of build dates.
pub const DATE_FORMAT: &'static str = "[year]-[month]-[day]";

/// A calendar day, held as its Julian day number.
#[derive(Debug, Clone, Copy, PartialEq, Eq, Structural)]
pub struct Day {
    pub julian_day: i32,
}

impl View for Day {
    type V = int;

    open spec fn view(&self) -> int {
        self.julian_day as int
    }
}

/// A text that is no date under the format description it was read with.
#[derive(Debug)]
pub struct DateError {
    /// The text that was refused.
    pub text: String,
    /// What `time` says about it.
    pub reason: String,
}

/// Mathematical model of a [`DateError`].
pub struct DateErrorView {
    pub text: Seq<char>,
    pub reason: Seq<char>,
}

impl View for DateError {
    type V = DateErrorView;

    open spec fn view(&self) -> DateErrorView {
        DateErrorView { text: self.text@, reason: self.reason@ }
    }
}

impl DateError {
    /// The text shown for the error: what `time` said.
    pub fn to_string(&self) -> (text: String)
        ensures
            text@ == self@.reason,
    {
        self.reason.clone()
    }
}

/// The Julian day number of the date that `time` reads from `text` under the
/// format description `description`; `None` where it reads no date, be it
/// that the description is no format description or that the text does not
/// follow it.
pub uninterp spec fn julian_day_of(description: Seq<char>, text: Seq<char>) -> Option<int>;

/// `time::Date::parse` on `text`, with the format description that
/// `time::format_description::parse` makes of `description`; the date that
/// was read is turned into its number by `time::Date::to_julian_day`, an
/// error of either parser into its message. Neither parser reads anything
/// but its arguments, so whether a date comes out, and which, is a function
/// of the two texts: the contract gives that function its name and claims
/// nothing else. Of the message nothing is claimed.
#[verifier::external_body]
#[allow(deprecated)]
fn read_julian_day(text: &str, description: &str) -> (number: Result<i32, String>)
    ensures
        match number {
            Ok(n) => julian_day_of(description@, text@) == Some(n as int),
            Err(_) => julian_day_of(description@, text@) is None,
        },
{
    match time::format_description::parse(description) {
        Ok(items) => match time::Date::parse(text, &items) {
            Ok(date) => Ok(date.to_julian_day()),
            Err(error) => Err(error.to_string()),
        },
        Err(error) => Err(error.to_string()),
    }
}

/// Reads `text` as a calendar date under the format description
/// `description`.
///
/// Succeeds exactly on the texts that `time` reads a date from, with the day
/// it reads. A text it refuses comes back in the error, together with what
/// `time` said about it; where it is the description that `time` refuses,
/// that is what it says, and the text comes back all the same.
pub fn parse_date(text: &str, description: &str) -> (day: Result<Day, DateError>)
    ensures
        match day {
            Ok(d) => julian_day_of(description@, text@) == Some(d@),
            Err(e) => julian_day_of(description@, text@) is None && e@.text == text@,
        },
{
    match read_julian_day(text, description) {
        Ok(julian_day) => Ok(Day { julian_day }),
        Err(reason) => Err(DateError { text: text.to_owned(), reason }),
    }
}

} // verus!
