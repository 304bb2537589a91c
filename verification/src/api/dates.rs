//! Special days of the year, and the greeting that the index page shows on
//! each.

use vstd::prelude::*;

verus! {

/// The days that the index page marks.
#[derive(PartialEq, Eq, Structural, Debug, Clone, Copy)]
pub enum SpecialDates {
    OneDSixBirthday,
    AprilFools,
    Halloween,
    Christmas,
    NewYears,
    NotSpecial,
}

/// The special day, if any, that falls on `day` of `month`.
pub open spec fn special_on(month: u32, day: u32) -> SpecialDates {
    if month == 1 && day == 24 {
        SpecialDates::OneDSixBirthday
    } else if month == 4 && day == 1 {
        SpecialDates::AprilFools
    } else if month == 10 && day == 31 {
        SpecialDates::Halloween
    } else if month == 12 && (day == 24 || day == 25) {
        SpecialDates::Christmas
    } else if (month == 12 && day == 31) || (month == 1 && day == 1) {
        SpecialDates::NewYears
    } else {
        SpecialDates::NotSpecial
    }
}

/// The greeting that the index page shows on a day.
pub open spec fn greeting(d: SpecialDates) -> Seq<char> {
    match d {
        SpecialDates::OneDSixBirthday => "Happy Birthday 1D6!"@,
        SpecialDates::AprilFools => "April Fools :P"@,
        SpecialDates::Halloween => "BOO."@,
        SpecialDates::Christmas => "Merry Christmas..."@,
        SpecialDates::NewYears => "...and a Happy New Year!"@,
        SpecialDates::NotSpecial => "Welcome traveler!"@,
    }
}

/// Calls `chrono::Local::now()` and reads its `month()` and `day()`.
/// chrono documents the month as 1 to 12 and the day of the month as 1 to
/// 31; that is all that is claimed. Which day it is depends on the clock
/// and the local time zone.
#[verifier::external_body]
fn local_month_day() -> (r: (u32, u32))
    ensures
        1 <= r.0 <= 12,
        1 <= r.1 <= 31,
{
    let now = chrono::Local::now();
    (chrono::Datelike::month(&now), chrono::Datelike::day(&now))
}

impl SpecialDates {
    /// The special day, if any, that falls on `day` of `month`.
    pub fn from_month_day(month: u32, day: u32) -> (r: SpecialDates)
        ensures
            r == special_on(month, day),
    {
        if month == 1 && day == 24 {
            SpecialDates::OneDSixBirthday
        } else if month == 4 && day == 1 {
            SpecialDates::AprilFools
        } else if month == 10 && day == 31 {
            SpecialDates::Halloween
        } else if month == 12 && (day == 24 || day == 25) {
            SpecialDates::Christmas
        } else if (month == 12 && day == 31) || (month == 1 && day == 1) {
            SpecialDates::NewYears
        } else {
            SpecialDates::NotSpecial
        }
    }

    /// The special day, if any, that today is in the local time zone.
    pub fn is_special() -> (r: SpecialDates)
        ensures
            exists|month: u32, day: u32|
                1 <= month <= 12 && 1 <= day <= 31 && r == #[trigger] special_on(month, day),
    {
        let (month, day) = local_month_day();
        Self::from_month_day(month, day)
    }

    /// The greeting that the index page shows on this day.
    pub fn index_message(&self) -> (r: &'static str)
        ensures
            r@ == greeting(*self),
    {
        match self {
            SpecialDates::OneDSixBirthday => "Happy Birthday 1D6!",
            SpecialDates::AprilFools => "April Fools :P",
            SpecialDates::Halloween => "BOO.",
            SpecialDates::Christmas => "Merry Christmas...",
            SpecialDates::NewYears => "...and a Happy New Year!",
            SpecialDates::NotSpecial => "Welcome traveler!",
        }
    }

    /// The HTTP status of the index page on this day: "I'm a teapot" on
    /// April Fools' Day, "OK" on every other.
    pub fn index_status(&self) -> (r: u16)
        ensures
            r == (if *self == SpecialDates::AprilFools { 418u16 } else { 200u16 }),
    {
        match self {
            SpecialDates::AprilFools => 418,
            _ => 200,
        }
    }
}

} // verus!
