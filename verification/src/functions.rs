//! The functions that a placeholder can name. Each takes no argument and
//! gives a text; the table is fixed.

use vstd::prelude::*;
use vstd::string::StringExecFns;
use chrono::Datelike;
use crate::model::moment_of;
use crate::text::{signed_decimal, signed_decimal_text};

verus! {

/// Why a function gave no value.
#[derive(Debug, PartialEq, Eq)]
pub enum Error {
    /// The table holds no function of this name.
    UnknownFunction(String),
}

impl Error {
    /// The error in words.
    pub fn message(&self) -> (text: String)
        ensures
            text@ == "unknown function \""@ + self->UnknownFunction_0@ + "\""@,
    {
        match self {
            Error::UnknownFunction(name) => {
                let mut text = "unknown function \"".to_owned();
                text.append(name.as_str());
                text.append("\"");
                text
            },
        }
    }
}

/// What `execute` returns.
pub type Result = std::result::Result<String, Error>;

/// Whether the table holds a function called `name`.
pub open spec fn is_registered(name: Seq<char>) -> bool {
    name == "now"@ || name == "year"@ || name == "month"@
}

/// The name of the month that `month0` months after January stand for.
pub open spec fn month_name(month0: int) -> Seq<char> {
    if month0 == 0 {
        "Январь"@
    } else if month0 == 1 {
        "Февраль"@
    } else if month0 == 2 {
        "Март"@
    } else if month0 == 3 {
        "Апрель"@
    } else if month0 == 4 {
        "Май"@
    } else if month0 == 5 {
        "Июнь"@
    } else if month0 == 6 {
        "Июль"@
    } else if month0 == 7 {
        "Август"@
    } else if month0 == 8 {
        "Сентябрь"@
    } else if month0 == 9 {
        "Октябрь"@
    } else if month0 == 10 {
        "Ноябрь"@
    } else {
        "Декабрь"@
    }
}

/// What `year` can give: a year in decimal digits.
pub open spec fn is_year_text(text: Seq<char>) -> bool {
    exists|year: int| i32::MIN <= year <= i32::MAX && text == #[trigger] signed_decimal(year)
}

/// What `month` can give: the name of one of the twelve months.
pub open spec fn is_month_text(text: Seq<char>) -> bool {
    exists|month0: int| 0 <= month0 < 12 && text == #[trigger] month_name(month0)
}

/// What `now` can give: a timestamp with its offset from UTC, which reads
/// back as a date.
pub open spec fn is_now_text(text: Seq<char>) -> bool {
    moment_of(text) is Some
}

/// The local time of this moment as `chrono::Local::now` gives it, written by
/// `DateTime::format` as date, `T`, time and offset from UTC. The contract
/// claims that `DateTime::parse_from_rfc3339` reads the text back: `chrono`
/// writes the years 0 to 9999 with four digits, hour, minute and second with
/// two, and the offset as sign, hours, colon and minutes, which is what its
/// reader of RFC 3339 takes. It holds while the clock stands before the
/// year 10000.
#[verifier::external_body]
fn local_timestamp() -> (text: String)
    ensures
        is_now_text(text@),
{
    chrono::Local::now().format("%FT%X%:z").to_string()
}

/// The year of this moment in local time: `Datelike::year` of
/// `chrono::Local::now`. Nothing is claimed of the number.
#[verifier::external_body]
fn local_year() -> i32 {
    chrono::Local::now().year()
}

/// The month of this moment in local time, counted from 0: `Datelike::month0`
/// of `chrono::Local::now`, which lies between 0 and 11.
#[verifier::external_body]
fn local_month0() -> (month0: u32)
    ensures
        month0 < 12,
{
    chrono::Local::now().month0()
}

/// The name of the month that `month0` months after January stand for.
pub fn name_of_month(month0: u32) -> (name: String)
    requires
        month0 < 12,
    ensures
        name@ == month_name(month0 as int),
{
    let name = match month0 {
        0 => "Январь",
        1 => "Февраль",
        2 => "Март",
        3 => "Апрель",
        4 => "Май",
        5 => "Июнь",
        6 => "Июль",
        7 => "Август",
        8 => "Сентябрь",
        9 => "Октябрь",
        10 => "Ноябрь",
        _ => "Декабрь",
    };
    name.to_owned()
}

/// The name of the current month.
pub fn month() -> (name: String)
    ensures
        is_month_text(name@),
{
    let month0 = local_month0();
    name_of_month(month0)
}

/// Runs the function called `name`. It fails exactly for a name that the
/// table does not hold, and then the error carries that name.
pub fn execute(name: &str) -> (value: Result)
    ensures
        value is Ok <==> is_registered(name@),
        value matches Err(Error::UnknownFunction(unknown)) ==> unknown@ == name@,
        value matches Ok(text) ==> {
            &&& name@ == "now"@ ==> is_now_text(text@)
            &&& name@ == "year"@ ==> is_year_text(text@)
            &&& name@ == "month"@ ==> is_month_text(text@)
        },
{
    proof {
        reveal_strlit("now");
        reveal_strlit("year");
        reveal_strlit("month");
    }
    if *name == *"now" {
        assert("now"@.len() == 3 && "year"@.len() == 4 && "month"@.len() == 5);
        Ok(local_timestamp())
    } else if *name == *"year" {
        let year = local_year();
        let text = signed_decimal_text(year);
        assert(text@ == signed_decimal(year as int));
        assert("year"@.len() == 4 && "month"@.len() == 5);
        Ok(text)
    } else if *name == *"month" {
        Ok(month())
    } else {
        Err(Error::UnknownFunction(name.to_owned()))
    }
}

} // verus!
