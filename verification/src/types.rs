//! Typed records of the REST API.

use chrono::NaiveDateTime;
use vstd::prelude::*;

verus! {

/// A date and a time of day, without a time zone.
#[verifier::external_type_specification]
#[verifier::external_body]
pub struct ExNaiveDateTime(chrono::NaiveDateTime);

/// Why a text is no date and time.
#[verifier::external_type_specification]
#[verifier::external_body]
pub struct ExDateTimeParseError(chrono::ParseError);

/// How the API writes a date and a time: as in `2017-12-29 11:06:52`.
pub const DATE_TIME_FORMAT: &'static str = "%Y-%m-%d %H:%M:%S";

/// Whether `text` is a date and a time written as `format` says.
pub uninterp spec fn is_date_time(text: Seq<char>, format: Seq<char>) -> bool;

/// Trusted: `chrono::NaiveDateTime::parse_from_str`.
///
/// The outside function reads a date and a time out of a text by a format,
/// or says why it cannot. Whether it can depends on the two texts alone; the
/// contract gives that a name and claims nothing of the value read.
#[verifier::external_body]
fn parse_date_time(text: &str, format: &str) -> (parsed: Result<
    NaiveDateTime,
    chrono::ParseError,
>)
    ensures
        parsed is Ok <==> is_date_time(text@, format@),
{
    NaiveDateTime::parse_from_str(text, format)
}

/// What a field that may be missing comes to once its text, if any, has been
/// read: a missing field is no date and no error, a text that was read is a
/// date, and a text that could not be read is the error of reading it.
pub fn optional_date_time(parsed: Option<Result<NaiveDateTime, chrono::ParseError>>) -> (field:
    Result<Option<NaiveDateTime>, chrono::ParseError>)
    ensures
        field == match parsed {
            None => Ok::<Option<NaiveDateTime>, chrono::ParseError>(None),
            Some(Ok(date_time)) => Ok(Some(date_time)),
            Some(Err(error)) => Err(error),
        },
{
    match parsed {
        None => Ok(None),
        Some(Ok(date_time)) => Ok(Some(date_time)),
        Some(Err(error)) => Err(error),
    }
}

/// Reads a field that holds a date and a time, or nothing.
///
/// A field without a text is no date, and no error. A field with a text has
/// to hold a date and a time in the format of the API.
pub fn optional_naive_date_time_from_str(text: Option<String>) -> (parsed: Result<
    Option<NaiveDateTime>,
    chrono::ParseError,
>)
    ensures
        text is None ==> parsed is Ok && parsed->Ok_0 is None,
        text matches Some(written) ==> (parsed is Ok <==> is_date_time(
            written@,
            DATE_TIME_FORMAT@,
        )),
        text is Some && parsed is Ok ==> parsed->Ok_0 is Some,
{
    let parsed = match text {
        Some(written) => Some(parse_date_time(written.as_str(), DATE_TIME_FORMAT)),
        None => None,
    };
    optional_date_time(parsed)
}

/// A user and what the account may trade.
#[derive(Debug, Clone)]
pub struct User {
    pub user_type: String,
    pub email: String,
    pub user_name: String,
    pub user_shortname: String,
    pub broker: String,
    pub exchanges: Vec<String>,
    pub products: Vec<String>,
    pub order_types: Vec<String>,
}

} // verus!
