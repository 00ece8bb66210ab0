//! Conversions between timestamp text and instants.
//!
//! The calendar arithmetic is chrono's. Each call into it stands behind a small
//! wrapper whose contract names the result; the functions of [`DateTimeUtils`]
//! are verified against those contracts.

use vstd::prelude::*;
use vstd::string::StringExecFns;

verus! {

/// The error that chrono reports for text it cannot parse.
#[verifier::external_type_specification]
#[verifier::external_body]
pub struct ExParseError(chrono::ParseError);

/// What can go wrong in this library. None of these is fatal to the view: it
/// keeps drawing what it has.
#[derive(Clone, Copy, Debug, PartialEq, Eq, Structural)]
pub enum CustomError {
    /// Timestamp text that does not have the expected form.
    Format,
    /// The request did not complete.
    Http,
    /// The response body did not decode to the expected shape.
    Parse,
    /// A well-formed response that carries a status other than success.
    Application,
}

/// The seconds between 1970-01-01 00:00:00 UTC and the instant that `text`
/// denotes as an RFC 3339 date-time, or `None` where chrono rejects `text`.
pub uninterp spec fn rfc3339_seconds(text: Seq<char>) -> Option<int>;

/// The RFC 3339 date-time `text` rendered by chrono with the strftime pattern
/// `pattern`, in the offset that `text` itself carries, or `None` where chrono
/// rejects `text`.
pub uninterp spec fn rfc3339_formatted(text: Seq<char>, pattern: Seq<char>) -> Option<Seq<char>>;

/// The instant `seconds` after 1970-01-01 00:00:00 UTC rendered by chrono with
/// the strftime pattern `pattern`, in UTC, or `None` where chrono has no date
/// for it.
pub uninterp spec fn utc_formatted(seconds: int, pattern: Seq<char>) -> Option<Seq<char>>;

/// The pattern of the display text: date and time to the minute, as in
/// `2023-05-17 09:30`.
pub open spec fn minute_pattern() -> Seq<char> {
    "%Y-%m-%d %H:%M"@
}

/// What every source timestamp lacks to be an RFC 3339 date-time: the seconds
/// and the UTC offset.
pub open spec fn rfc3339_suffix() -> Seq<char> {
    seq![':', '0', '0', '+', '0', '0', ':', '0', '0']
}

/// The RFC 3339 date-time that the source timestamp `datetime` stands for.
pub open spec fn completed(datetime: Seq<char>) -> Seq<char> {
    datetime + rfc3339_suffix()
}

/// The canonical display text of the source timestamp `datetime`, where it has one.
pub open spec fn canonical(datetime: Seq<char>) -> Option<Seq<char>> {
    rfc3339_formatted(completed(datetime), minute_pattern())
}

/// The display text of the instant `seconds` after the epoch, where it has a
/// date.
pub open spec fn displayed(seconds: int) -> Option<Seq<char>> {
    utc_formatted(seconds, minute_pattern())
}

/// Calls `chrono::DateTime::parse_from_rfc3339` and, on success,
/// `DateTime::timestamp` on what it returned. The contract claims that the
/// outcome depends on `text` alone and gives it the name [`rfc3339_seconds`];
/// nothing is claimed about which texts are accepted or which number comes out.
#[verifier::external_body]
fn parse_rfc3339_seconds(text: &str) -> (r: Result<i64, chrono::ParseError>)
    ensures
        r is Ok <==> rfc3339_seconds(text@) is Some,
        r is Ok ==> rfc3339_seconds(text@) == Some(r->Ok_0 as int),
{
    match chrono::DateTime::parse_from_rfc3339(text) {
        Ok(parsed) => Ok(parsed.timestamp()),
        Err(e) => Err(e),
    }
}

/// Calls `chrono::DateTime::parse_from_rfc3339` and, on success, renders what it
/// returned with `DateTime::format` and `pattern`. The pattern is held to the one
/// of the display text, which chrono can render for every date-time. The
/// contract claims that the outcome depends on `text` and `pattern` alone and
/// gives it the name [`rfc3339_formatted`].
#[verifier::external_body]
fn format_rfc3339(text: &str, pattern: &str) -> (r: Result<String, chrono::ParseError>)
    requires
        pattern@ == minute_pattern(),
    ensures
        r is Ok <==> rfc3339_formatted(text@, pattern@) is Some,
        r is Ok ==> rfc3339_formatted(text@, pattern@) == Some(r->Ok_0@),
{
    match chrono::DateTime::parse_from_rfc3339(text) {
        Ok(parsed) => Ok(parsed.format(pattern).to_string()),
        Err(e) => Err(e),
    }
}

/// Calls `chrono::TimeZone::timestamp_opt` on `chrono::Utc` with no nanoseconds
/// and, where it yields a single date-time, renders that with `DateTime::format`
/// and `pattern`. The pattern is held to the one of the display text, which
/// chrono can render for every date-time. The contract claims that the outcome
/// depends on `seconds` and `pattern` alone and gives it the name
/// [`utc_formatted`].
#[verifier::external_body]
fn format_utc(seconds: i64, pattern: &str) -> (r: Option<String>)
    requires
        pattern@ == minute_pattern(),
    ensures
        r is Some <==> utc_formatted(seconds as int, pattern@) is Some,
        r is Some ==> utc_formatted(seconds as int, pattern@) == Some(r->Some_0@),
{
    match chrono::TimeZone::timestamp_opt(&chrono::Utc, seconds, 0) {
        chrono::LocalResult::Single(instant) => Some(instant.format(pattern).to_string()),
        chrono::LocalResult::Ambiguous(_, _) => None,
        chrono::LocalResult::None => None,
    }
}

/// Completes a source timestamp to an RFC 3339 date-time.
fn complete(datetime: &str) -> (r: String)
    ensures
        r@ == completed(datetime@),
{
    proof {
        reveal_strlit(":00+00:00");
    }
    let r = String::from_str(datetime).concat(":00+00:00");
    assert(":00+00:00"@ =~= rfc3339_suffix());
    r
}

/// A small set of date and time conversions.
pub struct DateTimeUtils;

impl DateTimeUtils {
    /// The display text of the instant `timestamp` seconds after the epoch, in
    /// UTC and to the minute; the empty text where there is no such date.
    pub fn timestamp_to_datetime(timestamp: i64) -> (text: String)
        ensures
            text@ == match displayed(timestamp as int) {
                Some(rendered) => rendered,
                None => Seq::<char>::empty(),
            },
    {
        match format_utc(timestamp, "%Y-%m-%d %H:%M") {
            Some(rendered) => rendered,
            None => String::new(),
        }
    }

    /// The instant, in seconds after the epoch, of a source timestamp such as
    /// `2023-05-17T09:30`, which is read as UTC.
    pub fn datetime_to_timestamp(datetime: &str) -> (r: Result<i64, CustomError>)
        ensures
            r is Ok <==> rfc3339_seconds(completed(datetime@)) is Some,
            r is Ok ==> rfc3339_seconds(completed(datetime@)) == Some(r->Ok_0 as int),
            r is Err ==> r->Err_0 == CustomError::Format,
    {
        let full = complete(datetime);
        match parse_rfc3339_seconds(full.as_str()) {
            Ok(seconds) => Ok(seconds),
            Err(_) => Err(CustomError::Format),
        }
    }

    /// Re-renders a source timestamp such as `2023-05-17T09:30` as the display
    /// text `2023-05-17 09:30`.
    pub fn format_datetime_string(datetime: &str) -> (r: Result<String, CustomError>)
        ensures
            r is Ok <==> canonical(datetime@) is Some,
            r is Ok ==> canonical(datetime@) == Some(r->Ok_0@),
            r is Err ==> r->Err_0 == CustomError::Format,
    {
        let full = complete(datetime);
        match format_rfc3339(full.as_str(), "%Y-%m-%d %H:%M") {
            Ok(rendered) => Ok(rendered),
            Err(_) => Err(CustomError::Format),
        }
    }
}

} // verus!
