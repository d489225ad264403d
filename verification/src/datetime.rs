//! Reformatting of the timestamps carried by a statement.

use crate::text::optional_text;
use vstd::prelude::*;
use vstd::string::StrSliceExecFns;

verus! {

/// Number of characters of a calendar date written as `YYYY-MM-DD`.
pub const DATE_LENGTH: usize = 10;

/// The date portion of a timestamp: its first ten characters, or the whole
/// text where it is shorter than that.
pub open spec fn date_part(text: Seq<char>) -> Seq<char> {
    if text.len() >= DATE_LENGTH {
        text.subrange(0, DATE_LENGTH as int)
    } else {
        text
    }
}

/// Cuts a timestamp down to its date. The text is not parsed: an ISO timestamp
/// starts with its date, and anything shorter than a date is handed back as it is.
pub fn convert_datetime_to_date(datetime_str: &str) -> (date: String)
    ensures
        date@ == date_part(datetime_str@),
{
    if datetime_str.unicode_len() >= DATE_LENGTH {
        datetime_str.substring_char(0, DATE_LENGTH).to_owned()
    } else {
        datetime_str.to_owned()
    }
}

/// How a timestamp with an offset is written out: to the second, the offset
/// as hours and minutes.
pub const OFFSET_PATTERN: &'static str = "%Y-%m-%dT%H:%M:%S%:z";

/// How a timestamp read as UTC is written out: to the second, with the fixed
/// offset that stands in for an offset that could not be read.
pub const FALLBACK_PATTERN: &'static str = "%Y-%m-%dT%H:%M:%S+02:00";

/// What `chrono` makes of a timestamp that it reads as RFC 3339 and then
/// formats by `pattern`, or `None` where it does not read it so.
pub uninterp spec fn rfc3339_formatted(text: Seq<char>, pattern: Seq<char>) -> Option<Seq<char>>;

/// What `chrono` makes of a timestamp that it reads as a UTC date and time
/// and then formats by `pattern`, or `None` where it does not read it so.
pub uninterp spec fn utc_formatted(text: Seq<char>, pattern: Seq<char>) -> Option<Seq<char>>;

/// `chrono::DateTime::parse_from_rfc3339`, and on what it hands back
/// `chrono::DateTime::format` with `to_string`. The pattern is one of the two
/// that this module writes timestamps by, both of which `chrono` accepts. The
/// two calls stand together because the `DateTime` between them cannot be
/// declared to Verus without its `TimeZone` trait.
#[verifier::external_body]
fn format_rfc3339(text: &str, pattern: &str) -> (formatted: Option<String>)
    requires
        pattern@ == OFFSET_PATTERN@ || pattern@ == FALLBACK_PATTERN@,
    ensures
        optional_text(formatted) == rfc3339_formatted(text@, pattern@),
{
    chrono::DateTime::parse_from_rfc3339(text).ok().map(|moment| moment.format(pattern).to_string())
}

/// `str::parse` to a `chrono::DateTime<chrono::Utc>`, and on what it hands
/// back `chrono::DateTime::format` with `to_string`. The pattern is one of the
/// two that this module writes timestamps by, both of which `chrono` accepts.
/// The two calls stand together for the same reason as in [`format_rfc3339`].
#[verifier::external_body]
fn format_utc(text: &str, pattern: &str) -> (formatted: Option<String>)
    requires
        pattern@ == OFFSET_PATTERN@ || pattern@ == FALLBACK_PATTERN@,
    ensures
        optional_text(formatted) == utc_formatted(text@, pattern@),
{
    text.parse::<chrono::DateTime<chrono::Utc>>().ok().map(
        |moment| moment.format(pattern).to_string(),
    )
}

/// The timestamp to write out, given what came of reading a text with its
/// offset and of reading it as UTC: the first that was read, else the text as
/// it was given.
pub open spec fn chosen_datetime(
    given: Seq<char>,
    with_offset: Option<Seq<char>>,
    as_utc: Option<Seq<char>>,
) -> Seq<char> {
    match with_offset {
        Some(text) => text,
        None => match as_utc {
            Some(text) => text,
            None => given,
        },
    }
}

/// Picks the timestamp to write out: the one read with its offset, else the
/// one read as UTC, else the text that was given, unchanged.
pub fn choose_datetime(given: &str, with_offset: Option<String>, as_utc: Option<String>) -> (chosen:
    String)
    ensures
        chosen@ == chosen_datetime(given@, optional_text(with_offset), optional_text(as_utc)),
{
    match with_offset {
        Some(text) => text,
        None => match as_utc {
            Some(text) => text,
            None => given.to_owned(),
        },
    }
}

/// A timestamp in the form `YYYY-MM-DDTHH:MM:SS±HH:MM`. One that `chrono`
/// reads with its offset keeps the offset; one that it reads only as UTC gets
/// the fixed offset `+02:00`; any other stays as it is.
pub open spec fn offset_datetime(text: Seq<char>) -> Seq<char> {
    chosen_datetime(
        text,
        rfc3339_formatted(text, OFFSET_PATTERN@),
        utc_formatted(text, FALLBACK_PATTERN@),
    )
}

/// Rewrites a timestamp to seconds precision with a numeric offset. A text
/// that is no timestamp is handed back unchanged.
pub fn convert_datetime(datetime_str: &str) -> (converted: String)
    ensures
        converted@ == offset_datetime(datetime_str@),
{
    let with_offset = format_rfc3339(datetime_str, OFFSET_PATTERN);
    let as_utc = if with_offset.is_none() {
        format_utc(datetime_str, FALLBACK_PATTERN)
    } else {
        None
    };
    choose_datetime(datetime_str, with_offset, as_utc)
}

} // verus!
