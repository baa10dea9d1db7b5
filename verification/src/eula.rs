//! The text of the licence acceptance file.

use std::fmt::Write;
use vstd::prelude::*;

verus! {

/// How the file writes the time at which the licence was accepted: weekday,
/// month, day, time of day, zone and year.
pub const EULA_DATE_FORMAT: &'static str = "%a %b %d %H:%M:%S %Z %Y";

/// A name for the text that `chrono` writes for a point in time, given in
/// whole seconds since the start of 1970 (UTC), as the clocks of the zone
/// Europe/Berlin show it, laid out by `format`. There is none where `chrono`
/// cannot hold the point in time or cannot write it in that layout.
pub uninterp spec fn berlin_time_text(unix_seconds: i64, format: Seq<char>) -> Option<Seq<char>>;

/// The text of the file for an acceptance dated `date`: two lines, a comment
/// that holds the date and the setting itself.
pub open spec fn eula_text(date: Seq<char>) -> Seq<char> {
    "#"@ + date + "\neula=true"@
}

/// Calls `chrono::DateTime::from_timestamp`, `DateTime::with_timezone` with
/// `chrono_tz::Europe::Berlin`, and `DateTime::format`, whose result it
/// writes to a string. Trusted: the text is the one that `berlin_time_text`
/// names; there is none where `from_timestamp` returns nothing or where
/// writing reports an error.
#[verifier::external_body]
fn format_in_berlin(unix_seconds: i64, format: &str) -> (r: Option<String>)
    ensures
        r matches Some(text) ==> berlin_time_text(unix_seconds, format@) == Some(text@),
        r is None ==> berlin_time_text(unix_seconds, format@) is None,
{
    let utc = chrono::DateTime::from_timestamp(unix_seconds, 0)?;
    let mut text = String::new();
    match write!(text, "{}", utc.with_timezone(&chrono_tz::Europe::Berlin).format(format)) {
        Ok(()) => Some(text),
        Err(_) => None,
    }
}

/// The text of the file for an acceptance dated `date`.
pub fn eula_for_date(date: &str) -> (r: String)
    ensures
        r@ == eula_text(date@),
{
    let mut out = String::from_str("#");
    out.append(date);
    out.append("\neula=true");
    out
}

/// The text of the file for an acceptance at `unix_seconds`, in whole
/// seconds since the start of 1970 (UTC). The date is written as the clocks
/// of Europe/Berlin show it, in the layout `EULA_DATE_FORMAT`. There is no
/// text exactly where that date cannot be written.
pub fn generate_eula(unix_seconds: i64) -> (r: Option<String>)
    ensures
        match berlin_time_text(unix_seconds, EULA_DATE_FORMAT@) {
            Some(date) => r matches Some(text) && text@ == eula_text(date),
            None => r is None,
        },
{
    match format_in_berlin(unix_seconds, EULA_DATE_FORMAT) {
        Some(date) => Some(eula_for_date(date.as_str())),
        None => None,
    }
}

} // verus!
