//! The RFC 3339 text form of timestamps, written and read by `chrono`.
//!
//! Nothing in this module is proved: each item states what the library
//! relies on `chrono` for.

use chrono::{DateTime, SecondsFormat, Utc};
use vstd::prelude::*;

use crate::timestamp::{Instant, Precision};

verus! {

/// `chrono::ParseError`, carried through unopened.
#[verifier::external_type_specification]
#[verifier::external_body]
pub struct ExParseError(chrono::ParseError);

/// The text that `chrono::DateTime::<Utc>::to_rfc3339_opts` gives for the
/// instant `secs`, `nanos`, with `Z` for the offset: with
/// `SecondsFormat::Millis` where `millis` holds, else with
/// `SecondsFormat::AutoSi`.
pub uninterp spec fn rfc3339_text(secs: int, nanos: int, millis: bool) -> Seq<char>;

/// The instant, as seconds and nanoseconds in UTC, that
/// `chrono::DateTime::parse_from_rfc3339` reads from `text`; `None` where it
/// reports an error.
pub uninterp spec fn rfc3339_instant(text: Seq<char>) -> Option<(int, int)>;

/// Calls `chrono::DateTime::from_timestamp` and then `to_rfc3339_opts` with
/// `use_z` set.
///
/// Believed of `chrono`: the text depends on the arguments alone; and for an
/// instant in the years 0000 to 9999, `parse_from_rfc3339` reads the text
/// back as the same instant, less what the precision cut off. (Outside those
/// years the text starts with a sign, which `parse_from_rfc3339` refuses;
/// the contract says nothing of them.) `from_timestamp` accepts exactly the
/// representable instants, so the `unwrap` does not fail.
#[verifier::external_body]
pub(crate) fn format_rfc3339(secs: i64, nanos: u32, precision: Precision) -> (text: String)
    requires
        (Instant { secs: secs as int, nanos: nanos as int }).representable(),
    ensures
        text@ == rfc3339_text(secs as int, nanos as int, precision is Millis),
        (Instant { secs: secs as int, nanos: nanos as int }).in_four_digit_years() ==> {
            let kept = (Instant { secs: secs as int, nanos: nanos as int }).kept(precision);
            rfc3339_instant(text@) == Some((kept.secs, kept.nanos))
        },
{
    let format = match precision {
        Precision::Millis => SecondsFormat::Millis,
        Precision::Full => SecondsFormat::AutoSi,
    };
    DateTime::from_timestamp(secs, nanos).unwrap().to_rfc3339_opts(format, true)
}

/// Calls `chrono::DateTime::parse_from_rfc3339` and converts the result to
/// UTC with `with_timezone`, then takes `timestamp` and
/// `timestamp_subsec_nanos` of it.
///
/// Believed of `chrono`: success and the instant read depend on the text
/// alone, and the instant of any `DateTime<Utc>` is representable.
#[verifier::external_body]
pub(crate) fn parse_rfc3339(text: &str) -> (r: Result<(i64, u32), chrono::ParseError>)
    ensures
        match r {
            Ok((secs, nanos)) => {
                &&& rfc3339_instant(text@) == Some((secs as int, nanos as int))
                &&& (Instant { secs: secs as int, nanos: nanos as int }).representable()
            },
            Err(_) => rfc3339_instant(text@) is None,
        },
{
    match DateTime::parse_from_rfc3339(text) {
        Ok(parsed) => {
            let utc = parsed.with_timezone(&Utc);
            Ok((utc.timestamp(), utc.timestamp_subsec_nanos()))
        },
        Err(error) => Err(error),
    }
}

} // verus!
