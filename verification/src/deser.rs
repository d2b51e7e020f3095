//! Decoding of the stray field shapes the upstream API uses: a broadcast
//! start time that may be absent, empty or an RFC 3339 date time.
//!
//! The calendar arithmetic of parsing is the `time` crate's; the library
//! keeps the result as a Unix timestamp in seconds.

use vstd::prelude::*;

use crate::twitch::FetchError;

verus! {

/// What parsing a string as an RFC 3339 date time yields, as a Unix
/// timestamp in seconds: `None` when the string is not a valid date time.
/// The result depends on the input characters alone.
pub uninterp spec fn rfc3339_secs(s: Seq<char>) -> Option<i64>;

/// Relies on `time::OffsetDateTime::parse` with the RFC 3339 format
/// description: success and value depend on the input characters alone. The
/// parsed date time is converted to a Unix timestamp in seconds.
#[verifier::external_body]
fn parse_rfc3339(value: &str) -> (r: Option<i64>)
    ensures
        r == rfc3339_secs(value@),
{
    time::OffsetDateTime::parse(value, &time::format_description::well_known::Rfc3339)
        .ok()
        .map(|t| t.unix_timestamp())
}

/// Decodes an optional broadcast start time. An absent or empty value means
/// the upstream reported none; anything else must be a valid RFC 3339 date
/// time, or the whole response counts as malformed.
pub fn opt_datetime(value: Option<&str>) -> (r: Result<Option<i64>, FetchError>)
    ensures
        match value {
            None => r == Ok::<Option<i64>, FetchError>(None),
            Some(s) => {
                if s@.len() == 0 {
                    r == Ok::<Option<i64>, FetchError>(None)
                } else {
                    match rfc3339_secs(s@) {
                        Some(t) => r == Ok::<Option<i64>, FetchError>(Some(t)),
                        None => r == Err::<Option<i64>, FetchError>(
                            FetchError::MalformedResponse,
                        ),
                    }
                }
            },
        },
{
    match value {
        None => Ok(None),
        Some(s) => {
            if s.is_empty() {
                Ok(None)
            } else {
                match parse_rfc3339(s) {
                    Some(t) => Ok(Some(t)),
                    None => Err(FetchError::MalformedResponse),
                }
            }
        },
    }
}

} // verus!
