//! The boundary to `chrono`: a date and time that is written as text is
//! read as seconds since the epoch.

use vstd::prelude::*;

verus! {

/// The seconds since the epoch, UTC, of the instant that
/// `chrono::DateTime::parse_from_rfc3339` reads from a text, if it reads one.
pub uninterp spec fn rfc3339_seconds(text: Seq<char>) -> Option<i64>;

/// Calls `chrono::DateTime::parse_from_rfc3339` and takes the instant's
/// `timestamp`. Believed: the text carries its own offset from UTC, so the
/// result depends on the text alone and is `rfc3339_seconds` of it.
#[verifier::external_body]
pub(crate) fn parse_rfc3339(text: &str) -> (r: Option<i64>)
    ensures
        r == rfc3339_seconds(text@),
{
    chrono::DateTime::parse_from_rfc3339(text).ok().map(|instant| instant.timestamp())
}

} // verus!
