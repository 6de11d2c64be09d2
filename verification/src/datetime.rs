//! Reading the timestamps that the service reports.
use vstd::prelude::*;

verus! {

/// The Unix timestamp that the outside datetime parser reads out of an
/// RFC 3339 / ISO 8601 text, `None` when the text is not such a date.  The
/// result depends on the text alone.
pub uninterp spec fn datetime_of(s: Seq<char>) -> Option<i64>;

/// Relies on chrono's `DateTime<Utc>` parser (`str::parse`): the timestamp
/// is a function of the text alone, here named `datetime_of`.
#[verifier::external_body]
pub(crate) fn parse_datetime(s: &str) -> (r: Option<i64>)
    ensures
        r == datetime_of(s@),
{
    match s.parse::<chrono::DateTime<chrono::Utc>>() {
        Ok(d) => Some(d.timestamp()),
        Err(_) => None,
    }
}

} // verus!
