use vstd::prelude::*;
use crate::text::text_of;

verus! {

/// The RFC 3339 text of the instant `millis` milliseconds after the Unix epoch,
/// as chrono renders it, or `None` where chrono cannot represent the instant.
pub uninterp spec fn rfc3339_text(millis: int) -> Option<Seq<char>>;

/// Reads the wall clock through `chrono::Utc::now` and returns the instant in
/// milliseconds since the Unix epoch (`DateTime::timestamp_millis`). Nothing is
/// claimed of the value: two reads may differ in any way.
#[verifier::external_body]
pub(crate) fn now_millis() -> (r: i64) {
    chrono::Utc::now().timestamp_millis()
}

/// Renders an instant with `chrono::DateTime::<Utc>::from_timestamp_millis`
/// followed by `DateTime::to_rfc3339`. The contract only names the outcome:
/// the same `millis` always gives the same text, and `None` comes back exactly
/// where chrono reports the instant as out of range.
#[verifier::external_body]
pub(crate) fn rfc3339(millis: i64) -> (r: Option<String>)
    ensures
        text_of(r) == rfc3339_text(millis as int),
{
    chrono::DateTime::<chrono::Utc>::from_timestamp_millis(millis).map(|t| t.to_rfc3339())
}

} // verus!
