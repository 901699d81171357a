//! The current time, as the text that records carry.

use vstd::prelude::*;

verus! {

/// Whether `s` has the shape of a time in UTC written after RFC 3339: a
/// date and a time of day, which take at least 19 characters, followed by
/// the offset `+00:00`.
pub open spec fn is_utc_timestamp(s: Seq<char>) -> bool {
    &&& s.len() >= 25
    &&& s.subrange(s.len() - 6, s.len() as int) == seq!['+', '0', '0', ':', '0', '0']
}

/// The current time in UTC as RFC 3339 text, from `chrono::Utc::now` and
/// `chrono::DateTime::to_rfc3339`.
///
/// Trusted: the contract claims the shape of the text only, since its value
/// depends on the system clock. The call does not return where that clock
/// stands before 1970.
#[verifier::external_body]
pub(crate) fn current_timestamp() -> (now: String)
    ensures
        is_utc_timestamp(now@),
{
    chrono::Utc::now().to_rfc3339()
}

} // verus!
