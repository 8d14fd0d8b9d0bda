//! The system's clock.

use vstd::prelude::*;

verus! {

/// `chrono::Utc::now` and `DateTime::timestamp_millis`: the time on the
/// system's clock, in milliseconds since the Unix epoch. Nothing is claimed of
/// the value. A clock that stands before the epoch cannot be read: there
/// `Utc::now` panics.
#[verifier::external_body]
pub(crate) fn now_ms() -> u64 {
    chrono::Utc::now().timestamp_millis() as u64
}

} // verus!
