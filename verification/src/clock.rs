//! The wall clock.
use vstd::prelude::*;

verus! {

/// The current time in seconds since the Unix epoch (`chrono::Utc::now`).
/// Nothing is claimed of the value: it depends on the clock.
#[verifier::external_body]
pub(crate) fn now_unix_seconds() -> i64 {
    chrono::Utc::now().timestamp()
}

/// The current time in milliseconds since the Unix epoch
/// (`chrono::Utc::now().timestamp_millis()`). Nothing is claimed of the
/// value: it depends on the clock.
#[verifier::external_body]
pub(crate) fn now_unix_millis() -> i64 {
    chrono::Utc::now().timestamp_millis()
}

} // verus!
