//! Identifiers and timestamps drawn from the outside world.

use vstd::prelude::*;

verus! {

/// Draws a fresh record identifier: `uuid::Uuid::now_v7()` written out with
/// `to_string()`. The value depends on the clock and on random bits, so the
/// contract only claims the fixed length of the hyphenated form.
#[verifier::external_body]
pub(crate) fn fresh_id() -> (id: String)
    ensures
        id@.len() == 36,
{
    uuid::Uuid::now_v7().to_string()
}

/// Reads the clock: `chrono::Utc::now()` as microseconds since the Unix epoch
/// (`timestamp_micros`). `now` measures from the epoch, so the value is never
/// negative; nothing else is claimed of it.
#[verifier::external_body]
pub(crate) fn now_micros() -> (t: i64)
    ensures
        t >= 0,
{
    chrono::Utc::now().timestamp_micros()
}

} // verus!
