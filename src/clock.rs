//! The wall clock, read through chrono.
use vstd::prelude::*;
use chrono::Timelike;

verus! {

/// Relies on `chrono::Utc::now` and `DateTime::timestamp`: the current time
/// as whole seconds since the Unix epoch. Nothing is known of the value,
/// which depends on the machine's clock.
#[verifier::external_body]
pub(crate) fn current_timestamp() -> (r: i64) {
    chrono::Utc::now().timestamp()
}

/// Relies on `chrono::Local::now` and `Timelike::hour`: the hour of the
/// local time of day, which chrono documents as a number from 0 to 23.
#[verifier::external_body]
pub(crate) fn current_local_hour() -> (r: u64)
    ensures
        r < 24,
{
    chrono::Local::now().hour() as u64
}

} // verus!
