//! Record timestamps.
//!
//! Timestamps are carried through the library unchanged; only the moment a
//! record is created or updated is read from the clock.

use vstd::prelude::*;

verus! {

/// `chrono::NaiveDateTime`, carried as an opaque value.
#[verifier::external_type_specification]
#[verifier::external_body]
pub struct ExNaiveDateTime(chrono::NaiveDateTime);

/// The current time in UTC, from `chrono::Utc::now` converted with
/// `chrono::DateTime::naive_utc`.  It depends on the clock, so nothing is
/// claimed of the value.
#[verifier::external_body]
pub(crate) fn now() -> (t: chrono::NaiveDateTime) {
    chrono::Utc::now().naive_utc()
}

} // verus!
