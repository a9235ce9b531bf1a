//! The time of day, taken from the machine.

use vstd::prelude::*;

verus! {

/// The current time in whole seconds since the epoch: `chrono::Utc::now` and
/// `DateTime::timestamp`. Nothing is claimed of the value. The machine's clock
/// is taken to stand after the epoch, as `Utc::now` itself demands.
#[verifier::external_body]
pub(crate) fn unix_now() -> i64 {
    chrono::Utc::now().timestamp()
}

} // verus!
