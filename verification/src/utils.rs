//! Values that the engine draws from outside itself: fresh identifiers and
//! the current time.

use rand::Rng;
use vstd::prelude::*;

verus! {

/// Lowest identifier that [`gen_id`] hands out.
pub const ID_MIN: i64 = 1000;

/// Bound below which every identifier of [`gen_id`] lies.
pub const ID_LIMIT: i64 = 9999;

/// Calls `rand::thread_rng()` and `Rng::gen_range` on the half-open range
/// `low..high`. Trusted: the sample lies in the range, which `gen_range`
/// documents for a non-empty range; an empty range makes it panic and is
/// excluded. Nothing else is claimed of the value, which differs from call
/// to call.
#[verifier::external_body]
fn random_in_range(low: i64, high: i64) -> (sample: i64)
    requires
        low < high,
    ensures
        low <= sample < high,
{
    rand::thread_rng().gen_range(low..high)
}

/// Calls `chrono::Utc::now()` and `DateTime::to_rfc3339` on the result.
/// Trusted, with nothing claimed: the text depends on the clock.
#[verifier::external_body]
pub(crate) fn utc_timestamp() -> (text: String) {
    chrono::Utc::now().to_rfc3339()
}

/// Draws a fresh random identifier for a history record.
pub fn gen_id() -> (id: i64)
    ensures
        ID_MIN <= id < ID_LIMIT,
{
    random_in_range(ID_MIN, ID_LIMIT)
}

} // verus!
