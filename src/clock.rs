use vstd::prelude::*;

verus! {

/// Declares `std::time::Instant`, a reading of the monotonic clock, as an
/// opaque type.
#[verifier::external_type_specification]
#[verifier::external_body]
pub struct ExInstant(std::time::Instant);

/// Relies on `std::time::Instant::now`: a reading of the monotonic clock.
/// Nothing is known of the value.
pub assume_specification[ std::time::Instant::now ]() -> std::time::Instant;

/// Relies on `std::time::Instant::elapsed`: the time since an earlier reading.
/// Nothing is known of the value.
pub assume_specification[ std::time::Instant::elapsed ](
    self_: &std::time::Instant,
) -> core::time::Duration;

/// Relies on `core::time::Duration::as_micros`: whole microseconds of a
/// duration whose value is opaque here, so nothing is stated of the result.
pub assume_specification[ core::time::Duration::as_micros ](
    self_: &core::time::Duration,
) -> u128;

/// Relies on `rand::random::<u8>`, which draws from the thread-local
/// generator: any byte may come back.
#[verifier::external_body]
pub(crate) fn random_byte() -> u8 {
    rand::random::<u8>()
}

} // verus!
