//! Points in time, taken from the `web_time` crate, which is `std::time` on
//! every target but a browser.
use vstd::prelude::*;
use web_time::{Duration, Instant};

verus! {

/// A point in time, carried through the library as an opaque value.
#[verifier::external_type_specification]
#[verifier::external_body]
pub struct ExInstant(web_time::Instant);

/// Where an instant lies on its clock, in nanoseconds from the clock's origin.
/// Instants compare as these numbers do.
pub uninterp spec fn instant_nanos(instant: Instant) -> int;

/// How long a duration is, in nanoseconds, as `Duration::as_nanos` counts them.
pub uninterp spec fn duration_nanos(duration: Duration) -> nat;

/// What `Instant::checked_add` returns for an instant and a duration.
pub uninterp spec fn instant_checked_add(instant: Instant, duration: Duration) -> Option<Instant>;

/// `Instant::now` reads the clock. Which instant comes back is up to the
/// clock, so nothing is claimed of it.
pub assume_specification[ web_time::Instant::now ]() -> (now: Instant)
;

/// `Instant::checked_add` adds a duration to an instant without panicking. Its
/// result is determined by its two arguments and is named
/// [`instant_checked_add`]. A sum lies as long after the instant as the
/// duration says. Where there is none, the point in time is past the last one
/// that the clock's representation holds, and so no sum reaches that point or
/// a later one. Which point is the last is left to the representation.
pub assume_specification[ web_time::Instant::checked_add ](
    instant: &Instant,
    duration: Duration,
) -> (sum: Option<Instant>)
    ensures
        sum == instant_checked_add(*instant, duration),
        sum matches Some(later) ==> instant_nanos(later) == instant_nanos(*instant)
            + duration_nanos(duration),
        sum is None ==> forall|other: Instant, longer: Duration|
            instant_nanos(other) + duration_nanos(longer) >= instant_nanos(*instant)
                + duration_nanos(duration) ==> #[trigger] instant_checked_add(other, longer) is None,
;

} // verus!
