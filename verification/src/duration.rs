//! Time spans, as far as the encoder needs them.

use std::time::Duration;
use vstd::prelude::*;

verus! {

/// The whole nanoseconds that a [`Duration`] holds: what
/// `Duration::as_nanos` returns for it.
pub uninterp spec fn duration_nanos(d: Duration) -> nat;

/// `Duration::from_nanos` builds the span of exactly `nanos` nanoseconds.
pub assume_specification[ Duration::from_nanos ](nanos: u64) -> (d: Duration)
    ensures
        duration_nanos(d) == nanos,
;

/// `Duration::as_nanos` returns the total number of nanoseconds of the span.
pub assume_specification[ Duration::as_nanos ](d: &Duration) -> (n: u128)
    ensures
        n == duration_nanos(*d),
;

/// The span of `nanos` nanoseconds.
pub fn ns(nanos: u64) -> (d: Duration)
    ensures
        duration_nanos(d) == nanos,
{
    Duration::from_nanos(nanos)
}

} // verus!
