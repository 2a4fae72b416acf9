//! The order of tracks: by the date at which they were added, a track
//! without a date before all that have one.

use crate::beatmap::Beatmap;
use crate::time::{date_view, Instant, Timestamp};
use core::cmp::Ordering;
use vstd::prelude::*;
use vstd::std_specs::cmp::PartialOrdSpecImpl;

verus! {

/// The order of two instants: the earlier one first, by seconds and then by
/// nanoseconds.
pub open spec fn order_of_instants(a: Instant, b: Instant) -> Ordering {
    if a.secs < b.secs || (a.secs == b.secs && a.nanos < b.nanos) {
        Ordering::Less
    } else if a.secs == b.secs && a.nanos == b.nanos {
        Ordering::Equal
    } else {
        Ordering::Greater
    }
}

/// The order of two dates: no date before any date, and dates by their
/// instants.
pub open spec fn order_of_dates(a: Option<Instant>, b: Option<Instant>) -> Ordering {
    match (a, b) {
        (None, None) => Ordering::Equal,
        (None, Some(_)) => Ordering::Less,
        (Some(_), None) => Ordering::Greater,
        (Some(x), Some(y)) => order_of_instants(x, y),
    }
}

/// Compares two dates.
pub fn date_order(a: &Option<Timestamp>, b: &Option<Timestamp>) -> (r: Ordering)
    ensures
        r == order_of_dates(date_view(*a), date_view(*b)),
{
    match (a, b) {
        (None, None) => Ordering::Equal,
        (None, Some(_)) => Ordering::Less,
        (Some(_), None) => Ordering::Greater,
        (Some(x), Some(y)) => {
            if x.secs() < y.secs() || (x.secs() == y.secs() && x.nanos() < y.nanos()) {
                Ordering::Less
            } else if x.secs() == y.secs() && x.nanos() == y.nanos() {
                Ordering::Equal
            } else {
                Ordering::Greater
            }
        },
    }
}

impl PartialOrd for Beatmap {
    /// Tracks are ordered by their dates alone.
    fn partial_cmp(&self, other: &Self) -> (r: Option<Ordering>) {
        Some(date_order(&self.date, &other.date))
    }
}

impl PartialOrdSpecImpl for Beatmap {
    open spec fn obeys_partial_cmp_spec() -> bool {
        true
    }

    open spec fn partial_cmp_spec(&self, other: &Self) -> Option<Ordering> {
        Some(order_of_dates(self@.date, other@.date))
    }
}

} // verus!
