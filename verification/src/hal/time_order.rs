use vstd::prelude::*;
use core::cmp::Ordering;
use vstd::std_specs::cmp::PartialOrdSpecImpl;
use crate::hal::counter::PointInTime;

verus! {

/// Points in time are ordered by their counter values when they count at the same
/// frequency, and are not comparable otherwise.
impl PartialOrd for PointInTime {
    fn partial_cmp(&self, other: &Self) -> (r: Option<Ordering>) {
        if self.frequency == other.frequency {
            if self.counter_val < other.counter_val {
                Some(Ordering::Less)
            } else if self.counter_val > other.counter_val {
                Some(Ordering::Greater)
            } else {
                Some(Ordering::Equal)
            }
        } else {
            None
        }
    }
}

impl PartialOrdSpecImpl for PointInTime {
    open spec fn obeys_partial_cmp_spec() -> bool {
        true
    }

    open spec fn partial_cmp_spec(&self, other: &Self) -> Option<Ordering> {
        if self.frequency == other.frequency {
            if self.counter_val < other.counter_val {
                Some(Ordering::Less)
            } else if self.counter_val > other.counter_val {
                Some(Ordering::Greater)
            } else {
                Some(Ordering::Equal)
            }
        } else {
            None
        }
    }
}

} // verus!
