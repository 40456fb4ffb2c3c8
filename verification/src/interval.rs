//! Closed scalar intervals, used both as acceptance windows for intersection
//! parameters and as the clamp range for output channels.

use crate::fx::{Fx, RAW_MAX};
use vstd::prelude::*;

verus! {

#[derive(Clone, Copy, Debug, PartialEq, Eq, Structural)]
pub struct Interval {
    pub min: Fx,
    pub max: Fx,
}

impl Interval {
    pub open spec fn spec_new(min: Fx, max: Fx) -> Interval {
        Interval { min, max }
    }

    /// Inclusive membership at both ends.
    pub open spec fn spec_contains(self, value: Fx) -> bool {
        self.min@ <= value@ && self.max@ >= value@
    }

    /// Strict membership at both ends; intersection queries use this so a
    /// hit exactly on the window boundary is rejected.
    pub open spec fn spec_surrounds(self, value: Fx) -> bool {
        self.min@ < value@ && self.max@ > value@
    }

    pub open spec fn spec_clamp(self, value: Fx) -> Fx {
        if value@ < self.min@ {
            self.min
        } else if value@ > self.max@ {
            self.max
        } else {
            value
        }
    }

    /// The interval that contains nothing: largest min, smallest max.
    pub open spec fn spec_empty() -> Interval {
        Interval { min: Fx { raw: RAW_MAX }, max: Fx { raw: (-RAW_MAX) as i64 } }
    }

    /// The interval that contains every scalar.
    pub open spec fn spec_universe() -> Interval {
        Interval { min: Fx { raw: (-RAW_MAX) as i64 }, max: Fx { raw: RAW_MAX } }
    }

    pub fn new(min: Fx, max: Fx) -> (r: Interval)
        ensures
            r == Interval::spec_new(min, max),
    {
        Interval { min, max }
    }

    pub fn contains(&self, value: Fx) -> (r: bool)
        ensures
            r == self.spec_contains(value),
    {
        self.min.raw <= value.raw && self.max.raw >= value.raw
    }

    pub fn surrounds(&self, value: Fx) -> (r: bool)
        ensures
            r == self.spec_surrounds(value),
    {
        self.min.raw < value.raw && self.max.raw > value.raw
    }

    pub fn clamp(&self, value: Fx) -> (r: Fx)
        ensures
            r == self.spec_clamp(value),
    {
        if value.raw < self.min.raw {
            self.min
        } else if value.raw > self.max.raw {
            self.max
        } else {
            value
        }
    }

    pub fn min(&self) -> (r: Fx)
        ensures
            r == self.min,
    {
        self.min
    }

    pub fn max(&self) -> (r: Fx)
        ensures
            r == self.max,
    {
        self.max
    }

    pub fn empty() -> (r: Interval)
        ensures
            r == Interval::spec_empty(),
    {
        Interval { min: Fx { raw: RAW_MAX }, max: Fx { raw: -RAW_MAX } }
    }

    pub fn universe() -> (r: Interval)
        ensures
            r == Interval::spec_universe(),
    {
        Interval { min: Fx { raw: -RAW_MAX }, max: Fx { raw: RAW_MAX } }
    }
}

} // verus!
