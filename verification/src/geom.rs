//! Plain value types for device-pixel geometry.
//!
//! Every rectangle corner of the scene sits at a multiple of a quarter of a
//! device pixel, so coordinates are carried exactly as integer counts of
//! quarter pixels. The embedder divides by four (in its own floating-point
//! units) when it hands the rectangles to the rendering engine.

use vstd::prelude::*;

verus! {

/// A window's drawable size, in whole device pixels.
#[derive(Clone, Copy, Debug, PartialEq, Eq, Structural)]
pub struct DeviceSize {
    pub width: u32,
    pub height: u32,
}

/// A point, measured in quarters of a device pixel from the window's
/// top-left corner.
#[derive(Clone, Copy, Debug, PartialEq, Eq, Structural)]
pub struct QuarterPoint {
    pub x: u64,
    pub y: u64,
}

/// An axis-aligned rectangle in quarter-pixel units: `min` is its top-left
/// corner, `max` its bottom-right corner.
#[derive(Clone, Copy, Debug, PartialEq, Eq, Structural)]
pub struct QuarterRect {
    pub min: QuarterPoint,
    pub max: QuarterPoint,
}

impl QuarterRect {
    /// The corners are ordered: the rectangle does not extend leftwards or
    /// upwards from `min`.
    pub open spec fn well_formed(self) -> bool {
        self.min.x <= self.max.x && self.min.y <= self.max.y
    }

    /// The enclosed area, in squared quarter-pixel units.
    pub open spec fn area(self) -> int
        recommends
            self.well_formed(),
    {
        (self.max.x - self.min.x) * (self.max.y - self.min.y)
    }

    /// A degenerate rectangle has no extent along at least one axis.
    pub open spec fn is_degenerate(self) -> bool {
        self.min.x == self.max.x || self.min.y == self.max.y
    }

    /// Reports whether the rectangle encloses no area at all.
    pub fn is_empty(&self) -> (empty: bool)
        requires
            self.well_formed(),
        ensures
            empty == (self.area() == 0),
            empty == self.is_degenerate(),
    {
        proof {
            lemma_zero_area_is_degenerate(*self);
        }
        self.min.x == self.max.x || self.min.y == self.max.y
    }
}

/// A well-formed rectangle has zero area exactly when it is degenerate.
pub proof fn lemma_zero_area_is_degenerate(r: QuarterRect)
    requires
        r.well_formed(),
    ensures
        (r.area() == 0) == r.is_degenerate(),
{
    let dx = r.max.x - r.min.x;
    let dy = r.max.y - r.min.y;
    assert((dx * dy == 0) == (dx == 0 || dy == 0)) by (nonlinear_arith);
}

} // verus!
