//! The controlled entity and the fixed-point coordinate system.
//!
//! Positions, sizes and speeds are integers in sub-units: one logical
//! unit is `SUBS_PER_UNIT` sub-units. Speeds are in sub-units per second.

use vstd::prelude::*;

verus! {

/// Sub-units per logical unit of the surface.
pub const SUBS_PER_UNIT: i64 = 1000;

/// Largest surface dimension (and largest coordinate magnitude) the
/// library accepts, in sub-units.
pub const MAX_DIM: i64 = 1_000_000_000;

/// Largest speed the library accepts, in sub-units per second.
pub const MAX_SPEED: i64 = 1_000_000_000;

/// A surface is a fixed rectangle of `w` by `h` sub-units with the origin
/// in a corner; both dimensions are positive and bounded.
pub open spec fn dims_wf(w: int, h: int) -> bool {
    0 < w <= MAX_DIM && 0 < h <= MAX_DIM
}

/// The controlled actor: center position, diameter and speed, all in
/// sub-units (speed in sub-units per second).
#[derive(Clone, Copy, Debug, PartialEq, Eq, Structural)]
pub struct Entity {
    pub x: i64,
    pub y: i64,
    pub size: i64,
    pub speed: i64,
}

impl Entity {
    /// Size and speed are sane for a `w` by `h` surface: the entity fits
    /// on the surface and the speed is nonnegative and bounded.
    pub open spec fn params_wf(self, w: int, h: int) -> bool {
        &&& 0 < self.size
        &&& self.size <= w
        &&& self.size <= h
        &&& 0 <= self.speed <= MAX_SPEED
    }

    /// The boundary invariant: the whole entity lies on the surface,
    /// i.e. its center keeps half its size away from every edge.
    pub open spec fn in_bounds(self, w: int, h: int) -> bool {
        &&& self.size / 2 <= self.x <= w - self.size / 2
        &&& self.size / 2 <= self.y <= h - self.size / 2
    }

    /// Full well-formedness on a `w` by `h` surface.
    pub open spec fn wf(self, w: int, h: int) -> bool {
        &&& dims_wf(w, h)
        &&& self.params_wf(w, h)
        &&& self.in_bounds(w, h)
    }

    /// The startup entity: centered on the surface.
    pub fn centered(size: i64, speed: i64, w: i64, h: i64) -> (e: Entity)
        requires
            dims_wf(w as int, h as int),
            0 < size <= w,
            size <= h,
            0 <= speed <= MAX_SPEED,
        ensures
            e.wf(w as int, h as int),
            e.x == w / 2,
            e.y == h / 2,
            e.size == size,
            e.speed == speed,
    {
        Entity { x: w / 2, y: h / 2, size, speed }
    }
}

} // verus!
