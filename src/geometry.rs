use vstd::prelude::*;

verus! {

/// Largest magnitude of a coordinate or size kept by the game's entities.
pub const COORD_LIMIT: i64 = 0x1000_0000_0000_0000;

/// Largest size of an entity, of a tile or of the screen.
pub const MAX_EXTENT: i64 = 0x4_0000_0000;

/// Largest magnitude of a speed or velocity, in milli-pixels per second.
pub const SPEED_LIMIT: i64 = 0x20_0000_0000;

/// Largest time step of one frame, in milliseconds.
pub const MAX_DT: i64 = 0x10_0000;

/// True when `v` lies within the coordinate range of the game.
pub open spec fn in_coord_range(v: int) -> bool {
    -COORD_LIMIT <= v <= COORD_LIMIT
}

/// An axis-aligned rectangle: top-left corner `(x, y)`, width `w`, height `h`.
#[derive(Clone, Copy, Debug, PartialEq, Eq, Structural)]
pub struct Rect {
    pub x: i64,
    pub y: i64,
    pub w: i64,
    pub h: i64,
}

/// Two rectangles overlap when their interiors share a point: both have
/// area, and their spans overlap by a positive length on both axes.
pub open spec fn overlaps(a: Rect, b: Rect) -> bool {
    &&& 0 < a.w && 0 < a.h && 0 < b.w && 0 < b.h
    &&& a.x < b.x + b.w && b.x < a.x + a.w
    &&& a.y < b.y + b.h && b.y < a.y + a.h
}

impl Rect {
    /// Sizes are non-negative and every edge lies within the coordinate range.
    pub open spec fn wf(self) -> bool {
        &&& 0 <= self.w
        &&& 0 <= self.h
        &&& in_coord_range(self.x as int)
        &&& in_coord_range(self.y as int)
        &&& in_coord_range(self.x + self.w)
        &&& in_coord_range(self.y + self.h)
    }

    pub fn new(x: i64, y: i64, w: i64, h: i64) -> (r: Rect)
        ensures
            r == (Rect { x, y, w, h }),
    {
        Rect { x, y, w, h }
    }

    /// True when the two rectangles share interior area.
    pub fn intersects(&self, other: &Rect) -> (r: bool)
        requires
            self.wf(),
            other.wf(),
        ensures
            r == overlaps(*self, *other),
    {
        0 < self.w && 0 < self.h && 0 < other.w && 0 < other.h && self.x < other.x + other.w
            && other.x < self.x + self.w && self.y < other.y + other.h && other.y < self.y
            + self.h
    }
}

} // verus!
