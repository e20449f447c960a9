//! Axis-aligned rectangles and 2-D vectors over exact integer coordinates.

use vstd::prelude::*;

verus! {

/// A coordinate magnitude under which every expression this module computes
/// (sums and differences of up to three coordinates) stays within `i64`.
pub const COORD_BOUND: i64 = 0x1000_0000_0000_0000;

/// A plain 2-D vector.
#[derive(Clone, Copy, Debug, PartialEq, Eq, Structural)]
pub struct Vec2 {
    /// The x component.
    pub x: i64,
    /// The y component.
    pub y: i64,
}

impl Vec2 {
    /// Create a vector from its two components.
    pub fn new(x: i64, y: i64) -> (r: Vec2)
        ensures
            r == (Vec2 { x, y }),
    {
        Vec2 { x, y }
    }
}

/// Represents a rectangle by its top-left corner and its extent.
#[derive(Clone, Copy, Debug, PartialEq, Eq, Structural)]
pub struct Rect {
    /// The x coordinate, or leftmost coordinate of the Rect.
    pub x: i64,
    /// The y coordinate, or topmost coordinate of the Rect.
    pub y: i64,
    /// The width of the Rect.
    pub w: i64,
    /// The height of the Rect.
    pub h: i64,
}

/// The magnitude of an integer.
pub open spec fn mag(x: int) -> int {
    if x < 0 {
        -x
    } else {
        x
    }
}

/// Whether every field of `r` is smaller in magnitude than [`COORD_BOUND`].
pub open spec fn coords_bounded(r: Rect) -> bool {
    &&& mag(r.x as int) <= COORD_BOUND
    &&& mag(r.y as int) <= COORD_BOUND
    &&& mag(r.w as int) <= COORD_BOUND
    &&& mag(r.h as int) <= COORD_BOUND
}

/// Whether two rectangles overlap or touch: neither lies strictly beyond the
/// other on either axis.
pub open spec fn intersect_spec(a: Rect, b: Rect) -> bool {
    !(a.x > b.x + b.w || a.x + a.w < b.x || a.y > b.y + b.h || a.y + a.h < b.y)
}

/// Whether `p` lies inside `r`, borders included.
pub open spec fn contains_spec(r: Rect, p: Vec2) -> bool {
    &&& p.x >= r.x
    &&& p.x <= r.x + r.w
    &&& p.y >= r.y
    &&& p.y <= r.y + r.h
}

/// The signed vertical move of smaller magnitude that brings `r` flush with an
/// edge of `of`: up to sit above it, or down to sit below it.
pub open spec fn way_out_y(r: Rect, of: Rect) -> int {
    let up = of.y - r.y - r.h;
    let down = of.y + of.h - r.y;
    if down < -up {
        down
    } else {
        up
    }
}

/// The signed horizontal move of smaller magnitude that brings `r` flush with
/// an edge of `of`: left to sit before it, or right to sit past it.
pub open spec fn way_out_x(r: Rect, of: Rect) -> int {
    let left = of.x - r.x - r.w;
    let right = of.x + of.w - r.x;
    if right < -left {
        right
    } else {
        left
    }
}

impl Rect {
    /// Create a Rectangle from a slice. Indices are [x, y, w, h].
    pub fn from_slice(slice: [i64; 4]) -> (r: Rect)
        ensures
            r == (Rect { x: slice[0], y: slice[1], w: slice[2], h: slice[3] }),
    {
        Rect { x: slice[0], y: slice[1], w: slice[2], h: slice[3] }
    }

    /// Move by the Vec provided.
    pub fn translate(&mut self, by: Vec2)
        requires
            i64::MIN <= old(self).x + by.x <= i64::MAX,
            i64::MIN <= old(self).y + by.y <= i64::MAX,
        ensures
            final(self).x == old(self).x + by.x,
            final(self).y == old(self).y + by.y,
            final(self).w == old(self).w,
            final(self).h == old(self).h,
    {
        self.x = self.x + by.x;
        self.y = self.y + by.y;
    }

    /// Test if two rectangles intersect (touching counts as intersecting).
    pub fn intersect(this: &Rect, other: &Rect) -> (r: bool)
        ensures
            r == intersect_spec(*this, *other),
    {
        let ax: i128 = this.x as i128;
        let ay: i128 = this.y as i128;
        let aw: i128 = this.w as i128;
        let ah: i128 = this.h as i128;
        let bx: i128 = other.x as i128;
        let by: i128 = other.y as i128;
        let bw: i128 = other.w as i128;
        let bh: i128 = other.h as i128;
        !(ax > bx + bw || ax + aw < bx || ay > by + bh || ay + ah < by)
    }

    /// Check if the point is inside this Rect and return true if so.
    pub fn contains(&self, point: Vec2) -> (r: bool)
        ensures
            r == contains_spec(*self, point),
    {
        let px: i128 = point.x as i128;
        let py: i128 = point.y as i128;
        px >= self.x as i128 && px <= self.x as i128 + self.w as i128
            && py >= self.y as i128 && py <= self.y as i128 + self.h as i128
    }

    /// Get the shortest way that must be applied to this Rect to clear out of
    /// another Rect of the same type so that their interiors would not overlap
    /// any more. The move is along a single axis: whichever of the best
    /// horizontal and best vertical escape is smaller in magnitude.
    pub fn shortest_way_out(&self, of: &Rect) -> (r: Vec2)
        requires
            coords_bounded(*self),
            coords_bounded(*of),
        ensures
            mag(way_out_x(*self, *of)) < mag(way_out_y(*self, *of)) ==> r == (Vec2 {
                x: way_out_x(*self, *of) as i64,
                y: 0,
            }),
            mag(way_out_x(*self, *of)) >= mag(way_out_y(*self, *of)) ==> r == (Vec2 {
                x: 0,
                y: way_out_y(*self, *of) as i64,
            }),
    {
        // Check upwards
        let mut move_y: i64 = of.y - self.y - self.h;
        // Check downwards
        let move_down: i64 = of.y + of.h - self.y;
        if move_down < -move_y {
            move_y = move_down;
        }

        // Check left
        let mut move_x: i64 = of.x - self.x - self.w;
        // Check right
        let move_right: i64 = of.x + of.w - self.x;
        if move_right < -move_x {
            move_x = move_right;
        }

        let abs_x: i64 = if move_x < 0 {
            -move_x
        } else {
            move_x
        };
        let abs_y: i64 = if move_y < 0 {
            -move_y
        } else {
            move_y
        };
        if abs_x < abs_y {
            Vec2::new(move_x, 0)
        } else {
            Vec2::new(0, move_y)
        }
    }
}

} // verus!
