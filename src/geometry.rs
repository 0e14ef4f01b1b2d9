use vstd::prelude::*;

verus! {

/// Largest coordinate or extent a point or rectangle may hold: half of the
/// largest `i32`, so that a rectangle's far edge never overflows.
pub const MAX_COORD: i32 = 1073741823;

/// Smallest coordinate a point or rectangle may hold: half of the smallest `i32`.
pub const MIN_COORD: i32 = -1073741824;

/// A coordinate pulled into `[MIN_COORD, MAX_COORD]`.
pub open spec fn clamp_coord(v: int) -> int {
    if v > MAX_COORD {
        MAX_COORD as int
    } else if v < MIN_COORD {
        MIN_COORD as int
    } else {
        v
    }
}

/// An extent pulled into `[1, MAX_COORD]`: rectangles are never empty.
pub open spec fn clamp_extent(v: int) -> int {
    if v <= 0 {
        1
    } else if v > MAX_COORD {
        MAX_COORD as int
    } else {
        v
    }
}

pub open spec fn coord_ok(v: int) -> bool {
    MIN_COORD <= v <= MAX_COORD
}

pub open spec fn extent_ok(v: int) -> bool {
    1 <= v <= MAX_COORD
}

fn clamp_coord_exec(v: i64) -> (r: i32)
    ensures
        r == clamp_coord(v as int),
{
    if v > MAX_COORD as i64 {
        MAX_COORD
    } else if v < MIN_COORD as i64 {
        MIN_COORD
    } else {
        v as i32
    }
}

fn clamp_extent_exec(v: u32) -> (r: u32)
    ensures
        r == clamp_extent(v as int),
{
    if v == 0 {
        1
    } else if v > MAX_COORD as u32 {
        MAX_COORD as u32
    } else {
        v
    }
}

/// A point on the integer plane.
#[derive(Clone, Copy, Debug, PartialEq, Eq, Structural)]
pub struct Point {
    pub x: i32,
    pub y: i32,
}

impl Point {
    /// Both coordinates lie in `[MIN_COORD, MAX_COORD]`.
    pub open spec fn wf(self) -> bool {
        coord_ok(self.x as int) && coord_ok(self.y as int)
    }

    /// The point at `(x, y)`, each coordinate clamped.
    pub open spec fn at(x: int, y: int) -> Point {
        Point { x: clamp_coord(x) as i32, y: clamp_coord(y) as i32 }
    }

    /// The point shifted by `(dx, dy)`; a coordinate that would leave the
    /// allowed range stops at its bound.
    pub open spec fn shifted(self, dx: int, dy: int) -> Point {
        Point::at(self.x + dx, self.y + dy)
    }

    pub fn new(x: i32, y: i32) -> (r: Point)
        ensures
            r == Point::at(x as int, y as int),
            r.wf(),
    {
        Point { x: clamp_coord_exec(x as i64), y: clamp_coord_exec(y as i64) }
    }

    pub fn offset(self, dx: i32, dy: i32) -> (r: Point)
        ensures
            r == self.shifted(dx as int, dy as int),
            r.wf(),
    {
        Point {
            x: clamp_coord_exec(self.x as i64 + dx as i64),
            y: clamp_coord_exec(self.y as i64 + dy as i64),
        }
    }
}

/// A non-empty axis-aligned rectangle: its top-left corner and its size.
#[derive(Clone, Copy, Debug, PartialEq, Eq, Structural)]
pub struct Rect {
    pub x: i32,
    pub y: i32,
    pub width: u32,
    pub height: u32,
}

impl Rect {
    /// The corner lies in the coordinate range and both extents in `[1, MAX_COORD]`.
    pub open spec fn wf(self) -> bool {
        &&& coord_ok(self.x as int)
        &&& coord_ok(self.y as int)
        &&& extent_ok(self.width as int)
        &&& extent_ok(self.height as int)
    }

    /// The rectangle at `(x, y)` of the given size, every value clamped.
    pub open spec fn at(x: int, y: int, width: int, height: int) -> Rect {
        Rect {
            x: clamp_coord(x) as i32,
            y: clamp_coord(y) as i32,
            width: clamp_extent(width) as u32,
            height: clamp_extent(height) as u32,
        }
    }

    /// The rectangle of the given size whose centre is `center` (rounded
    /// towards the top-left corner), every value clamped.
    pub open spec fn around(center: Point, width: int, height: int) -> Rect {
        let w = clamp_extent(width);
        let h = clamp_extent(height);
        Rect {
            x: clamp_coord(clamp_coord(center.x as int) - w / 2) as i32,
            y: clamp_coord(clamp_coord(center.y as int) - h / 2) as i32,
            width: w as u32,
            height: h as u32,
        }
    }

    pub fn new(x: i32, y: i32, width: u32, height: u32) -> (r: Rect)
        ensures
            r == Rect::at(x as int, y as int, width as int, height as int),
            r.wf(),
    {
        Rect {
            x: clamp_coord_exec(x as i64),
            y: clamp_coord_exec(y as i64),
            width: clamp_extent_exec(width),
            height: clamp_extent_exec(height),
        }
    }

    pub fn from_center(center: Point, width: u32, height: u32) -> (r: Rect)
        ensures
            r == Rect::around(center, width as int, height as int),
            r.wf(),
    {
        let w = clamp_extent_exec(width);
        let h = clamp_extent_exec(height);
        let cx = clamp_coord_exec(center.x as i64);
        let cy = clamp_coord_exec(center.y as i64);
        Rect {
            x: clamp_coord_exec(cx as i64 - (w / 2) as i64),
            y: clamp_coord_exec(cy as i64 - (h / 2) as i64),
            width: w,
            height: h,
        }
    }

    /// Width and height.
    pub fn size(&self) -> (r: (u32, u32))
        ensures
            r == (self.width, self.height),
    {
        (self.width, self.height)
    }
}

} // verus!
