//! Points and segments on a grid with `resolution` positions per axis.

use vstd::prelude::*;

verus! {

/// A grid point, given by its indices along both axes.
///
/// On a grid of `resolution` positions the point stands for the normalized
/// coordinates `(x / (resolution - 1), y / (resolution - 1))`.
#[derive(Clone, Copy, Debug, PartialEq, Eq, Structural)]
pub struct Point {
    pub x: u32,
    pub y: u32,
}

impl Point {
    /// Whether both indices lie on a grid whose largest index is `last`.
    pub open spec fn on_grid(self, last: nat) -> bool {
        self.x <= last && self.y <= last
    }

    /// The reflection across the vertical midline: `x` becomes `last - x`.
    pub open spec fn mirror_x(self, last: nat) -> Point {
        Point { x: (last - self.x) as u32, y: self.y }
    }

    /// The reflection across the horizontal midline: `y` becomes `last - y`.
    pub open spec fn mirror_y(self, last: nat) -> Point {
        Point { x: self.x, y: (last - self.y) as u32 }
    }

    pub fn new(x: u32, y: u32) -> (r: Point)
        ensures
            r == (Point { x, y }),
    {
        Point { x, y }
    }
}

/// A segment between two grid points.
///
/// Equality is by endpoints in order; [`Line::same_segment`] compares
/// segments regardless of direction.
#[derive(Clone, Copy, Debug, PartialEq, Eq, Structural)]
pub struct Line {
    pub start: Point,
    pub end: Point,
}

impl Line {
    /// A segment is degenerate when both ends are the same point.
    pub open spec fn is_degenerate(self) -> bool {
        self.start == self.end
    }

    /// The same undirected segment: equal ends, in either order.
    pub open spec fn same_segment_spec(self, other: Line) -> bool {
        (self.start == other.start && self.end == other.end)
        || (self.start == other.end && self.end == other.start)
    }

    pub open spec fn on_grid(self, last: nat) -> bool {
        self.start.on_grid(last) && self.end.on_grid(last)
    }

    pub open spec fn mirror_x(self, last: nat) -> Line {
        Line { start: self.start.mirror_x(last), end: self.end.mirror_x(last) }
    }

    pub open spec fn mirror_y(self, last: nat) -> Line {
        Line { start: self.start.mirror_y(last), end: self.end.mirror_y(last) }
    }

    pub fn new(start: Point, end: Point) -> (r: Line)
        ensures
            r.start == start,
            r.end == end,
    {
        Line { start, end }
    }

    pub fn start(&self) -> (r: Point)
        ensures
            r == self.start,
    {
        self.start
    }

    pub fn end(&self) -> (r: Point)
        ensures
            r == self.end,
    {
        self.end
    }

    /// Whether `self` and `other` join the same two points, in either direction.
    pub fn same_segment(&self, other: &Line) -> (r: bool)
        ensures
            r == self.same_segment_spec(*other),
    {
        (self.start == other.start && self.end == other.end)
            || (self.start == other.end && self.end == other.start)
    }

    /// The reflection across the vertical midline of a grid whose largest index is `last`.
    pub fn mirrored_x(&self, last: u32) -> (r: Line)
        requires
            self.on_grid(last as nat),
        ensures
            r == self.mirror_x(last as nat),
    {
        Line {
            start: Point { x: last - self.start.x, y: self.start.y },
            end: Point { x: last - self.end.x, y: self.end.y },
        }
    }

    /// The reflection across the horizontal midline of a grid whose largest index is `last`.
    pub fn mirrored_y(&self, last: u32) -> (r: Line)
        requires
            self.on_grid(last as nat),
        ensures
            r == self.mirror_y(last as nat),
    {
        Line {
            start: Point { x: self.start.x, y: last - self.start.y },
            end: Point { x: self.end.x, y: last - self.end.y },
        }
    }
}

} // verus!
