//! Points and axis-aligned rectangles on the integer grid.

use vstd::prelude::*;

verus! {

/// A point, or a displacement, in two dimensions.
#[derive(Clone, Copy, Debug, PartialEq, Eq, Structural)]
pub struct Vec2 {
    pub x: i64,
    pub y: i64,
}

/// An axis-aligned rectangle given by two opposite corners.
///
/// The rectangle covers the points `p` with `min.x <= p.x < max.x` and
/// `min.y <= p.y < max.y`; it covers nothing unless `min` lies strictly
/// below `max` on both axes.
#[derive(Clone, Copy, Debug, PartialEq, Eq, Structural)]
pub struct Rect {
    pub min: Vec2,
    pub max: Vec2,
}

/// The mathematical rectangle that a [`Rect`] stands for.
pub struct Area {
    pub min_x: int,
    pub min_y: int,
    pub max_x: int,
    pub max_y: int,
}

impl Area {
    /// Extent along the x axis; negative for an inverted rectangle.
    pub open spec fn width(self) -> int {
        self.max_x - self.min_x
    }

    /// Extent along the y axis; negative for an inverted rectangle.
    pub open spec fn height(self) -> int {
        self.max_y - self.min_y
    }

    /// The rectangle covers at least one unit square.
    pub open spec fn has_area(self) -> bool {
        self.min_x < self.max_x && self.min_y < self.max_y
    }

    /// The two rectangles share a region of positive area.
    pub open spec fn overlaps(self, other: Area) -> bool {
        &&& self.min_x < other.max_x
        &&& other.min_x < self.max_x
        &&& self.min_y < other.max_y
        &&& other.min_y < self.max_y
        &&& self.has_area()
        &&& other.has_area()
    }

    /// The unit square whose corner nearest the origin of the axes is
    /// `(x, y)` lies in the rectangle.
    pub open spec fn contains(self, x: int, y: int) -> bool {
        self.min_x <= x < self.max_x && self.min_y <= y < self.max_y
    }

    /// The rectangle lies within `other`.
    pub open spec fn inside(self, other: Area) -> bool {
        &&& other.min_x <= self.min_x
        &&& self.max_x <= other.max_x
        &&& other.min_y <= self.min_y
        &&& self.max_y <= other.max_y
    }

    /// Every coordinate lies within `limit` of the origin.
    pub open spec fn within(self, limit: int) -> bool {
        &&& -limit <= self.min_x <= limit
        &&& -limit <= self.min_y <= limit
        &&& -limit <= self.max_x <= limit
        &&& -limit <= self.max_y <= limit
    }

    /// The rectangle moved by `(dx, dy)`.
    pub open spec fn moved(self, dx: int, dy: int) -> Area {
        Area {
            min_x: self.min_x + dx,
            min_y: self.min_y + dy,
            max_x: self.max_x + dx,
            max_y: self.max_y + dy,
        }
    }
}

impl View for Rect {
    type V = Area;

    open spec fn view(&self) -> Area {
        Area {
            min_x: self.min.x as int,
            min_y: self.min.y as int,
            max_x: self.max.x as int,
            max_y: self.max.y as int,
        }
    }
}

impl Rect {
    /// The rectangle with corners `(x0, y0)` and `(x1, y1)`, taken as they are.
    pub fn new(x0: i64, y0: i64, x1: i64, y1: i64) -> (r: Rect)
        ensures
            r@ == (Area { min_x: x0 as int, min_y: y0 as int, max_x: x1 as int, max_y: y1 as int }),
    {
        Rect { min: Vec2 { x: x0, y: y0 }, max: Vec2 { x: x1, y: y1 } }
    }

    /// Whether the rectangle covers any area at all.
    pub fn has_area(&self) -> (b: bool)
        ensures
            b == self@.has_area(),
    {
        self.min.x < self.max.x && self.min.y < self.max.y
    }
}

/// Moving a rectangle keeps its size and moves its centre by as much: the
/// sums of opposite coordinates, which are twice the coordinates of the
/// centre, grow by twice the displacement.
pub proof fn lemma_moved(a: Area, dx: int, dy: int)
    ensures
        a.moved(dx, dy).width() == a.width(),
        a.moved(dx, dy).height() == a.height(),
        a.moved(dx, dy).min_x + a.moved(dx, dy).max_x == a.min_x + a.max_x + 2 * dx,
        a.moved(dx, dy).min_y + a.moved(dx, dy).max_y == a.min_y + a.max_y + 2 * dy,
        a.moved(dx, dy).has_area() == a.has_area(),
{
}

/// Two rectangles with the same model are the same rectangle.
pub proof fn lemma_rect_view_injective(a: Rect, b: Rect)
    requires
        a@ == b@,
    ensures
        a == b,
{
}

} // verus!
