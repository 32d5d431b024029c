//! The ring between an outer rectangle and the rectangle left inside it once
//! the four edge thicknesses are taken off, cut into one rectangle per edge.
//!
//! The left and right rectangles run over the full height of the outer
//! rectangle and own the corners; the top and bottom rectangles fill what
//! lies between them. An edge whose rectangle would cover no area has none.

use vstd::prelude::*;
use crate::math::{Area, Rect, Vec2};
use crate::thickness::ResolvedThickness;

verus! {

/// The largest distance from the origin at which [`edge_ring`] accepts a
/// corner of the outer rectangle.
pub const MAX_OUTER: i64 = 0x0400_0000_0000_0000;

/// The largest distance from the origin of any corner of a stored edge
/// rectangle.
pub const MAX_EDGE_COORD: i64 = 0x0800_0000_0000_0000;

/// One of the four edges of a box, in the order in which they are stored
/// and drawn.
#[derive(Clone, Copy, Debug, PartialEq, Eq, Structural)]
pub enum Edge {
    Left,
    Right,
    Top,
    Bottom,
}

impl Edge {
    /// The position of the edge in the stored order.
    pub open spec fn position(self) -> int {
        match self {
            Edge::Left => 0,
            Edge::Right => 1,
            Edge::Top => 2,
            Edge::Bottom => 3,
        }
    }

    /// The edge stored at position `i`; positions past the third count as
    /// the bottom edge.
    pub open spec fn at(i: int) -> Edge {
        if i == 0 {
            Edge::Left
        } else if i == 1 {
            Edge::Right
        } else if i == 2 {
            Edge::Top
        } else {
            Edge::Bottom
        }
    }

    /// The position of the edge in the stored order.
    pub fn index(self) -> (i: usize)
        ensures
            i == self.position(),
            i < 4,
    {
        match self {
            Edge::Left => 0,
            Edge::Right => 1,
            Edge::Top => 2,
            Edge::Bottom => 3,
        }
    }
}

/// Left boundary of the inner rectangle.
pub open spec fn inner_min_x(outer: Area, t: ResolvedThickness) -> int {
    outer.min_x + t.left
}

/// Top boundary of the inner rectangle.
pub open spec fn inner_min_y(outer: Area, t: ResolvedThickness) -> int {
    outer.min_y + t.top
}

/// Right boundary of the inner rectangle, held back so that it never lies
/// left of the left boundary.
pub open spec fn inner_max_x(outer: Area, t: ResolvedThickness) -> int {
    if outer.max_x - t.right > inner_min_x(outer, t) {
        outer.max_x - t.right
    } else {
        inner_min_x(outer, t)
    }
}

/// Bottom boundary of the inner rectangle, held back so that it never lies
/// above the top boundary.
pub open spec fn inner_max_y(outer: Area, t: ResolvedThickness) -> int {
    if outer.max_y - t.bottom > inner_min_y(outer, t) {
        outer.max_y - t.bottom
    } else {
        inner_min_y(outer, t)
    }
}

/// The rectangle that is left inside `outer` once the thicknesses are taken
/// off. Where opposite thicknesses add up to more than `outer` is wide or
/// high, it collapses to a line; it is never inverted.
pub open spec fn inner(outer: Area, t: ResolvedThickness) -> Area {
    Area {
        min_x: inner_min_x(outer, t),
        min_y: inner_min_y(outer, t),
        max_x: inner_max_x(outer, t),
        max_y: inner_max_y(outer, t),
    }
}

/// The rectangle carved out for one edge, before empty ones are dropped.
pub open spec fn candidate(outer: Area, t: ResolvedThickness, edge: Edge) -> Area {
    let hole = inner(outer, t);
    match edge {
        Edge::Left => Area {
            min_x: outer.min_x,
            min_y: outer.min_y,
            max_x: hole.min_x,
            max_y: outer.max_y,
        },
        Edge::Right => Area {
            min_x: hole.max_x,
            min_y: outer.min_y,
            max_x: outer.max_x,
            max_y: outer.max_y,
        },
        Edge::Top => Area {
            min_x: hole.min_x,
            min_y: outer.min_y,
            max_x: hole.max_x,
            max_y: hole.min_y,
        },
        Edge::Bottom => Area {
            min_x: hole.min_x,
            min_y: hole.max_y,
            max_x: hole.max_x,
            max_y: outer.max_y,
        },
    }
}

/// A rectangle is kept only if it covers some area.
pub open spec fn kept(a: Area) -> Option<Area> {
    if a.has_area() {
        Some(a)
    } else {
        None
    }
}

/// The four edge rectangles of the ring, in stored order.
pub open spec fn ring(outer: Area, t: ResolvedThickness) -> Seq<Option<Area>> {
    Seq::new(4, |i: int| kept(candidate(outer, t, Edge::at(i))))
}

/// Four edges without a rectangle.
pub open spec fn empty_ring() -> Seq<Option<Area>> {
    Seq::new(4, |i: int| None::<Area>)
}

/// What holds of every stored edge geometry: there are four entries, each
/// rectangle covers some area and lies within [`MAX_EDGE_COORD`] of the
/// origin, and no two rectangles overlap.
pub open spec fn well_formed(edges: Seq<Option<Area>>) -> bool {
    &&& edges.len() == 4
    &&& forall|i: int|
        0 <= i < 4 && (#[trigger] edges[i]) is Some ==> {
            &&& edges[i]->Some_0.has_area()
            &&& edges[i]->Some_0.within(MAX_EDGE_COORD as int)
        }
    &&& forall|i: int, j: int|
        0 <= i < 4 && 0 <= j < 4 && i != j && (#[trigger] edges[i]) is Some && (
        #[trigger] edges[j]) is Some ==> !edges[i]->Some_0.overlaps(edges[j]->Some_0)
}

/// The model of an optional rectangle.
pub open spec fn area_of(r: Option<Rect>) -> Option<Area> {
    match r {
        Some(r) => Some(r@),
        None => None,
    }
}

/// No two rectangles of a ring overlap, whatever the outer rectangle and
/// the thicknesses are.
pub proof fn lemma_ring_disjoint(outer: Area, t: ResolvedThickness, a: Edge, b: Edge)
    requires
        a != b,
    ensures
        !candidate(outer, t, a).overlaps(candidate(outer, t, b)),
{
}

/// Every rectangle of a ring covers some area, and no two of them overlap.
pub proof fn lemma_ring_well_formed(outer: Area, t: ResolvedThickness)
    requires
        outer.within(MAX_OUTER as int),
        t.in_range(),
    ensures
        well_formed(ring(outer, t)),
{
    let edges = ring(outer, t);
    assert forall|i: int, j: int|
        0 <= i < 4 && 0 <= j < 4 && i != j && (#[trigger] edges[i]) is Some && (
        #[trigger] edges[j]) is Some implies !edges[i]->Some_0.overlaps(edges[j]->Some_0) by {
        lemma_ring_disjoint(outer, t, Edge::at(i), Edge::at(j));
    }
}

/// Four edges without a rectangle are well formed.
pub proof fn lemma_empty_ring_well_formed()
    ensures
        well_formed(empty_ring()),
{
}

/// Where the left and right thicknesses together reach the width of the
/// outer rectangle, and the left one alone does not exceed it, the inner
/// rectangle has no width, and the left and right rectangles meet on one
/// line and together span the outer rectangle from side to side.
pub proof fn lemma_ring_collapses_x(outer: Area, t: ResolvedThickness)
    requires
        t.in_range(),
        outer.min_x <= outer.max_x,
        t.left + t.right >= outer.width(),
        t.left <= outer.width(),
    ensures
        inner(outer, t).width() == 0,
        candidate(outer, t, Edge::Left).min_x == outer.min_x,
        candidate(outer, t, Edge::Left).max_x == candidate(outer, t, Edge::Right).min_x,
        candidate(outer, t, Edge::Right).max_x == outer.max_x,
        outer.min_x <= candidate(outer, t, Edge::Left).max_x <= outer.max_x,
        candidate(outer, t, Edge::Left).width() + candidate(outer, t, Edge::Right).width()
            == outer.width(),
{
}

/// Where the top and bottom thicknesses together reach the height of the
/// outer rectangle, and the top one alone does not exceed it, the inner
/// rectangle has no height, and the spans of the top and bottom rectangles
/// meet on one line and together run from the top of the outer rectangle to
/// its bottom.
pub proof fn lemma_ring_collapses_y(outer: Area, t: ResolvedThickness)
    requires
        t.in_range(),
        outer.min_y <= outer.max_y,
        t.top + t.bottom >= outer.height(),
        t.top <= outer.height(),
    ensures
        inner(outer, t).height() == 0,
        candidate(outer, t, Edge::Top).min_y == outer.min_y,
        candidate(outer, t, Edge::Top).max_y == candidate(outer, t, Edge::Bottom).min_y,
        candidate(outer, t, Edge::Bottom).max_y == outer.max_y,
        outer.min_y <= candidate(outer, t, Edge::Top).max_y <= outer.max_y,
        candidate(outer, t, Edge::Top).height() + candidate(outer, t, Edge::Bottom).height()
            == outer.height(),
{
}

/// The four rectangles tile the ring. Where the left thickness is no more
/// than the width of the outer rectangle and the top thickness no more than
/// its height, a unit square lies in one of the four rectangles exactly if
/// it lies in the outer rectangle and not in the inner one.
pub proof fn lemma_ring_tiles(outer: Area, t: ResolvedThickness, x: int, y: int)
    requires
        t.in_range(),
        outer.min_x <= outer.max_x,
        outer.min_y <= outer.max_y,
        t.left <= outer.width(),
        t.top <= outer.height(),
    ensures
        ({
            let in_ring = outer.contains(x, y) && !inner(outer, t).contains(x, y);
            let in_left = candidate(outer, t, Edge::Left).contains(x, y);
            let in_right = candidate(outer, t, Edge::Right).contains(x, y);
            let in_top = candidate(outer, t, Edge::Top).contains(x, y);
            let in_bottom = candidate(outer, t, Edge::Bottom).contains(x, y);
            in_ring <==> (in_left || in_right || in_top || in_bottom)
        }),
{
}

/// Up to four edge rectangles of one node, in the order left, right, top,
/// bottom.
///
/// Every value is well formed in the sense of [`well_formed`]: a stored
/// rectangle covers some area, and no two stored rectangles overlap.
#[derive(Clone, Copy, Debug, PartialEq, Eq)]
pub struct EdgeGeometry {
    edges: [Option<Rect>; 4],
}

impl View for EdgeGeometry {
    type V = Seq<Option<Area>>;

    closed spec fn view(&self) -> Seq<Option<Area>> {
        Seq::new(4, |i: int| area_of(self.edges[i]))
    }
}

impl EdgeGeometry {
    #[verifier::type_invariant]
    closed spec fn inv(self) -> bool {
        well_formed(self@)
    }

    /// The geometry of a node none of whose edges is drawn.
    pub fn empty() -> (g: EdgeGeometry)
        ensures
            g@ == empty_ring(),
    {
        let g = EdgeGeometry { edges: [None, None, None, None] };
        assert(g@ =~= empty_ring());
        g
    }

    /// The rectangle of one edge, if it has one.
    pub fn get(&self, edge: Edge) -> (r: Option<Rect>)
        ensures
            area_of(r) == self@[edge.position()],
            well_formed(self@),
    {
        proof {
            use_type_invariant(self);
        }
        self.edges[edge.index()]
    }

    /// The four entries in stored order.
    pub fn to_array(&self) -> (a: [Option<Rect>; 4])
        ensures
            forall|i: int| 0 <= i < 4 ==> area_of(#[trigger] a[i]) == self@[i],
            well_formed(self@),
    {
        proof {
            use_type_invariant(self);
        }
        self.edges
    }
}

/// A geometry is known by its model: two geometries with the same model are
/// the same value.
pub proof fn lemma_geometry_determined(a: EdgeGeometry, b: EdgeGeometry)
    requires
        a@ == b@,
    ensures
        a == b,
{
    assert forall|i: int| 0 <= i < 4 implies a.edges[i] == b.edges[i] by {
        assert(area_of(a.edges[i]) == a@[i]);
        assert(area_of(b.edges[i]) == b@[i]);
        if a.edges[i] is Some {
            crate::math::lemma_rect_view_injective(a.edges[i]->Some_0, b.edges[i]->Some_0);
        }
    }
    assert(a.edges =~= b.edges);
}

/// Drops a rectangle that covers no area.
fn keep(r: Rect) -> (k: Option<Rect>)
    ensures
        area_of(k) == kept(r@),
{
    if r.has_area() {
        Some(r)
    } else {
        None
    }
}

/// Cuts the ring between `outer` and the rectangle left inside it into one
/// rectangle per edge.
pub fn edge_ring(outer: Rect, t: ResolvedThickness) -> (g: EdgeGeometry)
    requires
        outer@.within(MAX_OUTER as int),
        t.in_range(),
    ensures
        g@ == ring(outer@, t),
{
    let inner_min_x: i64 = outer.min.x + t.left;
    let inner_min_y: i64 = outer.min.y + t.top;
    let cut_x: i64 = outer.max.x - t.right;
    let cut_y: i64 = outer.max.y - t.bottom;
    let inner_max_x: i64 = if cut_x > inner_min_x {
        cut_x
    } else {
        inner_min_x
    };
    let inner_max_y: i64 = if cut_y > inner_min_y {
        cut_y
    } else {
        inner_min_y
    };
    let left = keep(
        Rect { min: outer.min, max: Vec2 { x: inner_min_x, y: outer.max.y } },
    );
    let right = keep(
        Rect { min: Vec2 { x: inner_max_x, y: outer.min.y }, max: outer.max },
    );
    let top = keep(
        Rect {
            min: Vec2 { x: inner_min_x, y: outer.min.y },
            max: Vec2 { x: inner_max_x, y: inner_min_y },
        },
    );
    let bottom = keep(
        Rect {
            min: Vec2 { x: inner_min_x, y: inner_max_y },
            max: Vec2 { x: inner_max_x, y: outer.max.y },
        },
    );
    let edges = [left, right, top, bottom];
    proof {
        lemma_ring_well_formed(outer@, t);
        assert(Seq::new(4, |i: int| area_of(edges[i])) =~= ring(outer@, t));
    }
    EdgeGeometry { edges }
}

} // verus!
