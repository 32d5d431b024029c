//! Edge thickness: how it is declared, and how it turns into a length.

use vstd::prelude::*;

verus! {

/// The largest length a thickness can resolve to.
///
/// A fixed thickness is at most `u32::MAX`, and a percentage of a parent
/// width is at most `i32::MAX * u32::MAX / 100`; both stay below this limit.
pub const MAX_THICKNESS: i64 = 0x0200_0000_0000_0000;

/// The declared thickness of one edge.
#[derive(Clone, Copy, Debug, PartialEq, Eq, Structural)]
pub enum Val {
    /// Nothing was declared; the edge has no thickness.
    Undefined,
    /// Left to the layout; the edge has no thickness.
    Auto,
    /// A fixed length.
    Px(u32),
    /// Hundredths of the width of the parent's box.
    Percent(u32),
}

/// The declared thickness of the four edges of a box.
#[derive(Clone, Copy, Debug, PartialEq, Eq, Structural)]
pub struct UiRect {
    pub left: Val,
    pub right: Val,
    pub top: Val,
    pub bottom: Val,
}

/// The thickness of the four edges as lengths, none of them negative.
#[derive(Clone, Copy, Debug, PartialEq, Eq, Structural)]
pub struct ResolvedThickness {
    pub left: i64,
    pub right: i64,
    pub top: i64,
    pub bottom: i64,
}

/// The length that a declared thickness stands for beside a parent of the
/// given width. A parent that is missing counts as one of width zero, and so
/// does one whose width is not positive.
pub open spec fn resolved(value: Val, parent_width: int) -> int {
    match value {
        Val::Undefined => 0,
        Val::Auto => 0,
        Val::Px(px) => px as int,
        Val::Percent(percent) => if parent_width <= 0 {
            0
        } else {
            parent_width * (percent as int) / 100
        },
    }
}

/// The declaration that leaves all four edges undeclared.
pub open spec fn undeclared() -> UiRect {
    UiRect {
        left: Val::Undefined,
        right: Val::Undefined,
        top: Val::Undefined,
        bottom: Val::Undefined,
    }
}

/// The four lengths that a declaration stands for.
pub open spec fn resolved_edges(edges: UiRect, parent_width: i32) -> ResolvedThickness {
    ResolvedThickness {
        left: resolved(edges.left, parent_width as int) as i64,
        right: resolved(edges.right, parent_width as int) as i64,
        top: resolved(edges.top, parent_width as int) as i64,
        bottom: resolved(edges.bottom, parent_width as int) as i64,
    }
}

impl ResolvedThickness {
    /// No length is negative and none exceeds [`MAX_THICKNESS`].
    pub open spec fn in_range(self) -> bool {
        &&& 0 <= self.left <= MAX_THICKNESS
        &&& 0 <= self.right <= MAX_THICKNESS
        &&& 0 <= self.top <= MAX_THICKNESS
        &&& 0 <= self.bottom <= MAX_THICKNESS
    }
}

/// A resolved length is never negative and never above [`MAX_THICKNESS`],
/// whatever was declared and whatever the parent's width.
pub proof fn lemma_resolved_range(value: Val, parent_width: int)
    requires
        parent_width <= i32::MAX,
    ensures
        0 <= resolved(value, parent_width) <= MAX_THICKNESS,
{
    match value {
        Val::Percent(percent) => {
            if parent_width > 0 {
                let p = percent as int;
                assert(0 <= parent_width * p <= 0x7fff_ffff * 0xffff_ffff) by (nonlinear_arith)
                    requires
                        0 < parent_width <= 0x7fff_ffff,
                        0 <= p <= 0xffff_ffff,
                ;
            }
        },
        _ => {},
    }
}

/// The four resolved lengths are the resolved lengths of the four
/// declarations, and all of them are in range.
pub proof fn lemma_resolved_edges_in_range(edges: UiRect, parent_width: i32)
    ensures
        resolved_edges(edges, parent_width).in_range(),
        resolved_edges(edges, parent_width).left == resolved(edges.left, parent_width as int),
        resolved_edges(edges, parent_width).right == resolved(edges.right, parent_width as int),
        resolved_edges(edges, parent_width).top == resolved(edges.top, parent_width as int),
        resolved_edges(edges, parent_width).bottom == resolved(edges.bottom, parent_width as int),
{
    lemma_resolved_range(edges.left, parent_width as int);
    lemma_resolved_range(edges.right, parent_width as int);
    lemma_resolved_range(edges.top, parent_width as int);
    lemma_resolved_range(edges.bottom, parent_width as int);
}

/// A percentage resolves to that many hundredths of the parent's width,
/// rounded down.
pub proof fn lemma_percent_of_parent_width(percent: u32, parent_width: int)
    requires
        parent_width >= 0,
    ensures
        resolved(Val::Percent(percent), parent_width) == parent_width * percent / 100,
{
    if parent_width == 0 {
        assert(parent_width * percent == 0) by (nonlinear_arith)
            requires
                parent_width == 0,
        ;
    }
}

impl Default for Val {
    fn default() -> (v: Val)
        ensures
            v == Val::Undefined,
    {
        Val::Undefined
    }
}

impl UiRect {
    /// Declares each edge on its own.
    pub fn new(left: Val, right: Val, top: Val, bottom: Val) -> (r: UiRect)
        ensures
            r == (UiRect { left, right, top, bottom }),
    {
        UiRect { left, right, top, bottom }
    }

    /// Declares the same thickness for all four edges.
    pub fn all(value: Val) -> (r: UiRect)
        ensures
            r == (UiRect { left: value, right: value, top: value, bottom: value }),
    {
        UiRect { left: value, right: value, top: value, bottom: value }
    }
}

impl Default for UiRect {
    fn default() -> (r: UiRect)
        ensures
            r == undeclared(),
    {
        UiRect {
            left: Val::Undefined,
            right: Val::Undefined,
            top: Val::Undefined,
            bottom: Val::Undefined,
        }
    }
}

/// Turns a declared thickness into a length.
///
/// `parent_width` is the width of the parent's box, or zero for a node
/// without a parent: a percentage on such a node resolves to zero.
pub fn resolve_thickness(value: Val, parent_width: i32) -> (length: i64)
    ensures
        length == resolved(value, parent_width as int),
        0 <= length <= MAX_THICKNESS,
{
    proof {
        lemma_resolved_range(value, parent_width as int);
    }
    match value {
        Val::Undefined => 0,
        Val::Auto => 0,
        Val::Px(px) => px as i64,
        Val::Percent(percent) => {
            if parent_width <= 0 {
                0
            } else {
                let width: i64 = parent_width as i64;
                let hundredths: i64 = percent as i64;
                assert(0 <= width * hundredths <= 0x7fff_ffff * 0xffff_ffff) by (nonlinear_arith)
                    requires
                        0 < width <= 0x7fff_ffff,
                        0 <= hundredths <= 0xffff_ffff,
                ;
                width * hundredths / 100
            }
        },
    }
}

/// Resolves the four edges of a declaration against one parent width.
pub fn resolve_edges(edges: UiRect, parent_width: i32) -> (t: ResolvedThickness)
    ensures
        t == resolved_edges(edges, parent_width),
        t.in_range(),
{
    proof {
        lemma_resolved_edges_in_range(edges, parent_width);
    }
    ResolvedThickness {
        left: resolve_thickness(edges.left, parent_width),
        right: resolve_thickness(edges.right, parent_width),
        top: resolve_thickness(edges.top, parent_width),
        bottom: resolve_thickness(edges.bottom, parent_width),
    }
}

} // verus!
