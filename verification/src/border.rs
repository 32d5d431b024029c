//! Borders: edge rectangles carved inwards from the boundary of a node's box.

use vstd::prelude::*;
use vstd::std_specs::convert::FromSpecImpl;
use crate::math::Area;
use crate::node::{Color, GlobalTransform, Node, Style};
use crate::ring::{
    candidate, edge_ring, empty_ring, inner, kept, lemma_empty_ring_well_formed,
    lemma_ring_collapses_x, lemma_ring_collapses_y, lemma_ring_well_formed, ring, well_formed,
    Edge, EdgeGeometry,
};
use crate::thickness::{
    lemma_resolved_edges_in_range, resolve_edges, resolved_edges, undeclared, UiRect,
};

verus! {

/// The colour of a node's border.
#[derive(Clone, Copy, Debug, PartialEq, Eq, Structural)]
pub struct BorderColor(pub Color);

/// The border geometry of a node as it was last computed.
#[derive(Clone, Copy, Debug, PartialEq, Eq)]
pub struct CalculatedBorder {
    /// The rectangles of the four edges.
    pub edges: EdgeGeometry,
}

/// What a node needs besides its layout to have its border drawn.
#[derive(Clone, Copy, Debug, PartialEq, Eq)]
pub struct BorderBundle {
    /// The colour of the node's border.
    pub border_color: BorderColor,
    /// The border geometry, kept up to date by [`crate::calculate_borders`].
    pub calculated_border: CalculatedBorder,
}

/// A plain container node with a border.
#[derive(Clone, Copy, Debug, PartialEq, Eq)]
pub struct BorderedNodeBundle {
    /// The size of the node's box.
    pub node: Node,
    /// The style, which declares the border's thickness.
    pub style: Style,
    /// The colour that fills the node.
    pub background_color: Color,
    /// Where the node stands on the screen.
    pub global_transform: GlobalTransform,
    /// Whether the node is to be drawn.
    pub visible: bool,
    /// The colour of the node's border.
    pub border_color: BorderColor,
    /// The border geometry, kept up to date by [`crate::calculate_borders`].
    pub calculated_border: CalculatedBorder,
}

/// The border of a node: the ring between its box and what the declared
/// thicknesses leave of it, or nothing at all for a collapsed box.
pub open spec fn border_ring(node: Node, border: UiRect, parent_width: i32) -> Seq<Option<Area>> {
    if node.is_collapsed() {
        empty_ring()
    } else {
        ring(node.area(), resolved_edges(border, parent_width))
    }
}

/// A box without positive width or height has no border on any edge.
pub proof fn lemma_collapsed_box_has_no_border(node: Node, border: UiRect, parent_width: i32)
    requires
        node.width <= 0 || node.height <= 0,
    ensures
        border_ring(node, border, parent_width) == empty_ring(),
        forall|i: int| 0 <= i < 4 ==> border_ring(node, border, parent_width)[i] is None,
{
}

/// The rectangles of a border each cover some area, and no two of them
/// overlap.
pub proof fn lemma_border_well_formed(node: Node, border: UiRect, parent_width: i32)
    ensures
        well_formed(border_ring(node, border, parent_width)),
{
    lemma_resolved_edges_in_range(border, parent_width);
    if node.is_collapsed() {
        lemma_empty_ring_well_formed();
    } else {
        lemma_ring_well_formed(node.area(), resolved_edges(border, parent_width));
    }
}

/// A border is drawn inwards: where the left border is no thicker than the
/// box is wide and the top border no thicker than the box is high, every
/// rectangle of the border lies inside the box.
pub proof fn lemma_border_inside_box(node: Node, border: UiRect, parent_width: i32)
    requires
        resolved_edges(border, parent_width).left <= node.area().width(),
        resolved_edges(border, parent_width).top <= node.area().height(),
    ensures
        forall|i: int|
            0 <= i < 4 && border_ring(node, border, parent_width)[i] is Some ==> (
            #[trigger] border_ring(node, border, parent_width)[i])->Some_0.inside(node.area()),
{
    lemma_resolved_edges_in_range(border, parent_width);
}

/// Where the left and right border together are at least as thick as the
/// box is wide, and the left border alone is no thicker than the box spans,
/// nothing is left between them: the inner rectangle has no width, and the
/// left and right rectangles meet on one line and span the box from side to
/// side without gap or overlap.
pub proof fn lemma_border_collapses_x(node: Node, border: UiRect, parent_width: i32)
    requires
        !node.is_collapsed(),
        resolved_edges(border, parent_width).left + resolved_edges(border, parent_width).right
            >= node.width,
        resolved_edges(border, parent_width).left <= node.area().width(),
    ensures
        ({
            let t = resolved_edges(border, parent_width);
            let left = candidate(node.area(), t, Edge::Left);
            let right = candidate(node.area(), t, Edge::Right);
            &&& inner(node.area(), t).width() == 0
            &&& left.min_x == node.area().min_x
            &&& left.max_x == right.min_x
            &&& right.max_x == node.area().max_x
            &&& left.width() + right.width() == node.area().width()
            &&& border_ring(node, border, parent_width)[0] == kept(left)
            &&& border_ring(node, border, parent_width)[1] == kept(right)
        }),
{
    lemma_resolved_edges_in_range(border, parent_width);
    lemma_ring_collapses_x(node.area(), resolved_edges(border, parent_width));
}

/// Where the top and bottom border together are at least as thick as the
/// box is high, and the top border alone is no thicker than the box spans,
/// nothing is left between them: the inner rectangle has no height, and the
/// spans of the top and bottom rectangles meet on one line and run from the
/// top of the box to its bottom without gap or overlap.
pub proof fn lemma_border_collapses_y(node: Node, border: UiRect, parent_width: i32)
    requires
        !node.is_collapsed(),
        resolved_edges(border, parent_width).top + resolved_edges(border, parent_width).bottom
            >= node.height,
        resolved_edges(border, parent_width).top <= node.area().height(),
    ensures
        ({
            let t = resolved_edges(border, parent_width);
            let top = candidate(node.area(), t, Edge::Top);
            let bottom = candidate(node.area(), t, Edge::Bottom);
            &&& inner(node.area(), t).height() == 0
            &&& top.min_y == node.area().min_y
            &&& top.max_y == bottom.min_y
            &&& bottom.max_y == node.area().max_y
            &&& top.height() + bottom.height() == node.area().height()
            &&& border_ring(node, border, parent_width)[2] == kept(top)
            &&& border_ring(node, border, parent_width)[3] == kept(bottom)
        }),
{
    lemma_resolved_edges_in_range(border, parent_width);
    lemma_ring_collapses_y(node.area(), resolved_edges(border, parent_width));
}

/// Computes the border geometry of one node.
///
/// `parent_width` is the width of the box of the node's parent, or zero
/// where the node has none.
pub fn border_edges(node: Node, border: UiRect, parent_width: i32) -> (b: CalculatedBorder)
    ensures
        b.edges@ == border_ring(node, border, parent_width),
        node.width <= 0 || node.height <= 0 ==> b.edges@ == empty_ring(),
        well_formed(b.edges@),
{
    proof {
        lemma_border_well_formed(node, border, parent_width);
    }
    if node.collapsed() {
        return CalculatedBorder { edges: EdgeGeometry::empty() };
    }
    let thickness = resolve_edges(border, parent_width);
    CalculatedBorder { edges: edge_ring(node.bounds(), thickness) }
}

impl FromSpecImpl<Color> for BorderColor {
    open spec fn obeys_from_spec() -> bool {
        true
    }

    open spec fn from_spec(color: Color) -> BorderColor {
        BorderColor(color)
    }
}

impl From<Color> for BorderColor {
    fn from(color: Color) -> (c: BorderColor) {
        BorderColor(color)
    }
}

impl Default for BorderColor {
    fn default() -> (c: BorderColor)
        ensures
            c.0 == Color::spec_white(),
    {
        BorderColor(Color::white())
    }
}

impl Default for CalculatedBorder {
    fn default() -> (b: CalculatedBorder)
        ensures
            b.edges@ == empty_ring(),
    {
        CalculatedBorder { edges: EdgeGeometry::empty() }
    }
}

impl BorderBundle {
    /// A border of the given colour whose geometry is yet to be computed.
    pub fn new(color: Color) -> (bundle: BorderBundle)
        ensures
            bundle.border_color == BorderColor(color),
            bundle.calculated_border.edges@ == empty_ring(),
    {
        BorderBundle {
            border_color: BorderColor(color),
            calculated_border: CalculatedBorder::default(),
        }
    }
}

impl Default for BorderBundle {
    fn default() -> (bundle: BorderBundle)
        ensures
            bundle.border_color == BorderColor(Color::spec_white()),
            bundle.calculated_border.edges@ == empty_ring(),
    {
        BorderBundle {
            border_color: BorderColor::default(),
            calculated_border: CalculatedBorder::default(),
        }
    }
}

impl Default for BorderedNodeBundle {
    /// A node of no size at the origin, not yet visible, with a transparent
    /// background and a white border of undeclared thickness.
    fn default() -> (bundle: BorderedNodeBundle)
        ensures
            bundle.node == (Node { width: 0, height: 0 }),
            bundle.style.border == undeclared(),
            bundle.background_color == Color::spec_none(),
            bundle.global_transform == (GlobalTransform { x: 0, y: 0 }),
            !bundle.visible,
            bundle.border_color == BorderColor(Color::spec_white()),
            bundle.calculated_border.edges@ == empty_ring(),
    {
        BorderedNodeBundle {
            background_color: Color::none(),
            node: Node::default(),
            style: Style::default(),
            global_transform: GlobalTransform::default(),
            visible: false,
            border_color: BorderColor::from(Color::white()),
            calculated_border: CalculatedBorder::default(),
        }
    }
}

} // verus!
