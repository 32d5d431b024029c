//! Outlines: edge rectangles laid outwards around a node's box. An outline
//! takes no room in the layout; it is drawn beyond the box.

use vstd::prelude::*;
use vstd::std_specs::convert::FromSpecImpl;
use crate::border::{BorderColor, CalculatedBorder};
use crate::math::{Area, Rect, Vec2};
use crate::node::{Color, GlobalTransform, Node, Style};
use crate::ring::{
    candidate, edge_ring, empty_ring, inner, lemma_empty_ring_well_formed,
    lemma_ring_well_formed, ring, well_formed, Edge, EdgeGeometry,
};
use crate::thickness::{
    lemma_resolved_edges_in_range, resolve_edges, resolved_edges, undeclared, ResolvedThickness,
    UiRect, Val,
};

verus! {

/// The declared thickness of the four edges of a node's outline.
#[derive(Clone, Copy, Debug, PartialEq, Eq, Structural)]
pub struct Outline(pub UiRect);

/// The colour of a node's outline.
#[derive(Clone, Copy, Debug, PartialEq, Eq, Structural)]
pub struct OutlineColor(pub Color);

/// The outline geometry of a node as it was last computed.
#[derive(Clone, Copy, Debug, PartialEq, Eq)]
pub struct CalculatedOutline {
    /// The rectangles of the four edges.
    pub edges: EdgeGeometry,
}

/// What a node needs besides its layout to have its outline drawn.
#[derive(Clone, Copy, Debug, PartialEq, Eq)]
pub struct OutlineBundle {
    /// The declared thickness of the four edges.
    pub outline: Outline,
    /// The colour of the outline.
    pub outline_color: OutlineColor,
    /// The outline geometry, kept up to date by [`crate::calculate_outlines`].
    pub calculated_outline: CalculatedOutline,
}

/// A plain container node with a border and an outline.
#[derive(Clone, Copy, Debug, PartialEq, Eq)]
pub struct OutlinedNodeBundle {
    /// The size of the node's box.
    pub node: Node,
    /// The style, which declares the border's thickness.
    pub style: Style,
    /// The colour that fills the node.
    pub background_color: Color,
    /// Where the node stands on the screen.
    pub global_transform: GlobalTransform,
    /// Whether the node is to be drawn.
    pub visible: bool,
    /// The colour of the node's border.
    pub border_color: BorderColor,
    /// The border geometry, kept up to date by [`crate::calculate_borders`].
    pub calculated_border: CalculatedBorder,
    /// The declared thickness of the four edges of the outline.
    pub outline: Outline,
    /// The colour of the outline.
    pub outline_color: OutlineColor,
    /// The outline geometry, kept up to date by [`crate::calculate_outlines`].
    pub calculated_outline: CalculatedOutline,
}

/// The box of a node grown on each side by the thickness of that side's
/// outline.
pub open spec fn outline_area(node: Node, t: ResolvedThickness) -> Area {
    Area {
        min_x: -(node.half_width() + t.left),
        min_y: -(node.half_height() + t.top),
        max_x: node.half_width() + t.right,
        max_y: node.half_height() + t.bottom,
    }
}

/// The outline of a node: the ring between its grown box and the box
/// itself, or nothing at all for a collapsed box.
pub open spec fn outline_ring(node: Node, outline: UiRect, parent_width: i32) -> Seq<
    Option<Area>,
> {
    if node.is_collapsed() {
        empty_ring()
    } else {
        let t = resolved_edges(outline, parent_width);
        ring(outline_area(node, t), t)
    }
}

/// A box without positive width or height has no outline on any edge.
pub proof fn lemma_collapsed_box_has_no_outline(node: Node, outline: UiRect, parent_width: i32)
    requires
        node.width <= 0 || node.height <= 0,
    ensures
        outline_ring(node, outline, parent_width) == empty_ring(),
        forall|i: int| 0 <= i < 4 ==> outline_ring(node, outline, parent_width)[i] is None,
{
}

/// The rectangles of an outline each cover some area, and no two of them
/// overlap.
pub proof fn lemma_outline_well_formed(node: Node, outline: UiRect, parent_width: i32)
    ensures
        well_formed(outline_ring(node, outline, parent_width)),
{
    lemma_resolved_edges_in_range(outline, parent_width);
    if node.is_collapsed() {
        lemma_empty_ring_well_formed();
    } else {
        let t = resolved_edges(outline, parent_width);
        lemma_ring_well_formed(outline_area(node, t), t);
    }
}

/// An outline surrounds the box and stays out of it: what the ring leaves
/// free is the box itself, each edge is as thick as was resolved for it, and
/// no rectangle of the outline overlaps the box.
pub proof fn lemma_outline_surrounds_box(node: Node, outline: UiRect, parent_width: i32)
    requires
        !node.is_collapsed(),
    ensures
        ({
            let t = resolved_edges(outline, parent_width);
            let outer = outline_area(node, t);
            &&& inner(outer, t) == node.area()
            &&& candidate(outer, t, Edge::Left).width() == t.left
            &&& candidate(outer, t, Edge::Right).width() == t.right
            &&& candidate(outer, t, Edge::Top).height() == t.top
            &&& candidate(outer, t, Edge::Bottom).height() == t.bottom
            &&& forall|i: int|
                0 <= i < 4 ==> !(#[trigger] candidate(outer, t, Edge::at(i))).overlaps(node.area())
        }),
{
    lemma_resolved_edges_in_range(outline, parent_width);
}

/// Computes the outline geometry of one node.
///
/// `parent_width` is the width of the box of the node's parent, or zero
/// where the node has none.
pub fn outline_edges(node: Node, outline: Outline, parent_width: i32) -> (o: CalculatedOutline)
    ensures
        o.edges@ == outline_ring(node, outline.0, parent_width),
        node.width <= 0 || node.height <= 0 ==> o.edges@ == empty_ring(),
        well_formed(o.edges@),
{
    proof {
        lemma_outline_well_formed(node, outline.0, parent_width);
    }
    if node.collapsed() {
        return CalculatedOutline { edges: EdgeGeometry::empty() };
    }
    let t = resolve_edges(outline.0, parent_width);
    let half = node.half_size();
    let outer = Rect {
        min: Vec2 { x: -(half.x + t.left), y: -(half.y + t.top) },
        max: Vec2 { x: half.x + t.right, y: half.y + t.bottom },
    };
    CalculatedOutline { edges: edge_ring(outer, t) }
}

impl Outline {
    /// An outline of the same thickness on all four edges.
    pub fn all(thickness: Val) -> (outline: Outline)
        ensures
            outline.0 == (UiRect {
                left: thickness,
                right: thickness,
                top: thickness,
                bottom: thickness,
            }),
    {
        Outline(UiRect::all(thickness))
    }
}

impl FromSpecImpl<UiRect> for Outline {
    open spec fn obeys_from_spec() -> bool {
        true
    }

    open spec fn from_spec(value: UiRect) -> Outline {
        Outline(value)
    }
}

impl From<UiRect> for Outline {
    fn from(value: UiRect) -> (outline: Outline) {
        Outline(value)
    }
}

impl Default for Outline {
    fn default() -> (outline: Outline)
        ensures
            outline.0 == undeclared(),
    {
        Outline(UiRect::default())
    }
}

impl FromSpecImpl<Color> for OutlineColor {
    open spec fn obeys_from_spec() -> bool {
        true
    }

    open spec fn from_spec(color: Color) -> OutlineColor {
        OutlineColor(color)
    }
}

impl From<Color> for OutlineColor {
    fn from(color: Color) -> (c: OutlineColor) {
        OutlineColor(color)
    }
}

impl Default for OutlineColor {
    fn default() -> (c: OutlineColor)
        ensures
            c.0 == Color::spec_white(),
    {
        OutlineColor(Color::white())
    }
}

impl Default for CalculatedOutline {
    fn default() -> (o: CalculatedOutline)
        ensures
            o.edges@ == empty_ring(),
    {
        CalculatedOutline { edges: EdgeGeometry::empty() }
    }
}

impl OutlineBundle {
    /// An outline of the given thicknesses and colour whose geometry is yet
    /// to be computed.
    pub fn new(edges: UiRect, color: Color) -> (bundle: OutlineBundle)
        ensures
            bundle.outline == Outline(edges),
            bundle.outline_color == OutlineColor(color),
            bundle.calculated_outline.edges@ == empty_ring(),
    {
        OutlineBundle {
            outline: Outline::from(edges),
            outline_color: OutlineColor(color),
            calculated_outline: CalculatedOutline::default(),
        }
    }
}

impl Default for OutlineBundle {
    fn default() -> (bundle: OutlineBundle)
        ensures
            bundle.outline == Outline(undeclared()),
            bundle.outline_color == OutlineColor(Color::spec_white()),
            bundle.calculated_outline.edges@ == empty_ring(),
    {
        OutlineBundle {
            outline: Outline::default(),
            outline_color: OutlineColor::default(),
            calculated_outline: CalculatedOutline::default(),
        }
    }
}

impl Default for OutlinedNodeBundle {
    /// A node of no size at the origin, not yet visible, with a transparent
    /// background, a white border of undeclared thickness and a white
    /// outline of undeclared thickness.
    fn default() -> (bundle: OutlinedNodeBundle)
        ensures
            bundle.node == (Node { width: 0, height: 0 }),
            bundle.style.border == undeclared(),
            bundle.background_color == Color::spec_none(),
            bundle.global_transform == (GlobalTransform { x: 0, y: 0 }),
            !bundle.visible,
            bundle.border_color == BorderColor(Color::spec_white()),
            bundle.calculated_border.edges@ == empty_ring(),
            bundle.outline == Outline(undeclared()),
            bundle.outline_color == OutlineColor(Color::spec_white()),
            bundle.calculated_outline.edges@ == empty_ring(),
    {
        OutlinedNodeBundle {
            background_color: Color::none(),
            node: Node::default(),
            style: Style::default(),
            global_transform: GlobalTransform::default(),
            visible: false,
            border_color: BorderColor::from(Color::white()),
            calculated_border: CalculatedBorder::default(),
            outline: Outline::default(),
            outline_color: OutlineColor::default(),
            calculated_outline: CalculatedOutline::default(),
        }
    }
}

} // verus!
