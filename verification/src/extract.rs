//! Turning edge geometry into what the renderer draws: one rectangle per
//! edge of every visible node, in paint order.
//!
//! Extraction walks the paint-order stack once. An entry that names no node,
//! a node without the decoration, a node that is not visible and a node
//! whose colour is fully transparent each contribute nothing.

use vstd::prelude::*;
use crate::math::{Area, Rect, Vec2};
use crate::node::{Color, GlobalTransform};
use crate::ring::{area_of, well_formed, EdgeGeometry};
use crate::tree::UiNode;

verus! {

/// One solid rectangle for the renderer to draw.
#[derive(Clone, Copy, Debug, PartialEq, Eq, Structural)]
pub struct ExtractedUiNode {
    /// The position in the paint-order stack of the node it belongs to.
    pub stack_index: usize,
    /// The rectangle on the screen: the edge rectangle moved to where the
    /// node stands.
    pub rect: Rect,
    /// The colour that fills the rectangle.
    pub color: Color,
    /// The node's clip rectangle, outside which nothing is drawn.
    pub clip: Option<Rect>,
}

/// The model of an [`ExtractedUiNode`].
pub struct Primitive {
    pub stack_index: int,
    pub area: Area,
    pub color: Color,
    pub clip: Option<Area>,
}

/// The two decorations of a node that are drawn edge by edge.
#[derive(Clone, Copy, Debug, PartialEq, Eq, Structural)]
pub enum Decoration {
    Border,
    Outline,
}

impl View for ExtractedUiNode {
    type V = Primitive;

    open spec fn view(&self) -> Primitive {
        Primitive {
            stack_index: self.stack_index as int,
            area: self.rect@,
            color: self.color,
            clip: area_of(self.clip),
        }
    }
}

/// The models of a list of extracted rectangles, in the same order.
pub open spec fn primitives(list: Seq<ExtractedUiNode>) -> Seq<Primitive> {
    Seq::new(list.len(), |i: int| list[i]@)
}

/// An extracted rectangle is known by its model: two with the same model
/// are the same value.
pub proof fn lemma_extracted_determined(a: ExtractedUiNode, b: ExtractedUiNode)
    requires
        a@ == b@,
    ensures
        a == b,
{
    crate::math::lemma_rect_view_injective(a.rect, b.rect);
    if a.clip is Some {
        crate::math::lemma_rect_view_injective(a.clip->Some_0, b.clip->Some_0);
    }
}

/// The colour and the edge rectangles of one decoration of a node, where the
/// node has that decoration.
pub open spec fn paint(node: UiNode, which: Decoration) -> Option<(Color, Seq<Option<Area>>)> {
    match which {
        Decoration::Border => match node.border {
            Some(b) => Some((b.border_color.0, b.calculated_border.edges@)),
            None => None,
        },
        Decoration::Outline => match node.outline {
            Some(o) => Some((o.outline_color.0, o.calculated_outline.edges@)),
            None => None,
        },
    }
}

/// What is drawn for one edge rectangle of a node.
pub open spec fn edge_primitive(
    stack_index: int,
    at: GlobalTransform,
    clip: Option<Rect>,
    color: Color,
    edge: Area,
) -> Primitive {
    Primitive {
        stack_index,
        area: edge.moved(at.x as int, at.y as int),
        color,
        clip: area_of(clip),
    }
}

/// What is drawn for the first `n` edges of a node, in stored order.
pub open spec fn edge_primitives(
    stack_index: int,
    at: GlobalTransform,
    clip: Option<Rect>,
    color: Color,
    edges: Seq<Option<Area>>,
    n: int,
) -> Seq<Primitive>
    decreases n,
{
    if n <= 0 {
        Seq::empty()
    } else {
        let before = edge_primitives(stack_index, at, clip, color, edges, n - 1);
        match edges[n - 1] {
            Some(edge) => before.push(edge_primitive(stack_index, at, clip, color, edge)),
            None => before,
        }
    }
}

/// What is drawn for one decoration of a node that stands at `stack_index`
/// in the paint order: nothing if the node lacks the decoration, is not
/// visible, or has a fully transparent colour; else one rectangle for each
/// edge that has one, in the order left, right, top, bottom.
pub open spec fn node_primitives(stack_index: int, node: UiNode, which: Decoration) -> Seq<
    Primitive,
> {
    match paint(node, which) {
        Some((color, edges)) => if node.visible && color.alpha != 0 {
            edge_primitives(stack_index, node.global_transform, node.clip, color, edges, 4)
        } else {
            Seq::empty()
        },
        None => Seq::empty(),
    }
}

/// What is drawn for entry `k` of the paint-order stack: nothing if the
/// entry names no node.
pub open spec fn entry_primitives(
    stack: Seq<usize>,
    nodes: Seq<UiNode>,
    which: Decoration,
    k: int,
) -> Seq<Primitive> {
    if stack[k] < nodes.len() {
        node_primitives(k, nodes[stack[k] as int], which)
    } else {
        Seq::empty()
    }
}

/// What is drawn for the first `n` entries of the paint-order stack, entry
/// by entry in the order of the stack.
pub open spec fn stack_primitives(
    stack: Seq<usize>,
    nodes: Seq<UiNode>,
    which: Decoration,
    n: int,
) -> Seq<Primitive>
    decreases n,
{
    if n <= 0 {
        Seq::empty()
    } else {
        stack_primitives(stack, nodes, which, n - 1) + entry_primitives(stack, nodes, which, n - 1)
    }
}

/// A node that is not visible, and a node whose colour has an alpha of
/// zero, is not drawn, whatever its geometry.
pub proof fn lemma_hidden_node_draws_nothing(stack_index: int, node: UiNode, which: Decoration)
    requires
        !node.visible || (paint(node, which) is Some && paint(node, which)->Some_0.0.alpha == 0),
    ensures
        node_primitives(stack_index, node, which).len() == 0,
{
}

/// A node contributes at most one rectangle per edge, each carrying the
/// node's position in the stack, its colour and its clip rectangle.
pub proof fn lemma_edge_primitives(
    stack_index: int,
    at: GlobalTransform,
    clip: Option<Rect>,
    color: Color,
    edges: Seq<Option<Area>>,
    n: int,
)
    ensures
        edge_primitives(stack_index, at, clip, color, edges, n).len() <= (if n <= 0 {
            0
        } else {
            n
        }),
        forall|i: int|
            0 <= i < edge_primitives(stack_index, at, clip, color, edges, n).len() ==> {
                let p = #[trigger] edge_primitives(stack_index, at, clip, color, edges, n)[i];
                &&& p.stack_index == stack_index
                &&& p.color == color
                &&& p.clip == area_of(clip)
            },
    decreases n,
{
    if n > 0 {
        lemma_edge_primitives(stack_index, at, clip, color, edges, n - 1);
    }
}

/// The rectangles of one node come in the order left, right, top, bottom:
/// a node all four of whose edges have a rectangle draws exactly these four,
/// in that order.
pub proof fn lemma_edge_order(
    stack_index: int,
    at: GlobalTransform,
    clip: Option<Rect>,
    color: Color,
    edges: Seq<Option<Area>>,
)
    requires
        edges.len() == 4,
        forall|i: int| 0 <= i < 4 ==> (#[trigger] edges[i]) is Some,
    ensures
        edge_primitives(stack_index, at, clip, color, edges, 4) == seq![
            edge_primitive(stack_index, at, clip, color, edges[0]->Some_0),
            edge_primitive(stack_index, at, clip, color, edges[1]->Some_0),
            edge_primitive(stack_index, at, clip, color, edges[2]->Some_0),
            edge_primitive(stack_index, at, clip, color, edges[3]->Some_0),
        ],
{
    reveal_with_fuel(edge_primitives, 5);
    assert(edges[0] is Some && edges[1] is Some && edges[2] is Some && edges[3] is Some);
    assert(edge_primitives(stack_index, at, clip, color, edges, 4) =~= seq![
        edge_primitive(stack_index, at, clip, color, edges[0]->Some_0),
        edge_primitive(stack_index, at, clip, color, edges[1]->Some_0),
        edge_primitive(stack_index, at, clip, color, edges[2]->Some_0),
        edge_primitive(stack_index, at, clip, color, edges[3]->Some_0),
    ]);
}

/// Everything drawn for one entry of the stack carries that entry's
/// position, and there are at most four such rectangles.
pub proof fn lemma_entry_primitives(
    stack: Seq<usize>,
    nodes: Seq<UiNode>,
    which: Decoration,
    k: int,
)
    ensures
        entry_primitives(stack, nodes, which, k).len() <= 4,
        forall|i: int|
            0 <= i < entry_primitives(stack, nodes, which, k).len() ==> (
            #[trigger] entry_primitives(stack, nodes, which, k)[i]).stack_index == k,
{
    if stack[k] < nodes.len() {
        let node = nodes[stack[k] as int];
        match paint(node, which) {
            Some((color, edges)) => {
                lemma_edge_primitives(k, node.global_transform, node.clip, color, edges, 4);
            },
            None => {},
        }
    }
}

/// The output keeps the order of the stack: every rectangle belongs to one
/// of the entries walked, and a rectangle never comes before one of an
/// earlier entry.
pub proof fn lemma_stack_order_kept(
    stack: Seq<usize>,
    nodes: Seq<UiNode>,
    which: Decoration,
    n: int,
)
    ensures
        forall|i: int|
            0 <= i < stack_primitives(stack, nodes, which, n).len() ==> 0 <= (
            #[trigger] stack_primitives(stack, nodes, which, n)[i]).stack_index < n,
        forall|i: int, j: int|
            0 <= i <= j < stack_primitives(stack, nodes, which, n).len() ==> (
            #[trigger] stack_primitives(stack, nodes, which, n)[i]).stack_index <= (
            #[trigger] stack_primitives(stack, nodes, which, n)[j]).stack_index,
    decreases n,
{
    if n > 0 {
        lemma_stack_order_kept(stack, nodes, which, n - 1);
        lemma_entry_primitives(stack, nodes, which, n - 1);
    }
}

/// A stack none of whose nodes is both visible and painted in a colour with
/// some alpha draws nothing.
pub proof fn lemma_hidden_stack_draws_nothing(
    stack: Seq<usize>,
    nodes: Seq<UiNode>,
    which: Decoration,
    n: int,
)
    requires
        forall|i: int|
            0 <= i < nodes.len() ==> !(#[trigger] nodes[i]).visible || (paint(nodes[i], which)
                is Some && paint(nodes[i], which)->Some_0.0.alpha == 0),
    ensures
        stack_primitives(stack, nodes, which, n).len() == 0,
    decreases n,
{
    if n > 0 {
        lemma_hidden_stack_draws_nothing(stack, nodes, which, n - 1);
        if stack[n - 1] < nodes.len() {
            lemma_hidden_node_draws_nothing(n - 1, nodes[stack[n - 1] as int], which);
        }
    }
}

/// The colour and the edge geometry of one decoration of a node, where the
/// node has that decoration.
fn decoration_of(node: &UiNode, which: Decoration) -> (found: Option<(Color, EdgeGeometry)>)
    ensures
        match found {
            Some((color, geometry)) => paint(*node, which) == Some((color, geometry@)),
            None => paint(*node, which) is None,
        },
{
    match which {
        Decoration::Border => match node.border {
            Some(b) => Some((b.border_color.0, b.calculated_border.edges)),
            None => None,
        },
        Decoration::Outline => match node.outline {
            Some(o) => Some((o.outline_color.0, o.calculated_outline.edges)),
            None => None,
        },
    }
}

/// Appends what is drawn for the edges of one node.
fn push_edges(
    extracted: &mut Vec<ExtractedUiNode>,
    stack_index: usize,
    at: GlobalTransform,
    clip: Option<Rect>,
    color: Color,
    geometry: &EdgeGeometry,
)
    ensures
        primitives(final(extracted)@) == primitives(old(extracted)@) + edge_primitives(
            stack_index as int,
            at,
            clip,
            color,
            geometry@,
            4,
        ),
{
    let edges = geometry.to_array();
    let dx: i64 = at.x as i64;
    let dy: i64 = at.y as i64;
    let mut k: usize = 0;
    assert(primitives(extracted@) =~= primitives(old(extracted)@) + Seq::<Primitive>::empty());
    while k < 4
        invariant
            k <= 4,
            dx == at.x,
            dy == at.y,
            well_formed(geometry@),
            forall|i: int| 0 <= i < 4 ==> area_of(#[trigger] edges[i]) == geometry@[i],
            primitives(extracted@) == primitives(old(extracted)@) + edge_primitives(
                stack_index as int,
                at,
                clip,
                color,
                geometry@,
                k as int,
            ),
        decreases 4 - k,
    {
        let ghost before = extracted@;
        match edges[k] {
            Some(edge) => {
                let placed = ExtractedUiNode {
                    stack_index,
                    rect: Rect {
                        min: Vec2 { x: edge.min.x + dx, y: edge.min.y + dy },
                        max: Vec2 { x: edge.max.x + dx, y: edge.max.y + dy },
                    },
                    color,
                    clip,
                };
                extracted.push(placed);
                assert(primitives(extracted@) =~= primitives(before).push(placed@));
                assert(primitives(extracted@) =~= primitives(old(extracted)@) + edge_primitives(
                    stack_index as int,
                    at,
                    clip,
                    color,
                    geometry@,
                    k as int + 1,
                ));
            },
            None => {},
        }
        k += 1;
    }
}

/// Appends to `extracted` what is drawn for one decoration of the nodes
/// named by the paint-order stack, in the order of the stack.
pub fn extract_edges(
    extracted: &mut Vec<ExtractedUiNode>,
    ui_stack: &Vec<usize>,
    nodes: &Vec<UiNode>,
    which: Decoration,
)
    ensures
        primitives(final(extracted)@) == primitives(old(extracted)@) + stack_primitives(
            ui_stack@,
            nodes@,
            which,
            ui_stack@.len() as int,
        ),
{
    let count = ui_stack.len();
    let mut k: usize = 0;
    assert(primitives(extracted@) =~= primitives(old(extracted)@) + Seq::<Primitive>::empty());
    while k < count
        invariant
            k <= count,
            count == ui_stack@.len(),
            primitives(extracted@) == primitives(old(extracted)@) + stack_primitives(
                ui_stack@,
                nodes@,
                which,
                k as int,
            ),
        decreases count - k,
    {
        let ghost before = primitives(extracted@);
        let entity = ui_stack[k];
        if entity < nodes.len() {
            let node = &nodes[entity];
            match decoration_of(node, which) {
                Some((color, geometry)) => {
                    if node.visible && color.a() != 0 {
                        push_edges(
                            extracted,
                            k,
                            node.global_transform,
                            node.clip,
                            color,
                            &geometry,
                        );
                    }
                },
                None => {},
            }
        }
        assert(primitives(extracted@) =~= before + entry_primitives(
            ui_stack@,
            nodes@,
            which,
            k as int,
        ));
        assert(primitives(extracted@) =~= primitives(old(extracted)@) + stack_primitives(
            ui_stack@,
            nodes@,
            which,
            k as int + 1,
        ));
        k += 1;
    }
}

/// Appends to `extracted` the border rectangles of the nodes named by the
/// paint-order stack, in the order of the stack and, for each node, in the
/// order left, right, top, bottom.
pub fn extract_uinode_borders(
    extracted: &mut Vec<ExtractedUiNode>,
    ui_stack: &Vec<usize>,
    nodes: &Vec<UiNode>,
)
    ensures
        primitives(final(extracted)@) == primitives(old(extracted)@) + stack_primitives(
            ui_stack@,
            nodes@,
            Decoration::Border,
            ui_stack@.len() as int,
        ),
{
    extract_edges(extracted, ui_stack, nodes, Decoration::Border)
}

/// Appends to `extracted` the outline rectangles of the nodes named by the
/// paint-order stack, in the order of the stack and, for each node, in the
/// order left, right, top, bottom.
pub fn extract_uinode_outlines(
    extracted: &mut Vec<ExtractedUiNode>,
    ui_stack: &Vec<usize>,
    nodes: &Vec<UiNode>,
)
    ensures
        primitives(final(extracted)@) == primitives(old(extracted)@) + stack_primitives(
            ui_stack@,
            nodes@,
            Decoration::Outline,
            ui_stack@.len() as int,
        ),
{
    extract_edges(extracted, ui_stack, nodes, Decoration::Outline)
}

} // verus!
