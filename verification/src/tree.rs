//! The nodes of a UI tree held in one vector, each knowing its parent by
//! position, and the passes that bring their border and outline geometry up
//! to date.
//!
//! A pass touches only the nodes one of whose inputs is flagged as changed
//! since the pass last ran; all other nodes keep the geometry they have.

use vstd::prelude::*;
use crate::border::{border_edges, border_ring, BorderBundle, BorderedNodeBundle};
use crate::math::Rect;
use crate::node::{GlobalTransform, Node, Style};
use crate::outline::{outline_edges, outline_ring, OutlineBundle, OutlinedNodeBundle};
use crate::ring::lemma_geometry_determined;
use crate::thickness::{resolved, Val};

verus! {

/// Which inputs of a node were modified since the geometry passes last ran.
#[derive(Clone, Copy, Debug, PartialEq, Eq, Structural)]
pub struct Changed {
    /// The size of the node's box.
    pub node: bool,
    /// The node's style, which declares its border.
    pub style: bool,
    /// The declared thickness of the node's outline.
    pub outline: bool,
    /// The node's parent.
    pub parent: bool,
}

/// One node of the tree.
#[derive(Clone, Copy, Debug, PartialEq, Eq)]
pub struct UiNode {
    /// The size of the node's box.
    pub node: Node,
    /// The style, which declares the border's thickness.
    pub style: Style,
    /// The position of the parent in the vector of nodes, if there is one.
    pub parent: Option<usize>,
    /// Which inputs were modified since the geometry passes last ran.
    pub changed: Changed,
    /// Where the node stands on the screen.
    pub global_transform: GlobalTransform,
    /// Whether the node is to be drawn.
    pub visible: bool,
    /// The rectangle of the screen outside which the node is not drawn.
    pub clip: Option<Rect>,
    /// The node's border, if it has one.
    pub border: Option<BorderBundle>,
    /// The node's outline, if it has one.
    pub outline: Option<OutlineBundle>,
}

impl Changed {
    /// An input of the border geometry was modified.
    pub open spec fn touches_border(self) -> bool {
        self.node || self.style || self.parent
    }

    /// An input of the outline geometry was modified.
    pub open spec fn touches_outline(self) -> bool {
        self.node || self.outline || self.parent
    }

    /// Every input counts as modified, as for a node that was just added.
    pub fn all() -> (c: Changed)
        ensures
            c == (Changed { node: true, style: true, outline: true, parent: true }),
    {
        Changed { node: true, style: true, outline: true, parent: true }
    }

    /// No input was modified.
    pub fn none() -> (c: Changed)
        ensures
            c == (Changed { node: false, style: false, outline: false, parent: false }),
    {
        Changed { node: false, style: false, outline: false, parent: false }
    }
}

impl UiNode {
    /// A node with a border and no outline, newly added under `parent`.
    pub fn bordered(bundle: BorderedNodeBundle, parent: Option<usize>) -> (n: UiNode)
        ensures
            n == (UiNode {
                node: bundle.node,
                style: bundle.style,
                parent,
                changed: Changed { node: true, style: true, outline: true, parent: true },
                global_transform: bundle.global_transform,
                visible: bundle.visible,
                clip: None,
                border: Some(
                    BorderBundle {
                        border_color: bundle.border_color,
                        calculated_border: bundle.calculated_border,
                    },
                ),
                outline: None,
            }),
    {
        UiNode {
            node: bundle.node,
            style: bundle.style,
            parent,
            changed: Changed::all(),
            global_transform: bundle.global_transform,
            visible: bundle.visible,
            clip: None,
            border: Some(
                BorderBundle {
                    border_color: bundle.border_color,
                    calculated_border: bundle.calculated_border,
                },
            ),
            outline: None,
        }
    }

    /// A node with a border and an outline, newly added under `parent`.
    pub fn outlined(bundle: OutlinedNodeBundle, parent: Option<usize>) -> (n: UiNode)
        ensures
            n == (UiNode {
                node: bundle.node,
                style: bundle.style,
                parent,
                changed: Changed { node: true, style: true, outline: true, parent: true },
                global_transform: bundle.global_transform,
                visible: bundle.visible,
                clip: None,
                border: Some(
                    BorderBundle {
                        border_color: bundle.border_color,
                        calculated_border: bundle.calculated_border,
                    },
                ),
                outline: Some(
                    OutlineBundle {
                        outline: bundle.outline,
                        outline_color: bundle.outline_color,
                        calculated_outline: bundle.calculated_outline,
                    },
                ),
            }),
    {
        UiNode {
            node: bundle.node,
            style: bundle.style,
            parent,
            changed: Changed::all(),
            global_transform: bundle.global_transform,
            visible: bundle.visible,
            clip: None,
            border: Some(
                BorderBundle {
                    border_color: bundle.border_color,
                    calculated_border: bundle.calculated_border,
                },
            ),
            outline: Some(
                OutlineBundle {
                    outline: bundle.outline,
                    outline_color: bundle.outline_color,
                    calculated_outline: bundle.calculated_outline,
                },
            ),
        }
    }
}

/// The width against which the percentages of a node are resolved: the
/// width of its parent's box, or zero where it has no parent or its parent
/// is not among the nodes.
pub open spec fn parent_width(nodes: Seq<UiNode>, parent: Option<usize>) -> i32 {
    match parent {
        Some(p) => if p < nodes.len() {
            nodes[p as int].node.width
        } else {
            0
        },
        None => 0,
    }
}

/// On a node without a parent, and on one whose parent is not among the
/// nodes, a percentage resolves to zero.
pub proof fn lemma_percent_without_parent(nodes: Seq<UiNode>, parent: Option<usize>, percent: u32)
    requires
        parent is None || parent->Some_0 >= nodes.len(),
    ensures
        resolved(Val::Percent(percent), parent_width(nodes, parent) as int) == 0,
{
}

/// Looks up the width against which the percentages of a node are resolved.
pub fn parent_width_of(nodes: &Vec<UiNode>, parent: Option<usize>) -> (width: i32)
    ensures
        width == parent_width(nodes@, parent),
{
    match parent {
        Some(p) => {
            if p < nodes.len() {
                nodes[p].node.width
            } else {
                0
            }
        },
        None => 0,
    }
}

/// `after` is what the border pass makes of node `i` of `nodes`: a node with
/// a border, one of whose inputs changed, gets the border geometry of its
/// box, style and parent width, and keeps everything else; any other node is
/// left as it is.
pub open spec fn border_recomputed(nodes: Seq<UiNode>, i: int, after: UiNode) -> bool {
    let before = nodes[i];
    if before.border is Some && before.changed.touches_border() {
        &&& after.border is Some
        &&& after == (UiNode {
            border: Some(
                BorderBundle {
                    calculated_border: after.border->Some_0.calculated_border,
                    ..before.border->Some_0
                },
            ),
            ..before
        })
        &&& after.border->Some_0.calculated_border.edges@ == border_ring(
            before.node,
            before.style.border,
            parent_width(nodes, before.parent),
        )
    } else {
        after == before
    }
}

/// `after` is what the outline pass makes of node `i` of `nodes`: a node
/// with an outline, one of whose inputs changed, gets the outline geometry
/// of its box, declared outline and parent width, and keeps everything else;
/// any other node is left as it is.
pub open spec fn outline_recomputed(nodes: Seq<UiNode>, i: int, after: UiNode) -> bool {
    let before = nodes[i];
    if before.outline is Some && before.changed.touches_outline() {
        &&& after.outline is Some
        &&& after == (UiNode {
            outline: Some(
                OutlineBundle {
                    calculated_outline: after.outline->Some_0.calculated_outline,
                    ..before.outline->Some_0
                },
            ),
            ..before
        })
        &&& after.outline->Some_0.calculated_outline.edges@ == outline_ring(
            before.node,
            before.outline->Some_0.outline.0,
            parent_width(nodes, before.parent),
        )
    } else {
        after == before
    }
}

/// Brings the border geometry of every node up to date.
///
/// Only nodes with a border whose size, style or parent is flagged as
/// changed are recomputed. Nothing but border geometry is written.
pub fn calculate_borders(nodes: &mut Vec<UiNode>)
    ensures
        final(nodes)@.len() == old(nodes)@.len(),
        forall|i: int|
            0 <= i < old(nodes)@.len() ==> border_recomputed(
                old(nodes)@,
                i,
                #[trigger] final(nodes)@[i],
            ),
{
    let count = nodes.len();
    let mut i: usize = 0;
    while i < count
        invariant
            i <= count,
            nodes@.len() == count,
            old(nodes)@.len() == count,
            forall|j: int| 0 <= j < i ==> border_recomputed(old(nodes)@, j, #[trigger] nodes@[j]),
            forall|j: int| i <= j < count ==> #[trigger] nodes@[j] == old(nodes)@[j],
            forall|j: int| 0 <= j < count ==> (#[trigger] nodes@[j]).node == old(nodes)@[j].node,
        decreases count - i,
    {
        let entry = nodes[i];
        match entry.border {
            Some(bundle) => {
                if entry.changed.node || entry.changed.style || entry.changed.parent {
                    let width = parent_width_of(nodes, entry.parent);
                    let calculated = border_edges(entry.node, entry.style.border, width);
                    let updated = UiNode {
                        border: Some(
                            BorderBundle {
                                border_color: bundle.border_color,
                                calculated_border: calculated,
                            },
                        ),
                        ..entry
                    };
                    nodes.set(i, updated);
                }
            },
            None => {},
        }
        i += 1;
    }
}

/// Brings the outline geometry of every node up to date.
///
/// Only nodes with an outline whose size, declared outline or parent is
/// flagged as changed are recomputed. Nothing but outline geometry is
/// written.
pub fn calculate_outlines(nodes: &mut Vec<UiNode>)
    ensures
        final(nodes)@.len() == old(nodes)@.len(),
        forall|i: int|
            0 <= i < old(nodes)@.len() ==> outline_recomputed(
                old(nodes)@,
                i,
                #[trigger] final(nodes)@[i],
            ),
{
    let count = nodes.len();
    let mut i: usize = 0;
    while i < count
        invariant
            i <= count,
            nodes@.len() == count,
            old(nodes)@.len() == count,
            forall|j: int| 0 <= j < i ==> outline_recomputed(old(nodes)@, j, #[trigger] nodes@[j]),
            forall|j: int| i <= j < count ==> #[trigger] nodes@[j] == old(nodes)@[j],
            forall|j: int| 0 <= j < count ==> (#[trigger] nodes@[j]).node == old(nodes)@[j].node,
        decreases count - i,
    {
        let entry = nodes[i];
        match entry.outline {
            Some(bundle) => {
                if entry.changed.node || entry.changed.outline || entry.changed.parent {
                    let width = parent_width_of(nodes, entry.parent);
                    let calculated = outline_edges(entry.node, bundle.outline, width);
                    let updated = UiNode {
                        outline: Some(
                            OutlineBundle {
                                outline: bundle.outline,
                                outline_color: bundle.outline_color,
                                calculated_outline: calculated,
                            },
                        ),
                        ..entry
                    };
                    nodes.set(i, updated);
                }
            },
            None => {},
        }
        i += 1;
    }
}

/// Running the border pass a second time on unchanged inputs changes
/// nothing: it leaves every node, and so every border geometry, exactly as
/// the first run left it.
pub proof fn lemma_border_pass_idempotent(
    before: Seq<UiNode>,
    once: Seq<UiNode>,
    twice: Seq<UiNode>,
)
    requires
        once.len() == before.len(),
        twice.len() == before.len(),
        forall|i: int| 0 <= i < before.len() ==> border_recomputed(before, i, #[trigger] once[i]),
        forall|i: int| 0 <= i < before.len() ==> border_recomputed(once, i, #[trigger] twice[i]),
    ensures
        twice == once,
{
    assert forall|i: int| 0 <= i < before.len() implies twice[i] == once[i] by {
        assert(border_recomputed(before, i, once[i]));
        assert(border_recomputed(once, i, twice[i]));
        let p = before[i].parent;
        if p is Some && p->Some_0 < before.len() {
            assert(border_recomputed(before, p->Some_0 as int, once[p->Some_0 as int]));
        }
        if before[i].border is Some && before[i].changed.touches_border() {
            lemma_geometry_determined(
                once[i].border->Some_0.calculated_border.edges,
                twice[i].border->Some_0.calculated_border.edges,
            );
        }
    }
    assert(twice =~= once);
}

/// Running the outline pass a second time on unchanged inputs changes
/// nothing: it leaves every node, and so every outline geometry, exactly as
/// the first run left it.
pub proof fn lemma_outline_pass_idempotent(
    before: Seq<UiNode>,
    once: Seq<UiNode>,
    twice: Seq<UiNode>,
)
    requires
        once.len() == before.len(),
        twice.len() == before.len(),
        forall|i: int| 0 <= i < before.len() ==> outline_recomputed(before, i, #[trigger] once[i]),
        forall|i: int| 0 <= i < before.len() ==> outline_recomputed(once, i, #[trigger] twice[i]),
    ensures
        twice == once,
{
    assert forall|i: int| 0 <= i < before.len() implies twice[i] == once[i] by {
        assert(outline_recomputed(before, i, once[i]));
        assert(outline_recomputed(once, i, twice[i]));
        let p = before[i].parent;
        if p is Some && p->Some_0 < before.len() {
            assert(outline_recomputed(before, p->Some_0 as int, once[p->Some_0 as int]));
        }
        if before[i].outline is Some && before[i].changed.touches_outline() {
            lemma_geometry_determined(
                once[i].outline->Some_0.calculated_outline.edges,
                twice[i].outline->Some_0.calculated_outline.edges,
            );
        }
    }
    assert(twice =~= once);
}

} // verus!
