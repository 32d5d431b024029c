//! Border and outline geometry for a retained-mode UI tree.
//!
//! A node has a box, and may have a border and an outline. Each is declared
//! as four edge thicknesses, every one of them a fixed length, a percentage of
//! the width of the parent's box, or nothing. From the size of the box and
//! the declaration this library computes up to four rectangles, one per edge,
//! that never overlap: for a border they are carved inwards from the boundary
//! of the box, for an outline they are laid outwards around it. A second step
//! walks the paint order of the tree and turns the rectangles of every node
//! that can be seen into a list of solid rectangles to draw.
//!
//! All lengths are integers in one unit of the caller's choosing; half a box
//! size is rounded towards zero, so the unit should be fine enough for that
//! not to matter. A node's box is centred on the origin of its own coordinate
//! system, with `y` growing downwards, so the top edge is the one with the
//! smaller `y`.
//!
//! * [`thickness`]: declared thicknesses and how they resolve to lengths.
//! * [`ring`]: the cut of a ring into four edge rectangles, for both
//!   decorations, and the geometry type that stores them.
//! * [`border`] and [`outline`]: the two decorations of one node.
//! * [`tree`]: the nodes of a tree and the passes that recompute the geometry
//!   of those whose inputs changed.
//! * [`extract`]: the list of rectangles to draw.
//! * [`math`] and [`node`]: the plain values the rest is built on.

pub mod border;
pub mod extract;
pub mod math;
pub mod node;
pub mod outline;
pub mod ring;
pub mod thickness;
pub mod tree;

pub use border::{border_edges, BorderBundle, BorderColor, BorderedNodeBundle, CalculatedBorder};
pub use extract::{
    extract_edges, extract_uinode_borders, extract_uinode_outlines, Decoration, ExtractedUiNode,
    Primitive,
};
pub use math::{Area, Rect, Vec2};
pub use node::{Color, GlobalTransform, Node, Style};
pub use outline::{
    outline_edges, CalculatedOutline, Outline, OutlineBundle, OutlineColor, OutlinedNodeBundle,
};
pub use ring::{edge_ring, Edge, EdgeGeometry};
pub use thickness::{resolve_thickness, ResolvedThickness, UiRect, Val};
pub use tree::{calculate_borders, calculate_outlines, Changed, UiNode};
