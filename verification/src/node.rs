//! What the layout tree tells about one node: the size of its box, the
//! declared border, where it stands, and with what colours it is painted.

use vstd::prelude::*;
use crate::math::{Area, Rect, Vec2};
use crate::thickness::UiRect;

verus! {

/// The size of a node's box as the layout left it.
#[derive(Clone, Copy, Debug, PartialEq, Eq, Structural)]
pub struct Node {
    pub width: i32,
    pub height: i32,
}

/// The part of a node's style that shapes its border.
#[derive(Clone, Copy, Debug, PartialEq, Eq, Structural)]
pub struct Style {
    pub border: UiRect,
}

/// Where the centre of a node's box lies in the coordinates of the screen.
#[derive(Clone, Copy, Debug, PartialEq, Eq, Structural)]
pub struct GlobalTransform {
    pub x: i32,
    pub y: i32,
}

/// A colour with eight bits per channel. An alpha of zero is fully
/// transparent.
#[derive(Clone, Copy, Debug, PartialEq, Eq, Structural)]
pub struct Color {
    pub red: u8,
    pub green: u8,
    pub blue: u8,
    pub alpha: u8,
}

impl Node {
    /// A box without positive width or height cannot carry a border or an
    /// outline.
    pub open spec fn is_collapsed(self) -> bool {
        self.width <= 0 || self.height <= 0
    }

    /// Half the width, rounded towards zero.
    pub open spec fn half_width(self) -> int {
        if self.width <= 0 {
            0
        } else {
            self.width as int / 2
        }
    }

    /// Half the height, rounded towards zero.
    pub open spec fn half_height(self) -> int {
        if self.height <= 0 {
            0
        } else {
            self.height as int / 2
        }
    }

    /// The box in the node's own coordinates: from minus half its size to
    /// plus half its size around the origin.
    pub open spec fn area(self) -> Area {
        Area {
            min_x: -self.half_width(),
            min_y: -self.half_height(),
            max_x: self.half_width(),
            max_y: self.half_height(),
        }
    }

    pub fn new(width: i32, height: i32) -> (n: Node)
        ensures
            n == (Node { width, height }),
    {
        Node { width, height }
    }

    /// Whether the box lacks positive width or height.
    pub fn collapsed(&self) -> (c: bool)
        ensures
            c == self.is_collapsed(),
    {
        self.width <= 0 || self.height <= 0
    }

    /// Half the size of the box on each axis.
    pub fn half_size(&self) -> (h: Vec2)
        ensures
            h.x == self.half_width(),
            h.y == self.half_height(),
            0 <= h.x <= 0x4000_0000,
            0 <= h.y <= 0x4000_0000,
    {
        let x: i64 = if self.width <= 0 {
            0
        } else {
            (self.width / 2) as i64
        };
        let y: i64 = if self.height <= 0 {
            0
        } else {
            (self.height / 2) as i64
        };
        Vec2 { x, y }
    }

    /// The box in the node's own coordinates.
    pub fn bounds(&self) -> (r: Rect)
        ensures
            r@ == self.area(),
    {
        let half = self.half_size();
        Rect { min: Vec2 { x: -half.x, y: -half.y }, max: half }
    }
}

impl Default for Node {
    fn default() -> (n: Node)
        ensures
            n == (Node { width: 0, height: 0 }),
    {
        Node { width: 0, height: 0 }
    }
}

impl Default for Style {
    fn default() -> (s: Style)
        ensures
            s.border == crate::thickness::undeclared(),
    {
        Style { border: UiRect::default() }
    }
}

impl Default for GlobalTransform {
    fn default() -> (t: GlobalTransform)
        ensures
            t == (GlobalTransform { x: 0, y: 0 }),
    {
        GlobalTransform { x: 0, y: 0 }
    }
}

impl Color {
    pub fn rgba(red: u8, green: u8, blue: u8, alpha: u8) -> (c: Color)
        ensures
            c == (Color { red, green, blue, alpha }),
    {
        Color { red, green, blue, alpha }
    }

    /// Opaque white.
    pub open spec fn spec_white() -> Color {
        Color { red: 255, green: 255, blue: 255, alpha: 255 }
    }

    /// Fully transparent black.
    pub open spec fn spec_none() -> Color {
        Color { red: 0, green: 0, blue: 0, alpha: 0 }
    }

    /// Opaque white.
    #[verifier::when_used_as_spec(spec_white)]
    pub fn white() -> (c: Color)
        ensures
            c == Color::spec_white(),
    {
        Color { red: 255, green: 255, blue: 255, alpha: 255 }
    }

    /// Fully transparent black.
    #[verifier::when_used_as_spec(spec_none)]
    pub fn none() -> (c: Color)
        ensures
            c == Color::spec_none(),
    {
        Color { red: 0, green: 0, blue: 0, alpha: 0 }
    }

    /// Whether nothing painted in this colour can be seen.
    pub open spec fn is_transparent(self) -> bool {
        self.alpha == 0
    }

    /// The alpha channel.
    pub fn a(&self) -> (alpha: u8)
        ensures
            alpha == self.alpha,
    {
        self.alpha
    }
}

impl Default for Color {
    fn default() -> (c: Color)
        ensures
            c == Color::spec_white(),
    {
        Color { red: 255, green: 255, blue: 255, alpha: 255 }
    }
}

} // verus!
