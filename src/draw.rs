//! Drawing primitives. Widgets and scenes describe a frame as a list of
//! primitives; the host surface executes them in order.

use vstd::prelude::*;
use crate::geometry::{Point, Size};

verus! {

/// Opaque white, as `0xRRGGBBAA`.
pub const WHITE: u32 = 0xffffffff;

/// Opaque black, as `0xRRGGBBAA`.
pub const BLACK: u32 = 0x000000ff;

/// Opaque red, as `0xRRGGBBAA`.
pub const RED: u32 = 0xe62937ff;

/// One primitive draw call. Colours are `0xRRGGBBAA`.
#[derive(Clone, Debug, PartialEq, Eq)]
pub enum DrawCmd {
    /// Fill the whole surface.
    Clear { color: u32 },
    /// Fill the rectangle with top-left corner `pos` and size `size`.
    FillRect { pos: Point, size: Size, color: u32 },
    /// Draw `text` with its top-left corner at `origin`; `font_size` is
    /// `None` for the surface's default size.
    Text { text: String, origin: Point, color: u32, font_size: Option<i32> },
}

/// What a `DrawCmd` holds, with its text as characters.
pub enum Prim {
    Clear { color: u32 },
    FillRect { pos: Point, size: Size, color: u32 },
    Text { text: Seq<char>, origin: Point, color: u32, font_size: Option<i32> },
}

impl View for DrawCmd {
    type V = Prim;

    open spec fn view(&self) -> Prim {
        match self {
            DrawCmd::Clear { color } => Prim::Clear { color: *color },
            DrawCmd::FillRect { pos, size, color } => Prim::FillRect {
                pos: *pos,
                size: *size,
                color: *color,
            },
            DrawCmd::Text { text, origin, color, font_size } => Prim::Text {
                text: text@,
                origin: *origin,
                color: *color,
                font_size: *font_size,
            },
        }
    }
}

/// The primitives that a list of draw calls holds, in order.
pub open spec fn prims(cmds: Seq<DrawCmd>) -> Seq<Prim> {
    cmds.map_values(|c: DrawCmd| c@)
}

/// Why a frame could not be drawn.
#[derive(Clone, Copy, Debug, PartialEq, Eq, Structural)]
pub enum DrawError {
    /// The surface gave no measurement for the text of the child at this
    /// position in drawing order.
    Unmeasured { index: usize },
}

} // verus!
