//! Draw instructions: what a widget asks the backend to paint.

use vstd::prelude::*;
use crate::model::color::{Background, Color};
use crate::model::font::{Font, HorizontalAlignment, VerticalAlignment};
use crate::model::geometry::Rectangle;

verus! {

/// A draw instruction.
#[derive(Debug, PartialEq, Eq)]
pub enum Primitive {
    /// Nothing to paint.
    Empty,
    /// Several instructions, painted in order.
    Group {
        primitives: Vec<Primitive>,
    },
    /// A run of text.
    Text {
        content: String,
        bounds: Rectangle,
        color: Color,
        size: i32,
        font: Font,
        horizontal_alignment: HorizontalAlignment,
        vertical_alignment: VerticalAlignment,
    },
    /// A filled rectangle with a border.
    Quad {
        bounds: Rectangle,
        background: Background,
        border_radius: u16,
        border_width: u16,
        border_color: Color,
    },
}

/// The mathematical value of a draw instruction: the same tree, with
/// sequences in place of vectors and strings.
pub enum Drawing {
    Empty,
    Group { primitives: Seq<Drawing> },
    Text {
        content: Seq<char>,
        bounds: Rectangle,
        color: Color,
        size: int,
        font: Font,
        horizontal_alignment: HorizontalAlignment,
        vertical_alignment: VerticalAlignment,
    },
    Quad {
        bounds: Rectangle,
        background: Background,
        border_radius: int,
        border_width: int,
        border_color: Color,
    },
}

impl View for Primitive {
    type V = Drawing;

    open spec fn view(&self) -> Drawing
        decreases self,
    {
        match self {
            Primitive::Empty => Drawing::Empty,
            Primitive::Group { primitives } => Drawing::Group {
                primitives: Seq::new(
                    primitives@.len(),
                    |i: int|
                        if 0 <= i < primitives@.len() {
                            primitives@[i].view()
                        } else {
                            Drawing::Empty
                        },
                ),
            },
            Primitive::Text {
                content,
                bounds,
                color,
                size,
                font,
                horizontal_alignment,
                vertical_alignment,
            } => Drawing::Text {
                content: content@,
                bounds: *bounds,
                color: *color,
                size: *size as int,
                font: *font,
                horizontal_alignment: *horizontal_alignment,
                vertical_alignment: *vertical_alignment,
            },
            Primitive::Quad { bounds, background, border_radius, border_width, border_color } =>
                Drawing::Quad {
                    bounds: *bounds,
                    background: *background,
                    border_radius: *border_radius as int,
                    border_width: *border_width as int,
                    border_color: *border_color,
                },
        }
    }
}

} // verus!
