//! A badge highlights a small piece of information by colour.

use vstd::prelude::*;
use vstd::string::StringExecFns;
use crate::model::length::{Align, Length};
use crate::web::css::{
    css_length,
    decimal,
    decimal_string,
    length_value,
    padding_class,
    padding_class_name,
};

verus! {

/// The padding that a badge starts with.
pub const DEFAULT_PADDING: u16 = 7;

/// The radius of the corners of a badge, in `rem`.
pub const BORDER_RADIUS: u32 = 10;

/// The looks of a badge. Colours are CSS colour values.
#[derive(Clone, Debug, PartialEq, Eq)]
pub struct Style {
    pub background: String,
    pub border_width: u16,
    pub border_color: Option<String>,
    pub text_color: String,
}

/// The attributes of the element that shows a badge.
#[derive(Clone, Debug, PartialEq, Eq)]
pub struct Node {
    pub class: String,
    pub style: String,
}

/// A badge: how it is padded, sized and aligned.
#[derive(Clone, Copy, Debug, PartialEq, Eq, Structural)]
pub struct Badge {
    pub padding: u16,
    pub width: Length,
    pub height: Length,
    pub horizontal_alignment: Align,
    pub vertical_alignment: Align,
}

/// The colour of the border as CSS: the colour of the style, or `none`.
pub open spec fn border_color_value(style: &Style) -> Seq<char> {
    match style.border_color {
        Some(color) => color@,
        None => "none"@,
    }
}

/// The `style` attribute of a badge. (No semicolon stands between the
/// height and the border.)
pub open spec fn style_value(badge: &Badge, style: &Style) -> Seq<char> {
    "background: "@ + style.background@ + "; border-radius: "@ + decimal(BORDER_RADIUS as nat)
        + "rem; width:"@ + length_value(badge.width) + "; height: "@ + length_value(
        badge.height,
    ) + " border: "@ + decimal(style.border_width as nat) + "px solid "@ + border_color_value(
        style,
    ) + "; display: inline-block; color: "@ + style.text_color@
}

impl Badge {
    /// A badge with the default padding that shrinks to its content and
    /// centres it.
    pub fn new() -> (r: Self)
        ensures
            r == (Badge {
                padding: DEFAULT_PADDING,
                width: Length::Shrink,
                height: Length::Shrink,
                horizontal_alignment: Align::Center,
                vertical_alignment: Align::Center,
            }),
    {
        Badge {
            padding: DEFAULT_PADDING,
            width: Length::Shrink,
            height: Length::Shrink,
            horizontal_alignment: Align::Center,
            vertical_alignment: Align::Center,
        }
    }

    /// Sets the padding.
    pub fn padding(self, units: u16) -> (r: Self)
        ensures
            r == (Badge { padding: units, ..self }),
    {
        Badge { padding: units, ..self }
    }

    /// Sets the width.
    pub fn width(self, width: Length) -> (r: Self)
        ensures
            r == (Badge { width, ..self }),
    {
        Badge { width, ..self }
    }

    /// Sets the height.
    pub fn height(self, height: Length) -> (r: Self)
        ensures
            r == (Badge { height, ..self }),
    {
        Badge { height, ..self }
    }

    /// Sets the horizontal alignment of the content.
    pub fn align_x(self, alignment: Align) -> (r: Self)
        ensures
            r == (Badge { horizontal_alignment: alignment, ..self }),
    {
        Badge { horizontal_alignment: alignment, ..self }
    }

    /// Sets the vertical alignment of the content.
    pub fn align_y(self, alignment: Align) -> (r: Self)
        ensures
            r == (Badge { vertical_alignment: alignment, ..self }),
    {
        Badge { vertical_alignment: alignment, ..self }
    }

    /// The attributes of the element that shows the badge in the given
    /// style: the class that pads it, and its `style` attribute.
    pub fn node(&self, style: &Style) -> (r: Node)
        ensures
            r.class@ == padding_class_name(self.padding),
            r.style@ == style_value(self, style),
    {
        let class = padding_class(self.padding);

        let mut css = String::new();
        css.append("background: ");
        css.append(style.background.as_str());
        css.append("; border-radius: ");
        css.append(decimal_string(BORDER_RADIUS).as_str());
        css.append("rem; width:");
        css.append(css_length(self.width).as_str());
        css.append("; height: ");
        css.append(css_length(self.height).as_str());
        css.append(" border: ");
        css.append(decimal_string(style.border_width as u32).as_str());
        css.append("px solid ");
        match &style.border_color {
            Some(color) => css.append(color.as_str()),
            None => css.append("none"),
        }
        css.append("; display: inline-block; color: ");
        css.append(style.text_color.as_str());
        assert(css@ =~= style_value(self, style));
        Node { class, style: css }
    }
}

} // verus!
