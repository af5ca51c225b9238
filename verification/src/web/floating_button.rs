//! A button that floats over some content, placed by CSS.

use vstd::prelude::*;
use vstd::string::StringExecFns;
use crate::model::anchor::Anchor;
use crate::model::offset::Offset;
use crate::web::css::{signed_decimal, signed_decimal_string};

verus! {

/// The distance from the corner that a floating button starts with.
pub const DEFAULT_OFFSET: i32 = 5;

/// Where a floating button lies over its content, whether it shows, and
/// the message that a press on it produces.
#[derive(Debug)]
pub struct FloatingButton<Message> {
    pub anchor: Anchor,
    pub offset: Offset,
    pub hidden: bool,
    pub on_press: Option<Message>,
}

/// The `style` attributes of the elements that show a floating button.
#[derive(Clone, Debug, PartialEq, Eq)]
pub struct Node {
    /// The style of the element that holds the content and the button.
    pub container: String,
    /// The style of the element that holds the button; nothing while the
    /// button is hidden.
    pub button: Option<String>,
}

/// The CSS declarations that put an element at `offset` from the corner
/// `anchor` of its container: the vertical distance from the top or the
/// bottom edge, then the horizontal one from the left or the right edge.
pub open spec fn position_value(anchor: Anchor, offset: Offset) -> Seq<char> {
    (if anchor.is_south() {
        "bottom: "@
    } else {
        "top: "@
    }) + signed_decimal(offset.y as int) + (if anchor.is_east() {
        "px; right: "@
    } else {
        "px; left: "@
    }) + signed_decimal(offset.x as int) + "px;"@
}

/// The style of the element that holds the content and the button.
pub open spec fn container_value() -> Seq<char> {
    "position: relative; width: 100%; height: 100%;"@
}

/// The style of the element that holds the button.
pub open spec fn button_value(anchor: Anchor, offset: Offset) -> Seq<char> {
    "position: absolute; "@ + position_value(anchor, offset)
}

impl<Message> FloatingButton<Message> {
    /// A visible button in the bottom-right corner, at the default
    /// distance, that produces no message.
    pub fn new() -> (r: Self)
        ensures
            r.anchor == Anchor::SouthEast,
            r.offset == (Offset { x: DEFAULT_OFFSET, y: DEFAULT_OFFSET }),
            !r.hidden,
            r.on_press is None,
    {
        FloatingButton {
            anchor: Anchor::SouthEast,
            offset: Offset { x: DEFAULT_OFFSET, y: DEFAULT_OFFSET },
            hidden: false,
            on_press: None,
        }
    }

    /// Sets the corner that the button is anchored to.
    pub fn anchor(self, anchor: Anchor) -> (r: Self)
        ensures
            r == (FloatingButton { anchor, ..self }),
    {
        FloatingButton { anchor, ..self }
    }

    /// Sets the distance of the button from its corner.
    pub fn offset(self, offset: Offset) -> (r: Self)
        ensures
            r == (FloatingButton { offset, ..self }),
    {
        FloatingButton { offset, ..self }
    }

    /// Hides (`true`) or shows (`false`) the button.
    pub fn hidden(self, hidden: bool) -> (r: Self)
        ensures
            r == (FloatingButton { hidden, ..self }),
    {
        FloatingButton { hidden, ..self }
    }

    /// Sets the message that a press on the button produces.
    pub fn on_press(self, msg: Message) -> (r: Self)
        ensures
            r == (FloatingButton { on_press: Some(msg), ..self }),
    {
        FloatingButton { on_press: Some(msg), ..self }
    }

    /// The styles of the elements that show the button over its content.
    pub fn node(&self) -> (r: Node)
        ensures
            r.container@ == container_value(),
            match r.button {
                Some(style) => !self.hidden && style@ == button_value(self.anchor, self.offset),
                None => self.hidden,
            },
    {
        let container = String::from_str("position: relative; width: 100%; height: 100%;");
        if self.hidden {
            return Node { container, button: None };
        }
        let mut position = String::from_str("position: absolute; ");
        match self.anchor {
            Anchor::NorthWest | Anchor::NorthEast => position.append("top: "),
            Anchor::SouthWest | Anchor::SouthEast => position.append("bottom: "),
        }
        position.append(signed_decimal_string(self.offset.y).as_str());
        match self.anchor {
            Anchor::NorthWest | Anchor::SouthWest => position.append("px; left: "),
            Anchor::NorthEast | Anchor::SouthEast => position.append("px; right: "),
        }
        position.append(signed_decimal_string(self.offset.x).as_str());
        position.append("px;");
        assert(position@ =~= button_value(self.anchor, self.offset));
        Node { container, button: Some(position) }
    }
}

} // verus!
