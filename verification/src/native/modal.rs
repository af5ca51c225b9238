//! A modal shows some content as an overlay on top of an underlying element.

use vstd::prelude::*;
use crate::model::geometry::{Point, Rectangle};

verus! {

/// What can happen to an open modal that may close it.
#[derive(Clone, Copy, Debug, PartialEq, Eq, Structural)]
pub enum OverlayEvent {
    /// The Escape key was pressed.
    EscapePressed,
    /// The left mouse button or a finger was pressed.
    Pressed,
    /// Anything else.
    Other,
}

/// Where the overlay of a modal lies: at the origin of the bounds of the
/// underlying element while the modal is open. A closed modal has no
/// overlay of its own, and that of the underlying element shows instead.
pub open spec fn overlay_position(shown: bool, bounds: Rectangle) -> Option<Point> {
    if shown {
        Some(Point { x: bounds.x, y: bounds.y })
    } else {
        None
    }
}

/// The messages that a modal hands to the application when the user asks
/// to close it. The modal closes nothing by itself.
#[derive(Debug)]
pub struct Modal<Message> {
    pub backdrop: Option<Message>,
    pub esc: Option<Message>,
}

impl<Message> Modal<Message> {
    /// The message that an event on the open modal gives rise to: the one set
    /// for the Escape key when that key is pressed, the one set for the
    /// backdrop when a press falls outside the content, and none otherwise.
    pub open spec fn message_for(
        &self,
        event: OverlayEvent,
        content_bounds: Rectangle,
        cursor_position: Point,
    ) -> Option<&Message> {
        match event {
            OverlayEvent::EscapePressed => match &self.esc {
                Some(message) => Some(message),
                None => None,
            },
            OverlayEvent::Pressed => if content_bounds.covers(cursor_position) {
                None
            } else {
                match &self.backdrop {
                    Some(message) => Some(message),
                    None => None,
                }
            },
            OverlayEvent::Other => None,
        }
    }

    /// A modal that hands out no message.
    pub fn new() -> (r: Self)
        ensures
            r.backdrop is None,
            r.esc is None,
    {
        Modal { backdrop: None, esc: None }
    }

    /// Sets the message for a click on the backdrop.
    pub fn backdrop(self, message: Message) -> (r: Self)
        ensures
            r.backdrop == Some(message),
            r.esc == self.esc,
    {
        Modal { backdrop: Some(message), esc: self.esc }
    }

    /// Sets the message for the Escape key.
    pub fn on_esc(self, message: Message) -> (r: Self)
        ensures
            r.esc == Some(message),
            r.backdrop == self.backdrop,
    {
        Modal { backdrop: self.backdrop, esc: Some(message) }
    }

    /// The position of the overlay of the modal over an element with the
    /// given bounds, or nothing while the modal is closed.
    pub fn overlay<S>(&self, state: &State<S>, bounds: Rectangle) -> (r: Option<Point>)
        ensures
            r == overlay_position(state.shown(), bounds),
    {
        if !state.is_shown() {
            return None;
        }
        Some(Point::new(bounds.x, bounds.y))
    }

    /// The message to hand to the application for an event on the open
    /// modal, whose content lies at `content_bounds`.
    pub fn dismiss_message(
        &self,
        event: OverlayEvent,
        content_bounds: Rectangle,
        cursor_position: Point,
    ) -> (r: Option<&Message>)
        ensures
            r == self.message_for(event, content_bounds, cursor_position),
    {
        match event {
            OverlayEvent::EscapePressed => self.esc.as_ref(),
            OverlayEvent::Pressed => {
                if content_bounds.contains(cursor_position) {
                    None
                } else {
                    self.backdrop.as_ref()
                }
            },
            OverlayEvent::Other => None,
        }
    }
}

/// The state of a modal: whether it is open, and the state of its content.
pub struct State<S> {
    show: bool,
    state: S,
}

impl<S> State<S> {
    /// Whether the modal is open.
    pub closed spec fn shown(&self) -> bool {
        self.show
    }

    /// The state that is handed to the overlying content.
    pub closed spec fn inner(&self) -> S {
        self.state
    }

    /// Creates a closed modal around the given content state.
    pub fn new(s: S) -> (r: Self)
        ensures
            !r.shown(),
            r.inner() == s,
    {
        State { show: false, state: s }
    }

    /// Opens (`true`) or closes (`false`) the modal. The content state stays.
    pub fn show(&mut self, b: bool)
        ensures
            final(self).shown() == b,
            final(self).inner() == old(self).inner(),
    {
        self.show = b;
    }

    /// The state of the content, to hand to the overlying content.
    pub fn state_mut(&mut self) -> (r: &mut S)
        ensures
            *r == old(self).inner(),
            final(self).inner() == *final(r),
            final(self).shown() == old(self).shown(),
    {
        &mut self.state
    }

    /// Tells whether the modal is open.
    pub fn is_shown(&self) -> (r: bool)
        ensures
            r == self.shown(),
    {
        self.show
    }
}

/// A closed modal has no overlay, and one that is closed and opened again
/// has the overlay that it had while it was open: the overlay is fixed by
/// whether the modal shows and by the bounds alone.
pub proof fn lemma_reopened_modal_overlay<S>(
    open: State<S>,
    closed: State<S>,
    reopened: State<S>,
    bounds: Rectangle,
)
    requires
        open.shown(),
        !closed.shown(),
        reopened.shown(),
    ensures
        overlay_position(closed.shown(), bounds) is None,
        overlay_position(reopened.shown(), bounds) == overlay_position(open.shown(), bounds),
        overlay_position(reopened.shown(), bounds) == Some(Point { x: bounds.x, y: bounds.y }),
{
}

} // verus!
