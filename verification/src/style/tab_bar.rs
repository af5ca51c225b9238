//! The looks of a tab bar.

use vstd::prelude::*;
use crate::model::color::{Background, Color};

verus! {

/// The looks of a tab bar and of one of its tabs.
#[derive(Clone, Copy, Debug, PartialEq, Eq, Structural)]
pub struct Style {
    /// What fills the bar, if anything.
    pub background: Option<Background>,
    /// The colour of the bar's border, if it has one.
    pub border_color: Option<Color>,
    /// The width of the bar's border.
    pub border_width: u16,
    /// What fills a tab.
    pub tab_label_background: Background,
    /// The colour of a tab's border.
    pub tab_label_border_color: Color,
    /// The width of a tab's border.
    pub tab_label_border_width: u16,
    /// The colour of icons.
    pub icon_color: Color,
    /// The colour of texts.
    pub text_color: Color,
}

/// The looks of a tab bar in each of its states: under the cursor or not,
/// selected or not.
#[derive(Clone, Copy, Debug, PartialEq, Eq, Structural)]
pub struct StyleSheet {
    /// Away from the cursor, not selected.
    pub active: Style,
    /// Away from the cursor, selected.
    pub active_selected: Style,
    /// Under the cursor, not selected.
    pub hovered: Style,
    /// Under the cursor, selected.
    pub hovered_selected: Style,
}

impl StyleSheet {
    /// The style for the given state.
    pub open spec fn pick(&self, is_mouse_over: bool, is_selected: bool) -> Style {
        if is_mouse_over {
            if is_selected {
                self.hovered_selected
            } else {
                self.hovered
            }
        } else {
            if is_selected {
                self.active_selected
            } else {
                self.active
            }
        }
    }

    /// The style away from the cursor.
    pub fn active(&self, is_selected: bool) -> (s: Style)
        ensures
            s == self.pick(false, is_selected),
    {
        if is_selected {
            self.active_selected
        } else {
            self.active
        }
    }

    /// The style under the cursor.
    pub fn hovered(&self, is_selected: bool) -> (s: Style)
        ensures
            s == self.pick(true, is_selected),
    {
        if is_selected {
            self.hovered_selected
        } else {
            self.hovered
        }
    }
}

} // verus!
