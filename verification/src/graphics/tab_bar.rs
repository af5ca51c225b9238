//! The draw instructions of a tab bar.

use vstd::prelude::*;
use crate::graphics::layout::Layout;
use crate::graphics::primitive::{Drawing, Primitive};
use crate::model::color::{Background, Color};
use crate::model::font::{Font, HorizontalAlignment, VerticalAlignment};
use crate::model::geometry::{Point, Rectangle};
use crate::model::interaction::Interaction;
use crate::model::tab_label::TabLabel;
use crate::model::text::char_string;
use crate::style::tab_bar::{Style, StyleSheet};

verus! {

/// The size of icons where the application sets none.
pub const DEFAULT_ICON_SIZE: u16 = 32;

/// The size of texts where the application sets none.
pub const DEFAULT_TEXT_SIZE: u16 = 16;

/// The size of the close icon where the application sets none.
pub const DEFAULT_CLOSE_SIZE: u16 = 16;

/// The padding of a tab where the application sets none.
pub const DEFAULT_PADDING: u16 = 5;

/// The space between tabs where the application sets none.
pub const DEFAULT_SPACING: u16 = 0;

/// By how much the close icon grows while the cursor is over it.
pub const CLOSE_HOVER_GROWTH: i32 = 5;

/// A glyph together with the font it is taken from.
#[derive(Clone, Copy, Debug, PartialEq, Eq)]
pub struct Glyph {
    pub code: char,
    pub font: Font,
}

/// A text centred on the middle of `bounds`.
pub open spec fn centered_text(
    content: Seq<char>,
    bounds: Rectangle,
    size: int,
    color: Color,
    font: Font,
) -> Drawing {
    Drawing::Text {
        content,
        bounds: bounds.centered(),
        color,
        size,
        font,
        horizontal_alignment: HorizontalAlignment::Center,
        vertical_alignment: VerticalAlignment::Center,
    }
}

/// A rectangle with square corners.
pub open spec fn plain_quad(
    bounds: Rectangle,
    background: Background,
    border_width: int,
    border_color: Color,
) -> Drawing {
    Drawing::Quad { bounds, background, border_radius: 0, border_width, border_color }
}

/// Whether the layout of a tab has the parts that its label needs, each with
/// valid bounds: first the label, laid out in one piece per icon or text, then,
/// if the tab can be closed, the close icon.
pub open spec fn tab_layout_fits(tab: &TabLabel, layout: &Layout) -> bool {
    &&& layout.children@.len() >= 1
    &&& layout.children@[0].children@.len() >= tab.parts()
    &&& forall|k: int|
        0 <= k < tab.parts() ==> (#[trigger] layout.children@[0].children@[k]).bounds.valid()
    &&& layout.children@.len() >= 2 ==> layout.children@[1].bounds.valid()
}

/// The close icon of a tab: nothing where the layout has no place for it, else
/// the glyph centred in its place, grown while the cursor is over it.
pub open spec fn cross_drawing(
    layout: &Layout,
    style: Style,
    cursor_position: Point,
    close: Glyph,
) -> Drawing {
    if layout.children@.len() >= 2 {
        let cross_bounds = layout.children@[1].bounds;
        centered_text(
            seq![close.code],
            cross_bounds,
            cross_bounds.height + if cross_bounds.covers(cursor_position) {
                CLOSE_HOVER_GROWTH as int
            } else {
                0
            },
            style.icon_color,
            close.font,
        )
    } else {
        Drawing::Empty
    }
}

/// What is painted for one tab: its background, then its icon and text as
/// the label has them, then its close icon. The style is the hovered one
/// while the cursor is over the tab, the active one otherwise, each in its
/// selected or unselected form.
pub open spec fn tab_drawing(
    tab: &TabLabel,
    layout: &Layout,
    style_sheet: &StyleSheet,
    is_selected: bool,
    cursor_position: Point,
    icon_font: Font,
    text_font: Font,
    close: Glyph,
) -> Drawing {
    let style = style_sheet.pick(layout.bounds.covers(cursor_position), is_selected);
    let pieces = layout.children@[0].children@;
    let background = plain_quad(
        layout.bounds,
        style.tab_label_background,
        style.tab_label_border_width as int,
        style.tab_label_border_color,
    );
    let cross = cross_drawing(layout, style, cursor_position, close);
    match tab {
        TabLabel::Icon(icon) => Drawing::Group {
            primitives: seq![
                background,
                centered_text(
                    seq![*icon],
                    pieces[0].bounds,
                    pieces[0].bounds.height as int,
                    style.icon_color,
                    icon_font,
                ),
                cross,
            ],
        },
        TabLabel::Text(text) => Drawing::Group {
            primitives: seq![
                background,
                centered_text(
                    text@,
                    pieces[0].bounds,
                    pieces[0].bounds.height as int,
                    style.text_color,
                    text_font,
                ),
                cross,
            ],
        },
        TabLabel::IconText(icon, text) => Drawing::Group {
            primitives: seq![
                background,
                centered_text(
                    seq![*icon],
                    pieces[0].bounds,
                    pieces[0].bounds.height as int,
                    style.icon_color,
                    icon_font,
                ),
                centered_text(
                    text@,
                    pieces[1].bounds,
                    pieces[1].bounds.height as int,
                    style.text_color,
                    text_font,
                ),
                cross,
            ],
        },
    }
}

/// The hint of one tab: a pointer while the cursor is over it.
pub open spec fn tab_interaction(layout: &Layout, cursor_position: Point) -> Interaction {
    if layout.bounds.covers(cursor_position) {
        Interaction::Pointer
    } else {
        Interaction::Idle
    }
}

/// Tells whether the layout of a tab has the parts that its label needs.
pub fn check_tab_layout(tab: &TabLabel, layout: &Layout) -> (r: bool)
    ensures
        r == tab_layout_fits(tab, layout),
{
    if layout.children.len() < 1 {
        return false;
    }
    let pieces = &layout.children[0].children;
    let parts: usize = match tab {
        TabLabel::Icon(_) => 1,
        TabLabel::Text(_) => 1,
        TabLabel::IconText(_, _) => 2,
    };
    if pieces.len() < parts {
        return false;
    }
    let mut k: usize = 0;
    while k < parts
        invariant
            k <= parts == tab.parts() <= pieces@.len(),
            pieces@ == layout.children@[0].children@,
            forall|j: int| 0 <= j < k ==> (#[trigger] pieces@[j]).bounds.valid(),
        decreases parts - k,
    {
        if !pieces[k].bounds.is_valid() {
            return false;
        }
        k = k + 1;
    }
    layout.children.len() < 2 || layout.children[1].bounds.is_valid()
}

/// Builds a text centred on the middle of `bounds`.
fn text_at(content: String, bounds: Rectangle, size: i32, color: Color, font: Font) -> (p:
    Primitive)
    requires
        bounds.valid(),
    ensures
        p@ == centered_text(content@, bounds, size as int, color, font),
{
    Primitive::Text {
        content,
        bounds: Rectangle {
            x: bounds.center_x(),
            y: bounds.center_y(),
            width: bounds.width,
            height: bounds.height,
        },
        color,
        size,
        font,
        horizontal_alignment: HorizontalAlignment::Center,
        vertical_alignment: VerticalAlignment::Center,
    }
}

/// Builds the close icon of a tab.
fn draw_cross(layout: &Layout, style: Style, cursor_position: Point, close: Glyph) -> (p:
    Primitive)
    requires
        layout.children@.len() >= 2 ==> layout.children@[1].bounds.valid(),
    ensures
        p@ == cross_drawing(layout, style, cursor_position, close),
{
    if layout.children.len() >= 2 {
        let cross_bounds = layout.children[1].bounds;
        let is_mouse_over_cross = cross_bounds.contains(cursor_position);
        let growth: i32 = if is_mouse_over_cross {
            CLOSE_HOVER_GROWTH
        } else {
            0
        };
        text_at(
            char_string(close.code),
            cross_bounds,
            cross_bounds.height + growth,
            style.icon_color,
            close.font,
        )
    } else {
        Primitive::Empty
    }
}

/// Draws one tab and reports its hint for the mouse cursor.
pub fn draw_tab(
    tab: &TabLabel,
    layout: &Layout,
    style_sheet: &StyleSheet,
    is_selected: bool,
    cursor_position: Point,
    icon_font: Font,
    text_font: Font,
    close: Glyph,
) -> (r: (Primitive, Interaction))
    requires
        tab_layout_fits(tab, layout),
    ensures
        r.0@ == tab_drawing(
            tab,
            layout,
            style_sheet,
            is_selected,
            cursor_position,
            icon_font,
            text_font,
            close,
        ),
        r.1 == tab_interaction(layout, cursor_position),
{
    let bounds = layout.bounds;
    let is_mouse_over = bounds.contains(cursor_position);
    let style = if is_mouse_over {
        style_sheet.hovered(is_selected)
    } else {
        style_sheet.active(is_selected)
    };
    let label_layout = &layout.children[0];

    let background = Primitive::Quad {
        bounds,
        background: style.tab_label_background,
        border_radius: 0,
        border_width: style.tab_label_border_width,
        border_color: style.tab_label_border_color,
    };
    let cross = draw_cross(layout, style, cursor_position, close);

    let primitives = match tab {
        TabLabel::Icon(icon) => {
            let icon_bounds = label_layout.children[0].bounds;
            let glyph = text_at(
                char_string(*icon),
                icon_bounds,
                icon_bounds.height,
                style.icon_color,
                icon_font,
            );
            vec![background, glyph, cross]
        },
        TabLabel::Text(text) => {
            let text_bounds = label_layout.children[0].bounds;
            let words = text_at(
                text.clone(),
                text_bounds,
                text_bounds.height,
                style.text_color,
                text_font,
            );
            vec![background, words, cross]
        },
        TabLabel::IconText(icon, text) => {
            let icon_bounds = label_layout.children[0].bounds;
            let text_bounds = label_layout.children[1].bounds;
            let glyph = text_at(
                char_string(*icon),
                icon_bounds,
                icon_bounds.height,
                style.icon_color,
                icon_font,
            );
            let words = text_at(
                text.clone(),
                text_bounds,
                text_bounds.height,
                style.text_color,
                text_font,
            );
            vec![background, glyph, words, cross]
        },
    };
    let primitive = Primitive::Group { primitives };
    proof {
        let want = tab_drawing(
            tab,
            layout,
            style_sheet,
            is_selected,
            cursor_position,
            icon_font,
            text_font,
            close,
        );
        assert(background@ == plain_quad(
            layout.bounds,
            style.tab_label_background,
            style.tab_label_border_width as int,
            style.tab_label_border_color,
        ));
        assert(primitive@->Group_primitives =~= want->Group_primitives);
    }
    (
        primitive,
        if is_mouse_over {
            Interaction::Pointer
        } else {
            Interaction::default()
        },
    )
}

/// How many tabs are drawn: as many as have both a label and a layout.
pub open spec fn drawn_tabs(tab_labels: Seq<TabLabel>, layout: &Layout) -> int {
    if tab_labels.len() <= layout.children@.len() {
        tab_labels.len() as int
    } else {
        layout.children@.len() as int
    }
}

/// What is painted for a tab bar: the bar itself, then each tab in order.
/// The bar takes the unselected style, hovered while the cursor is over the
/// bar; where that style names no background or border colour, the bar is
/// transparent there. The tab at `active_tab` is drawn selected.
pub open spec fn bar_drawing(
    active_tab: int,
    tab_labels: Seq<TabLabel>,
    layout: &Layout,
    cursor_position: Point,
    icon_font: Font,
    text_font: Font,
    style_sheet: &StyleSheet,
    close: Glyph,
) -> Drawing {
    let style = style_sheet.pick(layout.bounds.covers(cursor_position), false);
    let bar = plain_quad(
        layout.bounds,
        match style.background {
            Some(background) => background,
            None => Background::Color(Color::transparent()),
        },
        style.border_width as int,
        match style.border_color {
            Some(color) => color,
            None => Color::transparent(),
        },
    );
    Drawing::Group {
        primitives: seq![bar] + Seq::new(
            drawn_tabs(tab_labels, layout) as nat,
            |i: int|
                tab_drawing(
                    &tab_labels[i],
                    &layout.children@[i],
                    style_sheet,
                    i == active_tab,
                    cursor_position,
                    icon_font,
                    text_font,
                    close,
                ),
        ),
    }
}

/// The strongest hint among the first `count` tabs: a pointer if the cursor
/// is over one of them, and none otherwise.
pub open spec fn bar_interaction(layout: &Layout, count: int, cursor_position: Point) -> Interaction {
    if exists|i: int|
        0 <= i < count && (#[trigger] layout.children@[i]).bounds.covers(cursor_position) {
        Interaction::Pointer
    } else {
        Interaction::Idle
    }
}

/// Whether each tab that is drawn has a layout with the parts that its
/// label needs.
pub open spec fn bar_layout_fits(tab_labels: Seq<TabLabel>, layout: &Layout) -> bool {
    forall|i: int|
        0 <= i < drawn_tabs(tab_labels, layout) ==> tab_layout_fits(
            #[trigger] &tab_labels[i],
            &layout.children@[i],
        )
}

/// Tells whether each tab that is drawn has a layout with the parts that
/// its label needs.
pub fn check_bar_layout(tab_labels: &[TabLabel], layout: &Layout) -> (r: bool)
    ensures
        r == bar_layout_fits(tab_labels@, layout),
{
    let count = if tab_labels.len() <= layout.children.len() {
        tab_labels.len()
    } else {
        layout.children.len()
    };
    let mut i: usize = 0;
    while i < count
        invariant
            i <= count == drawn_tabs(tab_labels@, layout),
            forall|j: int|
                0 <= j < i ==> tab_layout_fits(#[trigger] &tab_labels@[j], &layout.children@[j]),
        decreases count - i,
    {
        if !check_tab_layout(&tab_labels[i], &layout.children[i]) {
            return false;
        }
        i = i + 1;
    }
    true
}

/// Draws a tab bar and reports the strongest hint of its tabs.
///
/// `icon_font` and `text_font` are the fonts that the application chose, if
/// any; icons fall back to `backend_icon_font` and texts to the default font.
pub fn draw(
    active_tab: usize,
    tab_labels: &[TabLabel],
    layout: &Layout,
    cursor_position: Point,
    icon_font: Option<Font>,
    text_font: Option<Font>,
    style_sheet: &StyleSheet,
    backend_icon_font: Font,
    close: Glyph,
) -> (r: (Primitive, Interaction))
    requires
        bar_layout_fits(tab_labels@, layout),
    ensures
        r.0@ == bar_drawing(
            active_tab as int,
            tab_labels@,
            layout,
            cursor_position,
            match icon_font {
                Some(font) => font,
                None => backend_icon_font,
            },
            match text_font {
                Some(font) => font,
                None => Font::Default,
            },
            style_sheet,
            close,
        ),
        r.1 == bar_interaction(layout, drawn_tabs(tab_labels@, layout), cursor_position),
{
    let bounds = layout.bounds;
    let is_mouse_over = bounds.contains(cursor_position);
    let style = if is_mouse_over {
        style_sheet.hovered(false)
    } else {
        style_sheet.active(false)
    };
    let icons = match icon_font {
        Some(font) => font,
        None => backend_icon_font,
    };
    let texts = match text_font {
        Some(font) => font,
        None => Font::Default,
    };

    let mut mouse_interaction = Interaction::default();
    let bar = Primitive::Quad {
        bounds,
        background: match style.background {
            Some(background) => background,
            None => Background::Color(Color::transparent()),
        },
        border_radius: 0,
        border_width: style.border_width,
        border_color: match style.border_color {
            Some(color) => color,
            None => Color::transparent(),
        },
    };
    let ghost want = bar_drawing(
        active_tab as int,
        tab_labels@,
        layout,
        cursor_position,
        icons,
        texts,
        style_sheet,
        close,
    );
    assert(bar@ == want->Group_primitives[0]);
    let mut primitives: Vec<Primitive> = vec![bar];

    let count = if tab_labels.len() <= layout.children.len() {
        tab_labels.len()
    } else {
        layout.children.len()
    };
    let mut i: usize = 0;
    while i < count
        invariant
            i <= count == drawn_tabs(tab_labels@, layout),
            want == bar_drawing(
                active_tab as int,
                tab_labels@,
                layout,
                cursor_position,
                icons,
                texts,
                style_sheet,
                close,
            ),
            primitives@.len() == i + 1,
            forall|j: int|
                0 <= j < primitives@.len() ==> (#[trigger] primitives@[j])@
                    == want->Group_primitives[j],
            mouse_interaction == bar_interaction(layout, i as int, cursor_position),
            forall|k: int|
                0 <= k < count ==> tab_layout_fits(#[trigger] &tab_labels@[k], &layout.children@[k]),
        decreases count - i,
    {
        let (primitive, new_mouse_interaction) = draw_tab(
            &tab_labels[i],
            &layout.children[i],
            style_sheet,
            i == active_tab,
            cursor_position,
            icons,
            texts,
            close,
        );
        proof {
            assert(primitive@ == want->Group_primitives[i + 1]);
            if layout.children@[i as int].bounds.covers(cursor_position) {
                assert(bar_interaction(layout, i + 1, cursor_position) == Interaction::Pointer);
            } else if bar_interaction(layout, i + 1, cursor_position) == Interaction::Pointer {
                let w = choose|w: int|
                    0 <= w < i + 1 && (#[trigger] layout.children@[w]).bounds.covers(
                        cursor_position,
                    );
                assert(0 <= w < i);
            }
        }
        mouse_interaction = mouse_interaction.max(new_mouse_interaction);
        primitives.push(primitive);
        i = i + 1;
    }
    let primitive = Primitive::Group { primitives };
    assert(primitive@->Group_primitives =~= want->Group_primitives);
    (primitive, mouse_interaction)
}

} // verus!
