use iced_aw::model::anchor::Anchor;
use iced_aw::model::geometry::{Point, Rectangle, COORD_MAX};
use iced_aw::model::offset::Offset;
use iced_aw::native::floating_button::{FloatingButton, DEFAULT_OFFSET};

fn bounds() -> Rectangle {
    Rectangle { x: 10, y: 20, width: 300, height: 200 }
}

#[test]
fn corners_of_a_rectangle() {
    assert_eq!(Anchor::NorthWest.corner(bounds()), Point { x: 10, y: 20 });
    assert_eq!(Anchor::NorthEast.corner(bounds()), Point { x: 310, y: 20 });
    assert_eq!(Anchor::SouthWest.corner(bounds()), Point { x: 10, y: 220 });
    assert_eq!(Anchor::SouthEast.corner(bounds()), Point { x: 310, y: 220 });
}

#[test]
fn corners_at_the_edge_of_the_layout_space() {
    let far = Rectangle { x: COORD_MAX, y: -COORD_MAX, width: COORD_MAX, height: COORD_MAX };
    assert!(far.is_valid());
    let corner = Anchor::SouthEast.corner(far);
    assert_eq!(corner, Point { x: 2 * COORD_MAX, y: 0 });
    assert!(corner.is_reachable());
    assert!(!Point { x: 2 * COORD_MAX + 1, y: 0 }.is_reachable());
}

#[test]
fn offsets_point_into_the_container() {
    let offset = Offset { x: 3, y: 7 };
    let at = Point { x: 100, y: 100 };
    assert_eq!(offset.apply(Anchor::NorthWest, at), Point { x: 103, y: 107 });
    assert_eq!(offset.apply(Anchor::NorthEast, at), Point { x: 97, y: 107 });
    assert_eq!(offset.apply(Anchor::SouthWest, at), Point { x: 103, y: 93 });
    assert_eq!(offset.apply(Anchor::SouthEast, at), Point { x: 97, y: 93 });
}

#[test]
fn offset_from_one_distance() {
    assert_eq!(Offset::from(5), Offset { x: 5, y: 5 });
    assert_eq!(Offset::from(-2), Offset { x: -2, y: -2 });
}

#[test]
fn offset_validity() {
    assert!(Offset { x: COORD_MAX, y: -COORD_MAX }.is_valid());
    assert!(!Offset { x: COORD_MAX + 1, y: 0 }.is_valid());
    assert!(!Offset { x: 0, y: -COORD_MAX - 1 }.is_valid());
}

#[test]
fn rectangle_validity() {
    assert!(bounds().is_valid());
    assert!(!Rectangle { x: 0, y: 0, width: -1, height: 0 }.is_valid());
    assert!(!Rectangle { x: 0, y: 0, width: 0, height: COORD_MAX + 1 }.is_valid());
    assert!(!Rectangle { x: COORD_MAX + 1, y: 0, width: 0, height: 0 }.is_valid());
}

#[test]
fn rectangle_contains_its_edges() {
    let r = bounds();
    assert!(r.contains(Point { x: 10, y: 20 }));
    assert!(r.contains(Point { x: 310, y: 220 }));
    assert!(r.contains(Point { x: 150, y: 100 }));
    assert!(!r.contains(Point { x: 9, y: 20 }));
    assert!(!r.contains(Point { x: 311, y: 220 }));
    assert!(!r.contains(Point { x: 10, y: 19 }));
    assert!(!r.contains(Point { x: 10, y: 221 }));
}

#[test]
fn rectangle_centre_rounds_down() {
    let r = Rectangle { x: 10, y: -20, width: 5, height: 9 };
    assert_eq!(r.center_x(), 12);
    assert_eq!(r.center_y(), -16);
}

#[test]
fn new_button_sits_in_the_bottom_right_corner() {
    let button = FloatingButton::new();
    assert_eq!(button.anchor, Anchor::SouthEast);
    assert_eq!(button.offset, Offset { x: DEFAULT_OFFSET, y: DEFAULT_OFFSET });
    assert_eq!(DEFAULT_OFFSET, 5);
    assert!(!button.hidden);
    assert_eq!(button.overlay(bounds()), Some(Point { x: 310, y: 220 }));
    assert_eq!(button.position(bounds()), Some(Point { x: 305, y: 215 }));
}

#[test]
fn button_in_each_corner() {
    let button = FloatingButton::new().offset(Offset { x: 4, y: 6 });
    let at = |anchor: Anchor| button.anchor(anchor).position(bounds());
    assert_eq!(at(Anchor::NorthWest), Some(Point { x: 14, y: 26 }));
    assert_eq!(at(Anchor::NorthEast), Some(Point { x: 306, y: 26 }));
    assert_eq!(at(Anchor::SouthWest), Some(Point { x: 14, y: 214 }));
    assert_eq!(at(Anchor::SouthEast), Some(Point { x: 306, y: 214 }));
}

#[test]
fn placement_is_repeatable() {
    let button = FloatingButton::new().anchor(Anchor::NorthEast).offset(Offset { x: -3, y: 8 });
    let first = button.position(bounds());
    let second = button.position(bounds());
    assert_eq!(first, second);
    assert_eq!(first, Some(Point { x: 313, y: 28 }));
}

#[test]
fn hidden_button_has_no_overlay() {
    let button = FloatingButton::new().anchor(Anchor::SouthWest);
    let shown = button.position(bounds());
    let hidden = button.hidden(true);
    assert_eq!(hidden.overlay(bounds()), None);
    assert_eq!(hidden.position(bounds()), None);
    let again = hidden.hidden(false);
    assert_eq!(again, button);
    assert_eq!(again.position(bounds()), shown);
    assert_eq!(again.overlay(bounds()), Some(Point { x: 10, y: 220 }));
}

#[test]
fn origin_of_a_button_of_a_given_size() {
    let button = FloatingButton::new().offset(Offset { x: 4, y: 6 });
    let at = |anchor: Anchor| button.anchor(anchor).origin(bounds(), 30, 10);
    assert_eq!(at(Anchor::NorthWest), Some(Point { x: 14, y: 26 }));
    assert_eq!(at(Anchor::NorthEast), Some(Point { x: 276, y: 26 }));
    assert_eq!(at(Anchor::SouthWest), Some(Point { x: 14, y: 204 }));
    assert_eq!(at(Anchor::SouthEast), Some(Point { x: 276, y: 204 }));
    assert_eq!(button.hidden(true).origin(bounds(), 30, 10), None);
}

#[test]
fn origin_at_the_edge_of_the_layout_space() {
    let far = Rectangle { x: -COORD_MAX, y: -COORD_MAX, width: 0, height: 0 };
    let button = FloatingButton::new().offset(Offset { x: COORD_MAX, y: COORD_MAX });
    assert_eq!(
        button.origin(far, COORD_MAX, COORD_MAX),
        Some(Point { x: -3 * COORD_MAX, y: -3 * COORD_MAX })
    );
}

#[test]
fn layout_key_tells_layouts_apart() {
    let button = FloatingButton::new();
    assert_eq!(button.layout_key(), (Anchor::SouthEast, 5, 5, false));
    let moved = button.anchor(Anchor::NorthWest).offset(Offset { x: -4, y: 9 }).hidden(true);
    assert_eq!(moved.layout_key(), (Anchor::NorthWest, 0, 9, true));
}
