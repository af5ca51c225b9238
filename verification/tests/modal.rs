use iced_aw::model::geometry::{Point, Rectangle};
use iced_aw::native::modal::{Modal, OverlayEvent, State};

#[derive(Debug, Clone, PartialEq)]
enum Message {
    CloseModal,
    Escape,
}

fn bounds() -> Rectangle {
    Rectangle { x: 30, y: 40, width: 100, height: 50 }
}

#[test]
fn new_state_is_closed() {
    let state = State::new(7u32);
    assert!(!state.is_shown());
}

#[test]
fn show_opens_and_closes() {
    let mut state = State::new(());
    state.show(true);
    assert!(state.is_shown());
    state.show(true);
    assert!(state.is_shown());
    state.show(false);
    assert!(!state.is_shown());
}

#[test]
fn closed_modal_has_no_overlay() {
    let state = State::new(());
    let modal: Modal<Message> = Modal::new();
    assert_eq!(modal.overlay(&state, bounds()), None);
}

#[test]
fn open_modal_overlays_at_the_origin_of_the_bounds() {
    let mut state = State::new(());
    state.show(true);
    let modal: Modal<Message> = Modal::new();
    assert_eq!(modal.overlay(&state, bounds()), Some(Point { x: 30, y: 40 }));
}

#[test]
fn reopened_modal_has_the_same_overlay() {
    let mut state = State::new(());
    let modal: Modal<Message> = Modal::new().backdrop(Message::CloseModal);
    state.show(true);
    let before = modal.overlay(&state, bounds());
    state.show(false);
    assert_eq!(modal.overlay(&state, bounds()), None);
    state.show(true);
    assert_eq!(modal.overlay(&state, bounds()), before);
}

#[test]
fn new_modal_hands_out_no_message() {
    let modal: Modal<Message> = Modal::new();
    assert_eq!(modal.backdrop, None);
    assert_eq!(modal.esc, None);
    let outside = Point { x: 0, y: 0 };
    assert_eq!(modal.dismiss_message(OverlayEvent::EscapePressed, bounds(), outside), None);
    assert_eq!(modal.dismiss_message(OverlayEvent::Pressed, bounds(), outside), None);
}

#[test]
fn escape_hands_out_its_message() {
    let modal = Modal::new().backdrop(Message::CloseModal).on_esc(Message::Escape);
    let inside = Point { x: 50, y: 50 };
    assert_eq!(
        modal.dismiss_message(OverlayEvent::EscapePressed, bounds(), inside),
        Some(&Message::Escape)
    );
}

#[test]
fn press_on_the_backdrop_hands_out_its_message() {
    let modal = Modal::new().on_esc(Message::Escape).backdrop(Message::CloseModal);
    let outside = Point { x: 131, y: 50 };
    let inside = Point { x: 130, y: 90 };
    assert_eq!(
        modal.dismiss_message(OverlayEvent::Pressed, bounds(), outside),
        Some(&Message::CloseModal)
    );
    assert_eq!(modal.dismiss_message(OverlayEvent::Pressed, bounds(), inside), None);
    assert_eq!(modal.dismiss_message(OverlayEvent::Other, bounds(), outside), None);
}

#[test]
fn content_state_is_kept_and_can_be_changed() {
    let mut state = State::new(vec![1u8, 2]);
    state.state_mut().push(3);
    state.show(true);
    assert!(state.is_shown());
    assert_eq!(*state.state_mut(), vec![1u8, 2, 3]);
    state.show(false);
    assert_eq!(state.state_mut().len(), 3);
    assert!(!state.is_shown());
}
