//! Pointer tracking: position carry-over, deltas and button state.

use desk_ball::ball::Ball;
use desk_ball::input::{InputEvent, InputHandler};
use desk_ball::math::Vec2;

const PX: i64 = 1_000_000;

#[test]
fn new_tracker_is_at_origin_and_up() {
    let h = InputHandler::new();
    assert_eq!(h.mouse, Vec2::zero());
    assert_eq!(h.mouse_prev, Vec2::zero());
    assert!(!h.mouse_down());
    assert_eq!(h.mouse_diff(), Vec2::zero());
}

#[test]
fn cursor_move_adds_window_origin() {
    let mut h = InputHandler::new();
    h.handle(InputEvent::CursorMoved {
        window_origin: Vec2::new(100 * PX, 200 * PX),
        position: Vec2::new(10 * PX, 20 * PX),
    });
    assert_eq!(h.mouse, Vec2::new(110 * PX, 220 * PX));
    assert_eq!(h.mouse_prev, Vec2::zero());
    assert_eq!(h.mouse_diff(), Vec2::new(110 * PX, 220 * PX));
}

#[test]
fn primary_button_toggles_state() {
    let mut h = InputHandler::new();
    h.handle(InputEvent::PrimaryButton { pressed: true });
    assert!(h.mouse_down());
    h.handle(InputEvent::PrimaryButton { pressed: false });
    assert!(!h.mouse_down());
}

#[test]
fn any_event_carries_the_position_over() {
    // The delta decays to zero on a frame without pointer motion,
    // whatever event arrived.
    let mut h = InputHandler::new();
    h.handle(InputEvent::CursorMoved {
        window_origin: Vec2::new(100 * PX, 200 * PX),
        position: Vec2::new(10 * PX, 20 * PX),
    });
    h.handle(InputEvent::Other);
    assert_eq!(h.mouse, Vec2::new(110 * PX, 220 * PX));
    assert_eq!(h.mouse_prev, Vec2::new(110 * PX, 220 * PX));
    assert_eq!(h.mouse_diff(), Vec2::zero());
}

#[test]
fn delta_spans_consecutive_moves() {
    let mut h = InputHandler::new();
    h.handle(InputEvent::CursorMoved {
        window_origin: Vec2::new(100 * PX, 200 * PX),
        position: Vec2::new(10 * PX, 20 * PX),
    });
    h.handle(InputEvent::CursorMoved {
        window_origin: Vec2::new(100 * PX, 200 * PX),
        position: Vec2::new(25 * PX, 14 * PX),
    });
    assert_eq!(h.mouse_diff(), Vec2::new(15 * PX, -6 * PX));
}

#[test]
fn button_event_does_not_move_the_pointer() {
    let mut h = InputHandler::new();
    h.handle(InputEvent::CursorMoved {
        window_origin: Vec2::zero(),
        position: Vec2::new(50 * PX, 60 * PX),
    });
    h.handle(InputEvent::PrimaryButton { pressed: true });
    assert_eq!(h.mouse, Vec2::new(50 * PX, 60 * PX));
    assert_eq!(h.mouse_diff(), Vec2::zero());
}

#[test]
fn frame_protocol_drives_the_ball() {
    // One frame as the event loop runs it: ingest the event, pick the
    // mode from the button state, then convert and push the position.
    let mut h = InputHandler::new();
    let mut b = Ball::new(1_000_000);
    b.pos = Vec2::new(400 * PX, 300 * PX);

    h.handle(InputEvent::PrimaryButton { pressed: true });
    assert!(h.mouse_down());
    h.handle(InputEvent::CursorMoved {
        window_origin: Vec2::zero(),
        position: Vec2::new(3 * PX, 4 * PX),
    });
    b.move_ball(h.mouse_diff(), 16_667);
    assert_eq!(b.pos, Vec2::new(403 * PX, 304 * PX));
    assert_eq!(b.start_drag, Some(b.pos));

    h.handle(InputEvent::PrimaryButton { pressed: false });
    assert!(!h.mouse_down());
    b.tick(Vec2::new(800 * PX, 600 * PX), 16_667);
    assert!(b.start_drag.is_none());
    assert!(b.pos.y > 304 * PX);

    let corner = b.update_window().expect("first push always happens");
    assert_eq!(corner.x, b.pos.x - 64 * PX);
    assert_eq!(corner.y, b.pos.y - 64 * PX);
    assert!(b.update_window().is_none());
}
