//! Sharer arbitration, wheel throttling and synthesizer decisions.

use hopp_core::geometry::Position;
use hopp_core::mouse::{
    click_action, coords_to_virtual, cursor_move_kind, wheel_translation, CursorMoveKind,
    HookVerdict, MouseButtonAction, MouseEventKind, SharerCursor, WheelThrottle,
    CUSTOM_MOUSE_EVENT,
};

#[test]
fn synthesized_events_pass_through_untouched() {
    let mut cursor = SharerCursor::new(true);
    cursor.set_control(false);
    cursor.global_position = Position { x: 2000, y: 800 };
    let verdict = cursor.on_mouse_event(
        MouseEventKind::Move,
        Position { x: 1000, y: 500 },
        CUSTOM_MOUSE_EVENT,
    );
    // The hook recognizes its own events: kept, and never treated as
    // controller input.
    assert_eq!(verdict, HookVerdict::Keep);
    assert!(!cursor.has_control);
    assert_eq!(cursor.global_position, Position { x: 2000, y: 800 });
    assert_eq!(cursor.last_event_position, Position { x: 1000, y: 500 });
}

#[test]
fn sharer_arbitration_warps_and_accumulates() {
    // A controller put the hardware cursor at (1000, 500); the sharer's
    // virtual cursor sits at (2000, 800).
    let mut cursor = SharerCursor {
        has_control: false,
        last_event_position: Position { x: 1000, y: 500 },
        global_position: Position { x: 2000, y: 800 },
        skip_next_move: false,
        skip_after_synthesized: true,
    };
    // A hardware move of (+5, -3) lands at (1005, 497).
    let verdict =
        cursor.on_mouse_event(MouseEventKind::Move, Position { x: 1005, y: 497 }, 0);
    // The event is blocked, the hardware cursor warps back to the
    // controller's position, and the virtual cursor moves by (+5, -3).
    assert_eq!(verdict, HookVerdict::DropAndWarp(Position { x: 1000, y: 500 }));
    assert_eq!(cursor.global_position, Position { x: 2005, y: 797 });
    assert_eq!(cursor.last_event_position, Position { x: 1000, y: 500 });
}

#[test]
fn first_move_after_a_synthesized_one_is_skipped() {
    // The platform that needs the workaround arms the one-move skip on
    // every synthesized event.
    let mut cursor = SharerCursor {
        has_control: false,
        last_event_position: Position { x: 0, y: 0 },
        global_position: Position { x: 100, y: 100 },
        skip_next_move: false,
        skip_after_synthesized: true,
    };
    cursor.on_mouse_event(MouseEventKind::Move, Position { x: 50, y: 50 }, CUSTOM_MOUSE_EVENT);
    let verdict = cursor.on_mouse_event(MouseEventKind::Move, Position { x: 60, y: 60 }, 0);
    assert_eq!(verdict, HookVerdict::Drop);
    assert_eq!(cursor.global_position, Position { x: 100, y: 100 });
    // The move after the skipped one accumulates again.
    let verdict = cursor.on_mouse_event(MouseEventKind::Move, Position { x: 52, y: 51 }, 0);
    assert_eq!(verdict, HookVerdict::DropAndWarp(Position { x: 50, y: 50 }));
    assert_eq!(cursor.global_position, Position { x: 102, y: 101 });
}

#[test]
fn platforms_without_the_workaround_accumulate_at_once() {
    // Where the OS delta is simply compensated, no move is skipped: the
    // first hardware move after a synthesized one already accumulates.
    let mut cursor = SharerCursor {
        has_control: false,
        last_event_position: Position { x: 0, y: 0 },
        global_position: Position { x: 100, y: 100 },
        skip_next_move: false,
        skip_after_synthesized: false,
    };
    cursor.on_mouse_event(MouseEventKind::Move, Position { x: 50, y: 50 }, CUSTOM_MOUSE_EVENT);
    let verdict = cursor.on_mouse_event(MouseEventKind::Move, Position { x: 53, y: 49 }, 0);
    assert_eq!(verdict, HookVerdict::DropAndWarp(Position { x: 50, y: 50 }));
    assert_eq!(cursor.global_position, Position { x: 103, y: 99 });
}

#[test]
fn local_click_takes_control_back() {
    let mut cursor = SharerCursor::new(true);
    cursor.set_control(false);
    // The click that takes control from the controller is swallowed.
    let verdict = cursor.on_mouse_event(MouseEventKind::Click, Position { x: 10, y: 10 }, 0);
    assert_eq!(verdict, HookVerdict::Drop);
    assert!(cursor.has_control);
    // Subsequent clicks pass through.
    let verdict = cursor.on_mouse_event(MouseEventKind::Click, Position { x: 10, y: 10 }, 0);
    assert_eq!(verdict, HookVerdict::Keep);
    // Scrolls always pass.
    let verdict = cursor.on_mouse_event(MouseEventKind::Scroll, Position { x: 10, y: 10 }, 0);
    assert_eq!(verdict, HookVerdict::Keep);
}

#[test]
fn wheel_throttling_drops_close_events() {
    let mut throttle = WheelThrottle::new(0);
    assert!(throttle.should_emit(1000));
    // Two wheel events 5 ms apart: the second is dropped.
    assert!(!throttle.should_emit(1005));
    // 16 ms later it goes through again.
    assert!(throttle.should_emit(1021));
}

#[test]
fn wheel_throttling_forces_an_emit_after_fifty_drops() {
    let mut throttle = WheelThrottle::new(0);
    assert!(throttle.should_emit(1000));
    let mut now = 1000u64;
    let mut dropped = 0u32;
    for _ in 0..50 {
        now += 5;
        assert!(!throttle.should_emit(now));
        dropped += 1;
    }
    assert_eq!(dropped, 50);
    // The fifty-first close event is forced through.
    now += 5;
    assert!(throttle.should_emit(now));
}

#[test]
fn wheel_deltas_translate_to_platform_ticks() {
    assert_eq!(wheel_translation(0), 0);
    assert_eq!(wheel_translation(5), 120);
    assert_eq!(wheel_translation(-5), -120);
    assert_eq!(wheel_translation(15), 120);
    assert_eq!(wheel_translation(30), 240);
    assert_eq!(wheel_translation(40), 320);
    assert_eq!(wheel_translation(70), 420);
    assert_eq!(wheel_translation(-100), -600);
    assert_eq!(wheel_translation(150), 300);
    assert_eq!(wheel_translation(201), 201);
    assert_eq!(wheel_translation(-500), -500);
}

#[test]
fn buttons_map_to_their_actions() {
    assert_eq!(click_action(0, true), MouseButtonAction::LeftDown);
    assert_eq!(click_action(0, false), MouseButtonAction::LeftUp);
    assert_eq!(click_action(2, true), MouseButtonAction::RightDown);
    assert_eq!(click_action(2, false), MouseButtonAction::RightUp);
    assert_eq!(click_action(1, true), MouseButtonAction::MiddleDown);
    assert_eq!(click_action(7, false), MouseButtonAction::MiddleUp);
}

#[test]
fn virtual_desktop_coordinates_span_the_scale() {
    assert_eq!(coords_to_virtual(0, 0, 0, 0, 1920, 1080), (0, 0));
    assert_eq!(coords_to_virtual(1920, 1080, 0, 0, 1920, 1080), (65535, 65535));
    assert_eq!(coords_to_virtual(960, 540, 0, 0, 1920, 1080), (32767, 32767));
    // A virtual desktop starting left of the primary display.
    assert_eq!(coords_to_virtual(0, 0, -1920, 0, 3840, 1080), (32767, 0));
}

#[test]
fn remote_moves_drag_while_a_button_is_down() {
    assert_eq!(cursor_move_kind(true), CursorMoveKind::Drag);
    assert_eq!(cursor_move_kind(false), CursorMoveKind::Move);
}
