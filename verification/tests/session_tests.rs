//! The orchestrator: session lifecycle, data-channel routing and the
//! participant registry behind the overlay.

use hopp_core::controllers::CONTROLLER_HIDE_TIMEOUT_MS;
use hopp_core::geometry::{Extent, Position};
use hopp_core::messages::{Content, ContentType, Message, ScreenShareMessage};
use hopp_core::room::{ClientEvent, ClientPoint, MouseVisibleData, TickData, WheelDelta};
use hopp_core::session::{
    message_to_user_event, route_data_message, ParticipantData, SessionAction, SessionState,
    UserEvent,
};

fn share_message() -> ScreenShareMessage {
    ScreenShareMessage {
        content: Content { content_type: ContentType::Display, id: 1 },
        token: "T".to_string(),
        resolution: Extent { width: 1920, height: 1080 },
    }
}

#[test]
fn start_and_stop_session() {
    let mut session = SessionState::new();

    // The shell announces the signaling server first.
    let actions = session
        .handle_user_event(UserEvent::LivekitServerUrl("wss://example".to_string()), 0);
    assert!(matches!(&actions[..], [SessionAction::CreateRoomService(url)] if url == "wss://example"));

    // Content enumeration is delegated to the platform glue.
    let actions = session.handle_user_event(UserEvent::GetAvailableContent, 1);
    assert!(matches!(&actions[..], [SessionAction::SendAvailableContent]));

    // The share starts: the capture stream is up, the platform work begins.
    let actions = session.handle_user_event(UserEvent::ScreenShare(share_message()), 2);
    assert!(matches!(&actions[..], [SessionAction::BeginShare(_)]));
    assert!(session.capturer.has_active_stream());
    assert_eq!(session.capturer.active_stream.as_ref().unwrap().source_id(), 1);

    // The platform work succeeded: the shell hears `true`.
    let actions = session.share_outcome(true);
    assert!(matches!(
        &actions[..],
        [SessionAction::SendStartScreenShareResult(true), SessionAction::AnnounceParticipants]
    ));
    assert!(session.remote_control);

    // Stopping tears everything down: no stream is left to submit frames.
    let actions = session.handle_user_event(UserEvent::StopScreenShare, 3);
    assert!(matches!(&actions[..], [SessionAction::StopShare]));
    assert!(!session.capturer.has_active_stream());
    assert!(!session.remote_control);
}

#[test]
fn share_without_a_room_service_fails_cleanly() {
    let mut session = SessionState::new();
    let actions = session.handle_user_event(UserEvent::ScreenShare(share_message()), 0);
    assert!(matches!(&actions[..], [SessionAction::SendStartScreenShareResult(false)]));
    assert!(!session.capturer.has_active_stream());
}

#[test]
fn window_share_requests_are_rejected() {
    let mut session = SessionState::new();
    session.handle_user_event(UserEvent::LivekitServerUrl("wss://example".to_string()), 0);
    let mut message = share_message();
    message.content = Content { content_type: ContentType::Window { display_id: 1 }, id: 9 };
    let actions = session.handle_user_event(UserEvent::ScreenShare(message), 1);
    assert!(matches!(&actions[..], [SessionAction::SendStartScreenShareResult(false)]));
    assert!(!session.capturer.has_active_stream());
}

#[test]
fn failed_platform_setup_reports_false_and_cleans_up() {
    let mut session = SessionState::new();
    session.handle_user_event(UserEvent::LivekitServerUrl("wss://example".to_string()), 0);
    session.handle_user_event(UserEvent::ScreenShare(share_message()), 1);
    let actions = session.share_outcome(false);
    assert!(matches!(
        &actions[..],
        [SessionAction::StopShare, SessionAction::SendStartScreenShareResult(false)]
    ));
    assert!(!session.remote_control);
    assert!(!session.capturer.has_active_stream());
}

#[test]
fn own_data_channel_messages_are_ignored() {
    // An event whose sender is the local participant never comes back in.
    let event = ClientEvent::MouseMove(ClientPoint { x: 500_000, y: 500_000 });
    assert!(route_data_message("LOCAL", "LOCAL", event, false).is_none());

    let event = ClientEvent::MouseMove(ClientPoint { x: 500_000, y: 500_000 });
    let routed = route_data_message("LOCAL", "A", event, false);
    assert!(
        matches!(routed, Some(UserEvent::CursorPosition(500_000, 500_000, sid)) if sid == "A")
    );
}

#[test]
fn data_channel_events_route_to_their_user_events() {
    let wheel = ClientEvent::WheelEvent(WheelDelta { delta_x: 3, delta_y: -40 });
    let routed = route_data_message("LOCAL", "B", wheel, false);
    assert!(matches!(routed, Some(UserEvent::Scroll(delta, sid)) if delta.x == 3 && delta.y == -40 && sid == "B"));

    let visible = ClientEvent::MouseVisible(MouseVisibleData { visible: false });
    let routed = route_data_message("LOCAL", "B", visible, false);
    assert!(matches!(routed, Some(UserEvent::ControllerCursorVisible(false, sid)) if sid == "B"));

    // A keystroke without key strings is dropped, not replayed.
    let empty = ClientEvent::Keystroke(hopp_core::room::KeystrokeData {
        key: vec![],
        meta: false,
        ctrl: false,
        shift: false,
        alt: false,
        down: true,
    });
    assert!(route_data_message("LOCAL", "B", empty, false).is_none());

    // Ticks route only where tick handling is on.
    let tick = ClientEvent::Tick(TickData { time: 99 });
    assert!(route_data_message("LOCAL", "B", tick, false).is_none());
    let tick = ClientEvent::Tick(TickData { time: 99 });
    assert!(matches!(route_data_message("LOCAL", "B", tick, true), Some(UserEvent::Tick(99))));
}

#[test]
fn shell_messages_map_to_events() {
    assert!(matches!(
        message_to_user_event(Message::GetAvailableContent),
        Some(UserEvent::GetAvailableContent)
    ));
    assert!(matches!(
        message_to_user_event(Message::StopScreenshare),
        Some(UserEvent::StopScreenShare)
    ));
    assert!(matches!(message_to_user_event(Message::Reset), Some(UserEvent::ResetState)));
    assert!(message_to_user_event(Message::Ping).is_none());
    assert!(message_to_user_event(Message::StartScreenShareResult(true)).is_none());
    assert!(matches!(
        message_to_user_event(Message::ControllerCursorEnabled(true)),
        Some(UserEvent::ControllerCursorEnabled(true))
    ));
}

#[test]
fn participant_lifecycle() {
    let mut session = SessionState::new();
    session.handle_user_event(UserEvent::LivekitServerUrl("wss://example".to_string()), 0);
    session.handle_user_event(UserEvent::ScreenShare(share_message()), 1);
    session.share_outcome(true);

    // A connecting participant gets a visible badge.
    let connected = ParticipantData { sid: "A".to_string(), name: "Alice".to_string() };
    session.handle_user_event(UserEvent::ParticipantConnected(connected), 1000);
    assert!(session.controllers.contains("A"));
    assert_eq!(session.controllers.len(), 1);
    assert!(session.controllers.controllers[0].visible);
    assert_eq!(session.controllers.controllers[0].name, "Alice");

    // A cursor move repositions the badge.
    session.handle_user_event(
        UserEvent::CursorPosition(500_000, 500_000, "A".to_string()),
        2000,
    );
    assert_eq!(
        session.controllers.controllers[0].position,
        Position { x: 500_000, y: 500_000 }
    );
    assert!(session.controllers.controllers[0].visible);

    // Five seconds of silence hide the badge.
    session.controllers.auto_hide(2000 + CONTROLLER_HIDE_TIMEOUT_MS);
    assert!(!session.controllers.controllers[0].visible);

    // Any new event makes it visible again.
    session.handle_user_event(
        UserEvent::CursorPosition(600_000, 400_000, "A".to_string()),
        8000,
    );
    assert!(session.controllers.controllers[0].visible);

    // Leaving removes the controller.
    let disconnected = ParticipantData { sid: "A".to_string(), name: "Alice".to_string() };
    session.handle_user_event(UserEvent::ParticipantDisconnected(disconnected), 9000);
    assert!(!session.controllers.contains("A"));
    assert_eq!(session.controllers.len(), 0);
}

#[test]
fn badges_hide_only_after_the_full_window() {
    let mut session = SessionState::new();
    session.remote_control = true;
    let connected = ParticipantData { sid: "A".to_string(), name: "Alice".to_string() };
    session.handle_user_event(UserEvent::ParticipantConnected(connected), 1000);
    session.controllers.auto_hide(1000 + CONTROLLER_HIDE_TIMEOUT_MS - 1);
    assert!(session.controllers.controllers[0].visible);
    session.controllers.auto_hide(1000 + CONTROLLER_HIDE_TIMEOUT_MS);
    assert!(!session.controllers.controllers[0].visible);
}

#[test]
fn input_events_are_ignored_without_a_session() {
    let mut session = SessionState::new();
    let actions = session.handle_user_event(
        UserEvent::CursorPosition(500_000, 500_000, "A".to_string()),
        0,
    );
    assert!(actions.is_empty());
    let actions = session.handle_user_event(
        UserEvent::Keystroke(hopp_core::keyboard::KeystrokeData {
            key: "a".to_string(),
            meta: false,
            shift: false,
            ctrl: false,
            alt: false,
            down: true,
        }),
        0,
    );
    assert!(actions.is_empty());
}

#[test]
fn cursor_enabled_propagates_to_keyboard_and_peers() {
    let mut session = SessionState::new();
    session.handle_user_event(UserEvent::LivekitServerUrl("wss://example".to_string()), 0);
    session.handle_user_event(UserEvent::ScreenShare(share_message()), 1);
    session.share_outcome(true);
    let connected = ParticipantData { sid: "A".to_string(), name: "Alice".to_string() };
    session.handle_user_event(UserEvent::ParticipantConnected(connected), 2);

    let actions = session.handle_user_event(UserEvent::ControllerCursorEnabled(false), 3);
    assert!(matches!(
        &actions[..],
        [SessionAction::SetKeyboardEnabled(false), SessionAction::PublishCursorEnabled(false)]
    ));
    assert!(!session.controllers_enabled);
    assert!(!session.controllers.controllers[0].enabled);
}
