//! The session orchestrator: one state machine that takes every
//! cross-thread event of the core — shell messages, data-channel events,
//! capture notifications — and decides what the platform glue performs:
//! socket replies, room operations, input synthesis, window work.
//!
//! The event loop, the sockets and the transport live outside the
//! library; they feed events in and carry the returned actions out.

use vstd::prelude::*;
use crate::capture::Capturer;
use crate::controllers::{has_sid, Controller, ControllerRegistry};
use crate::geometry::Position;
use crate::keyboard::KeystrokeData;
use crate::messages::{Message, ScreenShareMessage};
use crate::room::ClientEvent;

verus! {

/// Errors of the share-setup path.
#[derive(Debug, Clone, Copy, PartialEq, Eq, Structural)]
pub enum ServerError {
    RoomServiceNotFound,
    RoomCreationError,
    DisplayNotFound,
    WindowNotFound,
    ContentFilterCreationError,
    FullscreenError,
    ActiveStreamNotFound,
    StreamCreationError,
    StreamExtentError,
    WindowCreationError,
    WindowPositionError,
    CursorHittestError,
    GfxCreationError,
    CursorControllerCreationError,
}

/// Errors of application start-up.
#[derive(Debug, Clone)]
pub enum ApplicationError {
    /// The room service could not be created; the text says why.
    RoomServiceError(String),
}

/// A wheel delta forwarded to the synthesizer, in browser pixels.
#[derive(Debug, Clone, Copy, PartialEq, Eq, Structural)]
pub struct ScrollDelta {
    pub x: i64,
    pub y: i64,
}

/// A remote click as the orchestrator forwards it to the synthesizer;
/// coordinates are normalized micro units.
#[derive(Debug, Clone, Copy, PartialEq, Eq, Structural)]
pub struct MouseClickData {
    pub x: i64,
    pub y: i64,
    pub button: u32,
    pub clicks: u32,
    pub down: bool,
    pub shift: bool,
    pub alt: bool,
    pub ctrl: bool,
    pub meta: bool,
}

/// A participant, as the room announces it.
#[derive(Debug, Clone)]
pub struct ParticipantData {
    pub name: String,
    pub sid: String,
}

/// Every event the orchestrator's event loop can receive.
#[derive(Debug)]
pub enum UserEvent {
    /// A controller moved its cursor: normalized micro units and the
    /// sender's identifier.
    CursorPosition(i64, i64, String),
    MouseClick(MouseClickData, String),
    ControllerCursorEnabled(bool),
    ControllerCursorVisible(bool, String),
    Keystroke(KeystrokeData),
    Scroll(ScrollDelta, String),
    GetAvailableContent,
    Terminate,
    ScreenShare(ScreenShareMessage),
    StopScreenShare,
    RequestRedraw,
    /// The sharer's own cursor position, as normalized micro units.
    SharerPosition(i64, i64),
    ResetState,
    Tick(u128),
    ParticipantConnected(ParticipantData),
    ParticipantDisconnected(ParticipantData),
    LivekitServerUrl(String),
    ControllerTakesScreenShare,
}

/// What the platform glue must perform after one event was handled.
#[derive(Debug)]
pub enum SessionAction {
    /// Enumerate the capture sources and reply with the available content.
    SendAvailableContent,
    /// Reply to the shell whether the share started.
    SendStartScreenShareResult(bool),
    /// Create the platform stream, the room and the overlay window for
    /// this share, then report the outcome via `share_outcome`.
    BeginShare(ScreenShareMessage),
    /// Stop the platform capture, close the room and destroy the overlay.
    StopShare,
    /// Create the room service against this signaling URL.
    CreateRoomService(String),
    /// Publish whether controller cursors are enabled.
    PublishCursorEnabled(bool),
    /// Publish the sharer's cursor location, normalized micro units.
    PublishSharerLocation(i64, i64),
    /// Publish the reply to a latency tick.
    PublishTickResponse(u128),
    /// Enable or disable the keyboard controller.
    SetKeyboardEnabled(bool),
    /// Synthesize a cursor move at the normalized position.
    SimulateCursorMove(i64, i64),
    /// Synthesize a click.
    SimulateClick(MouseClickData),
    /// Synthesize a scroll.
    SimulateScroll(ScrollDelta),
    /// Resolve and synthesize a keystroke through the keyboard
    /// controller.
    SimulateKeystroke(KeystrokeData),
    /// Ask every present participant to be announced again.
    AnnounceParticipants,
    /// Redraw the overlay.
    Redraw,
    /// Leave the event loop.
    Exit,
}

/// The orchestrator's state: the capture coordinator, the controller
/// registry, and whether the room service and the remote-control session
/// (overlay plus input controllers) exist.
pub struct SessionState {
    /// The capture coordinator.
    pub capturer: Capturer,
    /// The remote controllers' registry.
    pub controllers: ControllerRegistry,
    /// Whether a room service exists (a signaling URL arrived).
    pub room_service: bool,
    /// Whether a remote-control session is active.
    pub remote_control: bool,
    /// Whether controller cursors are enabled.
    pub controllers_enabled: bool,
    /// Identity handed to the next share's output buffer.
    pub next_buffer_id: u64,
}

impl SessionState {
    /// What every step preserves of the session.
    pub open spec fn wf(&self) -> bool {
        self.controllers.wf()
    }

    /// A fresh session: no room service, no share, nothing registered.
    pub fn new() -> (r: SessionState)
        ensures
            r.wf(),
            !r.room_service,
            !r.remote_control,
            r.controllers_enabled,
            r.capturer.active_stream is None,
            r.controllers.controllers@.len() == 0,
    {
        SessionState {
            capturer: Capturer::new(),
            controllers: ControllerRegistry::new(),
            room_service: false,
            remote_control: false,
            controllers_enabled: true,
            next_buffer_id: 0,
        }
    }

    /// Tears the share down: capture stopped, remote control gone, the
    /// registry emptied.
    fn stop_share(&mut self)
        requires
            old(self).wf(),
            old(self).capturer.streams_stopped < u64::MAX,
        ensures
            final(self).wf(),
            final(self).capturer.active_stream is None,
            !final(self).remote_control,
            final(self).controllers.controllers@.len() == 0,
            final(self).room_service == old(self).room_service,
            final(self).controllers_enabled == old(self).controllers_enabled,
            final(self).capturer.streams_stopped <= old(self).capturer.streams_stopped + 1,
            final(self).next_buffer_id == old(self).next_buffer_id,
    {
        self.capturer.stop_capture();
        self.remote_control = false;
        self.controllers = ControllerRegistry::new();
    }

    /// Completes a begun share: on success the remote-control session is
    /// up and the shell hears `true`; on failure everything is torn down
    /// and the shell hears `false`.
    pub fn share_outcome(&mut self, ok: bool) -> (r: Vec<SessionAction>)
        requires
            old(self).wf(),
            old(self).capturer.streams_stopped < u64::MAX,
        ensures
            final(self).wf(),
            ok ==> final(self).remote_control && r@.len() == 2 && r@[0]
                == SessionAction::SendStartScreenShareResult(true) && r@[1]
                == SessionAction::AnnounceParticipants,
            !ok ==> {
                &&& !final(self).remote_control
                &&& final(self).capturer.active_stream is None
                &&& r@.len() == 2
                &&& r@[0] == SessionAction::StopShare
                &&& r@[1] == SessionAction::SendStartScreenShareResult(false)
            },
            final(self).room_service == old(self).room_service,
    {
        if ok {
            self.remote_control = true;
            let mut actions: Vec<SessionAction> = Vec::new();
            actions.push(SessionAction::SendStartScreenShareResult(true));
            actions.push(SessionAction::AnnounceParticipants);
            actions
        } else {
            self.stop_share();
            let mut actions: Vec<SessionAction> = Vec::new();
            actions.push(SessionAction::StopShare);
            actions.push(SessionAction::SendStartScreenShareResult(false));
            actions
        }
    }

    /// Handles one event of the main loop at clock time `now_ms`,
    /// updating the session and returning what the platform glue must
    /// perform.
    pub fn handle_user_event(&mut self, event: UserEvent, now_ms: u64) -> (r: Vec<SessionAction>)
        requires
            old(self).wf(),
            old(self).capturer.streams_stopped < u64::MAX,
            old(self).next_buffer_id < u64::MAX,
        ensures
            final(self).wf(),
            final(self).capturer.streams_stopped <= old(self).capturer.streams_stopped + 1,
            final(self).next_buffer_id <= old(self).next_buffer_id + 1,
            match event {
                UserEvent::Terminate => r@ =~= seq![SessionAction::Exit],
                UserEvent::GetAvailableContent => r@ =~= seq![SessionAction::SendAvailableContent],
                UserEvent::RequestRedraw => if old(self).remote_control {
                    r@ =~= seq![SessionAction::Redraw]
                } else {
                    r@.len() == 0
                },
                UserEvent::Tick(time) => if old(self).room_service {
                    r@ =~= seq![SessionAction::PublishTickResponse(time)]
                } else {
                    r@.len() == 0
                },
                UserEvent::SharerPosition(x, y) => if old(self).room_service {
                    r@ =~= seq![SessionAction::PublishSharerLocation(x, y)]
                } else {
                    r@.len() == 0
                },
                UserEvent::Keystroke(data) => if old(self).remote_control {
                    &&& r@.len() == 1
                    &&& (r@[0] matches SessionAction::SimulateKeystroke(d) && d.key@ == data.key@
                        && d.down == data.down && d.meta == data.meta && d.ctrl == data.ctrl
                        && d.shift == data.shift && d.alt == data.alt)
                } else {
                    r@.len() == 0
                },
                UserEvent::Scroll(delta, _) => if old(self).remote_control {
                    r@ =~= seq![SessionAction::SimulateScroll(delta)]
                } else {
                    r@.len() == 0
                },
                UserEvent::MouseClick(data, _) => if old(self).remote_control {
                    r@ =~= seq![SessionAction::SimulateClick(data)]
                } else {
                    r@.len() == 0
                },
                UserEvent::CursorPosition(x, y, sid) => if old(self).remote_control {
                    let before = old(self).controllers.controllers@;
                    let after = final(self).controllers.controllers@;
                    &&& r@ =~= seq![SessionAction::SimulateCursorMove(x, y)]
                    &&& (has_sid(before, sid@) ==> exists|i: int|
                        0 <= i < before.len() && (#[trigger] before[i]).sid@ == sid@ && after
                            == before.update(
                            i,
                            Controller {
                                position: Position { x, y },
                                visible: true,
                                last_activity_ms: now_ms,
                                ..before[i]
                            },
                        ))
                } else {
                    r@.len() == 0
                },
                UserEvent::ControllerCursorEnabled(enabled) => if old(self).remote_control && old(
                    self,
                ).room_service {
                    &&& final(self).controllers_enabled == enabled
                    &&& r@ =~= seq![
                        SessionAction::SetKeyboardEnabled(enabled),
                        SessionAction::PublishCursorEnabled(enabled),
                    ]
                } else {
                    r@.len() == 0
                },
                UserEvent::LivekitServerUrl(url) => {
                    &&& final(self).room_service
                    &&& r@.len() == 1
                    &&& (r@[0] matches SessionAction::CreateRoomService(u) && u@ == url@)
                },
                UserEvent::StopScreenShare | UserEvent::ControllerTakesScreenShare
                | UserEvent::ResetState => {
                    &&& !final(self).remote_control
                    &&& final(self).capturer.active_stream is None
                    &&& r@ =~= seq![SessionAction::StopShare]
                },
                UserEvent::ScreenShare(data) => if !old(self).room_service || !(
                data.content.content_type is Display) {
                    r@ =~= seq![SessionAction::SendStartScreenShareResult(false)]
                } else {
                    &&& r@.len() == 1
                    &&& r@[0] matches SessionAction::BeginShare(m) && m.content == data.content
                        && m.resolution == data.resolution && m.token@ == data.token@
                    &&& final(self).capturer.active_stream is Some
                    &&& final(self).capturer.active_stream->Some_0.source_id == data.content.id
                    &&& final(self).capturer.active_stream->Some_0.stream_resolution
                        == data.resolution
                    &&& final(self).capturer.streams_stopped == old(self).capturer.streams_stopped
                        + (if old(self).capturer.active_stream is Some {
                        1int
                    } else {
                        0int
                    })
                },
                UserEvent::ParticipantConnected(p) => {
                    &&& r@.len() == 0
                    &&& (old(self).remote_control && !has_sid(
                        old(self).controllers.controllers@,
                        p.sid@,
                    ) ==> final(self).controllers.controllers@ == old(
                        self,
                    ).controllers.controllers@.push(
                        Controller {
                            sid: p.sid,
                            name: p.name,
                            position: Position { x: 0, y: 0 },
                            visible: true,
                            last_activity_ms: now_ms,
                            enabled: old(self).controllers_enabled,
                        },
                    ))
                },
                UserEvent::ParticipantDisconnected(p) => {
                    &&& r@.len() == 0
                    &&& (old(self).remote_control ==> !has_sid(
                        final(self).controllers.controllers@,
                        p.sid@,
                    ))
                },
                UserEvent::ControllerCursorVisible(_, _) => r@.len() == 0,
            },
    {
        let mut actions: Vec<SessionAction> = Vec::new();
        match event {
            UserEvent::CursorPosition(x, y, sid) => {
                if self.remote_control {
                    self.controllers.handle_activity(
                        sid.as_str(),
                        Position { x, y },
                        now_ms,
                    );
                    actions.push(SessionAction::SimulateCursorMove(x, y));
                }
            },
            UserEvent::MouseClick(data, sid) => {
                if self.remote_control {
                    self.controllers.handle_activity(
                        sid.as_str(),
                        Position { x: data.x, y: data.y },
                        now_ms,
                    );
                    actions.push(SessionAction::SimulateClick(data));
                }
            },
            UserEvent::ControllerCursorEnabled(enabled) => {
                if self.remote_control && self.room_service {
                    self.controllers.set_controllers_enabled(enabled);
                    self.controllers_enabled = enabled;
                    actions.push(SessionAction::SetKeyboardEnabled(enabled));
                    actions.push(SessionAction::PublishCursorEnabled(enabled));
                }
            },
            UserEvent::ControllerCursorVisible(visible, sid) => {
                if self.remote_control {
                    self.controllers.set_controller_visible(visible, sid.as_str());
                }
            },
            UserEvent::Keystroke(data) => {
                if self.remote_control {
                    actions.push(SessionAction::SimulateKeystroke(data));
                }
            },
            UserEvent::Scroll(delta, _) => {
                if self.remote_control {
                    actions.push(SessionAction::SimulateScroll(delta));
                }
            },
            UserEvent::Terminate => {
                actions.push(SessionAction::Exit);
            },
            UserEvent::GetAvailableContent => {
                actions.push(SessionAction::SendAvailableContent);
            },
            UserEvent::ScreenShare(data) => {
                if !self.room_service || !data.content.is_display() {
                    actions.push(SessionAction::SendStartScreenShareResult(false));
                } else {
                    let buffer_id = self.next_buffer_id;
                    self.next_buffer_id = self.next_buffer_id + 1;
                    let share = ScreenShareMessage {
                        content: data.content,
                        token: data.token.clone(),
                        resolution: data.resolution,
                    };
                    let res = self.capturer.start_capture(
                        data.content,
                        data.resolution,
                        buffer_id,
                    );
                    match res {
                        Ok(()) => {
                            actions.push(SessionAction::BeginShare(share));
                        },
                        Err(_) => {
                            actions.push(SessionAction::SendStartScreenShareResult(false));
                        },
                    }
                }
            },
            UserEvent::StopScreenShare => {
                self.stop_share();
                actions.push(SessionAction::StopShare);
            },
            UserEvent::RequestRedraw => {
                if self.remote_control {
                    actions.push(SessionAction::Redraw);
                }
            },
            UserEvent::SharerPosition(x, y) => {
                if self.room_service {
                    actions.push(SessionAction::PublishSharerLocation(x, y));
                }
            },
            UserEvent::ResetState => {
                self.stop_share();
                actions.push(SessionAction::StopShare);
            },
            UserEvent::Tick(time) => {
                if self.room_service {
                    actions.push(SessionAction::PublishTickResponse(time));
                }
            },
            UserEvent::ParticipantConnected(participant) => {
                if self.remote_control {
                    let enabled = self.controllers_enabled;
                    self.controllers.add_controller(
                        participant.sid,
                        participant.name,
                        now_ms,
                        enabled,
                    );
                }
            },
            UserEvent::ParticipantDisconnected(participant) => {
                if self.remote_control {
                    self.controllers.remove_controller(participant.sid.as_str());
                }
            },
            UserEvent::LivekitServerUrl(url) => {
                self.room_service = true;
                actions.push(SessionAction::CreateRoomService(url));
            },
            UserEvent::ControllerTakesScreenShare => {
                self.stop_share();
                actions.push(SessionAction::StopShare);
            },
        }
        actions
    }
}

/// Turns one shell message into the event the orchestrator handles;
/// `None` for keepalives and for messages only the core itself sends.
pub fn message_to_user_event(message: Message) -> (r: Option<UserEvent>)
    ensures
        match message {
            Message::GetAvailableContent => r == Some(UserEvent::GetAvailableContent),
            Message::StartScreenShare(share) => r matches Some(e) && (e
                matches UserEvent::ScreenShare(s) && s == share),
            Message::StopScreenshare => r == Some(UserEvent::StopScreenShare),
            Message::Reset => r == Some(UserEvent::ResetState),
            Message::ControllerCursorEnabled(enabled) => r == Some(
                UserEvent::ControllerCursorEnabled(enabled),
            ),
            Message::LivekitServerUrl(url) => r matches Some(e) && (e
                matches UserEvent::LivekitServerUrl(u) && u == url),
            Message::Ping | Message::AvailableContent(_) | Message::StartScreenShareResult(_) => r
                is None,
        },
{
    match message {
        Message::GetAvailableContent => Some(UserEvent::GetAvailableContent),
        Message::StartScreenShare(share) => Some(UserEvent::ScreenShare(share)),
        Message::StopScreenshare => Some(UserEvent::StopScreenShare),
        Message::Reset => Some(UserEvent::ResetState),
        Message::ControllerCursorEnabled(enabled) => Some(
            UserEvent::ControllerCursorEnabled(enabled),
        ),
        Message::LivekitServerUrl(url) => Some(UserEvent::LivekitServerUrl(url)),
        Message::Ping => None,
        Message::AvailableContent(_) => None,
        Message::StartScreenShareResult(_) => None,
    }
}

/// Routes one data-channel event into the orchestrator's queue. The
/// core's own events — those whose sender is the local participant — are
/// ignored; a keystroke without key strings is dropped rather than
/// replayed; ticks pass only where tick handling is enabled.
pub fn route_data_message(
    local_sid: &str,
    sender_sid: &str,
    event: ClientEvent,
    tick_enabled: bool,
) -> (r: Option<UserEvent>)
    ensures
        sender_sid@ == local_sid@ ==> r is None,
        sender_sid@ != local_sid@ ==> match event {
            ClientEvent::MouseMove(point) => r matches Some(e) && e
                matches UserEvent::CursorPosition(x, y, sid) && x == point.x && y == point.y && sid@
                == sender_sid@,
            ClientEvent::MouseClick(click) => r matches Some(e) && e matches UserEvent::MouseClick(
                d,
                sid,
            ) && d == (MouseClickData {
                x: click.x,
                y: click.y,
                button: click.button,
                clicks: click.clicks,
                down: click.down,
                shift: click.shift,
                alt: click.alt,
                ctrl: click.ctrl,
                meta: click.meta,
            }) && sid@ == sender_sid@,
            ClientEvent::MouseVisible(v) => r matches Some(e) && e
                matches UserEvent::ControllerCursorVisible(visible, sid) && visible == v.visible
                && sid@ == sender_sid@,
            ClientEvent::Keystroke(k) => if k.key@.len() > 0 {
                r matches Some(e) && e matches UserEvent::Keystroke(d) && d.key@ == k.key@[0]@
                    && d.meta == k.meta && d.ctrl == k.ctrl && d.shift == k.shift && d.alt == k.alt
                    && d.down == k.down
            } else {
                r is None
            },
            ClientEvent::WheelEvent(w) => r matches Some(e) && e matches UserEvent::Scroll(
                delta,
                sid,
            ) && delta == (ScrollDelta { x: w.delta_x, y: w.delta_y }) && sid@ == sender_sid@,
            ClientEvent::Tick(t) => if tick_enabled {
                r == Some(UserEvent::Tick(t.time))
            } else {
                r is None
            },
            ClientEvent::TickResponse(_) | ClientEvent::RemoteControlEnabled(_) => r is None,
        },
{
    if crate::keyboard::str_eq(sender_sid, local_sid) {
        return None;
    }
    match event {
        ClientEvent::MouseMove(point) => Some(
            UserEvent::CursorPosition(point.x, point.y, sender_sid.to_owned()),
        ),
        ClientEvent::MouseClick(click) => Some(
            UserEvent::MouseClick(
                MouseClickData {
                    x: click.x,
                    y: click.y,
                    button: click.button,
                    clicks: click.clicks,
                    down: click.down,
                    shift: click.shift,
                    alt: click.alt,
                    ctrl: click.ctrl,
                    meta: click.meta,
                },
                sender_sid.to_owned(),
            ),
        ),
        ClientEvent::MouseVisible(v) => Some(
            UserEvent::ControllerCursorVisible(v.visible, sender_sid.to_owned()),
        ),
        ClientEvent::Keystroke(k) => {
            if k.key.len() > 0 {
                let key: String = k.key[0].clone();
                Some(
                    UserEvent::Keystroke(
                        KeystrokeData {
                            key,
                            meta: k.meta,
                            ctrl: k.ctrl,
                            shift: k.shift,
                            alt: k.alt,
                            down: k.down,
                        },
                    ),
                )
            } else {
                None
            }
        },
        ClientEvent::WheelEvent(w) => Some(
            UserEvent::Scroll(ScrollDelta { x: w.delta_x, y: w.delta_y }, sender_sid.to_owned()),
        ),
        ClientEvent::Tick(t) => {
            if tick_enabled {
                Some(UserEvent::Tick(t.time))
            } else {
                None
            }
        },
        ClientEvent::TickResponse(_) => None,
        ClientEvent::RemoteControlEnabled(_) => None,
    }
}

} // verus!
