//! The remote-control translator's mouse half: arbitration between the
//! local user (the sharer) and the remote controller, and the decisions of
//! the event synthesizer (wheel throttling, wheel tick translation, button
//! selection, virtual-screen coordinates).
//!
//! The OS hook and the event posting live outside the library; they hand
//! these functions the event's plain values and carry out the verdicts.

use vstd::prelude::*;
use crate::geometry::Position;

verus! {

/// Sentinel user-data attached to every synthesized input event, so the
/// hook can tell the agent's own events from hardware ones.
pub const CUSTOM_MOUSE_EVENT: u64 = 0x7F7F7F7F;

/// Wheel events closer together than this many milliseconds are throttled.
pub const WHEEL_THROTTLE_MS: u64 = 15;

/// At most this many consecutive wheel events are dropped before one is
/// forced through.
pub const WHEEL_MAX_SKIPPED: u32 = 50;

/// The kind of a mouse event seen by the hook.
#[derive(Debug, Clone, Copy, PartialEq, Eq, Structural)]
pub enum MouseEventKind {
    Move,
    Click,
    Scroll,
}

/// What the hook does with an observed event.
#[derive(Debug, Clone, Copy, PartialEq, Eq, Structural)]
pub enum HookVerdict {
    /// Let the event propagate to the OS.
    Keep,
    /// Block the event.
    Drop,
    /// Block the event and warp the hardware cursor to the position.
    DropAndWarp(Position),
}

/// Errors of the platform mouse observer.
#[derive(Debug, Clone, Copy, PartialEq, Eq, Structural)]
pub enum MouseObserverError {
    /// The low-level mouse hook could not be installed.
    SetMouseHook,
    /// The event tap could not be created.
    CreateMouseTap,
    /// The run-loop source for the event tap could not be created.
    CreateRunloopSource,
}

/// Arbitration state for local mouse input while a controller may hold
/// control: who has control, where the controller last put the hardware
/// cursor, and the sharer's virtual cursor position.
#[derive(Debug, Clone, Copy, PartialEq, Eq, Structural)]
pub struct SharerCursor {
    /// Whether the local user holds control.
    pub has_control: bool,
    /// Position of the last event seen, hardware or synthesized; while a
    /// controller drives, the controller's last chosen position.
    pub last_event_position: Position,
    /// The sharer's virtual cursor in global coordinates.
    pub global_position: Position,
    /// Whether the next hardware move is skipped entirely, to hide the
    /// one-frame jump the OS mixes in right after a synthesized move.
    pub skip_next_move: bool,
    /// Whether this platform needs the first hardware move after each
    /// synthesized one skipped; false where the OS delta can simply be
    /// compensated.
    pub skip_after_synthesized: bool,
}

impl SharerCursor {
    /// Fresh arbitration state: the local user holds control. The flag
    /// says whether this platform skips the first hardware move after
    /// each synthesized one.
    pub fn new(skip_after_synthesized: bool) -> (r: SharerCursor)
        ensures
            r == (SharerCursor {
                has_control: true,
                last_event_position: Position { x: 0, y: 0 },
                global_position: Position { x: 0, y: 0 },
                skip_next_move: false,
                skip_after_synthesized,
            }),
    {
        SharerCursor {
            has_control: true,
            last_event_position: Position { x: 0, y: 0 },
            global_position: Position { x: 0, y: 0 },
            skip_next_move: false,
            skip_after_synthesized,
        }
    }

    /// Hands control to the remote controller or back to the local user.
    pub fn set_control(&mut self, has_control: bool)
        ensures
            *final(self) == (SharerCursor { has_control, ..*old(self) }),
    {
        self.has_control = has_control;
    }

    /// Runs the hook's arbitration on one observed mouse event.
    ///
    /// A synthesized event (sentinel user-data) records the controller's
    /// chosen position, arms the one-move skip where the platform needs
    /// it, and passes through: it is never re-dispatched as controller
    /// input. A hardware move while the controller drives either falls
    /// to the armed skip or accumulates the move's delta onto the
    /// sharer's virtual cursor, warps the hardware cursor back to the
    /// controller's position and blocks the event. A click while the
    /// controller drives takes control back and is swallowed. Everything
    /// else passes.
    pub fn on_mouse_event(&mut self, kind: MouseEventKind, location: Position, user_data: u64) -> (
    r: HookVerdict)
        requires
            -0x2000_0000_0000_0000 <= old(self).global_position.x <= 0x2000_0000_0000_0000,
            -0x2000_0000_0000_0000 <= old(self).global_position.y <= 0x2000_0000_0000_0000,
            -0x1000_0000_0000_0000 <= old(self).last_event_position.x <= 0x1000_0000_0000_0000,
            -0x1000_0000_0000_0000 <= old(self).last_event_position.y <= 0x1000_0000_0000_0000,
            -0x1000_0000_0000_0000 <= location.x <= 0x1000_0000_0000_0000,
            -0x1000_0000_0000_0000 <= location.y <= 0x1000_0000_0000_0000,
        ensures
            user_data == CUSTOM_MOUSE_EVENT ==> {
                &&& r == HookVerdict::Keep
                &&& *final(self) == (SharerCursor {
                    last_event_position: location,
                    skip_next_move: old(self).skip_after_synthesized,
                    ..*old(self)
                })
            },
            user_data != CUSTOM_MOUSE_EVENT && kind == MouseEventKind::Move && old(self).has_control
                ==> {
                &&& r == HookVerdict::Keep
                &&& *final(self) == (SharerCursor {
                    global_position: location,
                    last_event_position: location,
                    skip_next_move: false,
                    ..*old(self)
                })
            },
            user_data != CUSTOM_MOUSE_EVENT && kind == MouseEventKind::Move
                && !old(self).has_control && !old(self).skip_next_move ==> {
                &&& r == HookVerdict::DropAndWarp(old(self).last_event_position)
                &&& *final(self) == (SharerCursor {
                    global_position: Position {
                        x: (old(self).global_position.x + location.x - old(
                            self,
                        ).last_event_position.x) as i64,
                        y: (old(self).global_position.y + location.y - old(
                            self,
                        ).last_event_position.y) as i64,
                    },
                    ..*old(self)
                })
            },
            user_data != CUSTOM_MOUSE_EVENT && kind == MouseEventKind::Move
                && !old(self).has_control && old(self).skip_next_move ==> {
                &&& r == HookVerdict::Drop
                &&& *final(self) == (SharerCursor { skip_next_move: false, ..*old(self) })
            },
            user_data != CUSTOM_MOUSE_EVENT && kind == MouseEventKind::Click ==> {
                &&& *final(self) == (SharerCursor { has_control: true, ..*old(self) })
                &&& old(self).has_control ==> r == HookVerdict::Keep
                &&& !old(self).has_control ==> r == HookVerdict::Drop
            },
            user_data != CUSTOM_MOUSE_EVENT && kind == MouseEventKind::Scroll ==> r
                == HookVerdict::Keep && *final(self) == *old(self),
    {
        if user_data == CUSTOM_MOUSE_EVENT {
            self.last_event_position = location;
            self.skip_next_move = self.skip_after_synthesized;
            return HookVerdict::Keep;
        }
        match kind {
            MouseEventKind::Move => {
                if self.has_control {
                    self.global_position = location;
                    self.last_event_position = location;
                    self.skip_next_move = false;
                    HookVerdict::Keep
                } else if self.skip_next_move {
                    self.skip_next_move = false;
                    HookVerdict::Drop
                } else {
                    let dx: i64 = location.x - self.last_event_position.x;
                    let dy: i64 = location.y - self.last_event_position.y;
                    self.global_position = Position {
                        x: self.global_position.x + dx,
                        y: self.global_position.y + dy,
                    };
                    HookVerdict::DropAndWarp(self.last_event_position)
                }
            },
            MouseEventKind::Click => {
                let had_control = self.has_control;
                if !had_control {
                    self.has_control = true;
                    HookVerdict::Drop
                } else {
                    HookVerdict::Keep
                }
            },
            MouseEventKind::Scroll => HookVerdict::Keep,
        }
    }
}

/// The wheel tick a browser-pixel delta translates to, preserving sign:
/// small deltas snap to one tick of 120; middling ones scale by 8 or 6;
/// large ones double or pass through.
pub open spec fn wheel_translation_spec(value: int) -> int {
    let a = if value >= 0 {
        value
    } else {
        -value
    };
    let m = if a <= 40 {
        if 0 < a && a < 10 {
            120
        } else {
            8 * a
        }
    } else if a <= 100 {
        6 * a
    } else if a <= 200 {
        2 * a
    } else {
        a
    };
    if value >= 0 {
        m
    } else {
        -m
    }
}

/// Translates a browser wheel delta (pixels) into platform wheel units
/// (multiples of 120 for one tick).
pub fn wheel_translation(value: i64) -> (r: i64)
    requires
        value > i64::MIN,
    ensures
        r == wheel_translation_spec(value as int),
{
    let sign: i64 = if value >= 0 {
        1
    } else {
        -1
    };
    let abs: i64 = if value >= 0 {
        value
    } else {
        -value
    };
    let ret: i64 = if abs <= 40 {
        if abs < 10 && abs > 0 {
            120
        } else {
            8 * abs
        }
    } else if abs <= 100 {
        6 * abs
    } else if abs <= 200 {
        2 * abs
    } else {
        abs
    };
    ret * sign
}

/// Wheel throttling state of the Windows synthesizer: the time of the last
/// wheel event and how many events in a row were dropped.
#[derive(Debug, Clone, Copy, PartialEq, Eq, Structural)]
pub struct WheelThrottle {
    /// When the last wheel event arrived, in milliseconds of a monotonic
    /// clock.
    pub last_wheel_event_ms: u64,
    /// How many consecutive wheel events were dropped since the last one
    /// went through.
    pub skipped_wheel_events: u32,
}

impl WheelThrottle {
    /// Fresh throttle state at clock time `now_ms`.
    pub fn new(now_ms: u64) -> (r: WheelThrottle)
        ensures
            r.last_wheel_event_ms == now_ms,
            r.skipped_wheel_events == 0,
    {
        WheelThrottle { last_wheel_event_ms: now_ms, skipped_wheel_events: 0 }
    }

    /// Decides whether a wheel event arriving at `now_ms` is forwarded:
    /// one closer than 15 ms to its predecessor is dropped, but at most 50
    /// in a row before one is forced through.
    pub fn should_emit(&mut self, now_ms: u64) -> (r: bool)
        requires
            now_ms >= old(self).last_wheel_event_ms,
        ensures
            final(self).last_wheel_event_ms == now_ms,
            r == !(now_ms - old(self).last_wheel_event_ms < WHEEL_THROTTLE_MS && old(
                self,
            ).skipped_wheel_events < WHEEL_MAX_SKIPPED),
            !r ==> final(self).skipped_wheel_events == old(self).skipped_wheel_events + 1,
            r ==> final(self).skipped_wheel_events == 0,
    {
        let elapsed: u64 = now_ms - self.last_wheel_event_ms;
        self.last_wheel_event_ms = now_ms;
        if elapsed < WHEEL_THROTTLE_MS && self.skipped_wheel_events < WHEEL_MAX_SKIPPED {
            self.skipped_wheel_events = self.skipped_wheel_events + 1;
            false
        } else {
            self.skipped_wheel_events = 0;
            true
        }
    }
}

/// Wheel throttling drops at most 50 consecutive events: after 50 drops
/// the next event goes through however close it comes.
pub proof fn lemma_wheel_throttle_bounded(t: WheelThrottle, now_ms: u64)
    requires
        t.skipped_wheel_events >= WHEEL_MAX_SKIPPED,
    ensures
        !(now_ms - t.last_wheel_event_ms < WHEEL_THROTTLE_MS && t.skipped_wheel_events
            < WHEEL_MAX_SKIPPED),
{
}

/// How a remote cursor move is synthesized: as a plain move, or as a
/// drag while a button is held down for that controller.
#[derive(Debug, Clone, Copy, PartialEq, Eq, Structural)]
pub enum CursorMoveKind {
    Move,
    Drag,
}

/// Selects the event kind for a remote cursor move.
pub fn cursor_move_kind(click_down: bool) -> (r: CursorMoveKind)
    ensures
        click_down ==> r == CursorMoveKind::Drag,
        !click_down ==> r == CursorMoveKind::Move,
{
    if click_down {
        CursorMoveKind::Drag
    } else {
        CursorMoveKind::Move
    }
}

/// The button action a remote click maps to: button 0 is the left button,
/// 2 the right, anything else the middle.
#[derive(Debug, Clone, Copy, PartialEq, Eq, Structural)]
pub enum MouseButtonAction {
    LeftDown,
    LeftUp,
    RightDown,
    RightUp,
    MiddleDown,
    MiddleUp,
}

/// Selects the button action for a remote click.
pub fn click_action(button: u32, down: bool) -> (r: MouseButtonAction)
    ensures
        button == 0 && down ==> r == MouseButtonAction::LeftDown,
        button == 0 && !down ==> r == MouseButtonAction::LeftUp,
        button == 2 && down ==> r == MouseButtonAction::RightDown,
        button == 2 && !down ==> r == MouseButtonAction::RightUp,
        button != 0 && button != 2 && down ==> r == MouseButtonAction::MiddleDown,
        button != 0 && button != 2 && !down ==> r == MouseButtonAction::MiddleUp,
{
    if button == 0 {
        if down {
            MouseButtonAction::LeftDown
        } else {
            MouseButtonAction::LeftUp
        }
    } else if button == 2 {
        if down {
            MouseButtonAction::RightDown
        } else {
            MouseButtonAction::RightUp
        }
    } else if down {
        MouseButtonAction::MiddleDown
    } else {
        MouseButtonAction::MiddleUp
    }
}

/// Maps a global pixel coordinate onto the 0..=65535 scale of the virtual
/// desktop, as absolute mouse synthesis expects it.
pub fn coords_to_virtual(
    x: i64,
    y: i64,
    virtual_left: i64,
    virtual_top: i64,
    virtual_width: i64,
    virtual_height: i64,
) -> (r: (i32, i32))
    requires
        1 <= virtual_width <= 0x7FFF_FFFF,
        1 <= virtual_height <= 0x7FFF_FFFF,
        0 <= x - virtual_left <= virtual_width,
        0 <= y - virtual_top <= virtual_height,
    ensures
        r.0 == (x - virtual_left) * 65535 / (virtual_width as int),
        r.1 == (y - virtual_top) * 65535 / (virtual_height as int),
        0 <= r.0 <= 65535,
        0 <= r.1 <= 65535,
{
    let dx: i64 = x - virtual_left;
    let dy: i64 = y - virtual_top;
    assert(dx * 65535 <= virtual_width * 65535) by (nonlinear_arith)
        requires
            0 <= dx <= virtual_width,
    ;
    assert(dy * 65535 <= virtual_height * 65535) by (nonlinear_arith)
        requires
            0 <= dy <= virtual_height,
    ;
    let vx: i64 = dx * 65535 / virtual_width;
    let vy: i64 = dy * 65535 / virtual_height;
    assert(0 <= dx * 65535 / (virtual_width as int) <= 65535) by (nonlinear_arith)
        requires
            0 <= dx <= virtual_width,
            1 <= virtual_width,
    ;
    assert(0 <= dy * 65535 / (virtual_height as int) <= 65535) by (nonlinear_arith)
        requires
            0 <= dy <= virtual_height,
            1 <= virtual_height,
    ;
    (vx as i32, vy as i32)
}

} // verus!
