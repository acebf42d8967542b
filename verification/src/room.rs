//! The data-channel event model and the room-side rules: the tagged
//! events controllers send, the bitrate chosen for the published video
//! track, and which participants the room announces to the session.
//!
//! The transport itself (room connection, track publishing, JSON
//! en/decoding of the events) lives outside the library.

use vstd::prelude::*;
use crate::capture::{contains_seq, string_contains};

verus! {

/// Bitrate for a 1920-pixel-wide stream, in bits per second.
pub const BITRATE_1920: u64 = 2_000_000;

/// Bitrate for a 2048-pixel-wide stream, in bits per second.
pub const BITRATE_2048: u64 = 3_500_000;

/// Bitrate for a 2560-pixel-wide stream, in bits per second.
pub const BITRATE_2560: u64 = 5_000_000;

/// Bitrate for every other stream width, in bits per second.
pub const BITRATE_DEFAULT: u64 = 8_000_000;

/// A point in normalized display coordinates, in micro units.
#[derive(Debug, Clone, Copy, PartialEq, Eq, Structural)]
pub struct ClientPoint {
    pub x: i64,
    pub y: i64,
}

/// A remote click: where, which button, how many clicks, press or
/// release, and the held modifiers.
#[derive(Debug, Clone, Copy, PartialEq, Eq, Structural)]
pub struct MouseClickData {
    /// Click position, normalized, in micro units.
    pub x: i64,
    /// Click position, normalized, in micro units.
    pub y: i64,
    /// The button: 0 left, 2 right, anything else middle.
    pub button: u32,
    /// The click count (1 single, 2 double, ...).
    pub clicks: u32,
    /// True on press, false on release.
    pub down: bool,
    pub shift: bool,
    pub meta: bool,
    pub ctrl: bool,
    pub alt: bool,
}

/// Whether the remote cursor badge should be shown.
#[derive(Debug, Clone, Copy, PartialEq, Eq, Structural)]
pub struct MouseVisibleData {
    pub visible: bool,
}

/// A remote wheel event's deltas, in browser pixels.
#[derive(Debug, Clone, Copy, PartialEq, Eq, Structural)]
pub struct WheelDelta {
    pub delta_x: i64,
    pub delta_y: i64,
}

/// A remote keystroke; the key strings as the sender's browser names
/// them.
#[derive(Debug, Clone)]
pub struct KeystrokeData {
    pub key: Vec<String>,
    pub meta: bool,
    pub ctrl: bool,
    pub shift: bool,
    pub alt: bool,
    pub down: bool,
}

/// Timing data of a latency measurement tick.
#[derive(Debug, Clone, Copy, PartialEq, Eq, Structural)]
pub struct TickData {
    pub time: u128,
}

/// Whether remote control is currently enabled.
#[derive(Debug, Clone, Copy, PartialEq, Eq, Structural)]
pub struct RemoteControlEnabled {
    pub enabled: bool,
}

/// Every event of the data-channel schema, both directions.
#[derive(Debug)]
pub enum ClientEvent {
    MouseMove(ClientPoint),
    MouseClick(MouseClickData),
    MouseVisible(MouseVisibleData),
    Keystroke(KeystrokeData),
    WheelEvent(WheelDelta),
    Tick(TickData),
    TickResponse(TickData),
    RemoteControlEnabled(RemoteControlEnabled),
}

/// Errors of the room service.
#[derive(Debug, Clone)]
pub enum RoomServiceError {
    /// The room could not be created; the text says why.
    CreateRoom(String),
}

/// The bitrate the published video track gets for its width: the first
/// matching of 1920, 2048 and 2560 pixels, else the default.
pub fn max_bitrate_for_width(width: u32) -> (r: u64)
    ensures
        width == 1920 ==> r == BITRATE_1920,
        width == 2048 ==> r == BITRATE_2048,
        width == 2560 ==> r == BITRATE_2560,
        width != 1920 && width != 2048 && width != 2560 ==> r == BITRATE_DEFAULT,
{
    if width == 1920 {
        BITRATE_1920
    } else if width == 2048 {
        BITRATE_2048
    } else if width == 2560 {
        BITRATE_2560
    } else {
        BITRATE_DEFAULT
    }
}

/// Whether a participant is announced to the session: audio-only
/// participants (an identity containing "audio") and participants without
/// a name stay invisible.
pub fn should_announce_participant(identity: &str, name: &str) -> (r: bool)
    ensures
        r == (!contains_seq(identity@, "audio"@) && name@.len() > 0),
{
    let is_audio = string_contains(identity, "audio");
    !is_audio && !name.is_empty()
}

/// Whether a publishing participant is a controller taking over the
/// screen share: its identity contains "video".
pub fn is_screenshare_takeover(identity: &str) -> (r: bool)
    ensures
        r == contains_seq(identity@, "video"@),
{
    string_contains(identity, "video")
}

} // verus!
