//! The shell-to-core message model: what crosses the local IPC socket,
//! with coordinates and resolutions as whole pixels.
//!
//! On the wire each message is a length-prefixed JSON document; the JSON
//! encoding and decoding happen outside the library, which works on these
//! plain values.

use vstd::prelude::*;
use crate::geometry::Extent;

verus! {

/// What kind of content a capture source identifier names. Window-level
/// sharing is declared but not supported: the core rejects it.
#[derive(Debug, Clone, Copy, PartialEq, Eq, Structural)]
pub enum ContentType {
    Display,
    Window { display_id: u32 },
}

/// One shareable content: a display (or, unsupported, a window) and its
/// platform identifier.
#[derive(Debug, Clone, Copy, PartialEq, Eq, Structural)]
pub struct Content {
    pub content_type: ContentType,
    pub id: u32,
}

impl Content {
    /// Whether this content is a whole display, the only supported kind.
    pub fn is_display(&self) -> (r: bool)
        ensures
            r == (self.content_type is Display),
    {
        matches!(self.content_type, ContentType::Display)
    }
}

/// A shareable content with its enumeration-time preview: a base64 JPEG
/// thumbnail data-URL and a human-readable title.
#[derive(Debug, Clone)]
pub struct CaptureContent {
    pub content: Content,
    pub base64: String,
    pub title: String,
}

/// The reply to a content enumeration request.
#[derive(Debug)]
pub struct AvailableContentMessage {
    pub content: Vec<CaptureContent>,
}

/// A keystroke as the shell forwards it.
#[derive(Debug, Clone)]
pub struct KeystrokeMessage {
    pub key: String,
    pub meta: bool,
    pub shift: bool,
    pub ctrl: bool,
    pub alt: bool,
    pub down: bool,
}

/// The request that starts a screen share: what to capture, the signaling
/// token, and the target stream resolution in whole pixels.
#[derive(Debug, Clone)]
pub struct ScreenShareMessage {
    pub content: Content,
    pub token: String,
    pub resolution: Extent,
}

/// Every message of the shell-core IPC protocol, both directions.
#[derive(Debug)]
pub enum Message {
    GetAvailableContent,
    AvailableContent(AvailableContentMessage),
    StartScreenShare(ScreenShareMessage),
    StartScreenShareResult(bool),
    StopScreenshare,
    Reset,
    Ping,
    ControllerCursorEnabled(bool),
    LivekitServerUrl(String),
}

} // verus!
