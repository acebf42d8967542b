//! The shell's sound subsystem as the library sees it: the errors of the
//! playback path and the commands its control channel carries.
//!
//! The playback itself (audio device, decoding, the thread that loops on
//! the channel) lives outside the library.

use vstd::prelude::*;

verus! {

/// Errors of sound playback.
#[derive(Debug, Clone, Copy, PartialEq, Eq, Structural)]
pub enum SoundsError {
    /// The default audio output stream could not be created.
    StreamCreationError,
    /// The audio sink could not be created.
    SinkCreationError,
    /// The sound file could not be opened.
    FileOpenError,
    /// The audio source could not be decoded from the file.
    SourceCreationError,
}

/// Commands of a playing sound's control channel.
#[derive(Debug, Clone, Copy, PartialEq, Eq, Structural)]
pub enum SoundCommand {
    /// Stop playback immediately and clear the sink.
    Stop,
    /// Keep the playback thread alive without touching playback.
    Ping,
}

} // verus!
