//! The capture pipeline's state machine: the single running stream, its
//! frame-callback bookkeeping (failure counting, buffer reallocation,
//! aspect-fit output sizing), stream recovery, and the self-capture
//! exclusion filter.
//!
//! The platform capturer, the pixel conversion and the video sink are
//! outside the library; they report each frame's result and geometry here
//! and carry out the returned action. The sink and the shared output
//! buffer appear as plain handles, so what a restart must preserve can be
//! said exactly.

use vstd::prelude::*;
use crate::geometry::{spec_aspect_fit, aspect_fit, Extent, Frame};

verus! {

/// Consecutive permanent failures tolerated before the process exits so a
/// supervisor can restart it.
pub const MAX_STREAM_FAILURES_BEFORE_EXIT: u64 = 5;

/// Exit code that tells the supervisor the stream is unrecoverable.
pub const STREAM_FAILURE_EXIT_CODE: i32 = 2;

/// What one capture attempt reported.
#[derive(Debug, Clone, Copy, PartialEq, Eq, Structural)]
pub enum CaptureResult {
    /// A frame was delivered.
    Success,
    /// A recoverable hiccup; the frame is skipped.
    ErrorTemporary,
    /// A fatal error for this stream; it must be recreated.
    ErrorPermanent,
    /// The OS revoked the capture at the user's request.
    ErrorUserStopped,
}

/// Control messages between the capture threads and their supervisor.
#[derive(Debug, Clone, Copy, PartialEq, Eq, Structural)]
pub enum StreamRuntimeMessage {
    /// The stream failed permanently and needs a restart.
    Failed,
    /// The supervisor thread should terminate.
    Stop,
    /// The frame-capture thread should stop capturing.
    StopCapture,
    /// The user stopped the capture through system controls.
    UserStoppedCapture,
}

/// What the frame callback asks its caller to do after the bookkeeping.
#[derive(Debug, Clone, Copy, PartialEq, Eq, Structural)]
pub enum FrameAction {
    /// Drop the frame: a temporary error, a zero-sized frame, or a stream
    /// that is no longer running.
    Ignore,
    /// Send this message on the stream's error channel.
    Notify(StreamRuntimeMessage),
    /// Convert and scale the frame into the stream buffer; no sink is
    /// bound yet, so nothing is submitted.
    ConvertOnly,
    /// Convert and scale the frame, then submit the stream buffer to the
    /// bound sink.
    ConvertAndSubmit,
}

/// The single running capture: source, buffers, observed source geometry
/// and failure count. The platform capturer's shared output buffer and the
/// transport's video sink appear as plain handles.
#[derive(Debug, Clone, Copy, PartialEq, Eq, Structural)]
pub struct Stream {
    /// Identifier of the captured display.
    pub source_id: u32,
    /// Target resolution of the published stream.
    pub stream_resolution: Extent,
    /// Dimensions of the capture-side conversion buffer.
    pub capture_buffer: Extent,
    /// Dimensions of the scaled buffer handed to the sink.
    pub stream_buffer: Extent,
    /// The currently observed source rectangle; changes when the display
    /// mode changes.
    pub frame: Frame,
    /// Consecutive failures since the last good frame.
    pub failures_count: u64,
    /// Handle of the transport's video sink, once bound.
    pub buffer_source: Option<u64>,
    /// Identity of the shared output buffer, which a restarted stream
    /// keeps so the consumer never sees a gap.
    pub buffer_id: u64,
    /// Whether the stream is capturing.
    pub running: bool,
}

impl Stream {
    /// A fresh stream for the given target resolution, around the shared
    /// output buffer named by `buffer_id`: empty buffers, no sink, no
    /// failures, not yet capturing.
    pub fn new(stream_resolution: Extent, buffer_id: u64) -> (r: Stream)
        ensures
            r.stream_resolution == stream_resolution,
            r.buffer_id == buffer_id,
            r.source_id == 0,
            r.capture_buffer == (Extent { width: 0, height: 0 }),
            r.stream_buffer == (Extent { width: 0, height: 0 }),
            r.failures_count == 0,
            r.buffer_source is None,
            !r.running,
    {
        Stream {
            source_id: 0,
            stream_resolution,
            capture_buffer: Extent { width: 0, height: 0 },
            stream_buffer: Extent { width: 0, height: 0 },
            frame: Frame::zero(),
            failures_count: 0,
            buffer_source: None,
            buffer_id,
            running: false,
        }
    }

    /// Starts capturing from the given source.
    pub fn start_capture(&mut self, id: u32)
        ensures
            *final(self) == (Stream { source_id: id, running: true, ..*old(self) }),
    {
        self.source_id = id;
        self.running = true;
    }

    /// Stops capturing; safe to call on a stopped stream.
    pub fn stop_capture(&mut self)
        ensures
            *final(self) == (Stream { running: false, ..*old(self) }),
    {
        self.running = false;
    }

    /// A replacement stream that shares everything a restart must keep:
    /// the source, the target resolution, the sink handle, the output
    /// buffer identity and the failure count. It is not yet capturing.
    pub fn copy(self) -> (r: Stream)
        ensures
            r.source_id == self.source_id,
            r.stream_resolution == self.stream_resolution,
            r.buffer_source == self.buffer_source,
            r.buffer_id == self.buffer_id,
            r.failures_count == self.failures_count,
            r.stream_buffer == self.stream_buffer,
            r.capture_buffer == self.capture_buffer,
            r.frame == self.frame,
            !r.running,
    {
        Stream { running: false, ..self }
    }

    /// The current failure count.
    pub fn get_failures_count(&self) -> (r: u64)
        ensures
            r == self.failures_count,
    {
        self.failures_count
    }

    /// The captured source's identifier.
    pub fn source_id(&self) -> (r: u32)
        ensures
            r == self.source_id,
    {
        self.source_id
    }

    /// Dimensions of the buffer handed to the sink.
    pub fn get_stream_extent(&self) -> (r: Extent)
        ensures
            r == self.stream_buffer,
    {
        self.stream_buffer
    }

    /// Binds the transport's video sink, identified by its handle.
    pub fn set_buffer_source(&mut self, buffer_source: u64)
        ensures
            *final(self) == (Stream { buffer_source: Some(buffer_source), ..*old(self) }),
    {
        self.buffer_source = Some(buffer_source);
    }

    /// The frame callback's bookkeeping for one capture attempt.
    ///
    /// A temporary error is dropped. A permanent error raises the failure
    /// count and notifies the supervisor. A user stop notifies the
    /// supervisor. A delivered frame resets the failure count to zero;
    /// then, if its geometry changed, the observed rectangle is updated
    /// and the buffers are resized, the output via aspect-fit into the
    /// target resolution; the frame is converted, and submitted where a
    /// sink is bound. A stream that is not running drops everything: no
    /// frame of a stopped stream reaches the sink.
    pub fn handle_frame(&mut self, result: CaptureResult, frame: Frame) -> (r: FrameAction)
        requires
            old(self).failures_count < u64::MAX,
        ensures
            !old(self).running ==> r == FrameAction::Ignore && *final(self) == *old(self),
            old(self).running && result == CaptureResult::ErrorTemporary ==> r
                == FrameAction::Ignore && *final(self) == *old(self),
            old(self).running && result == CaptureResult::ErrorPermanent ==> r
                == FrameAction::Notify(StreamRuntimeMessage::Failed) && *final(self) == (Stream {
                failures_count: (old(self).failures_count + 1) as u64,
                ..*old(self)
            }),
            old(self).running && result == CaptureResult::ErrorUserStopped ==> r
                == FrameAction::Notify(StreamRuntimeMessage::UserStoppedCapture) && *final(self)
                == *old(self),
            old(self).running && result == CaptureResult::Success ==> final(self).failures_count
                == 0,
            old(self).running && result == CaptureResult::Success && (frame.extent.width == 0
                || frame.extent.height == 0) ==> r == FrameAction::Ignore && *final(self)
                == (Stream { failures_count: 0, ..*old(self) }),
            old(self).running && result == CaptureResult::Success && frame.extent.width > 0
                && frame.extent.height > 0 ==> {
                &&& final(self).frame == frame
                &&& (if old(self).capture_buffer == frame.extent {
                    final(self).capture_buffer == old(self).capture_buffer && final(self).stream_buffer == old(self).stream_buffer
                } else {
                    final(self).capture_buffer == frame.extent && final(self).stream_buffer
                        == (Extent {
                        width: spec_aspect_fit(
                            frame.extent.width,
                            frame.extent.height,
                            old(self).stream_resolution.width,
                            old(self).stream_resolution.height,
                        ).0 as u32,
                        height: spec_aspect_fit(
                            frame.extent.width,
                            frame.extent.height,
                            old(self).stream_resolution.width,
                            old(self).stream_resolution.height,
                        ).1 as u32,
                    })
                })
                &&& r == (if old(self).buffer_source is Some {
                    FrameAction::ConvertAndSubmit
                } else {
                    FrameAction::ConvertOnly
                })
                &&& final(self).buffer_source == old(self).buffer_source
                &&& final(self).source_id == old(self).source_id
                &&& final(self).buffer_id == old(self).buffer_id
                &&& final(self).stream_resolution == old(self).stream_resolution
                &&& final(self).running
            },
    {
        if !self.running {
            return FrameAction::Ignore;
        }
        match result {
            CaptureResult::ErrorTemporary => FrameAction::Ignore,
            CaptureResult::ErrorPermanent => {
                self.failures_count = self.failures_count + 1;
                FrameAction::Notify(StreamRuntimeMessage::Failed)
            },
            CaptureResult::ErrorUserStopped => FrameAction::Notify(
                StreamRuntimeMessage::UserStoppedCapture,
            ),
            CaptureResult::Success => {
                self.failures_count = 0;
                if frame.extent.width == 0 || frame.extent.height == 0 {
                    return FrameAction::Ignore;
                }
                self.frame = frame;
                if !(self.capture_buffer == frame.extent) {
                    self.capture_buffer = frame.extent;
                    let fitted = aspect_fit(
                        frame.extent.width,
                        frame.extent.height,
                        self.stream_resolution.width,
                        self.stream_resolution.height,
                    );
                    self.stream_buffer = Extent { width: fitted.0, height: fitted.1 };
                }
                if self.buffer_source.is_some() {
                    FrameAction::ConvertAndSubmit
                } else {
                    FrameAction::ConvertOnly
                }
            },
        }
    }
}

/// Picks the index of the capture source whose identifier matches, or the
/// first source where none matches.
pub fn select_source(sources: &Vec<u64>, id: u32) -> (r: usize)
    requires
        sources@.len() > 0,
    ensures
        r < sources@.len(),
        (exists|j: int| 0 <= j < sources@.len() && sources@[j] == id as u64) ==> sources@[r as int]
            == id as u64,
        !(exists|j: int| 0 <= j < sources@.len() && sources@[j] == id as u64) ==> r == 0,
{
    let mut i: usize = 0;
    while i < sources.len()
        invariant
            0 <= i <= sources@.len(),
            sources@.len() > 0,
            forall|j: int| 0 <= j < i ==> sources@[j] != id as u64,
        decreases sources@.len() - i,
    {
        if sources[i] == id as u64 {
            return i;
        }
        i = i + 1;
    }
    0
}

/// Errors of the capture subsystem.
#[derive(Debug, Clone, Copy, PartialEq, Eq, Structural)]
pub enum CapturerError {
    /// The platform desktop capturer could not be created.
    DesktopCapturerCreationError,
    /// Not every source produced a thumbnail frame within the retry limit.
    FailedToCaptureFrames,
    /// Window-level sharing is not supported; only whole displays are
    /// captured.
    WindowContentUnsupported,
}

/// Outcome of a stream restart after a permanent failure.
#[derive(Debug, Clone, Copy, PartialEq, Eq, Structural)]
pub enum RestartOutcome {
    /// No stream was active; nothing to restart.
    NoStream,
    /// A replacement stream took over, sharing the buffers of the old one.
    Restarted,
    /// Too many consecutive failures: the process must exit with
    /// `STREAM_FAILURE_EXIT_CODE` so the supervisor restarts it.
    ExitProcess,
}

/// What the supervisor thread does with one runtime message.
#[derive(Debug, Clone, Copy, PartialEq, Eq, Structural)]
pub enum PollAction {
    /// Restart the failed stream.
    RestartStream,
    /// Tell the orchestrator that the user stopped the capture.
    ForwardStopScreenShare,
    /// Leave the supervisor loop.
    ExitLoop,
    /// Nothing; the message is for the frame-capture thread.
    Nothing,
}

/// Decides the supervisor thread's reaction to a runtime message.
pub fn poll_stream_action(message: StreamRuntimeMessage) -> (r: PollAction)
    ensures
        message == StreamRuntimeMessage::Failed ==> r == PollAction::RestartStream,
        message == StreamRuntimeMessage::UserStoppedCapture ==> r
            == PollAction::ForwardStopScreenShare,
        message == StreamRuntimeMessage::Stop ==> r == PollAction::ExitLoop,
        message == StreamRuntimeMessage::StopCapture ==> r == PollAction::Nothing,
{
    match message {
        StreamRuntimeMessage::Failed => PollAction::RestartStream,
        StreamRuntimeMessage::UserStoppedCapture => PollAction::ForwardStopScreenShare,
        StreamRuntimeMessage::Stop => PollAction::ExitLoop,
        StreamRuntimeMessage::StopCapture => PollAction::Nothing,
    }
}

/// What the frame-cadence thread does with one wait outcome: a timeout
/// triggers the next capture attempt, a stop request ends the loop, and
/// any other message is not for this thread.
#[derive(Debug, Clone, Copy, PartialEq, Eq, Structural)]
pub enum CaptureTickAction {
    /// Pull the next frame from the platform capturer.
    CaptureFrame,
    /// Leave the cadence loop.
    ExitLoop,
    /// Nothing; the message is for the supervisor.
    Nothing,
}

/// Decides the frame-cadence thread's reaction to one wait outcome:
/// `None` is the cadence timeout.
pub fn capture_tick_action(message: Option<StreamRuntimeMessage>) -> (r: CaptureTickAction)
    ensures
        message is None ==> r == CaptureTickAction::CaptureFrame,
        message == Some(StreamRuntimeMessage::StopCapture) ==> r == CaptureTickAction::ExitLoop,
        message matches Some(m) && m != StreamRuntimeMessage::StopCapture ==> r
            == CaptureTickAction::Nothing,
{
    match message {
        None => CaptureTickAction::CaptureFrame,
        Some(StreamRuntimeMessage::StopCapture) => CaptureTickAction::ExitLoop,
        Some(_) => CaptureTickAction::Nothing,
    }
}

/// Pause between two rounds of the enumeration poll, in milliseconds.
pub const SCREENSHOT_CAPTURE_SLEEP_MS: u64 = 33;

/// How many poll rounds the enumeration waits for every display to
/// produce a thumbnail or an error entry.
pub const MAX_SCREENSHOT_RETRY_ATTEMPTS: u32 = 100;

/// Where one round of the enumeration poll leaves it.
#[derive(Debug, Clone, Copy, PartialEq, Eq, Structural)]
pub enum ScreenshotPollOutcome {
    /// Every display produced an entry; the content list is ready.
    Done,
    /// The attempt limit passed with displays still missing; callers
    /// report `CapturerError::FailedToCaptureFrames`.
    TimedOut,
    /// Displays are still missing: capture another frame from each
    /// source and poll again after the sleep.
    Continue,
}

/// Decides one round of the enumeration poll from the attempts made so
/// far and how many of the displays have produced an entry.
pub fn screenshot_poll_outcome(attempts: u32, collected: usize, displays: usize) -> (r:
    ScreenshotPollOutcome)
    ensures
        collected == displays ==> r == ScreenshotPollOutcome::Done,
        collected != displays && attempts > MAX_SCREENSHOT_RETRY_ATTEMPTS ==> r
            == ScreenshotPollOutcome::TimedOut,
        collected != displays && attempts <= MAX_SCREENSHOT_RETRY_ATTEMPTS ==> r
            == ScreenshotPollOutcome::Continue,
{
    if collected == displays {
        ScreenshotPollOutcome::Done
    } else if attempts > MAX_SCREENSHOT_RETRY_ATTEMPTS {
        ScreenshotPollOutcome::TimedOut
    } else {
        ScreenshotPollOutcome::Continue
    }
}

/// The capture coordinator: at most one active stream, and a count of how
/// many times a stream has been stopped, which pins down that starting a
/// new capture stops the previous one exactly once.
pub struct Capturer {
    /// The running stream, if any.
    pub active_stream: Option<Stream>,
    /// How many stream stops this capturer has performed.
    pub streams_stopped: u64,
}

impl Capturer {
    /// A fresh, idle capturer.
    pub fn new() -> (r: Capturer)
        ensures
            r.active_stream is None,
            r.streams_stopped == 0,
    {
        Capturer { active_stream: None, streams_stopped: 0 }
    }

    /// Whether a capture stream is currently active.
    pub fn has_active_stream(&self) -> (r: bool)
        ensures
            r == (self.active_stream is Some),
    {
        self.active_stream.is_some()
    }

    /// Starts capturing the given source at the given target resolution,
    /// around the shared output buffer named by `buffer_id`.
    ///
    /// A previously active stream is stopped, exactly once. The window
    /// content variant is rejected: only whole displays are shared.
    pub fn start_capture(
        &mut self,
        content: crate::messages::Content,
        stream_resolution: Extent,
        buffer_id: u64,
    ) -> (r: Result<(), CapturerError>)
        requires
            old(self).streams_stopped < u64::MAX,
        ensures
            content.content_type is Window ==> r == Result::<
                (),
                CapturerError,
            >::Err(CapturerError::WindowContentUnsupported) && *final(self) == *old(self),
            content.content_type is Display ==> {
                &&& r is Ok
                &&& final(self).streams_stopped == old(self).streams_stopped + (
                if old(self).active_stream is Some {
                    1int
                } else {
                    0int
                })
                &&& final(self).active_stream matches Some(s) && s.source_id == content.id
                    && s.stream_resolution == stream_resolution && s.buffer_id == buffer_id
                    && s.running && s.failures_count == 0 && s.buffer_source is None
            },
    {
        if matches!(content.content_type, crate::messages::ContentType::Window { .. }) {
            return Err(CapturerError::WindowContentUnsupported);
        }
        if self.active_stream.is_some() {
            self.stop_active_stream();
        }
        let mut stream = Stream::new(stream_resolution, buffer_id);
        stream.start_capture(content.id);
        self.active_stream = Some(stream);
        Ok(())
    }

    /// Stops and drops the active stream; a no-op when none is active.
    pub fn stop_capture(&mut self)
        requires
            old(self).streams_stopped < u64::MAX,
        ensures
            final(self).active_stream is None,
            old(self).active_stream is Some ==> final(self).streams_stopped == old(
                self,
            ).streams_stopped + 1,
            old(self).active_stream is None ==> final(self).streams_stopped == old(
                self,
            ).streams_stopped,
    {
        if self.active_stream.is_some() {
            self.stop_active_stream();
        }
        self.active_stream = None;
    }

    /// Stops the active stream in place, counting the stop.
    fn stop_active_stream(&mut self)
        requires
            old(self).active_stream is Some,
            old(self).streams_stopped < u64::MAX,
        ensures
            final(self).streams_stopped == old(self).streams_stopped + 1,
            final(self).active_stream matches Some(s) && s == (Stream {
                running: false,
                ..old(self).active_stream->Some_0
            }),
    {
        let stream = self.active_stream.as_mut().unwrap();
        stream.stop_capture();
        self.streams_stopped = self.streams_stopped + 1;
    }

    /// Recovers from a permanent stream failure: the stream is stopped;
    /// over the failure threshold the process must exit so the supervisor
    /// restarts it, otherwise a replacement stream sharing the old one's
    /// buffers and counters takes over and capture resumes on the same
    /// source.
    pub fn restart_stream(&mut self) -> (r: RestartOutcome)
        requires
            old(self).streams_stopped < u64::MAX,
        ensures
            old(self).active_stream is None ==> r == RestartOutcome::NoStream && *final(self)
                == *old(self),
            old(self).active_stream is Some ==> final(self).streams_stopped == old(
                self,
            ).streams_stopped + 1,
            old(self).active_stream is Some && old(self).active_stream->Some_0.failures_count
                > MAX_STREAM_FAILURES_BEFORE_EXIT ==> {
                &&& r == RestartOutcome::ExitProcess
                &&& final(self).active_stream is None
            },
            old(self).active_stream is Some && old(self).active_stream->Some_0.failures_count
                <= MAX_STREAM_FAILURES_BEFORE_EXIT ==> {
                let s = old(self).active_stream->Some_0;
                &&& r == RestartOutcome::Restarted
                &&& final(self).active_stream is Some
                &&& final(self).active_stream->Some_0.source_id == s.source_id
                &&& final(self).active_stream->Some_0.stream_resolution == s.stream_resolution
                &&& final(self).active_stream->Some_0.buffer_source == s.buffer_source
                &&& final(self).active_stream->Some_0.buffer_id == s.buffer_id
                &&& final(self).active_stream->Some_0.failures_count == s.failures_count
                &&& final(self).active_stream->Some_0.stream_buffer == s.stream_buffer
                &&& final(self).active_stream->Some_0.running
            },
    {
        if self.active_stream.is_none() {
            return RestartOutcome::NoStream;
        }
        self.stop_active_stream();
        let stream = self.active_stream.take().unwrap();
        let failures_count = stream.get_failures_count();
        if failures_count > MAX_STREAM_FAILURES_BEFORE_EXIT {
            return RestartOutcome::ExitProcess;
        }
        let mut new_stream = stream.copy();
        let source_id = new_stream.source_id();
        new_stream.start_capture(source_id);
        self.active_stream = Some(new_stream);
        RestartOutcome::Restarted
    }

    /// Dimensions of the active stream's output buffer; zero when no
    /// stream is active.
    pub fn get_stream_extent(&self) -> (r: Extent)
        ensures
            self.active_stream matches Some(s) ==> r == s.stream_buffer,
            self.active_stream is None ==> r == (Extent { width: 0, height: 0 }),
    {
        match &self.active_stream {
            Some(stream) => stream.get_stream_extent(),
            None => Extent { width: 0, height: 0 },
        }
    }

    /// Binds the transport's video sink to the active stream; a no-op
    /// when none is active.
    pub fn set_buffer_source(&mut self, buffer_source: u64)
        ensures
            old(self).active_stream matches Some(s) ==> final(self).active_stream == Some(
                Stream { buffer_source: Some(buffer_source), ..s },
            ),
            old(self).active_stream is None ==> *final(self) == *old(self),
            final(self).streams_stopped == old(self).streams_stopped,
    {
        match self.active_stream.as_mut() {
            Some(stream) => stream.set_buffer_source(buffer_source),
            None => (),
        }
    }
}

/// Whether `needle` occurs as a contiguous run inside `hay`.
pub open spec fn contains_seq(hay: Seq<char>, needle: Seq<char>) -> bool {
    exists|k: int|
        0 <= k <= hay.len() - needle.len() && #[trigger] hay.subrange(k, k + needle.len())
            == needle
}

/// Looks for `needle` as a substring of `hay`.
pub fn string_contains(hay: &str, needle: &str) -> (r: bool)
    ensures
        r == contains_seq(hay@, needle@),
{
    let n: usize = hay.unicode_len();
    let m: usize = needle.unicode_len();
    if m > n {
        assert(!contains_seq(hay@, needle@));
        return false;
    }
    let mut k: usize = 0;
    while k <= n - m
        invariant
            m <= n,
            n == hay@.len(),
            m == needle@.len(),
            0 <= k <= n - m + 1,
            forall|k0: int|
                0 <= k0 < k ==> #[trigger] hay@.subrange(k0, k0 + needle@.len()) != needle@,
        decreases n - m + 1 - k,
    {
        let mut j: usize = 0;
        let mut matches_here: bool = true;
        while j < m
            invariant
                m <= n,
                n == hay@.len(),
                m == needle@.len(),
                0 <= k <= n - m,
                0 <= j <= m,
                matches_here == (forall|j0: int|
                    0 <= j0 < j ==> hay@[k + j0] == needle@[j0]),
            decreases m - j,
        {
            let hc: char = hay.get_char(k + j);
            let nc: char = needle.get_char(j);
            if hc != nc {
                matches_here = false;
                j = m;
            } else {
                j = j + 1;
            }
        }
        if matches_here {
            assert(hay@.subrange(k as int, k + needle@.len()) =~= needle@);
            return true;
        }
        proof {
            assert(hay@.subrange(k as int, k + needle@.len()) != needle@) by {
                if hay@.subrange(k as int, k + needle@.len()) == needle@ {
                    assert(forall|j0: int|
                        0 <= j0 < m ==> hay@[k + j0] == #[trigger] needle@[j0]) by {
                        assert(forall|j0: int|
                            0 <= j0 < m ==> hay@.subrange(k as int, k + needle@.len())[j0]
                                == #[trigger] needle@[j0]);
                    }
                }
            }
        }
        k = k + 1;
    }
    assert(forall|k0: int|
        0 <= k0 <= hay@.len() - needle@.len() ==> #[trigger] hay@.subrange(k0, k0 + needle@.len())
            != needle@);
    false
}

/// The self-capture exclusion rule: a process is excluded when its
/// executable name contains the agent's brand.
pub open spec fn is_agent_process(name: Seq<char>) -> bool {
    contains_seq(name, "hopp"@)
}

/// Filters a process list down to the identifiers of the agent's own
/// processes, which the capturer excludes from the captured image; the
/// filter is verified for every possible table.
pub fn excluded_pids(processes: &Vec<(u64, String)>) -> (r: Vec<u64>)
    ensures
        r@ == excluded_pids_spec(processes@),
{
    let mut pids: Vec<u64> = Vec::new();
    let ghost all = processes@;
    let mut i: usize = 0;
    while i < processes.len()
        invariant
            0 <= i <= all.len(),
            processes@ == all,
            pids@ == excluded_pids_spec(all.subrange(0, i as int)),
        decreases all.len() - i,
    {
        proof {
            assert(all.subrange(0, i as int + 1).drop_last() =~= all.subrange(0, i as int));
        }
        if string_contains(processes[i].1.as_str(), "hopp") {
            pids.push(processes[i].0);
        }
        i = i + 1;
    }
    proof {
        assert(all.subrange(0, all.len() as int) =~= all);
    }
    pids
}

/// The identifiers of the agent's own processes, in list order.
pub open spec fn excluded_pids_spec(processes: Seq<(u64, String)>) -> Seq<u64>
    decreases processes.len(),
{
    if processes.len() == 0 {
        Seq::empty()
    } else {
        let rest = excluded_pids_spec(processes.drop_last());
        if is_agent_process(processes.last().1@) {
            rest.push(processes.last().0)
        } else {
            rest
        }
    }
}

/// Relies on sysinfo's `System::new_all` and `System::processes` for the
/// identifiers and executable names of the running processes. What the
/// table holds depends on the machine and the moment, so nothing is
/// promised of the result; `excluded_pids` is verified for every table.
#[verifier::external_body]
fn list_processes() -> (r: Vec<(u64, String)>) {
    sysinfo::System::new_all().processes().iter().map(
        |(pid, process)| ((pid.as_u32() as u64), process.name().to_string_lossy().into_owned()),
    ).collect()
}

/// The identifiers the capturer excludes before a capture starts: the
/// agent's own processes, read from the machine's process table. What
/// the table held cannot be promised here; the selection rule is
/// `excluded_pids`, which does the work.
pub fn get_excluded_application_pids() -> (r: Vec<u64>) {
    let processes = list_processes();
    excluded_pids(&processes)
}

} // verus!
