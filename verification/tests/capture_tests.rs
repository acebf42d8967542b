//! The capture pipeline: frame bookkeeping, stream recovery and the
//! self-capture exclusion filter.

use hopp_core::capture::{
    capture_tick_action, excluded_pids, get_excluded_application_pids, poll_stream_action,
    screenshot_poll_outcome, select_source, string_contains, CaptureResult, CaptureTickAction,
    Capturer, CapturerError, FrameAction, PollAction, RestartOutcome, ScreenshotPollOutcome,
    Stream, StreamRuntimeMessage, MAX_SCREENSHOT_RETRY_ATTEMPTS, MAX_STREAM_FAILURES_BEFORE_EXIT,
    SCREENSHOT_CAPTURE_SLEEP_MS, STREAM_FAILURE_EXIT_CODE,
};
use hopp_core::display::{MonitorInfo, ScreenshareFunctions};
use hopp_core::geometry::{Extent, Frame, Position};
use hopp_core::messages::{Content, ContentType};
use hopp_core::room::{is_screenshare_takeover, max_bitrate_for_width, should_announce_participant};

fn frame(width: u32, height: u32) -> Frame {
    Frame { origin_x: 0, origin_y: 0, extent: Extent { width, height } }
}

#[test]
fn a_good_frame_resets_the_failure_count() {
    let mut stream = Stream::new(Extent { width: 1920, height: 1080 }, 7);
    stream.start_capture(3);
    stream.handle_frame(CaptureResult::ErrorPermanent, frame(0, 0));
    stream.handle_frame(CaptureResult::ErrorPermanent, frame(0, 0));
    stream.handle_frame(CaptureResult::ErrorTemporary, frame(0, 0));
    assert_eq!(stream.get_failures_count(), 2);
    let action = stream.handle_frame(CaptureResult::Success, frame(2560, 1440));
    assert_eq!(stream.get_failures_count(), 0);
    // No sink bound yet: the frame is converted but not submitted.
    assert_eq!(action, FrameAction::ConvertOnly);
}

#[test]
fn frame_errors_notify_the_supervisor() {
    let mut stream = Stream::new(Extent { width: 1920, height: 1080 }, 7);
    stream.start_capture(3);
    assert_eq!(
        stream.handle_frame(CaptureResult::ErrorPermanent, frame(0, 0)),
        FrameAction::Notify(StreamRuntimeMessage::Failed)
    );
    assert_eq!(
        stream.handle_frame(CaptureResult::ErrorUserStopped, frame(0, 0)),
        FrameAction::Notify(StreamRuntimeMessage::UserStoppedCapture)
    );
    assert_eq!(
        stream.handle_frame(CaptureResult::ErrorTemporary, frame(0, 0)),
        FrameAction::Ignore
    );
}

#[test]
fn delivered_frames_size_the_buffers_and_reach_a_bound_sink() {
    let mut stream = Stream::new(Extent { width: 1920, height: 1080 }, 7);
    stream.start_capture(3);
    stream.set_buffer_source(42);
    let action = stream.handle_frame(CaptureResult::Success, frame(2560, 1440));
    assert_eq!(action, FrameAction::ConvertAndSubmit);
    // The output buffer is the source aspect-fitted into the target.
    assert_eq!(stream.get_stream_extent(), Extent { width: 1920, height: 1080 });
    // An unchanged geometry keeps the buffers.
    let action = stream.handle_frame(CaptureResult::Success, frame(2560, 1440));
    assert_eq!(action, FrameAction::ConvertAndSubmit);
    assert_eq!(stream.get_stream_extent(), Extent { width: 1920, height: 1080 });
}

#[test]
fn a_stopped_stream_submits_nothing() {
    let mut stream = Stream::new(Extent { width: 1920, height: 1080 }, 7);
    stream.start_capture(3);
    stream.set_buffer_source(42);
    stream.stop_capture();
    let action = stream.handle_frame(CaptureResult::Success, frame(2560, 1440));
    assert_eq!(action, FrameAction::Ignore);
}

#[test]
fn stream_copy_preserves_what_a_restart_needs() {
    let mut stream = Stream::new(Extent { width: 1920, height: 1080 }, 7);
    stream.start_capture(3);
    stream.set_buffer_source(42);
    stream.handle_frame(CaptureResult::Success, frame(2560, 1440));
    stream.handle_frame(CaptureResult::ErrorPermanent, frame(0, 0));
    let copy = stream.copy();
    assert_eq!(copy.source_id(), 3);
    assert_eq!(copy.stream_resolution, Extent { width: 1920, height: 1080 });
    assert_eq!(copy.buffer_source, Some(42));
    assert_eq!(copy.buffer_id, 7);
    assert_eq!(copy.get_failures_count(), 1);
    assert_eq!(copy.get_stream_extent(), Extent { width: 1920, height: 1080 });
    assert!(!copy.running);
}

#[test]
fn starting_a_new_capture_stops_the_previous_stream_once() {
    let mut capturer = Capturer::new();
    let display = |id| Content { content_type: ContentType::Display, id };
    assert!(capturer.start_capture(display(1), Extent { width: 1920, height: 1080 }, 0).is_ok());
    assert_eq!(capturer.streams_stopped, 0);
    assert!(capturer.start_capture(display(2), Extent { width: 1920, height: 1080 }, 1).is_ok());
    // The previous stream was stopped exactly once.
    assert_eq!(capturer.streams_stopped, 1);
    assert_eq!(capturer.active_stream.as_ref().unwrap().source_id(), 2);
    assert!(capturer.has_active_stream());
    capturer.stop_capture();
    assert_eq!(capturer.streams_stopped, 2);
    assert!(!capturer.has_active_stream());
}

#[test]
fn window_content_is_rejected() {
    let mut capturer = Capturer::new();
    let window = Content { content_type: ContentType::Window { display_id: 1 }, id: 9 };
    assert_eq!(
        capturer.start_capture(window, Extent { width: 1920, height: 1080 }, 0),
        Err(CapturerError::WindowContentUnsupported)
    );
    assert!(!capturer.has_active_stream());
}

#[test]
fn restart_on_permanent_errors_until_the_threshold() {
    let mut capturer = Capturer::new();
    let display = Content { content_type: ContentType::Display, id: 5 };
    capturer.start_capture(display, Extent { width: 1920, height: 1080 }, 0).unwrap();
    // Five permanent errors in a row: each one is recovered by a fresh
    // stream sharing the old one's buffers.
    for expected_failures in 1..=MAX_STREAM_FAILURES_BEFORE_EXIT {
        let stream = capturer.active_stream.as_mut().unwrap();
        stream.handle_frame(CaptureResult::ErrorPermanent, frame(0, 0));
        assert_eq!(stream.get_failures_count(), expected_failures);
        assert_eq!(capturer.restart_stream(), RestartOutcome::Restarted);
        assert_eq!(capturer.active_stream.as_ref().unwrap().source_id(), 5);
        assert!(capturer.active_stream.as_ref().unwrap().running);
    }
    // The sixth in a row pushes the counter over the threshold: the
    // process must exit so the supervisor restarts it.
    let stream = capturer.active_stream.as_mut().unwrap();
    stream.handle_frame(CaptureResult::ErrorPermanent, frame(0, 0));
    assert_eq!(stream.get_failures_count(), 6);
    assert_eq!(capturer.restart_stream(), RestartOutcome::ExitProcess);
    assert_eq!(STREAM_FAILURE_EXIT_CODE, 2);
}

#[test]
fn a_good_frame_between_failures_restarts_the_count() {
    let mut capturer = Capturer::new();
    let display = Content { content_type: ContentType::Display, id: 5 };
    capturer.start_capture(display, Extent { width: 1920, height: 1080 }, 0).unwrap();
    for _ in 0..4 {
        let stream = capturer.active_stream.as_mut().unwrap();
        stream.handle_frame(CaptureResult::ErrorPermanent, frame(0, 0));
        assert_eq!(capturer.restart_stream(), RestartOutcome::Restarted);
    }
    // A delivered frame resets the count; the next failure starts at 1.
    let stream = capturer.active_stream.as_mut().unwrap();
    stream.handle_frame(CaptureResult::Success, frame(1920, 1080));
    stream.handle_frame(CaptureResult::ErrorPermanent, frame(0, 0));
    assert_eq!(stream.get_failures_count(), 1);
    assert_eq!(capturer.restart_stream(), RestartOutcome::Restarted);
}

#[test]
fn supervisor_reactions_per_message() {
    assert_eq!(poll_stream_action(StreamRuntimeMessage::Failed), PollAction::RestartStream);
    assert_eq!(
        poll_stream_action(StreamRuntimeMessage::UserStoppedCapture),
        PollAction::ForwardStopScreenShare
    );
    assert_eq!(poll_stream_action(StreamRuntimeMessage::Stop), PollAction::ExitLoop);
    assert_eq!(poll_stream_action(StreamRuntimeMessage::StopCapture), PollAction::Nothing);
}

#[test]
fn source_selection_prefers_the_matching_id() {
    let sources = vec![10u64, 20, 30];
    assert_eq!(select_source(&sources, 20), 1);
    assert_eq!(select_source(&sources, 30), 2);
    assert_eq!(select_source(&sources, 99), 0);
}

#[test]
fn agent_processes_are_excluded_from_capture() {
    let processes = vec![
        (100u64, "firefox".to_string()),
        (200, "hopp_core".to_string()),
        (300, "code".to_string()),
        (400, "hopp".to_string()),
        (500, "shopping".to_string()),
    ];
    // "shopping" contains "hopp" as a substring, so it is excluded too:
    // the rule matches anywhere in the name.
    assert_eq!(excluded_pids(&processes), vec![200, 400, 500]);
    // Against the live process table the call just has to hold together;
    // this test process is no agent process.
    let _ = get_excluded_application_pids();
    assert!(string_contains("hopp_core", "hopp"));
    assert!(string_contains("hopp", "hopp"));
    assert!(!string_contains("hop", "hopp"));
    assert!(string_contains("anything", ""));
    assert!(!string_contains("firefox", "hopp"));
}

#[test]
fn bitrate_follows_the_stream_width() {
    assert_eq!(max_bitrate_for_width(1920), 2_000_000);
    assert_eq!(max_bitrate_for_width(2048), 3_500_000);
    assert_eq!(max_bitrate_for_width(2560), 5_000_000);
    assert_eq!(max_bitrate_for_width(1280), 8_000_000);
    assert_eq!(max_bitrate_for_width(3840), 8_000_000);
}

#[test]
fn monitors_match_by_native_id() {
    let monitors = vec![
        MonitorInfo {
            native_id: 10,
            position: Position { x: 0, y: 0 },
            extent: Extent { width: 1920, height: 1080 },
            scale_millis: 1000,
        },
        MonitorInfo {
            native_id: 20,
            position: Position { x: 1920, y: 0 },
            extent: Extent { width: 2560, height: 1440 },
            scale_millis: 2000,
        },
    ];
    assert_eq!(
        ScreenshareFunctions::get_monitor_size(&monitors, 20),
        Extent { width: 2560, height: 1440 }
    );
    assert_eq!(
        ScreenshareFunctions::get_monitor_size(&monitors, 99),
        Extent { width: 0, height: 0 }
    );
    assert_eq!(ScreenshareFunctions::get_selected_monitor(&monitors, 20), 1);
    assert_eq!(ScreenshareFunctions::get_selected_monitor(&monitors, 99), 0);
}

#[test]
fn participants_filter_by_identity_and_name() {
    assert!(should_announce_participant("user-7", "Alice"));
    assert!(!should_announce_participant("audio-3", "Alice"));
    assert!(!should_announce_participant("user-7", ""));
    assert!(is_screenshare_takeover("video-2"));
    assert!(!is_screenshare_takeover("user-2"));
}

#[test]
fn cadence_thread_reacts_to_timeouts_and_stop() {
    assert_eq!(capture_tick_action(None), CaptureTickAction::CaptureFrame);
    assert_eq!(
        capture_tick_action(Some(StreamRuntimeMessage::StopCapture)),
        CaptureTickAction::ExitLoop
    );
    assert_eq!(
        capture_tick_action(Some(StreamRuntimeMessage::Failed)),
        CaptureTickAction::Nothing
    );
}

#[test]
fn enumeration_polls_until_every_display_answers() {
    // Three displays: with two entries collected the poll continues,
    // the limit passed it times out, everyone answered it is done.
    assert_eq!(screenshot_poll_outcome(0, 2, 3), ScreenshotPollOutcome::Continue);
    assert_eq!(screenshot_poll_outcome(100, 2, 3), ScreenshotPollOutcome::Continue);
    assert_eq!(
        screenshot_poll_outcome(MAX_SCREENSHOT_RETRY_ATTEMPTS + 1, 2, 3),
        ScreenshotPollOutcome::TimedOut
    );
    assert_eq!(screenshot_poll_outcome(101, 3, 3), ScreenshotPollOutcome::Done);
    assert_eq!(screenshot_poll_outcome(0, 0, 0), ScreenshotPollOutcome::Done);
    assert_eq!(SCREENSHOT_CAPTURE_SLEEP_MS, 33);
}
