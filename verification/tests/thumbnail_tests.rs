//! The thumbnail pipeline against the real codecs, plus the badge sizing
//! rules and the remaining small modules.

use base64::Engine;
use hopp_core::app_state::{migrate_old_state, AppState, AppStateInternal};
use hopp_core::badge::{calculate_box_width, clamp_badge_name, BADGE_MAX_WIDTH_TENTHS};
use hopp_core::permissions::{
    accessibility, has_ungranted_permissions, microphone, screenshare, PlatformPermissions,
};
use hopp_core::thumbnail::{
    bgra_to_rgb, build_capture_content, content_has_display, empty_capture_content,
    strip_stride_padding,
};

#[test]
fn stride_padding_is_stripped_row_by_row() {
    // Two rows of one pixel, six bytes of stride each: the last two
    // bytes of every row are padding.
    let data = vec![1u8, 2, 3, 4, 90, 91, 5, 6, 7, 8, 92, 93];
    assert_eq!(strip_stride_padding(&data, 6, 1, 2), vec![1, 2, 3, 4, 5, 6, 7, 8]);
}

#[test]
fn bgra_pixels_swizzle_to_rgb() {
    let data = vec![1u8, 2, 3, 4, 5, 6, 7, 8];
    assert_eq!(bgra_to_rgb(&data), vec![3, 2, 1, 7, 6, 5]);
    assert_eq!(bgra_to_rgb(&Vec::new()), Vec::<u8>::new());
}

#[test]
fn thumbnails_come_back_as_jpeg_data_urls() {
    // A solid orange 100x50 frame, stride 400 (no padding), BGRA.
    let mut frame = Vec::with_capacity(100 * 50 * 4);
    for _ in 0..(100 * 50) {
        frame.extend_from_slice(&[0x00, 0x80, 0xFF, 0xFF]);
    }
    let content = build_capture_content(&frame, 400, 100, 50, 7, "Display 7".to_string())
        .expect("a well-formed frame yields a picker entry");
    assert_eq!(content.content.id, 7);
    assert_eq!(content.title, "Display 7");
    let prefix = "data:image/jpeg;base64,";
    assert!(content.base64.starts_with(prefix));
    // The payload is real base64 holding a real JPEG: decoding it and
    // checking the JPEG start-of-image marker exercises the resize, the
    // encoder and the base64 engine end to end.
    let payload = &content.base64[prefix.len()..];
    assert!(!payload.is_empty());
    let jpeg = base64::engine::general_purpose::STANDARD
        .decode(payload)
        .expect("the data URL payload decodes as base64");
    assert_eq!(&jpeg[0..2], &[0xFF, 0xD8]);
}

#[test]
fn degenerate_frames_yield_no_thumbnail() {
    assert!(build_capture_content(&Vec::new(), 0, 0, 5, 7, "x".to_string()).is_none());
}

#[test]
fn error_entries_carry_an_empty_preview() {
    let entry = empty_capture_content(3, "Broken display".to_string());
    assert_eq!(entry.content.id, 3);
    assert_eq!(entry.base64, "");
    assert_eq!(entry.title, "Broken display");
    let collected = vec![entry];
    assert!(content_has_display(&collected, 3));
    assert!(!content_has_display(&collected, 4));
}

#[test]
fn badge_box_width_grows_past_two_characters() {
    // Widths are tenths of a pixel: 29.0 px base, 6.5 px per extra byte.
    assert_eq!(calculate_box_width(""), 290);
    assert_eq!(calculate_box_width("Me"), 290);
    assert_eq!(calculate_box_width("Joe"), 290 + 65);
    assert_eq!(calculate_box_width("Alice"), 290 + 3 * 65);
    assert!(calculate_box_width("Very Long Username") > calculate_box_width("Alice & Bob"));
}

#[test]
fn wide_badges_truncate_the_name() {
    let (name, width) = clamp_badge_name("Lykourgos Mpezentakos", 1800);
    assert_eq!(width, BADGE_MAX_WIDTH_TENTHS);
    assert_eq!(name, "Lykourgos Mpezent...");
    let (name, width) = clamp_badge_name("Joe", 355);
    assert_eq!(width, 355);
    assert_eq!(name, "Joe");
    // A short name measured wide still gets the ellipsis, whole.
    let (name, width) = clamp_badge_name("WWW", 1600);
    assert_eq!(width, BADGE_MAX_WIDTH_TENTHS);
    assert_eq!(name, "WWW...");
}

#[test]
fn app_state_settings_round_trip() {
    let mut state = AppState::from_state(AppStateInternal::default());
    assert!(state.tray_notification());
    assert!(state.first_run());
    assert!(state.last_used_mic().is_none());
    state.set_tray_notification(false);
    state.set_last_used_mic("usb-mic".to_string());
    state.set_first_run(false);
    assert!(!state.tray_notification());
    assert_eq!(state.last_used_mic().as_deref(), Some("usb-mic"));
    assert!(!state.first_run());
}

#[test]
fn legacy_state_migrates_without_a_first_run() {
    let migrated = migrate_old_state(false, Some("old-mic".to_string()));
    assert!(!migrated.tray_notification);
    assert_eq!(migrated.last_used_mic.as_deref(), Some("old-mic"));
    assert!(!migrated.first_run);
}

#[test]
fn default_platform_grants_every_permission() {
    assert!(PlatformPermissions::screenshare());
    assert!(PlatformPermissions::accessibility());
    assert!(PlatformPermissions::microphone());
    assert!(screenshare());
    assert!(accessibility());
    assert!(microphone());
    assert!(!has_ungranted_permissions());
}
