//! Overlay coordinate transforms: percentage/global round trips, scale
//! handling and window-local translation.

use hopp_core::geometry::{Extent, Frame, Position};
use hopp_core::overlay::{badge_clip_translation, div_floor, DisplayInfo, OverlayWindow, SCALE_ONE_MILLIS};

fn window(scaled: bool, scale_millis: u32) -> OverlayWindow {
    OverlayWindow::new(
        Frame::zero(),
        Extent { width: 1920, height: 1080 },
        Position { x: 100, y: 200 },
        DisplayInfo {
            display_extent: Extent { width: 1920, height: 1080 },
            display_position: Position { x: 100, y: 200 },
            display_scale_millis: scale_millis,
        },
        scaled,
    )
}

#[test]
fn percentage_to_global_and_back_is_exact_unscaled() {
    let ow = window(false, SCALE_ONE_MILLIS);
    for (x, y) in [(0i64, 0i64), (250_000, 750_000), (1_000_000, 1_000_000), (997, 3)] {
        let global = ow.translate_to_global(x, y);
        let back = ow.global_percentage_from_global(global.x, global.y);
        assert_eq!((back.x, back.y), (x, y));
    }
}

#[test]
fn global_coordinates_offset_by_the_display_origin() {
    let ow = window(false, SCALE_ONE_MILLIS);
    // The display starts at (100, 200): 25% across 1920 pixels plus the
    // origin, everything in micro pixels.
    let global = ow.translate_to_global(250_000, 500_000);
    assert_eq!(global.x, 250_000 * 1920 + 100 * 1_000_000);
    assert_eq!(global.y, 500_000 * 1080 + 200 * 1_000_000);
}

#[test]
fn scaled_displays_divide_by_the_scale() {
    // Scale 2.0: the OS expects points, half the pixel values.
    let ow = window(true, 2000);
    let global = ow.translate_to_global(500_000, 500_000);
    assert_eq!(global.x, (500_000i64 * 1920 + 100 * 1_000_000) / 2);
    assert_eq!(global.y, (500_000i64 * 1080 + 200 * 1_000_000) / 2);
    // And the way back multiplies before dividing out the display.
    let back = ow.global_percentage_from_global(global.x, global.y);
    assert_eq!((back.x, back.y), (500_000, 500_000));
}

#[test]
fn out_of_display_points_clamp() {
    let ow = window(false, SCALE_ONE_MILLIS);
    // A point left of and above the display clamps to zero.
    let back = ow.global_percentage_from_global(0, 0);
    assert_eq!((back.x, back.y), (0, 0));
    // A point beyond the far corner clamps to the nudged edge.
    let far_x = 100 * 1_000_000 + 1920 * 1_000_000 + 5_000_000;
    let far_y = 200 * 1_000_000 + 1080 * 1_000_000 + 5_000_000;
    let back = ow.global_percentage_from_global(far_x, far_y);
    assert_eq!((back.x, back.y), (997_000, 995_000));
}

#[test]
fn window_local_translation_is_identity_for_whole_displays() {
    let ow = window(false, SCALE_ONE_MILLIS);
    let p = ow.translate_location(123_456, 654_321);
    assert_eq!((p.x, p.y), (123_456, 654_321));
}

#[test]
fn window_local_translation_composes_the_frame() {
    // A shared window occupying the right half of the overlay window.
    let ow = OverlayWindow::new(
        Frame { origin_x: 960, origin_y: 0, extent: Extent { width: 960, height: 1080 } },
        Extent { width: 1920, height: 1080 },
        Position { x: 0, y: 0 },
        DisplayInfo {
            display_extent: Extent { width: 1920, height: 1080 },
            display_position: Position { x: 0, y: 0 },
            display_scale_millis: SCALE_ONE_MILLIS,
        },
        false,
    );
    let p = ow.translate_location(500_000, 500_000);
    // Half across the shared window is three quarters across the screen.
    assert_eq!((p.x, p.y), (750_000, 500_000));
}

#[test]
fn floor_division_rounds_toward_negative_infinity() {
    assert_eq!(div_floor(7, 2), 3);
    assert_eq!(div_floor(-7, 2), -4);
    assert_eq!(div_floor(-8, 2), -4);
    assert_eq!(div_floor(0, 5), 0);
    assert_eq!(div_floor(-1, 1000), -1);
}

#[test]
fn default_window_is_inert() {
    let ow = OverlayWindow::default();
    assert_eq!(ow.get_display_scale(), SCALE_ONE_MILLIS);
    assert!(!ow.scaled);
    assert_eq!(ow.extent, Extent { width: 0, height: 0 });
}

#[test]
fn badge_translation_doubles_onto_clip_space() {
    assert_eq!(badge_clip_translation(0, 0), (0, 0));
    assert_eq!(badge_clip_translation(500_000, 250_000), (1_000_000, -500_000));
    assert_eq!(badge_clip_translation(1_000_000, 1_000_000), (2_000_000, -2_000_000));
}
