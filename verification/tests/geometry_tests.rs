//! Geometry: aspect-fit sizing and normalized-coordinate clamping.

use hopp_core::geometry::{aspect_fit, out_of_bounds, CLAMP_MAX_X, CLAMP_MAX_Y, COORD_ONE};

#[test]
fn aspect_fit_keeps_longer_target_side() {
    // Landscape sources: the width is the longer target side.
    assert_eq!(aspect_fit(1920, 1080, 1920, 1080), (1920, 1080));
    assert_eq!(aspect_fit(2560, 1440, 1920, 1080), (1920, 1080));
    assert_eq!(aspect_fit(100, 50, 480, 360), (480, 240));
    // Portrait source: the height is the longer output side.
    assert_eq!(aspect_fit(1080, 1920, 1920, 1080), (1080, 1920));
    // Square source.
    assert_eq!(aspect_fit(500, 500, 480, 360), (480, 480));
}

#[test]
fn aspect_fit_output_obeys_the_bounds() {
    let samples = [
        (1920u32, 1080u32, 1920u32, 1080u32),
        (2560, 1440, 1920, 1080),
        (1366, 768, 480, 360),
        (768, 1366, 480, 360),
        (3, 7, 480, 360),
        (7, 3, 480, 360),
    ];
    for (w, h, tw, th) in samples {
        let (ow, oh) = aspect_fit(w, h, tw, th);
        // The longer output side equals the longer target side.
        assert_eq!(ow.max(oh), tw.max(th));
        // The aspect ratio is kept within one pixel of rounding.
        let (ow, oh, w, h) = (ow as i64, oh as i64, w as i64, h as i64);
        if w >= h {
            assert!(oh * w <= ow * h);
            assert!(ow * h - oh * w < w);
        } else {
            assert!(ow * h <= oh * w);
            assert!(oh * w - ow * h < h);
        }
    }
}

#[test]
fn clamp_pushes_out_of_range_coordinates_back() {
    // Above 1.0 the nudge lands at 0.997 / 0.995.
    assert_eq!(out_of_bounds(1_100_000, 2_000_000), (CLAMP_MAX_X, CLAMP_MAX_Y));
    // Below zero clamps to zero.
    assert_eq!(out_of_bounds(-1, -500_000), (0, 0));
    // Mixed.
    assert_eq!(out_of_bounds(-7, 1_000_001), (0, CLAMP_MAX_Y));
    // In range passes unchanged, the edges included.
    assert_eq!(out_of_bounds(0, COORD_ONE), (0, COORD_ONE));
    assert_eq!(out_of_bounds(513_000, 250_000), (513_000, 250_000));
}
