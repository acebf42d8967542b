//! Pure geometry: extents, frames, positions, aspect-fit sizing and the
//! clamping of normalized coordinates.
//!
//! Normalized ("percentage") coordinates over the captured display are kept
//! as integers in micro units: `COORD_ONE` stands for 1.0. Global
//! coordinates are kept in micro pixels (pixels times `COORD_ONE`), so the
//! percentage/global conversions of the overlay module stay exact.

use vstd::prelude::*;

verus! {

/// One whole unit (1.0) of a normalized coordinate, in micro units.
pub const COORD_ONE: i64 = 1_000_000;

/// Upper clamp for a normalized x coordinate that fell out of range: 0.997.
pub const CLAMP_MAX_X: i64 = 997_000;

/// Upper clamp for a normalized y coordinate that fell out of range: 0.995.
pub const CLAMP_MAX_Y: i64 = 995_000;

/// A width and height in whole pixels.
#[derive(Debug, Clone, Copy, PartialEq, Eq, Structural)]
pub struct Extent {
    pub width: u32,
    pub height: u32,
}

/// A rectangle in global pixel coordinates: origin plus extent.
#[derive(Debug, Clone, Copy, PartialEq, Eq, Structural)]
pub struct Frame {
    pub origin_x: i64,
    pub origin_y: i64,
    pub extent: Extent,
}

impl Frame {
    /// The zero frame: origin (0, 0) with an empty extent.
    pub fn zero() -> (r: Frame)
        ensures
            r.origin_x == 0 && r.origin_y == 0,
            r.extent.width == 0 && r.extent.height == 0,
    {
        Frame { origin_x: 0, origin_y: 0, extent: Extent { width: 0, height: 0 } }
    }
}

/// A point, either in micro units of a normalized coordinate or in micro
/// pixels of a global coordinate; the use site fixes the unit.
#[derive(Debug, Clone, Copy, PartialEq, Eq, Structural)]
pub struct Position {
    pub x: i64,
    pub y: i64,
}

/// The longer target side, which aspect-fit output never exceeds.
pub open spec fn fit_size(target_width: u32, target_height: u32) -> u32 {
    if target_width >= target_height {
        target_width
    } else {
        target_height
    }
}

/// The pair `aspect_fit` computes: the longer target side, and the other
/// side scaled by the source aspect ratio, rounded down.
pub open spec fn spec_aspect_fit(width: u32, height: u32, target_width: u32, target_height: u32) -> (
    int,
    int,
) {
    let size = fit_size(target_width, target_height) as int;
    if width >= height {
        (size, size * height as int / width as int)
    } else {
        (size * width as int / height as int, size)
    }
}

/// Fits a `width` x `height` source into a target box: the longer output
/// side equals the longer target side, the other side keeps the source
/// aspect ratio, rounded down to whole pixels.
pub fn aspect_fit(width: u32, height: u32, target_width: u32, target_height: u32) -> (r: (
    u32,
    u32,
))
    requires
        width >= 1,
        height >= 1,
    ensures
        r.0 == spec_aspect_fit(width, height, target_width, target_height).0,
        r.1 == spec_aspect_fit(width, height, target_width, target_height).1,
        r.0 <= fit_size(target_width, target_height),
        r.1 <= fit_size(target_width, target_height),
{
    let size: u32 = if target_width >= target_height {
        target_width
    } else {
        target_height
    };
    assert(size as int * height as int <= u32::MAX as int * u32::MAX as int) by (nonlinear_arith)
        requires
            size <= u32::MAX,
            height <= u32::MAX,
    ;
    assert(size as int * width as int <= u32::MAX as int * u32::MAX as int) by (nonlinear_arith)
        requires
            size <= u32::MAX,
            width <= u32::MAX,
    ;
    if width >= height {
        let other: u64 = (size as u64) * (height as u64) / (width as u64);
        assert(size as int * height as int / width as int <= size as int) by (nonlinear_arith)
            requires
                1 <= height <= width,
                0 <= size <= u32::MAX,
        ;
        (size, other as u32)
    } else {
        let other: u64 = (size as u64) * (width as u64) / (height as u64);
        assert(size as int * width as int / height as int <= size as int) by (nonlinear_arith)
            requires
                1 <= width < height,
                0 <= size <= u32::MAX,
        ;
        (other as u32, size)
    }
}

/// The longer output side of `aspect_fit` equals the longer target side,
/// and the shorter side misses the exact aspect ratio by less than one
/// pixel of rounding.
pub proof fn lemma_aspect_fit_bounds(ow: u32, oh: u32, w: u32, h: u32, tw: u32, th: u32)
    requires
        w >= 1,
        h >= 1,
        ow == spec_aspect_fit(w, h, tw, th).0,
        oh == spec_aspect_fit(w, h, tw, th).1,
    ensures
        ow >= oh ==> ow == fit_size(tw, th),
        ow < oh ==> oh == fit_size(tw, th),
        w >= h ==> oh as int * w as int <= ow as int * h as int,
        w >= h ==> (ow as int * h as int - oh as int * w as int) < w as int,
        w < h ==> ow as int * h as int <= oh as int * w as int,
        w < h ==> (oh as int * w as int - ow as int * h as int) < h as int,
{
    let size = fit_size(tw, th) as int;
    if w >= h {
        assert(oh as int == size * h as int / w as int);
        assert(size * h as int / w as int <= size) by (nonlinear_arith)
            requires
                1 <= h <= w,
                0 <= size,
        ;
        assert((size * h as int / w as int) * w as int <= size * h as int) by (nonlinear_arith)
            requires
                1 <= w,
                0 <= size * h as int,
        ;
        assert((size * h as int) < (size * h as int / w as int) * w as int + w as int)
            by (nonlinear_arith)
            requires
                1 <= w,
                0 <= size * h as int,
        ;
    } else {
        assert(ow as int == size * w as int / h as int);
        assert(size * w as int / h as int <= size) by (nonlinear_arith)
            requires
                1 <= w < h,
                0 <= size,
        ;
        assert((size * w as int / h as int) * h as int <= size * w as int) by (nonlinear_arith)
            requires
                1 <= h,
                0 <= size * w as int,
        ;
        assert((size * w as int) < (size * w as int / h as int) * h as int + h as int)
            by (nonlinear_arith)
            requires
                1 <= h,
                0 <= size * w as int,
        ;
    }
}

/// What clamping does to a normalized x coordinate, in micro units.
pub open spec fn clamped_x(x: int) -> int {
    if x < 0 {
        0
    } else if x > COORD_ONE {
        CLAMP_MAX_X as int
    } else {
        x
    }
}

/// What clamping does to a normalized y coordinate, in micro units.
pub open spec fn clamped_y(y: int) -> int {
    if y < 0 {
        0
    } else if y > COORD_ONE {
        CLAMP_MAX_Y as int
    } else {
        y
    }
}

/// Clamps a normalized coordinate pair back into range: negative values go
/// to 0; values above 1.0 go to 0.997 (x) and 0.995 (y), a deliberate
/// nudge away from the exact edge.
pub fn out_of_bounds(x: i64, y: i64) -> (r: (i64, i64))
    ensures
        r.0 == clamped_x(x as int),
        r.1 == clamped_y(y as int),
        (x < 0 || x > COORD_ONE) ==> 0 <= r.0 <= CLAMP_MAX_X,
        (y < 0 || y > COORD_ONE) ==> 0 <= r.1 <= CLAMP_MAX_Y,
{
    let cx: i64 = if x < 0 {
        0
    } else if x > COORD_ONE {
        CLAMP_MAX_X
    } else {
        x
    };
    let cy: i64 = if y < 0 {
        0
    } else if y > COORD_ONE {
        CLAMP_MAX_Y
    } else {
        y
    };
    (cx, cy)
}

} // verus!
