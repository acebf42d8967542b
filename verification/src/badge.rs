//! Sizing rules of the participant badge: the fallback width estimate for
//! the name bubble and the clamp that truncates names too wide for it.
//! Widths are tenths of a pixel, so the half-pixel steps of the
//! estimate stay exact in integers.
//!
//! The SVG rendering itself (fonts, rasterizing, PNG encoding) lives
//! outside the library.

use vstd::prelude::*;
use vstd::string::{StrSliceExecFns, StringExecFns, StringSliceAdditionalSpecFns};

verus! {

/// Base width of the name bubble, in tenths of a pixel (29.0 px).
pub const BADGE_BASE_WIDTH_TENTHS: u64 = 290;

/// Characters covered by the base width.
pub const BADGE_BASE_CHARS: u64 = 2;

/// Width added per character beyond the base, in tenths of a pixel
/// (6.5 px).
pub const BADGE_CHAR_WIDTH_TENTHS: u64 = 65;

/// Widest name bubble, in tenths of a pixel (152.0 px).
pub const BADGE_MAX_WIDTH_TENTHS: u64 = 1520;

/// Longest name drawn before the ellipsis takes over.
pub const BADGE_NAME_LIMIT: usize = 17;

/// The fallback bubble width for a name, in tenths of a pixel: the base
/// width plus a fixed step per byte beyond the first two.
pub open spec fn spec_box_width_tenths(len: int) -> int {
    if len <= BADGE_BASE_CHARS {
        BADGE_BASE_WIDTH_TENTHS as int
    } else {
        BADGE_BASE_WIDTH_TENTHS + (len - BADGE_BASE_CHARS) * BADGE_CHAR_WIDTH_TENTHS
    }
}

/// Estimates the name bubble's width where the font engine cannot
/// measure the text, in tenths of a pixel.
pub fn calculate_box_width(text: &str) -> (r: u64)
    requires
        text.spec_bytes().len() <= 0x1000_0000,
    ensures
        r == spec_box_width_tenths(text.spec_bytes().len() as int),
{
    let len: usize = text.len();
    if len <= 2 {
        BADGE_BASE_WIDTH_TENTHS
    } else {
        BADGE_BASE_WIDTH_TENTHS + ((len as u64) - BADGE_BASE_CHARS) * BADGE_CHAR_WIDTH_TENTHS
    }
}

/// Clamps a badge to the widest bubble: a name whose measured width
/// exceeds the maximum is cut to its first characters plus an ellipsis,
/// and the width to the maximum; anything narrower passes unchanged.
pub fn clamp_badge_name(name: &str, box_width_tenths: u64) -> (r: (String, u64))
    ensures
        box_width_tenths <= BADGE_MAX_WIDTH_TENTHS ==> r.0@ == name@ && r.1 == box_width_tenths,
        box_width_tenths > BADGE_MAX_WIDTH_TENTHS ==> {
            &&& r.1 == BADGE_MAX_WIDTH_TENTHS
            &&& r.0@ == name@.subrange(
                0,
                if name@.len() < BADGE_NAME_LIMIT {
                    name@.len() as int
                } else {
                    BADGE_NAME_LIMIT as int
                },
            ) + "..."@
        },
{
    if box_width_tenths <= BADGE_MAX_WIDTH_TENTHS {
        return (name.to_owned(), box_width_tenths);
    }
    let total: usize = name.unicode_len();
    let cut: usize = if total < BADGE_NAME_LIMIT {
        total
    } else {
        BADGE_NAME_LIMIT
    };
    let prefix: &str = name.substring_char(0, cut);
    let mut clamped: String = prefix.to_owned();
    clamped.append("...");
    (clamped, BADGE_MAX_WIDTH_TENTHS)
}

/// Errors of the badge renderer.
#[derive(Debug, Clone)]
pub enum SvgRenderError {
    /// The badge template did not parse; the text says why.
    SvgParseError(String),
    /// The raster surface could not be created.
    PixmapCreationError,
    /// The rendered badge could not be encoded as PNG; the text says why.
    PngSaveError(String),
}

} // verus!
