//! The overlay window's coordinate model: the transparent window over the
//! shared display, and the exact transforms between window-local
//! percentages, display percentages and global coordinates.
//!
//! Percentages are micro units (`COORD_ONE` is 1.0); global coordinates
//! are micro pixels; the display scale is given in thousandths (1000 is
//! 1.0). With these units the percentage/global conversions are exact,
//! and every division rounds toward negative infinity.

use vstd::prelude::*;
use vstd::arithmetic::div_mod::{lemma_fundamental_div_mod, lemma_fundamental_div_mod_converse};
use crate::geometry::{clamped_x, clamped_y, out_of_bounds, Extent, Frame, Position, COORD_ONE};

verus! {

/// A display scale of 1.0, in thousandths.
pub const SCALE_ONE_MILLIS: u32 = 1000;

/// Largest display side, in pixels, the coordinate model accepts.
pub const MAX_DISPLAY_SIDE: u32 = 1_000_000;

/// Largest display scale, in thousandths, the coordinate model accepts.
pub const MAX_SCALE_MILLIS: u32 = 4000;

/// Bound on the global micro-pixel coordinates the transforms accept.
pub const MAX_GLOBAL_MICRO: i64 = 2_000_000_000_000_000;

/// Errors of the overlay's graphics setup.
#[derive(Debug, Clone, Copy, PartialEq, Eq, Structural)]
pub enum OverlayError {
    /// The overlay window could not be created.
    WindowCreationError,
    /// The rendering surface could not be created.
    SurfaceCreationError,
    /// No graphics adapter was available.
    AdapterRequestError,
    /// No graphics device was available from the adapter.
    DeviceRequestError,
    /// A texture could not be created or loaded.
    TextureCreationError,
}

/// The shared display as the overlay window sees it: its size and global
/// position in pixels, and its scale factor in thousandths.
#[derive(Debug, Clone, Copy, PartialEq, Eq, Structural)]
pub struct DisplayInfo {
    /// The display's dimensions in pixels.
    pub display_extent: Extent,
    /// The display's position in global coordinates, in pixels.
    pub display_position: Position,
    /// The display's scale factor, in thousandths (1000 is 1.0).
    pub display_scale_millis: u32,
}

/// The overlay window's coordinate frame: the shared window's frame
/// within it (zero while only whole displays are shared), the window's own
/// size and position in pixels, the display it covers, and whether the OS
/// exchanges scaled points rather than pixels.
#[derive(Debug, Clone, Copy, PartialEq, Eq, Structural)]
pub struct OverlayWindow {
    /// Frame of the shared window inside the overlay window; zero while
    /// only whole displays are shared.
    pub sharing_window_frame: Frame,
    /// The window's dimensions in pixels.
    pub extent: Extent,
    /// The window's position in global coordinates, in pixels.
    pub position: Position,
    /// The display the window covers.
    pub display_info: DisplayInfo,
    /// True where the OS exchanges coordinates in scaled points.
    pub scaled: bool,
}

/// Floor division: the quotient rounded toward negative infinity, as the
/// mathematical division of the specifications rounds.
pub fn div_floor(num: i64, den: i64) -> (r: i64)
    requires
        1 <= den <= 0xFFFF_FFFF,
        num > i64::MIN,
    ensures
        r == num as int / den as int,
        num >= 0 ==> 0 <= r <= num,
        num < 0 ==> num <= r <= 0,
{
    if num >= 0 {
        let q: i64 = ((num as u64) / (den as u64)) as i64;
        proof {
            lemma_fundamental_div_mod(num as int, den as int);
            assert(num as int / den as int <= num as int) by (nonlinear_arith)
                requires
                    num as int >= 0,
                    den as int >= 1,
            ;
        }
        q
    } else {
        let n: u64 = (-num) as u64;
        let d: u64 = den as u64;
        let q: u64 = (n + d - 1) / d;
        proof {
            // q is the ceiling of n / d, so -q is the floor of -n / d.
            let ni = n as int;
            let di = d as int;
            let qi = q as int;
            assert(qi == (ni + di - 1) / di);
            lemma_fundamental_div_mod(ni + di - 1, di);
            let rem = (ni + di - 1) % di;
            assert(ni + di - 1 == di * ((ni + di - 1) / di) + rem);
            assert(di * qi == qi * di) by (nonlinear_arith);
            assert(ni + di - 1 == qi * di + rem);
            assert(qi * di - ni == di - 1 - rem);
            assert(0 <= di - 1 - rem < di);
            assert(-ni == (-qi) * di + (di - 1 - rem)) by (nonlinear_arith)
                requires
                    ni + di - 1 == qi * di + rem,
            ;
            lemma_fundamental_div_mod_converse(-ni, di, -qi, di - 1 - rem);
        }
        assert(q <= n) by {
            assert(q as int * d as int <= n as int + d as int - 1) by {
                lemma_fundamental_div_mod(n as int + d as int - 1, d as int);
            }
            assert(q as int <= n as int) by (nonlinear_arith)
                requires
                    q as int * d as int <= n as int + d as int - 1,
                    d as int >= 1,
                    n as int >= 1,
                    q as int >= 0,
            ;
        }
        -(q as i64)
    }
}

/// A coordinate within the 32-bit pixel range times `COORD_ONE` stays
/// within two and a quarter quadrillion micro pixels.
pub proof fn lemma_position_coord_product(p: int)
    requires
        -0x8000_0000 <= p <= 0x7FFF_FFFF,
    ensures
        -2_250_000_000_000_000 <= p * COORD_ONE <= 2_250_000_000_000_000,
{
    assert(-2_250_000_000_000_000 <= p * 1_000_000 <= 2_250_000_000_000_000) by (nonlinear_arith)
        requires
            -0x8000_0000 <= p <= 0x7FFF_FFFF,
    ;
}

/// The global micro-pixel x coordinate a display percentage maps to:
/// scaled across the display's width and offset by its origin, then
/// divided by the scale where the OS expects points.
pub open spec fn spec_to_global_x(ow: OverlayWindow, x: int) -> int {
    let g = x * ow.display_info.display_extent.width + ow.display_info.display_position.x
        * COORD_ONE;
    if ow.scaled {
        g * 1000 / ow.display_info.display_scale_millis as int
    } else {
        g
    }
}

/// The global micro-pixel y coordinate a display percentage maps to.
pub open spec fn spec_to_global_y(ow: OverlayWindow, y: int) -> int {
    let g = y * ow.display_info.display_extent.height + ow.display_info.display_position.y
        * COORD_ONE;
    if ow.scaled {
        g * 1000 / ow.display_info.display_scale_millis as int
    } else {
        g
    }
}

/// The display percentage a global micro-pixel x coordinate maps back to,
/// clamped into range.
pub open spec fn spec_pct_from_global_x(ow: OverlayWindow, gx: int) -> int {
    let g = if ow.scaled {
        gx * ow.display_info.display_scale_millis / 1000
    } else {
        gx
    };
    clamped_x(
        (g - ow.display_info.display_position.x * COORD_ONE)
            / ow.display_info.display_extent.width as int,
    )
}

/// The display percentage a global micro-pixel y coordinate maps back to,
/// clamped into range.
pub open spec fn spec_pct_from_global_y(ow: OverlayWindow, gy: int) -> int {
    let g = if ow.scaled {
        gy * ow.display_info.display_scale_millis / 1000
    } else {
        gy
    };
    clamped_y(
        (g - ow.display_info.display_position.y * COORD_ONE)
            / ow.display_info.display_extent.height as int,
    )
}

impl OverlayWindow {
    /// The bounds under which the transforms stay exact in 64 bits.
    pub open spec fn wf(&self) -> bool {
        &&& self.display_info.display_extent.width >= 1
        &&& self.display_info.display_extent.height >= 1
        &&& self.display_info.display_extent.width <= MAX_DISPLAY_SIDE
        &&& self.display_info.display_extent.height <= MAX_DISPLAY_SIDE
        &&& 1 <= self.display_info.display_scale_millis <= MAX_SCALE_MILLIS
        &&& -0x8000_0000 <= self.display_info.display_position.x <= 0x7FFF_FFFF
        &&& -0x8000_0000 <= self.display_info.display_position.y <= 0x7FFF_FFFF
        &&& self.extent.width <= MAX_DISPLAY_SIDE
        &&& self.extent.height <= MAX_DISPLAY_SIDE
        &&& -0x8000_0000 <= self.position.x <= 0x7FFF_FFFF
        &&& -0x8000_0000 <= self.position.y <= 0x7FFF_FFFF
        &&& 0 <= self.sharing_window_frame.origin_x <= MAX_DISPLAY_SIDE
        &&& 0 <= self.sharing_window_frame.origin_y <= MAX_DISPLAY_SIDE
        &&& self.sharing_window_frame.extent.width <= MAX_DISPLAY_SIDE
        &&& self.sharing_window_frame.extent.height <= MAX_DISPLAY_SIDE
        &&& (self.sharing_window_frame.extent.width > 0
            && self.sharing_window_frame.extent.height > 0 ==> self.extent.width >= 1
            && self.extent.height >= 1)
    }

    /// A window over nothing: every dimension zero, scale 1.0, pixels.
    pub fn default() -> (r: OverlayWindow)
        ensures
            r.sharing_window_frame.extent == (Extent { width: 0, height: 0 }),
            r.extent == (Extent { width: 0, height: 0 }),
            r.display_info.display_extent == (Extent { width: 0, height: 0 }),
            r.display_info.display_scale_millis == SCALE_ONE_MILLIS,
            !r.scaled,
    {
        OverlayWindow {
            sharing_window_frame: Frame::zero(),
            extent: Extent { width: 0, height: 0 },
            position: Position { x: 0, y: 0 },
            display_info: DisplayInfo {
                display_extent: Extent { width: 0, height: 0 },
                display_position: Position { x: 0, y: 0 },
                display_scale_millis: SCALE_ONE_MILLIS,
            },
            scaled: false,
        }
    }

    /// A window with the given frame, size, position and display.
    pub fn new(
        sharing_window_frame: Frame,
        extent: Extent,
        position: Position,
        display_info: DisplayInfo,
        scaled: bool,
    ) -> (r: OverlayWindow)
        ensures
            r == (OverlayWindow { sharing_window_frame, extent, position, display_info, scaled }),
    {
        OverlayWindow { sharing_window_frame, extent, position, display_info, scaled }
    }

    /// The display's scale factor, in thousandths.
    pub fn get_display_scale(&self) -> (r: u32)
        ensures
            r == self.display_info.display_scale_millis,
    {
        self.display_info.display_scale_millis
    }

    /// Translates window-local percentages to screen percentages via the
    /// shared window's frame; the identity while the frame is zero (whole
    /// display sharing).
    pub fn translate_location(&self, x: i64, y: i64) -> (r: Position)
        requires
            self.wf(),
            0 <= x <= COORD_ONE,
            0 <= y <= COORD_ONE,
        ensures
            self.sharing_window_frame.extent.width == 0
                || self.sharing_window_frame.extent.height == 0 ==> r == (Position { x, y }),
            self.sharing_window_frame.extent.width > 0 && self.sharing_window_frame.extent.height
                > 0 ==> {
                &&& r.x == (x * self.sharing_window_frame.extent.width
                    + self.sharing_window_frame.origin_x * COORD_ONE)
                    / self.extent.width as int
                &&& r.y == (y * (if self.sharing_window_frame.extent.height < self.extent.height {
                    self.sharing_window_frame.extent.height as int
                } else {
                    self.extent.height as int
                }) + self.sharing_window_frame.origin_y * COORD_ONE) / self.extent.height as int
            },
    {
        let fw: u32 = self.sharing_window_frame.extent.width;
        let fh: u32 = self.sharing_window_frame.extent.height;
        if fw == 0 || fh == 0 {
            return Position { x, y };
        }
        // The height ratio is capped at 1; the width ratio is not.
        let eff_fh: u32 = if fh < self.extent.height {
            fh
        } else {
            self.extent.height
        };
        proof {
            assert(0 <= x as int * fw as int <= 1_000_000_000_000) by (nonlinear_arith)
                requires
                    0 <= x as int <= 1_000_000,
                    0 <= fw as int <= 1_000_000,
            ;
            assert(0 <= y as int * eff_fh as int <= 1_000_000_000_000) by (nonlinear_arith)
                requires
                    0 <= y as int <= 1_000_000,
                    0 <= eff_fh as int <= 1_000_000,
            ;
        }
        let nx: i64 = x * (fw as i64) + self.sharing_window_frame.origin_x * (COORD_ONE as i64);
        let ny: i64 = y * (eff_fh as i64) + self.sharing_window_frame.origin_y * (COORD_ONE as i64);
        let rx: i64 = div_floor(nx, self.extent.width as i64);
        let ry: i64 = div_floor(ny, self.extent.height as i64);
        Position { x: rx, y: ry }
    }

    /// Translates display percentages to global coordinates, in micro
    /// pixels (or micro points where the OS expects scaled coordinates).
    pub fn translate_to_global(&self, x: i64, y: i64) -> (r: Position)
        requires
            self.wf(),
            0 <= x <= COORD_ONE,
            0 <= y <= COORD_ONE,
        ensures
            r.x == spec_to_global_x(*self, x as int),
            r.y == spec_to_global_y(*self, y as int),
    {
        proof {
            assert(0 <= x as int * self.display_info.display_extent.width as int
                <= 1_000_000_000_000) by (nonlinear_arith)
                requires
                    0 <= x as int <= 1_000_000,
                    0 <= self.display_info.display_extent.width as int <= 1_000_000,
            ;
            assert(0 <= y as int * self.display_info.display_extent.height as int
                <= 1_000_000_000_000) by (nonlinear_arith)
                requires
                    0 <= y as int <= 1_000_000,
                    0 <= self.display_info.display_extent.height as int <= 1_000_000,
            ;
        }
        proof {
            lemma_position_coord_product(self.display_info.display_position.x as int);
            lemma_position_coord_product(self.display_info.display_position.y as int);
        }
        let gx: i64 = x * (self.display_info.display_extent.width as i64)
            + self.display_info.display_position.x * (COORD_ONE as i64);
        let gy: i64 = y * (self.display_info.display_extent.height as i64)
            + self.display_info.display_position.y * (COORD_ONE as i64);
        if self.scaled {
            let sx: i64 = div_floor(gx * 1000, self.display_info.display_scale_millis as i64);
            let sy: i64 = div_floor(gy * 1000, self.display_info.display_scale_millis as i64);
            Position { x: sx, y: sy }
        } else {
            Position { x: gx, y: gy }
        }
    }

    /// Converts global micro-pixel coordinates to window-local
    /// percentages, clamped into range.
    pub fn local_percentage_from_global(&self, x: i64, y: i64) -> (r: Position)
        requires
            self.wf(),
            self.extent.width >= 1,
            self.extent.height >= 1,
            -MAX_GLOBAL_MICRO <= x <= MAX_GLOBAL_MICRO,
            -MAX_GLOBAL_MICRO <= y <= MAX_GLOBAL_MICRO,
        ensures
            r.x == clamped_x(
                ((if self.scaled {
                    x * self.display_info.display_scale_millis / 1000
                } else {
                    x as int
                }) - self.position.x * COORD_ONE) / self.extent.width as int,
            ),
            r.y == clamped_y(
                ((if self.scaled {
                    y * self.display_info.display_scale_millis / 1000
                } else {
                    y as int
                }) - self.position.y * COORD_ONE) / self.extent.height as int,
            ),
    {
        proof {
            assert(-8_000_000_000_000_000_000 <= x as int
                * self.display_info.display_scale_millis as int <= 8_000_000_000_000_000_000)
                by (nonlinear_arith)
                requires
                    -2_000_000_000_000_000 <= x as int <= 2_000_000_000_000_000,
                    1 <= self.display_info.display_scale_millis as int <= 4000,
            ;
            assert(-8_000_000_000_000_000_000 <= y as int
                * self.display_info.display_scale_millis as int <= 8_000_000_000_000_000_000)
                by (nonlinear_arith)
                requires
                    -2_000_000_000_000_000 <= y as int <= 2_000_000_000_000_000,
                    1 <= self.display_info.display_scale_millis as int <= 4000,
            ;
        }
        let sx: i64 = if self.scaled {
            div_floor(x * (self.display_info.display_scale_millis as i64), 1000)
        } else {
            x
        };
        let sy: i64 = if self.scaled {
            div_floor(y * (self.display_info.display_scale_millis as i64), 1000)
        } else {
            y
        };
        proof {
            lemma_position_coord_product(self.position.x as int);
            lemma_position_coord_product(self.position.y as int);
        }
        let px: i64 = div_floor(
            sx - self.position.x * (COORD_ONE as i64),
            self.extent.width as i64,
        );
        let py: i64 = div_floor(
            sy - self.position.y * (COORD_ONE as i64),
            self.extent.height as i64,
        );
        let clamped = out_of_bounds(px, py);
        Position { x: clamped.0, y: clamped.1 }
    }

    /// Converts global micro-pixel coordinates to display percentages,
    /// clamped into range.
    pub fn global_percentage_from_global(&self, x: i64, y: i64) -> (r: Position)
        requires
            self.wf(),
            -MAX_GLOBAL_MICRO <= x <= MAX_GLOBAL_MICRO,
            -MAX_GLOBAL_MICRO <= y <= MAX_GLOBAL_MICRO,
        ensures
            r.x == spec_pct_from_global_x(*self, x as int),
            r.y == spec_pct_from_global_y(*self, y as int),
    {
        proof {
            assert(-8_000_000_000_000_000_000 <= x as int
                * self.display_info.display_scale_millis as int <= 8_000_000_000_000_000_000)
                by (nonlinear_arith)
                requires
                    -2_000_000_000_000_000 <= x as int <= 2_000_000_000_000_000,
                    1 <= self.display_info.display_scale_millis as int <= 4000,
            ;
            assert(-8_000_000_000_000_000_000 <= y as int
                * self.display_info.display_scale_millis as int <= 8_000_000_000_000_000_000)
                by (nonlinear_arith)
                requires
                    -2_000_000_000_000_000 <= y as int <= 2_000_000_000_000_000,
                    1 <= self.display_info.display_scale_millis as int <= 4000,
            ;
        }
        let sx: i64 = if self.scaled {
            div_floor(x * (self.display_info.display_scale_millis as i64), 1000)
        } else {
            x
        };
        let sy: i64 = if self.scaled {
            div_floor(y * (self.display_info.display_scale_millis as i64), 1000)
        } else {
            y
        };
        proof {
            lemma_position_coord_product(self.display_info.display_position.x as int);
            lemma_position_coord_product(self.display_info.display_position.y as int);
        }
        let px: i64 = div_floor(
            sx - self.display_info.display_position.x * (COORD_ONE as i64),
            self.display_info.display_extent.width as i64,
        );
        let py: i64 = div_floor(
            sy - self.display_info.display_position.y * (COORD_ONE as i64),
            self.display_info.display_extent.height as i64,
        );
        let clamped = out_of_bounds(px, py);
        Position { x: clamped.0, y: clamped.1 }
    }
}

/// The clip-space translation of a badge at a window-local percentage:
/// the percentage doubled onto the -1..1 scale, with y pointing up.
pub fn badge_clip_translation(x: i64, y: i64) -> (r: (i64, i64))
    requires
        0 <= x <= COORD_ONE,
        0 <= y <= COORD_ONE,
    ensures
        r.0 == 2 * x,
        r.1 == -2 * y,
{
    (2 * x, -2 * y)
}

/// Round trip: on an unscaled display, converting a percentage to global
/// coordinates and back yields the input exactly; the division undoes the
/// multiplication because global coordinates keep micro-pixel precision.
pub proof fn lemma_percentage_global_round_trip(ow: OverlayWindow, x: int, y: int)
    requires
        ow.wf(),
        !ow.scaled,
        0 <= x <= COORD_ONE,
        0 <= y <= COORD_ONE,
    ensures
        spec_pct_from_global_x(ow, spec_to_global_x(ow, x)) == x,
        spec_pct_from_global_y(ow, spec_to_global_y(ow, y)) == y,
{
    let w = ow.display_info.display_extent.width as int;
    let h = ow.display_info.display_extent.height as int;
    let gx = spec_to_global_x(ow, x);
    let gy = spec_to_global_y(ow, y);
    assert(gx - ow.display_info.display_position.x * COORD_ONE == x * w);
    assert(gy - ow.display_info.display_position.y * COORD_ONE == y * h);
    lemma_fundamental_div_mod_converse(x * w, w, x, 0);
    lemma_fundamental_div_mod_converse(y * h, h, y, 0);
    assert(clamped_x(x) == x);
    assert(clamped_y(y) == y);
}

} // verus!
