//! Display enumeration as the capture side sees it: the monitors with
//! their identifiers, geometry and scale, and the selection of the
//! monitor a capture source identifier names.
//!
//! The window system enumerates the monitors (and, on one platform,
//! resolves a device name for the identifier) outside the library; the
//! matching itself is verified over the plain records.

use vstd::prelude::*;
use crate::geometry::{Extent, Position};

verus! {

/// One monitor: its platform identifier, its position and size in global
/// pixels, and its scale factor in thousandths.
#[derive(Debug, Clone, Copy, PartialEq, Eq, Structural)]
pub struct MonitorInfo {
    /// The platform's identifier for the monitor.
    pub native_id: u32,
    /// The monitor's position in global pixel coordinates.
    pub position: Position,
    /// The monitor's dimensions in pixels.
    pub extent: Extent,
    /// The monitor's scale factor, in thousandths (1000 is 1.0).
    pub scale_millis: u32,
}

/// Monitor selection and sizing for screen sharing.
pub struct ScreenshareFunctions;

impl ScreenshareFunctions {
    /// Nothing to set up: the selection works on the enumerated records.
    pub fn new() -> (r: ScreenshareFunctions)
        ensures
            true,
    {
        ScreenshareFunctions
    }

    /// The size of the monitor the identifier names; a zero extent where
    /// no monitor matches.
    pub fn get_monitor_size(monitors: &Vec<MonitorInfo>, input_id: u32) -> (r: Extent)
        ensures
            (exists|j: int|
                0 <= j < monitors@.len() && (#[trigger] monitors@[j]).native_id == input_id)
                ==> exists|j: int|
                0 <= j < monitors@.len() && (#[trigger] monitors@[j]).native_id == input_id
                    && r == monitors@[j].extent,
            !(exists|j: int|
                0 <= j < monitors@.len() && (#[trigger] monitors@[j]).native_id == input_id) ==> r
                == (Extent { width: 0, height: 0 }),
    {
        let mut i: usize = 0;
        while i < monitors.len()
            invariant
                0 <= i <= monitors@.len(),
                forall|j: int| 0 <= j < i ==> (#[trigger] monitors@[j]).native_id != input_id,
            decreases monitors@.len() - i,
        {
            if monitors[i].native_id == input_id {
                return monitors[i].extent;
            }
            i = i + 1;
        }
        Extent { width: 0, height: 0 }
    }

    /// Index of the monitor the identifier names, or the first monitor
    /// as the fallback where none matches.
    pub fn get_selected_monitor(monitors: &Vec<MonitorInfo>, input_id: u32) -> (r: usize)
        requires
            monitors@.len() > 0,
        ensures
            r < monitors@.len(),
            (exists|j: int|
                0 <= j < monitors@.len() && (#[trigger] monitors@[j]).native_id == input_id)
                ==> monitors@[r as int].native_id == input_id,
            !(exists|j: int|
                0 <= j < monitors@.len() && (#[trigger] monitors@[j]).native_id == input_id) ==> r
                == 0,
    {
        let mut i: usize = 0;
        while i < monitors.len()
            invariant
                0 <= i <= monitors@.len(),
                monitors@.len() > 0,
                forall|j: int| 0 <= j < i ==> (#[trigger] monitors@[j]).native_id != input_id,
            decreases monitors@.len() - i,
        {
            if monitors[i].native_id == input_id {
                return i;
            }
            i = i + 1;
        }
        0
    }
}

} // verus!
