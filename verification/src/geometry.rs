//! Placement arithmetic for the loop thread.

use vstd::prelude::*;

verus! {

/// Top-left position that centers a window on a monitor.
///
/// Both axes use exact integer floor division of `(monitor - window) / 2`;
/// the sub-pixel remainder is truncated, never rounded. A window larger
/// than the monitor has no centered position in unsigned coordinates, so
/// the caller must not ask for one.
pub fn center_position(
    monitor_width: u32,
    monitor_height: u32,
    window_width: u32,
    window_height: u32,
) -> (pos: (u32, u32))
    requires
        window_width <= monitor_width,
        window_height <= monitor_height,
    ensures
        pos.0 == (monitor_width - window_width) as int / 2,
        pos.1 == (monitor_height - window_height) as int / 2,
{
    ((monitor_width - window_width) / 2, (monitor_height - window_height) / 2)
}

} // verus!
