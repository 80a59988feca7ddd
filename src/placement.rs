//! Where the stripe window goes on the primary monitor.
use vstd::prelude::*;

verus! {

/// Height of the stripe window, in pixels.
pub const STRIPE_HEIGHT: u32 = 300;

/// Distance from the bottom edge of the monitor to the top edge of the
/// stripe, in pixels: the stripe's height plus a margin that clears a taskbar.
pub const STRIPE_TOP_FROM_BOTTOM: u32 = 340;

/// Pixel dimensions of a monitor.
#[derive(Clone, Copy, Debug, PartialEq, Eq, Structural)]
pub struct MonitorSize {
    pub width: u32,
    pub height: u32,
}

/// Size and top-left screen offset of a window, in pixels.
///
/// The offset is signed: a monitor lower than the stripe's reach puts the
/// window above the top of the screen.
#[derive(Clone, Copy, Debug, PartialEq, Eq, Structural)]
pub struct WindowGeometry {
    pub width: u32,
    pub height: u32,
    pub x: i64,
    pub y: i64,
}

/// The stripe on a monitor: as wide as the monitor, of the fixed height,
/// flush with the left edge, its top `STRIPE_TOP_FROM_BOTTOM` pixels above
/// the monitor's bottom edge.
pub open spec fn stripe_of(monitor: MonitorSize) -> WindowGeometry {
    WindowGeometry {
        width: monitor.width,
        height: STRIPE_HEIGHT,
        x: 0,
        y: (monitor.height - STRIPE_TOP_FROM_BOTTOM) as i64,
    }
}

/// Computes the stripe geometry for a monitor. The vertical offset is not
/// clamped: on a monitor lower than `STRIPE_TOP_FROM_BOTTOM` it is negative.
pub fn stripe_geometry(monitor: MonitorSize) -> (g: WindowGeometry)
    ensures
        g == stripe_of(monitor),
        g.width == monitor.width,
        g.height == 300,
        g.x == 0,
        g.y == monitor.height - 340,
{
    let y: i64 = monitor.height as i64 - STRIPE_TOP_FROM_BOTTOM as i64;
    WindowGeometry { width: monitor.width, height: STRIPE_HEIGHT, x: 0, y }
}

/// What the host found when it looked up the primary window and its monitor.
#[derive(Clone, Copy, Debug, PartialEq, Eq, Structural)]
pub enum MonitorLookup {
    /// The primary window does not exist.
    NoPrimaryWindow,
    /// The primary window exists but is on no monitor that can be named.
    NoMonitor,
    /// The primary window's current monitor, with its size.
    Found(MonitorSize),
}

/// Why the stripe could not be placed.
#[derive(Clone, Copy, Debug, PartialEq, Eq, Structural)]
pub enum PlacementError {
    NoPrimaryWindow,
    NoMonitor,
}

/// Places the stripe from the result of the monitor lookup. A missing window
/// or monitor is an error: no geometry is made up in its place.
pub fn place_stripe(lookup: MonitorLookup) -> (r: Result<WindowGeometry, PlacementError>)
    ensures
        match lookup {
            MonitorLookup::NoPrimaryWindow => r == Err::<WindowGeometry, PlacementError>(
                PlacementError::NoPrimaryWindow,
            ),
            MonitorLookup::NoMonitor => r == Err::<WindowGeometry, PlacementError>(
                PlacementError::NoMonitor,
            ),
            MonitorLookup::Found(m) => r == Ok::<WindowGeometry, PlacementError>(stripe_of(m)),
        },
{
    match lookup {
        MonitorLookup::NoPrimaryWindow => Err(PlacementError::NoPrimaryWindow),
        MonitorLookup::NoMonitor => Err(PlacementError::NoMonitor),
        MonitorLookup::Found(m) => Ok(stripe_geometry(m)),
    }
}

} // verus!
