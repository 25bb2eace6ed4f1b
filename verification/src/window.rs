//! Overlay window factory: the style flags the window is created with
//! and its placement over the target monitor.

use vstd::prelude::*;

verus! {

/// Geometry of the target monitor, in physical pixels.
#[derive(Clone, Copy, Debug, PartialEq, Eq, Structural)]
pub struct MonitorGeometry {
    pub x: i32,
    pub y: i32,
    pub width: u32,
    pub height: u32,
}

/// Position and size of the overlay window, in physical pixels.
#[derive(Clone, Copy, Debug, PartialEq, Eq, Structural)]
pub struct WindowPlacement {
    pub x: i32,
    pub y: i32,
    pub width: u32,
    pub height: u32,
}

/// The style flags the overlay window is created with.
#[derive(Clone, Copy, Debug, PartialEq, Eq, Structural)]
pub struct WindowStyle {
    pub decorations: bool,
    pub resizable: bool,
    pub transparent: bool,
    pub always_on_top: bool,
}

/// The overlay covers the target monitor exactly: same position, same
/// size.
pub fn overlay_placement(monitor: &MonitorGeometry) -> (p: WindowPlacement)
    ensures
        p.x == monitor.x,
        p.y == monitor.y,
        p.width == monitor.width,
        p.height == monitor.height,
{
    WindowPlacement { x: monitor.x, y: monitor.y, width: monitor.width, height: monitor.height }
}

/// The overlay window's style: borderless, non-resizable, initially
/// transparent, always on top.
pub fn overlay_style() -> (s: WindowStyle)
    ensures
        !s.decorations,
        !s.resizable,
        s.transparent,
        s.always_on_top,
{
    WindowStyle { decorations: false, resizable: false, transparent: true, always_on_top: true }
}

} // verus!
