//! Click-through configuration: which native adjustment each windowing
//! platform gets, and that unsupported platforms get none at all.
//!
//! The native calls themselves — window style bits, an ignore-mouse-events
//! property, an empty input shape — are performed outside the library;
//! the selection below is the single abstraction point, and failure of
//! the native call is best-effort by design, never fatal.

use vstd::prelude::*;

verus! {

/// The windowing platform the overlay's native handle belongs to.
#[derive(Clone, Copy, Debug, PartialEq, Eq, Structural)]
pub enum PlatformKind {
    /// A platform whose windows carry extended style bits.
    Windows,
    /// A platform whose window objects take an ignore-mouse-events flag.
    MacOs,
    /// A windowing connection with a shape extension for input regions.
    X11,
    /// A compositor protocol with no handle-based input-region update.
    Wayland,
    /// Anything else.
    Unknown,
}

/// The closed set of native click-through adjustments.
#[derive(Clone, Copy, Debug, PartialEq, Eq, Structural)]
pub enum ClickThroughMethod {
    /// Mark the window layered, input-transparent, a tool window and
    /// non-activatable, then set a uniform alpha blend value.
    LayeredStyleBits,
    /// Set the ignore-mouse-events property on the native window object.
    IgnoreMouseEvents,
    /// Set the window's input region to the empty region through the
    /// shape extension, leaving the visible region untouched.
    EmptyInputShape,
}

/// The adjustment each platform gets; `None` means the overlay stays a
/// normal, interactive window — a no-op, not a failure.
pub open spec fn spec_click_through_method(p: PlatformKind) -> Option<ClickThroughMethod> {
    match p {
        PlatformKind::Windows => Some(ClickThroughMethod::LayeredStyleBits),
        PlatformKind::MacOs => Some(ClickThroughMethod::IgnoreMouseEvents),
        PlatformKind::X11 => Some(ClickThroughMethod::EmptyInputShape),
        PlatformKind::Wayland => None,
        PlatformKind::Unknown => None,
    }
}

/// Selects the native click-through adjustment for a platform, and
/// `None` — no native call at all — where none is registered.
pub fn click_through_method(platform: PlatformKind) -> (m: Option<ClickThroughMethod>)
    ensures
        m == spec_click_through_method(platform),
{
    match platform {
        PlatformKind::Windows => Some(ClickThroughMethod::LayeredStyleBits),
        PlatformKind::MacOs => Some(ClickThroughMethod::IgnoreMouseEvents),
        PlatformKind::X11 => Some(ClickThroughMethod::EmptyInputShape),
        PlatformKind::Wayland => None,
        PlatformKind::Unknown => None,
    }
}

} // verus!
