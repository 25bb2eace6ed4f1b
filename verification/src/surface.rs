//! Surface configuration: the alpha-compositing preference order and the
//! clamped width/height rule for the presentation surface.

use vstd::prelude::*;

verus! {

/// Alpha-compositing mode of the presentation surface, as the backend
/// reports and accepts it.
#[derive(Clone, Copy, Debug, PartialEq, Eq, Structural)]
pub enum AlphaMode {
    PreMultiplied,
    PostMultiplied,
    Inherit,
    Opaque,
}

/// The fixed preference order for alpha-compositing modes: true
/// transparency first, opaque as the last resort.
pub open spec fn alpha_preference() -> Seq<AlphaMode> {
    seq![
        AlphaMode::PreMultiplied,
        AlphaMode::PostMultiplied,
        AlphaMode::Inherit,
        AlphaMode::Opaque,
    ]
}

/// The mode the overlay must use, given the modes a probe reported: the
/// first mode of `alpha_preference` that is supported, and `Opaque` when
/// none of the preferred modes is.
pub open spec fn spec_pick_alpha_mode(supported: Seq<AlphaMode>) -> AlphaMode {
    if supported.contains(AlphaMode::PreMultiplied) {
        AlphaMode::PreMultiplied
    } else if supported.contains(AlphaMode::PostMultiplied) {
        AlphaMode::PostMultiplied
    } else if supported.contains(AlphaMode::Inherit) {
        AlphaMode::Inherit
    } else {
        AlphaMode::Opaque
    }
}

fn modes_contain(supported: &Vec<AlphaMode>, mode: AlphaMode) -> (r: bool)
    ensures
        r == supported@.contains(mode),
{
    let mut i: usize = 0;
    while i < supported.len()
        invariant
            i <= supported@.len(),
            forall|j: int| 0 <= j < i ==> supported@[j] != mode,
        decreases supported@.len() - i,
    {
        if supported[i] == mode {
            return true;
        }
        i = i + 1;
    }
    false
}

/// Selects the alpha-compositing mode for the surface out of the modes
/// the backend reported, by the fixed preference order.
pub fn pick_alpha_mode(supported: &Vec<AlphaMode>) -> (r: AlphaMode)
    ensures
        r == spec_pick_alpha_mode(supported@),
{
    if modes_contain(supported, AlphaMode::PreMultiplied) {
        AlphaMode::PreMultiplied
    } else if modes_contain(supported, AlphaMode::PostMultiplied) {
        AlphaMode::PostMultiplied
    } else if modes_contain(supported, AlphaMode::Inherit) {
        AlphaMode::Inherit
    } else {
        AlphaMode::Opaque
    }
}

/// Presentation mode of the surface. The overlay always presents through
/// the vsync-gated first-in-first-out mode, never an unthrottled one.
#[derive(Clone, Copy, Debug, PartialEq, Eq, Structural)]
pub enum PresentMode {
    Fifo,
    FifoRelaxed,
    Immediate,
    Mailbox,
}

/// Configuration of the presentation surface. Width and height never
/// reach the backend as zero: the initial size is clamped to at least
/// one, and a resize with a zero dimension is rejected outright.
#[derive(Clone, Copy, Debug, PartialEq, Eq, Structural)]
pub struct SurfaceConfig {
    pub width: u32,
    pub height: u32,
    pub alpha_mode: AlphaMode,
    pub present_mode: PresentMode,
    /// Desired maximum frame latency: how many frames may be in flight.
    pub frame_latency: u32,
}

impl SurfaceConfig {
    /// A configuration the backend accepts: non-degenerate size, vsync
    /// gated presentation, two frames in flight.
    pub open spec fn wf(self) -> bool {
        &&& self.width >= 1
        &&& self.height >= 1
        &&& self.present_mode == PresentMode::Fifo
        &&& self.frame_latency == 2
    }

    /// The configuration chosen at startup: the window size clamped to at
    /// least one in each dimension, the preferred supported alpha mode,
    /// and fixed vsync-gated presentation with two frames of latency.
    pub fn initial(width: u32, height: u32, supported_alpha: &Vec<AlphaMode>) -> (c: SurfaceConfig)
        ensures
            c.width == if width >= 1 { width } else { 1u32 },
            c.height == if height >= 1 { height } else { 1u32 },
            c.alpha_mode == spec_pick_alpha_mode(supported_alpha@),
            c.present_mode == PresentMode::Fifo,
            c.frame_latency == 2,
            c.wf(),
    {
        SurfaceConfig {
            width: if width >= 1 { width } else { 1 },
            height: if height >= 1 { height } else { 1 },
            alpha_mode: pick_alpha_mode(supported_alpha),
            present_mode: PresentMode::Fifo,
            frame_latency: 2,
        }
    }
}

/// An 8-bit-per-channel color with straight alpha.
#[derive(Clone, Copy, Debug, PartialEq, Eq, Structural)]
pub struct Rgba8 {
    pub r: u8,
    pub g: u8,
    pub b: u8,
    pub a: u8,
}

/// The color every frame is cleared to before drawing: fully transparent
/// black, so that uncovered pixels composite as see-through rather than
/// as opaque black.
pub fn overlay_clear_color() -> (c: Rgba8)
    ensures
        c.r == 0,
        c.g == 0,
        c.b == 0,
        c.a == 0,
{
    Rgba8 { r: 0, g: 0, b: 0, a: 0 }
}

/// The picked mode is the first match of the preference order: every mode
/// that precedes it in `alpha_preference` is unsupported, and the pick is
/// itself supported unless nothing preferred is and it fell back to
/// `Opaque`.
pub proof fn lemma_pick_alpha_mode_first_match(supported: Seq<AlphaMode>)
    ensures
        exists|i: int|
            0 <= i < alpha_preference().len() && alpha_preference()[i] == spec_pick_alpha_mode(
                supported,
            ) && (forall|j: int| 0 <= j < i ==> !supported.contains(alpha_preference()[j])),
        spec_pick_alpha_mode(supported) != AlphaMode::Opaque ==> supported.contains(
            spec_pick_alpha_mode(supported),
        ),
{
    let picked = spec_pick_alpha_mode(supported);
    if supported.contains(AlphaMode::PreMultiplied) {
        assert(alpha_preference()[0] == picked);
    } else if supported.contains(AlphaMode::PostMultiplied) {
        assert(alpha_preference()[1] == picked && (forall|j: int|
            0 <= j < 1 ==> !supported.contains(alpha_preference()[j])));
    } else if supported.contains(AlphaMode::Inherit) {
        assert(alpha_preference()[2] == picked && (forall|j: int|
            0 <= j < 2 ==> !supported.contains(alpha_preference()[j])));
    } else {
        assert(alpha_preference()[3] == picked && (forall|j: int|
            0 <= j < 3 ==> !supported.contains(alpha_preference()[j])));
    }
}

} // verus!
