//! Logic core of a borderless, always-on-top, click-through FPS overlay.
//!
//! The library holds everything about the overlay that can be stated and
//! proved over plain values: the frame timer and its sampling rule, the
//! surface configuration and its clamping rule, the alpha-mode preference
//! order, the render-loop state machine, the per-platform click-through
//! selection, and the formatting of the on-screen label. The windowing,
//! GPU and UI collaborators live outside the library and consume the
//! decisions made here.

pub mod driver;
pub mod label;
pub mod platform;
pub mod surface;
pub mod timer;
pub mod window;

pub use driver::AcquireOutcome;
pub use driver::EventAction;
pub use driver::FrameDirective;
pub use driver::LoopMode;
pub use driver::OverlayDriver;
pub use driver::OverlayEvent;
pub use label::format_fps_label;
pub use label::u64_to_decimal;
pub use platform::ClickThroughMethod;
pub use platform::PlatformKind;
pub use platform::click_through_method;
pub use surface::AlphaMode;
pub use surface::PresentMode;
pub use surface::Rgba8;
pub use surface::SurfaceConfig;
pub use surface::overlay_clear_color;
pub use surface::pick_alpha_mode;
pub use timer::FpsTracker;
pub use window::MonitorGeometry;
pub use window::WindowPlacement;
pub use window::WindowStyle;
pub use window::overlay_placement;
pub use window::overlay_style;
