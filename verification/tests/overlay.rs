use rs_overlay::AcquireOutcome;
use rs_overlay::AlphaMode;
use rs_overlay::ClickThroughMethod;
use rs_overlay::EventAction;
use rs_overlay::FpsTracker;
use rs_overlay::FrameDirective;
use rs_overlay::MonitorGeometry;
use rs_overlay::OverlayDriver;
use rs_overlay::OverlayEvent;
use rs_overlay::PlatformKind;
use rs_overlay::PresentMode;
use rs_overlay::SurfaceConfig;
use rs_overlay::click_through_method;
use rs_overlay::format_fps_label;
use rs_overlay::overlay_clear_color;
use rs_overlay::overlay_placement;
use rs_overlay::overlay_style;
use rs_overlay::pick_alpha_mode;
use rs_overlay::u64_to_decimal;

#[test]
fn fps_zero_before_first_window() {
    let mut t = FpsTracker::new(0);
    t.tick(300_000_000);
    t.tick(600_000_000);
    t.tick(999_999_999);
    assert_eq!(t.fps_milli(), 0);
}

#[test]
fn fps_exact_after_one_second_window() {
    let mut t = FpsTracker::new(0);
    for i in 1..10u64 {
        t.tick(i * 100_000_000);
        assert_eq!(t.fps_milli(), 0);
    }
    t.tick(1_000_000_000);
    // 10 ticks over exactly one second: 10.000 frames per second.
    assert_eq!(t.fps_milli(), 10_000);
}

#[test]
fn fps_65_ticks_over_1_02_seconds() {
    let mut t = FpsTracker::new(0);
    for i in 1..65u64 {
        t.tick(i * 15_000_000);
    }
    t.tick(1_020_000_000);
    // 65 ticks over 1.02 measured seconds: 65 / 1.02 = 63.7254...
    assert_eq!(t.fps_milli(), 63_725);
    assert_eq!(format_fps_label(t.fps_milli()), "FPS: 63.7");
}

#[test]
fn fps_between_samples_returns_previous_value() {
    let mut t = FpsTracker::new(0);
    for i in 1..=10u64 {
        t.tick(i * 100_000_000);
    }
    assert_eq!(t.fps_milli(), 10_000);
    // Inside the next window the previously sampled value is unchanged.
    t.tick(1_100_000_000);
    assert_eq!(t.fps_milli(), 10_000);
    t.tick(1_900_000_000);
    assert_eq!(t.fps_milli(), 10_000);
    // The next boundary resamples from the new window alone.
    t.tick(2_500_000_000);
    // 3 ticks over 1.5 seconds: 2.000 frames per second.
    assert_eq!(t.fps_milli(), 2_000);
}

#[test]
fn alpha_mode_prefers_premultiplied() {
    let supported = vec![AlphaMode::Opaque, AlphaMode::Inherit, AlphaMode::PreMultiplied];
    assert_eq!(pick_alpha_mode(&supported), AlphaMode::PreMultiplied);
}

#[test]
fn alpha_mode_falls_through_preference_order() {
    let supported = vec![AlphaMode::Opaque, AlphaMode::PostMultiplied, AlphaMode::Inherit];
    assert_eq!(pick_alpha_mode(&supported), AlphaMode::PostMultiplied);
    let supported = vec![AlphaMode::Opaque, AlphaMode::Inherit];
    assert_eq!(pick_alpha_mode(&supported), AlphaMode::Inherit);
    let supported = vec![AlphaMode::Opaque];
    assert_eq!(pick_alpha_mode(&supported), AlphaMode::Opaque);
}

#[test]
fn alpha_mode_defaults_to_opaque_when_nothing_preferred() {
    let supported: Vec<AlphaMode> = Vec::new();
    assert_eq!(pick_alpha_mode(&supported), AlphaMode::Opaque);
}

#[test]
fn initial_config_takes_window_size_and_fifo() {
    let supported = vec![AlphaMode::PreMultiplied];
    let c = SurfaceConfig::initial(1920, 1080, &supported);
    assert_eq!(c.width, 1920);
    assert_eq!(c.height, 1080);
    assert_eq!(c.alpha_mode, AlphaMode::PreMultiplied);
    assert_eq!(c.present_mode, PresentMode::Fifo);
    assert_eq!(c.frame_latency, 2);
}

#[test]
fn initial_config_clamps_degenerate_size_to_one() {
    let supported = vec![AlphaMode::Opaque];
    let c = SurfaceConfig::initial(0, 0, &supported);
    assert_eq!(c.width, 1);
    assert_eq!(c.height, 1);
}

fn running_driver() -> OverlayDriver {
    let supported = vec![AlphaMode::PreMultiplied];
    OverlayDriver::new(SurfaceConfig::initial(1920, 1080, &supported))
}

#[test]
fn resize_with_zero_dimension_is_never_forwarded() {
    let mut d = running_driver();
    let a = d.on_event(OverlayEvent::Resized { width: 0, height: 500 });
    assert_eq!(a, EventAction::Ignore);
    assert_eq!(d.config.width, 1920);
    assert_eq!(d.config.height, 1080);
    let a = d.on_event(OverlayEvent::Resized { width: 500, height: 0 });
    assert_eq!(a, EventAction::Ignore);
    assert_eq!(d.config.width, 1920);
    assert_eq!(d.config.height, 1080);
}

#[test]
fn resize_to_zero_by_zero_keeps_previous_valid_size() {
    let mut d = running_driver();
    let a = d.on_event(OverlayEvent::Resized { width: 0, height: 0 });
    assert_eq!(a, EventAction::Ignore);
    assert_eq!(d.config.width, 1920);
    assert_eq!(d.config.height, 1080);
    assert!(d.wants_redraw());
}

#[test]
fn resize_with_positive_size_reconfigures() {
    let mut d = running_driver();
    let a = d.on_event(OverlayEvent::Resized { width: 800, height: 600 });
    assert_eq!(a, EventAction::Reconfigure);
    assert_eq!(d.config.width, 800);
    assert_eq!(d.config.height, 600);
    assert_eq!(d.config.present_mode, PresentMode::Fifo);
}

#[test]
fn redraw_request_renders_while_running() {
    let mut d = running_driver();
    let a = d.on_event(OverlayEvent::RedrawRequested);
    assert_eq!(a, EventAction::Render);
    let a = d.on_event(OverlayEvent::Other);
    assert_eq!(a, EventAction::Ignore);
}

#[test]
fn close_request_exits_and_silences_the_loop() {
    let mut d = running_driver();
    let a = d.on_event(OverlayEvent::CloseRequested);
    assert_eq!(a, EventAction::Exit);
    assert!(!d.wants_redraw());
    let a = d.on_event(OverlayEvent::RedrawRequested);
    assert_eq!(a, EventAction::Ignore);
}

#[test]
fn surface_lost_reconfigures_once_and_skips_the_frame() {
    let mut d = running_driver();
    let dir = d.on_acquire(AcquireOutcome::Lost);
    assert_eq!(dir, FrameDirective::ReconfigureAndSkip);
    // The loop keeps running and renders again next tick.
    assert!(d.wants_redraw());
    assert_eq!(d.on_event(OverlayEvent::RedrawRequested), EventAction::Render);
}

#[test]
fn out_of_memory_stops_the_loop_with_no_further_redraws() {
    let mut d = running_driver();
    let dir = d.on_acquire(AcquireOutcome::OutOfMemory);
    assert_eq!(dir, FrameDirective::Exit);
    assert!(!d.wants_redraw());
    assert_eq!(d.on_event(OverlayEvent::RedrawRequested), EventAction::Ignore);
    assert_eq!(d.on_event(OverlayEvent::Other), EventAction::Ignore);
}

#[test]
fn transient_acquisition_failure_skips_this_frame_only() {
    let mut d = running_driver();
    let dir = d.on_acquire(AcquireOutcome::Transient);
    assert_eq!(dir, FrameDirective::Skip);
    assert!(d.wants_redraw());
    let dir = d.on_acquire(AcquireOutcome::Acquired);
    assert_eq!(dir, FrameDirective::Present);
}

#[test]
fn overlay_covers_target_monitor_exactly() {
    let monitor = MonitorGeometry { x: 0, y: 0, width: 1920, height: 1080 };
    let p = overlay_placement(&monitor);
    assert_eq!(p.x, 0);
    assert_eq!(p.y, 0);
    assert_eq!(p.width, 1920);
    assert_eq!(p.height, 1080);
    let supported = vec![AlphaMode::PreMultiplied];
    let c = SurfaceConfig::initial(p.width, p.height, &supported);
    assert_eq!(c.width, 1920);
    assert_eq!(c.height, 1080);
}

#[test]
fn overlay_style_is_borderless_topmost_transparent() {
    let s = overlay_style();
    assert!(!s.decorations);
    assert!(!s.resizable);
    assert!(s.transparent);
    assert!(s.always_on_top);
}

#[test]
fn frames_clear_to_fully_transparent_black() {
    let c = overlay_clear_color();
    assert_eq!(c.r, 0);
    assert_eq!(c.g, 0);
    assert_eq!(c.b, 0);
    assert_eq!(c.a, 0);
}

#[test]
fn click_through_selects_each_platform_variant() {
    assert_eq!(
        click_through_method(PlatformKind::Windows),
        Some(ClickThroughMethod::LayeredStyleBits)
    );
    assert_eq!(
        click_through_method(PlatformKind::MacOs),
        Some(ClickThroughMethod::IgnoreMouseEvents)
    );
    assert_eq!(
        click_through_method(PlatformKind::X11),
        Some(ClickThroughMethod::EmptyInputShape)
    );
}

#[test]
fn click_through_is_a_no_op_where_unsupported() {
    assert_eq!(click_through_method(PlatformKind::Wayland), None);
    assert_eq!(click_through_method(PlatformKind::Unknown), None);
}

#[test]
fn decimal_notation_is_exact() {
    assert_eq!(u64_to_decimal(0), "0");
    assert_eq!(u64_to_decimal(7), "7");
    assert_eq!(u64_to_decimal(10), "10");
    assert_eq!(u64_to_decimal(60944), "60944");
    assert_eq!(u64_to_decimal(u64::MAX), "18446744073709551615");
}

#[test]
fn label_rounds_to_nearest_tenth() {
    assert_eq!(format_fps_label(0), "FPS: 0.0");
    assert_eq!(format_fps_label(63_725), "FPS: 63.7");
    assert_eq!(format_fps_label(59_960), "FPS: 60.0");
    assert_eq!(format_fps_label(1_234), "FPS: 1.2");
    assert_eq!(format_fps_label(999_949), "FPS: 999.9");
    assert_eq!(format_fps_label(999_950), "FPS: 1000.0");
    assert_eq!(format_fps_label(144_000), "FPS: 144.0");
}
