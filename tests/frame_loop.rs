use realtime::create_shared_mut;
use realtime::frame::{
    pass_plan, ColorTarget, FrameTarget, RenderConfig, Size, SurfaceConfig,
    CONSTRAINED_MAX_TEXTURE_DIMENSION, MULTISAMPLE_COUNT, SINGLE_SAMPLE,
};
use realtime::gui::{UiInput, GUI, SCALE_DEFAULT, SCALE_MAX, SCALE_MIN};
use realtime::scheduler::{FpsCounter, FrameScheduler, Tick, FPS_REPORT_FRAMES, TARGET_FRAME_NANOS};
use realtime::state::{FrameStep, Key, MouseButton, Response, State, SurfaceError, WindowInput};

fn native_state(width: u32, height: u32) -> State {
    State::new(Size::new(width, height), 0, RenderConfig::resolve(false), 0)
}

#[test]
fn shared_value_is_readable_and_writable() {
    let shared = create_shared_mut(5u32);
    *shared.write().unwrap() += 1;
    assert_eq!(*shared.read().unwrap(), 6);
}

#[test]
fn render_config_per_backend() {
    let native = RenderConfig::resolve(false);
    assert_eq!(native.sample_count, MULTISAMPLE_COUNT);
    assert_eq!(native.max_texture_dimension_2d, None);
    let web = RenderConfig::resolve(true);
    assert_eq!(web.sample_count, SINGLE_SAMPLE);
    assert_eq!(web.max_texture_dimension_2d, Some(CONSTRAINED_MAX_TEXTURE_DIMENSION));
}

#[test]
fn frame_target_follows_surface() {
    let config = SurfaceConfig::from_size(Size::new(640, 480), 2);
    assert_eq!(config, SurfaceConfig { width: 640, height: 480, format: 2 });
    let target = FrameTarget::rebuild(&config, &RenderConfig::resolve(false));
    assert_eq!(target, FrameTarget { width: 640, height: 480, format: 2, sample_count: 4 });
}

#[test]
fn pass_plan_by_sample_count() {
    let single = pass_plan(1);
    assert_eq!(single.color_target, ColorTarget::Surface);
    assert!(!single.resolve_to_surface);
    let multi = pass_plan(4);
    assert_eq!(multi.color_target, ColorTarget::Multisampled);
    assert!(multi.resolve_to_surface);
}

#[test]
fn zero_area_resize_changes_nothing() {
    for size in [Size::new(0, 600), Size::new(800, 0), Size::new(0, 0)] {
        let mut state = native_state(800, 600);
        let before = state;
        assert!(!state.resize(size));
        assert_eq!(state, before);
        let mut state = native_state(800, 600);
        assert_eq!(state.handle_window_event(&WindowInput::Resized(size)), Response::Ignore);
        assert_eq!(state, before);
    }
}

#[test]
fn positive_resize_updates_surface_and_target() {
    let mut state = native_state(800, 600);
    assert!(state.resize(Size::new(1024, 768)));
    assert_eq!(state.size, Size::new(1024, 768));
    assert_eq!(state.config, Some(SurfaceConfig { width: 1024, height: 768, format: 0 }));
    assert_eq!(state.target, Some(FrameTarget { width: 1024, height: 768, format: 0, sample_count: 4 }));
    let ev = WindowInput::ScaleFactorChanged(Size::new(1, 2));
    assert_eq!(state.handle_window_event(&ev), Response::Reconfigure);
    assert_eq!(state.config, Some(SurfaceConfig { width: 1, height: 2, format: 0 }));
    assert_eq!(state.target.map(|t| (t.width, t.height)), Some((1, 2)));
}

#[test]
fn scheduler_waits_then_requests() {
    let mut s = FrameScheduler::new(1_000);
    assert_eq!(s.tick(1_000 + TARGET_FRAME_NANOS - 1), Tick::WaitUntil(1_000 + TARGET_FRAME_NANOS));
    assert_eq!(s.last_request, 1_000);
    assert_eq!(s.tick(1_000 + TARGET_FRAME_NANOS), Tick::RequestRedraw);
    assert_eq!(s.last_request, 1_000 + TARGET_FRAME_NANOS);
    // A reading before the reset counts as no time at all.
    assert_eq!(s.tick(0), Tick::WaitUntil(1_000 + 2 * TARGET_FRAME_NANOS));
    let mut late = FrameScheduler::new(u64::MAX - 5);
    assert_eq!(late.tick(u64::MAX), Tick::WaitUntil(u64::MAX));
}

#[test]
fn scheduler_requests_are_spaced() {
    let mut s = FrameScheduler::new(0);
    let mut last: Option<u64> = None;
    let mut now: u64 = 0;
    while now < 1_000_000_000 {
        if s.tick(now) == Tick::RequestRedraw {
            if let Some(prev) = last {
                assert!(now - prev >= TARGET_FRAME_NANOS);
            }
            last = Some(now);
        }
        now += 1_000_000;
    }
    assert!(last.is_some());
}

#[test]
fn fps_reported_after_one_hundred_frames() {
    let mut c = FpsCounter::new(0);
    for i in 1..FPS_REPORT_FRAMES {
        assert_eq!(c.record_frame(i * 10_000_000), None);
        assert_eq!(c.frame_count, i);
    }
    assert_eq!(c.accum_nanos, 990_000_000);
    // One hundred frames over exactly one second.
    assert_eq!(c.record_frame(1_000_000_000), Some(100));
    assert_eq!(c.frame_count, 0);
    assert_eq!(c.accum_nanos, 0);
    assert_eq!(c.last_frame, 1_000_000_000);
}

#[test]
fn fps_rounds_down_and_handles_no_time() {
    let mut c = FpsCounter { frame_count: 99, accum_nanos: 0, last_frame: 5 };
    assert_eq!(c.record_frame(5), Some(u64::MAX));
    let mut c = FpsCounter { frame_count: 99, accum_nanos: 2_999_999_999, last_frame: 0 };
    assert_eq!(c.record_frame(1), Some(33));
}

#[test]
fn scale_stays_in_range() {
    let mut g = GUI::new();
    assert_eq!(g.scale, SCALE_DEFAULT);
    assert!(!g.window_open);
    for (input, expected) in [(0u32, SCALE_MIN), (21, SCALE_MAX), (u32::MAX, 20), (7, 7), (1, 1), (20, 20)] {
        g.apply(UiInput::Scale(input));
        assert_eq!(g.scale, expected);
    }
    g.apply(UiInput::WindowOpen(true));
    assert!(g.window_open);
    assert_eq!(g.scale, 20);
}

#[test]
fn primary_press_captures_pointer() {
    let mut state = native_state(800, 600);
    let press = WindowInput::MouseButton { button: MouseButton::Primary, pressed: true };
    assert_eq!(state.handle_window_event(&press), Response::SetCursor { visible: false, grabbed: true });
    assert!(state.mouse_pressed);
    let other = WindowInput::MouseButton { button: MouseButton::Other, pressed: true };
    let mut fresh = native_state(800, 600);
    assert!(!fresh.input(&other));
    assert_eq!(fresh.handle_window_event(&other), Response::ForwardToOverlay);
    assert!(!fresh.mouse_pressed);
}

#[test]
fn escape_releases_then_exits() {
    let mut state = native_state(800, 600);
    state.handle_window_event(&WindowInput::MouseButton { button: MouseButton::Primary, pressed: true });
    let esc = WindowInput::Keyboard { key: Key::Escape, pressed: true };
    assert_eq!(state.handle_window_event(&esc), Response::SetCursor { visible: true, grabbed: false });
    assert!(!state.mouse_pressed);
    assert_eq!(state.handle_window_event(&esc), Response::Exit);
    let release = WindowInput::Keyboard { key: Key::Escape, pressed: false };
    assert_eq!(state.handle_window_event(&release), Response::ForwardToOverlay);
    assert_eq!(state.handle_window_event(&WindowInput::CloseRequested), Response::Exit);
}

#[test]
fn lost_surface_reconfigures_then_recovers() {
    let mut state = native_state(800, 600);
    let before = state;
    assert_eq!(state.after_acquire(Err(SurfaceError::Lost), 5), FrameStep::Reconfigure);
    assert_eq!(state, before);
    assert_eq!(state.config, Some(SurfaceConfig { width: 800, height: 600, format: 0 }));
    assert_eq!(state.fps.frame_count, 0);
    assert_eq!(state.after_acquire(Ok(()), 7), FrameStep::Record { plan: pass_plan(4), fps: None });
    assert_eq!(state.fps.frame_count, 1);
    assert_eq!(state.fps.accum_nanos, 7);
}

#[test]
fn other_surface_errors() {
    let mut state = native_state(800, 600);
    assert_eq!(state.after_acquire(Err(SurfaceError::OutOfMemory), 1), FrameStep::Exit);
    assert_eq!(state.after_acquire(Err(SurfaceError::Outdated), 2), FrameStep::Drop);
    assert_eq!(state.after_acquire(Err(SurfaceError::Timeout), 3), FrameStep::Drop);
    // Dropped frames are not counted.
    assert_eq!(state.fps, FpsCounter::new(0));
    let mut minimized = native_state(0, 0);
    assert_eq!(minimized.after_acquire(Err(SurfaceError::Lost), 1), FrameStep::Drop);
}

#[test]
fn frame_and_tick_through_state() {
    let mut state = native_state(800, 600);
    assert_eq!(state.tick(TARGET_FRAME_NANOS), Tick::RequestRedraw);
    state.update(TARGET_FRAME_NANOS + 5);
    assert_eq!(state.scheduler.last_request, TARGET_FRAME_NANOS + 5);
    assert_eq!(state.after_acquire(Ok(()), 10), FrameStep::Record { plan: pass_plan(4), fps: None });
    assert_eq!(state.fps.frame_count, 1);
    assert_eq!(state.fps.accum_nanos, 10);
}

#[test]
fn menu_opens() {
    let mut state = native_state(800, 600);
    assert!(!state.menu_mode());
    state.open_menu();
    assert!(state.menu_mode());
    assert_eq!(state.gui.scale, SCALE_DEFAULT);
}

#[test]
fn resets_and_ticks_keep_requests_spaced() {
    let mut s = FrameScheduler::new(0);
    let mut requests: Vec<u64> = Vec::new();
    let mut now: u64 = 0;
    while now < 500_000_000 {
        if s.tick(now) == Tick::RequestRedraw {
            requests.push(now);
            // The frame renders a little later and restarts the timer.
            now += 3_000_000;
            s.reset(now);
        }
        now += 1_000_000;
    }
    assert!(requests.len() > 1);
    for pair in requests.windows(2) {
        assert!(pair[1] - pair[0] >= TARGET_FRAME_NANOS);
    }
    assert_eq!(requests[0], 17_000_000);
    assert_eq!(requests[1], 37_000_000);
}

#[test]
fn drawable_sizes() {
    assert!(Size::new(1, 1).is_drawable());
    assert!(!Size::new(0, 1).is_drawable());
    assert!(!Size::new(1, 0).is_drawable());
}

#[test]
fn zero_area_window_starts_unconfigured() {
    for size in [Size::new(0, 600), Size::new(800, 0)] {
        let mut state = State::new(size, 0, RenderConfig::resolve(false), 0);
        assert_eq!(state.config, None);
        assert_eq!(state.target, None);
        assert!(!state.can_acquire());
        assert_eq!(state.after_acquire(Ok(()), 4), FrameStep::Drop);
        assert_eq!(state.fps.frame_count, 0);
        assert_eq!(state.after_acquire(Err(SurfaceError::Lost), 4), FrameStep::Drop);
        assert_eq!(state.handle_window_event(&WindowInput::Resized(Size::new(0, 0))), Response::Ignore);
        assert_eq!(state.config, None);
        assert_eq!(state.handle_window_event(&WindowInput::Resized(Size::new(320, 200))), Response::Reconfigure);
        assert!(state.can_acquire());
        assert_eq!(state.target, Some(FrameTarget { width: 320, height: 200, format: 0, sample_count: 4 }));
    }
}

#[test]
fn hundredth_rendered_frame_reports_despite_drops() {
    let mut state = native_state(800, 600);
    for i in 1..100u64 {
        assert_eq!(state.after_acquire(Err(SurfaceError::Timeout), i * 10_000_000 - 1), FrameStep::Drop);
        assert_eq!(state.after_acquire(Ok(()), i * 10_000_000), FrameStep::Record { plan: pass_plan(4), fps: None });
    }
    assert_eq!(state.fps.frame_count, 99);
    assert_eq!(state.after_acquire(Ok(()), 1_000_000_000), FrameStep::Record { plan: pass_plan(4), fps: Some(100) });
    assert_eq!(state.fps.frame_count, 0);
    assert_eq!(state.fps.accum_nanos, 0);
}
