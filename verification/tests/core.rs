use hello_triangle::clock::MICROS_PER_SECOND;
use hello_triangle::frame_counter::fps_display_parts;
use hello_triangle::frame_counter::FrameCounter;
use hello_triangle::gate::TimingGate;
use hello_triangle::presenter::decide_acquire;
use hello_triangle::presenter::AcquireDecision;
use hello_triangle::presenter::AcquireStatus;
use hello_triangle::presenter::CycleStage;
use hello_triangle::presenter::Presenter;
use hello_triangle::scheduler::Directive;
use hello_triangle::scheduler::FrameScheduler;
use hello_triangle::scheduler::Notification;
use hello_triangle::surface::SurfaceConfig;
use hello_triangle::surface::SurfaceInitError;
use hello_triangle::surface::SurfaceManager;

fn manager_1x1() -> SurfaceManager {
    SurfaceManager {
        config: SurfaceConfig { width: 1, height: 1, format: 0, present_mode: 0 },
    }
}

#[test]
fn counter_starts_zeroed() {
    let c = FrameCounter::new();
    assert_eq!(c.frame_count, 0);
    assert_eq!(c.sample_start_micros, 0);
    assert_eq!(c.get_last_fps(), 0);
    assert_eq!(c.get_last_frame_time(), 0);
}

#[test]
fn counter_commits_exact_average_after_one_second() {
    let mut c = FrameCounter::new();
    // Ten cycles at 100 ms intervals; the tenth closes the 1 s window.
    for i in 1..=10u64 {
        c.update_at(i * 100_000);
    }
    // 10 frames over 1_000_000 us: 10.000 fps, 100_000 us per frame.
    assert_eq!(c.get_last_fps(), 10_000);
    assert_eq!(c.get_last_frame_time(), 100_000);
    // The count resets immediately after the commit, and a fresh window
    // starts at the committing reading.
    assert_eq!(c.frame_count, 0);
    assert_eq!(c.sample_start_micros, 1_000_000);
}

#[test]
fn counter_commits_nothing_before_the_window_closes() {
    let mut c = FrameCounter::new();
    c.update_at(999_999);
    assert_eq!(c.frame_count, 1);
    assert_eq!(c.get_last_fps(), 0);
    assert_eq!(c.get_last_frame_time(), 0);
}

#[test]
fn counter_window_reopens_after_commit() {
    let mut c = FrameCounter::new();
    c.update_at(MICROS_PER_SECOND);
    assert_eq!(c.frame_count, 0);
    c.update_at(1_500_000);
    // Only half a second into the new window: accumulate, no commit.
    assert_eq!(c.frame_count, 1);
    assert_eq!(c.get_last_fps(), 1_000);
    assert_eq!(c.sample_start_micros, MICROS_PER_SECOND);
}

#[test]
fn counter_uneven_window_is_averaged_exactly() {
    let mut c = FrameCounter::new();
    c.update_at(400_000);
    c.update_at(800_000);
    c.update_at(2_100_000);
    // 3 frames over 2_100_000 us: 1.428571... fps is 1428 millihertz,
    // 700_000 us per frame.
    assert_eq!(c.get_last_fps(), 1_428);
    assert_eq!(c.get_last_frame_time(), 700_000);
    assert_eq!(c.frame_count, 0);
}

#[test]
fn counter_live_clock_smoke() {
    let mut c = FrameCounter::new();
    c.update();
    c.update();
    // Far less than a second has passed: nothing committed.
    assert_eq!(c.get_last_fps(), 0);
}

#[test]
fn fps_display_rounds_to_one_tenth() {
    assert_eq!(fps_display_parts(0), (0, 0));
    assert_eq!(fps_display_parts(29_960), (30, 0));
    assert_eq!(fps_display_parts(33_333), (33, 3));
    assert_eq!(fps_display_parts(1_049), (1, 0));
    assert_eq!(fps_display_parts(1_050), (1, 1));
    assert_eq!(fps_display_parts(999_950), (1000, 0));
}

#[test]
fn gate_first_attempt_always_fires() {
    let mut g = TimingGate::new(33_000);
    assert!(g.try_fire(0));
    assert!(g.has_fired);
    assert_eq!(g.last_fired_micros, 0);
}

#[test]
fn gate_rejects_attempts_within_the_period() {
    let mut g = TimingGate::new(33_000);
    assert!(g.try_fire(10_000));
    assert!(!g.try_fire(20_000));
    assert!(!g.try_fire(42_999));
    // Still recorded at the last firing, not at a rejected attempt.
    assert_eq!(g.last_fired_micros, 10_000);
    assert!(g.try_fire(43_000));
    assert_eq!(g.last_fired_micros, 43_000);
}

#[test]
fn gate_records_the_actual_firing_instant() {
    // Firing late does not shift the next slot to the ideal tick: the
    // throttle restarts from the actual instant, so drift does not compound.
    let mut g = TimingGate::new(33_000);
    assert!(g.try_fire(0));
    assert!(g.try_fire(50_000));
    assert!(!g.try_fire(66_000));
    assert!(g.try_fire(83_000));
}

#[test]
fn surface_initialize_rejects_empty_capabilities() {
    let no_formats: Vec<u32> = vec![];
    let modes: Vec<u32> = vec![7];
    assert_eq!(
        SurfaceManager::initialize(&no_formats, &modes, 800, 600).unwrap_err(),
        SurfaceInitError::NoFormat,
    );
    let formats: Vec<u32> = vec![3];
    let no_modes: Vec<u32> = vec![];
    assert_eq!(
        SurfaceManager::initialize(&formats, &no_modes, 800, 600).unwrap_err(),
        SurfaceInitError::NoPresentMode,
    );
}

#[test]
fn surface_initialize_picks_first_capability_and_clamps() {
    let formats: Vec<u32> = vec![3, 5];
    let modes: Vec<u32> = vec![7, 9];
    let m = SurfaceManager::initialize(&formats, &modes, 0, 600).unwrap();
    assert_eq!(
        m.config,
        SurfaceConfig { width: 1, height: 600, format: 3, present_mode: 7 },
    );
}

#[test]
fn surface_stores_1x1_for_a_zero_reported_size() {
    let formats: Vec<u32> = vec![0];
    let modes: Vec<u32> = vec![0];
    let mut m = SurfaceManager::initialize(&formats, &modes, 800, 600).unwrap();
    m.reconfigure(0, 0);
    assert_eq!(m.config.width, 1);
    assert_eq!(m.config.height, 1);
}

#[test]
fn surface_reconfigure_is_idempotent() {
    let mut m = manager_1x1();
    let first = m.reconfigure(640, 480);
    assert!(first);
    let stored = m.config;
    let second = m.reconfigure(640, 480);
    // The repeat stores the same configuration and reports no change.
    assert!(!second);
    assert_eq!(m.config, stored);
}

#[test]
fn acquire_policy_retries_a_lost_surface_once() {
    assert_eq!(decide_acquire(AcquireStatus::Ready, false), AcquireDecision::Render);
    assert_eq!(decide_acquire(AcquireStatus::Ready, true), AcquireDecision::Render);
    assert_eq!(
        decide_acquire(AcquireStatus::Lost, false),
        AcquireDecision::ReconfigureAndRetry,
    );
    assert_eq!(decide_acquire(AcquireStatus::Lost, true), AcquireDecision::Abort);
    assert_eq!(decide_acquire(AcquireStatus::DeviceLost, false), AcquireDecision::Abort);
    assert_eq!(decide_acquire(AcquireStatus::DeviceLost, true), AcquireDecision::Abort);
}

#[test]
fn presenter_runs_one_full_cycle() {
    let mut p = Presenter::new();
    let mut c = FrameCounter::new();
    assert!(p.is_idle());
    p.target_acquired();
    assert!(!p.is_idle());
    p.pass_recorded();
    p.commands_submitted();
    p.target_presented(&mut c);
    assert!(p.is_idle());
    assert_eq!(p.cycles_completed, 1);
    assert_eq!(p.stage, CycleStage::Idle);
}

#[test]
fn scheduler_caps_ten_fast_redraws_at_two_renders() {
    // Target period 33 ms; ten redraw notifications at 5 ms intervals.
    let mut s = FrameScheduler::new(manager_1x1(), 33_000);
    let mut directives = Vec::new();
    for i in 0..10u64 {
        directives.push(s.handle_event_at(Notification::RedrawRequested, i * 5_000));
    }
    let renders = directives.iter().filter(|d| **d == Directive::Render).count();
    // Exactly two cycles run: at 0 ms and at the first attempt past 33 ms.
    assert_eq!(renders, 2);
    assert_eq!(directives[0], Directive::Render);
    assert_eq!(directives[7], Directive::Render);
    for i in [1usize, 2, 3, 4, 5, 6, 8, 9] {
        assert_eq!(directives[i], Directive::SkipRender);
    }
}

#[test]
fn scheduler_resize_to_zero_then_acquire_succeeds() {
    let mut s = FrameScheduler::new(manager_1x1(), 33_000);
    let d = s.handle_event_at(Notification::Resized { width: 0, height: 0 }, 0);
    assert_eq!(d, Directive::Reconfigure);
    // The stored configuration is the clamped 1x1, never 0x0, so the
    // following acquisition proceeds against a usable configuration.
    assert_eq!(s.surface.config.width, 1);
    assert_eq!(s.surface.config.height, 1);
    assert_eq!(decide_acquire(AcquireStatus::Ready, false), AcquireDecision::Render);
    let mut p = Presenter::new();
    p.target_acquired();
    assert!(!p.is_idle());
}

#[test]
fn scheduler_close_discards_outstanding_target() {
    let mut s = FrameScheduler::new(manager_1x1(), 33_000);
    assert_eq!(s.handle_event_at(Notification::RedrawRequested, 0), Directive::Render);
    let mut p = Presenter::new();
    p.target_acquired();
    // Close arrives while the target is acquired but not yet presented.
    let d = s.handle_event_at(Notification::CloseRequested, 1_000);
    assert_eq!(d, Directive::Exit);
    p.target_discarded();
    // No target leaks, the cycle never counts as completed, and the loop
    // is terminal: everything after the close is ignored.
    assert!(p.is_idle());
    assert_eq!(p.cycles_completed, 0);
    assert_eq!(
        s.handle_event_at(Notification::RedrawRequested, 2_000),
        Directive::Ignore,
    );
    assert_eq!(
        s.handle_event_at(Notification::Resized { width: 5, height: 5 }, 3_000),
        Directive::Ignore,
    );
}

#[test]
fn scheduler_resize_requests_redraw_and_keeps_gate() {
    let mut s = FrameScheduler::new(manager_1x1(), 33_000);
    assert_eq!(s.handle_event_at(Notification::RedrawRequested, 0), Directive::Render);
    // A resize between redraws neither fires nor resets the throttle.
    s.handle_event_at(Notification::Resized { width: 320, height: 200 }, 10_000);
    assert_eq!(
        s.handle_event_at(Notification::RedrawRequested, 20_000),
        Directive::SkipRender,
    );
    assert_eq!(
        s.handle_event_at(Notification::RedrawRequested, 33_000),
        Directive::Render,
    );
}

#[test]
fn scheduler_live_clock_smoke() {
    let mut s = FrameScheduler::new(manager_1x1(), 0);
    // With a zero target period every redraw renders, whatever the clock
    // returns.
    assert_eq!(s.handle_event(Notification::RedrawRequested), Directive::Render);
    assert_eq!(s.handle_event(Notification::CloseRequested), Directive::Exit);
}
