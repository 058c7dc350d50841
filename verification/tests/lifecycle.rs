use surface_lifecycle::config::{PixelFormat, SurfaceConfig};
use surface_lifecycle::frame::Acquisition;
use surface_lifecycle::lifecycle::{Action, Event, RunState, SurfaceLifecycle};

fn started(width: u32, height: u32) -> SurfaceLifecycle {
    SurfaceLifecycle::new(SurfaceConfig::initial(width, height, PixelFormat { code: 34 }))
}

fn extent(lifecycle: &SurfaceLifecycle) -> (u32, u32) {
    (lifecycle.config().width(), lifecycle.config().height())
}

const ALL_EVENTS: [Event; 12] = [
    Event::CloseRequested,
    Event::Resized { width: 0, height: 0 },
    Event::ScaleFactorChanged { width: 640, height: 480 },
    Event::RedrawRequested,
    Event::MainEventsCleared,
    Event::FrameAcquired(Acquisition::Frame),
    Event::FrameAcquired(Acquisition::Lost),
    Event::FrameAcquired(Acquisition::Outdated),
    Event::FrameAcquired(Acquisition::OutOfMemory),
    Event::FrameAcquired(Acquisition::Timeout),
    Event::FrameAcquired(Acquisition::Other),
    Event::Other,
];

#[test]
fn new_machine_is_running() {
    let lifecycle = started(800, 600);
    assert_eq!(lifecycle.state(), RunState::Running);
    assert!(lifecycle.is_running());
    assert_eq!(extent(&lifecycle), (800, 600));
}

#[test]
fn minimize_then_restore_scenario() {
    let mut lifecycle = started(800, 600);
    assert_eq!(extent(&lifecycle), (800, 600));
    let mut reconfigurations: u32 = 0;

    if lifecycle.step(Event::Resized { width: 0, height: 0 }) == Action::Configure {
        reconfigurations += 1;
    }
    assert_eq!(extent(&lifecycle), (1, 1));

    if lifecycle.step(Event::Resized { width: 1024, height: 768 }) == Action::Configure {
        reconfigurations += 1;
    }
    assert_eq!(extent(&lifecycle), (1024, 768));
    assert_eq!(reconfigurations, 2);
    assert!(lifecycle.is_running());
}

#[test]
fn resize_event_clamps_each_dimension() {
    for (w, h) in [(0u32, 0u32), (0, 300), (300, 0), (1, 1), (u32::MAX, u32::MAX)] {
        let mut lifecycle = started(800, 600);
        assert_eq!(lifecycle.step(Event::Resized { width: w, height: h }), Action::Configure);
        assert_eq!(extent(&lifecycle), (w.max(1), h.max(1)));
        assert!(lifecycle.is_running());
    }
}

#[test]
fn scale_factor_change_acts_as_resize() {
    let mut by_scale = started(800, 600);
    let mut by_resize = started(800, 600);
    assert_eq!(
        by_scale.step(Event::ScaleFactorChanged { width: 1600, height: 0 }),
        Action::Configure
    );
    assert_eq!(by_resize.step(Event::Resized { width: 1600, height: 0 }), Action::Configure);
    assert_eq!(by_scale, by_resize);
    assert_eq!(extent(&by_scale), (1600, 1));
}

#[test]
fn same_resize_twice_is_same_as_once() {
    let mut once = started(800, 600);
    once.step(Event::Resized { width: 0, height: 480 });
    let mut twice = started(800, 600);
    twice.step(Event::Resized { width: 0, height: 480 });
    assert_eq!(twice.step(Event::Resized { width: 0, height: 480 }), Action::Configure);
    assert_eq!(once, twice);
    assert_eq!(once.config(), twice.config());
}

#[test]
fn close_request_exits() {
    let mut lifecycle = started(800, 600);
    assert_eq!(lifecycle.step(Event::CloseRequested), Action::Exit);
    assert_eq!(lifecycle.state(), RunState::Exiting);
    assert!(!lifecycle.is_running());
    assert_eq!(extent(&lifecycle), (800, 600));
}

#[test]
fn no_frame_is_driven_after_close() {
    let mut lifecycle = started(800, 600);
    lifecycle.step(Event::CloseRequested);
    for _ in 0..3 {
        assert_eq!(lifecycle.step(Event::RedrawRequested), Action::Idle);
        assert_eq!(lifecycle.step(Event::MainEventsCleared), Action::Idle);
        assert_eq!(lifecycle.step(Event::FrameAcquired(Acquisition::Frame)), Action::Idle);
        assert_eq!(lifecycle.state(), RunState::Exiting);
    }
}

#[test]
fn exiting_is_never_left() {
    for first in ALL_EVENTS {
        for second in ALL_EVENTS {
            let mut lifecycle = started(800, 600);
            lifecycle.step(Event::CloseRequested);
            let a = lifecycle.step(first);
            let b = lifecycle.step(second);
            assert_eq!(lifecycle.state(), RunState::Exiting);
            for action in [a, b] {
                assert_ne!(action, Action::AcquireFrame);
                assert_ne!(action, Action::RenderAndPresent);
                assert_ne!(action, Action::RequestRedraw);
            }
        }
    }
}

#[test]
fn resize_after_close_still_reconfigures() {
    let mut lifecycle = started(800, 600);
    lifecycle.step(Event::CloseRequested);
    assert_eq!(lifecycle.step(Event::Resized { width: 0, height: 90 }), Action::Configure);
    assert_eq!(extent(&lifecycle), (1, 90));
    assert_eq!(lifecycle.state(), RunState::Exiting);
}

#[test]
fn redraw_request_asks_for_one_acquisition() {
    let mut lifecycle = started(800, 600);
    let before = lifecycle;
    assert_eq!(lifecycle.step(Event::RedrawRequested), Action::AcquireFrame);
    assert_eq!(lifecycle, before);
}

#[test]
fn events_cleared_requests_redraw() {
    let mut lifecycle = started(800, 600);
    let before = lifecycle;
    assert_eq!(lifecycle.step(Event::MainEventsCleared), Action::RequestRedraw);
    assert_eq!(lifecycle, before);
}

#[test]
fn unrelated_events_are_ignored() {
    let mut lifecycle = started(800, 600);
    let before = lifecycle;
    assert_eq!(lifecycle.step(Event::Other), Action::Idle);
    assert_eq!(lifecycle, before);
}

#[test]
fn acquired_frame_is_rendered_and_presented() {
    let mut lifecycle = started(800, 600);
    let before = lifecycle;
    assert_eq!(lifecycle.step(Event::RedrawRequested), Action::AcquireFrame);
    assert_eq!(
        lifecycle.step(Event::FrameAcquired(Acquisition::Frame)),
        Action::RenderAndPresent
    );
    assert_eq!(lifecycle, before);
}

#[test]
fn surface_lost_reconfigures_with_unchanged_config() {
    let mut lifecycle = started(800, 600);
    lifecycle.step(Event::Resized { width: 0, height: 333 });
    let before = lifecycle.config();
    assert_eq!(lifecycle.step(Event::RedrawRequested), Action::AcquireFrame);
    let action = lifecycle.step(Event::FrameAcquired(Acquisition::Lost));
    assert_eq!(action, Action::Configure);
    assert_ne!(action, Action::RenderAndPresent);
    assert_ne!(action, Action::Exit);
    assert_eq!(lifecycle.config(), before);
    assert_eq!(extent(&lifecycle), (1, 333));
    assert!(lifecycle.is_running());
}

#[test]
fn surface_outdated_reconfigures_with_unchanged_config() {
    let mut lifecycle = started(800, 600);
    let before = lifecycle;
    assert_eq!(
        lifecycle.step(Event::FrameAcquired(Acquisition::Outdated)),
        Action::Configure
    );
    assert_eq!(lifecycle, before);
}

#[test]
fn out_of_memory_exits_without_reconfiguring() {
    let mut lifecycle = started(800, 600);
    let before = lifecycle.config();
    assert_eq!(lifecycle.step(Event::RedrawRequested), Action::AcquireFrame);
    let action = lifecycle.step(Event::FrameAcquired(Acquisition::OutOfMemory));
    assert_eq!(action, Action::Exit);
    assert_ne!(action, Action::Configure);
    assert_eq!(lifecycle.state(), RunState::Exiting);
    assert_eq!(lifecycle.config(), before);
    assert_eq!(lifecycle.step(Event::RedrawRequested), Action::Idle);
    assert_eq!(
        lifecycle.step(Event::FrameAcquired(Acquisition::OutOfMemory)),
        Action::Idle
    );
}

#[test]
fn transient_error_is_logged_and_loop_stays_ready() {
    for failure in [Acquisition::Timeout, Acquisition::Other] {
        let mut lifecycle = started(800, 600);
        let before = lifecycle;
        assert_eq!(lifecycle.step(Event::RedrawRequested), Action::AcquireFrame);
        let action = lifecycle.step(Event::FrameAcquired(failure));
        assert_eq!(action, Action::LogAndSkip);
        assert_eq!(lifecycle, before);
        assert!(lifecycle.is_running());
        assert_eq!(lifecycle.step(Event::RedrawRequested), Action::AcquireFrame);
    }
}

#[test]
fn only_close_and_out_of_memory_end_the_run() {
    for event in ALL_EVENTS {
        let mut lifecycle = started(800, 600);
        let action = lifecycle.step(event);
        let ends = event == Event::CloseRequested
            || event == Event::FrameAcquired(Acquisition::OutOfMemory);
        assert_eq!(lifecycle.state() == RunState::Exiting, ends);
        assert_eq!(action == Action::Exit, ends);
    }
}

#[test]
fn only_size_changes_alter_the_config() {
    for event in ALL_EVENTS {
        let mut lifecycle = started(800, 600);
        let before = lifecycle.config();
        lifecycle.step(event);
        let is_size_change = matches!(
            event,
            Event::Resized { .. } | Event::ScaleFactorChanged { .. }
        );
        assert_eq!(lifecycle.config() != before, is_size_change);
        assert!(lifecycle.config().width() >= 1);
        assert!(lifecycle.config().height() >= 1);
    }
}
