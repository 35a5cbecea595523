use hatchery::engine::{DriverAction, EngineLauncher, Lifecycle, LoopEvent, WindowEventKind};

fn window(kind: WindowEventKind, ui_consumed: bool) -> LoopEvent {
    LoopEvent::Window { kind, ui_consumed }
}

#[test]
fn lifecycle_runs_through_its_states() {
    let mut l = EngineLauncher::new();
    assert_eq!(l.state(), Lifecycle::Initializing);
    assert!(l.handle(LoopEvent::RedrawRequested).is_empty());
    l.started();
    assert_eq!(l.state(), Lifecycle::Running);
    l.finished();
    assert_eq!(l.state(), Lifecycle::Running);
    let a = l.handle(window(WindowEventKind::CloseRequested, false));
    assert_eq!(a, vec![DriverAction::ForwardToEngine, DriverAction::StopEngine, DriverAction::Exit]);
    assert_eq!(l.state(), Lifecycle::Stopping);
    l.started();
    assert_eq!(l.state(), Lifecycle::Stopping);
    l.finished();
    assert_eq!(l.state(), Lifecycle::Terminated);
}

#[test]
fn events_while_running() {
    let mut l = EngineLauncher::new();
    l.started();
    assert_eq!(
        l.handle(window(WindowEventKind::Resized, true)),
        vec![DriverAction::Resize]
    );
    assert_eq!(
        l.handle(window(WindowEventKind::ScaleFactorChanged, false)),
        vec![DriverAction::ForwardToEngine, DriverAction::Resize]
    );
    assert_eq!(
        l.handle(window(WindowEventKind::Other, false)),
        vec![DriverAction::ForwardToEngine]
    );
    assert!(l.handle(window(WindowEventKind::Other, true)).is_empty());
    assert_eq!(
        l.handle(LoopEvent::RedrawRequested),
        vec![DriverAction::RebuildUi, DriverAction::RenderFrame]
    );
    assert_eq!(l.handle(LoopEvent::MainEventsCleared), vec![DriverAction::RequestRedraw]);
    assert!(l.handle(LoopEvent::Other).is_empty());
    assert_eq!(l.state(), Lifecycle::Running);
}

#[test]
fn stop_hook_runs_once() {
    let mut l = EngineLauncher::new();
    l.started();
    let mut stops = 0;
    for e in [
        window(WindowEventKind::CloseRequested, true),
        window(WindowEventKind::CloseRequested, false),
        LoopEvent::RedrawRequested,
        window(WindowEventKind::Resized, false),
    ] {
        stops += l
            .handle(e)
            .iter()
            .filter(|a| **a == DriverAction::StopEngine)
            .count();
    }
    assert_eq!(stops, 1);
    assert_eq!(l.state(), Lifecycle::Stopping);
}

#[test]
fn out_of_date_swapchain_is_rebuilt_and_retried() {
    let mut l = EngineLauncher::new();
    l.started();
    assert_eq!(
        l.handle(LoopEvent::SwapchainOutOfDate),
        vec![DriverAction::Resize, DriverAction::RequestRedraw]
    );
    assert_eq!(l.state(), Lifecycle::Running);
}
