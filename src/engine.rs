use vstd::prelude::*;

verus! {

/// The window events that the driver tells apart.
#[derive(Clone, Copy, Debug, PartialEq, Eq, Structural)]
pub enum WindowEventKind {
    /// The window was resized.
    Resized,
    /// The window's scale factor changed.
    ScaleFactorChanged,
    /// The user asked to close the window.
    CloseRequested,
    /// Any other window event (input and the like).
    Other,
}

/// An event of the window system's loop, as the driver sees it.
#[derive(Clone, Copy, Debug, PartialEq, Eq, Structural)]
pub enum LoopEvent {
    /// A window event; `ui_consumed` tells whether the UI took it.
    Window { kind: WindowEventKind, ui_consumed: bool },
    /// The window asks to be redrawn.
    RedrawRequested,
    /// All pending events were handled.
    MainEventsCleared,
    /// The swapchain image could not be acquired: the swapchain is out of
    /// date with the window.
    SwapchainOutOfDate,
    /// Anything else.
    Other,
}

/// What the driver asks of the host, in order.
#[derive(Clone, Copy, Debug, PartialEq, Eq, Structural)]
pub enum DriverAction {
    /// Hand the window event to the engine's event hook.
    ForwardToEngine,
    /// Rebuild the swapchain and viewport.
    Resize,
    /// Run the engine's stop hook.
    StopEngine,
    /// Leave the event loop.
    Exit,
    /// Rebuild the UI tree through the engine's UI hook.
    RebuildUi,
    /// Render and present one frame.
    RenderFrame,
    /// Ask the window for a redraw.
    RequestRedraw,
}

/// Lifecycle of the engine session.
#[derive(Clone, Copy, Debug, PartialEq, Eq, Structural)]
pub enum Lifecycle {
    Initializing,
    Running,
    Stopping,
    Terminated,
}

/// The actions that `event` calls for in state `state`. Events are handled
/// only while running; once stopping, nothing more is done, so the stop hook
/// runs once.
pub open spec fn actions_for(state: Lifecycle, event: LoopEvent) -> Seq<DriverAction> {
    if state != Lifecycle::Running {
        Seq::empty()
    } else {
        match event {
            LoopEvent::Window { kind, ui_consumed } => {
                let forward: Seq<DriverAction> = if ui_consumed {
                    Seq::empty()
                } else {
                    seq![DriverAction::ForwardToEngine]
                };
                match kind {
                    WindowEventKind::Resized => forward.push(DriverAction::Resize),
                    WindowEventKind::ScaleFactorChanged => forward.push(DriverAction::Resize),
                    WindowEventKind::CloseRequested => forward.push(DriverAction::StopEngine).push(
                        DriverAction::Exit,
                    ),
                    WindowEventKind::Other => forward,
                }
            },
            LoopEvent::RedrawRequested => seq![DriverAction::RebuildUi, DriverAction::RenderFrame],
            LoopEvent::MainEventsCleared => seq![DriverAction::RequestRedraw],
            LoopEvent::SwapchainOutOfDate => seq![DriverAction::Resize, DriverAction::RequestRedraw],
            LoopEvent::Other => Seq::empty(),
        }
    }
}

/// The state after `event` in state `state`.
pub open spec fn state_after(state: Lifecycle, event: LoopEvent) -> Lifecycle {
    if state == Lifecycle::Running && event matches LoopEvent::Window {
        kind: WindowEventKind::CloseRequested,
        ..
    } {
        Lifecycle::Stopping
    } else {
        state
    }
}

/// Drives the engine session: decides, event by event, what the host does.
pub struct EngineLauncher {
    state: Lifecycle,
}

impl EngineLauncher {
    /// The current lifecycle state.
    pub closed spec fn lifecycle(&self) -> Lifecycle {
        self.state
    }

    /// A session that is being initialized.
    pub fn new() -> (r: EngineLauncher)
        ensures
            r.lifecycle() == Lifecycle::Initializing,
    {
        EngineLauncher { state: Lifecycle::Initializing }
    }

    /// The current lifecycle state.
    pub fn state(&self) -> (r: Lifecycle)
        ensures
            r == self.lifecycle(),
    {
        self.state
    }

    /// The engine was initialized and started: the loop may run. Only an
    /// initializing session starts.
    pub fn started(&mut self)
        ensures
            final(self).lifecycle() == (if old(self).lifecycle() == Lifecycle::Initializing {
                Lifecycle::Running
            } else {
                old(self).lifecycle()
            }),
    {
        if self.state == Lifecycle::Initializing {
            self.state = Lifecycle::Running;
        }
    }

    /// The loop has ended after a stop: the session is over.
    pub fn finished(&mut self)
        ensures
            final(self).lifecycle() == (if old(self).lifecycle() == Lifecycle::Stopping {
                Lifecycle::Terminated
            } else {
                old(self).lifecycle()
            }),
    {
        if self.state == Lifecycle::Stopping {
            self.state = Lifecycle::Terminated;
        }
    }

    /// Decides what the host does for `event`, in order, and moves to the
    /// next state. While running: a window event goes to the engine unless
    /// the UI took it; a resize or a change of scale factor rebuilds the
    /// swapchain; a close request stops the engine and leaves the loop; a
    /// redraw rebuilds the UI and renders a frame; an out-of-date swapchain
    /// is rebuilt and the frame is retried on the next redraw. In any other
    /// state nothing is done.
    pub fn handle(&mut self, event: LoopEvent) -> (actions: Vec<DriverAction>)
        ensures
            actions@ == actions_for(old(self).lifecycle(), event),
            final(self).lifecycle() == state_after(old(self).lifecycle(), event),
    {
        let mut actions: Vec<DriverAction> = Vec::new();
        if self.state != Lifecycle::Running {
            assert(actions@ =~= actions_for(self.state, event));
            return actions;
        }
        match event {
            LoopEvent::Window { kind, ui_consumed } => {
                if !ui_consumed {
                    actions.push(DriverAction::ForwardToEngine);
                }
                match kind {
                    WindowEventKind::Resized => {
                        actions.push(DriverAction::Resize);
                    },
                    WindowEventKind::ScaleFactorChanged => {
                        actions.push(DriverAction::Resize);
                    },
                    WindowEventKind::CloseRequested => {
                        actions.push(DriverAction::StopEngine);
                        actions.push(DriverAction::Exit);
                        self.state = Lifecycle::Stopping;
                    },
                    WindowEventKind::Other => {},
                }
            },
            LoopEvent::RedrawRequested => {
                actions.push(DriverAction::RebuildUi);
                actions.push(DriverAction::RenderFrame);
            },
            LoopEvent::MainEventsCleared => {
                actions.push(DriverAction::RequestRedraw);
            },
            LoopEvent::SwapchainOutOfDate => {
                actions.push(DriverAction::Resize);
                actions.push(DriverAction::RequestRedraw);
            },
            LoopEvent::Other => {},
        }
        assert(actions@ =~= actions_for(old(self).lifecycle(), event));
        actions
    }
}

/// State and actions after a run of events.
pub open spec fn run_events(state: Lifecycle, events: Seq<LoopEvent>) -> (Lifecycle, Seq<DriverAction>)
    decreases events.len(),
{
    if events.len() == 0 {
        (state, Seq::empty())
    } else {
        let rest = run_events(state_after(state, events[0]), events.drop_first());
        (rest.0, actions_for(state, events[0]) + rest.1)
    }
}

/// How many times `a` occurs in `s`.
pub open spec fn action_count(s: Seq<DriverAction>, a: DriverAction) -> nat
    decreases s.len(),
{
    if s.len() == 0 {
        0
    } else {
        (if s[0] == a {
            1nat
        } else {
            0nat
        }) + action_count(s.drop_first(), a)
    }
}

proof fn lemma_action_count_append(s: Seq<DriverAction>, t: Seq<DriverAction>, a: DriverAction)
    ensures
        action_count(s + t, a) == action_count(s, a) + action_count(t, a),
    decreases s.len(),
{
    if s.len() == 0 {
        assert(s + t =~= t);
    } else {
        assert((s + t).drop_first() =~= s.drop_first() + t);
        lemma_action_count_append(s.drop_first(), t, a);
    }
}

proof fn lemma_stop_once_from(state: Lifecycle, events: Seq<LoopEvent>)
    requires
        state != Lifecycle::Running,
    ensures
        action_count(run_events(state, events).1, DriverAction::StopEngine) == 0,
        run_events(state, events).0 == state,
    decreases events.len(),
{
    if events.len() > 0 {
        lemma_stop_once_from(state_after(state, events[0]), events.drop_first());
        lemma_action_count_append(
            actions_for(state, events[0]),
            run_events(state_after(state, events[0]), events.drop_first()).1,
            DriverAction::StopEngine,
        );
        assert(actions_for(state, events[0]) =~= Seq::<DriverAction>::empty());
    }
}

/// Whatever events arrive, the engine's stop hook is asked for at most once
/// in a session, and a session that asked for it is stopping.
pub proof fn lemma_stop_runs_once(state: Lifecycle, events: Seq<LoopEvent>)
    ensures
        action_count(run_events(state, events).1, DriverAction::StopEngine) <= 1,
        action_count(run_events(state, events).1, DriverAction::StopEngine) == 1 ==> run_events(
            state,
            events,
        ).0 == Lifecycle::Stopping,
    decreases events.len(),
{
    reveal_with_fuel(action_count, 4);
    if events.len() > 0 {
        let e = events[0];
        let next = state_after(state, e);
        let first = actions_for(state, e);
        let rest = run_events(next, events.drop_first());
        lemma_action_count_append(first, rest.1, DriverAction::StopEngine);
        if next != Lifecycle::Running {
            lemma_stop_once_from(next, events.drop_first());
        } else {
            lemma_stop_runs_once(next, events.drop_first());
            assert(action_count(first, DriverAction::StopEngine) == 0) by {
                if state == Lifecycle::Running {
                    match e {
                        LoopEvent::Window { kind, ui_consumed } => {
                            assert(kind != WindowEventKind::CloseRequested);
                        },
                        _ => {},
                    }
                }
            }
        }
    }
}

} // verus!
