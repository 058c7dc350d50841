//! The event reaction state machine: how window events and frame
//! acquisitions move the surface between running and exiting, and which
//! action the host has to carry out for each.

use vstd::prelude::*;
use crate::config::{lemma_model_determines_config, lemma_resize_idempotent, ConfigModel, SurfaceConfig};
use crate::frame::{classify, verdict_of, Acquisition, FrameVerdict};

verus! {

/// Whether frames are still being driven.
#[derive(Clone, Copy, Debug, PartialEq, Eq, Structural)]
pub enum RunState {
    /// Events are handled and frames are driven.
    Running,
    /// The window was closed or the surface ran out of memory. Never left again.
    Exiting,
}

/// One event handed to the state machine, in the order the host received it.
#[derive(Clone, Copy, Debug, PartialEq, Eq, Structural)]
pub enum Event {
    /// The user asked to close the window.
    CloseRequested,
    /// The window has a new physical size; zero when it is minimized.
    Resized { width: u32, height: u32 },
    /// The scale factor changed and the window has a new physical size.
    ScaleFactorChanged { width: u32, height: u32 },
    /// The window should be drawn again.
    RedrawRequested,
    /// All pending events were delivered; the host is about to idle.
    MainEventsCleared,
    /// The host made the acquisition attempt it was asked for.
    FrameAcquired(Acquisition),
    /// Any event this machine has no reaction to.
    Other,
}

/// What the host has to do after an event was handled.
#[derive(Clone, Copy, Debug, PartialEq, Eq, Structural)]
pub enum Action {
    /// Nothing.
    Idle,
    /// Push the stored configuration to the presentable surface.
    Configure,
    /// Make one attempt to acquire the next frame and report it as
    /// `Event::FrameAcquired`.
    AcquireFrame,
    /// Render to the acquired frame, submit the work and present it.
    RenderAndPresent,
    /// Log the failed acquisition and drop the frame.
    LogAndSkip,
    /// Ask the window system for a redraw in the next loop iteration.
    RequestRedraw,
    /// Stop the event loop.
    Exit,
}

/// What a `SurfaceLifecycle` holds, as mathematical values.
pub struct LifecycleModel {
    pub state: RunState,
    pub config: ConfigModel,
}

impl LifecycleModel {
    /// A running machine over the given configuration.
    pub open spec fn started(config: ConfigModel) -> LifecycleModel {
        LifecycleModel { state: RunState::Running, config }
    }

    /// The machine after one event.
    ///
    /// A size change overwrites the stored size in either state. Closing the
    /// window and running out of memory lead to `Exiting`; nothing leads back.
    pub open spec fn after(self, event: Event) -> LifecycleModel {
        match event {
            Event::CloseRequested => LifecycleModel { state: RunState::Exiting, ..self },
            Event::Resized { width, height } | Event::ScaleFactorChanged { width, height } => {
                LifecycleModel { config: self.config.resized(width, height), ..self }
            },
            Event::FrameAcquired(acquisition) => {
                if self.state == RunState::Running && verdict_of(acquisition)
                    == FrameVerdict::Terminate {
                    LifecycleModel { state: RunState::Exiting, ..self }
                } else {
                    self
                }
            },
            Event::RedrawRequested | Event::MainEventsCleared | Event::Other => self,
        }
    }

    /// The action that one event asks of the host.
    ///
    /// Once the machine is exiting no frame is acquired, rendered or
    /// scheduled any more.
    pub open spec fn response(self, event: Event) -> Action {
        match event {
            Event::CloseRequested => Action::Exit,
            Event::Resized { .. } | Event::ScaleFactorChanged { .. } => Action::Configure,
            Event::RedrawRequested => {
                if self.state == RunState::Running {
                    Action::AcquireFrame
                } else {
                    Action::Idle
                }
            },
            Event::MainEventsCleared => {
                if self.state == RunState::Running {
                    Action::RequestRedraw
                } else {
                    Action::Idle
                }
            },
            Event::FrameAcquired(acquisition) => {
                if self.state == RunState::Running {
                    match verdict_of(acquisition) {
                        FrameVerdict::Present => Action::RenderAndPresent,
                        FrameVerdict::Reconfigure => Action::Configure,
                        FrameVerdict::Terminate => Action::Exit,
                        FrameVerdict::Skip => Action::LogAndSkip,
                    }
                } else {
                    Action::Idle
                }
            },
            Event::Other => Action::Idle,
        }
    }

    /// The machine after a sequence of events, handled first to last.
    pub open spec fn after_all(self, events: Seq<Event>) -> LifecycleModel
        decreases events.len(),
    {
        if events.len() == 0 {
            self
        } else {
            self.after_all(events.drop_last()).after(events.last())
        }
    }

    /// The action that the event at `index` asks for, when the events before
    /// it were handled first.
    pub open spec fn response_at(self, events: Seq<Event>, index: int) -> Action
        recommends
            0 <= index < events.len(),
    {
        self.after_all(events.take(index)).response(events[index])
    }
}

/// The surface's state machine together with the configuration store.
#[derive(Clone, Copy, Debug, PartialEq, Eq)]
pub struct SurfaceLifecycle {
    state: RunState,
    config: SurfaceConfig,
}

impl View for SurfaceLifecycle {
    type V = LifecycleModel;

    closed spec fn view(&self) -> LifecycleModel {
        LifecycleModel { state: self.state, config: self.config@ }
    }
}

impl SurfaceLifecycle {
    /// A running machine over the configuration the surface was first
    /// configured with.
    pub fn new(config: SurfaceConfig) -> (lifecycle: SurfaceLifecycle)
        ensures
            lifecycle@ == LifecycleModel::started(config@),
    {
        SurfaceLifecycle { state: RunState::Running, config }
    }

    pub fn state(&self) -> (state: RunState)
        ensures
            state == self@.state,
    {
        self.state
    }

    pub fn is_running(&self) -> (running: bool)
        ensures
            running <==> self@.state == RunState::Running,
    {
        match self.state {
            RunState::Running => true,
            RunState::Exiting => false,
        }
    }

    /// The stored configuration, as it has to be pushed to the surface.
    pub fn config(&self) -> (config: SurfaceConfig)
        ensures
            config@ == self@.config,
            config@.well_formed(),
    {
        let config = self.config;
        // Reading the dimensions back is what shows them to be in range.
        let _width: u32 = config.width();
        let _height: u32 = config.height();
        config
    }

    /// Handles one event and answers with the action the host has to carry
    /// out before it hands over the next event.
    pub fn step(&mut self, event: Event) -> (action: Action)
        ensures
            final(self)@ == old(self)@.after(event),
            action == old(self)@.response(event),
    {
        match event {
            Event::CloseRequested => {
                self.state = RunState::Exiting;
                Action::Exit
            },
            Event::Resized { width, height } => {
                self.config.resize(width, height);
                Action::Configure
            },
            Event::ScaleFactorChanged { width, height } => {
                self.config.resize(width, height);
                Action::Configure
            },
            Event::RedrawRequested => {
                if self.is_running() {
                    Action::AcquireFrame
                } else {
                    Action::Idle
                }
            },
            Event::MainEventsCleared => {
                if self.is_running() {
                    Action::RequestRedraw
                } else {
                    Action::Idle
                }
            },
            Event::FrameAcquired(acquisition) => {
                if self.is_running() {
                    match classify(acquisition) {
                        FrameVerdict::Present => Action::RenderAndPresent,
                        FrameVerdict::Reconfigure => Action::Configure,
                        FrameVerdict::Terminate => {
                            self.state = RunState::Exiting;
                            Action::Exit
                        },
                        FrameVerdict::Skip => Action::LogAndSkip,
                    }
                } else {
                    Action::Idle
                }
            },
            Event::Other => Action::Idle,
        }
    }
}

/// Whether an action acquires, renders or schedules a frame.
pub open spec fn drives_frame(action: Action) -> bool {
    action == Action::AcquireFrame || action == Action::RenderAndPresent || action
        == Action::RequestRedraw
}

/// Two machines with the same model are the same value.
pub proof fn lemma_model_determines_lifecycle(a: SurfaceLifecycle, b: SurfaceLifecycle)
    requires
        a@ == b@,
    ensures
        a == b,
{
    lemma_model_determines_config(a.config, b.config);
}

/// Every size change stores the larger of each requested dimension and one,
/// asks for exactly one push of the configuration, and leaves the run state
/// as it was.
pub proof fn lemma_size_change_clamps(model: LifecycleModel, width: u32, height: u32)
    ensures
        model.after(Event::Resized { width, height }).config.width == vstd::math::max(
            width as int,
            1,
        ),
        model.after(Event::Resized { width, height }).config.height == vstd::math::max(
            height as int,
            1,
        ),
        model.after(Event::Resized { width, height }).state == model.state,
        model.response(Event::Resized { width, height }) == Action::Configure,
        model.after(Event::ScaleFactorChanged { width, height }) == model.after(
            Event::Resized { width, height },
        ),
        model.response(Event::ScaleFactorChanged { width, height }) == Action::Configure,
{
}

/// Handling the same size change twice leaves the machine that handling it
/// once leaves, and asks for the same action both times.
pub proof fn lemma_size_change_idempotent(model: LifecycleModel, width: u32, height: u32)
    ensures
        model.after(Event::Resized { width, height }).after(Event::Resized { width, height })
            == model.after(Event::Resized { width, height }),
        model.after(Event::Resized { width, height }).response(Event::Resized { width, height })
            == model.response(Event::Resized { width, height }),
{
    lemma_resize_idempotent(model.config, width, height);
}

/// A well-formed configuration stays well formed whatever event is handled,
/// and only a size change alters it.
pub proof fn lemma_config_preserved(model: LifecycleModel, event: Event)
    requires
        model.config.well_formed(),
    ensures
        model.after(event).config.well_formed(),
        !(event is Resized || event is ScaleFactorChanged) ==> model.after(event).config
            == model.config,
{
}

/// Closing the window leads to `Exiting` from either state and asks the
/// host to stop the loop.
pub proof fn lemma_close_exits(model: LifecycleModel)
    ensures
        model.after(Event::CloseRequested).state == RunState::Exiting,
        model.after(Event::CloseRequested).config == model.config,
        model.response(Event::CloseRequested) == Action::Exit,
{
}

/// `Exiting` is terminal: no event leads out of it, and none makes the host
/// acquire, render or schedule a frame.
pub proof fn lemma_exiting_is_terminal(model: LifecycleModel, event: Event)
    requires
        model.state == RunState::Exiting,
    ensures
        model.after(event).state == RunState::Exiting,
        !drives_frame(model.response(event)),
{
}

/// Once exiting, the machine is still exiting after any sequence of events.
pub proof fn lemma_exiting_persists(model: LifecycleModel, events: Seq<Event>)
    requires
        model.state == RunState::Exiting,
    ensures
        model.after_all(events).state == RunState::Exiting,
    decreases events.len(),
{
    if events.len() > 0 {
        lemma_exiting_persists(model, events.drop_last());
        lemma_exiting_is_terminal(model.after_all(events.drop_last()), events.last());
    }
}

/// Handling a sequence of events is handling its first `cut` events and then
/// the rest.
pub proof fn lemma_after_all_split(model: LifecycleModel, events: Seq<Event>, cut: int)
    requires
        0 <= cut <= events.len(),
    ensures
        model.after_all(events) == model.after_all(events.take(cut)).after_all(
            events.skip(cut),
        ),
    decreases events.len(),
{
    if cut == events.len() {
        assert(events.take(cut) == events);
        assert(events.skip(cut).len() == 0);
    } else {
        lemma_after_all_split(model, events.drop_last(), cut);
        assert(events.drop_last().take(cut) == events.take(cut));
        assert(events.drop_last().skip(cut) == events.skip(cut).drop_last());
        assert(events.skip(cut).last() == events.last());
    }
}

/// Once a close request was handled, no later event makes the host acquire,
/// render or schedule a frame, whatever the events before, between and
/// after are; and the machine is exiting from then on.
pub proof fn lemma_no_frame_after_close(
    model: LifecycleModel,
    events: Seq<Event>,
    closed_at: int,
    later: int,
)
    requires
        0 <= closed_at < later < events.len(),
        events[closed_at] == Event::CloseRequested,
    ensures
        model.after_all(events.take(later)).state == RunState::Exiting,
        !drives_frame(model.response_at(events, later)),
        model.after_all(events).state == RunState::Exiting,
{
    let upto = events.take(closed_at + 1);
    assert(upto.drop_last() == events.take(closed_at));
    assert(upto.last() == Event::CloseRequested);
    let closed = model.after_all(upto);
    assert(closed.state == RunState::Exiting);

    let before = events.take(later);
    lemma_after_all_split(model, before, closed_at + 1);
    assert(before.take(closed_at + 1) == upto);
    lemma_exiting_persists(closed, before.skip(closed_at + 1));
    lemma_exiting_is_terminal(model.after_all(before), events[later]);

    lemma_after_all_split(model, events, closed_at + 1);
    assert(events.take(closed_at + 1) == upto);
    lemma_exiting_persists(closed, events.skip(closed_at + 1));
}

/// A redraw request makes a running machine ask for exactly one
/// acquisition attempt and changes nothing.
pub proof fn lemma_redraw_acquires_once(model: LifecycleModel)
    requires
        model.state == RunState::Running,
    ensures
        model.response(Event::RedrawRequested) == Action::AcquireFrame,
        model.after(Event::RedrawRequested) == model,
{
}

/// An acquired frame is rendered and presented, and changes nothing.
pub proof fn lemma_frame_is_presented(model: LifecycleModel)
    requires
        model.state == RunState::Running,
    ensures
        model.response(Event::FrameAcquired(Acquisition::Frame)) == Action::RenderAndPresent,
        model.after(Event::FrameAcquired(Acquisition::Frame)) == model,
{
}

/// A lost or outdated surface makes a running machine ask for one push of
/// the stored configuration, which is unchanged; the machine keeps running
/// and nothing is rendered for that frame.
pub proof fn lemma_stale_surface_reconfigures(model: LifecycleModel, acquisition: Acquisition)
    requires
        model.state == RunState::Running,
        acquisition == Acquisition::Lost || acquisition == Acquisition::Outdated,
    ensures
        model.response(Event::FrameAcquired(acquisition)) == Action::Configure,
        model.after(Event::FrameAcquired(acquisition)) == model,
{
}

/// Exhausted memory makes a running machine ask for the exit, once, and
/// leave the configuration alone; from then on it is exiting.
pub proof fn lemma_out_of_memory_exits(model: LifecycleModel)
    requires
        model.state == RunState::Running,
    ensures
        model.response(Event::FrameAcquired(Acquisition::OutOfMemory)) == Action::Exit,
        model.after(Event::FrameAcquired(Acquisition::OutOfMemory)) == (LifecycleModel {
            state: RunState::Exiting,
            config: model.config,
        }),
        model.after(Event::FrameAcquired(Acquisition::OutOfMemory)).response(
            Event::FrameAcquired(Acquisition::OutOfMemory),
        ) == Action::Idle,
{
}

/// Any other failed acquisition is logged and costs one frame: the machine
/// is unchanged, keeps running, and answers the next redraw request with a
/// new acquisition attempt.
pub proof fn lemma_transient_failure_skips(model: LifecycleModel, acquisition: Acquisition)
    requires
        model.state == RunState::Running,
        acquisition == Acquisition::Timeout || acquisition == Acquisition::Other,
    ensures
        model.response(Event::FrameAcquired(acquisition)) == Action::LogAndSkip,
        model.after(Event::FrameAcquired(acquisition)) == model,
        model.after(Event::FrameAcquired(acquisition)).response(Event::RedrawRequested)
            == Action::AcquireFrame,
{
}

/// Each frame action has one cause: a frame is acquired only on a redraw
/// request, rendered only when one was acquired, and scheduled only when
/// the pending events were cleared, each only while running. The
/// configuration is pushed only on a size change or, while running, for a
/// lost or outdated surface, and a failure is logged only while running.
pub proof fn lemma_action_causes(model: LifecycleModel, event: Event)
    ensures
        model.response(event) == Action::AcquireFrame <==> model.state == RunState::Running
            && event == Event::RedrawRequested,
        model.response(event) == Action::RenderAndPresent <==> model.state == RunState::Running
            && event == Event::FrameAcquired(Acquisition::Frame),
        model.response(event) == Action::RequestRedraw <==> model.state == RunState::Running
            && event == Event::MainEventsCleared,
        model.response(event) == Action::Configure <==> event is Resized
            || event is ScaleFactorChanged || (model.state == RunState::Running && (event
            == Event::FrameAcquired(Acquisition::Lost) || event == Event::FrameAcquired(
            Acquisition::Outdated,
        ))),
        model.response(event) == Action::LogAndSkip <==> model.state == RunState::Running && (
        event == Event::FrameAcquired(Acquisition::Timeout) || event == Event::FrameAcquired(
            Acquisition::Other,
        )),
{
}

/// Only a close request and exhausted memory end the run: after any other
/// event a running machine is still running.
pub proof fn lemma_only_close_and_memory_exit(model: LifecycleModel, event: Event)
    requires
        model.state == RunState::Running,
    ensures
        model.after(event).state == RunState::Exiting <==> (event == Event::CloseRequested
            || event == Event::FrameAcquired(Acquisition::OutOfMemory)),
        model.response(event) == Action::Exit <==> model.after(event).state
            == RunState::Exiting,
{
}

} // verus!
