//! The application: the decision-maker and state-holder.
//!
//! All events come into the application. In response to an event it may
//! change its state, hand a command to the executor, or address its window:
//! ask for a redraw, or send its renderer a frame, a resize or a scale factor.
//! [`AppState::handle_event`] makes that decision for one event and says
//! whether the application loop goes on; the loop that receives events and
//! carries out the effects runs outside this library.
//!
//! Starting the main window: the event loop resumes, and the application
//! asks for the main window to be built; the built window comes back, and the
//! application asks for a renderer to be launched for it on its GPU context;
//! the executor launches it and sends back the handle, which the application
//! keeps and asks to redraw.
use vstd::prelude::*;
use crate::event::{
    lifecycle_event, Event, ScaleFactor, WindowEvent, WindowingEvent, WinitEventLoopEvent,
};
use crate::executor::{Command, EventLoopCommand};
use crate::renderer::{FrameInput, RendererCommand};

verus! {

/// Something the application loop has to carry out.
#[derive(Debug, PartialEq, Eq)]
pub enum Effect<W, G> {
    /// Hand this command to the executor.
    Command(Command<W, G>),
    /// Ask the current window to redraw.
    RequestRedraw,
    /// Send this command to the renderer of the current window.
    Renderer(RendererCommand),
    /// Report that an event needed a window and there was none.
    Warn(Warning),
}

/// What the application reports when an event needs a window and there is none.
#[derive(Clone, Copy, PartialEq, Eq, Structural, Debug)]
pub enum Warning {
    /// A frame was to be initiated.
    FrameWithoutWindow,
    /// A resize was to be passed on.
    ResizeWithoutWindow,
    /// A scale factor change was to be passed on.
    ScaleFactorChangeWithoutWindow,
}

/// An [`Effect`] with the GPU context of a renderer launch left out.
pub enum Plan<W> {
    BuildWindow,
    ExitEventLoop,
    SpawnRenderer(W),
    RequestRedraw,
    Renderer(RendererCommand),
    Warn(Warning),
}

impl<W, G> Effect<W, G> {
    /// This effect with the GPU context of a renderer launch left out.
    pub open spec fn plan(self) -> Plan<W> {
        match self {
            Effect::Command(Command::EventLoopCommand(EventLoopCommand::BuildWindow)) => Plan::BuildWindow,
            Effect::Command(Command::EventLoopCommand(EventLoopCommand::ExitEventLoop)) => Plan::ExitEventLoop,
            Effect::Command(Command::SpawnRenderer(w, _)) => Plan::SpawnRenderer(w),
            Effect::RequestRedraw => Plan::RequestRedraw,
            Effect::Renderer(c) => Plan::Renderer(c),
            Effect::Warn(w) => Plan::Warn(w),
        }
    }
}

/// The plans of a sequence of effects, in order.
pub open spec fn plans_of<W, G>(effects: Seq<Effect<W, G>>) -> Seq<Plan<W>> {
    effects.map_values(|e: Effect<W, G>| e.plan())
}

/// Whether an effect that launches a renderer hands it a clone of `gpu`.
pub open spec fn hands_over_gpu<W, G: Clone>(gpu: G, effect: Effect<W, G>) -> bool {
    effect matches Effect::Command(Command::SpawnRenderer(_, g)) ==> cloned(gpu, g)
}

/// Whether the application loop goes on after an event.
#[derive(Debug, PartialEq, Eq)]
pub enum Flow<R> {
    /// Wait for the next event.
    Continue,
    /// Leave the loop with this outcome.
    Exit(Result<(), R>),
}

/// The application's reaction to one event: effects, in the order in which
/// they are carried out, and whether the loop goes on.
#[derive(Debug, PartialEq, Eq)]
pub struct Reaction<W, G, R> {
    pub effects: Vec<Effect<W, G>>,
    pub flow: Flow<R>,
}

/// Abstract state of the application.
pub struct AppStateView<G, H> {
    pub gpu: G,
    pub window: Option<H>,
}

/// The application's state: its GPU context `G` and, while it has one, the
/// handle `H` of its window.
#[derive(Debug)]
pub struct AppState<G, H> {
    gpu: G,
    window: Option<H>,
}

impl<G, H> View for AppState<G, H> {
    type V = AppStateView<G, H>;

    closed spec fn view(&self) -> AppStateView<G, H> {
        AppStateView { gpu: self.gpu, window: self.window }
    }
}

/// The outcome of one event in the abstract: the window handle afterwards,
/// the plans of the effects, and whether the loop goes on.
pub struct AppStep<W, H, R> {
    pub window: Option<H>,
    pub plans: Seq<Plan<W>>,
    pub flow: Flow<R>,
}

/// What the application does with `event` when it holds `window`.
pub open spec fn app_step<W, H, R>(window: Option<H>, event: Event<W, H, R>) -> AppStep<W, H, R> {
    let unchanged = |plans: Seq<Plan<W>>| AppStep { window, plans, flow: Flow::Continue };
    let to_window = |plans: Seq<Plan<W>>|
        if window is Some { unchanged(plans) } else { unchanged(Seq::empty()) };
    let to_window_or_warn = |plans: Seq<Plan<W>>, warning: Warning|
        if window is Some { unchanged(plans) } else { unchanged(seq![Plan::Warn(warning)]) };
    let shut_down = |outcome: Result<(), R>|
        AppStep { window: None, plans: seq![Plan::ExitEventLoop], flow: Flow::Exit(outcome) };
    match event {
        Event::Windowing(WindowingEvent::EventLoop(WinitEventLoopEvent::Resumed)) =>
            unchanged(seq![Plan::BuildWindow]),
        Event::Windowing(WindowingEvent::EventLoop(WinitEventLoopEvent::Suspended)) =>
            AppStep { window: None, plans: Seq::empty(), flow: Flow::Continue },
        Event::Windowing(WindowingEvent::EventLoop(WinitEventLoopEvent::Exiting)) =>
            AppStep { window, plans: Seq::empty(), flow: Flow::Exit(Ok(())) },
        Event::Windowing(WindowingEvent::Window(_, WindowEvent::Resized { width, height })) =>
            to_window_or_warn(
                seq![Plan::Renderer(RendererCommand::Resized(width, height)), Plan::RequestRedraw],
                Warning::ResizeWithoutWindow,
            ),
        Event::Windowing(WindowingEvent::Window(_, WindowEvent::ScaleFactorChanged { scale_factor })) =>
            to_window_or_warn(
                seq![Plan::Renderer(RendererCommand::ChangedScaleFactor(scale_factor)), Plan::RequestRedraw],
                Warning::ScaleFactorChangeWithoutWindow,
            ),
        Event::Windowing(WindowingEvent::Window(_, WindowEvent::RedrawRequested)) =>
            to_window_or_warn(
                seq![Plan::Renderer(RendererCommand::FrameInput(FrameInput {}))],
                Warning::FrameWithoutWindow,
            ),
        Event::Windowing(WindowingEvent::Window(_, WindowEvent::CloseRequested)) =>
            shut_down(Ok(())),
        Event::Windowing(WindowingEvent::Window(_, WindowEvent::Other)) =>
            to_window(seq![Plan::RequestRedraw]),
        Event::Windowing(WindowingEvent::Device) =>
            to_window(seq![Plan::RequestRedraw]),
        Event::Windowing(WindowingEvent::WindowBuilt(w)) =>
            unchanged(seq![Plan::SpawnRenderer(w)]),
        Event::RendererSpawned(h) =>
            AppStep { window: Some(h), plans: seq![Plan::RequestRedraw], flow: Flow::Continue },
        Event::ExitRequested => shut_down(Ok(())),
        Event::CriticalFailure(report) => shut_down(Err(report)),
    }
}

impl<G, H> AppState<G, H> {
    /// A new application state on the given GPU context, without a window.
    pub fn new(gpu: G) -> (state: AppState<G, H>)
        ensures
            state@ == (AppStateView::<G, H> { gpu, window: None }),
    {
        AppState { gpu, window: None }
    }

    /// The GPU context.
    pub fn gpu(&self) -> (gpu: &G)
        ensures
            *gpu == self@.gpu,
    {
        &self.gpu
    }

    /// The handle of the current window, if there is one.
    pub fn get_window_handle(&self) -> (handle: Option<&H>)
        ensures
            match handle {
                Some(h) => self@.window == Some(*h),
                None => self@.window is None,
            },
    {
        self.window.as_ref()
    }

    /// Keeps the handle of a window whose renderer was launched, and asks it
    /// to redraw.
    fn accept_window_handle<W>(&mut self, window_handle: H, effects: &mut Vec<Effect<W, G>>)
        ensures
            final(self)@ == (AppStateView { window: Some(window_handle), ..old(self)@ }),
            final(effects)@ == old(effects)@.push(Effect::RequestRedraw),
    {
        effects.push(Effect::RequestRedraw);
        self.window = Some(window_handle);
    }

    /// Lets go of the current window, if any.
    fn drop_window(&mut self)
        ensures
            final(self)@ == (AppStateView::<G, H> { window: None, ..old(self)@ }),
    {
        self.window = None;
    }

    /// Lets go of the window and asks the event loop to exit.
    fn shut_down_app<W>(&mut self, effects: &mut Vec<Effect<W, G>>)
        ensures
            final(self)@ == (AppStateView::<G, H> { window: None, ..old(self)@ }),
            final(effects)@ == old(effects)@.push(
                Effect::Command(Command::EventLoopCommand(EventLoopCommand::ExitEventLoop)),
            ),
    {
        self.drop_window();
        effects.push(Effect::Command(Command::EventLoopCommand(EventLoopCommand::ExitEventLoop)));
    }

    /// Sends a frame to the window's renderer; without a window, warns.
    fn initiate_frame<W>(&self, effects: &mut Vec<Effect<W, G>>)
        ensures
            final(effects)@ == if self@.window is Some {
                old(effects)@.push(Effect::Renderer(RendererCommand::FrameInput(FrameInput {})))
            } else {
                old(effects)@.push(Effect::Warn(Warning::FrameWithoutWindow))
            },
    {
        let frame_input = FrameInput {};
        match self.get_window_handle() {
            Some(_) => effects.push(Effect::Renderer(RendererCommand::FrameInput(frame_input))),
            None => effects.push(Effect::Warn(Warning::FrameWithoutWindow)),
        }
    }

    /// Sends a new size to the window's renderer and asks the window to
    /// redraw; without a window, warns.
    fn affect_resize<W>(&self, width: u32, height: u32, effects: &mut Vec<Effect<W, G>>)
        ensures
            final(effects)@ == if self@.window is Some {
                old(effects)@.push(Effect::Renderer(RendererCommand::Resized(width, height))).push(
                    Effect::RequestRedraw,
                )
            } else {
                old(effects)@.push(Effect::Warn(Warning::ResizeWithoutWindow))
            },
    {
        match self.get_window_handle() {
            Some(_) => {
                effects.push(Effect::Renderer(RendererCommand::Resized(width, height)));
                effects.push(Effect::RequestRedraw);
            },
            None => effects.push(Effect::Warn(Warning::ResizeWithoutWindow)),
        }
    }

    /// Sends a new scale factor to the window's renderer and asks the window
    /// to redraw; without a window, warns.
    fn affect_scale_factor_change<W>(
        &self,
        new_scale_factor: ScaleFactor,
        effects: &mut Vec<Effect<W, G>>,
    )
        ensures
            final(effects)@ == if self@.window is Some {
                old(effects)@.push(
                    Effect::Renderer(RendererCommand::ChangedScaleFactor(new_scale_factor)),
                ).push(Effect::RequestRedraw)
            } else {
                old(effects)@.push(Effect::Warn(Warning::ScaleFactorChangeWithoutWindow))
            },
    {
        match self.get_window_handle() {
            Some(_) => {
                effects.push(Effect::Renderer(RendererCommand::ChangedScaleFactor(new_scale_factor)));
                effects.push(Effect::RequestRedraw);
            },
            None => effects.push(Effect::Warn(Warning::ScaleFactorChangeWithoutWindow)),
        }
    }

    /// Asks the window to redraw; without a window, nothing.
    fn redraw_if_present<W>(&self, effects: &mut Vec<Effect<W, G>>)
        ensures
            final(effects)@ == if self@.window is Some {
                old(effects)@.push(Effect::RequestRedraw)
            } else {
                old(effects)@
            },
    {
        if let Some(_) = self.get_window_handle() {
            effects.push(Effect::RequestRedraw);
        }
    }

    /// Decides what to do with one event: the new state, the effects to carry
    /// out in order, and whether the application loop goes on.
    pub fn handle_event<W, R>(&mut self, event: Event<W, H, R>) -> (reaction: Reaction<W, G, R>)
        where
            G: Clone,
        ensures
            final(self)@.gpu == old(self)@.gpu,
            final(self)@.window == app_step(old(self)@.window, event).window,
            reaction.effects@.len() == app_step(old(self)@.window, event).plans.len(),
            forall|i: int|
                0 <= i < reaction.effects@.len() ==> #[trigger] reaction.effects@[i].plan()
                    == app_step(old(self)@.window, event).plans[i],
            forall|i: int|
                0 <= i < reaction.effects@.len() ==> hands_over_gpu(
                    old(self)@.gpu,
                    #[trigger] reaction.effects@[i],
                ),
            reaction.flow == app_step(old(self)@.window, event).flow,
    {
        let ghost step = app_step(self@.window, event);
        let mut effects: Vec<Effect<W, G>> = Vec::new();
        let flow = match event {
            Event::Windowing(windowing) => match windowing {
                WindowingEvent::EventLoop(loop_event) => match loop_event {
                    WinitEventLoopEvent::Resumed => {
                        effects.push(
                            Effect::Command(Command::EventLoopCommand(EventLoopCommand::BuildWindow)),
                        );
                        Flow::Continue
                    },
                    WinitEventLoopEvent::Suspended => {
                        self.drop_window();
                        Flow::Continue
                    },
                    WinitEventLoopEvent::Exiting => Flow::Exit(Ok(())),
                },
                WindowingEvent::Window(_, window_event) => match window_event {
                    WindowEvent::Resized { width, height } => {
                        self.affect_resize(width, height, &mut effects);
                        Flow::Continue
                    },
                    WindowEvent::ScaleFactorChanged { scale_factor } => {
                        self.affect_scale_factor_change(scale_factor, &mut effects);
                        Flow::Continue
                    },
                    WindowEvent::RedrawRequested => {
                        self.initiate_frame(&mut effects);
                        Flow::Continue
                    },
                    WindowEvent::CloseRequested => {
                        self.shut_down_app(&mut effects);
                        Flow::Exit(Ok(()))
                    },
                    WindowEvent::Other => {
                        self.redraw_if_present(&mut effects);
                        Flow::Continue
                    },
                },
                WindowingEvent::Device => {
                    self.redraw_if_present(&mut effects);
                    Flow::Continue
                },
                WindowingEvent::WindowBuilt(window) => {
                    let gpu = self.gpu.clone();
                    effects.push(Effect::Command(Command::SpawnRenderer(window, gpu)));
                    Flow::Continue
                },
            },
            Event::RendererSpawned(window_handle) => {
                self.accept_window_handle(window_handle, &mut effects);
                Flow::Continue
            },
            Event::ExitRequested => {
                self.shut_down_app(&mut effects);
                Flow::Exit(Ok(()))
            },
            Event::CriticalFailure(report) => {
                self.shut_down_app(&mut effects);
                Flow::Exit(Err(report))
            },
        };
        assert(plans_of(effects@) =~= step.plans);
        assert forall|i: int| 0 <= i < effects@.len() implies #[trigger] effects@[i].plan() == step.plans[i] by {
            assert(plans_of(effects@)[i] == effects@[i].plan());
        }
        Reaction { effects, flow }
    }
}

} // verus!

verus! {

/// Whether `event` ends the application: the window is closed, an exit is
/// requested, or a critical failure is reported.
pub open spec fn is_shutdown_event<W, H, R>(event: Event<W, H, R>) -> bool {
    ||| event matches Event::Windowing(WindowingEvent::Window(_, WindowEvent::CloseRequested))
    ||| event is ExitRequested
    ||| event is CriticalFailure
}

/// Whether a plan is addressed to the current window or its renderer.
pub open spec fn addresses_window<W>(plan: Plan<W>) -> bool {
    plan is RequestRedraw || plan is Renderer
}

/// Every effect addressed to the window finds a window: whenever the
/// application asks for a redraw or sends its renderer a command, it holds a
/// window handle after the event.
pub proof fn window_effects_have_a_window<W, H, R>(window: Option<H>, event: Event<W, H, R>)
    ensures
        forall|i: int|
            0 <= i < app_step(window, event).plans.len() && addresses_window(
                #[trigger] app_step(window, event).plans[i],
            ) ==> app_step(window, event).window is Some,
{
}

/// The warning that `event` calls for when it arrives without a window: a
/// redraw request, a resize or a scale factor change needs one.
pub open spec fn missing_window_warning<W, H, R>(event: Event<W, H, R>) -> Option<Warning> {
    match event {
        Event::Windowing(WindowingEvent::Window(_, WindowEvent::RedrawRequested)) => Some(
            Warning::FrameWithoutWindow,
        ),
        Event::Windowing(WindowingEvent::Window(_, WindowEvent::Resized { .. })) => Some(
            Warning::ResizeWithoutWindow,
        ),
        Event::Windowing(WindowingEvent::Window(_, WindowEvent::ScaleFactorChanged { .. })) => Some(
            Warning::ScaleFactorChangeWithoutWindow,
        ),
        _ => None,
    }
}

/// Without a window, events addressed to a window or coming from an input
/// device leave the state as it is and the loop going, apart from a request
/// to close the window. Their only effect is a warning for a redraw request,
/// a resize or a scale factor change; other such events have no effect.
pub proof fn windowless_events_are_ignored<W, H, R>(event: Event<W, H, R>)
    requires
        event matches Event::Windowing(WindowingEvent::Window(_, e)) && !(e is CloseRequested)
            || event matches Event::Windowing(WindowingEvent::Device),
    ensures
        app_step(None::<H>, event).window is None,
        app_step(None::<H>, event).plans == match missing_window_warning(event) {
            Some(warning) => seq![Plan::<W>::Warn(warning)],
            None => Seq::<Plan<W>>::empty(),
        },
        app_step(None::<H>, event).flow is Continue,
{
}

/// A warning is reported exactly when an event that needs a window arrives
/// without one; with a window, no event is reported.
pub proof fn warnings_report_missing_windows<W, H, R>(window: Option<H>, event: Event<W, H, R>)
    ensures
        app_step(window, event).plans.contains(Plan::Warn(Warning::FrameWithoutWindow))
            <==> (window is None && missing_window_warning(event) == Some(Warning::FrameWithoutWindow)),
        app_step(window, event).plans.contains(Plan::Warn(Warning::ResizeWithoutWindow))
            <==> (window is None && missing_window_warning(event) == Some(Warning::ResizeWithoutWindow)),
        app_step(window, event).plans.contains(Plan::Warn(Warning::ScaleFactorChangeWithoutWindow))
            <==> (window is None && missing_window_warning(event) == Some(
            Warning::ScaleFactorChangeWithoutWindow,
        )),
{
    let step = app_step(window, event);
    if window is None && missing_window_warning(event) is Some {
        assert(step.plans[0] == Plan::<W>::Warn(missing_window_warning(event)->0));
    }
}

/// Shutting down: a close request, an exit request or a critical failure
/// lets go of the window, asks the event loop to exit and nothing else, and
/// ends the application loop; the loop ends in failure exactly for a critical
/// failure, with its report.
pub proof fn shutdown_releases_window_and_exits<W, H, R>(window: Option<H>, event: Event<W, H, R>)
    requires
        is_shutdown_event(event),
    ensures
        app_step(window, event).window is None,
        app_step(window, event).plans == seq![Plan::<W>::ExitEventLoop],
        app_step(window, event).flow == match event {
            Event::CriticalFailure(report) => Flow::Exit(Err(report)),
            _ => Flow::<R>::Exit(Ok(())),
        },
{
}

/// The application loop ends after an event exactly when the event loop is
/// exiting or the event is a shutdown event; it ends in failure only for a
/// critical failure.
pub proof fn loop_ends_only_on_exit_or_shutdown<W, H, R>(window: Option<H>, event: Event<W, H, R>)
    ensures
        app_step(window, event).flow is Exit <==> (is_shutdown_event(event) || event
            == lifecycle_event::<W, H, R>(WinitEventLoopEvent::Exiting)),
        app_step(window, event).flow matches Flow::Exit(Err(_)) ==> event is CriticalFailure,
{
}


/// The window handle changes only when the event loop is suspended (it is
/// dropped), when a renderer was spawned (its handle is kept), or on shutdown
/// (it is dropped).
pub proof fn window_changes_only_on_lifecycle<W, H, R>(window: Option<H>, event: Event<W, H, R>)
    ensures
        app_step(window, event).window != window ==> (event == lifecycle_event::<W, H, R>(
            WinitEventLoopEvent::Suspended,
        ) || event is RendererSpawned || is_shutdown_event(event)),
        event matches Event::RendererSpawned(h) ==> app_step(window, event).window == Some(h),
{
}

/// The event loop is asked to exit exactly on shutdown events, and to build
/// a window exactly when it has resumed.
pub proof fn event_loop_commands_follow_their_events<W, H, R>(window: Option<H>, event: Event<W, H, R>)
    ensures
        app_step(window, event).plans.contains(Plan::ExitEventLoop) <==> is_shutdown_event(event),
        app_step(window, event).plans.contains(Plan::BuildWindow) <==> event == lifecycle_event::<
            W,
            H,
            R,
        >(WinitEventLoopEvent::Resumed),
{
    let step = app_step(window, event);
    if is_shutdown_event(event) {
        assert(step.plans[0] == Plan::<W>::ExitEventLoop);
    }
    if event == lifecycle_event::<W, H, R>(WinitEventLoopEvent::Resumed) {
        assert(step.plans[0] == Plan::<W>::BuildWindow);
    }
}

} // verus!

verus! {

/// Whether `event` ends the application loop.
pub open spec fn ends_loop<W, H, R>(event: Event<W, H, R>) -> bool {
    is_shutdown_event(event) || event == lifecycle_event::<W, H, R>(WinitEventLoopEvent::Exiting)
}

/// What the application loop does with `events`, received in this order,
/// from `window`: each event is handled with the window that the one before
/// left, the effects of all of them are carried out in order, and the loop
/// ends at the first event that ends it, handling none after it.
pub open spec fn app_run<W, H, R>(window: Option<H>, events: Seq<Event<W, H, R>>) -> AppStep<W, H, R>
    decreases events.len(),
{
    if events.len() == 0 {
        AppStep { window, plans: Seq::empty(), flow: Flow::Continue }
    } else {
        let first = app_step(window, events[0]);
        if first.flow is Exit {
            first
        } else {
            let rest = app_run(first.window, events.drop_first());
            AppStep { window: rest.window, plans: first.plans + rest.plans, flow: rest.flow }
        }
    }
}

/// A run of events none of which ends the loop leaves the loop going.
pub proof fn run_without_ending_events_goes_on<W, H, R>(window: Option<H>, events: Seq<Event<W, H, R>>)
    requires
        forall|i: int| 0 <= i < events.len() ==> !ends_loop(#[trigger] events[i]),
    ensures
        app_run(window, events).flow is Continue,
    decreases events.len(),
{
    if events.len() > 0 {
        loop_ends_only_on_exit_or_shutdown(window, events[0]);
        let next = app_step(window, events[0]).window;
        assert forall|i: int| 0 <= i < events.drop_first().len() implies !ends_loop(
            #[trigger] events.drop_first()[i],
        ) by {
            assert(events.drop_first()[i] == events[i + 1]);
        }
        run_without_ending_events_goes_on(next, events.drop_first());
    }
}

/// Events are handled one after another: after events `first` none of which
/// ends the loop, the loop handles `then` from the window `first` left; the
/// effects are those of `first` followed by those of `then`, and the loop
/// ends as it ends for `then`.
pub proof fn run_is_sequential<W, H, R>(
    window: Option<H>,
    first: Seq<Event<W, H, R>>,
    then: Seq<Event<W, H, R>>,
)
    requires
        forall|i: int| 0 <= i < first.len() ==> !ends_loop(#[trigger] first[i]),
    ensures
        app_run(window, first + then) == (AppStep {
            window: app_run(app_run(window, first).window, then).window,
            plans: app_run(window, first).plans + app_run(app_run(window, first).window, then).plans,
            flow: app_run(app_run(window, first).window, then).flow,
        }),
    decreases first.len(),
{
    if first.len() == 0 {
        assert(first + then =~= then);
        assert(Seq::<Plan<W>>::empty() + app_run(window, then).plans =~= app_run(window, then).plans);
    } else {
        let step = app_step(window, first[0]);
        loop_ends_only_on_exit_or_shutdown(window, first[0]);
        assert((first + then)[0] == first[0]);
        assert((first + then).drop_first() =~= first.drop_first() + then);
        assert forall|i: int| 0 <= i < first.drop_first().len() implies !ends_loop(
            #[trigger] first.drop_first()[i],
        ) by {
            assert(first.drop_first()[i] == first[i + 1]);
        }
        run_is_sequential(step.window, first.drop_first(), then);
        let mid = app_run(step.window, first.drop_first());
        let last = app_run(mid.window, then);
        assert(step.plans + (mid.plans + last.plans) =~= (step.plans + mid.plans) + last.plans);
    }
}

/// The loop ends at the first event that ends it: after events `first` none
/// of which ends the loop, an ending event `last` ends it with that event's
/// outcome and effects, and no later event is handled.
pub proof fn run_ends_at_first_ending_event<W, H, R>(
    window: Option<H>,
    first: Seq<Event<W, H, R>>,
    last: Event<W, H, R>,
    later: Seq<Event<W, H, R>>,
)
    requires
        forall|i: int| 0 <= i < first.len() ==> !ends_loop(#[trigger] first[i]),
        ends_loop(last),
    ensures
        app_run(window, first + seq![last] + later) == (AppStep {
            window: app_step(app_run(window, first).window, last).window,
            plans: app_run(window, first).plans + app_step(app_run(window, first).window, last).plans,
            flow: app_step(app_run(window, first).window, last).flow,
        }),
        app_step(app_run(window, first).window, last).flow is Exit,
{
    let tail = seq![last] + later;
    assert(first + seq![last] + later =~= first + tail);
    run_is_sequential(window, first, tail);
    let mid = app_run(window, first).window;
    loop_ends_only_on_exit_or_shutdown(mid, last);
    assert(tail[0] == last);
}

} // verus!

verus! {

/// A cycle of the application loop that takes longer than this many
/// nanoseconds (20 microseconds) is reported as slow.
pub const SLOW_CYCLE_NANOS: u128 = 20_000;

/// Whether a cycle of the application loop that took `elapsed_nanos`
/// nanoseconds, from receiving an event to having carried out its effects,
/// is slow and to be reported.
pub fn is_slow_cycle(elapsed_nanos: u128) -> (slow: bool)
    ensures
        slow == (elapsed_nanos > SLOW_CYCLE_NANOS),
{
    elapsed_nanos > SLOW_CYCLE_NANOS
}

} // verus!

verus! {

/// The identifier of the window that an event is addressed to does not
/// change what the application does with it: two events that differ only in
/// their window identifier get the same reaction.
pub proof fn window_id_does_not_matter<W, H, R>(
    window: Option<H>,
    first_id: u64,
    second_id: u64,
    window_event: WindowEvent,
)
    ensures
        app_step(window, Event::<W, H, R>::Windowing(WindowingEvent::Window(first_id, window_event)))
            == app_step(
            window,
            Event::<W, H, R>::Windowing(WindowingEvent::Window(second_id, window_event)),
        ),
{
}

/// With a window, every window event whatever its window identifier gets
/// this reaction: a resize goes to the renderer, unchanged, and is followed
/// by a redraw request; so is a scale factor change; a redraw request sends
/// the renderer one frame input; a close request drops the window, asks the
/// event loop to exit and ends the loop; any other window event asks for
/// exactly one redraw. Apart from the close request, the window is kept and
/// the loop goes on.
pub proof fn window_events_with_a_window<W, H, R>(handle: H, window_id: u64, window_event: WindowEvent)
    ensures
        ({
            let step = app_step(
                Some(handle),
                Event::<W, H, R>::Windowing(WindowingEvent::Window(window_id, window_event)),
            );
            &&& step.plans == match window_event {
                WindowEvent::Resized { width, height } => seq![
                    Plan::<W>::Renderer(RendererCommand::Resized(width, height)),
                    Plan::RequestRedraw,
                ],
                WindowEvent::ScaleFactorChanged { scale_factor } => seq![
                    Plan::<W>::Renderer(RendererCommand::ChangedScaleFactor(scale_factor)),
                    Plan::RequestRedraw,
                ],
                WindowEvent::RedrawRequested => seq![
                    Plan::<W>::Renderer(RendererCommand::FrameInput(FrameInput {})),
                ],
                WindowEvent::CloseRequested => seq![Plan::<W>::ExitEventLoop],
                WindowEvent::Other => seq![Plan::<W>::RequestRedraw],
            }
            &&& step.window == if window_event is CloseRequested {
                None
            } else {
                Some(handle)
            }
            &&& step.flow == if window_event is CloseRequested {
                Flow::<R>::Exit(Ok(()))
            } else {
                Flow::<R>::Continue
            }
        }),
{
}

/// With a window, an input device event asks for exactly one redraw, keeps
/// the window and lets the loop go on.
pub proof fn device_events_with_a_window<W, H, R>(handle: H)
    ensures
        app_step(Some(handle), Event::<W, H, R>::Windowing(WindowingEvent::Device)).plans == seq![
            Plan::<W>::RequestRedraw,
        ],
        app_step(Some(handle), Event::<W, H, R>::Windowing(WindowingEvent::Device)).window == Some(
            handle,
        ),
        app_step(Some(handle), Event::<W, H, R>::Windowing(WindowingEvent::Device)).flow
            == Flow::<R>::Continue,
{
}

/// The event loop's lifecycle, whatever the window: on resuming, the
/// application asks for the main window to be built and keeps its state; on
/// suspending, it lets go of its window and does nothing else; on exiting, it
/// does nothing and ends its loop successfully.
pub proof fn lifecycle_events<W, H, R>(window: Option<H>)
    ensures
        app_step(window, lifecycle_event::<W, H, R>(WinitEventLoopEvent::Resumed)) == (AppStep {
            window,
            plans: seq![Plan::<W>::BuildWindow],
            flow: Flow::<R>::Continue,
        }),
        app_step(window, lifecycle_event::<W, H, R>(WinitEventLoopEvent::Suspended)) == (AppStep {
            window: None::<H>,
            plans: Seq::<Plan<W>>::empty(),
            flow: Flow::<R>::Continue,
        }),
        app_step(window, lifecycle_event::<W, H, R>(WinitEventLoopEvent::Exiting)) == (AppStep {
            window,
            plans: Seq::<Plan<W>>::empty(),
            flow: Flow::<R>::Exit(Ok(())),
        }),
{
}

/// A built window, whatever the state, is handed on for a renderer to be
/// launched for it, and nothing else changes; a spawned renderer's handle
/// replaces any window the application held, and the new window is asked
/// to redraw.
pub proof fn window_building_events<W, H, R>(window: Option<H>, built: W, handle: H)
    ensures
        app_step(window, Event::<W, H, R>::Windowing(WindowingEvent::WindowBuilt(built))) == (
        AppStep { window, plans: seq![Plan::SpawnRenderer(built)], flow: Flow::<R>::Continue }),
        app_step(window, Event::<W, H, R>::RendererSpawned(handle)) == (AppStep {
            window: Some(handle),
            plans: seq![Plan::<W>::RequestRedraw],
            flow: Flow::<R>::Continue,
        }),
{
}

} // verus!

verus! {

/// Without a window, every window event whatever its window identifier gets
/// this reaction: a resize, a scale factor change and a redraw request are
/// each reported with their own warning and reach no renderer; a close
/// request still asks the event loop to exit and ends the loop; any other
/// window event, like an input device event, has no effect. No window
/// appears, and the loop goes on unless the window was to be closed.
pub proof fn window_events_without_a_window<W, H, R>(window_id: u64, window_event: WindowEvent)
    ensures
        ({
            let step = app_step(
                None::<H>,
                Event::<W, H, R>::Windowing(WindowingEvent::Window(window_id, window_event)),
            );
            &&& step.plans == match window_event {
                WindowEvent::Resized { .. } => seq![Plan::<W>::Warn(Warning::ResizeWithoutWindow)],
                WindowEvent::ScaleFactorChanged { .. } => seq![
                    Plan::<W>::Warn(Warning::ScaleFactorChangeWithoutWindow),
                ],
                WindowEvent::RedrawRequested => seq![Plan::<W>::Warn(Warning::FrameWithoutWindow)],
                WindowEvent::CloseRequested => seq![Plan::<W>::ExitEventLoop],
                WindowEvent::Other => Seq::<Plan<W>>::empty(),
            }
            &&& step.window is None
            &&& step.flow == if window_event is CloseRequested {
                Flow::<R>::Exit(Ok(()))
            } else {
                Flow::<R>::Continue
            }
        }),
        app_step(None::<H>, Event::<W, H, R>::Windowing(WindowingEvent::Device)) == (AppStep {
            window: None::<H>,
            plans: Seq::<Plan<W>>::empty(),
            flow: Flow::<R>::Continue,
        }),
{
}

} // verus!

verus! {

/// A plan names its effect exactly: each plan comes from the one effect it
/// names, and from a renderer launch only the GPU context is left out.
pub proof fn plans_name_their_effects<W, G>(effect: Effect<W, G>)
    ensures
        effect.plan() == Plan::<W>::RequestRedraw <==> effect == Effect::<W, G>::RequestRedraw,
        effect.plan() == Plan::<W>::BuildWindow <==> effect == Effect::<W, G>::Command(
            Command::EventLoopCommand(EventLoopCommand::BuildWindow),
        ),
        effect.plan() == Plan::<W>::ExitEventLoop <==> effect == Effect::<W, G>::Command(
            Command::EventLoopCommand(EventLoopCommand::ExitEventLoop),
        ),
        forall|c: RendererCommand|
            effect.plan() == Plan::<W>::Renderer(c) <==> effect == Effect::<W, G>::Renderer(c),
        forall|w: Warning| effect.plan() == Plan::<W>::Warn(w) <==> effect == Effect::<W, G>::Warn(w),
        forall|win: W|
            effect.plan() == Plan::SpawnRenderer(win) <==> (effect matches Effect::Command(
                Command::SpawnRenderer(x, _),
            ) && x == win),
{
}

} // verus!
