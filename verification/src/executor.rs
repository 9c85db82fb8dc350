//! Commands that the application hands to the executor, and what the executor
//! reports back once it has carried out a renderer launch.
use vstd::prelude::*;
use crate::event::Event;
use crate::window_handle::{WindowHandle, WindowHandleView};

verus! {

/// Commands for the windowing event loop, forwarded to it by the executor.
#[derive(Clone, Copy, PartialEq, Eq, Structural, Debug)]
pub enum EventLoopCommand {
    /// Build the main window.
    BuildWindow,
    /// Leave the event loop, which ends the program.
    ExitEventLoop,
}

/// Work that the application hands to the executor.
#[derive(Debug, PartialEq, Eq)]
pub enum Command<W, G> {
    /// Forward this command to the windowing event loop.
    EventLoopCommand(EventLoopCommand),
    /// Launch a renderer for window `W` on GPU context `G`.
    SpawnRenderer(W, G),
}

/// The event that the executor sends back after trying to launch a renderer
/// for `window`: the window paired with the new renderer's handle, or the
/// failure, which the application cannot recover from.
pub fn launch_outcome<W, RH, R>(window: W, launched: Result<RH, R>) -> (event: Event<
    W,
    WindowHandle<W, RH>,
    R,
>)
    ensures
        match launched {
            Ok(renderer) => event matches Event::RendererSpawned(handle) && handle@ == (
            WindowHandleView { window, renderer }),
            Err(report) => event == Event::<W, WindowHandle<W, RH>, R>::CriticalFailure(report),
        },
{
    match launched {
        Ok(renderer) => Event::RendererSpawned(WindowHandle::new(window, renderer)),
        Err(report) => Event::CriticalFailure(report),
    }
}

} // verus!
