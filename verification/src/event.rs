//! The events that flow into the application loop.
//!
//! The types are generic over the values that only the windowing system, the
//! renderer and the error reporting can make: `W` is a window, `H` is the
//! handle to a window together with its renderer, `R` is an error report.
//! The library moves these values along without looking inside them.
use vstd::prelude::*;

verus! {

/// Lifecycle events of the windowing event loop.
#[derive(Clone, Copy, PartialEq, Eq, Structural, Debug)]
pub enum WinitEventLoopEvent {
    Resumed,
    Suspended,
    Exiting,
}

/// A window's scale factor, held as the bit pattern of its IEEE 754 binary64
/// value. The library stores and forwards it and never computes with it.
#[derive(Clone, Copy, PartialEq, Eq, Structural, Debug)]
pub struct ScaleFactor {
    pub bits: u64,
}

/// What the application reads of an event addressed to a window.
#[derive(Clone, Copy, PartialEq, Eq, Structural, Debug)]
pub enum WindowEvent {
    /// The window's inner size changed to `width` by `height` physical pixels.
    Resized { width: u32, height: u32 },
    /// The window's scale factor changed.
    ScaleFactorChanged { scale_factor: ScaleFactor },
    /// The window asks to be redrawn.
    RedrawRequested,
    /// The user asked to close the window.
    CloseRequested,
    /// Any other window event; the application reacts to all of them alike.
    Other,
}

/// Events that originate in the windowing system.
#[derive(Debug, PartialEq, Eq)]
pub enum WindowingEvent<W> {
    /// A lifecycle event of the event loop.
    EventLoop(WinitEventLoopEvent),
    /// An event addressed to the window with the given identifier.
    Window(u64, WindowEvent),
    /// An event of an input device; the application reacts to all of them alike.
    Device,
    /// A window was built on request.
    WindowBuilt(W),
}

/// Everything that arrives at the application loop.
#[derive(Debug, PartialEq, Eq)]
pub enum Event<W, H, R> {
    Windowing(WindowingEvent<W>),
    /// A renderer was launched for a window; here is the handle to both.
    RendererSpawned(H),
    /// Something asked the application to exit.
    ExitRequested,
    /// A failure that the application cannot recover from.
    CriticalFailure(R),
}

/// The lifecycle event `loop_event` as the application receives it.
pub open spec fn lifecycle_event<W, H, R>(loop_event: WinitEventLoopEvent) -> Event<W, H, R> {
    Event::Windowing(WindowingEvent::EventLoop(loop_event))
}

} // verus!
