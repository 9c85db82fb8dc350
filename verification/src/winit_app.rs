//! What the windowing event loop does with its callbacks: each is forwarded to
//! the application as an event, and each command that reaches the event loop
//! is turned into the action it stands for.
use vstd::prelude::*;
use crate::event::{lifecycle_event, Event, WindowEvent, WindowingEvent, WinitEventLoopEvent};
use crate::executor::EventLoopCommand;

verus! {

/// How an event is to be delivered to the application loop.
#[derive(Clone, Copy, PartialEq, Eq, Structural, Debug)]
pub enum Delivery {
    /// The application loop must still be running: failing to deliver is fatal.
    Required,
    /// The application loop may already have ended: a failed delivery is ignored.
    BestEffort,
}

/// An event to forward to the application, and how.
#[derive(Debug, PartialEq, Eq)]
pub struct Forward<W, H, R> {
    pub event: Event<W, H, R>,
    pub delivery: Delivery,
}

/// The window to build: its title and its inner size in logical pixels.
#[derive(Clone, Copy, PartialEq, Eq, Debug)]
pub struct WindowSpec {
    pub title: &'static str,
    pub logical_width: u32,
    pub logical_height: u32,
}

/// Inner width of the main window, in logical pixels.
pub const MAIN_WINDOW_WIDTH: u32 = 800;

/// Inner height of the main window, in logical pixels.
pub const MAIN_WINDOW_HEIGHT: u32 = 600;

/// What the event loop does for a command.
#[derive(Clone, Copy, PartialEq, Eq, Debug)]
pub enum LoopAction {
    /// Build this window and send it to the application.
    BuildWindow(WindowSpec),
    /// Leave the event loop.
    Exit,
}

/// The event-loop side of the application: the title it gives its window.
#[derive(Clone, Copy, Debug)]
pub struct WinitApp {
    title: &'static str,
}

impl WinitApp {
    /// The event-loop side of an application whose window is titled `title`.
    pub fn new(title: &'static str) -> (app: WinitApp)
        ensures
            app.title() == title,
    {
        WinitApp { title }
    }

    /// The title of the window.
    pub closed spec fn title(self) -> &'static str {
        self.title
    }

    /// The specification of the main window.
    pub fn main_window(&self) -> (spec: WindowSpec)
        ensures
            spec == (WindowSpec {
                title: self.title(),
                logical_width: MAIN_WINDOW_WIDTH,
                logical_height: MAIN_WINDOW_HEIGHT,
            }),
    {
        WindowSpec {
            title: self.title,
            logical_width: MAIN_WINDOW_WIDTH,
            logical_height: MAIN_WINDOW_HEIGHT,
        }
    }

    /// Processes a command sent to the event loop: build the main window, or
    /// leave the loop.
    pub fn run_command(&self, command: EventLoopCommand) -> (action: LoopAction)
        ensures
            match command {
                EventLoopCommand::BuildWindow => action == LoopAction::BuildWindow(
                    WindowSpec {
                        title: self.title(),
                        logical_width: MAIN_WINDOW_WIDTH,
                        logical_height: MAIN_WINDOW_HEIGHT,
                    },
                ),
                EventLoopCommand::ExitEventLoop => action == LoopAction::Exit,
            },
    {
        match command {
            EventLoopCommand::BuildWindow => LoopAction::BuildWindow(self.main_window()),
            EventLoopCommand::ExitEventLoop => LoopAction::Exit,
        }
    }

    /// The event loop resumed.
    pub fn resumed<W, H, R>(&self) -> (forward: Forward<W, H, R>)
        ensures
            forward.event == lifecycle_event::<W, H, R>(WinitEventLoopEvent::Resumed),
            forward.delivery == Delivery::Required,
    {
        Forward {
            event: Event::Windowing(WindowingEvent::EventLoop(WinitEventLoopEvent::Resumed)),
            delivery: Delivery::Required,
        }
    }

    /// The event loop was suspended.
    pub fn suspended<W, H, R>(&self) -> (forward: Forward<W, H, R>)
        ensures
            forward.event == lifecycle_event::<W, H, R>(WinitEventLoopEvent::Suspended),
            forward.delivery == Delivery::Required,
    {
        Forward {
            event: Event::Windowing(WindowingEvent::EventLoop(WinitEventLoopEvent::Suspended)),
            delivery: Delivery::Required,
        }
    }

    /// The event loop is exiting. The application loop may already have
    /// ended, so the event is delivered on a best-effort basis.
    pub fn exiting<W, H, R>(&self) -> (forward: Forward<W, H, R>)
        ensures
            forward.event == lifecycle_event::<W, H, R>(WinitEventLoopEvent::Exiting),
            forward.delivery == Delivery::BestEffort,
    {
        Forward {
            event: Event::Windowing(WindowingEvent::EventLoop(WinitEventLoopEvent::Exiting)),
            delivery: Delivery::BestEffort,
        }
    }

    /// An event for the window with identifier `window_id`.
    pub fn window_event<W, H, R>(&self, window_id: u64, event: WindowEvent) -> (forward: Forward<
        W,
        H,
        R,
    >)
        ensures
            forward.event == Event::<W, H, R>::Windowing(WindowingEvent::Window(window_id, event)),
            forward.delivery == Delivery::Required,
    {
        Forward {
            event: Event::Windowing(WindowingEvent::Window(window_id, event)),
            delivery: Delivery::Required,
        }
    }

    /// An event of an input device.
    pub fn device_event<W, H, R>(&self) -> (forward: Forward<W, H, R>)
        ensures
            forward.event == Event::<W, H, R>::Windowing(WindowingEvent::Device),
            forward.delivery == Delivery::Required,
    {
        Forward { event: Event::Windowing(WindowingEvent::Device), delivery: Delivery::Required }
    }

    /// A window was built for a [`LoopAction::BuildWindow`].
    pub fn window_built<W, H, R>(&self, window: W) -> (forward: Forward<W, H, R>)
        ensures
            forward.event == Event::<W, H, R>::Windowing(WindowingEvent::WindowBuilt(window)),
            forward.delivery == Delivery::Required,
    {
        Forward {
            event: Event::Windowing(WindowingEvent::WindowBuilt(window)),
            delivery: Delivery::Required,
        }
    }
}

} // verus!
