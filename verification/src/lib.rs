//! Decision logic of a windowed GPU application: the event-driven application
//! state machine, the renderer's state machine, the executor's handling of
//! renderer launches, the event loop's forwarding of callbacks, and surface
//! configuration. Everything that talks to the operating system or the GPU
//! lives outside this library and performs the effects it decides on.
pub mod app;
pub mod event;
pub mod executor;
pub mod flows;
pub mod renderer;
pub mod surface;
pub mod window_handle;
pub mod winit_app;
