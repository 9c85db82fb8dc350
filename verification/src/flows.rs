//! Properties of the flows that span the application, the executor, the
//! event loop and the renderer.
use vstd::prelude::*;
use crate::app::{app_step, Flow, Plan};
use crate::event::{lifecycle_event, Event, ScaleFactor, WindowEvent, WindowingEvent, WinitEventLoopEvent};
use crate::renderer::{
    frame_for, renderer_next, FrameInput, FullFrameInput, RendererCommand, RendererStateView,
};
use crate::surface::surface_extent;
use crate::window_handle::{WindowHandle, WindowHandleView};

verus! {

/// Starting the main window: when the event loop resumes, the application
/// asks for the main window to be built; when the window comes back, it asks
/// for a renderer to be launched for that window; when the executor reports
/// the renderer (paired with the window, as `launch_outcome` pairs them), the
/// application keeps the handle and asks the window to redraw. The loop goes
/// on throughout.
pub proof fn main_window_start_up<W, RH, R>(
    window: Option<WindowHandle<W, RH>>,
    built: W,
    handle: WindowHandle<W, RH>,
    renderer: RH,
)
    requires
        handle@ == (WindowHandleView { window: built, renderer }),
    ensures
        ({
            let resumed = app_step(
                window,
                lifecycle_event::<W, WindowHandle<W, RH>, R>(WinitEventLoopEvent::Resumed),
            );
            let window_built = app_step(
                resumed.window,
                Event::<W, WindowHandle<W, RH>, R>::Windowing(WindowingEvent::WindowBuilt(built)),
            );
            let spawned = app_step(
                window_built.window,
                Event::<W, WindowHandle<W, RH>, R>::RendererSpawned(handle),
            );
            &&& resumed.plans == seq![Plan::<W>::BuildWindow]
            &&& resumed.flow is Continue
            &&& window_built.plans == seq![Plan::SpawnRenderer(built)]
            &&& window_built.flow is Continue
            &&& spawned.plans == seq![Plan::<W>::RequestRedraw]
            &&& spawned.flow is Continue
            &&& spawned.window matches Some(h) && h@.window == built && h@.renderer == renderer
        }),
{
}

/// A resize reaches the renderer: with a window, a resize to `width` by
/// `height` sends the renderer exactly that resize and then asks for a redraw;
/// once the renderer has carried it out, the next frame is drawn at that size
/// (each side raised to at least one pixel).
pub proof fn resize_reaches_next_frame<W, H, R>(
    handle: H,
    state: RendererStateView,
    window_id: u64,
    width: u32,
    height: u32,
)
    ensures
        ({
            let step = app_step(
                Some(handle),
                Event::<W, H, R>::Windowing(
                    WindowingEvent::Window(window_id, WindowEvent::Resized { width, height }),
                ),
            );
            &&& step.plans == seq![
                Plan::<W>::Renderer(RendererCommand::Resized(width, height)),
                Plan::RequestRedraw,
            ]
            &&& step.window == Some(handle)
            &&& frame_for(
                renderer_next(state, RendererCommand::Resized(width, height)),
                FrameInput {},
            ) == (FullFrameInput {
                input: FrameInput {},
                width: surface_extent(width),
                height: surface_extent(height),
                scale_factor: state.scale_factor,
                frame_count: state.frame_count,
            })
        }),
{
}

/// A scale factor change reaches the renderer: with a window, it sends the
/// renderer the new scale factor and asks for a redraw; once the renderer has
/// taken it, the next frame is drawn at that scale factor.
pub proof fn scale_factor_reaches_next_frame<W, H, R>(
    handle: H,
    state: RendererStateView,
    window_id: u64,
    scale_factor: ScaleFactor,
)
    ensures
        ({
            let step = app_step(
                Some(handle),
                Event::<W, H, R>::Windowing(
                    WindowingEvent::Window(window_id, WindowEvent::ScaleFactorChanged { scale_factor }),
                ),
            );
            &&& step.plans == seq![
                Plan::<W>::Renderer(RendererCommand::ChangedScaleFactor(scale_factor)),
                Plan::RequestRedraw,
            ]
            &&& frame_for(
                renderer_next(state, RendererCommand::ChangedScaleFactor(scale_factor)),
                FrameInput {},
            ).scale_factor == scale_factor
        }),
{
}

/// A redraw request becomes a frame: with a window, it sends the renderer a
/// frame input, which the renderer draws at its current size, scale factor
/// and frame number, counting one more frame afterwards.
pub proof fn redraw_becomes_frame<W, H, R>(handle: H, state: RendererStateView, window_id: u64)
    requires
        state.frame_count < u64::MAX,
    ensures
        ({
            let step = app_step(
                Some(handle),
                Event::<W, H, R>::Windowing(WindowingEvent::Window(window_id, WindowEvent::RedrawRequested)),
            );
            &&& step.plans == seq![Plan::<W>::Renderer(RendererCommand::FrameInput(FrameInput {}))]
            &&& step.flow == Flow::<R>::Continue
            &&& frame_for(state, FrameInput {}).frame_count == state.frame_count
            &&& renderer_next(state, RendererCommand::FrameInput(FrameInput {})).frame_count
                == state.frame_count + 1
        }),
{
}

} // verus!
