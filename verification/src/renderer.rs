//! The renderer's state machine.
//!
//! The renderer owns a window surface and draws frames to it. It receives
//! [`RendererCommand`]s: a frame to draw, a new scale factor, or a new size.
//! To draw a frame it needs the physical size of the surface, the scale factor
//! it draws at and the number of the frame; the size is kept in the surface
//! configuration, the scale factor and the frame count are its own state.
use vstd::prelude::*;
use crate::event::ScaleFactor;
use crate::surface::{resized, surface_extent, SurfaceConfig, SurfaceConfigView};

verus! {

/// What the application asks to be drawn in one frame.
#[derive(Clone, Copy, PartialEq, Eq, Structural, Debug)]
pub struct FrameInput {}

/// A [`FrameInput`] with everything the renderer adds to draw it.
#[derive(Clone, Copy, PartialEq, Eq, Structural, Debug)]
pub struct FullFrameInput {
    pub input: FrameInput,
    /// Width of the target, in physical pixels.
    pub width: u32,
    /// Height of the target, in physical pixels.
    pub height: u32,
    /// The scale factor the frame is drawn at.
    pub scale_factor: ScaleFactor,
    /// The number of frames drawn before this one.
    pub frame_count: u64,
}

impl FullFrameInput {
    /// Completes a frame input with the target size, scale factor and frame number.
    pub fn new(
        input: FrameInput,
        size: (u32, u32),
        scale_factor: ScaleFactor,
        frame_count: u64,
    ) -> (full: FullFrameInput)
        ensures
            full == (FullFrameInput {
                input,
                width: size.0,
                height: size.1,
                scale_factor,
                frame_count,
            }),
    {
        FullFrameInput { input, width: size.0, height: size.1, scale_factor, frame_count }
    }
}

/// Sent to a renderer by the handle that controls it.
#[derive(Clone, Copy, PartialEq, Eq, Structural, Debug)]
pub enum RendererCommand {
    /// Draw a frame and present it.
    FrameInput(FrameInput),
    /// Draw later frames at this scale factor.
    ChangedScaleFactor(ScaleFactor),
    /// The window now has this physical size; reconfigure the surface.
    Resized(u32, u32),
}

/// What the renderer does with the GPU after a command.
#[derive(Clone, Copy, PartialEq, Eq, Debug)]
pub enum RendererAction {
    /// Draw this frame into a target of its size and present it on the surface.
    Render(FullFrameInput),
    /// Configure the surface anew with this configuration.
    Reconfigure(SurfaceConfig),
    /// Nothing to do on the GPU.
    Idle,
}

/// Abstract state of a renderer.
pub struct RendererStateView {
    pub surface: SurfaceConfigView,
    pub scale_factor: ScaleFactor,
    pub frame_count: u64,
}

/// The renderer's own state: its surface configuration, the scale factor it
/// draws at and the number of frames it has drawn.
#[derive(Debug)]
pub struct RendererState {
    surface: SurfaceConfig,
    current_scale_factor: ScaleFactor,
    current_frame_count: u64,
}

impl View for RendererState {
    type V = RendererStateView;

    closed spec fn view(&self) -> RendererStateView {
        RendererStateView {
            surface: self.surface@,
            scale_factor: self.current_scale_factor,
            frame_count: self.current_frame_count,
        }
    }
}

/// The state that a renderer is in after `command`, from `state`.
pub open spec fn renderer_next(state: RendererStateView, command: RendererCommand) -> RendererStateView {
    match command {
        RendererCommand::FrameInput(_) => RendererStateView {
            frame_count: (state.frame_count + 1) as u64,
            ..state
        },
        RendererCommand::ChangedScaleFactor(s) => RendererStateView { scale_factor: s, ..state },
        RendererCommand::Resized(w, h) => RendererStateView {
            surface: resized(state.surface, w, h),
            ..state
        },
    }
}

/// The frame that a renderer in `state` draws for `input`.
pub open spec fn frame_for(state: RendererStateView, input: FrameInput) -> FullFrameInput {
    FullFrameInput {
        input,
        width: state.surface.width,
        height: state.surface.height,
        scale_factor: state.scale_factor,
        frame_count: state.frame_count,
    }
}

/// Whether a renderer in `state` can carry out `command`: the frame counter
/// must not overflow.
pub open spec fn renderer_accepts(state: RendererStateView, command: RendererCommand) -> bool {
    command is FrameInput ==> state.frame_count < u64::MAX
}

impl RendererState {
    /// The state of a freshly launched renderer: its surface configuration,
    /// the window's scale factor, and no frame drawn yet.
    pub fn new(surface: SurfaceConfig, scale_factor: ScaleFactor) -> (state: RendererState)
        ensures
            state@ == (RendererStateView {
                surface: surface@,
                scale_factor,
                frame_count: 0,
            }),
    {
        RendererState { surface, current_scale_factor: scale_factor, current_frame_count: 0 }
    }

    /// The surface configuration.
    pub fn surface(&self) -> (config: &SurfaceConfig)
        ensures
            config@ == self@.surface,
    {
        &self.surface
    }

    /// The scale factor that frames are drawn at.
    pub fn scale_factor(&self) -> (s: ScaleFactor)
        ensures
            s == self@.scale_factor,
    {
        self.current_scale_factor
    }

    /// The number of frames drawn so far.
    pub fn frame_count(&self) -> (n: u64)
        ensures
            n == self@.frame_count,
    {
        self.current_frame_count
    }

    /// Carries out one command: a frame input is completed with the current
    /// size, scale factor and frame count and handed back to be rendered, after
    /// which the frame count goes up by one; a scale factor replaces the
    /// current one; a resize reconfigures the surface.
    pub fn handle_command(&mut self, command: RendererCommand) -> (action: RendererAction)
        requires
            renderer_accepts(old(self)@, command),
        ensures
            final(self)@ == renderer_next(old(self)@, command),
            match command {
                RendererCommand::FrameInput(input) => action == RendererAction::Render(
                    frame_for(old(self)@, input),
                ),
                RendererCommand::ChangedScaleFactor(_) => action is Idle,
                RendererCommand::Resized(_, _) => action matches RendererAction::Reconfigure(c)
                    && c@ == final(self)@.surface,
            },
    {
        match command {
            RendererCommand::FrameInput(frame_input) => {
                let width = self.surface.width();
                let height = self.surface.height();
                let full_frame_input = FullFrameInput::new(
                    frame_input,
                    (width, height),
                    self.current_scale_factor,
                    self.current_frame_count,
                );
                self.current_frame_count = self.current_frame_count + 1;
                RendererAction::Render(full_frame_input)
            },
            RendererCommand::ChangedScaleFactor(new_scale_factor) => {
                self.current_scale_factor = new_scale_factor;
                RendererAction::Idle
            },
            RendererCommand::Resized(physical_width, physical_height) => {
                self.surface.resize(physical_width, physical_height);
                RendererAction::Reconfigure(self.surface)
            },
        }
    }
}

} // verus!

verus! {

/// The state of a renderer after carrying out `commands` in order, from `state`.
pub open spec fn renderer_run(state: RendererStateView, commands: Seq<RendererCommand>) -> RendererStateView
    decreases commands.len(),
{
    if commands.len() == 0 {
        state
    } else {
        renderer_run(renderer_next(state, commands[0]), commands.drop_first())
    }
}

/// The number of frame inputs among `commands`.
pub open spec fn frame_inputs(commands: Seq<RendererCommand>) -> nat
    decreases commands.len(),
{
    if commands.len() == 0 {
        0
    } else {
        (if commands[0] is FrameInput { 1nat } else { 0nat }) + frame_inputs(commands.drop_first())
    }
}

/// Frames are counted: after a sequence of commands, the frame count has
/// grown by exactly the number of frame inputs among them, so each frame is
/// drawn with the number of frames drawn before it.
pub proof fn frame_count_counts_frame_inputs(state: RendererStateView, commands: Seq<RendererCommand>)
    requires
        state.frame_count + frame_inputs(commands) <= u64::MAX,
    ensures
        renderer_run(state, commands).frame_count == state.frame_count + frame_inputs(commands),
    decreases commands.len(),
{
    if commands.len() > 0 {
        frame_count_counts_frame_inputs(renderer_next(state, commands[0]), commands.drop_first());
    }
}

/// A scale factor change holds for all later frames: commands that change no
/// scale factor leave it as it is.
pub proof fn scale_factor_persists(state: RendererStateView, commands: Seq<RendererCommand>)
    requires
        forall|i: int| 0 <= i < commands.len() ==> !(#[trigger] commands[i] is ChangedScaleFactor),
    ensures
        renderer_run(state, commands).scale_factor == state.scale_factor,
    decreases commands.len(),
{
    if commands.len() > 0 {
        assert forall|i: int| 0 <= i < commands.drop_first().len() implies !(
        #[trigger] commands.drop_first()[i] is ChangedScaleFactor) by {
            assert(commands.drop_first()[i] == commands[i + 1]);
        }
        scale_factor_persists(renderer_next(state, commands[0]), commands.drop_first());
    }
}

/// A resize holds for all later frames: commands that resize nothing leave
/// the surface configuration as it is.
pub proof fn surface_persists(state: RendererStateView, commands: Seq<RendererCommand>)
    requires
        forall|i: int| 0 <= i < commands.len() ==> !(#[trigger] commands[i] is Resized),
    ensures
        renderer_run(state, commands).surface == state.surface,
    decreases commands.len(),
{
    if commands.len() > 0 {
        assert forall|i: int| 0 <= i < commands.drop_first().len() implies !(
        #[trigger] commands.drop_first()[i] is Resized) by {
            assert(commands.drop_first()[i] == commands[i + 1]);
        }
        surface_persists(renderer_next(state, commands[0]), commands.drop_first());
    }
}

/// The surface never gets a zero extent: from a configuration with nonzero
/// width and height, any sequence of commands keeps them nonzero.
pub proof fn surface_extent_stays_positive(state: RendererStateView, commands: Seq<RendererCommand>)
    requires
        state.surface.width >= 1,
        state.surface.height >= 1,
    ensures
        renderer_run(state, commands).surface.width >= 1,
        renderer_run(state, commands).surface.height >= 1,
    decreases commands.len(),
{
    if commands.len() > 0 {
        surface_extent_stays_positive(renderer_next(state, commands[0]), commands.drop_first());
    }
}

/// After a resize to `width` by `height`, the next frame is drawn at that
/// size, each side raised to at least one pixel, at the scale factor and
/// with the frame number the renderer had before.
pub proof fn resize_then_frame(state: RendererStateView, width: u32, height: u32, input: FrameInput)
    ensures
        frame_for(renderer_next(state, RendererCommand::Resized(width, height)), input) == (
        FullFrameInput {
            input,
            width: surface_extent(width),
            height: surface_extent(height),
            scale_factor: state.scale_factor,
            frame_count: state.frame_count,
        }),
{
}

} // verus!
