//! The handle that the application keeps for its window: the window together
//! with the handle of the renderer that draws into it.
use vstd::prelude::*;

verus! {

/// Abstract contents of a [`WindowHandle`].
pub struct WindowHandleView<W, RH> {
    pub window: W,
    pub renderer: RH,
}

/// A window `W` and the handle `RH` of its renderer. Dropping it drops both,
/// which stops the renderer.
#[derive(Debug, PartialEq, Eq)]
pub struct WindowHandle<W, RH> {
    window: W,
    renderer: RH,
}

impl<W, RH> View for WindowHandle<W, RH> {
    type V = WindowHandleView<W, RH>;

    closed spec fn view(&self) -> WindowHandleView<W, RH> {
        WindowHandleView { window: self.window, renderer: self.renderer }
    }
}

impl<W, RH> WindowHandle<W, RH> {
    /// Pairs a window with the handle of its renderer.
    pub fn new(window: W, renderer: RH) -> (handle: WindowHandle<W, RH>)
        ensures
            handle@ == (WindowHandleView { window, renderer }),
    {
        WindowHandle { window, renderer }
    }

    /// The window.
    pub fn window(&self) -> (window: &W)
        ensures
            *window == self@.window,
    {
        &self.window
    }

    /// The handle of the window's renderer.
    pub fn renderer(&self) -> (renderer: &RH)
        ensures
            *renderer == self@.renderer,
    {
        &self.renderer
    }
}

} // verus!
