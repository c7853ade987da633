//! The entry point: a graphics context backed by a surface texture.
use std::rc::Rc;
use vstd::prelude::*;
use crate::backend::{
    confirmed, AttachRequest, BackendTransition, BackendView, CurrencyError, GlutinBackend,
    TransitionView,
};
use crate::cell::CurrencyCell;
use crate::context::{
    compatible, share, ContextView, DebugCallbackBehavior, Frame, FrameView, GraphicsContext,
    IncompatibleOpenGl,
};
use crate::platform::{PlatformContext, SurfaceTexture};

verus! {

/// What a surface-backed context is made of.
pub struct DisplayView {
    pub context: ContextView,
    pub backend: BackendView,
}

/// What is left of a surface-backed context while its platform context is out
/// for a transition.
pub struct DisplayTransitionView {
    pub context: ContextView,
    pub backend: TransitionView,
}

/// What construction yields where it succeeds: the platform context sits in the
/// cell, regarded as current, and the graphics context is built over it.
pub open spec fn built(
    context: PlatformContext,
    debug: DebugCallbackBehavior,
    checked: bool,
    surface_texture: SurfaceTexture,
    texture_id: u32,
) -> DisplayView {
    DisplayView {
        context: ContextView { platform: context.handle, checked, debug },
        backend: BackendView {
            context: context.as_current(),
            surface: surface_texture,
            texture_id,
        },
    }
}

impl DisplayView {
    /// The frame that `draw` yields.
    pub open spec fn frame(self) -> FrameView {
        FrameView { context: self.context, dimensions: self.backend.framebuffer_dimensions() }
    }

    /// The display after the platform has reported a new size of the surface.
    pub open spec fn resized(self, width: u32, height: u32) -> DisplayView {
        DisplayView { context: self.context, backend: self.backend.resized(width, height) }
    }

    /// What is left once the platform context has been taken out.
    pub open spec fn begun(self) -> DisplayTransitionView {
        DisplayTransitionView { context: self.context, backend: self.backend.begun() }
    }
}

impl DisplayTransitionView {
    /// The display once the platform has answered.
    pub open spec fn finished(self, outcome: Result<PlatformContext, PlatformContext>) -> DisplayView {
        DisplayView { context: self.context, backend: self.backend.finished(outcome) }
    }
}

/// A graphics context that renders into a surface texture.
pub struct SurfaceBacked {
    context: Rc<GraphicsContext>,
    glutin: GlutinBackend,
}

/// A surface-backed context whose platform context is out for a transition.
pub struct DisplayTransition {
    context: Rc<GraphicsContext>,
    glutin: BackendTransition,
}

impl View for SurfaceBacked {
    type V = DisplayView;

    closed spec fn view(&self) -> DisplayView {
        DisplayView { context: self.context@, backend: self.glutin@ }
    }
}

impl View for DisplayTransition {
    type V = DisplayTransitionView;

    closed spec fn view(&self) -> DisplayTransitionView {
        DisplayTransitionView { context: self.context@, backend: self.glutin@ }
    }
}

impl SurfaceBacked {
    /// Builds a surface-backed context and probes the GL implementation for
    /// the features that a graphics context depends on. The platform context
    /// is taken as current on the caller's word.
    pub fn new(context: PlatformContext, surface_texture: SurfaceTexture, texture_id: u32) -> (made:
        Result<SurfaceBacked, IncompatibleOpenGl>)
        ensures
            made is Ok <==> context.supports_required,
            made is Ok ==> made->Ok_0@ == built(
                context,
                DebugCallbackBehavior::DebugMessageOnError,
                true,
                surface_texture,
                texture_id,
            ),
    {
        Self::with_debug(context, DebugCallbackBehavior::default(), surface_texture, texture_id)
    }

    /// As `new`, but without the probe: construction always succeeds, and a
    /// missing feature shows only when it is first used.
    pub fn unchecked(context: PlatformContext, surface_texture: SurfaceTexture, texture_id: u32) -> (made:
        Result<SurfaceBacked, IncompatibleOpenGl>)
        ensures
            made is Ok,
            made->Ok_0@ == built(
                context,
                DebugCallbackBehavior::DebugMessageOnError,
                false,
                surface_texture,
                texture_id,
            ),
    {
        Self::unchecked_with_debug(
            context,
            DebugCallbackBehavior::default(),
            surface_texture,
            texture_id,
        )
    }

    /// As `new`, with a say on what becomes of debug output.
    pub fn with_debug(
        context: PlatformContext,
        debug: DebugCallbackBehavior,
        surface_texture: SurfaceTexture,
        texture_id: u32,
    ) -> (made: Result<SurfaceBacked, IncompatibleOpenGl>)
        ensures
            made is Ok <==> context.supports_required,
            made is Ok ==> made->Ok_0@ == built(context, debug, true, surface_texture, texture_id),
    {
        Self::new_inner(context, debug, true, surface_texture, texture_id)
    }

    /// As `unchecked`, with a say on what becomes of debug output.
    pub fn unchecked_with_debug(
        context: PlatformContext,
        debug: DebugCallbackBehavior,
        surface_texture: SurfaceTexture,
        texture_id: u32,
    ) -> (made: Result<SurfaceBacked, IncompatibleOpenGl>)
        ensures
            made is Ok,
            made->Ok_0@ == built(context, debug, false, surface_texture, texture_id),
    {
        Self::new_inner(context, debug, false, surface_texture, texture_id)
    }

    fn new_inner(
        context: PlatformContext,
        debug: DebugCallbackBehavior,
        checked: bool,
        surface_texture: SurfaceTexture,
        texture_id: u32,
    ) -> (made: Result<SurfaceBacked, IncompatibleOpenGl>)
        ensures
            made is Ok <==> compatible(context, checked),
            made is Ok ==> made->Ok_0@ == built(
                context,
                debug,
                checked,
                surface_texture,
                texture_id,
            ),
    {
        let context = context.treat_as_current();
        let cell = CurrencyCell::new(context);
        let glutin = GlutinBackend::new(cell, surface_texture, texture_id);
        match GraphicsContext::new(&glutin, checked, debug) {
            Ok(context) => Ok(SurfaceBacked { context, glutin }),
            Err(incompatible) => Err(incompatible),
        }
    }

    /// The graphics context.
    pub fn get_context(&self) -> (context: &Rc<GraphicsContext>)
        ensures
            context@ == self@.context,
    {
        &self.context
    }

    /// The backend.
    pub fn backend(&self) -> (backend: &GlutinBackend)
        ensures
            backend@ == self@.backend,
    {
        &self.glutin
    }

    /// A read-only borrow of the platform context.
    pub fn gl_context(&self) -> (ctx: &PlatformContext)
        ensures
            *ctx == self@.backend.context,
    {
        self.glutin.gl_context()
    }

    /// Begins a frame: it is bound to the graphics context and has the size
    /// that the framebuffer has now.
    pub fn draw(&self) -> (frame: Frame)
        ensures
            frame@ == self@.frame(),
    {
        Frame::new(share(&self.context), self.glutin.get_framebuffer_dimensions())
    }

    /// Records the size that the platform reports for the surface.
    pub fn surface_resized(&mut self, width: u32, height: u32)
        ensures
            final(self)@ == old(self)@.resized(width, height),
    {
        self.glutin.surface_resized(width, height);
    }

    /// First half of making the platform context current: hands the context
    /// out, for the platform to make it current. The display is used up; it
    /// comes back whole from `finish_make_current`.
    pub fn begin_make_current(self) -> (parts: (DisplayTransition, PlatformContext))
        ensures
            parts.0@ == self@.begun(),
            parts.1 == self@.backend.context,
    {
        let (glutin, ctx) = self.glutin.begin_make_current();
        (DisplayTransition { context: self.context, glutin }, ctx)
    }
}

impl DisplayTransition {
    /// Second half of making the platform context current: the backend takes
    /// back what the platform returned and answers with the request to attach
    /// the surface texture, or with the error.
    pub fn finish_make_current(self, outcome: Result<PlatformContext, PlatformContext>) -> (done: (
        SurfaceBacked,
        Result<AttachRequest, CurrencyError>,
    ))
        ensures
            done.0@ == self@.finished(outcome),
            done.1 == self@.backend.verdict(outcome),
            done.1 is Ok <==> confirmed(outcome),
            done.1 is Ok ==> done.0@.backend.is_current(),
    {
        let (glutin, answer) = self.glutin.finish_make_current(outcome);
        (SurfaceBacked { context: self.context, glutin }, answer)
    }
}

impl std::ops::Deref for SurfaceBacked {
    type Target = GraphicsContext;

    /// The graphics context.
    fn deref(&self) -> (context: &GraphicsContext)
        ensures
            context@ == self@.context,
    {
        &self.context
    }
}

/// A frame has the size that the platform reported last: after a report of
/// `width` and `height` the next frame has exactly that size, whatever the size
/// was before, and it is still bound to the same graphics context.
pub proof fn lemma_draw_follows_resize(display: DisplayView, width: u32, height: u32)
    ensures
        display.resized(width, height).frame().dimensions == (width, height),
        display.resized(width, height).frame().context == display.frame().context,
{
}

} // verus!
