//! The graphics context that is built over a backend, and the frames drawn in it.
use std::rc::Rc;
use vstd::prelude::*;
use crate::backend::{GlutinBackend, SwapBuffersError};
use crate::platform::PlatformContext;

verus! {

/// How the messages of the GL implementation's debug output are surfaced.
#[derive(Debug, Clone, Copy, PartialEq, Eq, Structural)]
pub enum DebugCallbackBehavior {
    /// Messages are dropped.
    Ignore,
    /// A message that reports an error is surfaced, the others are dropped.
    DebugMessageOnError,
    /// Every message is printed.
    PrintAll,
}

impl Default for DebugCallbackBehavior {
    fn default() -> (behavior: DebugCallbackBehavior)
        ensures
            behavior == DebugCallbackBehavior::DebugMessageOnError,
    {
        DebugCallbackBehavior::DebugMessageOnError
    }
}

/// The GL implementation lacks a feature that a graphics context depends on.
#[derive(Debug, PartialEq, Eq, Structural)]
pub struct IncompatibleOpenGl;

/// What a graphics context is made of.
pub struct ContextView {
    /// The handle of the platform context that it was built over.
    pub platform: u64,
    /// Whether the compatibility probe ran at construction.
    pub checked: bool,
    /// What becomes of debug output.
    pub debug: DebugCallbackBehavior,
}

/// A graphics context. The only way to make one is `new`, so none exists that
/// was to be probed and is built over an implementation that failed the probe.
#[derive(Debug, PartialEq, Eq)]
pub struct GraphicsContext {
    platform: u64,
    checked: bool,
    debug: DebugCallbackBehavior,
}

impl View for GraphicsContext {
    type V = ContextView;

    closed spec fn view(&self) -> ContextView {
        ContextView { platform: self.platform, checked: self.checked, debug: self.debug }
    }
}

/// Whether a graphics context can be built over `ctx`: always when the probe
/// is skipped, else only if the implementation offers what is required.
pub open spec fn compatible(ctx: PlatformContext, checked: bool) -> bool {
    !checked || ctx.supports_required
}

/// The probe alone decides: an implementation that lacks a required feature is
/// refused where the probe runs and accepted where it is skipped, and a
/// complete implementation is accepted either way.
pub proof fn lemma_probe_decides(ctx: PlatformContext)
    ensures
        compatible(ctx, true) <==> ctx.supports_required,
        compatible(ctx, false),
        compatible(ctx.as_current(), true) <==> compatible(ctx, true),
{
}

/// `Rc::clone`: another pointer to the same value.
#[verifier::external_body]
pub(crate) fn share(context: &Rc<GraphicsContext>) -> (shared: Rc<GraphicsContext>)
    ensures
        shared == *context,
{
    Rc::clone(context)
}

impl GraphicsContext {
    /// Builds a graphics context over the context that the backend holds. With
    /// `checked`, the implementation is probed first, and none is built where a
    /// required feature is missing.
    pub fn new(backend: &GlutinBackend, checked: bool, debug: DebugCallbackBehavior) -> (built:
        Result<Rc<GraphicsContext>, IncompatibleOpenGl>)
        ensures
            built is Ok <==> compatible(backend@.context, checked),
            built is Ok ==> built->Ok_0@ == (ContextView {
                platform: backend@.context.handle,
                checked,
                debug,
            }),
    {
        let ctx = backend.gl_context();
        if checked && !ctx.supports_required {
            Err(IncompatibleOpenGl)
        } else {
            Ok(Rc::new(GraphicsContext { platform: ctx.handle, checked, debug }))
        }
    }

    /// The handle of the platform context that the graphics context was built over.
    pub fn platform(&self) -> (platform: u64)
        ensures
            platform == self@.platform,
    {
        self.platform
    }

    /// Whether the compatibility probe ran at construction.
    pub fn is_checked(&self) -> (checked: bool)
        ensures
            checked == self@.checked,
    {
        self.checked
    }

    /// What becomes of debug output.
    pub fn debug(&self) -> (debug: DebugCallbackBehavior)
        ensures
            debug == self@.debug,
    {
        self.debug
    }
}

/// What a frame is made of.
pub struct FrameView {
    pub context: ContextView,
    pub dimensions: (u32, u32),
}

/// One render pass. It is bound to a graphics context and to the size that the
/// framebuffer had when the pass began, and ends with `finish`.
pub struct Frame {
    context: Rc<GraphicsContext>,
    dimensions: (u32, u32),
}

impl View for Frame {
    type V = FrameView;

    closed spec fn view(&self) -> FrameView {
        FrameView { context: self.context@, dimensions: self.dimensions }
    }
}

impl Frame {
    /// A frame of the given size in the given context.
    pub fn new(context: Rc<GraphicsContext>, dimensions: (u32, u32)) -> (frame: Frame)
        ensures
            frame@ == (FrameView { context: context@, dimensions }),
    {
        Frame { context, dimensions }
    }

    /// The size of the framebuffer when the frame was begun.
    pub fn get_dimensions(&self) -> (dimensions: (u32, u32))
        ensures
            dimensions == self@.dimensions,
    {
        self.dimensions
    }

    /// The graphics context that the frame is bound to.
    pub fn get_context(&self) -> (context: &Rc<GraphicsContext>)
        ensures
            context@ == self@.context,
    {
        &self.context
    }

    /// Ends the frame, which swaps the buffers of the backend at once. The
    /// frame is used up, so it is swapped for once only.
    pub fn finish(self, backend: &GlutinBackend) -> (swapped: Result<(), SwapBuffersError>)
        ensures
            swapped is Ok,
    {
        backend.swap_buffers()
    }
}

} // verus!
