//! The backend: what a graphics context asks of the platform binding, stated
//! over the currency cell, the surface texture and the GL texture it feeds.
use vstd::prelude::*;
use crate::cell::{CurrencyCell, VacantCell};
use crate::platform::{PlatformContext, SurfaceTexture};

verus! {

/// A buffer swap went wrong.
#[derive(Debug, PartialEq, Eq, Structural)]
pub struct SwapBuffersError;

/// The platform did not make the context current. There is no second context
/// to fall back on: the surface and its context have to be made anew.
#[derive(Debug, PartialEq, Eq, Structural)]
pub enum CurrencyError {
    TransitionFailed,
}

/// The one thing the backend asks of the outside after a transition: attach
/// the surface texture to the GL texture, inside the context that is now
/// current.
#[derive(Debug, PartialEq, Eq, Structural)]
pub struct AttachRequest {
    /// The surface texture to attach.
    pub surface: u64,
    /// The GL texture to attach it to.
    pub texture_id: u32,
}

/// What a backend is made of.
pub struct BackendView {
    /// The context in the currency cell.
    pub context: PlatformContext,
    pub surface: SurfaceTexture,
    pub texture_id: u32,
}

/// What is left of a backend while its context is out for a transition.
pub struct TransitionView {
    pub surface: SurfaceTexture,
    pub texture_id: u32,
}

/// The context that the platform handed back, whichever way the transition went.
pub open spec fn returned(outcome: Result<PlatformContext, PlatformContext>) -> PlatformContext {
    match outcome {
        Ok(ctx) => ctx,
        Err(ctx) => ctx,
    }
}

/// The platform reports success, and the context it handed back is current.
pub open spec fn confirmed(outcome: Result<PlatformContext, PlatformContext>) -> bool {
    outcome is Ok && returned(outcome).current
}

impl TransitionView {
    /// The request that follows a confirmed transition.
    pub open spec fn attach_request(self) -> AttachRequest {
        AttachRequest { surface: self.surface.handle, texture_id: self.texture_id }
    }

    /// The backend once the platform has answered: the cell holds what came back.
    pub open spec fn finished(self, outcome: Result<PlatformContext, PlatformContext>) -> BackendView {
        BackendView {
            context: returned(outcome),
            surface: self.surface,
            texture_id: self.texture_id,
        }
    }

    /// What the backend answers once the platform has: the request to attach,
    /// if the context is confirmed current, and the error if it is not.
    pub open spec fn verdict(self, outcome: Result<PlatformContext, PlatformContext>) -> Result<
        AttachRequest,
        CurrencyError,
    > {
        if confirmed(outcome) {
            Ok(self.attach_request())
        } else {
            Err(CurrencyError::TransitionFailed)
        }
    }
}

impl BackendView {
    /// The context in the cell is current.
    pub open spec fn is_current(self) -> bool {
        self.context.current
    }

    /// What is left once the context has been taken out for a transition.
    pub open spec fn begun(self) -> TransitionView {
        TransitionView { surface: self.surface, texture_id: self.texture_id }
    }

    /// The backend after the platform has reported a new size of the surface.
    pub open spec fn resized(self, width: u32, height: u32) -> BackendView {
        BackendView {
            context: self.context,
            surface: self.surface.resized(width, height),
            texture_id: self.texture_id,
        }
    }

    /// The size of the framebuffer: that of the surface.
    pub open spec fn framebuffer_dimensions(self) -> (u32, u32) {
        (self.surface.width, self.surface.height)
    }

    /// One whole transition on a platform that makes current the very context
    /// it was handed.
    pub open spec fn cycle(self) -> BackendView {
        self.begun().finished(Ok(self.context.as_current()))
    }

    /// `n` such transitions, one after the other.
    pub open spec fn cycles(self, n: nat) -> BackendView
        decreases n,
    {
        if n == 0 {
            self
        } else {
            self.cycle().cycles((n - 1) as nat)
        }
    }
}

/// The backend of a context that renders into a surface texture.
pub struct GlutinBackend {
    cell: CurrencyCell,
    surface_texture: SurfaceTexture,
    texture_id: u32,
}

/// A backend whose context is out for a transition. It offers no way to read
/// the cell, which is empty, and ends with `finish_make_current`.
pub struct BackendTransition {
    cell: VacantCell,
    surface_texture: SurfaceTexture,
    texture_id: u32,
}

impl View for GlutinBackend {
    type V = BackendView;

    closed spec fn view(&self) -> BackendView {
        BackendView {
            context: self.cell@,
            surface: self.surface_texture,
            texture_id: self.texture_id,
        }
    }
}

impl View for BackendTransition {
    type V = TransitionView;

    closed spec fn view(&self) -> TransitionView {
        TransitionView { surface: self.surface_texture, texture_id: self.texture_id }
    }
}

impl GlutinBackend {
    /// A backend over the given cell, surface texture and GL texture.
    pub fn new(cell: CurrencyCell, surface_texture: SurfaceTexture, texture_id: u32) -> (backend:
        GlutinBackend)
        ensures
            backend@ == (BackendView { context: cell@, surface: surface_texture, texture_id }),
    {
        GlutinBackend { cell, surface_texture, texture_id }
    }

    /// Does nothing and succeeds: the platform presents the surface by itself,
    /// no swap is asked of it.
    pub fn swap_buffers(&self) -> (swapped: Result<(), SwapBuffersError>)
        ensures
            swapped is Ok,
    {
        Ok(())
    }

    /// The size of the framebuffer, which is the size of the surface as the
    /// platform last reported it.
    pub fn get_framebuffer_dimensions(&self) -> (dimensions: (u32, u32))
        ensures
            dimensions == self@.framebuffer_dimensions(),
    {
        (self.surface_texture.width, self.surface_texture.height)
    }

    /// Records the size that the platform reports for the surface.
    pub fn surface_resized(&mut self, width: u32, height: u32)
        ensures
            final(self)@ == old(self)@.resized(width, height),
    {
        self.surface_texture.width = width;
        self.surface_texture.height = height;
    }

    /// Whether the context in the cell is current.
    pub fn is_current(&self) -> (current: bool)
        ensures
            current == self@.is_current(),
    {
        self.cell.borrow().is_current()
    }

    /// A read-only borrow of the context in the cell.
    pub fn gl_context(&self) -> (ctx: &PlatformContext)
        ensures
            *ctx == self@.context,
    {
        self.cell.borrow()
    }

    /// The GL texture that the surface texture is attached to.
    pub fn texture_id(&self) -> (texture_id: u32)
        ensures
            texture_id == self@.texture_id,
    {
        self.texture_id
    }

    /// The surface texture that the backend renders into.
    pub fn surface_texture(&self) -> (surface: &SurfaceTexture)
        ensures
            *surface == self@.surface,
    {
        &self.surface_texture
    }

    /// First half of making the context current: takes the context out of the
    /// cell and hands it out, for the platform to make it current. The backend
    /// is used up; what is left of it comes back whole from
    /// `finish_make_current`.
    pub fn begin_make_current(self) -> (parts: (BackendTransition, PlatformContext))
        ensures
            parts.0@ == self@.begun(),
            parts.1 == self@.context,
    {
        let (cell, ctx) = self.cell.take();
        (
            BackendTransition {
                cell,
                surface_texture: self.surface_texture,
                texture_id: self.texture_id,
            },
            ctx,
        )
    }
}

impl BackendTransition {
    /// Second half of making the context current: puts what the platform handed
    /// back into the cell, whichever way the transition went, and then answers.
    /// The answer is the request to attach the surface texture exactly if the
    /// platform reports success and the context now in the cell is current; in
    /// every other case it is the error. Either way the backend is whole again.
    pub fn finish_make_current(self, outcome: Result<PlatformContext, PlatformContext>) -> (done: (
        GlutinBackend,
        Result<AttachRequest, CurrencyError>,
    ))
        ensures
            done.0@ == self@.finished(outcome),
            done.1 == self@.verdict(outcome),
            done.1 is Ok <==> confirmed(outcome),
            done.1 is Ok ==> done.0@.is_current(),
    {
        let (ctx, made) = match outcome {
            Ok(ctx) => (ctx, true),
            Err(ctx) => (ctx, false),
        };
        let cell = self.cell.insert(ctx);
        let answer = if made && cell.borrow().is_current() {
            Ok(AttachRequest { surface: self.surface_texture.handle, texture_id: self.texture_id })
        } else {
            Err(CurrencyError::TransitionFailed)
        };
        (
            GlutinBackend {
                cell,
                surface_texture: self.surface_texture,
                texture_id: self.texture_id,
            },
            answer,
        )
    }
}

impl std::ops::Deref for GlutinBackend {
    type Target = CurrencyCell;

    /// The currency cell.
    fn deref(&self) -> (cell: &CurrencyCell)
        ensures
            cell@ == self@.context,
    {
        &self.cell
    }
}

/// Any number of transitions, on a platform that makes current the context it
/// is handed, leave the backend as the first one left it: the cell holds the
/// one context it held at the start, now current, and the surface texture and
/// the GL texture are those of the start. Each transition ends with the request
/// to attach that surface texture to that GL texture.
pub proof fn lemma_cycles_settle(backend: BackendView, n: nat)
    requires
        n >= 1,
    ensures
        backend.cycles(n) == (BackendView {
            context: backend.context.as_current(),
            surface: backend.surface,
            texture_id: backend.texture_id,
        }),
        backend.cycles(n).is_current(),
        backend.cycles(n).cycle() == backend.cycles(n),
        backend.cycles(n).begun().verdict(Ok(backend.cycles(n).context.as_current())) == Ok::<
            AttachRequest,
            CurrencyError,
        >(backend.begun().attach_request()),
    decreases n,
{
    if n > 1 {
        lemma_cycles_settle(backend.cycle(), (n - 1) as nat);
    } else {
        assert(backend.cycle().cycles(0) == backend.cycle());
    }
}

} // verus!
