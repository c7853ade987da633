//! Plain descriptions of the two platform objects the backend works with.
use vstd::prelude::*;

verus! {

/// A platform GL context, described by what the backend reads of it.
#[derive(Debug, PartialEq, Eq, Structural)]
pub struct PlatformContext {
    /// Identifies the context among those the platform has created.
    pub handle: u64,
    /// Whether the context is the one that GL calls on this thread go to.
    pub current: bool,
    /// Whether the GL implementation behind the context offers every feature
    /// that a graphics context depends on.
    pub supports_required: bool,
}

impl PlatformContext {
    /// The same context, regarded as current.
    pub open spec fn as_current(self) -> PlatformContext {
        PlatformContext {
            handle: self.handle,
            current: true,
            supports_required: self.supports_required,
        }
    }

    pub fn new(handle: u64, current: bool, supports_required: bool) -> (ctx: PlatformContext)
        ensures
            ctx == (PlatformContext { handle, current, supports_required }),
    {
        PlatformContext { handle, current, supports_required }
    }

    /// Whether the context is current on this thread.
    pub fn is_current(&self) -> (current: bool)
        ensures
            current == self.current,
    {
        self.current
    }

    /// Overrides the currency state without asking the platform. The caller
    /// vouches that the context really is current: nothing here checks it.
    pub fn treat_as_current(self) -> (ctx: PlatformContext)
        ensures
            ctx == self.as_current(),
    {
        PlatformContext {
            handle: self.handle,
            current: true,
            supports_required: self.supports_required,
        }
    }
}

/// An external surface that produces textures, described by what the backend
/// reads of it.
#[derive(Debug, PartialEq, Eq, Structural)]
pub struct SurfaceTexture {
    /// Identifies the surface on the platform.
    pub handle: u64,
    /// Width of the surface in pixels, as the platform last reported it.
    pub width: u32,
    /// Height of the surface in pixels, as the platform last reported it.
    pub height: u32,
}

impl SurfaceTexture {
    /// The same surface with another size.
    pub open spec fn resized(self, width: u32, height: u32) -> SurfaceTexture {
        SurfaceTexture { handle: self.handle, width, height }
    }

    pub fn new(handle: u64, width: u32, height: u32) -> (surface: SurfaceTexture)
        ensures
            surface == (SurfaceTexture { handle, width, height }),
    {
        SurfaceTexture { handle, width, height }
    }
}

} // verus!
