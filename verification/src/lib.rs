//! A verified model of a rendering backend that drives a platform GL context
//! bound to an Android `SurfaceTexture`.
//!
//! The platform context lives in a currency cell, a slot that is occupied at
//! every moment but while the context is being made current. Making the context
//! current takes it out of the cell, lets the platform do the transition, puts
//! back what the platform returned and only then asks for the surface texture to
//! be attached to its GL texture.
pub mod platform;
pub mod cell;
pub mod backend;
pub mod context;
pub mod display;
