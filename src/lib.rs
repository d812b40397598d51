//! Off-screen GPU render targets for a software rasterizer.
//!
//! The library decides every native call that a render target's lifecycle
//! needs: which objects to create and in what order, how a half-built context
//! is unwound, how a finished one is torn down, and how rendered pixels are
//! published to a shareable surface. The calls themselves are issued by the
//! embedding program, which reports each outcome back.
pub mod geometry;
pub mod commands;
pub mod framebuffer;
pub mod lifecycle;
pub mod builder;
pub mod gl_context;
pub mod gl_rasterization_context;
pub mod egl_attributes;
