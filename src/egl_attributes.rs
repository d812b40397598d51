//! Attribute lists handed to EGL when an EGL platform context and its
//! rasterization contexts are created. Each list is a run of name/value
//! pairs closed by `EGL_NONE`.
use vstd::prelude::*;
use crate::geometry::Size2D;

verus! {

pub const EGL_TRUE: i32 = 1;
pub const EGL_ALPHA_SIZE: i32 = 0x3021;
pub const EGL_BLUE_SIZE: i32 = 0x3022;
pub const EGL_GREEN_SIZE: i32 = 0x3023;
pub const EGL_RED_SIZE: i32 = 0x3024;
pub const EGL_SURFACE_TYPE: i32 = 0x3033;
pub const EGL_NONE: i32 = 0x3038;
pub const EGL_RENDERABLE_TYPE: i32 = 0x3040;
pub const EGL_HEIGHT: i32 = 0x3056;
pub const EGL_WIDTH: i32 = 0x3057;
pub const EGL_CONTEXT_CLIENT_VERSION: i32 = 0x3098;
pub const EGL_IMAGE_PRESERVED_KHR: i32 = 0x30D2;
pub const EGL_PBUFFER_BIT: i32 = 0x0001;
pub const EGL_OPENGL_ES2_BIT: i32 = 0x0004;

/// An off-screen (PBuffer) configuration that renders GL ES 2 with eight
/// bits for each of red, green, blue and alpha.
pub open spec fn spec_config_attributes() -> Seq<i32> {
    seq![
        EGL_SURFACE_TYPE, EGL_PBUFFER_BIT,
        EGL_RENDERABLE_TYPE, EGL_OPENGL_ES2_BIT,
        EGL_RED_SIZE, 8,
        EGL_GREEN_SIZE, 8,
        EGL_BLUE_SIZE, 8,
        EGL_ALPHA_SIZE, 8,
        EGL_NONE,
    ]
}

/// A GL ES 2 context.
pub open spec fn spec_context_attributes() -> Seq<i32> {
    seq![EGL_CONTEXT_CLIENT_VERSION, 2, EGL_NONE]
}

/// A PBuffer surface of the context's size.
pub open spec fn spec_pbuffer_attributes(size: Size2D) -> Seq<i32> {
    seq![EGL_WIDTH, size.width, EGL_HEIGHT, size.height, EGL_NONE]
}

/// An image whose contents survive its creation.
pub open spec fn spec_image_attributes() -> Seq<i32> {
    seq![EGL_IMAGE_PRESERVED_KHR, EGL_TRUE, EGL_NONE, EGL_NONE]
}

pub fn config_attributes() -> (r: Vec<i32>)
    ensures
        r@ == spec_config_attributes(),
{
    let r: Vec<i32> = vec![
        EGL_SURFACE_TYPE, EGL_PBUFFER_BIT,
        EGL_RENDERABLE_TYPE, EGL_OPENGL_ES2_BIT,
        EGL_RED_SIZE, 8,
        EGL_GREEN_SIZE, 8,
        EGL_BLUE_SIZE, 8,
        EGL_ALPHA_SIZE, 8,
        EGL_NONE,
    ];
    assert(r@ =~= spec_config_attributes());
    r
}

pub fn context_attributes() -> (r: Vec<i32>)
    ensures
        r@ == spec_context_attributes(),
{
    let r: Vec<i32> = vec![EGL_CONTEXT_CLIENT_VERSION, 2, EGL_NONE];
    assert(r@ =~= spec_context_attributes());
    r
}

pub fn pbuffer_attributes(size: Size2D) -> (r: Vec<i32>)
    ensures
        r@ == spec_pbuffer_attributes(size),
{
    let r: Vec<i32> = vec![EGL_WIDTH, size.width, EGL_HEIGHT, size.height, EGL_NONE];
    assert(r@ =~= spec_pbuffer_attributes(size));
    r
}

pub fn image_attributes() -> (r: Vec<i32>)
    ensures
        r@ == spec_image_attributes(),
{
    let r: Vec<i32> = vec![EGL_IMAGE_PRESERVED_KHR, EGL_TRUE, EGL_NONE, EGL_NONE];
    assert(r@ =~= spec_image_attributes());
    r
}

} // verus!
