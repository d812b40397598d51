//! The vocabulary of native calls that the library plans and the embedding
//! program carries out.
use vstd::prelude::*;

verus! {

/// The native graphics stack a context lives on.
#[derive(Clone, Copy, Debug, PartialEq, Eq, Structural)]
pub enum Platform {
    /// macOS: CGL contexts, IOSurface-backed shareable surfaces.
    Cgl,
    /// Linux: GLX contexts on X11 pixmaps.
    Glx,
    /// Android: EGL contexts on PBuffer surfaces, EGL image export.
    Egl,
    /// Windows: headless contexts from the windowing layer.
    Wgl,
}

/// Texture binding point of a framebuffer's colour texture.
#[derive(Clone, Copy, Debug, PartialEq, Eq, Structural)]
pub enum TextureTarget {
    Texture2D,
    /// Rectangular textures, needed to sample from an IOSurface.
    Rectangle,
}

/// Framebuffer binding point.
#[derive(Clone, Copy, Debug, PartialEq, Eq, Structural)]
pub enum FramebufferTarget {
    /// Read and draw binding at once.
    Framebuffer,
    Read,
    Draw,
}

#[derive(Clone, Copy, Debug, PartialEq, Eq, Structural)]
pub enum TextureParameter {
    WrapS,
    WrapT,
    MagFilter,
    MinFilter,
}

#[derive(Clone, Copy, Debug, PartialEq, Eq, Structural)]
pub enum TextureParameterValue {
    ClampToEdge,
    Nearest,
}

/// Storage format of the depth/stencil renderbuffer.
#[derive(Clone, Copy, Debug, PartialEq, Eq, Structural)]
pub enum RenderbufferFormat {
    /// Packed depth and stencil, desktop GL.
    DepthStencil,
    /// Packed 24-bit depth and 8-bit stencil, GL ES with the OES extension.
    Depth24Stencil8,
    /// Stencil only, desktop GL.
    StencilIndex,
    /// 8-bit stencil only, GL ES.
    StencilIndex8,
}

/// Framebuffer attachment point of a renderbuffer.
#[derive(Clone, Copy, Debug, PartialEq, Eq, Structural)]
pub enum RenderbufferAttachment {
    Depth,
    Stencil,
}

/// The three GL object names that back a render target.
#[derive(Clone, Copy, Debug, PartialEq, Eq, Structural)]
pub struct FramebufferIds {
    pub framebuffer_id: u32,
    pub texture_id: u32,
    pub depth_stencil_renderbuffer_id: u32,
}

/// One GL call.
#[derive(Clone, Copy, Debug, PartialEq, Eq, Structural)]
pub enum GlCommand {
    /// Read the GL error flag until it reports no error.
    ClearErrors,
    BindFramebuffer { target: FramebufferTarget, framebuffer: u32 },
    BindTexture { target: TextureTarget, texture: u32 },
    TexParameter { target: TextureTarget, parameter: TextureParameter, value: TextureParameterValue },
    /// Attach a texture (level 0) to colour attachment 0 of the bound
    /// framebuffer; texture 0 detaches whatever was attached.
    AttachTexture { target: TextureTarget, texture: u32 },
    BindRenderbuffer { renderbuffer: u32 },
    RenderbufferStorage { format: RenderbufferFormat, width: i32, height: i32 },
    AttachRenderbuffer { attachment: RenderbufferAttachment, renderbuffer: u32 },
    /// Allocate RGBA, unsigned-byte storage for the bound texture, without data.
    AllocateTexture { target: TextureTarget, width: i32, height: i32 },
    /// Use the shareable surface's memory as storage of the bound rectangular
    /// texture (BGRA).
    BindSharedSurface { width: i32, height: i32 },
    Viewport { x: i32, y: i32, width: i32, height: i32 },
    DeleteFramebuffer { framebuffer: u32 },
    DeleteTexture { texture: u32 },
    DeleteRenderbuffer { renderbuffer: u32 },
    Flush,
    Finish,
    /// Copy the colour buffer of the read framebuffer into the draw
    /// framebuffer, the rectangle `(0, 0, width, height)` onto itself,
    /// with nearest filtering.
    BlitColor { width: i32, height: i32 },
}

/// A native resource that a context owns and must release exactly once.
#[derive(Clone, Copy, Debug, PartialEq, Eq, Structural)]
pub enum Resource {
    /// The X11 pixmap that hosts a GLX context.
    Pixmap,
    /// The GLX pixmap made from it, the context's drawable.
    GlxPixmap,
    /// The EGL PBuffer surface that hosts an EGL context.
    PbufferSurface,
    /// The native GPU context.
    NativeContext,
    /// The rasterizer's GPU-interface handle.
    GpuInterface,
    /// The rasterizer's render-context handle.
    RenderContext,
    /// A framebuffer with its texture and depth/stencil renderbuffer.
    Framebuffer(FramebufferIds),
    /// The EGL image exported from a framebuffer's texture.
    ExportedImage,
}

/// One step of a plan that the embedding program carries out in order.
#[derive(Clone, Copy, Debug, PartialEq, Eq, Structural)]
pub enum Command {
    /// Bind the context (and its drawable) to the calling thread.
    MakeCurrent,
    /// Unbind any context from the calling thread.
    DropCurrent,
    Gl(GlCommand),
    /// Release a native resource; a framebuffer is released by the commands
    /// of `destroy_framebuffer`.
    Release(Resource),
    /// Copy the area `(src_x, src_y, width, height)` of the parent context's
    /// pixmap to `(0, 0)` of the target pixmap.
    CopyArea { src_x: i32, src_y: i32, width: i32, height: i32 },
}

} // verus!
