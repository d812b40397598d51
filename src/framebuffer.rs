//! Framebuffer builder: a framebuffer object with a colour texture and a
//! depth/stencil renderbuffer, set up in two phases around a caller-chosen
//! step that gives the texture its storage.
use vstd::prelude::*;
use crate::commands::{
    FramebufferIds, FramebufferTarget, GlCommand, Platform, RenderbufferAttachment,
    RenderbufferFormat, TextureParameter, TextureParameterValue, TextureTarget,
};
use crate::geometry::Size2D;

verus! {

/// What the rasterizer's GL interface reports about the driver.
#[derive(Clone, Copy, Debug, PartialEq, Eq, Structural)]
pub struct GlCapabilities {
    /// The native GL version is 3.0 or later.
    pub version_3_0: bool,
    /// `GL_EXT_packed_depth_stencil` is present.
    pub ext_packed_depth_stencil: bool,
    /// `GL_ARB_framebuffer_object` is present.
    pub arb_framebuffer_object: bool,
    /// `GL_OES_packed_depth_stencil` is present.
    pub oes_packed_depth_stencil: bool,
}

/// How the colour texture gets its storage.
#[derive(Clone, Copy, Debug, PartialEq, Eq, Structural)]
pub enum TextureStorage {
    /// Fresh GL-owned storage; the pixels are copied out when published.
    Plain,
    /// The shareable surface's own memory, bound to a rectangular texture.
    SharedSurface,
}

/// What a framebuffer is built for.
#[derive(Clone, Copy, Debug, PartialEq, Eq, Structural)]
pub struct FramebufferRequest {
    pub target: TextureTarget,
    pub storage: TextureStorage,
    pub size: Size2D,
}

/// What the driver reported after the finishing phase.
#[derive(Clone, Copy, Debug, PartialEq, Eq, Structural)]
pub struct SetupReport {
    /// The GL error flag read no error.
    pub no_gl_error: bool,
    /// The framebuffer status query read "complete".
    pub framebuffer_complete: bool,
}

/// The verdict on a framebuffer setup, with what must run to undo it.
#[derive(Clone, Debug, PartialEq, Eq)]
pub struct FramebufferSetup {
    pub framebuffer: Option<FramebufferIds>,
    pub cleanup: Vec<GlCommand>,
}

/// A combined depth/stencil buffer is available: on GL ES through the OES
/// extension, on desktop GL from version 3.0 or through either extension.
pub open spec fn spec_supports_depth_stencil(platform: Platform, caps: GlCapabilities) -> bool {
    match platform {
        Platform::Egl => caps.oes_packed_depth_stencil,
        _ => caps.version_3_0 || caps.ext_packed_depth_stencil || caps.arb_framebuffer_object,
    }
}

pub open spec fn depth_stencil_format(platform: Platform) -> RenderbufferFormat {
    match platform {
        Platform::Egl => RenderbufferFormat::Depth24Stencil8,
        _ => RenderbufferFormat::DepthStencil,
    }
}

pub open spec fn stencil_format(platform: Platform) -> RenderbufferFormat {
    match platform {
        Platform::Egl => RenderbufferFormat::StencilIndex8,
        _ => RenderbufferFormat::StencilIndex,
    }
}

/// Allocate the renderbuffer's storage and attach it: to the depth and the
/// stencil point when combined, else stencil-only storage to the stencil point.
pub open spec fn depth_stencil_commands(
    platform: Platform,
    caps: GlCapabilities,
    size: Size2D,
    renderbuffer: u32,
) -> Seq<GlCommand> {
    let storage = if spec_supports_depth_stencil(platform, caps) {
        seq![
            GlCommand::RenderbufferStorage {
                format: depth_stencil_format(platform),
                width: size.width,
                height: size.height,
            },
            GlCommand::AttachRenderbuffer {
                attachment: RenderbufferAttachment::Depth,
                renderbuffer,
            },
        ]
    } else {
        seq![
            GlCommand::RenderbufferStorage {
                format: stencil_format(platform),
                width: size.width,
                height: size.height,
            },
        ]
    };
    seq![GlCommand::BindRenderbuffer { renderbuffer }] + storage + seq![
        GlCommand::AttachRenderbuffer { attachment: RenderbufferAttachment::Stencil, renderbuffer },
    ]
}

/// The first phase: clear stale errors, bind the framebuffer, bind and
/// configure the texture (clamped, nearest) on colour attachment 0, then the
/// depth/stencil renderbuffer.
pub open spec fn start_setup_commands(
    platform: Platform,
    target: TextureTarget,
    size: Size2D,
    caps: GlCapabilities,
    ids: FramebufferIds,
) -> Seq<GlCommand> {
    seq![
        GlCommand::ClearErrors,
        GlCommand::BindFramebuffer {
            target: FramebufferTarget::Framebuffer,
            framebuffer: ids.framebuffer_id,
        },
        GlCommand::BindTexture { target, texture: ids.texture_id },
        GlCommand::TexParameter {
            target,
            parameter: TextureParameter::WrapS,
            value: TextureParameterValue::ClampToEdge,
        },
        GlCommand::TexParameter {
            target,
            parameter: TextureParameter::WrapT,
            value: TextureParameterValue::ClampToEdge,
        },
        GlCommand::TexParameter {
            target,
            parameter: TextureParameter::MagFilter,
            value: TextureParameterValue::Nearest,
        },
        GlCommand::TexParameter {
            target,
            parameter: TextureParameter::MinFilter,
            value: TextureParameterValue::Nearest,
        },
        GlCommand::AttachTexture { target, texture: ids.texture_id },
    ] + depth_stencil_commands(platform, caps, size, ids.depth_stencil_renderbuffer_id)
}

/// The storage step for the bound texture.
pub open spec fn storage_commands(request: FramebufferRequest) -> Seq<GlCommand> {
    match request.storage {
        TextureStorage::Plain => seq![
            GlCommand::AllocateTexture {
                target: request.target,
                width: request.size.width,
                height: request.size.height,
            },
        ],
        TextureStorage::SharedSurface => seq![
            GlCommand::BindSharedSurface {
                width: request.size.width,
                height: request.size.height,
            },
        ],
    }
}

/// The second phase: the viewport covers the whole requested size.
pub open spec fn finish_setup_commands(size: Size2D) -> Seq<GlCommand> {
    seq![GlCommand::Viewport { x: 0, y: 0, width: size.width, height: size.height }]
}

/// Both phases with the storage step between them.
pub open spec fn setup_commands(
    platform: Platform,
    request: FramebufferRequest,
    caps: GlCapabilities,
    ids: FramebufferIds,
) -> Seq<GlCommand> {
    start_setup_commands(platform, request.target, request.size, caps, ids) + storage_commands(
        request,
    ) + finish_setup_commands(request.size)
}

pub open spec fn destroy_commands(ids: FramebufferIds) -> Seq<GlCommand> {
    seq![
        GlCommand::DeleteFramebuffer { framebuffer: ids.framebuffer_id },
        GlCommand::DeleteTexture { texture: ids.texture_id },
        GlCommand::DeleteRenderbuffer { renderbuffer: ids.depth_stencil_renderbuffer_id },
    ]
}

pub open spec fn spec_setup_succeeded(report: SetupReport) -> bool {
    report.no_gl_error && report.framebuffer_complete
}

/// A command that carries dimensions carries exactly `size`, and a viewport
/// starts at the origin.
pub open spec fn sized_as(c: GlCommand, size: Size2D) -> bool {
    match c {
        GlCommand::RenderbufferStorage { width, height, .. } => width == size.width && height
            == size.height,
        GlCommand::AllocateTexture { width, height, .. } => width == size.width && height
            == size.height,
        GlCommand::BindSharedSurface { width, height } => width == size.width && height
            == size.height,
        GlCommand::Viewport { x, y, width, height } => x == 0 && y == 0 && width == size.width
            && height == size.height,
        _ => true,
    }
}

/// A framebuffer is never resized behind the caller's back: every storage
/// allocation and the viewport of a setup use exactly the requested size, and
/// the setup ends with the viewport `(0, 0, width, height)`.
pub proof fn lemma_setup_sized_exactly(
    platform: Platform,
    request: FramebufferRequest,
    caps: GlCapabilities,
    ids: FramebufferIds,
)
    ensures
        forall|i: int|
            0 <= i < setup_commands(platform, request, caps, ids).len() ==> sized_as(
                #[trigger] setup_commands(platform, request, caps, ids)[i],
                request.size,
            ),
        setup_commands(platform, request, caps, ids).last() == (GlCommand::Viewport {
            x: 0,
            y: 0,
            width: request.size.width,
            height: request.size.height,
        }),
{
    let s = setup_commands(platform, request, caps, ids);
    let start = start_setup_commands(platform, request.target, request.size, caps, ids);
    let ds = depth_stencil_commands(platform, caps, request.size, ids.depth_stencil_renderbuffer_id);
    assert forall|i: int| 0 <= i < ds.len() implies sized_as(#[trigger] ds[i], request.size) by {}
    assert forall|i: int| 0 <= i < start.len() implies sized_as(#[trigger] start[i], request.size) by {
        if i >= 8 {
            assert(start[i] == ds[i - 8]);
        }
    }
    assert forall|i: int| 0 <= i < s.len() implies sized_as(#[trigger] s[i], request.size) by {
        if i < start.len() {
            assert(s[i] == start[i]);
        }
    }
}

/// Whether the driver offers a combined depth/stencil buffer.
pub fn supports_depth_stencil(platform: Platform, caps: &GlCapabilities) -> (r: bool)
    ensures
        r == spec_supports_depth_stencil(platform, *caps),
{
    match platform {
        Platform::Egl => caps.oes_packed_depth_stencil,
        _ => caps.version_3_0 || caps.ext_packed_depth_stencil || caps.arb_framebuffer_object,
    }
}

fn push_depth_stencil_commands(
    commands: &mut Vec<GlCommand>,
    platform: Platform,
    caps: &GlCapabilities,
    size: Size2D,
    renderbuffer: u32,
)
    ensures
        final(commands)@ == old(commands)@ + depth_stencil_commands(
            platform,
            *caps,
            size,
            renderbuffer,
        ),
{
    let ghost before = commands@;
    commands.push(GlCommand::BindRenderbuffer { renderbuffer });
    if supports_depth_stencil(platform, caps) {
        let format = match platform {
            Platform::Egl => RenderbufferFormat::Depth24Stencil8,
            _ => RenderbufferFormat::DepthStencil,
        };
        commands.push(
            GlCommand::RenderbufferStorage { format, width: size.width, height: size.height },
        );
        commands.push(
            GlCommand::AttachRenderbuffer { attachment: RenderbufferAttachment::Depth, renderbuffer },
        );
    } else {
        let format = match platform {
            Platform::Egl => RenderbufferFormat::StencilIndex8,
            _ => RenderbufferFormat::StencilIndex,
        };
        commands.push(
            GlCommand::RenderbufferStorage { format, width: size.width, height: size.height },
        );
    }
    commands.push(
        GlCommand::AttachRenderbuffer { attachment: RenderbufferAttachment::Stencil, renderbuffer },
    );
    assert(commands@ =~= before + depth_stencil_commands(platform, *caps, size, renderbuffer));
}

/// The first phase of a framebuffer setup, on freshly generated object names.
pub fn start_framebuffer_setup(
    platform: Platform,
    texture_target: TextureTarget,
    size: Size2D,
    caps: &GlCapabilities,
    ids: FramebufferIds,
) -> (r: Vec<GlCommand>)
    ensures
        r@ == start_setup_commands(platform, texture_target, size, *caps, ids),
{
    let mut commands: Vec<GlCommand> = Vec::new();
    commands.push(GlCommand::ClearErrors);
    commands.push(
        GlCommand::BindFramebuffer {
            target: FramebufferTarget::Framebuffer,
            framebuffer: ids.framebuffer_id,
        },
    );
    commands.push(GlCommand::BindTexture { target: texture_target, texture: ids.texture_id });
    commands.push(
        GlCommand::TexParameter {
            target: texture_target,
            parameter: TextureParameter::WrapS,
            value: TextureParameterValue::ClampToEdge,
        },
    );
    commands.push(
        GlCommand::TexParameter {
            target: texture_target,
            parameter: TextureParameter::WrapT,
            value: TextureParameterValue::ClampToEdge,
        },
    );
    commands.push(
        GlCommand::TexParameter {
            target: texture_target,
            parameter: TextureParameter::MagFilter,
            value: TextureParameterValue::Nearest,
        },
    );
    commands.push(
        GlCommand::TexParameter {
            target: texture_target,
            parameter: TextureParameter::MinFilter,
            value: TextureParameterValue::Nearest,
        },
    );
    commands.push(GlCommand::AttachTexture { target: texture_target, texture: ids.texture_id });
    push_depth_stencil_commands(
        &mut commands,
        platform,
        caps,
        size,
        ids.depth_stencil_renderbuffer_id,
    );
    assert(commands@ =~= start_setup_commands(platform, texture_target, size, *caps, ids));
    commands
}

/// The storage step that a render target of this request runs between the
/// two phases.
pub fn texture_storage_commands(request: &FramebufferRequest) -> (r: Vec<GlCommand>)
    ensures
        r@ == storage_commands(*request),
{
    let mut commands: Vec<GlCommand> = Vec::new();
    match request.storage {
        TextureStorage::Plain => {
            commands.push(
                GlCommand::AllocateTexture {
                    target: request.target,
                    width: request.size.width,
                    height: request.size.height,
                },
            );
        },
        TextureStorage::SharedSurface => {
            commands.push(
                GlCommand::BindSharedSurface {
                    width: request.size.width,
                    height: request.size.height,
                },
            );
        },
    }
    assert(commands@ =~= storage_commands(*request));
    commands
}

/// The second phase of a framebuffer setup, run after the storage step.
pub fn finish_framebuffer_setup(size: Size2D) -> (r: Vec<GlCommand>)
    ensures
        r@ == finish_setup_commands(size),
{
    let mut commands: Vec<GlCommand> = Vec::new();
    commands.push(GlCommand::Viewport { x: 0, y: 0, width: size.width, height: size.height });
    assert(commands@ =~= finish_setup_commands(size));
    commands
}

/// Whether the finishing phase left a usable framebuffer: no GL error and a
/// complete framebuffer.
pub fn setup_succeeded(report: &SetupReport) -> (r: bool)
    ensures
        r == spec_setup_succeeded(*report),
{
    report.no_gl_error && report.framebuffer_complete
}

/// The whole setup: first phase, storage step, second phase.
pub fn setup_framebuffer(
    platform: Platform,
    request: &FramebufferRequest,
    caps: &GlCapabilities,
    ids: FramebufferIds,
) -> (r: Vec<GlCommand>)
    ensures
        r@ == setup_commands(platform, *request, *caps, ids),
{
    let mut commands = start_framebuffer_setup(platform, request.target, request.size, caps, ids);
    let mut storage = texture_storage_commands(request);
    let mut finish = finish_framebuffer_setup(request.size);
    commands.append(&mut storage);
    commands.append(&mut finish);
    commands
}

/// Delete the three objects of a framebuffer.
pub fn destroy_framebuffer(ids: FramebufferIds) -> (r: Vec<GlCommand>)
    ensures
        r@ == destroy_commands(ids),
{
    let mut commands: Vec<GlCommand> = Vec::new();
    commands.push(GlCommand::DeleteFramebuffer { framebuffer: ids.framebuffer_id });
    commands.push(GlCommand::DeleteTexture { texture: ids.texture_id });
    commands.push(
        GlCommand::DeleteRenderbuffer { renderbuffer: ids.depth_stencil_renderbuffer_id },
    );
    assert(commands@ =~= destroy_commands(ids));
    commands
}

/// The end of a setup: the framebuffer on success; on failure nothing, and
/// the commands that delete everything the setup created.
pub fn conclude_framebuffer_setup(ids: FramebufferIds, report: &SetupReport) -> (r:
    FramebufferSetup)
    ensures
        spec_setup_succeeded(*report) ==> r.framebuffer == Some(ids) && r.cleanup@.len() == 0,
        !spec_setup_succeeded(*report) ==> r.framebuffer.is_none() && r.cleanup@
            == destroy_commands(ids),
{
    if setup_succeeded(report) {
        FramebufferSetup { framebuffer: Some(ids), cleanup: Vec::new() }
    } else {
        FramebufferSetup { framebuffer: None, cleanup: destroy_framebuffer(ids) }
    }
}

} // verus!
