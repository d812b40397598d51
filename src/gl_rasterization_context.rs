//! A rasterization context: a render target of its own size, layered on a
//! platform context and tied to a shareable surface, and the step that
//! publishes its pixels to that surface.
use vstd::prelude::*;
use crate::builder::{fully_initialized, held_only_from, ContextBuilder, Purpose};
use crate::commands::{
    Command, FramebufferIds, FramebufferTarget, GlCommand, Platform, Resource, TextureTarget,
};
use crate::geometry::Size2D;
use crate::gl_context::GLContext;
use crate::lifecycle::{release_commands, release_plan, Holdings};

verus! {

pub struct GLRasterizationContext {
    platform: Platform,
    size: Size2D,
    parent_size: Size2D,
    framebuffer: FramebufferIds,
    held: Holdings,
}

/// Publish the framebuffer's pixels to the shareable surface.
///
/// - CGL: the texture's storage is the surface; binding the framebuffer again
///   makes the driver resolve all writes.
/// - GLX: blit the colour buffer into the parent's default framebuffer, wait
///   for the GPU, drop the context, then copy from the parent's pixmap into
///   the target pixmap. The copied area is anchored at the bottom of the
///   parent's pixmap: it starts at row `parent height - height`.
/// - EGL and WGL: the image was exported at creation; bind the framebuffer
///   for reading and detach colour attachment 0.
pub open spec fn publish_plan(
    platform: Platform,
    framebuffer_id: u32,
    size: Size2D,
    parent_size: Size2D,
) -> Seq<Command> {
    match platform {
        Platform::Cgl => seq![
            Command::Gl(
                GlCommand::BindFramebuffer {
                    target: FramebufferTarget::Framebuffer,
                    framebuffer: framebuffer_id,
                },
            ),
        ],
        Platform::Glx => seq![
            Command::Gl(
                GlCommand::BindFramebuffer {
                    target: FramebufferTarget::Read,
                    framebuffer: framebuffer_id,
                },
            ),
            Command::Gl(GlCommand::BindFramebuffer { target: FramebufferTarget::Draw, framebuffer: 0 }),
            Command::Gl(GlCommand::BlitColor { width: size.width, height: size.height }),
            Command::Gl(GlCommand::Finish),
            Command::DropCurrent,
            Command::CopyArea {
                src_x: 0,
                src_y: (parent_size.height - size.height) as i32,
                width: size.width,
                height: size.height,
            },
        ],
        _ => seq![
            Command::Gl(
                GlCommand::BindFramebuffer {
                    target: FramebufferTarget::Read,
                    framebuffer: framebuffer_id,
                },
            ),
            Command::Gl(GlCommand::AttachTexture { target: TextureTarget::Texture2D, texture: 0 }),
        ],
    }
}

impl GLRasterizationContext {
    #[verifier::type_invariant]
    pub(crate) open spec fn inv(self) -> bool {
        self.wf()
    }

    pub closed spec fn spec_platform(&self) -> Platform {
        self.platform
    }

    pub closed spec fn spec_size(&self) -> Size2D {
        self.size
    }

    /// The size of the platform context it is layered on.
    pub closed spec fn spec_parent_size(&self) -> Size2D {
        self.parent_size
    }

    pub closed spec fn spec_framebuffer(&self) -> FramebufferIds {
        self.framebuffer
    }

    pub closed spec fn spec_held(&self) -> Holdings {
        self.held
    }

    /// A live rasterization context holds its framebuffer, on EGL its
    /// exported image, and nothing of its parent's.
    pub open spec fn wf(&self) -> bool {
        &&& self.spec_size().is_valid()
        &&& self.spec_parent_size().is_valid()
        &&& fully_initialized(Purpose::RasterizationContext, self.spec_platform(), self.spec_held())
        &&& held_only_from(Purpose::RasterizationContext, self.spec_platform(), self.spec_held())
        &&& self.spec_held().framebuffer == Some(self.spec_framebuffer())
    }

    pub open spec fn spec_publish_plan(&self) -> Seq<Command> {
        publish_plan(
            self.spec_platform(),
            self.spec_framebuffer().framebuffer_id,
            self.spec_size(),
            self.spec_parent_size(),
        )
    }

    pub open spec fn teardown_plan(&self) -> Seq<Command> {
        release_plan(self.spec_platform(), self.spec_held())
    }

    /// The context that a finished construction produced on `parent`; none
    /// unless every step of a rasterization-context construction for the
    /// parent's platform succeeded.
    pub fn new(parent: &GLContext, builder: &ContextBuilder) -> (r: Option<GLRasterizationContext>)
        ensures
            r is Some <==> builder.is_complete() && builder.spec_purpose()
                == Purpose::RasterizationContext && builder.spec_platform()
                == parent.spec_platform(),
            r matches Some(c) ==> {
                &&& c.wf()
                &&& c.spec_platform() == parent.spec_platform()
                &&& c.spec_size() == builder.spec_size()
                &&& c.spec_parent_size() == parent.spec_size()
                &&& c.spec_held() == builder.spec_held()
            },
    {
        proof {
            use_type_invariant(builder);
            use_type_invariant(parent);
        }
        if !builder.complete() {
            return None;
        }
        match builder.purpose() {
            Purpose::RasterizationContext => {},
            Purpose::PlatformContext => {
                return None;
            },
        }
        if builder.platform() != parent.platform() {
            return None;
        }
        proof {
            builder.lemma_all_or_nothing();
        }
        let held = builder.held();
        match held.framebuffer {
            Some(framebuffer) => Some(
                GLRasterizationContext {
                    platform: builder.platform(),
                    size: builder.size(),
                    parent_size: parent.size(),
                    framebuffer,
                    held,
                },
            ),
            None => None,
        }
    }

    pub fn platform(&self) -> (r: Platform)
        ensures
            r == self.spec_platform(),
    {
        self.platform
    }

    pub fn size(&self) -> (r: Size2D)
        ensures
            r == self.spec_size(),
    {
        self.size
    }

    pub fn framebuffer(&self) -> (r: FramebufferIds)
        ensures
            r == self.spec_framebuffer(),
    {
        self.framebuffer
    }

    /// The framebuffer that drawing code renders into.
    pub fn framebuffer_id(&self) -> (r: u32)
        ensures
            r == self.spec_framebuffer().framebuffer_id,
    {
        self.framebuffer.framebuffer_id
    }

    /// Whether an EGL image was exported from the texture.
    pub fn has_exported_image(&self) -> (r: bool)
        ensures
            r == self.spec_held().exported_image,
    {
        self.held.exported_image
    }

    /// Bind the parent context to the calling thread.
    pub fn make_current(&self) -> (r: Vec<Command>)
        ensures
            r@ == seq![Command::MakeCurrent],
    {
        let mut commands: Vec<Command> = Vec::new();
        commands.push(Command::MakeCurrent);
        assert(commands@ =~= seq![Command::MakeCurrent]);
        commands
    }

    /// Make the parent context current, then flush the GPU.
    pub fn flush(&self) -> (r: Vec<Command>)
        ensures
            r@ == seq![Command::MakeCurrent, Command::Gl(GlCommand::Flush)],
    {
        let mut commands: Vec<Command> = Vec::new();
        commands.push(Command::MakeCurrent);
        commands.push(Command::Gl(GlCommand::Flush));
        assert(commands@ =~= seq![Command::MakeCurrent, Command::Gl(GlCommand::Flush)]);
        commands
    }

    /// Publish the framebuffer's pixels to the shareable surface.
    pub fn flush_to_surface(&self) -> (r: Vec<Command>)
        ensures
            r@ == self.spec_publish_plan(),
    {
        proof {
            use_type_invariant(self);
        }
        let framebuffer_id = self.framebuffer.framebuffer_id;
        let mut commands: Vec<Command> = Vec::new();
        match self.platform {
            Platform::Cgl => {
                commands.push(
                    Command::Gl(
                        GlCommand::BindFramebuffer {
                            target: FramebufferTarget::Framebuffer,
                            framebuffer: framebuffer_id,
                        },
                    ),
                );
            },
            Platform::Glx => {
                commands.push(
                    Command::Gl(
                        GlCommand::BindFramebuffer {
                            target: FramebufferTarget::Read,
                            framebuffer: framebuffer_id,
                        },
                    ),
                );
                commands.push(
                    Command::Gl(
                        GlCommand::BindFramebuffer { target: FramebufferTarget::Draw, framebuffer: 0 },
                    ),
                );
                commands.push(
                    Command::Gl(
                        GlCommand::BlitColor { width: self.size.width, height: self.size.height },
                    ),
                );
                commands.push(Command::Gl(GlCommand::Finish));
                commands.push(Command::DropCurrent);
                commands.push(
                    Command::CopyArea {
                        src_x: 0,
                        src_y: self.parent_size.height - self.size.height,
                        width: self.size.width,
                        height: self.size.height,
                    },
                );
            },
            _ => {
                commands.push(
                    Command::Gl(
                        GlCommand::BindFramebuffer {
                            target: FramebufferTarget::Read,
                            framebuffer: framebuffer_id,
                        },
                    ),
                );
                commands.push(
                    Command::Gl(
                        GlCommand::AttachTexture { target: TextureTarget::Texture2D, texture: 0 },
                    ),
                );
            },
        }
        assert(commands@ =~= self.spec_publish_plan());
        commands
    }

    /// The commands that destroy the context: with the parent current, the
    /// exported image (EGL) and then the framebuffer are released.
    pub fn teardown(&self) -> (r: Vec<Command>)
        ensures
            r@ == self.teardown_plan(),
    {
        release_commands(self.platform, &self.held)
    }

    /// Publishing never aliases a texture: it attaches no texture to any
    /// framebuffer, and where the image was exported (EGL) or the pixels are
    /// read back from the texture (WGL) it ends by detaching colour
    /// attachment 0, so later drawing cannot overwrite what was published.
    /// It never exports, releases or creates anything, so publishing twice
    /// leaves the exported image as it was. Outside the GLX blit-and-copy,
    /// it binds no framebuffer but the context's own, blits nothing and
    /// copies nothing, so the parent's default framebuffer is untouched.
    pub proof fn lemma_publish_never_aliases(&self)
        requires
            self.wf(),
        ensures
            forall|i: int|
                0 <= i < self.spec_publish_plan().len() ==> match #[trigger] self.spec_publish_plan()[i] {
                    Command::Gl(GlCommand::AttachTexture { texture, .. }) => texture == 0,
                    Command::Release(_) => false,
                    Command::MakeCurrent => false,
                    _ => true,
                },
            self.spec_platform() == Platform::Egl || self.spec_platform() == Platform::Wgl
                ==> self.spec_publish_plan().last() == Command::Gl(
                GlCommand::AttachTexture { target: TextureTarget::Texture2D, texture: 0 },
            ),
            self.spec_platform() != Platform::Glx ==> forall|i: int|
                0 <= i < self.spec_publish_plan().len() ==> match #[trigger] self.spec_publish_plan()[i] {
                    Command::Gl(GlCommand::BindFramebuffer { framebuffer, .. }) => framebuffer
                        == self.spec_framebuffer().framebuffer_id,
                    Command::Gl(GlCommand::BlitColor { .. }) => false,
                    Command::CopyArea { .. } => false,
                    _ => true,
                },
    {
    }
}

} // verus!
