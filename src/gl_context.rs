//! A platform context: a native GPU context made current on demand, its
//! default framebuffer, and the rasterizer's GPU-interface and render-context
//! handles.
use vstd::prelude::*;
use crate::builder::{fully_initialized, held_only_from, ContextBuilder, Purpose};
use crate::commands::{Command, FramebufferIds, GlCommand, Platform, Resource};
use crate::geometry::Size2D;
use crate::lifecycle::{release_commands, release_plan, Holdings};

verus! {

pub struct GLContext {
    platform: Platform,
    size: Size2D,
    framebuffer: FramebufferIds,
    held: Holdings,
}

impl GLContext {
    #[verifier::type_invariant]
    pub(crate) open spec fn inv(self) -> bool {
        self.wf()
    }

    pub closed spec fn spec_platform(&self) -> Platform {
        self.platform
    }

    pub closed spec fn spec_size(&self) -> Size2D {
        self.size
    }

    /// The default framebuffer.
    pub closed spec fn spec_framebuffer(&self) -> FramebufferIds {
        self.framebuffer
    }

    pub closed spec fn spec_held(&self) -> Holdings {
        self.held
    }

    /// A live platform context holds its native context, both rasterizer
    /// handles, its drawables and its default framebuffer, and nothing that
    /// only a rasterization context holds.
    pub open spec fn wf(&self) -> bool {
        &&& self.spec_size().is_valid()
        &&& fully_initialized(Purpose::PlatformContext, self.spec_platform(), self.spec_held())
        &&& held_only_from(Purpose::PlatformContext, self.spec_platform(), self.spec_held())
        &&& self.spec_held().framebuffer == Some(self.spec_framebuffer())
    }

    /// The commands that tear the context down.
    pub open spec fn teardown_plan(&self) -> Seq<Command> {
        release_plan(self.spec_platform(), self.spec_held())
    }

    /// The context that a finished construction produced; none unless every
    /// step of a platform-context construction succeeded.
    pub fn new(builder: &ContextBuilder) -> (r: Option<GLContext>)
        ensures
            r is Some <==> builder.is_complete() && builder.spec_purpose()
                == Purpose::PlatformContext,
            r matches Some(c) ==> {
                &&& c.wf()
                &&& c.spec_platform() == builder.spec_platform()
                &&& c.spec_size() == builder.spec_size()
                &&& c.spec_held() == builder.spec_held()
            },
    {
        proof {
            use_type_invariant(builder);
        }
        if !builder.complete() {
            return None;
        }
        match builder.purpose() {
            Purpose::PlatformContext => {},
            Purpose::RasterizationContext => {
                return None;
            },
        }
        proof {
            builder.lemma_all_or_nothing();
        }
        let held = builder.held();
        match held.framebuffer {
            Some(framebuffer) => Some(
                GLContext { platform: builder.platform(), size: builder.size(), framebuffer, held },
            ),
            None => None,
        }
    }

    pub fn platform(&self) -> (r: Platform)
        ensures
            r == self.spec_platform(),
    {
        self.platform
    }

    /// The size the context was created with.
    pub fn size(&self) -> (r: Size2D)
        ensures
            r == self.spec_size(),
    {
        self.size
    }

    /// The default framebuffer's object names.
    pub fn framebuffer(&self) -> (r: FramebufferIds)
        ensures
            r == self.spec_framebuffer(),
    {
        self.framebuffer
    }

    /// The default framebuffer, a render target for drawing code.
    pub fn framebuffer_id(&self) -> (r: u32)
        ensures
            r == self.spec_framebuffer().framebuffer_id,
    {
        self.framebuffer.framebuffer_id
    }

    /// Bind the context to the calling thread.
    pub fn make_current(&self) -> (r: Vec<Command>)
        ensures
            r@ == seq![Command::MakeCurrent],
    {
        let mut commands: Vec<Command> = Vec::new();
        commands.push(Command::MakeCurrent);
        assert(commands@ =~= seq![Command::MakeCurrent]);
        commands
    }

    /// Unbind any context from the calling thread.
    pub fn drop_current_context(&self) -> (r: Vec<Command>)
        ensures
            r@ == seq![Command::DropCurrent],
    {
        let mut commands: Vec<Command> = Vec::new();
        commands.push(Command::DropCurrent);
        assert(commands@ =~= seq![Command::DropCurrent]);
        commands
    }

    /// Make the context current, then flush the GPU.
    pub fn flush(&self) -> (r: Vec<Command>)
        ensures
            r@ == seq![Command::MakeCurrent, Command::Gl(GlCommand::Flush)],
    {
        let mut commands: Vec<Command> = Vec::new();
        commands.push(Command::MakeCurrent);
        commands.push(Command::Gl(GlCommand::Flush));
        assert(commands@ =~= seq![Command::MakeCurrent, Command::Gl(GlCommand::Flush)]);
        commands
    }

    /// The commands that destroy the context: every resource it holds is
    /// released once, in the order of `release_plan`.
    pub fn teardown(&self) -> (r: Vec<Command>)
        ensures
            r@ == self.teardown_plan(),
    {
        release_commands(self.platform, &self.held)
    }

    /// Teardown order, on every platform: with the context current, the
    /// default framebuffer is destroyed before the render context is
    /// released, the render context before the GPU interface, and the GPU
    /// interface before the native context is destroyed. On GLX the plan
    /// starts by dropping and binding the context again.
    pub proof fn lemma_teardown_order(&self)
        requires
            self.wf(),
        ensures
            self.teardown_plan()[0] == (if self.spec_platform() == Platform::Glx {
                Command::DropCurrent
            } else {
                Command::MakeCurrent
            }),
            self.spec_platform() == Platform::Glx ==> self.teardown_plan()[1]
                == Command::MakeCurrent,
            exists|i: int, j: int, k: int, l: int|
                0 <= i < j < k < l < self.teardown_plan().len() && self.teardown_plan()[i]
                    == Command::Release(Resource::Framebuffer(self.spec_framebuffer()))
                    && self.teardown_plan()[j] == Command::Release(Resource::RenderContext)
                    && self.teardown_plan()[k] == Command::Release(Resource::GpuInterface)
                    && self.teardown_plan()[l] == Command::Release(Resource::NativeContext),
    {
        let p = self.teardown_plan();
        let i: int = if self.spec_platform() == Platform::Glx {
            2
        } else {
            1
        };
        assert(p[i] == Command::Release(Resource::Framebuffer(self.spec_framebuffer())));
        assert(p[i + 1] == Command::Release(Resource::RenderContext));
        assert(p[i + 2] == Command::Release(Resource::GpuInterface));
        assert(p[i + 4] == Command::Release(Resource::NativeContext));
    }
}

} // verus!
