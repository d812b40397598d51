//! Construction of a context as a state machine: the builder names the next
//! native step, the embedding program performs it and reports the outcome,
//! and on the first failure the builder hands back the plan that releases
//! everything acquired so far.
use vstd::prelude::*;
use crate::commands::{Command, FramebufferIds, Platform, Resource, TextureTarget};
use crate::framebuffer::{FramebufferRequest, TextureStorage};
use crate::geometry::Size2D;
use crate::lifecycle::{release_commands, release_plan, Holdings};

verus! {

/// What is being built.
#[derive(Clone, Copy, Debug, PartialEq, Eq, Structural)]
pub enum Purpose {
    /// A platform context with its default framebuffer and rasterizer handles.
    PlatformContext,
    /// A render target on a shareable surface, layered on a platform context.
    RasterizationContext,
}

/// One native step of a construction.
#[derive(Clone, Copy, Debug, PartialEq, Eq, Structural)]
pub enum Step {
    /// X11: create the pixmap that will host the context.
    CreatePixmap,
    /// GLX: create a GLX pixmap from it.
    CreateGlxPixmap,
    /// EGL: find an off-screen, ES2-renderable RGBA8 configuration.
    ChooseConfig,
    /// Create the native GPU context.
    CreateNativeContext,
    /// EGL: create a PBuffer surface of the context's size.
    CreatePbufferSurface,
    /// Bind the context to the calling thread.
    MakeCurrent,
    /// CGL: enable rectangular-texture sampling.
    EnableRectangleTextures,
    /// Create the rasterizer's GPU-interface handle.
    CreateGpuInterface,
    /// Build a framebuffer with the framebuffer builder.
    BuildFramebuffer(FramebufferRequest),
    /// Create the rasterizer's render-context handle on the GPU interface.
    CreateRenderContext,
    /// EGL: export the framebuffer's texture as an EGL image.
    ExportImage,
}

/// How a step went.
#[derive(Clone, Copy, Debug, PartialEq, Eq, Structural)]
pub enum StepOutcome {
    Succeeded,
    /// A framebuffer was built with these object names.
    FramebufferReady(FramebufferIds),
    /// The native call reported failure; a failed framebuffer build has
    /// already deleted its own objects.
    Failed,
}

/// Why a construction failed.
#[derive(Clone, Copy, Debug, PartialEq, Eq, Structural)]
pub enum CreationError {
    /// No matching pixel or surface configuration was found.
    ConfigurationUnavailable,
    /// The platform could not create the context or a drawable for it, or
    /// could not bind it.
    NativeContextCreationFailed,
    /// The rasterizer's GPU interface or render context could not be created.
    RasterizerInterfaceUnavailable,
    /// The framebuffer raised a GL error or was incomplete.
    FramebufferIncomplete,
    /// The shareable surface could not be bound or exported.
    SurfaceBindingFailed,
}

/// The error that a failure of this step reports.
pub open spec fn spec_error_of(step: Step) -> CreationError {
    match step {
        Step::ChooseConfig => CreationError::ConfigurationUnavailable,
        Step::CreateGpuInterface => CreationError::RasterizerInterfaceUnavailable,
        Step::CreateRenderContext => CreationError::RasterizerInterfaceUnavailable,
        Step::BuildFramebuffer(_) => CreationError::FramebufferIncomplete,
        Step::ExportImage => CreationError::SurfaceBindingFailed,
        _ => CreationError::NativeContextCreationFailed,
    }
}

/// The error that a failure of this step reports.
pub fn error_of(step: Step) -> (r: CreationError)
    ensures
        r == spec_error_of(step),
{
    match step {
        Step::ChooseConfig => CreationError::ConfigurationUnavailable,
        Step::CreateGpuInterface => CreationError::RasterizerInterfaceUnavailable,
        Step::CreateRenderContext => CreationError::RasterizerInterfaceUnavailable,
        Step::BuildFramebuffer(_) => CreationError::FramebufferIncomplete,
        Step::ExportImage => CreationError::SurfaceBindingFailed,
        _ => CreationError::NativeContextCreationFailed,
    }
}

/// What the embedding program does next.
#[derive(Clone, Debug, PartialEq, Eq)]
pub enum BuildAction {
    /// Perform this step and report its outcome.
    Perform(Step),
    /// Construction failed: run these commands and give up.
    Unwind(Vec<Command>),
    /// Every step succeeded.
    Finished,
}

pub open spec fn default_framebuffer_request(size: Size2D) -> FramebufferRequest {
    FramebufferRequest { target: TextureTarget::Texture2D, storage: TextureStorage::Plain, size }
}

/// On CGL the texture's storage is the shareable surface itself; elsewhere it
/// is plain storage whose pixels are copied or exported when published.
pub open spec fn surface_framebuffer_request(platform: Platform, size: Size2D) -> FramebufferRequest {
    match platform {
        Platform::Cgl => FramebufferRequest {
            target: TextureTarget::Rectangle,
            storage: TextureStorage::SharedSurface,
            size,
        },
        _ => default_framebuffer_request(size),
    }
}

/// The native part of a platform context: its drawables and its context.
pub open spec fn native_steps(platform: Platform) -> Seq<Step> {
    match platform {
        Platform::Glx => seq![Step::CreatePixmap, Step::CreateGlxPixmap, Step::CreateNativeContext],
        Platform::Egl => seq![Step::ChooseConfig, Step::CreateNativeContext, Step::CreatePbufferSurface],
        _ => seq![Step::CreateNativeContext],
    }
}

/// Steps of a platform context: native context, made current, then the
/// rasterizer's GPU interface, the default framebuffer and the render context.
pub open spec fn platform_context_steps(platform: Platform, size: Size2D) -> Seq<Step> {
    native_steps(platform) + seq![Step::MakeCurrent] + (if platform == Platform::Cgl {
        seq![Step::EnableRectangleTextures]
    } else {
        seq![]
    }) + seq![
        Step::CreateGpuInterface,
        Step::BuildFramebuffer(default_framebuffer_request(size)),
        Step::CreateRenderContext,
    ]
}

/// Steps of a rasterization context: the parent made current, the
/// framebuffer, and on EGL the image exported from its texture.
pub open spec fn rasterization_context_steps(platform: Platform, size: Size2D) -> Seq<Step> {
    seq![Step::MakeCurrent, Step::BuildFramebuffer(surface_framebuffer_request(platform, size))]
        + if platform == Platform::Egl {
        seq![Step::ExportImage]
    } else {
        seq![]
    }
}

pub open spec fn steps_for(purpose: Purpose, platform: Platform, size: Size2D) -> Seq<Step> {
    match purpose {
        Purpose::PlatformContext => platform_context_steps(platform, size),
        Purpose::RasterizationContext => rasterization_context_steps(platform, size),
    }
}

/// The outcome is a success of this step.
pub open spec fn accepts(step: Step, outcome: StepOutcome) -> bool {
    match step {
        Step::BuildFramebuffer(_) => outcome is FramebufferReady,
        _ => outcome is Succeeded,
    }
}

/// What a successful step leaves the context holding.
pub open spec fn after_step(h: Holdings, step: Step, outcome: StepOutcome) -> Holdings {
    match step {
        Step::CreatePixmap => h.spec_with(Resource::Pixmap),
        Step::CreateGlxPixmap => h.spec_with(Resource::GlxPixmap),
        Step::CreateNativeContext => h.spec_with(Resource::NativeContext),
        Step::CreatePbufferSurface => h.spec_with(Resource::PbufferSurface),
        Step::CreateGpuInterface => h.spec_with(Resource::GpuInterface),
        Step::BuildFramebuffer(_) => match outcome {
            StepOutcome::FramebufferReady(ids) => h.spec_with(Resource::Framebuffer(ids)),
            _ => h,
        },
        Step::CreateRenderContext => h.spec_with(Resource::RenderContext),
        Step::ExportImage => h.spec_with(Resource::ExportedImage),
        _ => h,
    }
}

/// The resource that a step acquires is held.
pub open spec fn step_held(step: Step, h: Holdings) -> bool {
    match step {
        Step::CreatePixmap => h.pixmap,
        Step::CreateGlxPixmap => h.glx_pixmap,
        Step::CreateNativeContext => h.native_context,
        Step::CreatePbufferSurface => h.pbuffer_surface,
        Step::CreateGpuInterface => h.gpu_interface,
        Step::BuildFramebuffer(_) => h.framebuffer.is_some(),
        Step::CreateRenderContext => h.render_context,
        Step::ExportImage => h.exported_image,
        _ => true,
    }
}

/// Everything a finished context of this purpose must hold.
pub open spec fn fully_initialized(purpose: Purpose, platform: Platform, h: Holdings) -> bool {
    match purpose {
        Purpose::PlatformContext => {
            &&& h.native_context
            &&& h.gpu_interface
            &&& h.render_context
            &&& h.framebuffer.is_some()
            &&& platform == Platform::Glx ==> h.pixmap && h.glx_pixmap
            &&& platform == Platform::Egl ==> h.pbuffer_surface
        },
        Purpose::RasterizationContext => {
            &&& h.framebuffer.is_some()
            &&& platform == Platform::Egl ==> h.exported_image
        },
    }
}

/// Only resources that some step of this purpose acquires are held.
pub open spec fn held_only_from(purpose: Purpose, platform: Platform, h: Holdings) -> bool {
    &&& h.pixmap ==> purpose == Purpose::PlatformContext && platform == Platform::Glx
    &&& h.glx_pixmap ==> purpose == Purpose::PlatformContext && platform == Platform::Glx
    &&& h.pbuffer_surface ==> purpose == Purpose::PlatformContext && platform == Platform::Egl
    &&& h.native_context ==> purpose == Purpose::PlatformContext
    &&& h.gpu_interface ==> purpose == Purpose::PlatformContext
    &&& h.render_context ==> purpose == Purpose::PlatformContext
    &&& h.exported_image ==> purpose == Purpose::RasterizationContext && platform == Platform::Egl
}

/// A step of a construction acquires only what its purpose allows.
proof fn lemma_step_keeps_holdings_allowed(
    purpose: Purpose,
    platform: Platform,
    size: Size2D,
    i: int,
    h: Holdings,
    outcome: StepOutcome,
)
    requires
        0 <= i < steps_for(purpose, platform, size).len(),
        held_only_from(purpose, platform, h),
    ensures
        held_only_from(
            purpose,
            platform,
            after_step(h, steps_for(purpose, platform, size)[i], outcome),
        ),
{
}

/// A construction in progress.
pub struct ContextBuilder {
    purpose: Purpose,
    platform: Platform,
    size: Size2D,
    steps: Vec<Step>,
    next: usize,
    held: Holdings,
    failed: bool,
}

impl ContextBuilder {
    #[verifier::type_invariant]
    pub(crate) open spec fn inv(self) -> bool {
        self.wf()
    }

    pub closed spec fn spec_purpose(&self) -> Purpose {
        self.purpose
    }

    pub closed spec fn spec_platform(&self) -> Platform {
        self.platform
    }

    pub closed spec fn spec_size(&self) -> Size2D {
        self.size
    }

    /// The steps of the construction, in order.
    pub closed spec fn spec_steps(&self) -> Seq<Step> {
        self.steps@
    }

    /// How many steps have succeeded.
    pub closed spec fn spec_next(&self) -> nat {
        self.next as nat
    }

    pub closed spec fn spec_held(&self) -> Holdings {
        self.held
    }

    pub closed spec fn spec_failed(&self) -> bool {
        self.failed
    }

    pub open spec fn is_complete(&self) -> bool {
        !self.spec_failed() && self.spec_next() == self.spec_steps().len()
    }

    /// The builder's invariant: it follows the steps of its purpose, and
    /// every step that succeeded left its resource held.
    pub open spec fn wf(&self) -> bool {
        &&& self.spec_size().is_valid()
        &&& self.spec_steps() == steps_for(self.spec_purpose(), self.spec_platform(), self.spec_size())
        &&& held_only_from(self.spec_purpose(), self.spec_platform(), self.spec_held())
        &&& self.spec_next() <= self.spec_steps().len()
        &&& self.spec_failed() ==> self.spec_next() < self.spec_steps().len()
        &&& forall|i: int|
            0 <= i < self.spec_next() ==> step_held(#[trigger] self.spec_steps()[i], self.spec_held())
    }

    fn with_steps(purpose: Purpose, platform: Platform, size: Size2D, steps: Vec<Step>) -> (r:
        ContextBuilder)
        requires
            size.is_valid(),
            steps@ == steps_for(purpose, platform, size),
        ensures
            r.wf(),
            r.spec_purpose() == purpose,
            r.spec_platform() == platform,
            r.spec_size() == size,
            r.spec_next() == 0,
            r.spec_held().is_empty(),
            !r.spec_failed(),
    {
        ContextBuilder { purpose, platform, size, steps, next: 0, held: Holdings::empty(), failed: false }
    }

    /// Start building a platform context of the given size.
    pub fn platform_context(platform: Platform, size: Size2D) -> (r: ContextBuilder)
        requires
            size.is_valid(),
        ensures
            r.wf(),
            r.spec_purpose() == Purpose::PlatformContext,
            r.spec_platform() == platform,
            r.spec_size() == size,
            r.spec_next() == 0,
            r.spec_held().is_empty(),
            !r.spec_failed(),
    {
        let mut steps: Vec<Step> = Vec::new();
        match platform {
            Platform::Glx => {
                steps.push(Step::CreatePixmap);
                steps.push(Step::CreateGlxPixmap);
                steps.push(Step::CreateNativeContext);
            },
            Platform::Egl => {
                steps.push(Step::ChooseConfig);
                steps.push(Step::CreateNativeContext);
                steps.push(Step::CreatePbufferSurface);
            },
            _ => {
                steps.push(Step::CreateNativeContext);
            },
        }
        steps.push(Step::MakeCurrent);
        match platform {
            Platform::Cgl => steps.push(Step::EnableRectangleTextures),
            _ => {},
        }
        steps.push(Step::CreateGpuInterface);
        steps.push(
            Step::BuildFramebuffer(
                FramebufferRequest {
                    target: TextureTarget::Texture2D,
                    storage: TextureStorage::Plain,
                    size,
                },
            ),
        );
        steps.push(Step::CreateRenderContext);
        assert(steps@ =~= platform_context_steps(platform, size));
        ContextBuilder::with_steps(Purpose::PlatformContext, platform, size, steps)
    }

    /// Start building a rasterization context of the given size on a
    /// platform context of the given platform.
    pub fn rasterization_context(platform: Platform, size: Size2D) -> (r: ContextBuilder)
        requires
            size.is_valid(),
        ensures
            r.wf(),
            r.spec_purpose() == Purpose::RasterizationContext,
            r.spec_platform() == platform,
            r.spec_size() == size,
            r.spec_next() == 0,
            r.spec_held().is_empty(),
            !r.spec_failed(),
    {
        let mut steps: Vec<Step> = Vec::new();
        steps.push(Step::MakeCurrent);
        let request = match platform {
            Platform::Cgl => FramebufferRequest {
                target: TextureTarget::Rectangle,
                storage: TextureStorage::SharedSurface,
                size,
            },
            _ => FramebufferRequest {
                target: TextureTarget::Texture2D,
                storage: TextureStorage::Plain,
                size,
            },
        };
        steps.push(Step::BuildFramebuffer(request));
        match platform {
            Platform::Egl => steps.push(Step::ExportImage),
            _ => {},
        }
        assert(steps@ =~= rasterization_context_steps(platform, size));
        ContextBuilder::with_steps(Purpose::RasterizationContext, platform, size, steps)
    }

    pub fn purpose(&self) -> (r: Purpose)
        ensures
            r == self.spec_purpose(),
    {
        self.purpose
    }

    pub fn platform(&self) -> (r: Platform)
        ensures
            r == self.spec_platform(),
    {
        self.platform
    }

    pub fn size(&self) -> (r: Size2D)
        ensures
            r == self.spec_size(),
    {
        self.size
    }

    /// What the construction holds so far.
    pub fn held(&self) -> (r: Holdings)
        ensures
            r == self.spec_held(),
    {
        self.held
    }

    /// Every step succeeded.
    pub fn complete(&self) -> (r: bool)
        ensures
            r == self.is_complete(),
    {
        !self.failed && self.next == self.steps.len()
    }

    /// Why the construction failed: the error of the step that failed, or
    /// none while no step has failed.
    pub fn error(&self) -> (r: Option<CreationError>)
        ensures
            r == (if self.spec_failed() {
                Some(spec_error_of(self.spec_steps()[self.spec_next() as int]))
            } else {
                None
            }),
    {
        proof {
            use_type_invariant(self);
        }
        if self.failed {
            Some(error_of(self.steps[self.next]))
        } else {
            None
        }
    }

    /// The next thing to do: the next step while all went well, the release
    /// of everything held once a step failed, and nothing more once every
    /// step succeeded.
    pub fn next_action(&self) -> (r: BuildAction)
        ensures
            self.spec_failed() ==> (r matches BuildAction::Unwind(plan) && plan@ == release_plan(
                self.spec_platform(),
                self.spec_held(),
            )),
            !self.spec_failed() && self.spec_next() < self.spec_steps().len() ==> r
                == BuildAction::Perform(self.spec_steps()[self.spec_next() as int]),
            self.is_complete() ==> r == BuildAction::Finished,
    {
        proof {
            use_type_invariant(self);
        }
        if self.failed {
            BuildAction::Unwind(release_commands(self.platform, &self.held))
        } else if self.next < self.steps.len() {
            BuildAction::Perform(self.steps[self.next])
        } else {
            BuildAction::Finished
        }
    }

    /// Record the outcome of the step that `next_action` asked for. A success
    /// moves on and holds what the step acquired; anything else marks the
    /// construction failed and holds nothing more. With no step pending (the
    /// construction failed or finished) nothing changes.
    pub fn record(&mut self, outcome: StepOutcome)
        ensures
            final(self).wf(),
            final(self).spec_purpose() == old(self).spec_purpose(),
            final(self).spec_platform() == old(self).spec_platform(),
            final(self).spec_size() == old(self).spec_size(),
            old(self).spec_failed() || old(self).spec_next() >= old(self).spec_steps().len() ==> {
                &&& final(self).spec_failed() == old(self).spec_failed()
                &&& final(self).spec_next() == old(self).spec_next()
                &&& final(self).spec_held() == old(self).spec_held()
            },
            !old(self).spec_failed() && old(self).spec_next() < old(self).spec_steps().len()
                && accepts(old(self).spec_steps()[old(self).spec_next() as int], outcome) ==> {
                &&& !final(self).spec_failed()
                &&& final(self).spec_next() == old(self).spec_next() + 1
                &&& final(self).spec_held() == after_step(
                    old(self).spec_held(),
                    old(self).spec_steps()[old(self).spec_next() as int],
                    outcome,
                )
            },
            !old(self).spec_failed() && old(self).spec_next() < old(self).spec_steps().len()
                && !accepts(old(self).spec_steps()[old(self).spec_next() as int], outcome) ==> {
                &&& final(self).spec_failed()
                &&& final(self).spec_next() == old(self).spec_next()
                &&& final(self).spec_held() == old(self).spec_held()
            },
    {
        proof {
            use_type_invariant(&*self);
        }
        if self.failed || self.next >= self.steps.len() {
            return;
        }
        let step = self.steps[self.next];
        let gained: Option<Resource> = match (step, outcome) {
            (Step::BuildFramebuffer(_), StepOutcome::FramebufferReady(ids)) => Some(
                Resource::Framebuffer(ids),
            ),
            (Step::BuildFramebuffer(_), _) => None,
            (_, StepOutcome::Succeeded) => match step {
                Step::CreatePixmap => Some(Resource::Pixmap),
                Step::CreateGlxPixmap => Some(Resource::GlxPixmap),
                Step::CreateNativeContext => Some(Resource::NativeContext),
                Step::CreatePbufferSurface => Some(Resource::PbufferSurface),
                Step::CreateGpuInterface => Some(Resource::GpuInterface),
                Step::CreateRenderContext => Some(Resource::RenderContext),
                Step::ExportImage => Some(Resource::ExportedImage),
                _ => None,
            },
            (_, _) => None,
        };
        let accepted = match (step, outcome) {
            (Step::BuildFramebuffer(_), StepOutcome::FramebufferReady(_)) => true,
            (Step::BuildFramebuffer(_), _) => false,
            (_, StepOutcome::Succeeded) => true,
            (_, _) => false,
        };
        if accepted {
            let ghost prev = self.held;
            let held = match gained {
                Some(r) => self.held.with(r),
                None => self.held,
            };
            assert(held == after_step(prev, step, outcome));
            proof {
                lemma_step_keeps_holdings_allowed(
                    self.purpose,
                    self.platform,
                    self.size,
                    self.next as int,
                    prev,
                    outcome,
                );
            }
            self.held = held;
            assert forall|i: int| 0 <= i < self.next + 1 implies step_held(
                #[trigger] self.steps@[i],
                self.held,
            ) by {
                if i < self.next {
                    assert(step_held(self.steps@[i], prev));
                }
            }
            self.next = self.next + 1;
        } else {
            self.failed = true;
        }
    }

    /// A construction is all or nothing: once every step succeeded, the
    /// context holds every resource that its purpose needs; once one failed,
    /// the plan it hands back releases each held resource exactly once and
    /// nothing else.
    pub proof fn lemma_all_or_nothing(&self)
        requires
            self.wf(),
        ensures
            self.is_complete() ==> fully_initialized(
                self.spec_purpose(),
                self.spec_platform(),
                self.spec_held(),
            ),
            forall|r: Resource|
                #[trigger] crate::lifecycle::release_count(
                    release_plan(self.spec_platform(), self.spec_held()),
                    r,
                ) == if self.spec_held().holds(r) {
                    1nat
                } else {
                    0nat
                },
    {
        crate::lifecycle::lemma_release_plan_exact(self.spec_platform(), self.spec_held());
        if self.is_complete() {
            let s = self.spec_steps();
            let h = self.spec_held();
            assert(forall|i: int| 0 <= i < s.len() ==> step_held(#[trigger] s[i], h));
            match self.spec_purpose() {
                Purpose::PlatformContext => {
                    let n = native_steps(self.spec_platform()).len();
                    let extra: int = if self.spec_platform() == Platform::Cgl {
                        1
                    } else {
                        0
                    };
                    assert(step_held(s[n + 1 + extra], h));
                    assert(step_held(s[n + 2 + extra], h));
                    assert(step_held(s[n + 3 + extra], h));
                    assert(step_held(s[n - 1], h));
                    if self.spec_platform() == Platform::Glx || self.spec_platform() == Platform::Egl {
                        assert(step_held(s[0], h));
                        assert(step_held(s[1], h));
                        assert(step_held(s[2], h));
                    }
                },
                Purpose::RasterizationContext => {
                    assert(step_held(s[1], h));
                    if self.spec_platform() == Platform::Egl {
                        assert(step_held(s[2], h));
                    }
                },
            }
        }
    }
}

} // verus!
