use skia::builder::{BuildAction, ContextBuilder, CreationError, Purpose, Step, StepOutcome};
use skia::commands::{
    Command, FramebufferIds, FramebufferTarget, GlCommand, Platform, Resource, TextureTarget,
};
use skia::geometry::Size2D;
use skia::gl_context::GLContext;
use skia::gl_rasterization_context::GLRasterizationContext;

const PLATFORMS: [Platform; 4] = [Platform::Cgl, Platform::Glx, Platform::Egl, Platform::Wgl];

fn default_ids() -> FramebufferIds {
    FramebufferIds { framebuffer_id: 1, texture_id: 2, depth_stencil_renderbuffer_id: 3 }
}

fn surface_ids() -> FramebufferIds {
    FramebufferIds { framebuffer_id: 11, texture_id: 12, depth_stencil_renderbuffer_id: 13 }
}

/// Run a construction, answering each step with success except the step at
/// `fail_at`; returns the builder and the steps it asked for.
fn drive(mut b: ContextBuilder, ids: FramebufferIds, fail_at: Option<usize>) -> (ContextBuilder, Vec<Step>, Option<Vec<Command>>) {
    let mut asked = Vec::new();
    loop {
        match b.next_action() {
            BuildAction::Perform(step) => {
                let outcome = if fail_at == Some(asked.len()) {
                    StepOutcome::Failed
                } else {
                    match step {
                        Step::BuildFramebuffer(_) => StepOutcome::FramebufferReady(ids),
                        _ => StepOutcome::Succeeded,
                    }
                };
                asked.push(step);
                b.record(outcome);
            }
            BuildAction::Unwind(plan) => return (b, asked, Some(plan)),
            BuildAction::Finished => return (b, asked, None),
        }
    }
}

fn platform_context(platform: Platform, size: Size2D) -> GLContext {
    let (b, _, unwind) = drive(ContextBuilder::platform_context(platform, size), default_ids(), None);
    assert!(unwind.is_none());
    GLContext::new(&b).unwrap()
}

fn rasterization_context(parent: &GLContext, size: Size2D) -> GLRasterizationContext {
    let (b, _, unwind) =
        drive(ContextBuilder::rasterization_context(parent.platform(), size), surface_ids(), None);
    assert!(unwind.is_none());
    GLRasterizationContext::new(parent, &b).unwrap()
}

#[test]
fn glx_platform_context_steps() {
    let (b, asked, unwind) =
        drive(ContextBuilder::platform_context(Platform::Glx, Size2D::new(64, 64)), default_ids(), None);
    assert!(unwind.is_none());
    assert!(b.complete());
    assert_eq!(asked.len(), 7);
    assert_eq!(asked[0], Step::CreatePixmap);
    assert_eq!(asked[1], Step::CreateGlxPixmap);
    assert_eq!(asked[2], Step::CreateNativeContext);
    assert_eq!(asked[3], Step::MakeCurrent);
    assert_eq!(asked[4], Step::CreateGpuInterface);
    assert_eq!(asked[6], Step::CreateRenderContext);
}

#[test]
fn egl_and_cgl_platform_context_steps() {
    let (_, egl, _) =
        drive(ContextBuilder::platform_context(Platform::Egl, Size2D::new(64, 64)), default_ids(), None);
    assert_eq!(egl[0], Step::ChooseConfig);
    assert_eq!(egl[2], Step::CreatePbufferSurface);
    let (_, cgl, _) =
        drive(ContextBuilder::platform_context(Platform::Cgl, Size2D::new(64, 64)), default_ids(), None);
    assert_eq!(cgl.len(), 6);
    assert_eq!(cgl[2], Step::EnableRectangleTextures);
}

#[test]
fn no_gpu_gives_no_context() {
    for platform in PLATFORMS {
        let (b, _, unwind) =
            drive(ContextBuilder::platform_context(platform, Size2D::new(32, 32)), default_ids(), Some(0));
        assert!(!b.complete());
        assert_eq!(unwind, Some(vec![]));
        assert!(GLContext::new(&b).is_none());
    }
}

#[test]
fn glx_context_failure_releases_both_pixmaps() {
    let (b, _, unwind) =
        drive(ContextBuilder::platform_context(Platform::Glx, Size2D::new(32, 32)), default_ids(), Some(2));
    assert!(GLContext::new(&b).is_none());
    assert_eq!(
        unwind,
        Some(vec![Command::Release(Resource::GlxPixmap), Command::Release(Resource::Pixmap)])
    );
}

#[test]
fn egl_surface_failure_destroys_the_context() {
    let (_, _, unwind) =
        drive(ContextBuilder::platform_context(Platform::Egl, Size2D::new(32, 32)), default_ids(), Some(2));
    assert_eq!(
        unwind,
        Some(vec![Command::DropCurrent, Command::Release(Resource::NativeContext)])
    );
}

#[test]
fn late_failure_releases_everything_once() {
    let (b, _, unwind) =
        drive(ContextBuilder::platform_context(Platform::Glx, Size2D::new(32, 32)), default_ids(), Some(6));
    assert!(GLContext::new(&b).is_none());
    assert_eq!(
        unwind,
        Some(vec![
            Command::DropCurrent,
            Command::MakeCurrent,
            Command::Release(Resource::Framebuffer(default_ids())),
            Command::Release(Resource::GpuInterface),
            Command::DropCurrent,
            Command::Release(Resource::NativeContext),
            Command::Release(Resource::GlxPixmap),
            Command::Release(Resource::Pixmap),
        ])
    );
}

#[test]
fn framebuffer_step_needs_object_names() {
    let mut b = ContextBuilder::platform_context(Platform::Wgl, Size2D::new(16, 16));
    for _ in 0..3 {
        b.record(StepOutcome::Succeeded);
    }
    assert!(matches!(b.next_action(), BuildAction::Perform(Step::BuildFramebuffer(_))));
    b.record(StepOutcome::Succeeded);
    assert!(matches!(b.next_action(), BuildAction::Unwind(_)));
    assert!(b.held().framebuffer.is_none());
}

#[test]
fn finished_context_holds_everything() {
    for platform in PLATFORMS {
        let c = platform_context(platform, Size2D::new(256, 256));
        assert_eq!(c.platform(), platform);
        assert_eq!(c.size(), Size2D::new(256, 256));
        assert_eq!(c.framebuffer(), default_ids());
        assert_eq!(c.framebuffer_id(), 1);
    }
}

#[test]
fn teardown_order_on_every_platform() {
    for platform in PLATFORMS {
        let plan = platform_context(platform, Size2D::new(64, 64)).teardown();
        let at = |c: Command| plan.iter().position(|x| *x == c).unwrap();
        let fb = at(Command::Release(Resource::Framebuffer(default_ids())));
        let rc = at(Command::Release(Resource::RenderContext));
        let gi = at(Command::Release(Resource::GpuInterface));
        let nc = at(Command::Release(Resource::NativeContext));
        assert!(fb < rc && rc < gi && gi < nc);
        assert!(plan[..fb].contains(&Command::MakeCurrent));
    }
}

#[test]
fn egl_teardown_plan() {
    assert_eq!(
        platform_context(Platform::Egl, Size2D::new(64, 64)).teardown(),
        vec![
            Command::MakeCurrent,
            Command::Release(Resource::Framebuffer(default_ids())),
            Command::Release(Resource::RenderContext),
            Command::Release(Resource::GpuInterface),
            Command::DropCurrent,
            Command::Release(Resource::NativeContext),
            Command::Release(Resource::PbufferSurface),
        ]
    );
}

#[test]
fn glx_drop_then_make_current_before_destroy() {
    let c = platform_context(Platform::Glx, Size2D::new(64, 64));
    let plan = c.teardown();
    assert_eq!(plan[0], Command::DropCurrent);
    assert_eq!(plan[1], Command::MakeCurrent);
    assert_eq!(plan.len(), 9);
    assert_eq!(plan[8], Command::Release(Resource::Pixmap));
    assert_eq!(c.drop_current_context(), vec![Command::DropCurrent]);
    assert_eq!(c.make_current(), vec![Command::MakeCurrent]);
}

#[test]
fn flush_makes_current_first() {
    let c = platform_context(Platform::Cgl, Size2D::new(64, 64));
    assert_eq!(c.flush(), vec![Command::MakeCurrent, Command::Gl(GlCommand::Flush)]);
    let r = rasterization_context(&c, Size2D::new(32, 32));
    assert_eq!(r.flush(), vec![Command::MakeCurrent, Command::Gl(GlCommand::Flush)]);
    assert_eq!(r.make_current(), vec![Command::MakeCurrent]);
}

#[test]
fn rasterization_context_steps() {
    let (_, cgl, _) = drive(ContextBuilder::rasterization_context(Platform::Cgl, Size2D::new(8, 8)), surface_ids(), None);
    assert_eq!(cgl.len(), 2);
    assert_eq!(cgl[0], Step::MakeCurrent);
    match cgl[1] {
        Step::BuildFramebuffer(request) => assert_eq!(request.target, TextureTarget::Rectangle),
        _ => panic!("expected a framebuffer build"),
    }
    let (_, egl, _) = drive(ContextBuilder::rasterization_context(Platform::Egl, Size2D::new(8, 8)), surface_ids(), None);
    assert_eq!(egl.len(), 3);
    assert_eq!(egl[2], Step::ExportImage);
}

#[test]
fn export_failure_destroys_the_framebuffer() {
    let (b, _, unwind) = drive(
        ContextBuilder::rasterization_context(Platform::Egl, Size2D::new(8, 8)),
        surface_ids(),
        Some(2),
    );
    assert_eq!(b.purpose(), Purpose::RasterizationContext);
    assert_eq!(
        unwind,
        Some(vec![Command::MakeCurrent, Command::Release(Resource::Framebuffer(surface_ids()))])
    );
}

#[test]
fn rasterization_context_needs_a_matching_parent() {
    let parent = platform_context(Platform::Glx, Size2D::new(64, 64));
    let (b, _, _) = drive(ContextBuilder::rasterization_context(Platform::Egl, Size2D::new(8, 8)), surface_ids(), None);
    assert!(GLRasterizationContext::new(&parent, &b).is_none());
    let (p, _, _) = drive(ContextBuilder::platform_context(Platform::Glx, Size2D::new(8, 8)), default_ids(), None);
    assert!(GLRasterizationContext::new(&parent, &p).is_none());
    assert!(GLContext::new(&b).is_none());
}

#[test]
fn publish_leaves_parent_framebuffer_alone() {
    for platform in [Platform::Cgl, Platform::Egl, Platform::Wgl] {
        let parent = platform_context(platform, Size2D::new(256, 256));
        let r = rasterization_context(&parent, Size2D::new(128, 128));
        assert_eq!(r.size(), Size2D::new(128, 128));
        for c in r.flush_to_surface() {
            match c {
                Command::Gl(GlCommand::BindFramebuffer { framebuffer, .. }) => {
                    assert_eq!(framebuffer, 11)
                }
                Command::Gl(GlCommand::BlitColor { .. }) | Command::CopyArea { .. } => {
                    panic!("publishing touched the parent")
                }
                _ => {}
            }
        }
    }
}

#[test]
fn cgl_publish_rebinds_the_framebuffer() {
    let parent = platform_context(Platform::Cgl, Size2D::new(256, 256));
    let r = rasterization_context(&parent, Size2D::new(128, 128));
    assert_eq!(
        r.flush_to_surface(),
        vec![Command::Gl(GlCommand::BindFramebuffer { target: FramebufferTarget::Framebuffer, framebuffer: 11 })]
    );
}

#[test]
fn glx_publish_blits_then_copies_from_the_bottom() {
    let parent = platform_context(Platform::Glx, Size2D::new(256, 256));
    let r = rasterization_context(&parent, Size2D::new(128, 100));
    assert_eq!(
        r.flush_to_surface(),
        vec![
            Command::Gl(GlCommand::BindFramebuffer { target: FramebufferTarget::Read, framebuffer: 11 }),
            Command::Gl(GlCommand::BindFramebuffer { target: FramebufferTarget::Draw, framebuffer: 0 }),
            Command::Gl(GlCommand::BlitColor { width: 128, height: 100 }),
            Command::Gl(GlCommand::Finish),
            Command::DropCurrent,
            Command::CopyArea { src_x: 0, src_y: 156, width: 128, height: 100 },
        ]
    );
}

#[test]
fn egl_publish_twice_keeps_the_exported_image() {
    let parent = platform_context(Platform::Egl, Size2D::new(256, 256));
    let r = rasterization_context(&parent, Size2D::new(128, 128));
    assert!(r.has_exported_image());
    let first = r.flush_to_surface();
    let second = r.flush_to_surface();
    assert_eq!(first, second);
    assert!(r.has_exported_image());
    assert_eq!(
        first,
        vec![
            Command::Gl(GlCommand::BindFramebuffer { target: FramebufferTarget::Read, framebuffer: 11 }),
            Command::Gl(GlCommand::AttachTexture { target: TextureTarget::Texture2D, texture: 0 }),
        ]
    );
    assert!(!first.iter().any(|c| matches!(c, Command::Release(_))));
}

#[test]
fn rasterization_teardown_releases_image_then_framebuffer() {
    let parent = platform_context(Platform::Egl, Size2D::new(64, 64));
    let r = rasterization_context(&parent, Size2D::new(32, 32));
    assert_eq!(
        r.teardown(),
        vec![
            Command::MakeCurrent,
            Command::Release(Resource::ExportedImage),
            Command::Release(Resource::Framebuffer(surface_ids())),
        ]
    );
    let glx = platform_context(Platform::Glx, Size2D::new(64, 64));
    let r = rasterization_context(&glx, Size2D::new(32, 32));
    assert!(!r.has_exported_image());
    assert_eq!(
        r.teardown(),
        vec![Command::MakeCurrent, Command::Release(Resource::Framebuffer(surface_ids()))]
    );
}

#[test]
fn record_without_a_pending_step_changes_nothing() {
    let mut b = ContextBuilder::platform_context(Platform::Egl, Size2D::new(4, 4));
    b.record(StepOutcome::Failed);
    let before = b.held();
    b.record(StepOutcome::Succeeded);
    assert_eq!(b.held(), before);
    assert_eq!(b.next_action(), BuildAction::Unwind(vec![]));
    let (mut done, _, _) =
        drive(ContextBuilder::platform_context(Platform::Wgl, Size2D::new(4, 4)), default_ids(), None);
    done.record(StepOutcome::Failed);
    assert!(done.complete());
    assert_eq!(done.next_action(), BuildAction::Finished);
}

#[test]
fn each_failing_step_names_its_error() {
    let cases = [
        (Platform::Egl, 0, CreationError::ConfigurationUnavailable),
        (Platform::Glx, 2, CreationError::NativeContextCreationFailed),
        (Platform::Egl, 2, CreationError::NativeContextCreationFailed),
        (Platform::Wgl, 2, CreationError::RasterizerInterfaceUnavailable),
        (Platform::Wgl, 3, CreationError::FramebufferIncomplete),
        (Platform::Wgl, 4, CreationError::RasterizerInterfaceUnavailable),
    ];
    for (platform, at, error) in cases {
        let (b, _, _) =
            drive(ContextBuilder::platform_context(platform, Size2D::new(32, 32)), default_ids(), Some(at));
        assert_eq!(b.error(), Some(error));
    }
    let (b, _, _) = drive(
        ContextBuilder::rasterization_context(Platform::Egl, Size2D::new(32, 32)),
        surface_ids(),
        Some(2),
    );
    assert_eq!(b.error(), Some(CreationError::SurfaceBindingFailed));
    let (b, _, _) =
        drive(ContextBuilder::platform_context(Platform::Cgl, Size2D::new(32, 32)), default_ids(), None);
    assert_eq!(b.error(), None);
}
