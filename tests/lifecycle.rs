use skia::commands::{Command, FramebufferIds, Platform, Resource};
use skia::lifecycle::{release_commands, Holdings};

fn ids() -> FramebufferIds {
    FramebufferIds { framebuffer_id: 4, texture_id: 5, depth_stencil_renderbuffer_id: 6 }
}

#[test]
fn nothing_held_releases_nothing() {
    for platform in [Platform::Cgl, Platform::Glx, Platform::Egl, Platform::Wgl] {
        assert!(release_commands(platform, &Holdings::empty()).is_empty());
    }
}

#[test]
fn each_held_resource_is_released_once() {
    let h = Holdings::empty()
        .with(Resource::Pixmap)
        .with(Resource::GlxPixmap)
        .with(Resource::NativeContext)
        .with(Resource::GpuInterface)
        .with(Resource::Framebuffer(ids()));
    let plan = release_commands(Platform::Glx, &h);
    for r in [
        Resource::Pixmap,
        Resource::GlxPixmap,
        Resource::NativeContext,
        Resource::GpuInterface,
        Resource::Framebuffer(ids()),
    ] {
        assert_eq!(plan.iter().filter(|c| **c == Command::Release(r)).count(), 1);
    }
    for r in [Resource::RenderContext, Resource::PbufferSurface, Resource::ExportedImage] {
        assert_eq!(plan.iter().filter(|c| **c == Command::Release(r)).count(), 0);
    }
    assert_eq!(plan[0], Command::DropCurrent);
    assert_eq!(plan[1], Command::MakeCurrent);
}

#[test]
fn holdings_grow_one_resource_at_a_time() {
    let h = Holdings::empty().with(Resource::PbufferSurface);
    assert!(h.pbuffer_surface);
    assert!(!h.native_context);
    let h = h.with(Resource::Framebuffer(ids()));
    assert_eq!(h.framebuffer, Some(ids()));
}

#[test]
fn a_bare_native_context_is_destroyed_without_binding() {
    let h = Holdings::empty().with(Resource::NativeContext);
    assert_eq!(
        release_commands(Platform::Glx, &h),
        vec![Command::DropCurrent, Command::Release(Resource::NativeContext)]
    );
}
