//! What a context holds, and how it lets go of it: one release plan serves
//! both the unwinding of a failed construction and the final teardown.
use vstd::prelude::*;
use crate::commands::{Command, FramebufferIds, Platform, Resource};

verus! {

/// The native resources that a context holds at some moment.
#[derive(Clone, Copy, Debug, PartialEq, Eq)]
pub struct Holdings {
    pub pixmap: bool,
    pub glx_pixmap: bool,
    pub pbuffer_surface: bool,
    pub native_context: bool,
    pub gpu_interface: bool,
    pub render_context: bool,
    pub framebuffer: Option<FramebufferIds>,
    pub exported_image: bool,
}

impl Holdings {
    pub open spec fn holds(self, r: Resource) -> bool {
        match r {
            Resource::Pixmap => self.pixmap,
            Resource::GlxPixmap => self.glx_pixmap,
            Resource::PbufferSurface => self.pbuffer_surface,
            Resource::NativeContext => self.native_context,
            Resource::GpuInterface => self.gpu_interface,
            Resource::RenderContext => self.render_context,
            Resource::Framebuffer(ids) => self.framebuffer == Some(ids),
            Resource::ExportedImage => self.exported_image,
        }
    }

    pub open spec fn spec_with(self, r: Resource) -> Holdings {
        match r {
            Resource::Pixmap => Holdings { pixmap: true, ..self },
            Resource::GlxPixmap => Holdings { glx_pixmap: true, ..self },
            Resource::PbufferSurface => Holdings { pbuffer_surface: true, ..self },
            Resource::NativeContext => Holdings { native_context: true, ..self },
            Resource::GpuInterface => Holdings { gpu_interface: true, ..self },
            Resource::RenderContext => Holdings { render_context: true, ..self },
            Resource::Framebuffer(ids) => Holdings { framebuffer: Some(ids), ..self },
            Resource::ExportedImage => Holdings { exported_image: true, ..self },
        }
    }

    pub open spec fn is_empty(self) -> bool {
        &&& !self.pixmap && !self.glx_pixmap && !self.pbuffer_surface && !self.native_context
        &&& !self.gpu_interface && !self.render_context && self.framebuffer.is_none()
        &&& !self.exported_image
    }

    /// A GL object or a rasterizer handle is held, so a context must be
    /// current to release it.
    pub open spec fn needs_current(self) -> bool {
        self.gpu_interface || self.render_context || self.framebuffer.is_some()
            || self.exported_image
    }

    /// Nothing held.
    pub fn empty() -> (r: Holdings)
        ensures
            r.is_empty(),
    {
        Holdings {
            pixmap: false,
            glx_pixmap: false,
            pbuffer_surface: false,
            native_context: false,
            gpu_interface: false,
            render_context: false,
            framebuffer: None,
            exported_image: false,
        }
    }

    /// The same holdings with `r` added.
    pub fn with(self, r: Resource) -> (h: Holdings)
        ensures
            h == self.spec_with(r),
    {
        match r {
            Resource::Pixmap => Holdings { pixmap: true, ..self },
            Resource::GlxPixmap => Holdings { glx_pixmap: true, ..self },
            Resource::PbufferSurface => Holdings { pbuffer_surface: true, ..self },
            Resource::NativeContext => Holdings { native_context: true, ..self },
            Resource::GpuInterface => Holdings { gpu_interface: true, ..self },
            Resource::RenderContext => Holdings { render_context: true, ..self },
            Resource::Framebuffer(ids) => Holdings { framebuffer: Some(ids), ..self },
            Resource::ExportedImage => Holdings { exported_image: true, ..self },
        }
    }
}

pub open spec fn when(b: bool, c: Command) -> Seq<Command> {
    if b {
        seq![c]
    } else {
        seq![]
    }
}

pub open spec fn framebuffer_release(h: Holdings) -> Seq<Command> {
    match h.framebuffer {
        Some(ids) => seq![Command::Release(Resource::Framebuffer(ids))],
        None => seq![],
    }
}

/// Release everything held. On GLX a context about to be made current for
/// its last time is first dropped. GL objects and rasterizer handles are
/// released with a context current: the exported image, then the framebuffer, then the rasterizer's
/// render context and GPU interface; then the native context is unbound and
/// destroyed; the drawables that hosted it go last.
pub open spec fn release_plan(platform: Platform, h: Holdings) -> Seq<Command> {
    when(h.native_context && h.needs_current() && platform == Platform::Glx, Command::DropCurrent)
        + when(
        h.needs_current(),
        Command::MakeCurrent,
    ) + when(h.exported_image, Command::Release(Resource::ExportedImage)) + framebuffer_release(h)
        + when(h.render_context, Command::Release(Resource::RenderContext)) + when(
        h.gpu_interface,
        Command::Release(Resource::GpuInterface),
    ) + when(h.native_context, Command::DropCurrent) + when(
        h.native_context,
        Command::Release(Resource::NativeContext),
    ) + when(h.pbuffer_surface, Command::Release(Resource::PbufferSurface)) + when(
        h.glx_pixmap,
        Command::Release(Resource::GlxPixmap),
    ) + when(h.pixmap, Command::Release(Resource::Pixmap))
}

/// How many commands of `plan` release `r`.
#[verifier::opaque]
pub open spec fn release_count(plan: Seq<Command>, r: Resource) -> nat
    decreases plan.len(),
{
    if plan.len() == 0 {
        0
    } else {
        release_count(plan.drop_last(), r) + if plan.last() == Command::Release(r) {
            1nat
        } else {
            0nat
        }
    }
}

proof fn lemma_release_count_concat(a: Seq<Command>, b: Seq<Command>, r: Resource)
    ensures
        release_count(a + b, r) == release_count(a, r) + release_count(b, r),
    decreases b.len(),
{
    reveal(release_count);
    if b.len() == 0 {
        assert(a + b =~= a);
    } else {
        assert((a + b).drop_last() =~= a + b.drop_last());
        lemma_release_count_concat(a, b.drop_last(), r);
    }
}

proof fn lemma_release_count_when(b: bool, c: Command, r: Resource)
    ensures
        release_count(when(b, c), r) == if b && c == Command::Release(r) {
            1nat
        } else {
            0nat
        },
{
    reveal_with_fuel(release_count, 2);
    let s = when(b, c);
    assert(release_count(Seq::<Command>::empty(), r) == 0);
    if b {
        assert(s.drop_last() =~= Seq::<Command>::empty());
        assert(s.last() == c);
    } else {
        assert(s =~= Seq::<Command>::empty());
    }
}

proof fn lemma_release_plan_count(platform: Platform, h: Holdings, r: Resource)
    ensures
        release_count(release_plan(platform, h), r) == if h.holds(r) {
            1nat
        } else {
            0nat
        },
{
    let p1 = when(
        h.native_context && h.needs_current() && platform == Platform::Glx,
        Command::DropCurrent,
    );
    let p2 = when(h.needs_current(), Command::MakeCurrent);
    let p3 = when(h.exported_image, Command::Release(Resource::ExportedImage));
    let p4 = framebuffer_release(h);
    let p5 = when(h.render_context, Command::Release(Resource::RenderContext));
    let p6 = when(h.gpu_interface, Command::Release(Resource::GpuInterface));
    let p7 = when(h.native_context, Command::DropCurrent);
    let p8 = when(h.native_context, Command::Release(Resource::NativeContext));
    let p9 = when(h.pbuffer_surface, Command::Release(Resource::PbufferSurface));
    let p10 = when(h.glx_pixmap, Command::Release(Resource::GlxPixmap));
    let p11 = when(h.pixmap, Command::Release(Resource::Pixmap));
    let q2 = p1 + p2;
    let q3 = q2 + p3;
    let q4 = q3 + p4;
    let q5 = q4 + p5;
    let q6 = q5 + p6;
    let q7 = q6 + p7;
    let q8 = q7 + p8;
    let q9 = q8 + p9;
    let q10 = q9 + p10;
    let q11 = q10 + p11;
    assert(release_plan(platform, h) == q11);
    lemma_release_count_concat(p1, p2, r);
    lemma_release_count_concat(q2, p3, r);
    lemma_release_count_concat(q3, p4, r);
    lemma_release_count_concat(q4, p5, r);
    lemma_release_count_concat(q5, p6, r);
    lemma_release_count_concat(q6, p7, r);
    lemma_release_count_concat(q7, p8, r);
    lemma_release_count_concat(q8, p9, r);
    lemma_release_count_concat(q9, p10, r);
    lemma_release_count_concat(q10, p11, r);
    lemma_release_count_when(
        h.native_context && h.needs_current() && platform == Platform::Glx,
        Command::DropCurrent,
        r,
    );
    lemma_release_count_when(h.needs_current(), Command::MakeCurrent, r);
    lemma_release_count_when(h.exported_image, Command::Release(Resource::ExportedImage), r);
    match h.framebuffer {
        Some(ids) => {
            assert(p4 == when(true, Command::Release(Resource::Framebuffer(ids))));
            lemma_release_count_when(true, Command::Release(Resource::Framebuffer(ids)), r);
        },
        None => {
            assert(p4 == when(false, Command::MakeCurrent));
            lemma_release_count_when(false, Command::MakeCurrent, r);
        },
    }
    lemma_release_count_when(h.render_context, Command::Release(Resource::RenderContext), r);
    lemma_release_count_when(h.gpu_interface, Command::Release(Resource::GpuInterface), r);
    lemma_release_count_when(h.native_context, Command::DropCurrent, r);
    lemma_release_count_when(h.native_context, Command::Release(Resource::NativeContext), r);
    lemma_release_count_when(h.pbuffer_surface, Command::Release(Resource::PbufferSurface), r);
    lemma_release_count_when(h.glx_pixmap, Command::Release(Resource::GlxPixmap), r);
    lemma_release_count_when(h.pixmap, Command::Release(Resource::Pixmap), r);
}

/// Nothing leaks and nothing is released twice: the release plan releases
/// each held resource exactly once and no other resource.
pub proof fn lemma_release_plan_exact(platform: Platform, h: Holdings)
    ensures
        forall|r: Resource|
            #[trigger] release_count(release_plan(platform, h), r) == if h.holds(r) {
                1nat
            } else {
                0nat
            },
{
    assert forall|r: Resource|
        #[trigger] release_count(release_plan(platform, h), r) == if h.holds(r) {
            1nat
        } else {
            0nat
        } by {
        lemma_release_plan_count(platform, h, r);
    }
}

fn push_when(plan: &mut Vec<Command>, b: bool, c: Command)
    ensures
        final(plan)@ == old(plan)@ + when(b, c),
{
    if b {
        plan.push(c);
    }
    assert(plan@ =~= old(plan)@ + when(b, c));
}

/// The commands that release everything `h` holds, in the order of
/// `release_plan`.
pub fn release_commands(platform: Platform, h: &Holdings) -> (r: Vec<Command>)
    ensures
        r@ == release_plan(platform, *h),
{
    let mut plan: Vec<Command> = Vec::new();
    let glx = match platform {
        Platform::Glx => true,
        _ => false,
    };
    let needs_current = h.gpu_interface || h.render_context || h.framebuffer.is_some()
        || h.exported_image;
    push_when(&mut plan, h.native_context && needs_current && glx, Command::DropCurrent);
    push_when(&mut plan, needs_current, Command::MakeCurrent);
    push_when(&mut plan, h.exported_image, Command::Release(Resource::ExportedImage));
    let ghost before = plan@;
    match h.framebuffer {
        Some(ids) => plan.push(Command::Release(Resource::Framebuffer(ids))),
        None => {},
    }
    assert(plan@ =~= before + framebuffer_release(*h));
    push_when(&mut plan, h.render_context, Command::Release(Resource::RenderContext));
    push_when(&mut plan, h.gpu_interface, Command::Release(Resource::GpuInterface));
    push_when(&mut plan, h.native_context, Command::DropCurrent);
    push_when(&mut plan, h.native_context, Command::Release(Resource::NativeContext));
    push_when(&mut plan, h.pbuffer_surface, Command::Release(Resource::PbufferSurface));
    push_when(&mut plan, h.glx_pixmap, Command::Release(Resource::GlxPixmap));
    push_when(&mut plan, h.pixmap, Command::Release(Resource::Pixmap));
    assert(plan@ =~= release_plan(platform, *h));
    plan
}

} // verus!
