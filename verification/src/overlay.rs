//! The overlay orchestrator: window attachment and styling, renderer
//! startup, the per-frame begin/draw/present lifecycle, and ordered
//! teardown.
//!
//! Lifecycle: created, then attached by [`Overlay::init`], then renderer
//! ready after [`Overlay::startup_renderer`]; frames alternate
//! [`Overlay::begin_scene`] and [`Overlay::present_scene`]. Teardown
//! destroys the drawing surface strictly before the rendering context,
//! the reverse of construction order, since destroying the context
//! invalidates the framebuffer the surface wraps.

use vstd::prelude::*;
use crate::errors::OverlayError;
use crate::helper::{find_target_window, located_window, WindowProbe};
use crate::gl::{GlContext, GlSetup, ReleaseStep};
use crate::skia::{SceneContent, SkiaContext, SkiaSetup};

verus! {

/// Extended-style bit that makes the target window layered.
pub const LAYERED_WINDOW_STYLE: i32 = 0x20;

/// Whole-window alpha requested for the layered window: fully opaque at the
/// window level, per-pixel alpha being the drawing surface's business.
pub const WINDOW_ALPHA: u8 = 0xFF;

/// Fixed pixel width of the drawing surface.
pub const SURFACE_WIDTH: i32 = 1920;

/// Fixed pixel height of the drawing surface.
pub const SURFACE_HEIGHT: i32 = 1080;

/// The extended style written back to the target window: the read style
/// with the layered bit added.
pub fn layered_style(style: i32) -> (s: i32)
    ensures
        s == style | LAYERED_WINDOW_STYLE,
{
    style | LAYERED_WINDOW_STYLE
}

/// Margins of the frame extension into the client area: all negative,
/// requesting the compositor render the entire client area without a
/// nonclient frame.
pub struct FrameMargins {
    pub left: i32,
    pub right: i32,
    pub top: i32,
    pub bottom: i32,
}

/// The frame-extension margins the overlay requests.
pub fn frame_margins() -> (m: FrameMargins)
    ensures
        m.left == -1,
        m.right == -1,
        m.top == -1,
        m.bottom == -1,
{
    FrameMargins { left: -1, right: -1, top: -1, bottom: -1 }
}

/// The layered-window blending the overlay requests: no color key, full
/// window-level opacity, alpha-only blending.
pub struct LayeredAttributes {
    pub color_key: u32,
    pub alpha: u8,
    pub alpha_only: bool,
}

/// The layered-window attributes written during attachment.
pub fn layered_attributes() -> (a: LayeredAttributes)
    ensures
        a.color_key == 0,
        a.alpha == WINDOW_ALPHA,
        a.alpha_only,
{
    LayeredAttributes { color_key: 0, alpha: WINDOW_ALPHA, alpha_only: true }
}

/// What the native styling calls returned, in the order they are consulted:
/// the extended style read from the window (0 is the style API's sentinel
/// failure), the result of writing the modified style back (0 again the
/// sentinel), and the outcomes of the blending, frame-extension and z-order
/// calls.
pub struct StyleIo {
    pub current_style: i32,
    pub write_result: isize,
    pub layered_ok: bool,
    pub frame_extend_ok: bool,
    pub topmost_ok: bool,
}

/// Ordered steps of an overlay teardown, for the caller to perform. The
/// best-effort steps leave the foreign window visually clean; then the
/// drawing surface is destroyed strictly before the rendering context.
#[derive(Clone, Copy, PartialEq, Eq, Structural, Debug)]
pub enum TeardownStep {
    MakeCurrent,
    ClearCanvas,
    FlushSurface,
    SwapBuffers,
    DestroySurface,
    GlRelease(ReleaseStep),
}

/// Aggregate root: the attached target window, the optional rendering
/// context and drawing surface, the cached font resource, and what the last
/// successful present put on screen.
pub struct Overlay {
    pub window_handle: u64,
    pub attached: bool,
    pub gl_context: Option<GlContext>,
    pub skia_context: Option<SkiaContext>,
    pub font_name: String,
    pub presented: Option<SceneContent>,
}

impl Overlay {
    /// Invariant: rendering context and drawing surface exist together or
    /// not at all, and an existing context is well formed.
    pub open spec fn wf(self) -> bool {
        &&& self.gl_context is Some <==> self.skia_context is Some
        &&& self.gl_context matches Some(c) ==> c.wf()
    }

    /// Both renderer resources are present: frames can be produced.
    pub open spec fn renderer_ready(self) -> bool {
        self.gl_context is Some && self.skia_context is Some
    }

    /// A fresh overlay: only the font resource exists.
    pub fn new(font_name: String) -> (o: Overlay)
        ensures
            o.window_handle == 0,
            !o.attached,
            o.gl_context is None,
            o.skia_context is None,
            o.font_name == font_name,
            o.presented is None,
            o.wf(),
    {
        Overlay {
            window_handle: 0,
            attached: false,
            gl_context: None,
            skia_context: None,
            font_name,
            presented: None,
        }
    }

    /// Which error, if any, an attachment attempt surfaces: discovery first,
    /// then the four styling steps in order — style read, style write,
    /// blending attributes, frame extension, z-order — the first failing
    /// step deciding.
    pub open spec fn init_outcome(self, probe: WindowProbe, io: StyleIo) -> Result<
        (),
        OverlayError,
    > {
        match located_window(probe) {
            Err(e) => Err(e),
            Ok(_) => if io.current_style == 0 {
                Err(OverlayError::FailedToGetWindowLong)
            } else if io.write_result == 0 {
                Err(OverlayError::FailedToSetWindowLong)
            } else if !io.layered_ok {
                Err(OverlayError::FailedSetLayeredWindowAttributes)
            } else if !io.frame_extend_ok {
                Err(OverlayError::FailedToExtendFrame)
            } else if !io.topmost_ok {
                Err(OverlayError::FailedToSetWindowPos)
            } else {
                Ok(())
            },
        }
    }

    /// The overlay after an attachment attempt: the discovered handle is
    /// recorded as soon as discovery succeeds (styling already performed is
    /// not rolled back), and the overlay counts as attached exactly when
    /// every step succeeded.
    pub open spec fn after_init(self, probe: WindowProbe, io: StyleIo) -> Overlay {
        let handle = match located_window(probe) {
            Ok(h) => h,
            Err(_) => self.window_handle,
        };
        Overlay { window_handle: handle, attached: self.init_outcome(probe, io) is Ok, ..self }
    }

    /// Attaches to the discovered host window and styles it for transparent
    /// compositing, per [`Self::init_outcome`] and [`Self::after_init`]: on
    /// any error the overlay is left unattached and the renderer resources
    /// untouched.
    pub fn init(&mut self, probe: &WindowProbe, io: &StyleIo) -> (r: Result<(), OverlayError>)
        ensures
            r == old(self).init_outcome(*probe, *io),
            *final(self) == old(self).after_init(*probe, *io),
            final(self).attached <==> r is Ok,
            old(self).wf() ==> final(self).wf(),
    {
        self.attached = false;
        let handle = match find_target_window(probe) {
            Ok(h) => h,
            Err(e) => {
                return Err(e);
            },
        };
        self.window_handle = handle;
        if io.current_style == 0 {
            return Err(OverlayError::FailedToGetWindowLong);
        }
        if io.write_result == 0 {
            return Err(OverlayError::FailedToSetWindowLong);
        }
        if !io.layered_ok {
            return Err(OverlayError::FailedSetLayeredWindowAttributes);
        }
        if !io.frame_extend_ok {
            return Err(OverlayError::FailedToExtendFrame);
        }
        if !io.topmost_ok {
            return Err(OverlayError::FailedToSetWindowPos);
        }
        self.attached = true;
        Ok(())
    }

    /// Which error, if any, a renderer startup surfaces: the first error of
    /// context creation, of re-binding it to the calling thread, or of the
    /// surface bridge.
    pub open spec fn startup_outcome(
        self,
        gl_setup: GlSetup,
        make_current_ok: bool,
        skia_setup: SkiaSetup,
    ) -> Result<(), OverlayError> {
        match GlContext::setup_outcome(self.window_handle, gl_setup) {
            Err(e) => Err(e),
            Ok(_) => if !make_current_ok {
                Err(OverlayError::FailedToMakeOpenGLContextCurrent)
            } else {
                match SkiaContext::setup_outcome(skia_setup) {
                    Err(e) => Err(e),
                    Ok(_) => Ok(()),
                }
            },
        }
    }

    /// The overlay after a startup attempt: on success it holds the created
    /// context and a surface of the fixed dimensions; on failure both
    /// resources remain absent and nothing changes.
    pub open spec fn after_startup(
        self,
        gl_setup: GlSetup,
        make_current_ok: bool,
        skia_setup: SkiaSetup,
    ) -> Overlay {
        if self.startup_outcome(gl_setup, make_current_ok, skia_setup) is Ok {
            Overlay {
                gl_context: Some(GlContext::created(self.window_handle, gl_setup)),
                skia_context: Some(
                    SkiaContext::created(SURFACE_WIDTH, SURFACE_HEIGHT, skia_setup),
                ),
                ..self
            }
        } else {
            self
        }
    }

    /// Creates the rendering context against the attached window, re-binds
    /// it to the calling thread, and bridges the active framebuffer into the
    /// fixed-size drawing surface, per [`Self::startup_outcome`] and
    /// [`Self::after_startup`]. Requires the overlay to be attached.
    pub fn startup_renderer(
        &mut self,
        gl_setup: &GlSetup,
        make_current_ok: bool,
        skia_setup: &SkiaSetup,
    ) -> (r: Result<(), OverlayError>)
        requires
            old(self).attached,
            old(self).wf(),
        ensures
            r == old(self).startup_outcome(*gl_setup, make_current_ok, *skia_setup),
            *final(self) == old(self).after_startup(*gl_setup, make_current_ok, *skia_setup),
            final(self).wf(),
            r is Ok ==> final(self).renderer_ready(),
    {
        let gl_context = match GlContext::new(self.window_handle, gl_setup) {
            Ok(c) => c,
            Err(e) => {
                return Err(e);
            },
        };
        match gl_context.make_current(make_current_ok) {
            Ok(_) => {},
            Err(e) => {
                return Err(e);
            },
        }
        let skia_context = match SkiaContext::new(SURFACE_WIDTH, SURFACE_HEIGHT, skia_setup) {
            Ok(s) => s,
            Err(e) => {
                return Err(e);
            },
        };
        self.gl_context = Some(gl_context);
        self.skia_context = Some(skia_context);
        Ok(())
    }

    /// Whether a frame may begin: the drawing surface must exist.
    pub open spec fn begin_outcome(self) -> Result<(), OverlayError> {
        if self.skia_context is Some {
            Ok(())
        } else {
            Err(OverlayError::NoRenderTarget)
        }
    }

    /// The overlay after a begun frame: the canvas cleared to fully
    /// transparent; without a surface, unchanged.
    pub open spec fn after_begin(self) -> Overlay {
        match self.skia_context {
            Some(s) => Overlay {
                skia_context: Some(SkiaContext { content: SceneContent::Transparent, ..s }),
                ..self
            },
            None => self,
        }
    }

    /// Begins a frame by clearing the drawing surface to fully transparent;
    /// fails with `NoRenderTarget` before the renderer is ready, changing
    /// nothing.
    pub fn begin_scene(&mut self) -> (r: Result<(), OverlayError>)
        ensures
            r == old(self).begin_outcome(),
            *final(self) == old(self).after_begin(),
            old(self).wf() ==> final(self).wf(),
    {
        match &mut self.skia_context {
            Some(s) => {
                s.clear();
                Ok(())
            },
            None => Err(OverlayError::NoRenderTarget),
        }
    }

    /// Whether a draw call may be issued: the drawing surface must exist.
    pub open spec fn draw_outcome(self) -> Result<(), OverlayError> {
        if self.skia_context is Some {
            Ok(())
        } else {
            Err(OverlayError::NoRenderTarget)
        }
    }

    /// The overlay after a draw call: the canvas is painted.
    pub open spec fn after_draw(self) -> Overlay {
        match self.skia_context {
            Some(s) => Overlay {
                skia_context: Some(SkiaContext { content: SceneContent::Painted, ..s }),
                ..self
            },
            None => self,
        }
    }

    /// Gate and record of every drawing-primitive call: it succeeds exactly
    /// when the renderer is ready, and marks the canvas painted.
    pub fn record_draw(&mut self) -> (r: Result<(), OverlayError>)
        ensures
            r == old(self).draw_outcome(),
            *final(self) == old(self).after_draw(),
            old(self).wf() ==> final(self).wf(),
    {
        match &mut self.skia_context {
            Some(s) => {
                s.mark_painted();
                Ok(())
            },
            None => Err(OverlayError::NoRenderTarget),
        }
    }

    /// Which error, if any, a present surfaces: no surface, then no context,
    /// then a failed buffer swap.
    pub open spec fn present_outcome(self, swap_ok: bool) -> Result<(), OverlayError> {
        if self.skia_context is None {
            Err(OverlayError::NoRenderTarget)
        } else if self.gl_context is None {
            Err(OverlayError::FailedToCreateOpenGLContext)
        } else if !swap_ok {
            Err(OverlayError::FailedToSwapBuffers)
        } else {
            Ok(())
        }
    }

    /// The overlay after a present attempt: on success the canvas content
    /// becomes the presented content; on failure nothing changes.
    pub open spec fn after_present(self, swap_ok: bool) -> Overlay {
        if self.present_outcome(swap_ok) is Ok {
            Overlay { presented: Some(self.skia_context->0.content), ..self }
        } else {
            self
        }
    }

    /// Flushes the queued drawing operations and swaps buffers, per
    /// [`Self::present_outcome`] and [`Self::after_present`]; out of order
    /// it fails without touching anything.
    pub fn present_scene(&mut self, swap_ok: bool) -> (r: Result<(), OverlayError>)
        ensures
            r == old(self).present_outcome(swap_ok),
            *final(self) == old(self).after_present(swap_ok),
            old(self).wf() ==> final(self).wf(),
    {
        let content = match &self.skia_context {
            Some(s) => s.content,
            None => {
                return Err(OverlayError::NoRenderTarget);
            },
        };
        match &self.gl_context {
            Some(_) => {},
            None => {
                return Err(OverlayError::FailedToCreateOpenGLContext);
            },
        }
        if !swap_ok {
            return Err(OverlayError::FailedToSwapBuffers);
        }
        self.presented = Some(content);
        Ok(())
    }

    /// The best-effort steps that leave the foreign window visually clean:
    /// attempted only when both resources exist, and the clear-flush-swap
    /// part only when re-binding the context succeeded.
    pub open spec fn cleanup_plan(self, make_current_ok: bool) -> Seq<TeardownStep> {
        if self.gl_context is Some && self.skia_context is Some {
            if make_current_ok {
                seq![
                    TeardownStep::MakeCurrent,
                    TeardownStep::ClearCanvas,
                    TeardownStep::FlushSurface,
                    TeardownStep::SwapBuffers,
                ]
            } else {
                seq![TeardownStep::MakeCurrent]
            }
        } else {
            Seq::empty()
        }
    }

    /// The ordered release of a rendering context, as overlay teardown
    /// steps.
    pub open spec fn release_steps(c: GlContext) -> Seq<TeardownStep> {
        if c.device_context != 0 {
            seq![
                TeardownStep::GlRelease(ReleaseStep::ClearCurrentContext),
                TeardownStep::GlRelease(ReleaseStep::DestroyContext),
                TeardownStep::GlRelease(ReleaseStep::ReleaseDeviceSurface),
            ]
        } else {
            seq![
                TeardownStep::GlRelease(ReleaseStep::ClearCurrentContext),
                TeardownStep::GlRelease(ReleaseStep::DestroyContext),
            ]
        }
    }

    /// The whole teardown plan: best-effort cleanup, then the drawing
    /// surface, then the rendering context — never the reverse.
    pub open spec fn teardown_plan(self, make_current_ok: bool) -> Seq<TeardownStep> {
        self.cleanup_plan(make_current_ok) + (match self.skia_context {
            Some(_) => seq![TeardownStep::DestroySurface],
            None => Seq::empty(),
        }) + (match self.gl_context {
            Some(c) => Self::release_steps(c),
            None => Seq::empty(),
        })
    }

    /// Tears the overlay down: returns the ordered steps the caller must
    /// perform, exactly [`Self::teardown_plan`], and forgets both renderer
    /// resources. The target window itself is never destroyed.
    pub fn teardown(&mut self, make_current_ok: bool) -> (steps: Vec<TeardownStep>)
        ensures
            steps@ == old(self).teardown_plan(make_current_ok),
            *final(self) == (Overlay { gl_context: None, skia_context: None, ..*old(self) }),
    {
        let mut steps: Vec<TeardownStep> = Vec::new();
        if self.gl_context.is_some() && self.skia_context.is_some() {
            steps.push(TeardownStep::MakeCurrent);
            if make_current_ok {
                steps.push(TeardownStep::ClearCanvas);
                steps.push(TeardownStep::FlushSurface);
                steps.push(TeardownStep::SwapBuffers);
            }
        }
        if self.skia_context.is_some() {
            steps.push(TeardownStep::DestroySurface);
        }
        match &self.gl_context {
            Some(c) => {
                steps.push(TeardownStep::GlRelease(ReleaseStep::ClearCurrentContext));
                steps.push(TeardownStep::GlRelease(ReleaseStep::DestroyContext));
                if c.device_context != 0 {
                    steps.push(TeardownStep::GlRelease(ReleaseStep::ReleaseDeviceSurface));
                }
            },
            None => {},
        }
        self.skia_context = None;
        self.gl_context = None;
        proof {
            assert(steps@ =~= old(self).teardown_plan(make_current_ok));
        }
        steps
    }
}

/// Law: a begun frame with no draw calls presents successfully and leaves
/// the surface fully transparent — both on the canvas and as the presented
/// content.
pub proof fn lemma_clean_frame(o: Overlay)
    requires
        o.wf(),
        o.renderer_ready(),
    ensures
        o.begin_outcome() is Ok,
        o.after_begin().present_outcome(true) is Ok,
        o.after_begin().after_present(true).presented == Some(SceneContent::Transparent),
        o.after_begin().after_present(true).skia_context->0.content == SceneContent::Transparent,
{
}

/// Law: teardown never destroys the rendering context before the drawing
/// surface — in every plan, every context-destruction step comes strictly
/// after every surface-destruction step.
pub proof fn lemma_teardown_never_destroys_context_first(o: Overlay, make_current_ok: bool)
    ensures
        forall|i: int, j: int|
            0 <= i < o.teardown_plan(make_current_ok).len() && 0 <= j < o.teardown_plan(
                make_current_ok,
            ).len() && o.teardown_plan(make_current_ok)[i] == TeardownStep::GlRelease(
                ReleaseStep::DestroyContext,
            ) && o.teardown_plan(make_current_ok)[j] == TeardownStep::DestroySurface ==> j < i,
{
    let plan = o.teardown_plan(make_current_ok);
    assert forall|i: int, j: int|
        0 <= i < plan.len() && 0 <= j < plan.len() && plan[i] == TeardownStep::GlRelease(
            ReleaseStep::DestroyContext,
        ) && plan[j] == TeardownStep::DestroySurface implies j < i by {
        if o.gl_context is Some && o.skia_context is Some {
            if make_current_ok {
                assert(plan[4] == TeardownStep::DestroySurface);
            } else {
                assert(plan[1] == TeardownStep::DestroySurface);
            }
        }
    }
}

/// Law: attachment is idempotent — against the same point-in-time world a
/// second successful attachment resolves the same window handle, and a
/// failing second attachment never corrupts the renderer resources.
pub proof fn lemma_init_idempotent(
    o: Overlay,
    probe: WindowProbe,
    io: StyleIo,
    probe2: WindowProbe,
    io2: StyleIo,
)
    requires
        o.init_outcome(probe, io) is Ok,
    ensures
        o.after_init(probe, io).init_outcome(probe, io) is Ok,
        o.after_init(probe, io).after_init(probe, io).window_handle == o.after_init(
            probe,
            io,
        ).window_handle,
        o.after_init(probe, io).after_init(probe2, io2).gl_context == o.gl_context,
        o.after_init(probe, io).after_init(probe2, io2).skia_context == o.skia_context,
{
}

/// Law: with no matching host window, attachment fails with
/// `WindowNotFound` and leaves the overlay unattached, so the attached
/// precondition of renderer startup can never be met.
pub proof fn lemma_no_host_window(o: Overlay, probe: WindowProbe, io: StyleIo)
    requires
        probe.first is None,
        probe.second is None,
    ensures
        o.init_outcome(probe, io) == Err::<(), OverlayError>(OverlayError::WindowNotFound),
        !o.after_init(probe, io).attached,
        o.after_init(probe, io).window_handle == o.window_handle,
{
}

/// Law: with the host window present but the vsync extension absent,
/// renderer startup succeeds, the capability reports unsupported, and every
/// vsync request fails with `VsyncControlNotSupported` without consulting
/// the driver.
pub proof fn lemma_startup_without_vsync_extension(
    o: Overlay,
    gl_setup: GlSetup,
    skia_setup: SkiaSetup,
)
    requires
        GlContext::setup_outcome(o.window_handle, gl_setup) is Ok,
        SkiaContext::setup_outcome(skia_setup) is Ok,
        !crate::vsync::extension_advertises_vsync(gl_setup.vsync.extensions),
    ensures
        o.startup_outcome(gl_setup, true, skia_setup) is Ok,
        !o.after_startup(gl_setup, true, skia_setup).gl_context->0.vsync_state.supported_spec(),
        forall|enabled: bool, io: crate::vsync::SwapIntervalIo|
            o.after_startup(gl_setup, true, skia_setup).gl_context->0.vsync_state.set_outcome(
                enabled,
                io,
            ) == Err::<(), OverlayError>(OverlayError::VsyncControlNotSupported),
{
}

/// Law: a present invoked before the renderer is ready fails with
/// `NoRenderTarget` and changes nothing, whatever a buffer swap would have
/// answered — no GPU work is reached.
pub proof fn lemma_present_before_renderer(o: Overlay)
    requires
        o.skia_context is None,
    ensures
        o.present_outcome(true) == Err::<(), OverlayError>(OverlayError::NoRenderTarget),
        o.present_outcome(false) == Err::<(), OverlayError>(OverlayError::NoRenderTarget),
        o.after_present(true) == o,
        o.after_present(false) == o,
{
}

} // verus!
