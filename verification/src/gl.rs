//! Rendering-context lifecycle: device-surface acquisition, pixel-format
//! negotiation, hardware-context creation, current-context management,
//! buffer swapping and swap-interval control.
//!
//! Each native step is modelled by the plain value it returns, collected in
//! a [`GlSetup`]; creation walks those outcomes in the strict documented
//! order, each step a precondition for the next, and stops at the first
//! failure. Handles are opaque nonzero addresses modelled as integers.

use vstd::prelude::*;
use crate::errors::OverlayError;
use crate::vsync::{SwapIntervalIo, VsyncProbe, VsyncState};

verus! {

/// Pixel-format flag bit advertising double buffering.
pub const PFD_DOUBLEBUFFER_BIT: u32 = 0x1;

/// Pixel-format flag bit advertising draw-to-window capability.
pub const PFD_DRAW_TO_WINDOW_BIT: u32 = 0x4;

/// Pixel-format flag bit advertising hardware-capable rendering support.
pub const PFD_SUPPORT_OPENGL_BIT: u32 = 0x20;

/// The pixel format the overlay negotiates for.
pub struct PixelFormatRequest {
    pub draw_to_window: bool,
    pub support_opengl: bool,
    pub double_buffer: bool,
    pub rgba_color: bool,
    pub color_bits: u8,
    pub alpha_bits: u8,
}

/// The fixed pixel format requested for the overlay: draw-to-window,
/// hardware rendering support, double buffering, RGBA color type, 32-bit
/// color, 8-bit alpha.
pub fn desired_pixel_format() -> (p: PixelFormatRequest)
    ensures
        p.draw_to_window,
        p.support_opengl,
        p.double_buffer,
        p.rgba_color,
        p.color_bits == 32,
        p.alpha_bits == 8,
{
    PixelFormatRequest {
        draw_to_window: true,
        support_opengl: true,
        double_buffer: true,
        rgba_color: true,
        color_bits: 32,
        alpha_bits: 8,
    }
}

/// A readable summary of a pixel format description, as the capability
/// report prints it.
pub struct PixelFormatReport {
    pub color_bits: u8,
    pub alpha_bits: u8,
    pub depth_bits: u8,
    pub stencil_bits: u8,
    pub double_buffered: bool,
    pub supports_opengl: bool,
    pub draw_to_window: bool,
}

/// Interprets a pixel format description: the three capability booleans are
/// read off the flag word bit by bit, the bit counts are carried through.
pub fn describe_pixel_format(
    dw_flags: u32,
    color_bits: u8,
    alpha_bits: u8,
    depth_bits: u8,
    stencil_bits: u8,
) -> (r: PixelFormatReport)
    ensures
        r.color_bits == color_bits,
        r.alpha_bits == alpha_bits,
        r.depth_bits == depth_bits,
        r.stencil_bits == stencil_bits,
        r.double_buffered == ((dw_flags & PFD_DOUBLEBUFFER_BIT) == PFD_DOUBLEBUFFER_BIT),
        r.supports_opengl == ((dw_flags & PFD_SUPPORT_OPENGL_BIT) == PFD_SUPPORT_OPENGL_BIT),
        r.draw_to_window == ((dw_flags & PFD_DRAW_TO_WINDOW_BIT) == PFD_DRAW_TO_WINDOW_BIT),
{
    PixelFormatReport {
        color_bits,
        alpha_bits,
        depth_bits,
        stencil_bits,
        double_buffered: (dw_flags & PFD_DOUBLEBUFFER_BIT) == PFD_DOUBLEBUFFER_BIT,
        supports_opengl: (dw_flags & PFD_SUPPORT_OPENGL_BIT) == PFD_SUPPORT_OPENGL_BIT,
        draw_to_window: (dw_flags & PFD_DRAW_TO_WINDOW_BIT) == PFD_DRAW_TO_WINDOW_BIT,
    }
}

/// What the native context-setup calls returned, in the order they are
/// consulted: the device-surface handle (0 models an invalid handle), the
/// negotiated pixel-format index (0 models "no candidate"), whether applying
/// the chosen format succeeded, the created hardware-context handle, whether
/// making it current succeeded, and the vsync capability probe.
pub struct GlSetup {
    pub device_context: u64,
    pub pixel_format: i32,
    pub set_pixel_format_ok: bool,
    pub gl_context: Option<u64>,
    pub make_current_ok: bool,
    pub vsync: VsyncProbe,
}

/// A hardware rendering context bound 1:1 to a target window: the
/// device-surface reference, the context handle, and the optional
/// swap-interval capability.
pub struct GlContext {
    pub window_handle: u64,
    pub device_context: u64,
    pub gl_context: u64,
    pub vsync_state: VsyncState,
}

/// Ordered steps of a context teardown. Releasing the current-context
/// binding must come first, destroying the hardware context second, and the
/// device-surface reference is released last.
#[derive(Clone, Copy, PartialEq, Eq, Structural, Debug)]
pub enum ReleaseStep {
    ClearCurrentContext,
    DestroyContext,
    ReleaseDeviceSurface,
}

impl GlContext {
    /// Invariant: both handles are live (nonzero) and the capability object
    /// is consistent.
    pub open spec fn wf(self) -> bool {
        &&& self.device_context != 0
        &&& self.gl_context != 0
        &&& self.vsync_state.wf()
    }

    /// Which error, if any, a creation attempt surfaces: the outcomes are
    /// consulted in the strict setup order and the first failing step
    /// decides.
    pub open spec fn setup_outcome(hwnd: u64, setup: GlSetup) -> Result<(), OverlayError> {
        if setup.device_context == 0 {
            Err(OverlayError::FailedToGetDeviceContext)
        } else if setup.pixel_format == 0 {
            Err(OverlayError::GlContextSetupFailed)
        } else if !setup.set_pixel_format_ok {
            Err(OverlayError::FailedToSetPixelFormat)
        } else if setup.gl_context is None || setup.gl_context == Some(0u64) {
            Err(OverlayError::FailedToCreateOpenGLContext)
        } else if !setup.make_current_ok {
            Err(OverlayError::FailedToMakeOpenGLContextCurrent)
        } else {
            Ok(())
        }
    }

    /// The context a successful creation yields: both handles adopted from
    /// the setup, and the vsync capability populated exactly when the probe
    /// granted it.
    pub open spec fn created(hwnd: u64, setup: GlSetup) -> GlContext {
        GlContext {
            window_handle: hwnd,
            device_context: setup.device_context,
            gl_context: setup.gl_context->0,
            vsync_state: VsyncState {
                swap_interval: None,
                get_swap_interval: None,
            }.state_after_init(setup.vsync),
        }
    }

    /// Creates the rendering context for the given window from the native
    /// setup outcomes. Each step is a strict precondition for the next;
    /// the first failure is surfaced, per [`Self::setup_outcome`]. A failed
    /// vsync probe is non-fatal: the capability is merely recorded absent.
    pub fn new(hwnd: u64, setup: &GlSetup) -> (r: Result<GlContext, OverlayError>)
        ensures
            r matches Err(e) ==> Self::setup_outcome(hwnd, *setup) == Err::<(), OverlayError>(e),
            r matches Ok(c) ==> Self::setup_outcome(hwnd, *setup) == Ok::<(), OverlayError>(())
                && c == Self::created(hwnd, *setup),
            r is Ok ==> r->Ok_0.wf(),
    {
        if setup.device_context == 0 {
            return Err(OverlayError::FailedToGetDeviceContext);
        }
        if setup.pixel_format == 0 {
            return Err(OverlayError::GlContextSetupFailed);
        }
        if !setup.set_pixel_format_ok {
            return Err(OverlayError::FailedToSetPixelFormat);
        }
        let gl_context = match setup.gl_context {
            None => {
                return Err(OverlayError::FailedToCreateOpenGLContext);
            },
            Some(h) => h,
        };
        if gl_context == 0 {
            return Err(OverlayError::FailedToCreateOpenGLContext);
        }
        if !setup.make_current_ok {
            return Err(OverlayError::FailedToMakeOpenGLContextCurrent);
        }
        let mut vsync_state = VsyncState::new();
        // Capability absence is recorded, not propagated: the probe's error
        // is dropped here and `is_vsync_supported` stays false.
        let _ = vsync_state.init(&setup.vsync);
        Ok(GlContext { window_handle: hwnd, device_context: setup.device_context, gl_context, vsync_state })
    }

    /// Interprets the outcome of re-binding the context to the calling
    /// thread.
    pub fn make_current(&self, ok: bool) -> (r: Result<(), OverlayError>)
        ensures
            ok <==> r is Ok,
            !ok ==> r == Err::<(), OverlayError>(OverlayError::FailedToMakeOpenGLContextCurrent),
    {
        if ok {
            Ok(())
        } else {
            Err(OverlayError::FailedToMakeOpenGLContextCurrent)
        }
    }

    /// Interprets the outcome of the layered-plane buffer swap that presents
    /// the back buffer.
    pub fn swap_buffers(&self, ok: bool) -> (r: Result<(), OverlayError>)
        ensures
            ok <==> r is Ok,
            !ok ==> r == Err::<(), OverlayError>(OverlayError::FailedToSwapBuffers),
    {
        if ok {
            Ok(())
        } else {
            Err(OverlayError::FailedToSwapBuffers)
        }
    }

    /// Delegates a set-then-verify vsync request to the capability object.
    pub fn set_vsync(&self, enabled: bool, io: &SwapIntervalIo) -> (r: Result<(), OverlayError>)
        requires
            self.vsync_state.wf(),
        ensures
            r == self.vsync_state.set_outcome(enabled, *io),
    {
        self.vsync_state.set_enabled(enabled, io)
    }

    /// Interprets a driver interval read-back; absent when the capability is
    /// unsupported.
    pub fn get_vsync_state(&self, readback: i32) -> (r: Option<bool>)
        ensures
            r == self.vsync_state.current_state(readback),
    {
        self.vsync_state.get_current_state(readback)
    }

    /// Whether the adjustable-vsync capability is available.
    pub fn is_vsync_supported(&self) -> (r: bool)
        ensures
            r == self.vsync_state.supported_spec(),
    {
        self.vsync_state.is_supported()
    }

    /// The ordered teardown of this context: release the current-context
    /// binding, destroy the hardware context, then release the
    /// device-surface reference — in that strict order. The device-surface
    /// release is skipped when the reference is invalid.
    pub fn release_plan(&self) -> (steps: Vec<ReleaseStep>)
        ensures
            self.device_context != 0 ==> steps@ == seq![
                ReleaseStep::ClearCurrentContext,
                ReleaseStep::DestroyContext,
                ReleaseStep::ReleaseDeviceSurface,
            ],
            self.device_context == 0 ==> steps@ == seq![
                ReleaseStep::ClearCurrentContext,
                ReleaseStep::DestroyContext,
            ],
    {
        let mut steps: Vec<ReleaseStep> = Vec::new();
        steps.push(ReleaseStep::ClearCurrentContext);
        steps.push(ReleaseStep::DestroyContext);
        if self.device_context != 0 {
            steps.push(ReleaseStep::ReleaseDeviceSurface);
        }
        proof {
            if self.device_context != 0 {
                assert(steps@ =~= seq![
                    ReleaseStep::ClearCurrentContext,
                    ReleaseStep::DestroyContext,
                    ReleaseStep::ReleaseDeviceSurface,
                ]);
            } else {
                assert(steps@ =~= seq![
                    ReleaseStep::ClearCurrentContext,
                    ReleaseStep::DestroyContext,
                ]);
            }
        }
        steps
    }
}

} // verus!
