//! Framebuffer-to-drawing-surface bridge.
//!
//! The bridge wraps the active context's currently bound framebuffer — read
//! back from the context, since the foreign host window's default
//! framebuffer id need not be 0 — into a GPU-backed 2D drawing surface of
//! fixed pixel dimensions, RGBA8 pixel format, unprotected, bottom-left
//! origin. Each native step is modelled by the outcome it returned,
//! collected in a [`SkiaSetup`], and creation stops at the first failure.

use vstd::prelude::*;
use crate::errors::OverlayError;

verus! {

/// What the drawing surface currently holds: fully transparent after a
/// clear, or painted once any draw call has been issued.
#[derive(Clone, Copy, PartialEq, Eq, Structural, Debug)]
pub enum SceneContent {
    Transparent,
    Painted,
}

/// Description of the framebuffer the surface wraps: its id as read from
/// the active context, RGBA8 pixel format, unprotected.
#[derive(Clone, Copy, PartialEq, Eq, Structural, Debug)]
pub struct FramebufferDesc {
    pub fboid: u32,
    pub format_rgba8: bool,
    pub protected: bool,
}

/// What the native bridge calls returned, in the order they are consulted:
/// whether the native GPU interface was created, whether the bridged direct
/// context was created, the framebuffer id read from the active context,
/// and whether wrapping the backend render target as a surface succeeded.
pub struct SkiaSetup {
    pub interface_ok: bool,
    pub direct_context_ok: bool,
    pub fboid: u32,
    pub surface_wrap_ok: bool,
}

/// A GPU-backed 2D drawing surface of fixed pixel dimensions, bound at
/// creation time to the active framebuffer of its owning rendering context.
pub struct SkiaContext {
    pub width: i32,
    pub height: i32,
    pub framebuffer: FramebufferDesc,
    pub content: SceneContent,
}

impl SkiaContext {
    /// Which error, if any, a bridge attempt surfaces: the outcomes are
    /// consulted in the strict bridge order and the first failing step
    /// decides.
    pub open spec fn setup_outcome(setup: SkiaSetup) -> Result<(), OverlayError> {
        if !setup.interface_ok {
            Err(OverlayError::FailedToCreateSkiaInterface)
        } else if !setup.direct_context_ok {
            Err(OverlayError::FailedToCreateDirectContext)
        } else if !setup.surface_wrap_ok {
            Err(OverlayError::FailedToCreateSkiaSurface)
        } else {
            Ok(())
        }
    }

    /// The surface a successful bridge yields: the given fixed dimensions,
    /// wrapping the framebuffer id that was read back, RGBA8 and
    /// unprotected; its content is not known transparent until cleared.
    pub open spec fn created(width: i32, height: i32, setup: SkiaSetup) -> SkiaContext {
        SkiaContext {
            width,
            height,
            framebuffer: FramebufferDesc { fboid: setup.fboid, format_rgba8: true, protected: false },
            content: SceneContent::Painted,
        }
    }

    /// Bridges the active framebuffer into a drawing surface of the given
    /// dimensions from the native bridge outcomes. Each step is a strict
    /// precondition for the next; the first failure is surfaced, per
    /// [`Self::setup_outcome`]; there is no fallback backend.
    pub fn new(width: i32, height: i32, setup: &SkiaSetup) -> (r: Result<SkiaContext, OverlayError>)
        ensures
            r matches Err(e) ==> Self::setup_outcome(*setup) == Err::<(), OverlayError>(e),
            r matches Ok(s) ==> Self::setup_outcome(*setup) == Ok::<(), OverlayError>(())
                && s == Self::created(width, height, *setup),
    {
        if !setup.interface_ok {
            return Err(OverlayError::FailedToCreateSkiaInterface);
        }
        if !setup.direct_context_ok {
            return Err(OverlayError::FailedToCreateDirectContext);
        }
        if !setup.surface_wrap_ok {
            return Err(OverlayError::FailedToCreateSkiaSurface);
        }
        Ok(SkiaContext {
            width,
            height,
            framebuffer: FramebufferDesc { fboid: setup.fboid, format_rgba8: true, protected: false },
            content: SceneContent::Painted,
        })
    }

    /// Clears the canvas to fully transparent.
    pub fn clear(&mut self)
        ensures
            *final(self) == (SkiaContext { content: SceneContent::Transparent, ..*old(self) }),
    {
        self.content = SceneContent::Transparent;
    }

    /// Records that a draw call painted onto the canvas.
    pub fn mark_painted(&mut self)
        ensures
            *final(self) == (SkiaContext { content: SceneContent::Painted, ..*old(self) }),
    {
        self.content = SceneContent::Painted;
    }
}

} // verus!
