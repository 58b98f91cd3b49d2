//! The error taxonomy of the overlay: discovery, window styling, context
//! setup, vsync capability, surface bridging and frame lifecycle failures.
//! Every fallible operation of the library returns one of these; nothing is
//! retried internally.

use vstd::prelude::*;

verus! {

/// Typed failure surfaced synchronously to the immediate caller.
#[derive(Debug, Clone, Copy, PartialEq, Eq, Structural)]
pub enum OverlayError {
    WindowNotFound,
    FailedToGetWindowLong,
    FailedToSetWindowLong,
    FailedToExtendFrame,
    FailedSetLayeredWindowAttributes,
    FailedToSetWindowPos,
    ShowWindowFailed,

    GlContextSetupFailed,
    SkiaContextSetupFailed,

    NoRenderTarget,
    GetWindowRectFailed,
    GetWriteTextFormatFailed,
    DrawFailed,
    DrawTextFailed(i32),
    FailedToGetFontWidth,
    CreateBrushFailed(i32),
    CreateSolidColorBrushFailed,
    ID2D1BrushCastFailed,
    CreateGradientStopCollectionFailed,
    CreateLinearGradientBrushFailed,
    CreateRadialGradientBrushFailed,
    NoD2DFactory,
    CreateStrokeStyleFailed,
    FailedToShowWindow,
    FailedToGetDeviceContext,
    FailedToSetPixelFormat,
    FailedToCreateOpenGLContext,
    FailedToMakeOpenGLContextCurrent,
    FailedToCreateSkiaInterface,
    FailedToCreateDirectContext,
    FailedToCreateSkiaSurface,
    FailedToSwapBuffers,
    FailedToRetrieveOpenGLBinary,

    VsyncControlNotSupported,
    FailedToGetVsyncFunctionPointers,
    FailedToSetVsyncState,
    FailedToVerifyVsyncState,
}

} // verus!
