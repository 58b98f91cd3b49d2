use overlay_hijack::errors::OverlayError;
use overlay_hijack::gl::{GlSetup, ReleaseStep};
use overlay_hijack::helper::WindowProbe;
use overlay_hijack::overlay::{
    frame_margins, layered_attributes, layered_style, Overlay, StyleIo, TeardownStep,
    LAYERED_WINDOW_STYLE, WINDOW_ALPHA,
};
use overlay_hijack::skia::{SceneContent, SkiaSetup};
use overlay_hijack::vsync::{SwapIntervalIo, VsyncProbe};

fn found_probe() -> WindowProbe {
    WindowProbe { first: Some(0x5A), second: None }
}

fn empty_probe() -> WindowProbe {
    WindowProbe { first: None, second: None }
}

fn good_style_io() -> StyleIo {
    StyleIo {
        current_style: 0x100,
        write_result: 0x100,
        layered_ok: true,
        frame_extend_ok: true,
        topmost_ok: true,
    }
}

fn no_vsync_probe() -> VsyncProbe {
    VsyncProbe { extensions: None, set_entry: None, get_entry: None }
}

fn vsync_probe() -> VsyncProbe {
    VsyncProbe {
        extensions: Some(String::from("WGL_EXT_swap_control")),
        set_entry: Some(0x1000),
        get_entry: Some(0x2000),
    }
}

fn good_gl_setup(vsync: VsyncProbe) -> GlSetup {
    GlSetup {
        device_context: 0xD0,
        pixel_format: 2,
        set_pixel_format_ok: true,
        gl_context: Some(0xC0),
        make_current_ok: true,
        vsync,
    }
}

fn good_skia_setup() -> SkiaSetup {
    SkiaSetup { interface_ok: true, direct_context_ok: true, fboid: 4, surface_wrap_ok: true }
}

fn ready_overlay() -> Overlay {
    let mut o = Overlay::new(String::from("Tahoma"));
    o.init(&found_probe(), &good_style_io()).unwrap();
    o.startup_renderer(&good_gl_setup(no_vsync_probe()), true, &good_skia_setup()).unwrap();
    o
}

#[test]
fn new_overlay_holds_only_the_font() {
    let o = Overlay::new(String::from("Tahoma"));
    assert_eq!(o.window_handle, 0);
    assert!(!o.attached);
    assert!(o.gl_context.is_none());
    assert!(o.skia_context.is_none());
    assert_eq!(o.font_name, "Tahoma");
    assert!(o.presented.is_none());
}

#[test]
fn scenario_no_host_window() {
    let mut o = Overlay::new(String::from("Tahoma"));
    assert_eq!(o.init(&empty_probe(), &good_style_io()), Err(OverlayError::WindowNotFound));
    assert!(!o.attached);
    assert_eq!(o.window_handle, 0);
}

#[test]
fn init_attaches_and_records_handle() {
    let mut o = Overlay::new(String::from("Tahoma"));
    assert_eq!(o.init(&found_probe(), &good_style_io()), Ok(()));
    assert!(o.attached);
    assert_eq!(o.window_handle, 0x5A);
}

#[test]
fn init_surfaces_each_styling_failure() {
    let mut o = Overlay::new(String::from("Tahoma"));

    let mut io = good_style_io();
    io.current_style = 0;
    assert_eq!(o.init(&found_probe(), &io), Err(OverlayError::FailedToGetWindowLong));
    assert!(!o.attached);

    let mut io = good_style_io();
    io.write_result = 0;
    assert_eq!(o.init(&found_probe(), &io), Err(OverlayError::FailedToSetWindowLong));

    let mut io = good_style_io();
    io.layered_ok = false;
    assert_eq!(
        o.init(&found_probe(), &io),
        Err(OverlayError::FailedSetLayeredWindowAttributes)
    );

    let mut io = good_style_io();
    io.frame_extend_ok = false;
    assert_eq!(o.init(&found_probe(), &io), Err(OverlayError::FailedToExtendFrame));

    let mut io = good_style_io();
    io.topmost_ok = false;
    assert_eq!(o.init(&found_probe(), &io), Err(OverlayError::FailedToSetWindowPos));

    // the handle from a successful discovery is recorded even when styling fails
    assert_eq!(o.window_handle, 0x5A);
}

#[test]
fn init_twice_resolves_the_same_handle() {
    let mut o = Overlay::new(String::from("Tahoma"));
    assert_eq!(o.init(&found_probe(), &good_style_io()), Ok(()));
    let first_handle = o.window_handle;
    assert_eq!(o.init(&found_probe(), &good_style_io()), Ok(()));
    assert_eq!(o.window_handle, first_handle);
    assert!(o.attached);
}

#[test]
fn failing_reinit_never_corrupts_renderer_resources() {
    let mut o = ready_overlay();
    assert_eq!(o.init(&empty_probe(), &good_style_io()), Err(OverlayError::WindowNotFound));
    assert!(o.gl_context.is_some());
    assert!(o.skia_context.is_some());
}

#[test]
fn startup_creates_fixed_size_surface() {
    let mut o = Overlay::new(String::from("Tahoma"));
    o.init(&found_probe(), &good_style_io()).unwrap();
    assert_eq!(o.startup_renderer(&good_gl_setup(no_vsync_probe()), true, &good_skia_setup()), Ok(()));
    let s = o.skia_context.as_ref().unwrap();
    assert_eq!((s.width, s.height), (1920, 1080));
    assert_eq!(s.framebuffer.fboid, 4);
    let c = o.gl_context.as_ref().unwrap();
    assert_eq!(c.window_handle, 0x5A);
}

#[test]
fn startup_propagates_the_first_error() {
    let mut o = Overlay::new(String::from("Tahoma"));
    o.init(&found_probe(), &good_style_io()).unwrap();

    let mut gl = good_gl_setup(no_vsync_probe());
    gl.device_context = 0;
    assert_eq!(
        o.startup_renderer(&gl, true, &good_skia_setup()),
        Err(OverlayError::FailedToGetDeviceContext)
    );
    assert!(o.gl_context.is_none() && o.skia_context.is_none());

    assert_eq!(
        o.startup_renderer(&good_gl_setup(no_vsync_probe()), false, &good_skia_setup()),
        Err(OverlayError::FailedToMakeOpenGLContextCurrent)
    );
    assert!(o.gl_context.is_none() && o.skia_context.is_none());

    let mut sk = good_skia_setup();
    sk.surface_wrap_ok = false;
    assert_eq!(
        o.startup_renderer(&good_gl_setup(no_vsync_probe()), true, &sk),
        Err(OverlayError::FailedToCreateSkiaSurface)
    );
    assert!(o.gl_context.is_none() && o.skia_context.is_none());
}

#[test]
fn scenario_vsync_extension_absent() {
    let mut o = Overlay::new(String::from("Tahoma"));
    o.init(&found_probe(), &good_style_io()).unwrap();
    assert_eq!(o.startup_renderer(&good_gl_setup(no_vsync_probe()), true, &good_skia_setup()), Ok(()));
    let c = o.gl_context.as_ref().unwrap();
    assert!(!c.is_vsync_supported());
    let io = SwapIntervalIo { set_accepted: true, readback_interval: 1 };
    assert_eq!(c.set_vsync(true, &io), Err(OverlayError::VsyncControlNotSupported));
}

#[test]
fn scenario_vsync_extension_present() {
    let mut o = Overlay::new(String::from("Tahoma"));
    o.init(&found_probe(), &good_style_io()).unwrap();
    o.startup_renderer(&good_gl_setup(vsync_probe()), true, &good_skia_setup()).unwrap();
    let c = o.gl_context.as_ref().unwrap();
    assert!(c.is_vsync_supported());
    let io_on = SwapIntervalIo { set_accepted: true, readback_interval: 1 };
    assert_eq!(c.set_vsync(true, &io_on), Ok(()));
    assert_eq!(c.get_vsync_state(io_on.readback_interval), Some(true));
    let io_off = SwapIntervalIo { set_accepted: true, readback_interval: 0 };
    assert_eq!(c.set_vsync(false, &io_off), Ok(()));
    assert_eq!(c.get_vsync_state(io_off.readback_interval), Some(false));
}

#[test]
fn scenario_present_before_renderer() {
    let mut o = Overlay::new(String::from("Tahoma"));
    assert_eq!(o.present_scene(true), Err(OverlayError::NoRenderTarget));
    assert_eq!(o.present_scene(false), Err(OverlayError::NoRenderTarget));
    assert!(o.presented.is_none());
    assert_eq!(o.begin_scene(), Err(OverlayError::NoRenderTarget));
    assert_eq!(o.record_draw(), Err(OverlayError::NoRenderTarget));
}

#[test]
fn clean_frame_presents_transparent() {
    let mut o = ready_overlay();
    assert_eq!(o.begin_scene(), Ok(()));
    assert_eq!(o.present_scene(true), Ok(()));
    assert_eq!(o.presented, Some(SceneContent::Transparent));
    assert_eq!(o.skia_context.as_ref().unwrap().content, SceneContent::Transparent);
}

#[test]
fn painted_frame_presents_painted() {
    let mut o = ready_overlay();
    o.begin_scene().unwrap();
    assert_eq!(o.record_draw(), Ok(()));
    o.present_scene(true).unwrap();
    assert_eq!(o.presented, Some(SceneContent::Painted));
}

#[test]
fn failed_swap_surfaces_and_changes_nothing() {
    let mut o = ready_overlay();
    o.begin_scene().unwrap();
    assert_eq!(o.present_scene(false), Err(OverlayError::FailedToSwapBuffers));
    assert!(o.presented.is_none());
}

#[test]
fn teardown_with_renderer_runs_full_plan() {
    let mut o = ready_overlay();
    let steps = o.teardown(true);
    assert_eq!(
        steps,
        vec![
            TeardownStep::MakeCurrent,
            TeardownStep::ClearCanvas,
            TeardownStep::FlushSurface,
            TeardownStep::SwapBuffers,
            TeardownStep::DestroySurface,
            TeardownStep::GlRelease(ReleaseStep::ClearCurrentContext),
            TeardownStep::GlRelease(ReleaseStep::DestroyContext),
            TeardownStep::GlRelease(ReleaseStep::ReleaseDeviceSurface),
        ]
    );
    assert!(o.gl_context.is_none() && o.skia_context.is_none());
}

#[test]
fn teardown_skips_cleanup_when_context_rebind_fails() {
    let mut o = ready_overlay();
    let steps = o.teardown(false);
    assert_eq!(
        steps,
        vec![
            TeardownStep::MakeCurrent,
            TeardownStep::DestroySurface,
            TeardownStep::GlRelease(ReleaseStep::ClearCurrentContext),
            TeardownStep::GlRelease(ReleaseStep::DestroyContext),
            TeardownStep::GlRelease(ReleaseStep::ReleaseDeviceSurface),
        ]
    );
}

#[test]
fn teardown_without_renderer_does_nothing() {
    let mut o = Overlay::new(String::from("Tahoma"));
    assert_eq!(o.teardown(true), Vec::new());
}

#[test]
fn teardown_never_destroys_context_before_surface() {
    for make_current_ok in [false, true] {
        let mut o = ready_overlay();
        let steps = o.teardown(make_current_ok);
        let destroy_context = steps
            .iter()
            .position(|s| *s == TeardownStep::GlRelease(ReleaseStep::DestroyContext))
            .unwrap();
        let destroy_surface = steps
            .iter()
            .position(|s| *s == TeardownStep::DestroySurface)
            .unwrap();
        assert!(destroy_surface < destroy_context);
    }
}

#[test]
fn styling_values_are_fixed() {
    assert_eq!(layered_style(0x180), 0x180 | LAYERED_WINDOW_STYLE);
    assert_eq!(layered_style(0), 0x20);
    let m = frame_margins();
    assert_eq!((m.left, m.right, m.top, m.bottom), (-1, -1, -1, -1));
    let a = layered_attributes();
    assert_eq!(a.color_key, 0);
    assert_eq!(a.alpha, WINDOW_ALPHA);
    assert!(a.alpha_only);
}
