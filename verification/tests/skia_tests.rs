use overlay_hijack::errors::OverlayError;
use overlay_hijack::skia::{SceneContent, SkiaContext, SkiaSetup};

fn good_setup() -> SkiaSetup {
    SkiaSetup { interface_ok: true, direct_context_ok: true, fboid: 7, surface_wrap_ok: true }
}

#[test]
fn bridge_wraps_the_read_back_framebuffer() {
    let s = SkiaContext::new(1920, 1080, &good_setup()).unwrap();
    assert_eq!(s.width, 1920);
    assert_eq!(s.height, 1080);
    assert_eq!(s.framebuffer.fboid, 7);
    assert!(s.framebuffer.format_rgba8);
    assert!(!s.framebuffer.protected);
    assert_eq!(s.content, SceneContent::Painted);
}

#[test]
fn bridge_fails_at_first_failing_step() {
    let mut setup = good_setup();
    setup.interface_ok = false;
    assert_eq!(
        SkiaContext::new(1920, 1080, &setup).err(),
        Some(OverlayError::FailedToCreateSkiaInterface)
    );

    let mut setup = good_setup();
    setup.direct_context_ok = false;
    assert_eq!(
        SkiaContext::new(1920, 1080, &setup).err(),
        Some(OverlayError::FailedToCreateDirectContext)
    );

    let mut setup = good_setup();
    setup.surface_wrap_ok = false;
    assert_eq!(
        SkiaContext::new(1920, 1080, &setup).err(),
        Some(OverlayError::FailedToCreateSkiaSurface)
    );
}

#[test]
fn clear_and_paint_track_content() {
    let mut s = SkiaContext::new(64, 64, &good_setup()).unwrap();
    s.clear();
    assert_eq!(s.content, SceneContent::Transparent);
    s.mark_painted();
    assert_eq!(s.content, SceneContent::Painted);
}
