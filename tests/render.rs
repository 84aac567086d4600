use hwcodec::render::{render_status, ForeignTexture, Render, RenderError, SurfaceState};

// A native status for a texture that was allocated against another device.
const WRONG_DEVICE: i32 = -2005270527;

#[test]
fn null_render_object_is_refused() {
    assert!(Render::new(0, 7).is_err());
    assert!(Render::new(1, 7).is_ok());
}

#[test]
fn texture_of_another_device_is_an_interop_failure_with_the_native_code() {
    let mut s = Render::new(0x1000, 0x2000).unwrap();
    // The native composite call rejects a texture of another device.
    let tex = ForeignTexture { handle: 3 };
    assert_eq!(s.render(&tex, WRONG_DEVICE), Err(RenderError::InteropFailure(WRONG_DEVICE)));
    assert_ne!(s.render(&tex, WRONG_DEVICE), Ok(()));
}

#[test]
fn texture_of_the_same_device_is_composited() {
    let mut s = Render::new(0x1000, 0x2000).unwrap();
    assert_eq!(s.device(), 0x2000);
    let tex = ForeignTexture { handle: 3 };
    assert_eq!(s.render(&tex, 0), Ok(()));
}

#[test]
fn native_status_is_passed_through() {
    assert_eq!(render_status(0), Ok(()));
    assert_eq!(render_status(1), Err(RenderError::InteropFailure(1)));
    assert_eq!(render_status(i32::MIN), Err(RenderError::InteropFailure(i32::MIN)));
}

#[test]
fn destroy_releases_the_render_object() {
    let mut s = Render::new(0x1000, 0x2000).unwrap();
    assert_eq!(s.state(), SurfaceState::Created);
    assert_eq!(s.drop(), 0x1000);
    assert_eq!(s.state(), SurfaceState::Destroyed);
}

#[test]
fn render_after_destroy_is_refused() {
    let mut s = Render::new(0x1000, 0x2000).unwrap();
    let tex = ForeignTexture { handle: 3 };
    s.drop();
    assert_eq!(s.render(&tex, 0), Err(RenderError::Destroyed));
    assert_eq!(s.render(&tex, WRONG_DEVICE), Err(RenderError::Destroyed));
}
