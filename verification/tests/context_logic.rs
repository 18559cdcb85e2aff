use rpi_egl::drm::{DRMModeModeInfo, RawDRMModeModeInfo};
use rpi_egl::egl_utils::{
    context_attributes, EGL_ALPHA_SIZE, EGL_BIND_TO_TEXTURE_RGBA, EGL_BLUE_SIZE,
    EGL_CONTEXT_CLIENT_VERSION, EGL_GREEN_SIZE, EGL_NONE, EGL_OPENGL_ES2_BIT, EGL_RED_SIZE,
    EGL_RENDERABLE_TYPE, EGL_SURFACE_TYPE, EGL_TRUE, EGL_WINDOW_BIT,
};
use rpi_egl::gbm_formats::GBM_FORMAT_XRGB8888;
use rpi_egl::vc4_context;
use rpi_egl::vc4_context::{display_rects, Rect};
use rpi_egl::vc6_context;
use rpi_egl::vc6_context::{framebuffer_params, surface_params, SwapState, GBM_FORMAT};

fn sample_mode() -> DRMModeModeInfo {
    let mut name = [0u8; 32];
    name[..9].copy_from_slice(b"1920x1080");
    DRMModeModeInfo::from_raw(&RawDRMModeModeInfo {
        clock: 148500,
        hdisplay: 1920,
        hsync_start: 2008,
        hsync_end: 2052,
        htotal: 2200,
        hskew: 0,
        vdisplay: 1080,
        vsync_start: 1084,
        vsync_end: 1089,
        vtotal: 1125,
        vscan: 0,
        vrefresh: 60,
        flags: 5,
        mode_type: 72,
        name,
    })
}

#[test]
fn context_attribute_list_requests_es2() {
    assert_eq!(
        context_attributes(),
        vec![EGL_CONTEXT_CLIENT_VERSION, 2, EGL_NONE]
    );
}

#[test]
fn modeset_config_attributes_ask_for_opaque_rgb() {
    assert_eq!(
        vc6_context::config_attributes(),
        vec![
            EGL_SURFACE_TYPE,
            EGL_WINDOW_BIT,
            EGL_RED_SIZE,
            8,
            EGL_GREEN_SIZE,
            8,
            EGL_BLUE_SIZE,
            8,
            EGL_ALPHA_SIZE,
            0,
            EGL_RENDERABLE_TYPE,
            EGL_OPENGL_ES2_BIT,
            EGL_NONE,
        ]
    );
}

#[test]
fn compositor_config_attributes_ask_for_textured_rgba() {
    assert_eq!(
        vc4_context::config_attributes(),
        vec![
            EGL_SURFACE_TYPE,
            EGL_WINDOW_BIT,
            EGL_RED_SIZE,
            8,
            EGL_GREEN_SIZE,
            8,
            EGL_BLUE_SIZE,
            8,
            EGL_ALPHA_SIZE,
            8,
            EGL_RENDERABLE_TYPE,
            EGL_OPENGL_ES2_BIT,
            EGL_BIND_TO_TEXTURE_RGBA,
            EGL_TRUE,
            EGL_NONE,
        ]
    );
}

#[test]
fn the_scanout_surface_takes_the_modes_resolution() {
    let p = surface_params(&sample_mode());
    assert_eq!(p.width, 1920);
    assert_eq!(p.height, 1080);
    assert_eq!(p.format, GBM_FORMAT_XRGB8888);
    assert_eq!(GBM_FORMAT, GBM_FORMAT_XRGB8888);
    assert_eq!(p.flags, 5);
}

#[test]
fn framebuffers_are_registered_as_depth_24_bpp_32() {
    let (w, h, depth, bpp) = framebuffer_params(&sample_mode());
    assert_eq!(w, 1920);
    assert_eq!(h, 1080);
    assert_eq!(depth, 24);
    assert_eq!(bpp, 32);
}

#[test]
fn the_first_frame_frees_nothing() {
    let mut state = SwapState::new();
    assert_eq!(state.advance(0x1000, 7), None);
    assert_eq!(state.previous_bo, Some(0x1000));
    assert_eq!(state.previous_fb, 7);
}

#[test]
fn each_later_frame_frees_the_one_before_it() {
    let mut state = SwapState::new();
    assert_eq!(state.advance(0x1000, 7), None);
    assert_eq!(state.advance(0x2000, 9), Some((7, 0x1000)));
    assert_eq!(state.advance(0x1000, 11), Some((9, 0x2000)));
    assert_eq!(state.previous_bo, Some(0x1000));
    assert_eq!(state.previous_fb, 11);
}

#[test]
fn teardown_frees_the_frame_on_screen_once() {
    let mut state = SwapState::new();
    assert_eq!(state.take_cleanup(), None);
    state.advance(0x1000, 7);
    assert_eq!(state.take_cleanup(), Some((7, 0x1000)));
    assert_eq!(state.take_cleanup(), None);
}

#[test]
fn a_successful_egl_start_hands_out_nonzero_handles() {
    // Whether the default display initialises depends on the machine; when
    // the chain succeeds, the handles the contracts promise are non-zero.
    if let Ok(init) = vc4_context::init_egl() {
        assert_ne!(init.display, 0);
        assert_ne!(init.context, 0);
    }
    if let Ok(session) = vc6_context::egl_setup(0) {
        assert_ne!(session.display, 0);
    }
}

#[test]
fn the_compositor_element_covers_the_display() {
    let (dest, src) = display_rects(1920, 1080);
    assert_eq!(
        dest,
        Rect {
            x: 0,
            y: 0,
            width: 1920,
            height: 1080
        }
    );
    assert_eq!(
        src,
        Rect {
            x: 0,
            y: 0,
            width: 0,
            height: 0
        }
    );
}
