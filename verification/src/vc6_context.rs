//! The mode-setting bootstrap for the newer display pipeline: the scanout
//! surface's parameters, the two EGL phases around the configuration fetch,
//! and the rotation of framebuffer objects that double-buffering performs
//! each frame.

use vstd::prelude::*;

use crate::drm::DRMModeModeInfo;
use crate::egl_utils::{
    context_attributes, egl_bind_api, egl_create_context, egl_create_window_surface,
    egl_get_display, egl_initialize, egl_make_current, match_config_to_visual, EglError,
    EGL_ALPHA_SIZE, EGL_BLUE_SIZE, EGL_GREEN_SIZE, EGL_NONE, EGL_OPENGL_ES2_BIT,
    EGL_OPENGL_ES_API, EGL_RED_SIZE, EGL_RENDERABLE_TYPE, EGL_SURFACE_TYPE, EGL_WINDOW_BIT,
};
use crate::gbm::{GBM_BO_USE_RENDERING, GBM_BO_USE_SCANOUT};
use crate::gbm_formats::GBM_FORMAT_XRGB8888;

verus! {

/// The buffer format the scanout surface is created with.
pub const GBM_FORMAT: u32 = GBM_FORMAT_XRGB8888;

/// The attribute list that requests a window-capable configuration with
/// eight bits per colour channel and no alpha.
pub fn config_attributes() -> (r: Vec<i32>)
    ensures
        r@ == seq![
            EGL_SURFACE_TYPE,
            EGL_WINDOW_BIT,
            EGL_RED_SIZE,
            8,
            EGL_GREEN_SIZE,
            8,
            EGL_BLUE_SIZE,
            8,
            EGL_ALPHA_SIZE,
            0,
            EGL_RENDERABLE_TYPE,
            EGL_OPENGL_ES2_BIT,
            EGL_NONE,
        ],
{
    let r: Vec<i32> = vec![
        EGL_SURFACE_TYPE,
        EGL_WINDOW_BIT,
        EGL_RED_SIZE,
        8,
        EGL_GREEN_SIZE,
        8,
        EGL_BLUE_SIZE,
        8,
        EGL_ALPHA_SIZE,
        0,
        EGL_RENDERABLE_TYPE,
        EGL_OPENGL_ES2_BIT,
        EGL_NONE,
    ];
    proof {
        assert(r@ =~= seq![
            EGL_SURFACE_TYPE,
            EGL_WINDOW_BIT,
            EGL_RED_SIZE,
            8,
            EGL_GREEN_SIZE,
            8,
            EGL_BLUE_SIZE,
            8,
            EGL_ALPHA_SIZE,
            0,
            EGL_RENDERABLE_TYPE,
            EGL_OPENGL_ES2_BIT,
            EGL_NONE,
        ]);
    }
    r
}

/// What the scanout surface is created with: the mode's resolution, the
/// 32-bit RGB format, and buffers fit for both scanout and rendering.
#[derive(Clone, Copy, Debug, PartialEq, Eq, Structural)]
pub struct SurfaceParams {
    pub width: u32,
    pub height: u32,
    pub format: u32,
    pub flags: u32,
}

/// Derives the scanout surface's parameters from the chosen mode.
pub fn surface_params(mode: &DRMModeModeInfo) -> (r: SurfaceParams)
    ensures
        r.width == mode.hdisplay as u32,
        r.height == mode.vdisplay as u32,
        r.format == GBM_FORMAT_XRGB8888,
        r.flags == (GBM_BO_USE_SCANOUT | GBM_BO_USE_RENDERING),
{
    SurfaceParams {
        width: mode.hdisplay as u32,
        height: mode.vdisplay as u32,
        format: GBM_FORMAT,
        flags: GBM_BO_USE_SCANOUT | GBM_BO_USE_RENDERING,
    }
}

/// What each frame's framebuffer is registered with: the mode's resolution,
/// a colour depth of 24 and 32 bits per pixel.
pub fn framebuffer_params(mode: &DRMModeModeInfo) -> (r: (u32, u32, u8, u8))
    ensures
        r.0 == mode.hdisplay as u32,
        r.1 == mode.vdisplay as u32,
        r.2 == 24,
        r.3 == 32,
{
    (mode.hdisplay as u32, mode.vdisplay as u32, 24, 32)
}

/// An initialised EGL display connection.
#[derive(Clone, Copy, Debug, PartialEq, Eq, Structural)]
pub struct EglSession {
    pub display: usize,
    pub major: i32,
    pub minor: i32,
}

/// The handles the completed EGL phase hands back.
#[derive(Clone, Copy, Debug, PartialEq, Eq, Structural)]
pub struct EglSetup {
    pub config: usize,
    pub context: usize,
    pub surface: usize,
}

/// The first EGL phase: opens the display over the buffer-manager device,
/// initialises it and binds the OpenGL ES API.
pub fn egl_setup(native_device: usize) -> (r: Result<EglSession, EglError>)
    ensures
        r is Ok ==> r->Ok_0.display != 0,
{
    let display = match egl_get_display(native_device) {
        Some(d) => d,
        None => {
            return Err(EglError::NoDisplay);
        },
    };
    let version = match egl_initialize(display) {
        Some(v) => v,
        None => {
            return Err(EglError::InitializeFailed);
        },
    };
    if !egl_bind_api(EGL_OPENGL_ES_API) {
        return Err(EglError::BindApiFailed);
    }
    Ok(EglSession { display, major: version.0, minor: version.1 })
}

/// The second EGL phase: picks the configuration whose native visual equals
/// `visual_id` (the criterion is the contract of `select_visual_match`,
/// which `match_config_to_visual` composes with the display's answers),
/// creates the ES 2 context, creates the window surface over the
/// buffer-manager surface, and makes them current.
pub fn egl_complete(session: &EglSession, configs: &Vec<usize>, visual_id: i32, window: usize) -> (r:
    Result<EglSetup, EglError>)
    ensures
        r is Ok ==> {
            &&& configs@.contains(r->Ok_0.config)
            &&& r->Ok_0.context != 0
            &&& r->Ok_0.surface != 0
        },
{
    let config = match match_config_to_visual(session.display, visual_id, configs) {
        Some(c) => c,
        None => {
            return Err(EglError::NoMatchingConfig);
        },
    };
    let ctx_attribs = context_attributes();
    let context = match egl_create_context(session.display, config, &ctx_attribs) {
        Some(c) => c,
        None => {
            return Err(EglError::ContextFailed);
        },
    };
    let surface = match egl_create_window_surface(session.display, config, window) {
        Some(s) => s,
        None => {
            return Err(EglError::SurfaceFailed);
        },
    };
    let _ = egl_make_current(session.display, surface, surface, context);
    Ok(EglSetup { config, context, surface })
}

/// The double-buffering ledger: the buffer object and framebuffer that the
/// display is scanning out now, if a frame has been presented yet.
#[derive(Clone, Copy, Debug, PartialEq, Eq, Structural)]
pub struct SwapState {
    pub previous_bo: Option<usize>,
    pub previous_fb: u32,
}

impl SwapState {
    /// Before the first frame nothing is on screen.
    pub fn new() -> (r: SwapState)
        ensures
            r.previous_bo is None,
            r.previous_fb == 0,
    {
        SwapState { previous_bo: None, previous_fb: 0 }
    }

    /// Records that the frame built on `bo`, registered as framebuffer
    /// `fb`, is now on screen, and hands back the pair that may be freed:
    /// the framebuffer and buffer object of the frame before it, if any.
    pub fn advance(&mut self, bo: usize, fb: u32) -> (r: Option<(u32, usize)>)
        ensures
            final(self).previous_bo == Some(bo),
            final(self).previous_fb == fb,
            old(self).previous_bo is Some ==> r == Some(
                (old(self).previous_fb, old(self).previous_bo->0),
            ),
            old(self).previous_bo is None ==> r is None,
    {
        let r = match self.previous_bo {
            Some(b) => Some((self.previous_fb, b)),
            None => None,
        };
        self.previous_bo = Some(bo);
        self.previous_fb = fb;
        r
    }

    /// Hands back the pair still on screen for teardown, if any, and
    /// forgets it.
    pub fn take_cleanup(&mut self) -> (r: Option<(u32, usize)>)
        ensures
            final(self).previous_bo is None,
            final(self).previous_fb == old(self).previous_fb,
            old(self).previous_bo is Some ==> r == Some(
                (old(self).previous_fb, old(self).previous_bo->0),
            ),
            old(self).previous_bo is None ==> r is None,
    {
        let r = match self.previous_bo {
            Some(b) => Some((self.previous_fb, b)),
            None => None,
        };
        self.previous_bo = None;
        r
    }
}

} // verus!
