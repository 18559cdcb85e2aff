//! The bootstrap for the legacy compositor pipeline: the EGL initialisation
//! over the default display, the window-surface step over a compositor
//! element, and the geometry that element is placed with.

use vstd::prelude::*;

use crate::egl_utils::{
    context_attributes, egl_bind_api, egl_choose_first_config, egl_create_context,
    egl_create_window_surface, egl_get_display, egl_initialize, egl_make_current, EglError,
    EGL_ALPHA_SIZE, EGL_BIND_TO_TEXTURE_RGBA, EGL_BLUE_SIZE, EGL_GREEN_SIZE, EGL_NONE,
    EGL_OPENGL_ES2_BIT, EGL_OPENGL_ES_API, EGL_RED_SIZE, EGL_RENDERABLE_TYPE, EGL_SURFACE_TYPE,
    EGL_TRUE, EGL_WINDOW_BIT,
};

verus! {

/// The attribute list that requests a window-capable configuration with
/// eight bits per channel, alpha included, bindable as an RGBA texture.
pub fn config_attributes() -> (r: Vec<i32>)
    ensures
        r@ == seq![
            EGL_SURFACE_TYPE,
            EGL_WINDOW_BIT,
            EGL_RED_SIZE,
            8,
            EGL_GREEN_SIZE,
            8,
            EGL_BLUE_SIZE,
            8,
            EGL_ALPHA_SIZE,
            8,
            EGL_RENDERABLE_TYPE,
            EGL_OPENGL_ES2_BIT,
            EGL_BIND_TO_TEXTURE_RGBA,
            EGL_TRUE,
            EGL_NONE,
        ],
{
    let r: Vec<i32> = vec![
        EGL_SURFACE_TYPE,
        EGL_WINDOW_BIT,
        EGL_RED_SIZE,
        8,
        EGL_GREEN_SIZE,
        8,
        EGL_BLUE_SIZE,
        8,
        EGL_ALPHA_SIZE,
        8,
        EGL_RENDERABLE_TYPE,
        EGL_OPENGL_ES2_BIT,
        EGL_BIND_TO_TEXTURE_RGBA,
        EGL_TRUE,
        EGL_NONE,
    ];
    proof {
        assert(r@ =~= seq![
            EGL_SURFACE_TYPE,
            EGL_WINDOW_BIT,
            EGL_RED_SIZE,
            8,
            EGL_GREEN_SIZE,
            8,
            EGL_BLUE_SIZE,
            8,
            EGL_ALPHA_SIZE,
            8,
            EGL_RENDERABLE_TYPE,
            EGL_OPENGL_ES2_BIT,
            EGL_BIND_TO_TEXTURE_RGBA,
            EGL_TRUE,
            EGL_NONE,
        ]);
    }
    r
}

/// What the EGL initialisation hands back: the chosen configuration, the
/// context, the display, and the implementation's version.
#[derive(Clone, Copy, Debug, PartialEq, Eq, Structural)]
pub struct EglInit {
    pub config: usize,
    pub context: usize,
    pub display: usize,
    pub major: i32,
    pub minor: i32,
}

/// The EGL half of the legacy bootstrap: opens the default display,
/// initialises it, takes the first configuration that satisfies the
/// attribute list, binds the OpenGL ES API and creates the ES 2 context.
pub fn init_egl() -> (r: Result<EglInit, EglError>)
    ensures
        r is Ok ==> r->Ok_0.display != 0 && r->Ok_0.context != 0,
{
    let display = match egl_get_display(0) {
        Some(d) => d,
        None => {
            return Err(EglError::NoDisplay);
        },
    };
    let attribs = config_attributes();
    let version = match egl_initialize(display) {
        Some(v) => v,
        None => {
            return Err(EglError::InitializeFailed);
        },
    };
    let config = match egl_choose_first_config(display, &attribs) {
        Some(c) => c,
        None => {
            return Err(EglError::NoConfig);
        },
    };
    if !egl_bind_api(EGL_OPENGL_ES_API) {
        return Err(EglError::BindApiFailed);
    }
    let ctx_attribs = context_attributes();
    let context = match egl_create_context(display, config, &ctx_attribs) {
        Some(c) => c,
        None => {
            return Err(EglError::ContextFailed);
        },
    };
    Ok(EglInit { config, context, display, major: version.0, minor: version.1 })
}

/// Creates the window surface over the compositor window and makes the
/// context current on it.
pub fn egl_from_dispmanx(init: &EglInit, window: usize) -> (r: Result<usize, EglError>)
    ensures
        r is Ok ==> r->Ok_0 != 0,
{
    let surface = match egl_create_window_surface(init.display, init.config, window) {
        Some(s) => s,
        None => {
            return Err(EglError::SurfaceFailed);
        },
    };
    if !egl_make_current(init.display, surface, surface, init.context) {
        return Err(EglError::MakeCurrentFailed);
    }
    Ok(surface)
}

/// A rectangle in compositor coordinates.
#[derive(Clone, Copy, Debug, PartialEq, Eq, Structural)]
pub struct Rect {
    pub x: i32,
    pub y: i32,
    pub width: i32,
    pub height: i32,
}

/// The geometry the compositor element is placed with: the destination
/// rectangle covers the whole display, the source rectangle is left zero.
pub fn display_rects(width: u32, height: u32) -> (r: (Rect, Rect))
    ensures
        r.0 == (Rect { x: 0, y: 0, width: width as i32, height: height as i32 }),
        r.1 == (Rect { x: 0, y: 0, width: 0, height: 0 }),
{
    (
        Rect { x: 0, y: 0, width: width as i32, height: height as i32 },
        Rect { x: 0, y: 0, width: 0, height: 0 },
    )
}

} // verus!
