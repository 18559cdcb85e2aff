//! The library's EGL layer: the wire constants the bootstrap uses, narrow
//! trusted wrappers around the EGL binding, the error-message table, the
//! search for a configuration that matches the scanout format, and the
//! configuration report.
//!
//! EGL handles are opaque addresses; the library carries them as plain
//! `usize` values and never looks inside them.

use vstd::prelude::*;
use vstd::string::StringExecFns;

use crate::text::{push_decimal, push_hex_prefixed, spec_decimal, spec_hex_prefixed};

verus! {

pub const EGL_SUCCESS: i32 = 0x3000;

pub const EGL_NOT_INITIALIZED: i32 = 0x3001;

pub const EGL_BAD_ACCESS: i32 = 0x3002;

pub const EGL_BAD_ALLOC: i32 = 0x3003;

pub const EGL_BAD_ATTRIBUTE: i32 = 0x3004;

pub const EGL_BAD_CONFIG: i32 = 0x3005;

pub const EGL_BAD_CONTEXT: i32 = 0x3006;

pub const EGL_BAD_CURRENT_SURFACE: i32 = 0x3007;

pub const EGL_BAD_DISPLAY: i32 = 0x3008;

pub const EGL_BAD_MATCH: i32 = 0x3009;

pub const EGL_BAD_NATIVE_PIXMAP: i32 = 0x300A;

pub const EGL_BAD_NATIVE_WINDOW: i32 = 0x300B;

pub const EGL_BAD_PARAMETER: i32 = 0x300C;

pub const EGL_BAD_SURFACE: i32 = 0x300D;

pub const EGL_CONTEXT_LOST: i32 = 0x300E;

pub const EGL_BUFFER_SIZE: i32 = 0x3020;

pub const EGL_ALPHA_SIZE: i32 = 0x3021;

pub const EGL_BLUE_SIZE: i32 = 0x3022;

pub const EGL_GREEN_SIZE: i32 = 0x3023;

pub const EGL_RED_SIZE: i32 = 0x3024;

pub const EGL_DEPTH_SIZE: i32 = 0x3025;

pub const EGL_CONFIG_CAVEAT: i32 = 0x3027;

pub const EGL_CONFIG_ID: i32 = 0x3028;

pub const EGL_NATIVE_RENDERABLE: i32 = 0x302D;

pub const EGL_NATIVE_VISUAL_ID: i32 = 0x302E;

pub const EGL_NATIVE_VISUAL_TYPE: i32 = 0x302F;

pub const EGL_SURFACE_TYPE: i32 = 0x3033;

pub const EGL_NONE: i32 = 0x3038;

pub const EGL_BIND_TO_TEXTURE_RGB: i32 = 0x3039;

pub const EGL_BIND_TO_TEXTURE_RGBA: i32 = 0x303A;

pub const EGL_COLOR_BUFFER_TYPE: i32 = 0x303F;

pub const EGL_RENDERABLE_TYPE: i32 = 0x3040;

pub const EGL_RGB_BUFFER: i32 = 0x308E;

pub const EGL_WINDOW_BIT: i32 = 0x0004;

pub const EGL_OPENGL_ES2_BIT: i32 = 0x0004;

pub const EGL_CONTEXT_CLIENT_VERSION: i32 = 0x3098;

pub const EGL_OPENGL_ES_API: u32 = 0x30A0;

pub const EGL_TRUE: i32 = 1;

/// Relies on egl::get_display, which hands out `None` in place of a null
/// display handle.
#[verifier::external_body]
pub(crate) fn egl_get_display(native: usize) -> (r: Option<usize>)
    ensures
        r is Some ==> r->0 != 0,
{
    match egl::get_display(native as egl::EGLNativeDisplayType) {
        Some(d) => Some(d as usize),
        None => None,
    }
}

/// Relies on egl::initialize; on success the out-parameters carry the
/// version of the EGL implementation.
#[verifier::external_body]
pub(crate) fn egl_initialize(display: usize) -> (r: Option<(i32, i32)>) {
    let mut major: egl::EGLint = 0;
    let mut minor: egl::EGLint = 0;
    if egl::initialize(display as egl::EGLDisplay, &mut major, &mut minor) {
        Some((major, minor))
    } else {
        None
    }
}

/// Relies on egl::bind_api, which reports whether the rendering API was
/// accepted.
#[verifier::external_body]
pub(crate) fn egl_bind_api(api: u32) -> (r: bool) {
    egl::bind_api(api as egl::EGLenum)
}

/// Relies on egl::choose_config asked for a single configuration; it hands
/// out `None` when none matches the attribute list.
#[verifier::external_body]
pub(crate) fn egl_choose_first_config(display: usize, attribs: &Vec<i32>) -> (r: Option<usize>) {
    match egl::choose_config(display as egl::EGLDisplay, attribs.as_slice(), 1) {
        Some(c) => Some(c as usize),
        None => None,
    }
}

/// Relies on egl::get_config_attrib, which reports failure instead of
/// filling its out-parameter.
#[verifier::external_body]
pub(crate) fn egl_get_config_attrib(display: usize, config: usize, attribute: i32) -> (r: Option<
    i32,
>) {
    let mut value: egl::EGLint = 0;
    if egl::get_config_attrib(
        display as egl::EGLDisplay,
        config as egl::EGLConfig,
        attribute,
        &mut value,
    ) {
        Some(value)
    } else {
        None
    }
}

/// Relies on egl::create_context with no shared context, which hands out
/// `None` in place of a null context handle.
#[verifier::external_body]
pub(crate) fn egl_create_context(display: usize, config: usize, attribs: &Vec<i32>) -> (r: Option<
    usize,
>)
    ensures
        r is Some ==> r->0 != 0,
{
    match egl::create_context(
        display as egl::EGLDisplay,
        config as egl::EGLConfig,
        egl::EGL_NO_CONTEXT,
        attribs.as_slice(),
    ) {
        Some(c) => Some(c as usize),
        None => None,
    }
}

/// Relies on egl::create_window_surface with an empty attribute list, which
/// hands out `None` in place of a null surface handle.
#[verifier::external_body]
pub(crate) fn egl_create_window_surface(display: usize, config: usize, window: usize) -> (r:
    Option<usize>)
    ensures
        r is Some ==> r->0 != 0,
{
    match egl::create_window_surface(
        display as egl::EGLDisplay,
        config as egl::EGLConfig,
        window as egl::EGLNativeWindowType,
        &[],
    ) {
        Some(s) => Some(s as usize),
        None => None,
    }
}

/// Relies on egl::make_current, which reports whether the context was bound
/// to the surface.
#[verifier::external_body]
pub(crate) fn egl_make_current(display: usize, draw: usize, read: usize, context: usize) -> (r:
    bool) {
    egl::make_current(
        display as egl::EGLDisplay,
        draw as egl::EGLSurface,
        read as egl::EGLSurface,
        context as egl::EGLContext,
    )
}

/// Relies on egl::get_error, which reports the calling thread's last EGL
/// error code.
#[verifier::external_body]
pub(crate) fn egl_get_error() -> (r: i32) {
    egl::get_error()
}

/// Which step of the EGL bootstrap failed.
#[derive(Clone, Copy, Debug, PartialEq, Eq, Structural)]
pub enum EglError {
    /// The display connection could not be opened.
    NoDisplay,
    /// The display refused to initialise.
    InitializeFailed,
    /// The OpenGL ES API could not be bound.
    BindApiFailed,
    /// No configuration satisfied the attribute list.
    NoConfig,
    /// No configuration matched the requested native visual.
    NoMatchingConfig,
    /// The rendering context could not be created.
    ContextFailed,
    /// The window surface could not be created.
    SurfaceFailed,
    /// The context could not be made current.
    MakeCurrentFailed,
}

/// The diagnostic sentence for an EGL error code.
pub open spec fn egl_error_message(code: i32) -> Seq<char> {
    if code == EGL_SUCCESS {
        "The last function succeeded without error."@
    } else if code == EGL_NOT_INITIALIZED {
        "EGL is not initialized, or could not be initialized, for the specified EGL display connection."@
    } else if code == EGL_BAD_ACCESS {
        "EGL cannot access a requested resource (for example a context is bound in another thread)."@
    } else if code == EGL_BAD_ALLOC {
        "EGL failed to allocate resources for the requested operation."@
    } else if code == EGL_BAD_ATTRIBUTE {
        "An unrecognized attribute or attribute value was passed in the attribute list."@
    } else if code == EGL_BAD_CONTEXT {
        "An EGLContext argument does not name a valid EGL rendering context."@
    } else if code == EGL_BAD_CONFIG {
        "An EGLConfig argument does not name a valid EGL frame buffer configuration."@
    } else if code == EGL_BAD_CURRENT_SURFACE {
        "The current surface of the calling thread is a window, pixel buffer or pixmap that is no longer valid."@
    } else if code == EGL_BAD_DISPLAY {
        "An EGLDisplay argument does not name a valid EGL display connection."@
    } else if code == EGL_BAD_SURFACE {
        "An EGLSurface argument does not name a valid surface (window, pixel buffer or pixmap) configured for GL rendering."@
    } else if code == EGL_BAD_MATCH {
        "Arguments are inconsistent (for example, a valid context requires buffers not supplied by a valid surface)."@
    } else if code == EGL_BAD_PARAMETER {
        "One or more argument values are invalid."@
    } else if code == EGL_BAD_NATIVE_PIXMAP {
        "A NativePixmapType argument does not refer to a valid native pixmap."@
    } else if code == EGL_BAD_NATIVE_WINDOW {
        "A NativeWindowType argument does not refer to a valid native window."@
    } else if code == EGL_CONTEXT_LOST {
        "A power management event has occurred. The application must destroy all contexts and reinitialise OpenGL ES state and objects to continue rendering."@
    } else {
        "Unknown error!"@
    }
}

/// The diagnostic sentence for an EGL error code.
pub fn egl_get_error_str(code: i32) -> (r: &'static str)
    ensures
        r@ == egl_error_message(code),
{
    if code == EGL_SUCCESS {
        "The last function succeeded without error."
    } else if code == EGL_NOT_INITIALIZED {
        "EGL is not initialized, or could not be initialized, for the specified EGL display connection."
    } else if code == EGL_BAD_ACCESS {
        "EGL cannot access a requested resource (for example a context is bound in another thread)."
    } else if code == EGL_BAD_ALLOC {
        "EGL failed to allocate resources for the requested operation."
    } else if code == EGL_BAD_ATTRIBUTE {
        "An unrecognized attribute or attribute value was passed in the attribute list."
    } else if code == EGL_BAD_CONTEXT {
        "An EGLContext argument does not name a valid EGL rendering context."
    } else if code == EGL_BAD_CONFIG {
        "An EGLConfig argument does not name a valid EGL frame buffer configuration."
    } else if code == EGL_BAD_CURRENT_SURFACE {
        "The current surface of the calling thread is a window, pixel buffer or pixmap that is no longer valid."
    } else if code == EGL_BAD_DISPLAY {
        "An EGLDisplay argument does not name a valid EGL display connection."
    } else if code == EGL_BAD_SURFACE {
        "An EGLSurface argument does not name a valid surface (window, pixel buffer or pixmap) configured for GL rendering."
    } else if code == EGL_BAD_MATCH {
        "Arguments are inconsistent (for example, a valid context requires buffers not supplied by a valid surface)."
    } else if code == EGL_BAD_PARAMETER {
        "One or more argument values are invalid."
    } else if code == EGL_BAD_NATIVE_PIXMAP {
        "A NativePixmapType argument does not refer to a valid native pixmap."
    } else if code == EGL_BAD_NATIVE_WINDOW {
        "A NativeWindowType argument does not refer to a valid native window."
    } else if code == EGL_CONTEXT_LOST {
        "A power management event has occurred. The application must destroy all contexts and reinitialise OpenGL ES state and objects to continue rendering."
    } else {
        "Unknown error!"
    }
}

/// Reads the calling thread's last EGL error and pairs it with its
/// diagnostic sentence.
pub fn last_error() -> (r: (i32, &'static str))
    ensures
        r.1@ == egl_error_message(r.0),
{
    let code = egl_get_error();
    (code, egl_get_error_str(code))
}

/// Whether a reported native visual identifier is the wanted one: the query
/// must have succeeded and its answer must equal `wanted`.
pub open spec fn visual_match_spec(reported: Option<i32>, wanted: i32) -> bool {
    reported == Some(wanted)
}

/// The matching criterion on one configuration: a refused query is no
/// match, a reported identifier matches exactly when it equals `wanted`.
pub fn visual_id_matches(reported: Option<i32>, wanted: i32) -> (r: bool)
    ensures
        r == visual_match_spec(reported, wanted),
{
    match reported {
        Some(id) => id == wanted,
        None => false,
    }
}

/// Queries the display for the native visual identifier of each
/// configuration; a refused query is kept as `None` in its place.
pub fn read_visual_ids(display: usize, configs: &Vec<usize>) -> (r: Vec<Option<i32>>)
    ensures
        r@.len() == configs@.len(),
{
    let mut r: Vec<Option<i32>> = Vec::new();
    let mut i: usize = 0;
    while i < configs.len()
        invariant
            0 <= i <= configs@.len(),
            r@.len() == i,
        decreases configs@.len() - i,
    {
        r.push(egl_get_config_attrib(display, configs[i], EGL_NATIVE_VISUAL_ID));
        i += 1;
    }
    r
}

/// The selection over the reported identifiers: the least index whose
/// report matches `wanted`, and none exactly when no report matches. An
/// entry whose query was refused is passed over and the later entries are
/// still examined.
pub fn select_visual_match(ids: &Vec<Option<i32>>, wanted: i32) -> (r: Option<usize>)
    ensures
        r is Some ==> {
            &&& r->0 < ids@.len()
            &&& visual_match_spec(ids@[r->0 as int], wanted)
            &&& forall|j: int| 0 <= j < r->0 ==> !visual_match_spec(#[trigger] ids@[j], wanted)
        },
        r is None ==> forall|j: int|
            0 <= j < ids@.len() ==> !visual_match_spec(#[trigger] ids@[j], wanted),
{
    let mut i: usize = 0;
    while i < ids.len()
        invariant
            0 <= i <= ids@.len(),
            forall|j: int| 0 <= j < i ==> !visual_match_spec(#[trigger] ids@[j], wanted),
        decreases ids@.len() - i,
    {
        if visual_id_matches(ids[i], wanted) {
            return Some(i);
        }
        i += 1;
    }
    None
}

/// Picks the first configuration of `configs` whose native visual
/// identifier, as the display reports it, equals `visual_id`. The display's
/// answers are read by `read_visual_ids`; which configuration those answers
/// make the result is fixed by the contract of `select_visual_match`.
pub fn match_config_to_visual(display: usize, visual_id: i32, configs: &Vec<usize>) -> (r: Option<
    usize,
>)
    ensures
        r is Some ==> configs@.contains(r->0),
{
    let ids = read_visual_ids(display, configs);
    match select_visual_match(&ids, visual_id) {
        Some(i) => {
            proof {
                assert(configs@.contains(configs@[i as int]));
            }
            Some(configs[i])
        },
        None => None,
    }
}

/// The attribute list that requests an ES 2 context.
pub fn context_attributes() -> (r: Vec<i32>)
    ensures
        r@ == seq![EGL_CONTEXT_CLIENT_VERSION, 2, EGL_NONE],
{
    let r: Vec<i32> = vec![EGL_CONTEXT_CLIENT_VERSION, 2, EGL_NONE];
    proof {
        assert(r@ =~= seq![EGL_CONTEXT_CLIENT_VERSION, 2, EGL_NONE]);
    }
    r
}

/// The sixteen attributes of one configuration that the report prints. An
/// attribute the display refuses to describe is left at zero.
#[derive(Clone, Copy, Debug, PartialEq, Eq, Structural)]
pub struct ConfigAttribs {
    pub config_id: i32,
    pub config_caveat: i32,
    pub visual_id: i32,
    pub visual_type: i32,
    pub native_renderable: i32,
    pub renderable_type: i32,
    pub red_size: i32,
    pub green_size: i32,
    pub blue_size: i32,
    pub alpha_size: i32,
    pub depth_size: i32,
    pub buffer_size: i32,
    pub surface_type: i32,
    pub color_buffer_type: i32,
    pub rgb_bind: i32,
    pub rgba_bind: i32,
}

/// Reads one attribute, keeping zero where the display refuses it.
fn attrib_or_zero(display: usize, config: usize, attribute: i32) -> i32 {
    match egl_get_config_attrib(display, config, attribute) {
        Some(v) => v,
        None => 0,
    }
}

/// Queries the display for the attributes of one configuration.
pub fn read_config_attribs(display: usize, config: usize) -> ConfigAttribs {
    ConfigAttribs {
        config_id: attrib_or_zero(display, config, EGL_CONFIG_ID),
        config_caveat: attrib_or_zero(display, config, EGL_CONFIG_CAVEAT),
        visual_id: attrib_or_zero(display, config, EGL_NATIVE_VISUAL_ID),
        visual_type: attrib_or_zero(display, config, EGL_NATIVE_VISUAL_TYPE),
        native_renderable: attrib_or_zero(display, config, EGL_NATIVE_RENDERABLE),
        renderable_type: attrib_or_zero(display, config, EGL_RENDERABLE_TYPE),
        red_size: attrib_or_zero(display, config, EGL_RED_SIZE),
        green_size: attrib_or_zero(display, config, EGL_BLUE_SIZE),
        blue_size: attrib_or_zero(display, config, EGL_GREEN_SIZE),
        alpha_size: attrib_or_zero(display, config, EGL_ALPHA_SIZE),
        depth_size: attrib_or_zero(display, config, EGL_DEPTH_SIZE),
        buffer_size: attrib_or_zero(display, config, EGL_BUFFER_SIZE),
        surface_type: attrib_or_zero(display, config, EGL_SURFACE_TYPE),
        color_buffer_type: attrib_or_zero(display, config, EGL_COLOR_BUFFER_TYPE),
        rgb_bind: attrib_or_zero(display, config, EGL_BIND_TO_TEXTURE_RGB),
        rgba_bind: attrib_or_zero(display, config, EGL_BIND_TO_TEXTURE_RGBA),
    }
}

/// The renderable line: the native-renderable flag and the renderable-type
/// mask, both in hexadecimal.
pub open spec fn spec_renderable_line(a: ConfigAttribs) -> Seq<char> {
    "  Renderable : "@ + spec_hex_prefixed(a.native_renderable as u32) + " "@ + spec_hex_prefixed(
        a.renderable_type as u32,
    )
}

/// The visual line: the native visual identifier and type.
pub open spec fn spec_visual_line(a: ConfigAttribs) -> Seq<char> {
    "  Visual ID  : "@ + spec_hex_prefixed(a.visual_id as u32) + " "@ + spec_hex_prefixed(
        a.visual_type as u32,
    )
}

/// The identifier line: the configuration's id and its caveat.
pub open spec fn spec_config_id_line(a: ConfigAttribs) -> Seq<char> {
    "  Config ID  : "@ + spec_hex_prefixed(a.config_id as u32) + " "@ + spec_hex_prefixed(
        a.config_caveat as u32,
    )
}

/// The sizes line: buffer, colour and depth sizes in decimal.
pub open spec fn spec_sizes_line(a: ConfigAttribs) -> Seq<char> {
    "  Sizes      : "@ + spec_decimal(a.buffer_size as int) + ", "@ + spec_decimal(
        a.red_size as int,
    ) + ", "@ + spec_decimal(a.green_size as int) + ", "@ + spec_decimal(a.blue_size as int)
        + ", "@ + spec_decimal(a.alpha_size as int) + ", "@ + spec_decimal(a.depth_size as int)
}

/// The surface line: the surface-type mask in hexadecimal.
pub open spec fn spec_surface_line(a: ConfigAttribs) -> Seq<char> {
    "  Surface    : "@ + spec_hex_prefixed(a.surface_type as u32)
}

/// The colour-buffer line: RGB against luminance.
pub open spec fn spec_color_buffer_line(a: ConfigAttribs) -> Seq<char> {
    "  Color Buff : "@ + if a.color_buffer_type == EGL_RGB_BUFFER {
        "RGB"@
    } else {
        "LUMINANCE"@
    }
}

/// The textures line: which texture formats the configuration binds to.
pub open spec fn spec_textures_line(a: ConfigAttribs) -> Seq<char> {
    "  Textures   : "@ + (if a.rgb_bind == EGL_TRUE {
        "RGB"@
    } else {
        "   "@
    }) + " "@ + if a.rgba_bind == EGL_TRUE {
        "RGBA"@
    } else {
        ""@
    }
}

/// Builds a line of two hexadecimal values behind a label.
fn two_hex_line(label: &'static str, x: i32, y: i32) -> (r: String)
    ensures
        r@ == label@ + spec_hex_prefixed(x as u32) + " "@ + spec_hex_prefixed(y as u32),
{
    let mut out = String::new();
    out.append(label);
    push_hex_prefixed(&mut out, x);
    out.append(" ");
    push_hex_prefixed(&mut out, y);
    proof {
        assert(out@ =~= label@ + spec_hex_prefixed(x as u32) + " "@ + spec_hex_prefixed(
            y as u32,
        ));
    }
    out
}

/// Renders the seven lines of the report for one configuration, exactly as
/// they are printed.
pub fn config_info_lines(a: &ConfigAttribs) -> (r: Vec<String>)
    ensures
        r@.len() == 7,
        r@[0]@ == spec_renderable_line(*a),
        r@[1]@ == spec_visual_line(*a),
        r@[2]@ == spec_config_id_line(*a),
        r@[3]@ == spec_sizes_line(*a),
        r@[4]@ == spec_surface_line(*a),
        r@[5]@ == spec_color_buffer_line(*a),
        r@[6]@ == spec_textures_line(*a),
{
    let renderable = two_hex_line("  Renderable : ", a.native_renderable, a.renderable_type);
    let visual = two_hex_line("  Visual ID  : ", a.visual_id, a.visual_type);
    let config_id = two_hex_line("  Config ID  : ", a.config_id, a.config_caveat);

    let mut sizes = String::new();
    sizes.append("  Sizes      : ");
    push_decimal(&mut sizes, a.buffer_size);
    sizes.append(", ");
    push_decimal(&mut sizes, a.red_size);
    sizes.append(", ");
    push_decimal(&mut sizes, a.green_size);
    sizes.append(", ");
    push_decimal(&mut sizes, a.blue_size);
    sizes.append(", ");
    push_decimal(&mut sizes, a.alpha_size);
    sizes.append(", ");
    push_decimal(&mut sizes, a.depth_size);
    proof {
        assert(sizes@ =~= spec_sizes_line(*a));
    }

    let mut surface = String::new();
    surface.append("  Surface    : ");
    push_hex_prefixed(&mut surface, a.surface_type);
    proof {
        assert(surface@ =~= spec_surface_line(*a));
    }

    let mut color_buffer = String::new();
    color_buffer.append("  Color Buff : ");
    if a.color_buffer_type == EGL_RGB_BUFFER {
        color_buffer.append("RGB");
    } else {
        color_buffer.append("LUMINANCE");
    }
    proof {
        assert(color_buffer@ =~= spec_color_buffer_line(*a));
    }

    let mut textures = String::new();
    textures.append("  Textures   : ");
    if a.rgb_bind == EGL_TRUE {
        textures.append("RGB");
    } else {
        textures.append("   ");
    }
    textures.append(" ");
    if a.rgba_bind == EGL_TRUE {
        textures.append("RGBA");
    } else {
        textures.append("");
    }
    proof {
        assert(textures@ =~= spec_textures_line(*a));
    }

    let mut r: Vec<String> = Vec::new();
    r.push(renderable);
    r.push(visual);
    r.push(config_id);
    r.push(sizes);
    r.push(surface);
    r.push(color_buffer);
    r.push(textures);
    r
}

} // verus!
