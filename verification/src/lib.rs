//! Verified core of a bare-metal OpenGL ES display bootstrap for the
//! Raspberry Pi family.
//!
//! The library models the kernel mode-setting records, the buffer-format
//! codes, and the decisions the bootstrap takes: which connector to drive,
//! which EGL configuration matches the scanout format, and how the pair of
//! framebuffer objects rotates from frame to frame. The raw ioctl and EGL
//! calls stand behind narrow trusted wrappers or outside the library.

pub mod drm;
pub mod egl_utils;
pub mod gbm;
pub mod gbm_formats;
pub mod text;
pub mod vc4_context;
pub mod vc6_context;
