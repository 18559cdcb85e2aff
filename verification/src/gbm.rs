//! The library's view of the generic buffer manager: opaque handle targets
//! and the flag values a scanout surface is created with.

use vstd::prelude::*;

verus! {

/// Opaque target of a buffer-manager device handle; only pointers to it
/// cross the library boundary.
#[derive(Clone, Copy, Debug, PartialEq, Eq, Structural)]
pub struct RawDevice {}

/// Opaque target of a buffer-manager surface handle.
#[derive(Clone, Copy, Debug, PartialEq, Eq, Structural)]
pub struct RawSurface {}

/// Opaque target of a buffer-object handle.
#[derive(Clone, Copy, Debug, PartialEq, Eq, Structural)]
pub struct RawBO {}

/// Buffer-object format selector: 32-bit RGB with the high byte unused.
pub const GBM_BO_FORMAT_XRGB8888: u32 = 0;

/// Buffer-object format selector: 32-bit RGB with an alpha byte.
pub const GBM_BO_FORMAT_ARGB8888: u32 = 1;

/// The buffer is presented on the display hardware.
pub const GBM_BO_USE_SCANOUT: u32 = 1;

/// The buffer backs a hardware cursor.
pub const GBM_BO_USE_CURSOR: u32 = 2;

/// The buffer backs a 64x64 hardware cursor.
pub const GBM_BO_USE_CURSOR_64X64: u32 = 2;

/// The buffer is rendered to.
pub const GBM_BO_USE_RENDERING: u32 = 4;

/// The buffer is written to by the processor.
pub const GBM_BO_USE_WRITE: u32 = 8;

/// The buffer is laid out linearly.
pub const GBM_BO_USE_LINEAR: u32 = 16;

/// The buffer sits in protected memory.
pub const GBM_BO_USE_PROTECTED: u32 = 32;

} // verus!
