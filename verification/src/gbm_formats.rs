//! Buffer-format codes shared by the generic buffer manager and the kernel:
//! each format is a four-character code packed little-endian into 32 bits.

use vstd::prelude::*;

verus! {

/// The 32-bit value of a four-character code: the first character in the low
/// byte, the fourth in the high byte.
pub open spec fn fourcc_spec(a: u8, b: u8, c: u8, d: u8) -> u32 {
    (a as u32) | ((b as u32) << 8) | ((c as u32) << 16) | ((d as u32) << 24)
}

/// Packs four characters into their format code.
pub fn fourcc_code(a: u8, b: u8, c: u8, d: u8) -> (r: u32)
    ensures
        r == fourcc_spec(a, b, c, d),
{
    (a as u32) | ((b as u32) << 8) | ((c as u32) << 16) | ((d as u32) << 24)
}

/// Set on a format code to mark the layout as big-endian.
pub const GBM_FORMAT_BIG_ENDIAN: u32 = 0x80000000;

/// Four-character code 'C' '8' ' ' ' '.
pub const GBM_FORMAT_C8: u32 = 0x20203843;

/// Four-character code 'R' '8' ' ' ' '.
pub const GBM_FORMAT_R8: u32 = 0x20203852;

/// Four-character code 'G' 'R' '8' '8'.
pub const GBM_FORMAT_GR88: u32 = 0x38385247;

/// Four-character code 'R' 'G' 'B' '8'.
pub const GBM_FORMAT_RGB332: u32 = 0x38424752;

/// Four-character code 'B' 'G' 'R' '8'.
pub const GBM_FORMAT_BGR233: u32 = 0x38524742;

/// Four-character code 'X' 'R' '1' '2'.
pub const GBM_FORMAT_XRGB4444: u32 = 0x32315258;

/// Four-character code 'X' 'B' '1' '2'.
pub const GBM_FORMAT_XBGR4444: u32 = 0x32314258;

/// Four-character code 'R' 'X' '1' '2'.
pub const GBM_FORMAT_RGBX4444: u32 = 0x32315852;

/// Four-character code 'B' 'X' '1' '2'.
pub const GBM_FORMAT_BGRX4444: u32 = 0x32315842;

/// Four-character code 'A' 'R' '1' '2'.
pub const GBM_FORMAT_ARGB4444: u32 = 0x32315241;

/// Four-character code 'A' 'B' '1' '2'.
pub const GBM_FORMAT_ABGR4444: u32 = 0x32314241;

/// Four-character code 'R' 'A' '1' '2'.
pub const GBM_FORMAT_RGBA4444: u32 = 0x32314152;

/// Four-character code 'B' 'A' '1' '2'.
pub const GBM_FORMAT_BGRA4444: u32 = 0x32314142;

/// Four-character code 'X' 'R' '1' '5'.
pub const GBM_FORMAT_XRGB1555: u32 = 0x35315258;

/// Four-character code 'X' 'B' '1' '5'.
pub const GBM_FORMAT_XBGR1555: u32 = 0x35314258;

/// Four-character code 'R' 'X' '1' '5'.
pub const GBM_FORMAT_RGBX5551: u32 = 0x35315852;

/// Four-character code 'B' 'X' '1' '5'.
pub const GBM_FORMAT_BGRX5551: u32 = 0x35315842;

/// Four-character code 'A' 'R' '1' '5'.
pub const GBM_FORMAT_ARGB1555: u32 = 0x35315241;

/// Four-character code 'A' 'B' '1' '5'.
pub const GBM_FORMAT_ABGR1555: u32 = 0x35314241;

/// Four-character code 'R' 'A' '1' '5'.
pub const GBM_FORMAT_RGBA5551: u32 = 0x35314152;

/// Four-character code 'B' 'A' '1' '5'.
pub const GBM_FORMAT_BGRA5551: u32 = 0x35314142;

/// Four-character code 'R' 'G' '1' '6'.
pub const GBM_FORMAT_RGB565: u32 = 0x36314752;

/// Four-character code 'B' 'G' '1' '6'.
pub const GBM_FORMAT_BGR565: u32 = 0x36314742;

/// Four-character code 'R' 'G' '2' '4'.
pub const GBM_FORMAT_RGB888: u32 = 0x34324752;

/// Four-character code 'B' 'G' '2' '4'.
pub const GBM_FORMAT_BGR888: u32 = 0x34324742;

/// Four-character code 'X' 'R' '2' '4'.
pub const GBM_FORMAT_XRGB8888: u32 = 0x34325258;

/// Four-character code 'X' 'B' '2' '4'.
pub const GBM_FORMAT_XBGR8888: u32 = 0x34324258;

/// Four-character code 'R' 'X' '2' '4'.
pub const GBM_FORMAT_RGBX8888: u32 = 0x34325852;

/// Four-character code 'B' 'X' '2' '4'.
pub const GBM_FORMAT_BGRX8888: u32 = 0x34325842;

/// Four-character code 'A' 'R' '2' '4'.
pub const GBM_FORMAT_ARGB8888: u32 = 0x34325241;

/// Four-character code 'A' 'B' '2' '4'.
pub const GBM_FORMAT_ABGR8888: u32 = 0x34324241;

/// Four-character code 'R' 'A' '2' '4'.
pub const GBM_FORMAT_RGBA8888: u32 = 0x34324152;

/// Four-character code 'B' 'A' '2' '4'.
pub const GBM_FORMAT_BGRA8888: u32 = 0x34324142;

/// Four-character code 'X' 'R' '3' '0'.
pub const GBM_FORMAT_XRGB2101010: u32 = 0x30335258;

/// Four-character code 'X' 'B' '3' '0'.
pub const GBM_FORMAT_XBGR2101010: u32 = 0x30334258;

/// Four-character code 'R' 'X' '3' '0'.
pub const GBM_FORMAT_RGBX1010102: u32 = 0x30335852;

/// Four-character code 'B' 'X' '3' '0'.
pub const GBM_FORMAT_BGRX1010102: u32 = 0x30335842;

/// Four-character code 'A' 'R' '3' '0'.
pub const GBM_FORMAT_ARGB2101010: u32 = 0x30335241;

/// Four-character code 'A' 'B' '3' '0'.
pub const GBM_FORMAT_ABGR2101010: u32 = 0x30334241;

/// Four-character code 'R' 'A' '3' '0'.
pub const GBM_FORMAT_RGBA1010102: u32 = 0x30334152;

/// Four-character code 'B' 'A' '3' '0'.
pub const GBM_FORMAT_BGRA1010102: u32 = 0x30334142;

/// Four-character code 'X' 'B' '4' 'H'.
pub const GBM_FORMAT_XBGR16161616F: u32 = 0x48344258;

/// Four-character code 'A' 'B' '4' 'H'.
pub const GBM_FORMAT_ABGR16161616F: u32 = 0x48344241;

/// Four-character code 'Y' 'U' 'Y' 'V'.
pub const GBM_FORMAT_YUYV: u32 = 0x56595559;

/// Four-character code 'Y' 'V' 'Y' 'U'.
pub const GBM_FORMAT_YVYU: u32 = 0x55595659;

/// Four-character code 'U' 'Y' 'V' 'Y'.
pub const GBM_FORMAT_UYVY: u32 = 0x59565955;

/// Four-character code 'V' 'Y' 'U' 'Y'.
pub const GBM_FORMAT_VYUY: u32 = 0x59555956;

/// Four-character code 'A' 'Y' 'U' 'V'.
pub const GBM_FORMAT_AYUV: u32 = 0x56555941;

/// Four-character code 'N' 'V' '1' '2'.
pub const GBM_FORMAT_NV12: u32 = 0x3231564e;

/// Four-character code 'N' 'V' '2' '1'.
pub const GBM_FORMAT_NV21: u32 = 0x3132564e;

/// Four-character code 'N' 'V' '1' '6'.
pub const GBM_FORMAT_NV16: u32 = 0x3631564e;

/// Four-character code 'N' 'V' '6' '1'.
pub const GBM_FORMAT_NV61: u32 = 0x3136564e;

/// Four-character code 'Y' 'U' 'V' '9'.
pub const GBM_FORMAT_YUV410: u32 = 0x39565559;

/// Four-character code 'Y' 'V' 'U' '9'.
pub const GBM_FORMAT_YVU410: u32 = 0x39555659;

/// Four-character code 'Y' 'U' '1' '1'.
pub const GBM_FORMAT_YUV411: u32 = 0x31315559;

/// Four-character code 'Y' 'V' '1' '1'.
pub const GBM_FORMAT_YVU411: u32 = 0x31315659;

/// Four-character code 'Y' 'U' '1' '2'.
pub const GBM_FORMAT_YUV420: u32 = 0x32315559;

/// Four-character code 'Y' 'V' '1' '2'.
pub const GBM_FORMAT_YVU420: u32 = 0x32315659;

/// Four-character code 'Y' 'U' '1' '6'.
pub const GBM_FORMAT_YUV422: u32 = 0x36315559;

/// Four-character code 'Y' 'V' '1' '6'.
pub const GBM_FORMAT_YVU422: u32 = 0x36315659;

/// Four-character code 'Y' 'U' '2' '4'.
pub const GBM_FORMAT_YUV444: u32 = 0x34325559;

/// Four-character code 'Y' 'V' '2' '4'.
pub const GBM_FORMAT_YVU444: u32 = 0x34325659;

} // verus!
