use rpi_egl::gbm_formats::{
    fourcc_code, GBM_FORMAT_ABGR8888, GBM_FORMAT_ARGB8888, GBM_FORMAT_BGR565, GBM_FORMAT_C8,
    GBM_FORMAT_NV12, GBM_FORMAT_RGB565, GBM_FORMAT_XRGB8888, GBM_FORMAT_YUV420, GBM_FORMAT_YUYV,
};
use rpi_egl::gbm::{
    GBM_BO_FORMAT_ARGB8888, GBM_BO_FORMAT_XRGB8888, GBM_BO_USE_RENDERING, GBM_BO_USE_SCANOUT,
};

#[test]
fn fourcc_packs_little_endian() {
    assert_eq!(fourcc_code(b'X', b'R', b'2', b'4'), 0x34325258);
    assert_eq!(fourcc_code(0, 0, 0, 0), 0);
    assert_eq!(fourcc_code(0xff, 0, 0, 0), 0xff);
    assert_eq!(fourcc_code(0, 0, 0, 0xff), 0xff000000);
}

#[test]
fn format_constants_are_their_four_character_codes() {
    assert_eq!(GBM_FORMAT_C8, fourcc_code(b'C', b'8', b' ', b' '));
    assert_eq!(GBM_FORMAT_RGB565, fourcc_code(b'R', b'G', b'1', b'6'));
    assert_eq!(GBM_FORMAT_BGR565, fourcc_code(b'B', b'G', b'1', b'6'));
    assert_eq!(GBM_FORMAT_XRGB8888, fourcc_code(b'X', b'R', b'2', b'4'));
    assert_eq!(GBM_FORMAT_ARGB8888, fourcc_code(b'A', b'R', b'2', b'4'));
    assert_eq!(GBM_FORMAT_ABGR8888, fourcc_code(b'A', b'B', b'2', b'4'));
    assert_eq!(GBM_FORMAT_YUYV, fourcc_code(b'Y', b'U', b'Y', b'V'));
    assert_eq!(GBM_FORMAT_NV12, fourcc_code(b'N', b'V', b'1', b'2'));
    assert_eq!(GBM_FORMAT_YUV420, fourcc_code(b'Y', b'U', b'1', b'2'));
}

#[test]
fn buffer_object_selectors_and_flags() {
    assert_eq!(GBM_BO_FORMAT_XRGB8888, 0);
    assert_eq!(GBM_BO_FORMAT_ARGB8888, 1);
    assert_eq!(GBM_BO_USE_SCANOUT | GBM_BO_USE_RENDERING, 5);
}
