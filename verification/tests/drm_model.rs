use rpi_egl::drm::{
    find_connector, mode_name, DRMModeConnection, DRMModeConnector, DRMModeCrtc, DRMModeEncoder,
    DRMModeModeInfo, DRMModeSubPixel, RawConnectorInfo, RawDRMModeCrtc, RawDRMModeEncoder,
    RawDRMModeModeInfo,
};

fn sample_raw_mode() -> RawDRMModeModeInfo {
    let mut name = [0u8; 32];
    name[..9].copy_from_slice(b"1920x1080");
    RawDRMModeModeInfo {
        clock: 148500,
        hdisplay: 1920,
        hsync_start: 2008,
        hsync_end: 2052,
        htotal: 2200,
        hskew: 0,
        vdisplay: 1080,
        vsync_start: 1084,
        vsync_end: 1089,
        vtotal: 1125,
        vscan: 0,
        vrefresh: 60,
        flags: 5,
        mode_type: 72,
        name,
    }
}

#[test]
fn connection_values_round_trip() {
    assert_eq!(DRMModeConnection::DRM_MODE_CONNECTED.value(), 1);
    assert_eq!(DRMModeConnection::DRM_MODE_DISCONNECTED.value(), 2);
    assert_eq!(DRMModeConnection::DRM_MODE_UNKNOWNCONNECTION.value(), 3);
    for v in 1..=3u32 {
        assert_eq!(DRMModeConnection::from_value(v).unwrap().value(), v);
    }
    assert!(DRMModeConnection::from_value(0).is_none());
    assert!(DRMModeConnection::from_value(4).is_none());
}

#[test]
fn subpixel_values_round_trip() {
    assert_eq!(DRMModeSubPixel::DRM_MODE_SUBPIXEL_UNKNOWN.value(), 1);
    assert_eq!(DRMModeSubPixel::DRM_MODE_SUBPIXEL_NONE.value(), 6);
    for v in 1..=6u32 {
        assert_eq!(DRMModeSubPixel::from_value(v).unwrap().value(), v);
    }
    assert!(DRMModeSubPixel::from_value(0).is_none());
    assert!(DRMModeSubPixel::from_value(7).is_none());
}

#[test]
fn mode_name_stops_at_first_nul() {
    let mut name = [0u8; 32];
    name[..9].copy_from_slice(b"1920x1080");
    assert_eq!(mode_name(&name), b"1920x1080".to_vec());
}

#[test]
fn mode_name_of_all_zero_is_empty() {
    let name = [0u8; 32];
    assert_eq!(mode_name(&name), Vec::<u8>::new());
}

#[test]
fn mode_name_without_nul_keeps_the_data_region() {
    let name = [b'x'; 32];
    assert_eq!(mode_name(&name), vec![b'x'; 31]);
}

#[test]
fn mode_name_ignores_bytes_after_the_nul() {
    let mut name = [b'j'; 32];
    name[..4].copy_from_slice(b"720p");
    name[4] = 0;
    assert_eq!(mode_name(&name), b"720p".to_vec());
}

#[test]
fn mode_info_from_raw_decodes_every_field() {
    let raw = sample_raw_mode();
    let m = DRMModeModeInfo::from_raw(&raw);
    assert_eq!(m.clock, 148500);
    assert_eq!(m.hdisplay, 1920);
    assert_eq!(m.hsync_start, 2008);
    assert_eq!(m.hsync_end, 2052);
    assert_eq!(m.htotal, 2200);
    assert_eq!(m.hskew, 0);
    assert_eq!(m.vdisplay, 1080);
    assert_eq!(m.vsync_start, 1084);
    assert_eq!(m.vsync_end, 1089);
    assert_eq!(m.vtotal, 1125);
    assert_eq!(m.vscan, 0);
    assert_eq!(m.vrefresh, 60);
    assert_eq!(m.flags, 5);
    assert_eq!(m.mode_type, 72);
    assert_eq!(m.name, b"1920x1080".to_vec());
    assert_eq!(m.raw, raw);
    assert_eq!(m.width(), 1920);
    assert_eq!(m.height(), 1080);
}

#[test]
fn mode_info_copy_duplicates_every_field() {
    let m = DRMModeModeInfo::from_raw(&sample_raw_mode());
    let c = m.copy();
    assert_eq!(c, m);
}

fn connector_with(connection: DRMModeConnection, id: u32) -> DRMModeConnector {
    DRMModeConnector {
        connector_id: id,
        encoder_id: 0,
        connector_type: 11,
        connector_type_id: 1,
        connection,
        mm_width: 510,
        mm_height: 290,
        subpixel: DRMModeSubPixel::DRM_MODE_SUBPIXEL_UNKNOWN,
        modes: Vec::new(),
        props: Vec::new(),
        prop_values: Vec::new(),
        encoders: Vec::new(),
    }
}

#[test]
fn find_connector_picks_the_first_connected() {
    let connectors = vec![
        connector_with(DRMModeConnection::DRM_MODE_DISCONNECTED, 30),
        connector_with(DRMModeConnection::DRM_MODE_CONNECTED, 31),
        connector_with(DRMModeConnection::DRM_MODE_CONNECTED, 32),
    ];
    assert_eq!(find_connector(&connectors), Some(1));
}

#[test]
fn find_connector_refuses_unknown_connections() {
    let connectors = vec![
        connector_with(DRMModeConnection::DRM_MODE_UNKNOWNCONNECTION, 30),
        connector_with(DRMModeConnection::DRM_MODE_DISCONNECTED, 31),
    ];
    assert_eq!(find_connector(&connectors), None);
}

#[test]
fn find_connector_of_nothing_is_none() {
    assert_eq!(find_connector(&Vec::new()), None);
}

#[test]
fn connector_from_raw_decodes_wire_values() {
    let raw = RawConnectorInfo {
        connector_id: 31,
        encoder_id: 30,
        connector_type: 11,
        connector_type_id: 1,
        connection: 1,
        mm_width: 510,
        mm_height: 290,
        subpixel: 6,
        modes: vec![sample_raw_mode()],
        props: vec![1, 2],
        prop_values: vec![77, 88],
        encoders: vec![30],
    };
    let c = DRMModeConnector::from_raw(raw).unwrap();
    assert_eq!(c.connector_id, 31);
    assert_eq!(c.encoder_id, 30);
    assert_eq!(c.connection, DRMModeConnection::DRM_MODE_CONNECTED);
    assert_eq!(c.subpixel, DRMModeSubPixel::DRM_MODE_SUBPIXEL_NONE);
    assert_eq!(c.modes.len(), 1);
    assert_eq!(c.modes[0].name, b"1920x1080".to_vec());
    assert_eq!(c.props, vec![1, 2]);
    assert_eq!(c.prop_values, vec![77, 88]);
    assert_eq!(c.encoders, vec![30]);
    assert!(c.has_encoder());
}

#[test]
fn connector_from_raw_refuses_a_bad_connection_value() {
    let raw = RawConnectorInfo {
        connector_id: 31,
        encoder_id: 0,
        connector_type: 11,
        connector_type_id: 1,
        connection: 9,
        mm_width: 0,
        mm_height: 0,
        subpixel: 1,
        modes: Vec::new(),
        props: Vec::new(),
        prop_values: Vec::new(),
        encoders: Vec::new(),
    };
    assert!(DRMModeConnector::from_raw(raw).is_none());
}

#[test]
fn connector_from_raw_refuses_a_bad_subpixel_value() {
    let raw = RawConnectorInfo {
        connector_id: 31,
        encoder_id: 0,
        connector_type: 11,
        connector_type_id: 1,
        connection: 2,
        mm_width: 0,
        mm_height: 0,
        subpixel: 0,
        modes: Vec::new(),
        props: Vec::new(),
        prop_values: Vec::new(),
        encoders: Vec::new(),
    };
    assert!(DRMModeConnector::from_raw(raw).is_none());
}

#[test]
fn encoder_from_raw_decodes_every_field() {
    let raw = RawDRMModeEncoder {
        encoder_id: 30,
        encoder_type: 2,
        crtc_id: 40,
        possible_crtcs: 3,
        possible_clones: 1,
    };
    let e = DRMModeEncoder::from_raw(&raw);
    assert_eq!(e.encoder_id, 30);
    assert_eq!(e.encoder_type, 2);
    assert_eq!(e.crtc_id, 40);
    assert_eq!(e.possible_crtcs, 3);
    assert_eq!(e.possible_clones, 1);
}

#[test]
fn crtc_from_raw_decodes_the_embedded_mode() {
    let raw = RawDRMModeCrtc {
        crtc_id: 40,
        buffer_id: 99,
        x: 0,
        y: 0,
        width: 1920,
        height: 1080,
        mode_valid: 1,
        mode: sample_raw_mode(),
        gamma_size: 256,
    };
    let c = DRMModeCrtc::from_raw(&raw);
    assert_eq!(c.crtc_id, 40);
    assert_eq!(c.buffer_id, 99);
    assert_eq!(c.width, 1920);
    assert_eq!(c.height, 1080);
    assert_eq!(c.mode_valid, 1);
    assert_eq!(c.mode.name, b"1920x1080".to_vec());
    assert_eq!(c.gamma_size, 256);
}
