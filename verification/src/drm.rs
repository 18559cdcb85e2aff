//! Plain-data models of the kernel mode-setting objects: connection and
//! subpixel states, mode descriptions, connectors, encoders and CRTCs.
//!
//! The ioctl calls that fill these structures live outside the library; the
//! decoding of the raw records and the selection logic over them is verified
//! here.

use vstd::prelude::*;

verus! {

/// The connection state of a display connector, as the kernel reports it.
#[allow(non_camel_case_types)]
#[derive(Clone, Copy, Debug, PartialEq, Eq, Structural)]
pub enum DRMModeConnection {
    DRM_MODE_CONNECTED,
    DRM_MODE_DISCONNECTED,
    DRM_MODE_UNKNOWNCONNECTION,
}

impl DRMModeConnection {
    /// The integer the kernel uses on the wire for this state.
    pub open spec fn spec_value(self) -> u32 {
        match self {
            DRMModeConnection::DRM_MODE_CONNECTED => 1,
            DRMModeConnection::DRM_MODE_DISCONNECTED => 2,
            DRMModeConnection::DRM_MODE_UNKNOWNCONNECTION => 3,
        }
    }

    pub fn value(self) -> (r: u32)
        ensures
            r == self.spec_value(),
    {
        match self {
            DRMModeConnection::DRM_MODE_CONNECTED => 1,
            DRMModeConnection::DRM_MODE_DISCONNECTED => 2,
            DRMModeConnection::DRM_MODE_UNKNOWNCONNECTION => 3,
        }
    }

    /// Decodes the kernel's wire value; anything outside it is refused.
    pub fn from_value(v: u32) -> (r: Option<DRMModeConnection>)
        ensures
            r is Some <==> 1 <= v <= 3,
            r is Some ==> r->0.spec_value() == v,
    {
        match v {
            1 => Some(DRMModeConnection::DRM_MODE_CONNECTED),
            2 => Some(DRMModeConnection::DRM_MODE_DISCONNECTED),
            3 => Some(DRMModeConnection::DRM_MODE_UNKNOWNCONNECTION),
            _ => None,
        }
    }
}

/// The subpixel layout of a connected display.
#[allow(non_camel_case_types)]
#[derive(Clone, Copy, Debug, PartialEq, Eq, Structural)]
pub enum DRMModeSubPixel {
    DRM_MODE_SUBPIXEL_UNKNOWN,
    DRM_MODE_SUBPIXEL_HORIZONTAL_RGB,
    DRM_MODE_SUBPIXEL_HORIZONTAL_BGR,
    DRM_MODE_SUBPIXEL_VERTICAL_RGB,
    DRM_MODE_SUBPIXEL_VERTICAL_BGR,
    DRM_MODE_SUBPIXEL_NONE,
}

impl DRMModeSubPixel {
    /// The integer the kernel uses on the wire for this layout.
    pub open spec fn spec_value(self) -> u32 {
        match self {
            DRMModeSubPixel::DRM_MODE_SUBPIXEL_UNKNOWN => 1,
            DRMModeSubPixel::DRM_MODE_SUBPIXEL_HORIZONTAL_RGB => 2,
            DRMModeSubPixel::DRM_MODE_SUBPIXEL_HORIZONTAL_BGR => 3,
            DRMModeSubPixel::DRM_MODE_SUBPIXEL_VERTICAL_RGB => 4,
            DRMModeSubPixel::DRM_MODE_SUBPIXEL_VERTICAL_BGR => 5,
            DRMModeSubPixel::DRM_MODE_SUBPIXEL_NONE => 6,
        }
    }

    pub fn value(self) -> (r: u32)
        ensures
            r == self.spec_value(),
    {
        match self {
            DRMModeSubPixel::DRM_MODE_SUBPIXEL_UNKNOWN => 1,
            DRMModeSubPixel::DRM_MODE_SUBPIXEL_HORIZONTAL_RGB => 2,
            DRMModeSubPixel::DRM_MODE_SUBPIXEL_HORIZONTAL_BGR => 3,
            DRMModeSubPixel::DRM_MODE_SUBPIXEL_VERTICAL_RGB => 4,
            DRMModeSubPixel::DRM_MODE_SUBPIXEL_VERTICAL_BGR => 5,
            DRMModeSubPixel::DRM_MODE_SUBPIXEL_NONE => 6,
        }
    }

    /// Decodes the kernel's wire value; anything outside it is refused.
    pub fn from_value(v: u32) -> (r: Option<DRMModeSubPixel>)
        ensures
            r is Some <==> 1 <= v <= 6,
            r is Some ==> r->0.spec_value() == v,
    {
        match v {
            1 => Some(DRMModeSubPixel::DRM_MODE_SUBPIXEL_UNKNOWN),
            2 => Some(DRMModeSubPixel::DRM_MODE_SUBPIXEL_HORIZONTAL_RGB),
            3 => Some(DRMModeSubPixel::DRM_MODE_SUBPIXEL_HORIZONTAL_BGR),
            4 => Some(DRMModeSubPixel::DRM_MODE_SUBPIXEL_VERTICAL_RGB),
            5 => Some(DRMModeSubPixel::DRM_MODE_SUBPIXEL_VERTICAL_BGR),
            6 => Some(DRMModeSubPixel::DRM_MODE_SUBPIXEL_NONE),
            _ => None,
        }
    }
}

/// A display mode exactly as the kernel hands it out: fixed-width fields and
/// a NUL-padded name of at most 32 bytes.
#[allow(non_snake_case)]
#[derive(Clone, Copy, Debug, PartialEq)]
pub struct RawDRMModeModeInfo {
    pub clock: u32,
    pub hdisplay: u16,
    pub hsync_start: u16,
    pub hsync_end: u16,
    pub htotal: u16,
    pub hskew: u16,
    pub vdisplay: u16,
    pub vsync_start: u16,
    pub vsync_end: u16,
    pub vtotal: u16,
    pub vscan: u16,
    pub vrefresh: u32,
    pub flags: u32,
    pub mode_type: u32,
    pub name: [u8; 32],
}

/// The number of bytes of a raw mode name that carry data; the final byte is
/// reserved for the terminator.
pub const MODE_NAME_DATA_LEN: usize = 31;

/// The index of the first NUL byte of `s`, or `s.len()` when none occurs.
pub open spec fn nul_index(s: Seq<u8>) -> int
    decreases s.len(),
{
    if s.len() == 0 {
        0
    } else if s[0] == 0 {
        0
    } else {
        1 + nul_index(s.drop_first())
    }
}

pub proof fn lemma_nul_index_bounds(s: Seq<u8>)
    ensures
        0 <= nul_index(s) <= s.len(),
        forall|j: int| 0 <= j < nul_index(s) ==> s[j] != 0,
        nul_index(s) < s.len() ==> s[nul_index(s)] == 0,
    decreases s.len(),
{
    if s.len() == 0 {
    } else if s[0] == 0 {
    } else {
        lemma_nul_index_bounds(s.drop_first());
        assert forall|j: int| 0 <= j < nul_index(s) implies s[j] != 0 by {
            if j > 0 {
                assert(s.drop_first()[j - 1] == s[j]);
            }
        }
    }
}

/// Any position whose earlier bytes are all non-zero and which either sits at
/// the end or on a zero byte is the NUL index.
pub proof fn lemma_nul_index_agrees(s: Seq<u8>, k: int)
    requires
        0 <= k <= s.len(),
        forall|j: int| 0 <= j < k ==> s[j] != 0,
        k == s.len() || s[k] == 0,
    ensures
        nul_index(s) == k,
    decreases s.len(),
{
    if s.len() == 0 {
    } else if k == 0 {
        if s[0] != 0 {
            lemma_nul_index_bounds(s.drop_first());
        }
    } else {
        assert(s[0] != 0);
        assert forall|j: int| 0 <= j < k - 1 implies s.drop_first()[j] != 0 by {
            assert(s.drop_first()[j] == s[j + 1]);
        }
        assert(k - 1 == s.drop_first().len() || s.drop_first()[k - 1] == 0);
        lemma_nul_index_agrees(s.drop_first(), k - 1);
    }
}

/// The human-readable part of a raw mode name: the bytes of the data region
/// that precede its first NUL.
pub open spec fn mode_name_spec(name: Seq<u8>) -> Seq<u8> {
    let data = name.take(MODE_NAME_DATA_LEN as int);
    data.take(nul_index(data))
}

/// Extracts the readable prefix of a NUL-padded mode name.
pub fn mode_name(name: &[u8; 32]) -> (r: Vec<u8>)
    ensures
        r@ == mode_name_spec(name@),
{
    let ghost data = name@.take(MODE_NAME_DATA_LEN as int);
    let mut k: usize = 0;
    while k < MODE_NAME_DATA_LEN && name[k] != 0
        invariant
            0 <= k <= MODE_NAME_DATA_LEN,
            MODE_NAME_DATA_LEN < name@.len(),
            data == name@.take(MODE_NAME_DATA_LEN as int),
            forall|j: int| 0 <= j < k ==> data[j] != 0,
        decreases MODE_NAME_DATA_LEN - k,
    {
        assert(data[k as int] == name@[k as int]);
        k += 1;
    }
    proof {
        assert(k == MODE_NAME_DATA_LEN || name@[k as int] == 0);
        assert(k == data.len() || data[k as int] == 0);
        lemma_nul_index_agrees(data, k as int);
    }
    let mut r: Vec<u8> = Vec::new();
    let mut j: usize = 0;
    while j < k
        invariant
            0 <= j <= k,
            k <= MODE_NAME_DATA_LEN,
            MODE_NAME_DATA_LEN < name@.len(),
            data == name@.take(MODE_NAME_DATA_LEN as int),
            nul_index(data) == k,
            r@ == data.take(j as int),
        decreases k - j,
    {
        r.push(name[j]);
        proof {
            assert(data[j as int] == name@[j as int]);
            assert(data.take(j + 1) == data.take(j as int).push(data[j as int]));
        }
        j += 1;
    }
    proof {
        assert(r@ == mode_name_spec(name@));
    }
    r
}

/// A display mode with its name decoded, alongside the raw record it came
/// from.
#[derive(Clone, Debug, PartialEq)]
pub struct DRMModeModeInfo {
    pub clock: u32,
    pub hdisplay: u16,
    pub hsync_start: u16,
    pub hsync_end: u16,
    pub htotal: u16,
    pub hskew: u16,
    pub vdisplay: u16,
    pub vsync_start: u16,
    pub vsync_end: u16,
    pub vtotal: u16,
    pub vscan: u16,
    pub vrefresh: u32,
    pub flags: u32,
    pub mode_type: u32,
    pub name: Vec<u8>,
    pub raw: RawDRMModeModeInfo,
}

/// Holds when `m` is the decoded form of the raw record `raw`.
pub open spec fn mode_info_matches_raw(m: DRMModeModeInfo, raw: RawDRMModeModeInfo) -> bool {
    &&& m.clock == raw.clock
    &&& m.hdisplay == raw.hdisplay
    &&& m.hsync_start == raw.hsync_start
    &&& m.hsync_end == raw.hsync_end
    &&& m.htotal == raw.htotal
    &&& m.hskew == raw.hskew
    &&& m.vdisplay == raw.vdisplay
    &&& m.vsync_start == raw.vsync_start
    &&& m.vsync_end == raw.vsync_end
    &&& m.vtotal == raw.vtotal
    &&& m.vscan == raw.vscan
    &&& m.vrefresh == raw.vrefresh
    &&& m.flags == raw.flags
    &&& m.mode_type == raw.mode_type
    &&& m.name@ == mode_name_spec(raw.name@)
    &&& m.raw == raw
}

impl DRMModeModeInfo {
    /// Decodes a raw mode record, truncating the name at its first NUL.
    pub fn from_raw(raw: &RawDRMModeModeInfo) -> (r: DRMModeModeInfo)
        ensures
            mode_info_matches_raw(r, *raw),
    {
        DRMModeModeInfo {
            clock: raw.clock,
            hdisplay: raw.hdisplay,
            hsync_start: raw.hsync_start,
            hsync_end: raw.hsync_end,
            htotal: raw.htotal,
            hskew: raw.hskew,
            vdisplay: raw.vdisplay,
            vsync_start: raw.vsync_start,
            vsync_end: raw.vsync_end,
            vtotal: raw.vtotal,
            vscan: raw.vscan,
            vrefresh: raw.vrefresh,
            flags: raw.flags,
            mode_type: raw.mode_type,
            name: mode_name(&raw.name),
            raw: *raw,
        }
    }

    /// A field-for-field duplicate of this mode.
    pub fn copy(&self) -> (r: DRMModeModeInfo)
        ensures
            r.clock == self.clock,
            r.hdisplay == self.hdisplay,
            r.hsync_start == self.hsync_start,
            r.hsync_end == self.hsync_end,
            r.htotal == self.htotal,
            r.hskew == self.hskew,
            r.vdisplay == self.vdisplay,
            r.vsync_start == self.vsync_start,
            r.vsync_end == self.vsync_end,
            r.vtotal == self.vtotal,
            r.vscan == self.vscan,
            r.vrefresh == self.vrefresh,
            r.flags == self.flags,
            r.mode_type == self.mode_type,
            r.name@ == self.name@,
            r.raw == self.raw,
    {
        DRMModeModeInfo {
            clock: self.clock,
            hdisplay: self.hdisplay,
            hsync_start: self.hsync_start,
            hsync_end: self.hsync_end,
            htotal: self.htotal,
            hskew: self.hskew,
            vdisplay: self.vdisplay,
            vsync_start: self.vsync_start,
            vsync_end: self.vsync_end,
            vtotal: self.vtotal,
            vscan: self.vscan,
            vrefresh: self.vrefresh,
            flags: self.flags,
            mode_type: self.mode_type,
            name: clone_bytes(&self.name),
            raw: self.raw,
        }
    }

    /// The horizontal resolution of this mode.
    pub fn width(&self) -> (r: u32)
        ensures
            r == self.hdisplay as u32,
    {
        self.hdisplay as u32
    }

    /// The vertical resolution of this mode.
    pub fn height(&self) -> (r: u32)
        ensures
            r == self.vdisplay as u32,
    {
        self.vdisplay as u32
    }
}

/// Duplicates a byte vector.
fn clone_bytes(v: &Vec<u8>) -> (r: Vec<u8>)
    ensures
        r@ == v@,
{
    let mut r: Vec<u8> = Vec::new();
    let mut i: usize = 0;
    while i < v.len()
        invariant
            0 <= i <= v@.len(),
            r@ == v@.take(i as int),
        decreases v@.len() - i,
    {
        r.push(v[i]);
        proof {
            assert(v@.take(i + 1) == v@.take(i as int).push(v@[i as int]));
        }
        i += 1;
    }
    proof {
        assert(v@.take(v@.len() as int) == v@);
    }
    r
}

/// Decodes a whole array of raw mode records.
pub fn modes_from_raw(raws: &Vec<RawDRMModeModeInfo>) -> (r: Vec<DRMModeModeInfo>)
    ensures
        r@.len() == raws@.len(),
        forall|i: int| 0 <= i < raws@.len() ==> mode_info_matches_raw(#[trigger] r@[i], raws@[i]),
{
    let mut r: Vec<DRMModeModeInfo> = Vec::new();
    let mut i: usize = 0;
    while i < raws.len()
        invariant
            0 <= i <= raws@.len(),
            r@.len() == i,
            forall|j: int| 0 <= j < i ==> mode_info_matches_raw(#[trigger] r@[j], raws@[j]),
        decreases raws@.len() - i,
    {
        r.push(DRMModeModeInfo::from_raw(&raws[i]));
        i += 1;
    }
    r
}

/// An encoder record exactly as the kernel hands it out.
#[derive(Clone, Copy, Debug, PartialEq, Eq, Structural)]
pub struct RawDRMModeEncoder {
    pub encoder_id: u32,
    pub encoder_type: u32,
    pub crtc_id: u32,
    pub possible_crtcs: u32,
    pub possible_clones: u32,
}

/// An encoder: the piece of hardware that feeds a CRTC from a connector.
#[derive(Clone, Copy, Debug, PartialEq, Eq, Structural)]
pub struct DRMModeEncoder {
    pub encoder_id: u32,
    pub encoder_type: u32,
    pub crtc_id: u32,
    pub possible_crtcs: u32,
    pub possible_clones: u32,
}

impl DRMModeEncoder {
    /// Decodes a raw encoder record.
    pub fn from_raw(raw: &RawDRMModeEncoder) -> (r: DRMModeEncoder)
        ensures
            r.encoder_id == raw.encoder_id,
            r.encoder_type == raw.encoder_type,
            r.crtc_id == raw.crtc_id,
            r.possible_crtcs == raw.possible_crtcs,
            r.possible_clones == raw.possible_clones,
    {
        DRMModeEncoder {
            encoder_id: raw.encoder_id,
            encoder_type: raw.encoder_type,
            crtc_id: raw.crtc_id,
            possible_crtcs: raw.possible_crtcs,
            possible_clones: raw.possible_clones,
        }
    }
}

/// The scalar fields and decoded arrays of a connector record, before the
/// wire values of its enumerations are checked.
#[derive(Clone, Debug)]
pub struct RawConnectorInfo {
    pub connector_id: u32,
    pub encoder_id: u32,
    pub connector_type: u32,
    pub connector_type_id: u32,
    pub connection: u32,
    pub mm_width: u32,
    pub mm_height: u32,
    pub subpixel: u32,
    pub modes: Vec<RawDRMModeModeInfo>,
    pub props: Vec<u32>,
    pub prop_values: Vec<u64>,
    pub encoders: Vec<u32>,
}

/// A display connector with its modes decoded.
#[derive(Clone, Debug)]
pub struct DRMModeConnector {
    pub connector_id: u32,
    pub encoder_id: u32,
    pub connector_type: u32,
    pub connector_type_id: u32,
    pub connection: DRMModeConnection,
    pub mm_width: u32,
    pub mm_height: u32,
    pub subpixel: DRMModeSubPixel,
    pub modes: Vec<DRMModeModeInfo>,
    pub props: Vec<u32>,
    pub prop_values: Vec<u64>,
    pub encoders: Vec<u32>,
}

/// Holds when `c` is the decoded form of the fields in `raw`.
pub open spec fn connector_matches_raw(c: DRMModeConnector, raw: RawConnectorInfo) -> bool {
    &&& c.connector_id == raw.connector_id
    &&& c.encoder_id == raw.encoder_id
    &&& c.connector_type == raw.connector_type
    &&& c.connector_type_id == raw.connector_type_id
    &&& c.connection.spec_value() == raw.connection
    &&& c.mm_width == raw.mm_width
    &&& c.mm_height == raw.mm_height
    &&& c.subpixel.spec_value() == raw.subpixel
    &&& c.modes@.len() == raw.modes@.len()
    &&& forall|i: int|
        0 <= i < raw.modes@.len() ==> mode_info_matches_raw(#[trigger] c.modes@[i], raw.modes@[i])
    &&& c.props@ == raw.props@
    &&& c.prop_values@ == raw.prop_values@
    &&& c.encoders@ == raw.encoders@
}

impl DRMModeConnector {
    /// Decodes a connector record. A connection or subpixel value outside
    /// the kernel's encoding is refused.
    pub fn from_raw(raw: RawConnectorInfo) -> (r: Option<DRMModeConnector>)
        ensures
            r is Some <==> (1 <= raw.connection <= 3 && 1 <= raw.subpixel <= 6),
            r is Some ==> connector_matches_raw(r->0, raw),
    {
        let connection = match DRMModeConnection::from_value(raw.connection) {
            Some(c) => c,
            None => {
                return None;
            },
        };
        let subpixel = match DRMModeSubPixel::from_value(raw.subpixel) {
            Some(s) => s,
            None => {
                return None;
            },
        };
        let modes = modes_from_raw(&raw.modes);
        Some(DRMModeConnector {
            connector_id: raw.connector_id,
            encoder_id: raw.encoder_id,
            connector_type: raw.connector_type,
            connector_type_id: raw.connector_type_id,
            connection,
            mm_width: raw.mm_width,
            mm_height: raw.mm_height,
            subpixel,
            modes,
            props: raw.props,
            prop_values: raw.prop_values,
            encoders: raw.encoders,
        })
    }

    /// Whether the kernel reports an encoder currently bound to this
    /// connector; an id of zero means none.
    pub fn has_encoder(&self) -> (r: bool)
        ensures
            r == (self.encoder_id != 0),
    {
        self.encoder_id != 0
    }
}

/// The card's resource ids, with the raw handle kept outside the library.
#[derive(Clone, Debug)]
pub struct DRMModeRes {
    pub fbs: Vec<u32>,
    pub crtcs: Vec<u32>,
    pub connectors: Vec<u32>,
    pub encoders: Vec<u32>,
    pub min_width: u32,
    pub max_width: u32,
    pub min_height: u32,
    pub max_height: u32,
}

/// A CRTC record exactly as the kernel hands it out.
#[derive(Clone, Copy, Debug, PartialEq)]
pub struct RawDRMModeCrtc {
    pub crtc_id: u32,
    pub buffer_id: u32,
    pub x: u32,
    pub y: u32,
    pub width: u32,
    pub height: u32,
    pub mode_valid: i32,
    pub mode: RawDRMModeModeInfo,
    pub gamma_size: i32,
}

/// A CRTC (display controller) with its mode decoded.
#[derive(Clone, Debug)]
pub struct DRMModeCrtc {
    pub crtc_id: u32,
    pub buffer_id: u32,
    pub x: u32,
    pub y: u32,
    pub width: u32,
    pub height: u32,
    pub mode_valid: i32,
    pub mode: DRMModeModeInfo,
    pub gamma_size: i32,
}

impl DRMModeCrtc {
    /// Decodes a raw CRTC record.
    pub fn from_raw(raw: &RawDRMModeCrtc) -> (r: DRMModeCrtc)
        ensures
            r.crtc_id == raw.crtc_id,
            r.buffer_id == raw.buffer_id,
            r.x == raw.x,
            r.y == raw.y,
            r.width == raw.width,
            r.height == raw.height,
            r.mode_valid == raw.mode_valid,
            mode_info_matches_raw(r.mode, raw.mode),
            r.gamma_size == raw.gamma_size,
    {
        DRMModeCrtc {
            crtc_id: raw.crtc_id,
            buffer_id: raw.buffer_id,
            x: raw.x,
            y: raw.y,
            width: raw.width,
            height: raw.height,
            mode_valid: raw.mode_valid,
            mode: DRMModeModeInfo::from_raw(&raw.mode),
            gamma_size: raw.gamma_size,
        }
    }
}

/// Picks the connector to drive: the first one whose connection state is
/// `DRM_MODE_CONNECTED`, or none when no connector is connected.
pub fn find_connector(connectors: &Vec<DRMModeConnector>) -> (r: Option<usize>)
    ensures
        r is Some ==> {
            &&& r->0 < connectors@.len()
            &&& connectors@[r->0 as int].connection == DRMModeConnection::DRM_MODE_CONNECTED
            &&& forall|j: int|
                0 <= j < r->0 ==> (#[trigger] connectors@[j].connection)
                    != DRMModeConnection::DRM_MODE_CONNECTED
        },
        r is None ==> forall|j: int|
            0 <= j < connectors@.len() ==> (#[trigger] connectors@[j].connection)
                != DRMModeConnection::DRM_MODE_CONNECTED,
{
    let mut i: usize = 0;
    while i < connectors.len()
        invariant
            0 <= i <= connectors@.len(),
            forall|j: int|
                0 <= j < i ==> (#[trigger] connectors@[j].connection)
                    != DRMModeConnection::DRM_MODE_CONNECTED,
        decreases connectors@.len() - i,
    {
        if matches!(connectors[i].connection, DRMModeConnection::DRM_MODE_CONNECTED) {
            return Some(i);
        }
        i += 1;
    }
    None
}

} // verus!
