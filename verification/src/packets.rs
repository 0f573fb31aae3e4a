//! Decoding the packets of a replay that describe the recording player's
//! view: camera mode and free look, cruise states, the map, and packets of
//! unknown kind; in audit mode, unexpected values are reported.
use vstd::prelude::*;
use crate::decoder::{
    camera_mode_from_code, camera_mode_spec, cruise_state_from_key, cruise_state_spec, CameraMode,
    CruiseState,
};

verus! {

/// The packet type of the camera packet that the game sends with a fixed
/// payload.
pub const CAMERA_18_TYPE: u32 = 0x18;

/// A view packet as it arrives.
#[derive(Debug)]
pub enum ViewPacket {
    CameraMode(u32),
    CameraFreeLook(u8),
    CruiseState { key: u32, value: i32 },
    /// The map: a flag that should be 0 or 1, and the bytes of a 4x4 `f32`
    /// transform that should be the identity.
    MapView { unknown: u32, matrix: Vec<u8> },
    /// A packet of a type that is not decoded.
    Unknown { packet_type: u32, payload: Vec<u8> },
}

/// A value that the audit mode reports instead of decoding it.
#[derive(Debug, Clone, Copy, PartialEq, Eq, Structural)]
pub enum ViewNote {
    UnknownCameraMode(u32),
    FreeLookNotABool(u8),
    UnknownCruiseState { key: u32, value: i32 },
    MapFlagNotABool(u32),
    MapMatrixNotIdentity,
    UnexpectedCamera18,
}

/// A decoded view packet.
#[derive(Debug)]
pub enum ViewEvent {
    CameraMode(CameraMode),
    CameraFreeLook(bool),
    CruiseState { state: CruiseState, value: i32 },
    MapView { unknown: u32, matrix: Vec<u8> },
    Unknown(Vec<u8>),
    Audit(ViewNote),
}

/// Byte `i` of the little-endian `f32` 4x4 identity matrix.
pub open spec fn identity_byte(i: int) -> u8 {
    if i % 20 == 2 {
        0x80
    } else if i % 20 == 3 {
        0x3f
    } else {
        0
    }
}

/// The bytes of the little-endian `f32` 4x4 identity matrix.
pub open spec fn identity_matrix() -> Seq<u8> {
    Seq::new(64, |i: int| identity_byte(i))
}

/// Byte `i` of the fixed payload of camera packets of type 0x18: ten `f32`
/// zeros, then three `-1.0`.
pub open spec fn camera18_byte(i: int) -> u8 {
    if i >= 40 && i % 4 == 2 {
        0x80
    } else if i >= 40 && i % 4 == 3 {
        0xbf
    } else {
        0
    }
}

/// The fixed payload of camera packets of type 0x18.
pub open spec fn camera18_payload() -> Seq<u8> {
    Seq::new(52, |i: int| camera18_byte(i))
}

fn is_identity_matrix(m: &Vec<u8>) -> (r: bool)
    ensures
        r == (m@ == identity_matrix()),
{
    if m.len() != 64 {
        return false;
    }
    let mut i: usize = 0;
    while i < 64
        invariant
            i <= 64,
            m@.len() == 64,
            forall|j: int| 0 <= j < i ==> m@[j] == #[trigger] identity_byte(j),
        decreases 64 - i,
    {
        let want: u8 = if i % 20 == 2 {
            0x80
        } else if i % 20 == 3 {
            0x3f
        } else {
            0
        };
        if m[i] != want {
            assert(m@[i as int] != identity_matrix()[i as int]);
            return false;
        }
        i += 1;
    }
    assert(m@ =~= identity_matrix());
    true
}

fn is_camera18_payload(p: &Vec<u8>) -> (r: bool)
    ensures
        r == (p@ == camera18_payload()),
{
    if p.len() != 52 {
        return false;
    }
    let mut i: usize = 0;
    while i < 52
        invariant
            i <= 52,
            p@.len() == 52,
            forall|j: int| 0 <= j < i ==> p@[j] == #[trigger] camera18_byte(j),
        decreases 52 - i,
    {
        let want: u8 = if i >= 40 && i % 4 == 2 {
            0x80
        } else if i >= 40 && i % 4 == 3 {
            0xbf
        } else {
            0
        };
        if p[i] != want {
            assert(p@[i as int] != camera18_payload()[i as int]);
            return false;
        }
        i += 1;
    }
    assert(p@ =~= camera18_payload());
    true
}

/// What a view packet decodes to: known camera modes and cruise states by
/// their codes, free look from 0 and 1, the map and unknown packets as they
/// are. In audit mode an unknown code, a free look or map flag that is not 0
/// or 1, a map transform that is not the identity, or a type-0x18 camera
/// packet with another payload is reported instead; otherwise an unknown
/// code is kept as unknown and any other free look counts as on.
pub open spec fn view_event_spec(audit: bool, p: ViewPacket) -> ViewEvent {
    match p {
        ViewPacket::CameraMode(code) => match camera_mode_spec(code) {
            Some(m) => ViewEvent::CameraMode(m),
            None => if audit {
                ViewEvent::Audit(ViewNote::UnknownCameraMode(code))
            } else {
                ViewEvent::CameraMode(CameraMode::Unknown(code))
            },
        },
        ViewPacket::CameraFreeLook(v) => if v == 0 {
            ViewEvent::CameraFreeLook(false)
        } else if v == 1 || !audit {
            ViewEvent::CameraFreeLook(true)
        } else {
            ViewEvent::Audit(ViewNote::FreeLookNotABool(v))
        },
        ViewPacket::CruiseState { key, value } => match cruise_state_spec(key) {
            Some(state) => ViewEvent::CruiseState { state, value },
            None => if audit {
                ViewEvent::Audit(ViewNote::UnknownCruiseState { key, value })
            } else {
                ViewEvent::CruiseState { state: CruiseState::Unknown(key), value }
            },
        },
        ViewPacket::MapView { unknown, matrix } => if audit && unknown != 0 && unknown != 1 {
            ViewEvent::Audit(ViewNote::MapFlagNotABool(unknown))
        } else if audit && matrix@ != identity_matrix() {
            ViewEvent::Audit(ViewNote::MapMatrixNotIdentity)
        } else {
            ViewEvent::MapView { unknown, matrix }
        },
        ViewPacket::Unknown { packet_type, payload } => if audit && packet_type == CAMERA_18_TYPE
            && payload@ != camera18_payload() {
            ViewEvent::Audit(ViewNote::UnexpectedCamera18)
        } else {
            ViewEvent::Unknown(payload)
        },
    }
}

/// Decodes a view packet.
pub fn decode_view_packet(audit: bool, p: ViewPacket) -> (r: ViewEvent)
    ensures
        r == view_event_spec(audit, p),
{
    match p {
        ViewPacket::CameraMode(code) => match camera_mode_from_code(code) {
            Some(m) => ViewEvent::CameraMode(m),
            None => if audit {
                ViewEvent::Audit(ViewNote::UnknownCameraMode(code))
            } else {
                ViewEvent::CameraMode(CameraMode::Unknown(code))
            },
        },
        ViewPacket::CameraFreeLook(v) => if v == 0 {
            ViewEvent::CameraFreeLook(false)
        } else if v == 1 || !audit {
            ViewEvent::CameraFreeLook(true)
        } else {
            ViewEvent::Audit(ViewNote::FreeLookNotABool(v))
        },
        ViewPacket::CruiseState { key, value } => match cruise_state_from_key(key) {
            Some(state) => ViewEvent::CruiseState { state, value },
            None => if audit {
                ViewEvent::Audit(ViewNote::UnknownCruiseState { key, value })
            } else {
                ViewEvent::CruiseState { state: CruiseState::Unknown(key), value }
            },
        },
        ViewPacket::MapView { unknown, matrix } => {
            if audit && unknown != 0 && unknown != 1 {
                ViewEvent::Audit(ViewNote::MapFlagNotABool(unknown))
            } else if audit && !is_identity_matrix(&matrix) {
                ViewEvent::Audit(ViewNote::MapMatrixNotIdentity)
            } else {
                ViewEvent::MapView { unknown, matrix }
            }
        },
        ViewPacket::Unknown { packet_type, payload } => {
            if audit && packet_type == CAMERA_18_TYPE && !is_camera18_payload(&payload) {
                ViewEvent::Audit(ViewNote::UnexpectedCamera18)
            } else {
                ViewEvent::Unknown(payload)
            }
        },
    }
}

} // verus!
