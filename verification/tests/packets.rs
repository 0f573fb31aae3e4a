use minimap_renderer::decoder::{CameraMode, CruiseState};
use minimap_renderer::packets::{decode_view_packet, ViewEvent, ViewNote, ViewPacket};

fn identity() -> Vec<u8> {
    let mut m = Vec::new();
    for row in 0..4 {
        for col in 0..4 {
            let v: f32 = if row == col { 1.0 } else { 0.0 };
            m.extend_from_slice(&v.to_le_bytes());
        }
    }
    m
}

fn camera18() -> Vec<u8> {
    let mut p = Vec::new();
    for _ in 0..10 {
        p.extend_from_slice(&0.0f32.to_le_bytes());
    }
    for _ in 0..3 {
        p.extend_from_slice(&(-1.0f32).to_le_bytes());
    }
    p
}

#[test]
fn camera_modes_decode_by_code() {
    assert!(matches!(decode_view_packet(false, ViewPacket::CameraMode(3)), ViewEvent::CameraMode(CameraMode::OverheadMap)));
    assert!(matches!(decode_view_packet(false, ViewPacket::CameraMode(11)), ViewEvent::CameraMode(CameraMode::FollowingSubmarine)));
    assert!(matches!(decode_view_packet(false, ViewPacket::CameraMode(4)), ViewEvent::CameraMode(CameraMode::Unknown(4))));
    assert!(matches!(decode_view_packet(true, ViewPacket::CameraMode(4)), ViewEvent::Audit(ViewNote::UnknownCameraMode(4))));
}

#[test]
fn free_look_is_a_flag() {
    assert!(matches!(decode_view_packet(false, ViewPacket::CameraFreeLook(0)), ViewEvent::CameraFreeLook(false)));
    assert!(matches!(decode_view_packet(true, ViewPacket::CameraFreeLook(1)), ViewEvent::CameraFreeLook(true)));
    assert!(matches!(decode_view_packet(false, ViewPacket::CameraFreeLook(7)), ViewEvent::CameraFreeLook(true)));
    assert!(matches!(decode_view_packet(true, ViewPacket::CameraFreeLook(7)), ViewEvent::Audit(ViewNote::FreeLookNotABool(7))));
}

#[test]
fn cruise_states_decode_by_key() {
    assert!(matches!(
        decode_view_packet(false, ViewPacket::CruiseState { key: 1, value: -2 }),
        ViewEvent::CruiseState { state: CruiseState::Rudder, value: -2 }
    ));
    assert!(matches!(
        decode_view_packet(false, ViewPacket::CruiseState { key: 9, value: 1 }),
        ViewEvent::CruiseState { state: CruiseState::Unknown(9), value: 1 }
    ));
    assert!(matches!(
        decode_view_packet(true, ViewPacket::CruiseState { key: 9, value: 1 }),
        ViewEvent::Audit(ViewNote::UnknownCruiseState { key: 9, value: 1 })
    ));
}

#[test]
fn the_map_transform_is_audited() {
    assert!(matches!(
        decode_view_packet(true, ViewPacket::MapView { unknown: 1, matrix: identity() }),
        ViewEvent::MapView { unknown: 1, .. }
    ));
    assert!(matches!(
        decode_view_packet(true, ViewPacket::MapView { unknown: 2, matrix: identity() }),
        ViewEvent::Audit(ViewNote::MapFlagNotABool(2))
    ));
    let mut skewed = identity();
    skewed[4] = 1;
    assert!(matches!(
        decode_view_packet(true, ViewPacket::MapView { unknown: 0, matrix: skewed.clone() }),
        ViewEvent::Audit(ViewNote::MapMatrixNotIdentity)
    ));
    assert!(matches!(decode_view_packet(false, ViewPacket::MapView { unknown: 0, matrix: skewed }), ViewEvent::MapView { .. }));
}

#[test]
fn camera18_payload_is_audited() {
    assert!(matches!(
        decode_view_packet(true, ViewPacket::Unknown { packet_type: 0x18, payload: camera18() }),
        ViewEvent::Unknown(_)
    ));
    assert!(matches!(
        decode_view_packet(true, ViewPacket::Unknown { packet_type: 0x18, payload: vec![0; 52] }),
        ViewEvent::Audit(ViewNote::UnexpectedCamera18)
    ));
    assert!(matches!(
        decode_view_packet(true, ViewPacket::Unknown { packet_type: 0x19, payload: vec![1] }),
        ViewEvent::Unknown(_)
    ));
}
