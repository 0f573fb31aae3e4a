use minimap_renderer::decoder::{
    camera_mode_from_code, consumable_from_code, cruise_state_from_key, death_cause_from_code,
    legacy_voice_line, parse_receive_common_cmd_blob, ribbon_from_code, unpack_minimap_update,
    CameraMode, CommandBlobError, Consumable, CruiseState, DeathCause, MapCoord, Ribbon, VoiceLine,
};
use minimap_renderer::events::{
    decode_entity_method, method_kind, AuditNote, DecodeError, MethodEvent, MethodKind,
};
use minimap_renderer::rpc::ArgVal;
use minimap_renderer::types::{AccountId, EntityId, GameParamId, PlaneId};
use minimap_renderer::version::GameVersion;

fn new_client() -> GameVersion {
    GameVersion::new(13, 5, 0, 0)
}

fn old_client() -> GameVersion {
    GameVersion::new(0, 12, 7, 0)
}

fn dict(entries: Vec<(&str, ArgVal)>) -> ArgVal {
    ArgVal::FixedDict(entries.into_iter().map(|(k, v)| (k.to_string(), v)).collect())
}

#[test]
fn code_tables() {
    assert_eq!(ribbon_from_code(1), Some(Ribbon::TorpedoHit));
    assert_eq!(ribbon_from_code(41), Some(Ribbon::SonarNeutralized));
    assert_eq!(ribbon_from_code(2), None);
    assert_eq!(death_cause_from_code(17), Some(DeathCause::Artillery));
    assert_eq!(death_cause_from_code(19), Some(DeathCause::Artillery));
    assert_eq!(death_cause_from_code(28), Some(DeathCause::DepthCharge));
    assert_eq!(death_cause_from_code(1), None);
    assert_eq!(consumable_from_code(37), Some(Consumable::ReserveBattery));
    assert_eq!(consumable_from_code(4), None);
    assert_eq!(camera_mode_from_code(11), Some(CameraMode::FollowingSubmarine));
    assert_eq!(camera_mode_from_code(4), None);
    assert_eq!(cruise_state_from_key(2), Some(CruiseState::DiveDepth));
    assert_eq!(cruise_state_from_key(3), None);
}

#[test]
fn command_blob_lines() {
    // Line 5 (aye aye) to the team.
    let r = parse_receive_common_cmd_blob(&[5, 0, 0]).unwrap();
    assert_eq!(r, (VoiceLine::Wilco, false, 3));
    // Attention to square (x=3, y=258) to everyone.
    let r = parse_receive_common_cmd_blob(&[1, 0, 1, 3, 0, 2, 1]).unwrap();
    assert_eq!(r, (VoiceLine::AttentionToSquare(3, 258), true, 7));
    // Retreat with and without a target.
    let mut blob = vec![12, 0, 0, 0, 0];
    blob.extend_from_slice(&9u64.to_le_bytes());
    assert_eq!(parse_receive_common_cmd_blob(&blob).unwrap().0, VoiceLine::Retreat(Some(9)));
    let mut blob = vec![12, 0, 0, 0, 0];
    blob.extend_from_slice(&0u64.to_le_bytes());
    assert_eq!(parse_receive_common_cmd_blob(&blob).unwrap().0, VoiceLine::Retreat(None));
    // Map point attention keeps the float bits.
    let mut blob = vec![18, 0, 1];
    blob.extend_from_slice(&1.5f32.to_bits().to_le_bytes());
    blob.extend_from_slice(&(-2.0f32).to_bits().to_le_bytes());
    let (line, global, n) = parse_receive_common_cmd_blob(&blob).unwrap();
    assert!(global);
    assert_eq!(n, 11);
    assert_eq!(
        line,
        VoiceLine::MapPointAttention(
            MapCoord::Bits(1.5f32.to_bits()),
            MapCoord::Bits((-2.0f32).to_bits())
        )
    );
}

#[test]
fn command_blob_errors() {
    assert_eq!(parse_receive_common_cmd_blob(&[5, 0]), Err(CommandBlobError::Incomplete));
    assert_eq!(parse_receive_common_cmd_blob(&[5, 0, 2]), Err(CommandBlobError::UnknownAudience(2)));
    assert_eq!(parse_receive_common_cmd_blob(&[4, 0, 0]), Err(CommandBlobError::UnknownLine(4)));
    assert_eq!(parse_receive_common_cmd_blob(&[2, 0, 0, 1, 0]), Err(CommandBlobError::Incomplete));
}

#[test]
fn legacy_voice_lines() {
    assert_eq!(legacy_voice_line(1, 4, 5), Some(VoiceLine::AttentionToSquare(4, 5)));
    assert_eq!(legacy_voice_line(2, 0x1_0003, 7), Some(VoiceLine::QuickTactic(3, 7)));
    assert_eq!(
        legacy_voice_line(18, 10, 20),
        Some(VoiceLine::MapPointAttention(MapCoord::Whole(10), MapCoord::Whole(20)))
    );
    assert_eq!(legacy_voice_line(19, 0, 0), Some(VoiceLine::UsingSubmarineLocator));
    assert_eq!(legacy_voice_line(4, 0, 0), None);
}

#[test]
fn minimap_word_unpacks_from_the_lowest_bit() {
    let packed: u32 = 100 | (200 << 11) | (64 << 22) | (1 << 31);
    let u = unpack_minimap_update(packed);
    assert_eq!(u.x, 100);
    assert_eq!(u.y, 200);
    assert_eq!(u.heading, 64);
    assert!(!u.unknown);
    assert!(u.is_disappearing);
    let u = unpack_minimap_update(1 << 30);
    assert!(u.unknown && !u.is_disappearing);
    assert_eq!((u.x, u.y, u.heading), (0, 0, 0));
}

#[test]
fn method_names() {
    assert_eq!(method_kind("receiveVehicleDeath"), MethodKind::VehicleDeath);
    assert_eq!(method_kind("syncGun"), MethodKind::SyncGun);
    assert_eq!(method_kind("somethingElse"), MethodKind::Other);
}

#[test]
fn vehicle_death_and_audit() {
    let args = vec![ArgVal::Int32(5), ArgVal::Int32(9), ArgVal::Uint32(3)];
    match decode_entity_method(&new_client(), false, EntityId(1), "receiveVehicleDeath", &args) {
        Ok(MethodEvent::ShipDestroyed { victim, killer, cause }) => {
            assert_eq!(victim, EntityId(5));
            assert_eq!(killer, EntityId(9));
            assert_eq!(cause, DeathCause::Torpedo);
        }
        other => panic!("unexpected {:?}", other),
    }
    let args = vec![ArgVal::Int32(5), ArgVal::Int32(9), ArgVal::Uint32(99)];
    match decode_entity_method(&new_client(), true, EntityId(1), "receiveVehicleDeath", &args) {
        Ok(MethodEvent::Audit(AuditNote::UnknownDeathCause { victim: 5, killer: 9, cause: 99 })) => {}
        other => panic!("unexpected {:?}", other),
    }
    match decode_entity_method(&new_client(), false, EntityId(1), "receiveVehicleDeath", &args) {
        Ok(MethodEvent::ShipDestroyed { cause: DeathCause::Unknown(99), .. }) => {}
        other => panic!("unexpected {:?}", other),
    }
    let bad = vec![ArgVal::Int32(5), ArgVal::Uint32(9), ArgVal::Uint32(3)];
    assert!(matches!(
        decode_entity_method(&new_client(), false, EntityId(1), "receiveVehicleDeath", &bad),
        Err(DecodeError::Malformed)
    ));
}

#[test]
fn voice_lines_by_client_version() {
    let args = vec![ArgVal::Int32(77), ArgVal::Blob(vec![8, 0, 1])];
    match decode_entity_method(&new_client(), false, EntityId(1), "receive_CommonCMD", &args) {
        Ok(MethodEvent::VoiceLine { sender_id, is_global, message }) => {
            assert_eq!(sender_id, AccountId(77));
            assert!(is_global);
            assert_eq!(message, VoiceLine::FairWinds);
        }
        other => panic!("unexpected {:?}", other),
    }
    let legacy = vec![
        ArgVal::Uint8(0),
        ArgVal::Int32(77),
        ArgVal::Uint8(13),
        ArgVal::Uint32(0),
        ArgVal::Uint64(0),
    ];
    match decode_entity_method(&old_client(), false, EntityId(1), "receive_CommonCMD", &legacy) {
        Ok(MethodEvent::VoiceLine { is_global: false, message: VoiceLine::IntelRequired, .. }) => {}
        other => panic!("unexpected {:?}", other),
    }
    let bad_blob = vec![ArgVal::Int32(77), ArgVal::Blob(vec![8, 0, 3])];
    assert!(matches!(
        decode_entity_method(&new_client(), false, EntityId(1), "receive_CommonCMD", &bad_blob),
        Err(DecodeError::CommandBlob(CommandBlobError::UnknownAudience(3)))
    ));
}

#[test]
fn battle_end_by_client_version() {
    let args = vec![ArgVal::Int8(1), ArgVal::Uint8(3)];
    match decode_entity_method(&old_client(), false, EntityId(1), "onBattleEnd", &args) {
        Ok(MethodEvent::BattleEnd { winning_team: Some(1), state: Some(3) }) => {}
        other => panic!("unexpected {:?}", other),
    }
    match decode_entity_method(&new_client(), false, EntityId(1), "onBattleEnd", &vec![]) {
        Ok(MethodEvent::BattleEnd { winning_team: None, state: None }) => {}
        other => panic!("unexpected {:?}", other),
    }
}

#[test]
fn ribbons_consumables_and_pings() {
    match decode_entity_method(&new_client(), false, EntityId(1), "onRibbon", &vec![ArgVal::Int8(8)]) {
        Ok(MethodEvent::Ribbon(Ribbon::Citadel)) => {}
        other => panic!("unexpected {:?}", other),
    }
    match decode_entity_method(&new_client(), true, EntityId(1), "onRibbon", &vec![ArgVal::Int8(2)]) {
        Ok(MethodEvent::Audit(AuditNote::UnknownRibbon(2))) => {}
        other => panic!("unexpected {:?}", other),
    }
    let args = vec![ArgVal::Int8(13), ArgVal::Float32(20.0f32.to_bits())];
    match decode_entity_method(&new_client(), false, EntityId(4), "consumableUsed", &args) {
        Ok(MethodEvent::Consumable { entity, consumable, duration }) => {
            assert_eq!(entity, EntityId(4));
            assert_eq!(consumable, Consumable::Radar);
            assert_eq!(f32::from_bits(duration), 20.0);
        }
        other => panic!("unexpected {:?}", other),
    }
    match decode_entity_method(&new_client(), false, EntityId(1), "onCheckGamePing", &vec![ArgVal::Uint64(31)]) {
        Ok(MethodEvent::CheckPing(31)) => {}
        other => panic!("unexpected {:?}", other),
    }
}

#[test]
fn damages_and_minimap_updates() {
    let args = vec![ArgVal::Array(vec![
        dict(vec![("vehicleID", ArgVal::Int32(3)), ("damage", ArgVal::Float32(1234.5f32.to_bits()))]),
        dict(vec![("damage", ArgVal::Float32(10.0f32.to_bits())), ("vehicleID", ArgVal::Int32(8))]),
    ])];
    match decode_entity_method(&new_client(), false, EntityId(2), "receiveDamagesOnShip", &args) {
        Ok(MethodEvent::DamageReceived { victim, aggressors }) => {
            assert_eq!(victim, EntityId(2));
            assert_eq!(aggressors.len(), 2);
            assert_eq!(aggressors[0].aggressor, EntityId(3));
            assert_eq!(f32::from_bits(aggressors[0].damage), 1234.5);
            assert_eq!(aggressors[1].aggressor, EntityId(8));
        }
        other => panic!("unexpected {:?}", other),
    }
    let bad = vec![ArgVal::Array(vec![dict(vec![("vehicleID", ArgVal::Int32(3))])])];
    assert!(matches!(
        decode_entity_method(&new_client(), false, EntityId(2), "receiveDamagesOnShip", &bad),
        Err(DecodeError::Malformed)
    ));

    let packed: u32 = 1 | (2 << 11) | (3 << 22);
    let args = vec![
        ArgVal::Array(vec![dict(vec![
            ("vehicleID", ArgVal::Uint32(11)),
            ("packedData", ArgVal::Uint32(packed)),
        ])]),
        ArgVal::Array(vec![]),
    ];
    match decode_entity_method(&new_client(), false, EntityId(2), "updateMinimapVisionInfo", &args) {
        Ok(MethodEvent::MinimapUpdate { updates }) => {
            assert_eq!(updates.len(), 1);
            assert_eq!(updates[0].entity_id, EntityId(11));
            assert_eq!((updates[0].packed.x, updates[0].packed.y, updates[0].packed.heading), (1, 2, 3));
        }
        other => panic!("unexpected {:?}", other),
    }
    let no_second = vec![ArgVal::Array(vec![])];
    assert!(matches!(
        decode_entity_method(&new_client(), false, EntityId(2), "updateMinimapVisionInfo", &no_second),
        Err(DecodeError::Malformed)
    ));
}

#[test]
fn shot_kills_skip_what_is_not_a_dictionary() {
    let args = vec![ArgVal::Array(vec![
        dict(vec![
            ("ownerID", ArgVal::Int32(6)),
            (
                "kills",
                ArgVal::Array(vec![
                    dict(vec![("shotID", ArgVal::Uint32(100))]),
                    ArgVal::Uint8(0),
                    dict(vec![]),
                ]),
            ),
        ]),
        ArgVal::Int8(1),
        dict(vec![("kills", ArgVal::Array(vec![dict(vec![("shotID", ArgVal::Uint32(7))])]))]),
    ])];
    match decode_entity_method(&new_client(), false, EntityId(2), "receiveShotKills", &args) {
        Ok(MethodEvent::ShotKills { entity_id, hits }) => {
            assert_eq!(entity_id, EntityId(2));
            let got: Vec<(u32, u32)> = hits.iter().map(|h| (h.owner_id.raw(), h.shot_id)).collect();
            assert_eq!(got, vec![(6, 100), (6, 0), (0, 7)]);
        }
        other => panic!("unexpected {:?}", other),
    }
    match decode_entity_method(&new_client(), false, EntityId(2), "receiveShotKills", &vec![ArgVal::Int8(0)]) {
        Ok(MethodEvent::Undecoded) => {}
        other => panic!("unexpected {:?}", other),
    }
}

#[test]
fn torpedoes_and_shells() {
    let args = vec![ArgVal::Array(vec![dict(vec![
        ("ownerID", ArgVal::Int32(4)),
        ("paramsID", ArgVal::Uint32(900)),
        ("salvoID", ArgVal::Uint32(2)),
        (
            "torpedoes",
            ArgVal::Array(vec![dict(vec![
                ("shotID", ArgVal::Uint32(1)),
                ("pos", ArgVal::Vector3(1, 2, 3)),
                ("dir", ArgVal::Array(vec![ArgVal::Float32(4), ArgVal::Int8(0), ArgVal::Float32(6)])),
            ])]),
        ),
    ])])];
    match decode_entity_method(&new_client(), false, EntityId(2), "receiveTorpedoes", &args) {
        Ok(MethodEvent::TorpedoesReceived { torpedoes, .. }) => {
            assert_eq!(torpedoes.len(), 1);
            let t = torpedoes[0];
            assert_eq!(t.owner_id, EntityId(4));
            assert_eq!(t.params_id, GameParamId(900));
            assert_eq!((t.salvo_id, t.shot_id), (2, 1));
            assert_eq!((t.origin.x, t.origin.y, t.origin.z), (1, 2, 3));
            assert_eq!((t.direction.x, t.direction.y, t.direction.z), (4, 0, 6));
        }
        other => panic!("unexpected {:?}", other),
    }
    let args = vec![ArgVal::Array(vec![
        dict(vec![("ownerID", ArgVal::Int32(4))]),
        dict(vec![
            ("salvoID", ArgVal::Uint32(5)),
            (
                "shots",
                ArgVal::Array(vec![dict(vec![
                    ("tarPos", ArgVal::Vector3(7, 8, 9)),
                    ("speed", ArgVal::Float32(800.0f32.to_bits())),
                ])]),
            ),
        ]),
    ])];
    match decode_entity_method(&new_client(), false, EntityId(2), "receiveArtilleryShots", &args) {
        Ok(MethodEvent::ArtilleryShots { salvos, .. }) => {
            assert_eq!(salvos.len(), 1);
            assert_eq!(salvos[0].salvo_id, 5);
            assert_eq!(salvos[0].owner_id, EntityId(0));
            assert_eq!(salvos[0].shots.len(), 1);
            assert_eq!(salvos[0].shots[0].target.z, 9);
            assert_eq!(f32::from_bits(salvos[0].shots[0].speed), 800.0);
        }
        other => panic!("unexpected {:?}", other),
    }
}

#[test]
fn squadrons_and_guns() {
    let args = vec![
        ArgVal::Int32(-1),
        ArgVal::Int8(-1),
        ArgVal::Uint64(0x1_0000_0007),
        ArgVal::Vector2(10, 20),
        ArgVal::Uint8(0),
    ];
    match decode_entity_method(&new_client(), false, EntityId(2), "receive_addMinimapSquadron", &args) {
        Ok(MethodEvent::PlaneAdded { plane_id, team_id, params_id, x, y, .. }) => {
            assert_eq!(plane_id, PlaneId(u64::MAX));
            assert_eq!(team_id, u32::MAX);
            assert_eq!(params_id, GameParamId(7));
            assert_eq!((x, y), (10, 20));
        }
        other => panic!("unexpected {:?}", other),
    }
    let args = vec![ArgVal::Uint64(3), ArgVal::Array(vec![ArgVal::Float32(5), ArgVal::Int8(1)])];
    match decode_entity_method(&new_client(), false, EntityId(2), "receive_updateMinimapSquadron", &args) {
        Ok(MethodEvent::PlanePosition { plane_id, x, y, .. }) => {
            assert_eq!(plane_id, PlaneId(3));
            assert_eq!((x, y), (5, 0));
        }
        other => panic!("unexpected {:?}", other),
    }
    match decode_entity_method(&new_client(), false, EntityId(2), "receive_removeMinimapSquadron", &vec![ArgVal::Float32(0)]) {
        Ok(MethodEvent::Undecoded) => {}
        other => panic!("unexpected {:?}", other),
    }
    let args = vec![ArgVal::Uint8(1), ArgVal::Int8(2), ArgVal::Float32(3), ArgVal::Float32(4)];
    match decode_entity_method(&new_client(), false, EntityId(2), "syncGun", &args) {
        Ok(MethodEvent::GunSync { group: 1, turret: 2, yaw: 3, pitch: 4, .. }) => {}
        other => panic!("unexpected {:?}", other),
    }
}

#[test]
fn chat_messages() {
    let args = vec![
        ArgVal::Int32(12),
        ArgVal::String(b"battle_team".to_vec()),
        ArgVal::String(b"gl hf".to_vec()),
    ];
    match decode_entity_method(&new_client(), false, EntityId(2), "onChatMessage", &args) {
        Ok(MethodEvent::Chat { sender_id, audience, message, extra, .. }) => {
            assert_eq!(sender_id, AccountId(12));
            assert_eq!(audience, "battle_team");
            assert_eq!(message, "gl hf");
            assert!(extra.is_none());
        }
        other => panic!("unexpected {:?}", other),
    }
    let system = vec![
        ArgVal::Int32(0),
        ArgVal::String(b"battle_common".to_vec()),
        ArgVal::String(b"".to_vec()),
        ArgVal::String(vec![0x80, 2, b'}', b'U', 1, b'a', b'K', 1, b's', b'.']),
    ];
    assert!(matches!(
        decode_entity_method(&new_client(), false, EntityId(2), "onChatMessage", &system),
        Err(DecodeError::Malformed)
    ));
    let not_pickled = vec![
        ArgVal::Int32(0),
        ArgVal::String(b"battle_common".to_vec()),
        ArgVal::String(b"".to_vec()),
        ArgVal::String(vec![1, 2, 3]),
    ];
    assert!(matches!(
        decode_entity_method(&new_client(), false, EntityId(2), "onChatMessage", &not_pickled),
        Err(DecodeError::Malformed)
    ));
    let not_utf8 = vec![ArgVal::Int32(5), ArgVal::String(vec![0xff, 0xfe]), ArgVal::String(vec![])];
    assert!(matches!(
        decode_entity_method(&new_client(), false, EntityId(2), "onChatMessage", &not_utf8),
        Err(DecodeError::Malformed)
    ));
    let bad = vec![ArgVal::Int32(0), ArgVal::Int32(1), ArgVal::String(vec![])];
    assert!(matches!(
        decode_entity_method(&new_client(), false, EntityId(2), "onChatMessage", &bad),
        Err(DecodeError::Malformed)
    ));
    assert!(matches!(
        decode_entity_method(&new_client(), false, EntityId(2), "onArenaStateReceived", &vec![]),
        Err(DecodeError::Malformed)
    ));
}

#[test]
fn methods_that_are_not_decoded_stay_undecoded() {
    for args in [vec![], vec![ArgVal::Int8(1)], vec![ArgVal::String(b"x".to_vec()), ArgVal::Uint32(4)]] {
        match decode_entity_method(&new_client(), false, EntityId(2), "onFoo", &args) {
            Ok(MethodEvent::Undecoded) => {}
            other => panic!("unexpected {:?}", other),
        }
    }
    for m in ["receiveArtilleryShots", "receiveTorpedoes", "receiveShotKills"] {
        match decode_entity_method(&new_client(), false, EntityId(2), m, &vec![ArgVal::Uint32(1)]) {
            Ok(MethodEvent::Undecoded) => {}
            other => panic!("unexpected {:?}", other),
        }
    }
}
