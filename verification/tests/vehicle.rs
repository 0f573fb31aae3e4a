use minimap_renderer::rpc::ArgVal;
use minimap_renderer::types::{EntityId, GameParamId};
use minimap_renderer::vehicle::{create_entity, CreateError, CreatedEntity, VehicleProps};
use minimap_renderer::controller::EntityType;
use minimap_renderer::version::GameVersion;

fn props(entries: Vec<(&str, ArgVal)>) -> Vec<(String, ArgVal)> {
    entries.into_iter().map(|(k, v)| (k.to_string(), v)).collect()
}

fn ship_config_blob() -> Vec<u8> {
    // Three header words, one unit (321), no modernization, no signals, the
    // supply state, no camouflage, no abilities.
    let words: [u32; 10] = [0, 1, 0, 1, 321, 0, 0, 0, 0, 0];
    words.iter().flat_map(|x| x.to_le_bytes()).collect()
}

#[test]
fn vehicle_properties_update() {
    let v = GameVersion::new(12, 0, 0, 0);
    let mut p = VehicleProps::new();
    let args = props(vec![
        ("health", ArgVal::Float32(1500.0f32.to_bits())),
        ("maxHealth", ArgVal::Float32(2000.0f32.to_bits())),
        ("isAlive", ArgVal::Uint8(1)),
        ("teamId", ArgVal::Int8(1)),
        ("owner", ArgVal::Int32(-1)),
        ("atbaTargets", ArgVal::Array(vec![ArgVal::Uint32(3), ArgVal::Uint32(4)])),
        ("effects", ArgVal::Array(vec![ArgVal::String(b"fire".to_vec())])),
        ("deathSettings", ArgVal::Blob(vec![1, 2])),
        ("crewModifiersCompactParams", ArgVal::FixedDict(props(vec![("paramsId", ArgVal::Uint32(77))]))),
        ("shipConfig", ArgVal::Blob(ship_config_blob())),
        ("unknownKey", ArgVal::Int8(0)),
    ]);
    assert!(p.update_from_args(&args, &v).is_ok());
    assert_eq!(f32::from_bits(p.health()), 1500.0);
    assert_eq!(f32::from_bits(p.max_health()), 2000.0);
    assert!(p.is_alive());
    assert_eq!(p.team_id(), 1);
    assert_eq!(p.owner(), u32::MAX);
    assert_eq!(p.atba_targets(), &[3, 4]);
    assert_eq!(p.effects(), &["fire".to_string()]);
    assert_eq!(p.death_settings(), &[1, 2]);
    assert_eq!(p.crew_modifiers_compact_params().params_id(), 77);
    assert_eq!(p.ship_config().hull(), 321);

    // A property of the wrong kind rejects the update and changes nothing.
    let bad = props(vec![("health", ArgVal::Float32(1.0f32.to_bits())), ("isAlive", ArgVal::Int8(0))]);
    assert!(p.update_from_args(&bad, &v).is_err());
    assert_eq!(f32::from_bits(p.health()), 1500.0);
    let bad_text = props(vec![("effects", ArgVal::Array(vec![ArgVal::String(vec![0xc3])]))]);
    assert!(p.update_from_args(&bad_text, &v).is_err());
    let bad_config = props(vec![("shipConfig", ArgVal::Blob(vec![0, 0]))]);
    assert!(p.update_from_args(&bad_config, &v).is_err());
}

#[test]
fn entity_creation() {
    let v = GameVersion::new(12, 0, 0, 0);
    let crew = ArgVal::FixedDict(props(vec![("paramsId", ArgVal::Uint32(9))]));
    match create_entity("Vehicle", EntityId(1), &props(vec![("crewModifiersCompactParams", crew)]), &v) {
        Ok(CreatedEntity::Vehicle { captain, .. }) => assert_eq!(captain, Some(9)),
        _ => panic!("expected a vehicle"),
    }
    match create_entity("Vehicle", EntityId(1), &props(vec![]), &v) {
        Ok(CreatedEntity::Vehicle { captain, .. }) => assert_eq!(captain, None),
        _ => panic!("expected a vehicle"),
    }
    match create_entity("Building", EntityId(2), &props(vec![("paramsId", ArgVal::Uint32(5))]), &v) {
        Ok(CreatedEntity::Building(b)) => {
            assert_eq!(b.id, EntityId(2));
            assert_eq!(b.params_id, GameParamId(5));
            assert!(b.is_alive);
        }
        _ => panic!("expected a building"),
    }
    match create_entity("SmokeScreen", EntityId(3), &props(vec![("radius", ArgVal::Float32(7))]), &v) {
        Ok(CreatedEntity::SmokeScreen { radius: 7 }) => {}
        _ => panic!("expected a smoke screen"),
    }
    match create_entity("BattleLogic", EntityId(4), &props(vec![]), &v) {
        Ok(CreatedEntity::Untracked(EntityType::BattleLogic)) => {}
        _ => panic!("expected an untracked entity"),
    }
    assert!(matches!(create_entity("Nope", EntityId(5), &props(vec![]), &v), Err(CreateError::UnknownEntityType)));
    let bad = props(vec![("health", ArgVal::Uint8(1))]);
    assert!(matches!(create_entity("Vehicle", EntityId(6), &bad, &v), Err(CreateError::MalformedProperties)));
}

#[test]
fn one_property_by_name() {
    let v = GameVersion::new(12, 0, 0, 0);
    let mut p = VehicleProps::new();
    assert!(p.update_by_name("teamId".to_string(), ArgVal::Int8(1), &v).is_ok());
    assert_eq!(p.team_id(), 1);
    assert!(p.update_by_name("notAProperty".to_string(), ArgVal::Int8(5), &v).is_ok());
    assert_eq!(p.team_id(), 1);
    assert!(p.update_by_name("teamId".to_string(), ArgVal::Float32(0), &v).is_err());
    assert_eq!(p.team_id(), 1);
}
