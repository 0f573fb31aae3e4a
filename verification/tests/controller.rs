use std::time::Duration;

use minimap_renderer::controller::{
    battle_result, chat_channel, parse_ship_config, record_connection_state, BattleResult,
    ChatChannel, ConnectionChangeInfo, ConnectionChangeKind, CrewModifiersCompactParams, Death,
    EntityType, KillLog, ShipConfigError, ShipLoadout, Skills, xEntityType,
};
use minimap_renderer::decoder::DeathCause;
use minimap_renderer::rpc::ArgVal;
use minimap_renderer::types::EntityId;
use minimap_renderer::version::GameVersion;

fn words(ws: &[u32]) -> Vec<u8> {
    ws.iter().flat_map(|w| w.to_le_bytes()).collect()
}

fn config_blob(extra_word: bool) -> Vec<u8> {
    let mut w = vec![0, 4_000_000, 0, 2, 111, 222];
    if extra_word {
        w.push(0xdead);
    }
    w.extend_from_slice(&[1, 333]); // modernization
    w.extend_from_slice(&[2, 444, 555]); // signals
    w.push(9); // supply state
    w.extend_from_slice(&[1, 7, 8]); // one camouflage pair
    w.extend_from_slice(&[1, 666]); // abilities
    words(&w)
}

#[test]
fn ship_config_before_and_after_13_2() {
    let old = GameVersion::new(13, 1, 0, 0);
    let blob = config_blob(false);
    let (c, n) = parse_ship_config(&blob, &old).unwrap();
    assert_eq!(n, blob.len());
    assert_eq!(c.units(), &[111, 222]);
    assert_eq!(c.hull(), 111);
    assert_eq!(c.modernization(), &[333]);
    assert_eq!(c.signals(), &[444, 555]);
    assert_eq!(c.abilities(), &[666]);

    let new = GameVersion::new(13, 2, 0, 0);
    let mut blob = config_blob(true);
    blob.extend_from_slice(&[1, 2, 3]); // trailing bytes are left
    let (c, n) = parse_ship_config(&blob, &new).unwrap();
    assert_eq!(n, blob.len() - 3);
    assert_eq!(c.signals(), &[444, 555]);
    assert_eq!(c.abilities(), &[666]);
}

#[test]
fn ship_config_errors() {
    let old = GameVersion::new(12, 0, 0, 0);
    let blob = config_blob(false);
    assert_eq!(parse_ship_config(&blob[..blob.len() - 1], &old).err(), Some(ShipConfigError::Incomplete));
    assert_eq!(parse_ship_config(&[], &old).err(), Some(ShipConfigError::Incomplete));
    let no_units = words(&[0, 1, 0, 0, 0, 0, 0, 0, 0]);
    assert_eq!(parse_ship_config(&no_units, &old).err(), Some(ShipConfigError::NoUnits));
    // A count larger than the blob.
    let huge = words(&[0, 1, 0, u32::MAX]);
    assert_eq!(parse_ship_config(&huge, &old).err(), Some(ShipConfigError::Incomplete));
}

#[test]
fn connection_history_alternates() {
    let mut h: Vec<ConnectionChangeInfo> = Vec::new();
    assert!(!record_connection_state(&mut h, Duration::from_secs(1), ConnectionChangeKind::Disconnected, false));
    assert!(record_connection_state(&mut h, Duration::from_secs(2), ConnectionChangeKind::Connected, false));
    assert!(!record_connection_state(&mut h, Duration::from_secs(3), ConnectionChangeKind::Connected, false));
    assert!(record_connection_state(&mut h, Duration::from_secs(4), ConnectionChangeKind::Disconnected, true));
    assert_eq!(h.len(), 2);
    assert_eq!(h[0].event_kind(), ConnectionChangeKind::Connected);
    assert_eq!(h[0].at_game_duration(), Duration::from_secs(2));
    assert_eq!(h[1].event_kind(), ConnectionChangeKind::Disconnected);
    assert!(h[1].had_death_event());
}

#[test]
fn battle_results() {
    assert_eq!(battle_result(false, Some(0), 0), None);
    assert_eq!(battle_result(true, None, 0), None);
    assert_eq!(battle_result(true, Some(1), 1), Some(BattleResult::Win(1)));
    assert_eq!(battle_result(true, Some(0), 1), Some(BattleResult::Loss(0)));
    assert_eq!(battle_result(true, Some(-1), 1), Some(BattleResult::Draw));
    // The player's team wraps to i8 as in the report.
    assert_eq!(battle_result(true, Some(1), 257), Some(BattleResult::Win(1)));
}

#[test]
fn names_of_channels_and_entity_types() {
    assert_eq!(chat_channel("battle_common"), Some(ChatChannel::Global));
    assert_eq!(chat_channel("battle_team"), Some(ChatChannel::Team));
    assert_eq!(chat_channel("battle_prebattle"), Some(ChatChannel::Division));
    assert_eq!(chat_channel("lobby"), None);
    assert_eq!(EntityType::from_name("Vehicle"), Some(EntityType::Vehicle));
    assert_eq!(EntityType::from_name("SmokeScreen"), Some(EntityType::SmokeScreen));
    assert_eq!(EntityType::from_name("vehicle"), None);
    assert_eq!(xEntityType::Client.flag(), 1);
    assert_eq!(xEntityType::Cell.flag(), 2);
    assert_eq!(xEntityType::Base.flag(), 4);
}

#[test]
fn crew_updates() {
    let mut crew = CrewModifiersCompactParams::default();
    let skills: Vec<ArgVal> = (0..6u8).map(|i| ArgVal::Array(vec![ArgVal::Uint8(i), ArgVal::Uint8(10 + i)])).collect();
    let args = vec![
        ("paramsId".to_string(), ArgVal::Uint32(4242)),
        ("learnedSkills".to_string(), ArgVal::Array(skills)),
    ];
    assert!(crew.update_from_args(&args).is_ok());
    assert_eq!(crew.params_id(), 4242);
    let s = crew.learned_skills();
    assert_eq!(s.aircraft_carrier(), &[0, 10]);
    assert_eq!(s.battleship(), &[1, 11]);
    assert_eq!(s.cruiser(), &[2, 12]);
    assert_eq!(s.destroyer(), &[3, 13]);
    assert_eq!(s.auxiliary(), &[4, 14]);
    assert_eq!(s.submarine(), &[5, 15]);

    let bad = vec![
        ("paramsId".to_string(), ArgVal::Uint32(1)),
        ("isInAdaption".to_string(), ArgVal::Int8(1)),
    ];
    assert!(crew.update_from_args(&bad).is_err());
    assert_eq!(crew.params_id(), 4242);
    let short = vec![("learnedSkills".to_string(), ArgVal::Array(vec![ArgVal::Array(vec![])]))];
    assert!(crew.update_from_args(&short).is_err());
}

#[test]
fn loadouts() {
    let empty = ShipLoadout::default();
    assert!(empty.config().is_none());
    assert!(empty.skills().is_none());
    let l = ShipLoadout::new(None, Some(Skills::empty()));
    assert_eq!(l.skills().unwrap().submarine(), &[] as &[u8]);
}

#[test]
fn kill_log_queries() {
    let mut log = KillLog::new();
    let d = |k: u32, v: u32| Death {
        timestamp: Duration::from_secs(40),
        killer: EntityId(k),
        victim: EntityId(v),
        cause: DeathCause::Artillery,
    };
    log.record(d(1, 2));
    log.record(d(3, 4));
    log.record(d(1, 5));
    assert!(log.has_died(EntityId(2)));
    assert!(!log.has_died(EntityId(1)));
    let kills: Vec<u32> = log.kills_by(EntityId(1)).iter().map(|x| x.victim.raw()).collect();
    assert_eq!(kills, vec![2, 5]);
    assert_eq!(log.death_of(EntityId(4)).unwrap().killer, EntityId(3));
    assert!(log.death_of(EntityId(9)).is_none());
}
