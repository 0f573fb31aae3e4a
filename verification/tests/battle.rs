use std::time::Duration;

use minimap_renderer::battle::{
    BattleError, BattlePacket, BattleState, Entity, MetaVehicle, ShipClass,
};
use minimap_renderer::controller::{BattleResult, ChatChannel, ConnectionChangeKind};
use minimap_renderer::players::{PickleVal, PlayerStateData};
use minimap_renderer::decoder::{Consumable, DeathCause, PackedMinimapUpdate, Ribbon};
use minimap_renderer::events::{DamageReceived, MethodEvent, MinimapUpdate, Vec3Bits};
use minimap_renderer::rpc::ArgVal;
use minimap_renderer::state::{NestLevel, UpdateAction};
use minimap_renderer::timeline::{GameClock, TimelineEvent};
use minimap_renderer::types::{AccountId, EntityId, GameParamId};
use minimap_renderer::version::GameVersion;

fn clock(secs: f32) -> GameClock {
    GameClock(secs.to_bits())
}

fn battle() -> BattleState {
    BattleState::new(
        GameVersion::new(13, 0, 0, 0),
        vec![
            MetaVehicle { id: AccountId(5), name: "alice".to_string(), relation: 0, ship_id: GameParamId(500) },
            MetaVehicle { id: AccountId(6), name: "bob".to_string(), relation: 2, ship_id: GameParamId(600) },
        ],
    )
}

fn at(b: &mut BattleState, secs: f32, p: BattlePacket) -> Result<(), BattleError> {
    b.process(clock(secs), Duration::from_secs_f32(secs), p)
}

fn origin() -> Vec3Bits {
    Vec3Bits { x: 0, y: 0, z: 0 }
}

#[test]
fn new_battle_is_empty() {
    let b = battle();
    assert!(b.timeline().is_empty());
    assert!(b.game_chat().is_empty());
    assert!(b.battle_results().is_none());
    assert!(b.ship_positions().is_empty());
    assert!(b.minimap_positions().is_empty());
    assert!(b.capture_points().is_empty());
    assert!(b.team_scores().is_empty());
    assert!(!b.match_finished);
}

#[test]
fn a_death_is_recorded_and_goes_to_the_timeline() {
    let mut b = battle();
    let p = BattlePacket::Method(MethodEvent::ShipDestroyed {
        victim: EntityId(10),
        killer: EntityId(11),
        cause: DeathCause::Artillery,
    });
    assert_eq!(at(&mut b, 30.0, p), Ok(()));
    assert!(b.kills.has_died(EntityId(10)));
    assert!(!b.kills.has_died(EntityId(11)));
    assert_eq!(b.kills.kills_by(EntityId(11)).len(), 1);
    assert_eq!(b.kills.death_of(EntityId(10)).unwrap().timestamp, Duration::from_secs(30));
    assert!(matches!(
        b.timeline().events()[0].event,
        TimelineEvent::ShipDestroyed { killer: 11, victim: 10, cause: DeathCause::Artillery }
    ));
}

#[test]
fn damage_is_recorded_per_aggressor() {
    let mut b = battle();
    let p = BattlePacket::Method(MethodEvent::DamageReceived {
        victim: EntityId(10),
        aggressors: vec![
            DamageReceived { aggressor: EntityId(1), damage: 100.0f32.to_bits() },
            DamageReceived { aggressor: EntityId(2), damage: 50.0f32.to_bits() },
        ],
    });
    assert_eq!(at(&mut b, 1.0, p), Ok(()));
    assert_eq!(b.damage_dealt.len(), 2);
    assert_eq!(b.damage_dealt[1].aggressor, EntityId(2));
    assert_eq!(b.damage_dealt[1].victim, EntityId(10));
    assert_eq!(f32::from_bits(b.damage_dealt[0].amount), 100.0);
    assert_eq!(b.timeline().len(), 2);
}

#[test]
fn the_last_minimap_update_of_an_entity_wins() {
    let mut b = battle();
    let up = |x: u16, gone: bool| MinimapUpdate {
        entity_id: EntityId(7),
        packed: PackedMinimapUpdate { x, y: 3, heading: 0, unknown: false, is_disappearing: gone },
    };
    let p = BattlePacket::Method(MethodEvent::MinimapUpdate { updates: vec![up(1, false), up(2, true)] });
    assert_eq!(at(&mut b, 2.0, p), Ok(()));
    let pos = b.minimap_positions().get(&7).unwrap();
    assert_eq!(pos.update.x, 2);
    assert!(!pos.visible);
    assert_eq!(pos.last_updated, clock(2.0));
    assert_eq!(b.timeline().len(), 2);
}

#[test]
fn battle_end_and_results_are_kept() {
    let mut b = battle();
    let p = BattlePacket::Method(MethodEvent::BattleEnd { winning_team: Some(1), state: None });
    assert_eq!(at(&mut b, 900.0, p), Ok(()));
    assert!(b.match_finished);
    assert_eq!(b.winning_team, Some(1));
    assert_eq!(at(&mut b, 901.0, BattlePacket::BattleResults("{}".to_string())), Ok(()));
    assert_eq!(b.battle_results().map(|s| s.as_str()), Some("{}"));
}

#[test]
fn chat_names_the_sender_from_the_metadata() {
    let mut b = battle();
    let chat = |sender: u64, audience: &str| {
        BattlePacket::Method(MethodEvent::Chat {
            entity_id: EntityId(3),
            sender_id: AccountId(sender),
            audience: audience.to_string(),
            message: "gl hf".to_string(),
            extra: None,
        })
    };
    assert_eq!(at(&mut b, 5.0, chat(6, "battle_team")), Ok(()));
    assert_eq!(at(&mut b, 6.0, chat(9, "battle_common")), Ok(()));
    assert_eq!(at(&mut b, 7.0, chat(0, "battle_common")), Ok(()));
    let log = b.game_chat();
    assert_eq!(log.len(), 2);
    assert_eq!(log[0].sender_name, "bob");
    assert_eq!(log[0].channel, ChatChannel::Team);
    assert_eq!(log[0].sender_relation.unwrap().value(), 2);
    assert_eq!(log[0].message, "gl hf");
    assert_eq!(log[1].sender_name, "Unknown");
    assert!(log[1].sender_relation.is_none());
    assert_eq!(b.timeline().len(), 2);
}

#[test]
fn chat_on_an_unknown_channel_is_refused() {
    let mut b = battle();
    let p = BattlePacket::Method(MethodEvent::Chat {
        entity_id: EntityId(3),
        sender_id: AccountId(5),
        audience: "battle_clan".to_string(),
        message: "x".to_string(),
        extra: None,
    });
    assert_eq!(at(&mut b, 5.0, p), Err(BattleError::UnknownChatChannel));
    assert!(b.game_chat().is_empty());
    assert!(b.timeline().is_empty());
}

#[test]
fn consumables_and_ribbons_go_to_the_timeline() {
    let mut b = battle();
    let p = BattlePacket::Method(MethodEvent::Consumable {
        entity: EntityId(4),
        consumable: Consumable::RepairParty,
        duration: 28.0f32.to_bits(),
    });
    assert_eq!(at(&mut b, 3.0, p), Ok(()));
    assert_eq!(b.consumables.len(), 1);
    assert_eq!(b.consumables[0].activated_at, clock(3.0));
    assert_eq!(at(&mut b, 3.0, BattlePacket::Method(MethodEvent::Ribbon(Ribbon::Citadel))), Ok(()));
    assert_eq!(b.timeline().len(), 2);
    assert_eq!(at(&mut b, 4.0, BattlePacket::Method(MethodEvent::CheckPing(1))), Ok(()));
    assert_eq!(b.timeline().len(), 2);
}

#[test]
fn positions_replace_the_last_one() {
    let mut b = battle();
    let pos = |x: u32| BattlePacket::Position {
        entity_id: EntityId(8),
        position: Vec3Bits { x, y: 0, z: 0 },
        yaw: 0,
        pitch: 0,
        roll: 0,
    };
    assert_eq!(at(&mut b, 1.0, pos(1)), Ok(()));
    assert_eq!(at(&mut b, 2.0, pos(2)), Ok(()));
    assert_eq!(b.ship_positions().len(), 1);
    assert_eq!(b.ship_positions().get(&8).unwrap().position.x, 2);
    assert_eq!(b.timeline().len(), 2);
}

#[test]
fn smoke_screens_come_and_go() {
    let mut b = battle();
    let create = BattlePacket::EntityCreate {
        entity_id: EntityId(20),
        entity_type: "SmokeScreen".to_string(),
        position: origin(),
        props: vec![("radius".to_string(), ArgVal::Float32(450.0f32.to_bits()))],
    };
    assert_eq!(at(&mut b, 1.0, create), Ok(()));
    match b.entities.get(&20) {
        Some(Entity::SmokeScreen(s)) => assert_eq!(f32::from_bits(s.radius), 450.0),
        _ => panic!("smoke screen not tracked"),
    }
    assert_eq!(at(&mut b, 2.0, BattlePacket::EntityLeave(EntityId(20))), Ok(()));
    assert!(b.entities.get(&20).is_none());
    assert_eq!(at(&mut b, 3.0, BattlePacket::EntityLeave(EntityId(20))), Ok(()));
    assert_eq!(b.timeline().len(), 2);
    assert!(matches!(b.timeline().events()[1].event, TimelineEvent::SmokeScreenDestroyed { entity_id: 20 }));
}

#[test]
fn buildings_are_tracked() {
    let mut b = battle();
    let create = BattlePacket::EntityCreate {
        entity_id: EntityId(21),
        entity_type: "Building".to_string(),
        position: origin(),
        props: vec![("teamId".to_string(), ArgVal::Int8(1)), ("isAlive".to_string(), ArgVal::Uint8(0))],
    };
    assert_eq!(at(&mut b, 1.0, create), Ok(()));
    match b.entities.get(&21) {
        Some(Entity::Building(x)) => {
            assert_eq!(x.team_id, 1);
            assert!(!x.is_alive);
        }
        _ => panic!("building not tracked"),
    }
    assert!(matches!(
        b.timeline().events()[0].event,
        TimelineEvent::BuildingStateChanged { entity_id: 21, is_alive: false, is_suppressed: false, team_id: 1 }
    ));
}

#[test]
fn vehicles_take_their_properties() {
    let mut b = battle();
    let create = BattlePacket::EntityCreate {
        entity_id: EntityId(30),
        entity_type: "Vehicle".to_string(),
        position: origin(),
        props: vec![("health".to_string(), ArgVal::Float32(1000.0f32.to_bits()))],
    };
    assert_eq!(at(&mut b, 1.0, create), Ok(()));
    let update = BattlePacket::EntityProperty {
        entity_id: EntityId(30),
        property: "health".to_string(),
        value: ArgVal::Float32(400.0f32.to_bits()),
    };
    assert_eq!(at(&mut b, 2.0, update), Ok(()));
    match b.entities.get(&30) {
        Some(Entity::Vehicle(v)) => {
            assert_eq!(f32::from_bits(v.props().health), 400.0);
            assert_eq!(v.id(), EntityId(30));
            assert_eq!(v.commander_id(), 0);
            assert!(v.captain.is_none());
        }
        _ => panic!("vehicle not tracked"),
    }
    let bad = BattlePacket::EntityProperty {
        entity_id: EntityId(30),
        property: "health".to_string(),
        value: ArgVal::Int8(1),
    };
    assert_eq!(at(&mut b, 3.0, bad), Err(BattleError::MalformedProperties));
    assert!(b.timeline().is_empty());
}

#[test]
fn unknown_entity_types_are_refused() {
    let mut b = battle();
    let create = BattlePacket::EntityCreate {
        entity_id: EntityId(40),
        entity_type: "Spaceship".to_string(),
        position: origin(),
        props: vec![],
    };
    assert_eq!(at(&mut b, 1.0, create), Err(BattleError::UnknownEntityType));
    assert!(b.entities.is_empty());
}

#[test]
fn battle_logic_state_updates_go_to_the_timeline() {
    let mut b = battle();
    let p = BattlePacket::PropertyUpdate {
        entity_id: EntityId(1),
        property: "state".to_string(),
        levels: vec![
            NestLevel::DictKey("missions".to_string()),
            NestLevel::DictKey("teamsScore".to_string()),
            NestLevel::ArrayIndex(1),
        ],
        action: UpdateAction::SetKey { key: "score".to_string(), value: ArgVal::Int32(250) },
    };
    assert_eq!(at(&mut b, 60.0, p), Ok(()));
    assert_eq!(b.team_scores().len(), 2);
    assert_eq!(b.team_scores()[1].score, 250);
    assert!(matches!(
        b.timeline().events()[0].event,
        TimelineEvent::TeamScoreUpdate { team_index: 1, score: 250 }
    ));
}

fn arena_player(name: &str, meta: u64, entity: u32, connected: bool) -> PlayerStateData {
    PlayerStateData {
        username: name.to_string(),
        clan: String::new(),
        clan_id: 0,
        clan_color: 0,
        db_id: AccountId(meta),
        realm: "eu".to_string(),
        avatar_id: AccountId(1),
        meta_ship_id: AccountId(meta),
        entity_id: EntityId(entity),
        team_id: 0,
        prebattle_id: 0,
        max_health: 1000,
        is_abuser: false,
        is_hidden: false,
        is_client_loaded: true,
        is_connected: connected,
        raw: vec![],
        raw_with_names: vec![],
    }
}

fn room_state(meta: i64, connected: bool) -> PickleVal {
    PickleVal::List(vec![
        PickleVal::Tuple(vec![PickleVal::I64(11), PickleVal::I64(meta)]),
        PickleVal::Tuple(vec![PickleVal::I64(17), PickleVal::Bool(connected)]),
    ])
}

#[test]
fn arena_players_come_from_the_metadata() {
    let mut b = battle();
    let p = BattlePacket::Method(MethodEvent::ArenaState {
        arena_id: 77,
        team_build_type_id: 0,
        players: vec![arena_player("alice", 5, 100, true), arena_player("bob", 6, 101, false)],
    });
    assert_eq!(at(&mut b, 0.0, p), Ok(()));
    assert_eq!(b.arena_id, 77);
    assert_eq!(b.players.len(), 2);
    assert_eq!(b.player_order, vec![100, 101]);
    let alice = b.players.get(&100).unwrap();
    assert_eq!(alice.initial_state().username, "alice");
    assert_eq!(alice.relation().value(), 0);
    assert_eq!(alice.vehicle(), GameParamId(500));
    assert_eq!(alice.connection_change_info().len(), 1);
    assert_eq!(alice.connection_change_info()[0].event_kind(), ConnectionChangeKind::Connected);
    assert!(!alice.connection_change_info()[0].had_death_event());
    let bob = b.players.get(&101).unwrap();
    assert!(bob.connection_change_info().is_empty());
    assert!(b.timeline().is_empty());
}

#[test]
fn an_arena_player_missing_from_the_metadata_is_refused() {
    let mut b = battle();
    let p = BattlePacket::Method(MethodEvent::ArenaState {
        arena_id: 1,
        team_build_type_id: 0,
        players: vec![arena_player("alice", 5, 100, true), arena_player("eve", 9, 102, true)],
    });
    assert_eq!(at(&mut b, 0.0, p), Err(BattleError::UnknownPlayer));
    assert_eq!(b.arena_id, 1);
    assert_eq!(b.players.len(), 1);
}

#[test]
fn game_room_states_record_connection_changes() {
    let mut b = battle();
    let p = BattlePacket::Method(MethodEvent::ArenaState { arena_id: 1, team_build_type_id: 0, players: vec![arena_player("alice", 5, 100, true)] });
    assert_eq!(at(&mut b, 0.0, p), Ok(()));
    let room = |connected: bool| BattlePacket::Method(MethodEvent::GameRoomState { player_states: vec![room_state(5, connected), room_state(9, false)] });
    assert_eq!(at(&mut b, 10.0, room(true)), Ok(()));
    assert_eq!(b.players.get(&100).unwrap().connection_change_info().len(), 1);
    assert_eq!(at(&mut b, 20.0, room(false)), Ok(()));
    let alice = b.players.get(&100).unwrap();
    assert!(!alice.end_state().is_connected);
    assert!(alice.initial_state().is_connected);
    assert_eq!(alice.connection_change_info().len(), 2);
    assert_eq!(alice.connection_change_info()[1].event_kind(), ConnectionChangeKind::Disconnected);
    assert_eq!(alice.connection_change_info()[1].at_game_duration(), Duration::from_secs(20));
}

#[test]
fn a_room_state_with_a_mistyped_id_is_refused() {
    let mut b = battle();
    let bad = PickleVal::List(vec![PickleVal::Tuple(vec![PickleVal::I64(11), PickleVal::Bool(true)])]);
    assert_eq!(at(&mut b, 1.0, BattlePacket::Method(MethodEvent::GameRoomState { player_states: vec![bad] })), Err(BattleError::MalformedPlayerState));
}

#[test]
fn commander_skills_follow_the_ship_class() {
    let mut b = battle();
    let skills: Vec<ArgVal> = (0..6u8).map(|i| ArgVal::Array(vec![ArgVal::Uint8(i), ArgVal::Uint8(10 + i)])).collect();
    let crew = ArgVal::FixedDict(vec![
        ("paramsId".to_string(), ArgVal::Uint32(4242)),
        ("learnedSkills".to_string(), ArgVal::Array(skills)),
    ]);
    let create = BattlePacket::EntityCreate {
        entity_id: EntityId(31),
        entity_type: "Vehicle".to_string(),
        position: origin(),
        props: vec![("crewModifiersCompactParams".to_string(), crew)],
    };
    assert_eq!(at(&mut b, 1.0, create), Ok(()));
    match b.entities.get(&31) {
        Some(Entity::Vehicle(v)) => {
            assert_eq!(v.captain, Some(4242));
            assert_eq!(v.commander_id(), 4242);
            assert_eq!(v.commander_skills_raw(ShipClass::AirCarrier), &[0, 10]);
            assert_eq!(v.commander_skills_raw(ShipClass::Destroyer), &[3, 13]);
            assert_eq!(v.commander_skills_raw(ShipClass::Submarine), &[5, 15]);
        }
        _ => panic!("vehicle not tracked"),
    }
}

#[test]
fn the_match_result_is_for_the_recording_player() {
    use_match_result();
}

fn use_match_result() {
    let mut b = battle();
    assert_eq!(b.match_result(), Err(BattleError::NoSelfPlayer));
    let mut alice = arena_player("alice", 5, 100, true);
    alice.team_id = 1;
    let p = BattlePacket::Method(MethodEvent::ArenaState { arena_id: 1, team_build_type_id: 0, players: vec![arena_player("bob", 6, 101, true), alice] });
    assert_eq!(at(&mut b, 0.0, p), Ok(()));
    assert_eq!(b.self_player(), Some(100));
    assert_eq!(b.match_result(), Ok(None));
    let end = BattlePacket::Method(MethodEvent::BattleEnd { winning_team: Some(1), state: None });
    assert_eq!(at(&mut b, 900.0, end), Ok(()));
    assert_eq!(b.match_result(), Ok(Some(BattleResult::Win(1))));
}

#[test]
fn a_loss_names_the_winning_team() {
    let mut b = battle();
    let mut alice = arena_player("alice", 5, 100, true);
    alice.team_id = 1;
    assert_eq!(at(&mut b, 0.0, BattlePacket::Method(MethodEvent::ArenaState { arena_id: 1, team_build_type_id: 0, players: vec![alice] })), Ok(()));
    let end = BattlePacket::Method(MethodEvent::BattleEnd { winning_team: Some(0), state: None });
    assert_eq!(at(&mut b, 900.0, end), Ok(()));
    assert_eq!(b.match_result(), Ok(Some(BattleResult::Loss(0))));
}

#[test]
fn connection_histories_alternate_and_only_grow() {
    let mut b = battle();
    let p = BattlePacket::Method(MethodEvent::ArenaState { arena_id: 1, team_build_type_id: 0, players: vec![arena_player("alice", 5, 100, true)] });
    assert_eq!(at(&mut b, 0.0, p), Ok(()));
    let room = |connected: bool| BattlePacket::Method(MethodEvent::GameRoomState { player_states: vec![room_state(5, connected)] });
    let mut seen: Vec<ConnectionChangeKind> = vec![ConnectionChangeKind::Connected];
    for (i, connected) in [true, false, false, true, true, false].iter().enumerate() {
        assert_eq!(at(&mut b, 10.0 * (i as f32 + 1.0), room(*connected)), Ok(()));
        let kinds: Vec<ConnectionChangeKind> = b.players.get(&100).unwrap().connection_change_info().iter().map(|c| c.event_kind()).collect();
        assert_eq!(&kinds[..seen.len()], &seen[..]);
        seen = kinds;
    }
    assert_eq!(
        seen,
        vec![
            ConnectionChangeKind::Connected,
            ConnectionChangeKind::Disconnected,
            ConnectionChangeKind::Connected,
            ConnectionChangeKind::Disconnected
        ]
    );
    let alice = b.players.get(&100).unwrap();
    assert!(alice.connection_change_info().iter().all(|c| !c.had_death_event()));
    assert_eq!(alice.end_state().raw_with_names().len(), 2);
}

#[test]
fn metadata_players_give_their_details() {
    let m = MetaVehicle { id: AccountId(6), name: "bob".to_string(), relation: 2, ship_id: GameParamId(600) };
    assert_eq!(m.name(), "bob");
    assert_eq!(m.relation().value(), 2);
    assert!(!m.relation().is_self());
    assert_eq!(m.vehicle(), GameParamId(600));
    assert_eq!(m.id(), AccountId(6));
}
