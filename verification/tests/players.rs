use minimap_renderer::players::decode_texts;
use minimap_renderer::players::{
    arena_player_states, decode_damage_stat, field_index_of, state_player_id, PickleVal,
    PlayerStateData, StatValue,
};
use minimap_renderer::types::{AccountId, EntityId};
use minimap_renderer::version::GameVersion;

fn current() -> GameVersion {
    GameVersion::new(13, 0, 0, 0)
}

fn pair(k: i64, v: PickleVal) -> PickleVal {
    PickleVal::Tuple(vec![PickleVal::I64(k), v])
}

fn s(x: &str) -> PickleVal {
    PickleVal::Str(x.to_string())
}

fn full_state() -> Vec<PickleVal> {
    vec![
        pair(0, PickleVal::I64(555)),      // accountDBID
        pair(1, PickleVal::Bool(false)),   // antiAbuseEnabled
        pair(2, PickleVal::I64(77)),       // avatarId
        pair(4, PickleVal::I64(0xff0000)), // clanColor
        pair(5, PickleVal::I64(9)),        // clanID
        pair(6, s("CLAN")),                // clanTag
        pair(11, PickleVal::I64(1234)),    // id
        pair(13, PickleVal::Bool(false)),  // isAbuser
        pair(16, PickleVal::Bool(true)),   // isClientLoaded
        pair(17, PickleVal::Bool(true)),   // isConnected
        pair(18, PickleVal::Bool(false)),  // isHidden
        pair(24, PickleVal::I64(50000)),   // maxHealth
        pair(25, s("captain")),            // name
        pair(29, PickleVal::I64(0)),       // prebattleId
        pair(30, s("EU")),                 // realm
        pair(33, PickleVal::I64(400)),     // shipId
        pair(34, PickleVal::I64(1)),       // shipParamsId
        pair(35, PickleVal::I64(2)),       // skinId
        pair(36, PickleVal::I64(1)),       // teamId
    ]
}

#[test]
fn field_numbering_depends_on_the_client() {
    assert_eq!(field_index_of(&current(), "name"), Some(25));
    assert_eq!(field_index_of(&current(), "ttkStatus"), Some(37));
    assert_eq!(field_index_of(&GameVersion::new(0, 11, 0, 0), "name"), Some(0x18));
    assert_eq!(field_index_of(&GameVersion::new(0, 10, 8, 0), "name"), Some(0x17));
    assert_eq!(field_index_of(&GameVersion::new(0, 10, 6, 0), "name"), Some(0x16));
    assert_eq!(field_index_of(&GameVersion::new(0, 10, 6, 0), "realm"), None);
}

#[test]
fn player_state_from_pickle() {
    let p = PlayerStateData::from_pickle(&PickleVal::List(full_state()), &current()).unwrap();
    assert_eq!(p.username, "captain");
    assert_eq!(p.clan, "CLAN");
    assert_eq!(p.realm, "EU");
    assert_eq!(p.avatar_id, AccountId(77));
    assert_eq!(p.meta_ship_id, AccountId(1234));
    assert_eq!(p.db_id, AccountId(555));
    assert_eq!(p.entity_id, EntityId(400));
    assert_eq!(p.team_id, 1);
    assert_eq!(p.max_health, 50000);
    assert!(p.is_connected && p.is_client_loaded && !p.is_hidden);

    // A later pair replaces an earlier one.
    let mut items = full_state();
    items.push(pair(25, s("renamed")));
    let p = PlayerStateData::from_pickle(&PickleVal::List(items), &current()).unwrap();
    assert_eq!(p.username, "renamed");

    // A missing or mistyped field, or an unusable pair, is rejected.
    let mut items = full_state();
    items.retain(|v| !matches!(v, PickleVal::Tuple(kv) if matches!(kv[0], PickleVal::I64(30))));
    assert!(PlayerStateData::from_pickle(&PickleVal::List(items), &current()).is_none());
    let mut items = full_state();
    items.push(pair(36, s("one")));
    assert!(PlayerStateData::from_pickle(&PickleVal::List(items), &current()).is_none());
    let mut items = full_state();
    items.push(PickleVal::Tuple(vec![s("key"), PickleVal::Nil]));
    assert!(PlayerStateData::from_pickle(&PickleVal::List(items), &current()).is_none());
    // Old clients do not send every field.
    assert!(PlayerStateData::from_pickle(&PickleVal::List(full_state()), &GameVersion::new(0, 10, 0, 0)).is_none());
}

#[test]
fn player_state_updates() {
    let mut p = PlayerStateData::from_pickle(&PickleVal::List(full_state()), &current()).unwrap();
    let update = PickleVal::List(vec![pair(17, PickleVal::Bool(false)), pair(11, PickleVal::I64(1234)), pair(36, s("x"))]);
    assert!(p.update_from_state(&update, &current()));
    assert!(!p.is_connected);
    assert_eq!(p.team_id, 1);
    assert_eq!(state_player_id(&update, &current()), Some(AccountId(1234)));
    let bad = PickleVal::List(vec![PickleVal::Tuple(vec![PickleVal::I64(17)])]);
    assert!(!p.update_from_state(&bad, &current()));
}

#[test]
fn arena_states_and_damage_stats() {
    let players = PickleVal::List(vec![PickleVal::List(full_state()), PickleVal::List(full_state())]);
    assert_eq!(arena_player_states(&players, &current()).unwrap().len(), 2);
    assert_eq!(arena_player_states(&PickleVal::Nil, &current()).unwrap().len(), 0);
    let bad = PickleVal::List(vec![PickleVal::List(vec![])]);
    assert!(arena_player_states(&bad, &current()).is_none());

    let key = |a, b| PickleVal::Tuple(vec![PickleVal::I64(a), PickleVal::I64(b)]);
    let stats = PickleVal::Dict(vec![
        (key(1, 0), PickleVal::List(vec![PickleVal::I64(3), PickleVal::F64(2.5f64.to_bits())])),
        (key(17, 2), PickleVal::List(vec![PickleVal::I64(1), PickleVal::I64(4)])),
    ]);
    let out = decode_damage_stat(&stats).unwrap();
    assert_eq!(out[0], ((1, 0), (3, StatValue::Float(2.5f64.to_bits()))));
    assert_eq!(out[1], ((17, 2), (1, StatValue::Int(4))));
    let bad = PickleVal::Dict(vec![(key(1, 0), PickleVal::List(vec![PickleVal::I64(3)]))]);
    assert!(decode_damage_stat(&bad).is_none());
    assert!(decode_damage_stat(&PickleVal::List(vec![])).is_none());
}

#[test]
fn byte_strings_holding_text_are_read_as_text() {
    let v = PickleVal::Dict(vec![(
        PickleVal::Bytes(b"name".to_vec()),
        PickleVal::List(vec![
            PickleVal::Bytes(b"caf\xc3\xa9".to_vec()),
            PickleVal::Bytes(vec![0xff, 0xfe]),
            PickleVal::Tuple(vec![PickleVal::I64(3), PickleVal::Bytes(b"x".to_vec())]),
        ]),
    )]);
    let expected = PickleVal::Dict(vec![(
        PickleVal::Str("name".to_string()),
        PickleVal::List(vec![
            PickleVal::Str("café".to_string()),
            PickleVal::Bytes(vec![0xff, 0xfe]),
            PickleVal::Tuple(vec![PickleVal::I64(3), PickleVal::Str("x".to_string())]),
        ]),
    )]);
    assert_eq!(decode_texts(v), expected);
    assert_eq!(decode_texts(PickleVal::I64(5)), PickleVal::I64(5));
}

#[test]
fn player_state_getters() {
    let p = PlayerStateData::from_pickle(&PickleVal::List(full_state()), &current()).unwrap();
    assert_eq!(p.username(), "captain");
    assert_eq!(p.clan(), "CLAN");
    assert_eq!(p.realm(), "EU");
    assert_eq!(p.clan_id(), 9);
    assert_eq!(p.clan_color(), 0xff0000);
    assert_eq!(p.db_id(), AccountId(555));
    assert_eq!(p.avatar_id(), AccountId(77));
    assert_eq!(p.meta_ship_id(), AccountId(1234));
    assert_eq!(p.entity_id(), EntityId(400));
    assert_eq!(p.team_id(), 1);
    assert_eq!(p.division_id(), 0);
    assert_eq!(p.max_health(), 50000);
    assert!(!p.is_abuser());
    assert!(!p.is_hidden());
    assert!(p.is_client_loaded());
    assert!(p.is_connected());
}

#[test]
fn the_pairs_of_a_state_are_kept_and_updates_added() {
    let mut items = full_state();
    items.push(pair(99, PickleVal::I64(7)));
    let mut p = PlayerStateData::from_pickle(&PickleVal::List(items), &current()).unwrap();
    let keys: Vec<i64> = p.raw().iter().map(|(k, _)| *k).collect();
    assert_eq!(keys, vec![0, 1, 2, 4, 5, 6, 11, 13, 16, 17, 18, 24, 25, 29, 30, 33, 34, 35, 36, 99]);
    assert_eq!(p.raw()[19].1, PickleVal::I64(7));
    let names: Vec<&str> = p.raw_with_names().iter().map(|(n, _)| n.as_str()).collect();
    assert_eq!(names.len(), 19);
    assert_eq!(names[0], "accountDBID");
    assert_eq!(names[12], "name");
    assert_eq!(p.raw_with_names()[12].1, PickleVal::Str("captain".to_string()));
    assert_eq!(names[18], "teamId");
    let update = PickleVal::List(vec![pair(36, PickleVal::I64(0)), pair(99, PickleVal::I64(5))]);
    assert!(p.update_from_state(&update, &current()));
    assert_eq!(p.raw().len(), 20);
    assert_eq!(p.raw_with_names().len(), 19);
    assert_eq!(p.raw_with_names()[18], ("teamId".to_string(), PickleVal::I64(0)));
    let once = p.clone();
    assert!(p.update_from_state(&update, &current()));
    assert_eq!(p.raw_with_names(), once.raw_with_names());
    assert_eq!(p.raw(), once.raw());
    let renamed = PickleVal::List(vec![pair(25, s("admiral")), pair(26, PickleVal::I64(3))]);
    assert!(p.update_from_state(&renamed, &current()));
    assert_eq!(p.raw_with_names().len(), 20);
    assert_eq!(p.raw_with_names()[12], ("name".to_string(), s("admiral")));
    assert_eq!(p.raw_with_names()[19], ("playerMode".to_string(), PickleVal::I64(3)));
    assert_eq!(p.team_id(), 0);
}
