use minimap_renderer::events::{decode_entity_method, DecodeError, MethodEvent};
use minimap_renderer::players::{PickleVal, StatValue};
use minimap_renderer::rpc::ArgVal;
use minimap_renderer::types::{AccountId, EntityId};
use minimap_renderer::version::GameVersion;

/// A small pickle value for building protocol-2 pickles.
enum P {
    Int(i32),
    Bool(bool),
    Float(f64),
    Text(&'static str),
    List(Vec<P>),
    Tuple(Vec<P>),
    Dict(Vec<(P, P)>),
}

fn encode(p: &P, out: &mut Vec<u8>) {
    match p {
        P::Int(i) => {
            out.push(b'J');
            out.extend_from_slice(&i.to_le_bytes());
        }
        P::Bool(b) => out.push(if *b { 0x88 } else { 0x89 }),
        P::Float(f) => {
            out.push(b'G');
            out.extend_from_slice(&f.to_be_bytes());
        }
        P::Text(t) => {
            out.push(b'X');
            out.extend_from_slice(&(t.len() as u32).to_le_bytes());
            out.extend_from_slice(t.as_bytes());
        }
        P::List(items) => {
            out.push(b']');
            out.push(b'(');
            for i in items {
                encode(i, out);
            }
            out.push(b'e');
        }
        P::Tuple(items) => {
            out.push(b'(');
            for i in items {
                encode(i, out);
            }
            out.push(b't');
        }
        P::Dict(entries) => {
            out.push(b'}');
            out.push(b'(');
            for (k, v) in entries {
                encode(k, out);
                encode(v, out);
            }
            out.push(b'u');
        }
    }
}

fn pickle(p: &P) -> Vec<u8> {
    let mut out = vec![0x80, 2];
    encode(p, &mut out);
    out.push(b'.');
    out
}

fn pair(k: i32, v: P) -> P {
    P::Tuple(vec![P::Int(k), v])
}

fn player(name: &'static str, meta: i32, ship: i32) -> P {
    P::List(vec![
        pair(0, P::Int(555)),
        pair(1, P::Bool(false)),
        pair(2, P::Int(77)),
        pair(4, P::Int(0)),
        pair(5, P::Int(9)),
        pair(6, P::Text("CLAN")),
        pair(11, P::Int(meta)),
        pair(13, P::Bool(false)),
        pair(16, P::Bool(true)),
        pair(17, P::Bool(true)),
        pair(18, P::Bool(false)),
        pair(24, P::Int(50000)),
        pair(25, P::Text(name)),
        pair(29, P::Int(0)),
        pair(30, P::Text("EU")),
        pair(33, P::Int(ship)),
        pair(34, P::Int(1)),
        pair(35, P::Int(2)),
        pair(36, P::Int(1)),
    ])
}

fn client() -> GameVersion {
    GameVersion::new(13, 0, 0, 0)
}

#[test]
fn arena_states_carry_the_players() {
    let args = vec![
        ArgVal::Int64(4242),
        ArgVal::Int8(3),
        ArgVal::Blob(pickle(&P::Dict(vec![]))),
        ArgVal::Blob(pickle(&P::List(vec![player("alice", 5, 100), player("bob", 6, 101)]))),
    ];
    match decode_entity_method(&client(), false, EntityId(1), "onArenaStateReceived", &args) {
        Ok(MethodEvent::ArenaState { arena_id, team_build_type_id, players }) => {
            assert_eq!(arena_id, 4242);
            assert_eq!(team_build_type_id, 3);
            assert_eq!(players.len(), 2);
            assert_eq!(players[0].username(), "alice");
            assert_eq!(players[1].meta_ship_id(), AccountId(6));
            assert_eq!(players[1].entity_id(), EntityId(101));
            assert_eq!(players[0].clan(), "CLAN");
        }
        other => panic!("unexpected {:?}", other),
    }
    let broken = vec![
        ArgVal::Int64(1),
        ArgVal::Int8(0),
        ArgVal::Blob(pickle(&P::Dict(vec![]))),
        ArgVal::Blob(pickle(&P::List(vec![P::List(vec![pair(25, P::Text("x"))])]))),
    ];
    assert!(matches!(
        decode_entity_method(&client(), false, EntityId(1), "onArenaStateReceived", &broken),
        Err(DecodeError::Malformed)
    ));
    let not_pickled = vec![ArgVal::Int64(1), ArgVal::Int8(0), ArgVal::Blob(vec![]), ArgVal::Blob(vec![1, 2])];
    assert!(matches!(
        decode_entity_method(&client(), false, EntityId(1), "onArenaStateReceived", &not_pickled),
        Err(DecodeError::Malformed)
    ));
}

#[test]
fn game_room_states_carry_each_players_state() {
    let states = P::List(vec![P::List(vec![pair(11, P::Int(5)), pair(17, P::Bool(false))])]);
    let args = vec![ArgVal::Blob(pickle(&states))];
    match decode_entity_method(&client(), false, EntityId(1), "onGameRoomStateChanged", &args) {
        Ok(MethodEvent::GameRoomState { player_states }) => {
            assert_eq!(player_states.len(), 1);
            assert_eq!(
                player_states[0],
                PickleVal::List(vec![
                    PickleVal::Tuple(vec![PickleVal::I64(11), PickleVal::I64(5)]),
                    PickleVal::Tuple(vec![PickleVal::I64(17), PickleVal::Bool(false)]),
                ])
            );
        }
        other => panic!("unexpected {:?}", other),
    }
}

#[test]
fn damage_statistics_are_read_entry_by_entry() {
    let stats = P::Dict(vec![(P::Tuple(vec![P::Int(1), P::Int(2)]), P::List(vec![P::Int(3), P::Float(4.5)]))]);
    let args = vec![ArgVal::Blob(pickle(&stats))];
    match decode_entity_method(&client(), false, EntityId(1), "receiveDamageStat", &args) {
        Ok(MethodEvent::DamageStat(entries)) => {
            assert_eq!(entries, vec![((1, 2), (3, StatValue::Float(4.5f64.to_bits())))]);
        }
        other => panic!("unexpected {:?}", other),
    }
    let bad = vec![ArgVal::Blob(pickle(&P::List(vec![])))];
    assert!(matches!(
        decode_entity_method(&client(), false, EntityId(1), "receiveDamageStat", &bad),
        Err(DecodeError::Malformed)
    ));
}

fn system_message(extra: &P) -> Vec<ArgVal> {
    vec![
        ArgVal::Int32(0),
        ArgVal::String(b"battle_common".to_vec()),
        ArgVal::String(b"hello".to_vec()),
        ArgVal::String(pickle(extra)),
    ]
}

fn extra_fields() -> Vec<(P, P)> {
    vec![
        (P::Text("preBattleSign"), P::Int(3)),
        (P::Text("prebattleId"), P::Int(41)),
        (P::Text("playerClanTag"), P::Text("CLAN")),
        (P::Text("type"), P::Int(2)),
        (P::Text("playerAvatarId"), P::Int(77)),
        (P::Text("playerName"), P::Text("captain")),
    ]
}

#[test]
fn system_chat_messages_carry_their_extra_data() {
    let args = system_message(&P::Dict(extra_fields()));
    match decode_entity_method(&client(), false, EntityId(2), "onChatMessage", &args) {
        Ok(MethodEvent::Chat { sender_id, extra: Some(x), .. }) => {
            assert_eq!(sender_id, AccountId(0));
            assert_eq!(x.pre_battle_sign, 3);
            assert_eq!(x.pre_battle_id, 41);
            assert_eq!(x.player_clan_tag, "CLAN");
            assert_eq!(x.typ, 2);
            assert_eq!(x.player_avatar_id, AccountId(77));
            assert_eq!(x.player_name, "captain");
        }
        other => panic!("unexpected {:?}", other),
    }
}

#[test]
fn extra_data_with_a_missing_or_unknown_field_is_refused() {
    let mut missing = extra_fields();
    missing.pop();
    let args = system_message(&P::Dict(missing));
    assert!(matches!(
        decode_entity_method(&client(), false, EntityId(2), "onChatMessage", &args),
        Err(DecodeError::Malformed)
    ));
    let mut more = extra_fields();
    more.push((P::Text("other"), P::Int(1)));
    let args = system_message(&P::Dict(more));
    assert!(matches!(
        decode_entity_method(&client(), false, EntityId(2), "onChatMessage", &args),
        Err(DecodeError::Malformed)
    ));
    let mut wrong = extra_fields();
    wrong[3] = (P::Text("type"), P::Text("two"));
    let args = system_message(&P::Dict(wrong));
    assert!(matches!(
        decode_entity_method(&client(), false, EntityId(2), "onChatMessage", &args),
        Err(DecodeError::Malformed)
    ));
}
