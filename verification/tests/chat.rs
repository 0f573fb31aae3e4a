use minimap_renderer::chat::{ChatLoggerBuilder, UsernameBook};
use minimap_renderer::players::PlayerStateData;
use minimap_renderer::types::{AccountId, EntityId};

fn player(name: &str, meta: u64) -> PlayerStateData {
    PlayerStateData {
        username: name.to_string(),
        clan: String::new(),
        clan_id: 0,
        clan_color: 0,
        db_id: AccountId(meta),
        realm: "eu".to_string(),
        avatar_id: AccountId(1),
        meta_ship_id: AccountId(meta),
        entity_id: EntityId(2),
        team_id: 0,
        prebattle_id: 0,
        max_health: 1000,
        is_abuser: false,
        is_hidden: false,
        is_client_loaded: true,
        is_connected: true,
        raw: vec![],
        raw_with_names: vec![],
    }
}

#[test]
fn chat_logger_builder_is_unit() {
    let _a = ChatLoggerBuilder::new();
    let _b: ChatLoggerBuilder = Default::default();
}

#[test]
fn unknown_sender_gets_placeholder_name() {
    let book = UsernameBook::new();
    assert_eq!(book.name_of(42), "<UNKNOWN_USERNAME>");
}

#[test]
fn recorded_players_are_named() {
    let mut book = UsernameBook::new();
    assert!(book.record_players(&vec![player("alice", 10), player("bob", 11)]));
    assert_eq!(book.name_of(10), "alice");
    assert_eq!(book.name_of(11), "bob");
    assert_eq!(book.name_of(12), "<UNKNOWN_USERNAME>");
}

#[test]
fn later_arena_state_replaces_a_name() {
    let mut book = UsernameBook::new();
    assert!(book.record_players(&vec![player("alice", 10)]));
    assert!(book.record_players(&vec![player("alice2", 10)]));
    assert_eq!(book.name_of(10), "alice2");
    assert_eq!(book.entries.len(), 2);
}

#[test]
fn oversized_account_id_is_refused() {
    let mut book = UsernameBook::new();
    assert!(book.record_players(&vec![player("alice", 10)]));
    assert!(!book.record_players(&vec![player("carol", 12), player("dave", 1u64 << 40)]));
    assert_eq!(book.entries.len(), 1);
    assert_eq!(book.name_of(12), "<UNKNOWN_USERNAME>");
}
