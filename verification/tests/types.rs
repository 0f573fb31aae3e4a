use minimap_renderer::types::{AccountId, EntityId, GameParamId, PlaneId, Relation};
use minimap_renderer::version::GameVersion;

#[test]
fn ids_convert_from_wider_integers_by_wrapping() {
    assert_eq!(EntityId::from(7u32).raw(), 7);
    assert_eq!(EntityId::from(-1i32).raw(), u32::MAX);
    assert_eq!(EntityId::from(0x1_0000_0005i64).raw(), 5);
    assert_eq!(AccountId::from(-1i32).raw(), u64::MAX);
    assert_eq!(AccountId::from(42u32).raw(), 42);
    assert_eq!(AccountId::from(-2i64).raw(), u64::MAX - 1);
    assert_eq!(GameParamId::from(0x1_0000_0009u64).raw(), 9);
    assert_eq!(GameParamId::from(-1i64).raw(), u32::MAX);
    assert_eq!(PlaneId::from(-1i64).raw(), u64::MAX);
}

#[test]
fn relation_is_exactly_one_kind() {
    let me = Relation::new(0);
    let ally = Relation::from(1u32);
    let enemy = Relation::new(2);
    let other_enemy = Relation::new(7);
    assert!(me.is_self() && !me.is_ally() && !me.is_enemy());
    assert!(!ally.is_self() && ally.is_ally() && !ally.is_enemy());
    assert!(!enemy.is_self() && !enemy.is_ally() && enemy.is_enemy());
    assert!(other_enemy.is_enemy());
    assert_eq!(other_enemy.value(), 7);
}

#[test]
fn plane_owner_is_the_low_word() {
    let plane = PlaneId((5u64 << 32) | 0xABCD);
    assert_eq!(plane.owner_id(), EntityId(0xABCD));
    assert_eq!(PlaneId(77).owner_id().raw(), 77);
    assert_eq!(PlaneId(u64::MAX).owner_id().raw(), u32::MAX);
}

#[test]
fn client_versions_parse_and_compare() {
    let v = GameVersion::from_client_exe("0,12,8,0").unwrap();
    assert_eq!(v, GameVersion::new(0, 12, 8, 0));
    let w = GameVersion::from_client_exe("13,2,0,8123456").unwrap();
    assert_eq!(w.major, 13);
    assert_eq!(w.build, 8123456);
    assert!(w.is_at_least(&v));
    assert!(!v.is_at_least(&w));
    assert!(v.is_at_least(&v));
    assert!(GameVersion::new(0, 12, 8, 1).is_at_least(&GameVersion::new(0, 12, 8, 9)));
    assert!(GameVersion::from_client_exe("0,12,8").is_none());
    assert!(GameVersion::from_client_exe("a,b,c,d").is_none());
}
