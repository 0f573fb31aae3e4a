//! Identifier types shared by the replay decoder and the renderer.
use vstd::prelude::*;

verus! {

/// Per-replay-session entity identifier for game objects (ships, buildings, smoke screens).
/// The wire format is u32 but some packet types use i32 or i64.
#[derive(Debug, Default, Clone, Copy, PartialEq, Eq, Structural, PartialOrd, Ord, Hash)]
pub struct EntityId(pub u32);

impl EntityId {
    pub fn raw(self) -> (r: u32)
        ensures
            r == self.0,
    {
        self.0
    }
}

impl From<u32> for EntityId {
    fn from(v: u32) -> (r: Self) {
        EntityId(v)
    }
}

impl vstd::std_specs::convert::FromSpecImpl<u32> for EntityId {
    open spec fn obeys_from_spec() -> bool {
        true
    }

    open spec fn from_spec(v: u32) -> Self {
        EntityId(v)
    }
}

impl From<i32> for EntityId {
    fn from(v: i32) -> (r: Self) {
        EntityId(v as u32)
    }
}

impl vstd::std_specs::convert::FromSpecImpl<i32> for EntityId {
    open spec fn obeys_from_spec() -> bool {
        true
    }

    open spec fn from_spec(v: i32) -> Self {
        EntityId(v as u32)
    }
}

impl From<i64> for EntityId {
    fn from(v: i64) -> (r: Self) {
        EntityId(v as u32)
    }
}

impl vstd::std_specs::convert::FromSpecImpl<i64> for EntityId {
    open spec fn obeys_from_spec() -> bool {
        true
    }

    open spec fn from_spec(v: i64) -> Self {
        EntityId(v as u32)
    }
}

/// A persistent player account identifier (db_id, avatar_id).
#[derive(Debug, Default, Clone, Copy, PartialEq, Eq, Structural, Hash)]
pub struct AccountId(pub u64);

impl AccountId {
    pub fn raw(self) -> (r: u64)
        ensures
            r == self.0,
    {
        self.0
    }
}

impl From<u32> for AccountId {
    fn from(v: u32) -> (r: Self) {
        AccountId(v as u64)
    }
}

impl vstd::std_specs::convert::FromSpecImpl<u32> for AccountId {
    open spec fn obeys_from_spec() -> bool {
        true
    }

    open spec fn from_spec(v: u32) -> Self {
        AccountId(v as u64)
    }
}

impl From<i32> for AccountId {
    fn from(v: i32) -> (r: Self) {
        AccountId(v as u64)
    }
}

impl vstd::std_specs::convert::FromSpecImpl<i32> for AccountId {
    open spec fn obeys_from_spec() -> bool {
        true
    }

    open spec fn from_spec(v: i32) -> Self {
        AccountId(v as u64)
    }
}

impl From<i64> for AccountId {
    fn from(v: i64) -> (r: Self) {
        AccountId(v as u64)
    }
}

impl vstd::std_specs::convert::FromSpecImpl<i64> for AccountId {
    open spec fn obeys_from_spec() -> bool {
        true
    }

    open spec fn from_spec(v: i64) -> Self {
        AccountId(v as u64)
    }
}

/// A game parameter type identifier from GameParams (ships, equipment, etc.).
#[derive(Debug, Default, Clone, Copy, PartialEq, Eq, Structural, Hash)]
pub struct GameParamId(pub u32);

impl GameParamId {
    pub fn raw(self) -> (r: u32)
        ensures
            r == self.0,
    {
        self.0
    }
}

impl From<u32> for GameParamId {
    fn from(v: u32) -> (r: Self) {
        GameParamId(v)
    }
}

impl vstd::std_specs::convert::FromSpecImpl<u32> for GameParamId {
    open spec fn obeys_from_spec() -> bool {
        true
    }

    open spec fn from_spec(v: u32) -> Self {
        GameParamId(v)
    }
}

impl From<u64> for GameParamId {
    fn from(v: u64) -> (r: Self) {
        GameParamId(v as u32)
    }
}

impl vstd::std_specs::convert::FromSpecImpl<u64> for GameParamId {
    open spec fn obeys_from_spec() -> bool {
        true
    }

    open spec fn from_spec(v: u64) -> Self {
        GameParamId(v as u32)
    }
}

impl From<i64> for GameParamId {
    fn from(v: i64) -> (r: Self) {
        GameParamId(v as u32)
    }
}

impl vstd::std_specs::convert::FromSpecImpl<i64> for GameParamId {
    open spec fn obeys_from_spec() -> bool {
        true
    }

    open spec fn from_spec(v: i64) -> Self {
        GameParamId(v as u32)
    }
}

/// Represents the relation of a player/entity to the recording player.
/// - 0 = self (the player who recorded the replay)
/// - 1 = teammate (ally)
/// - 2+ = enemy
#[derive(Debug, Clone, Copy, PartialEq, Eq, Structural, Hash)]
pub struct Relation(u32);

impl Relation {
    /// The raw relation value.
    pub closed spec fn spec_value(self) -> u32 {
        self.0
    }

    /// Creates a new Relation from a raw value.
    pub fn new(value: u32) -> (r: Self)
        ensures
            r.spec_value() == value,
    {
        Self(value)
    }

    /// Returns true if this is the recording player (relation == 0).
    pub fn is_self(&self) -> (r: bool)
        ensures
            r == (self.spec_value() == 0),
    {
        self.0 == 0
    }

    /// Returns true if this player is a teammate (relation == 1).
    pub fn is_ally(&self) -> (r: bool)
        ensures
            r == (self.spec_value() == 1),
    {
        self.0 == 1
    }

    /// Returns true if this player is an enemy (relation >= 2).
    pub fn is_enemy(&self) -> (r: bool)
        ensures
            r == (self.spec_value() >= 2),
    {
        self.0 >= 2
    }

    /// Returns the raw relation value.
    pub fn value(&self) -> (r: u32)
        ensures
            r == self.spec_value(),
    {
        self.0
    }
}

impl From<u32> for Relation {
    fn from(value: u32) -> (r: Self)
        ensures
            r.spec_value() == value,
    {
        Self(value)
    }
}

impl vstd::std_specs::convert::FromSpecImpl<u32> for Relation {
    open spec fn obeys_from_spec() -> bool {
        true
    }

    closed spec fn from_spec(value: u32) -> Self {
        Relation(value)
    }
}

/// Every relation is exactly one of: the recording player, an ally, an enemy.
pub proof fn lemma_relation_is_exactly_one_kind(r: Relation)
    ensures
        (r.spec_value() == 0) || (r.spec_value() == 1) || (r.spec_value() >= 2),
        !((r.spec_value() == 0) && (r.spec_value() == 1)),
        !((r.spec_value() == 0) && (r.spec_value() >= 2)),
        !((r.spec_value() == 1) && (r.spec_value() >= 2)),
{
}

/// Packed minimap squadron identifier.
/// Encodes `(avatar_id: u32, index: u3, purpose: u3, departures: u1)` in the low 39 bits.
#[derive(Debug, Default, Clone, Copy, PartialEq, Eq, Structural, PartialOrd, Ord, Hash)]
pub struct PlaneId(pub u64);

/// The owner's entity id packed in the low 32 bits of a plane id.
pub open spec fn plane_owner(raw: u64) -> u32 {
    (raw % 0x1_0000_0000) as u32
}

impl PlaneId {
    /// Extracts the owner's entity ID (avatar_id) from the low 32 bits.
    pub fn owner_id(self) -> (r: EntityId)
        ensures
            r.0 == plane_owner(self.0),
    {
        let raw = self.0;
        assert((raw & 0xFFFF_FFFF) == raw % 0x1_0000_0000) by (bit_vector);
        EntityId((raw & 0xFFFF_FFFF) as u32)
    }

    pub fn raw(self) -> (r: u64)
        ensures
            r == self.0,
    {
        self.0
    }
}

impl From<u64> for PlaneId {
    fn from(v: u64) -> (r: Self) {
        PlaneId(v)
    }
}

impl vstd::std_specs::convert::FromSpecImpl<u64> for PlaneId {
    open spec fn obeys_from_spec() -> bool {
        true
    }

    open spec fn from_spec(v: u64) -> Self {
        PlaneId(v)
    }
}

impl From<i64> for PlaneId {
    fn from(v: i64) -> (r: Self) {
        PlaneId(v as u64)
    }
}

impl vstd::std_specs::convert::FromSpecImpl<i64> for PlaneId {
    open spec fn obeys_from_spec() -> bool {
        true
    }

    open spec fn from_spec(v: i64) -> Self {
        PlaneId(v as u64)
    }
}

/// The owner of a plane id differs from the raw id only by whole multiples of
/// 2^32: the packed squadron fields sit above the owner's 32 bits.
pub proof fn lemma_plane_owner_is_low_word(raw: u64)
    ensures
        plane_owner(raw) <= u32::MAX,
        (raw - plane_owner(raw)) % 0x1_0000_0000 == 0,
        raw < 0x1_0000_0000 ==> plane_owner(raw) == raw,
{
}

} // verus!
