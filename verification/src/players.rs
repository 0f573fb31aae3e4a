//! Player state as the game sends it: pickled lists of `(field index,
//! value)` pairs whose field numbering depends on the client version.
use vstd::prelude::*;
use crate::rpc::{str_eq, string_from_utf8};
use vstd::utf8::{decode_utf8, valid_utf8};
use crate::types::{AccountId, EntityId};
use crate::version::{at_least, GameVersion};
use pickled::{HashableValue, Value};

verus! {

/// A decoded pickle value. Floats are bit patterns.
#[derive(Debug, PartialEq)]
pub enum PickleVal {
    Nil,
    Bool(bool),
    I64(i64),
    F64(u64),
    Bytes(Vec<u8>),
    Str(String),
    List(Vec<PickleVal>),
    Tuple(Vec<PickleVal>),
    Dict(Vec<(PickleVal, PickleVal)>),
    /// Any other kind of value.
    Other,
}

// ---------------------------------------------------------------------------
// Field numbering
// ---------------------------------------------------------------------------

pub open spec fn field_index_current(name: Seq<char>) -> Option<i64> {
    if name == "accountDBID"@ {
        Some(0)
    } else if name == "antiAbuseEnabled"@ {
        Some(1)
    } else if name == "avatarId"@ {
        Some(2)
    } else if name == "camouflageInfo"@ {
        Some(3)
    } else if name == "clanColor"@ {
        Some(4)
    } else if name == "clanID"@ {
        Some(5)
    } else if name == "clanTag"@ {
        Some(6)
    } else if name == "crewParams"@ {
        Some(7)
    } else if name == "dogTag"@ {
        Some(8)
    } else if name == "fragsCount"@ {
        Some(9)
    } else if name == "friendlyFireEnabled"@ {
        Some(10)
    } else if name == "id"@ {
        Some(11)
    } else if name == "invitationsEnabled"@ {
        Some(12)
    } else if name == "isAbuser"@ {
        Some(13)
    } else if name == "isAlive"@ {
        Some(14)
    } else if name == "isBot"@ {
        Some(15)
    } else if name == "isClientLoaded"@ {
        Some(16)
    } else if name == "isConnected"@ {
        Some(17)
    } else if name == "isHidden"@ {
        Some(18)
    } else if name == "isLeaver"@ {
        Some(19)
    } else if name == "isPreBattleOwner"@ {
        Some(20)
    } else if name == "isTShooter"@ {
        Some(21)
    } else if name == "keyTargetMarkers"@ {
        Some(22)
    } else if name == "killedBuildingsCount"@ {
        Some(23)
    } else if name == "maxHealth"@ {
        Some(24)
    } else if name == "name"@ {
        Some(25)
    } else if name == "playerMode"@ {
        Some(26)
    } else if name == "preBattleIdOnStart"@ {
        Some(27)
    } else if name == "preBattleSign"@ {
        Some(28)
    } else if name == "prebattleId"@ {
        Some(29)
    } else if name == "realm"@ {
        Some(30)
    } else if name == "shipComponents"@ {
        Some(31)
    } else if name == "shipConfigDump"@ {
        Some(32)
    } else if name == "shipId"@ {
        Some(33)
    } else if name == "shipParamsId"@ {
        Some(34)
    } else if name == "skinId"@ {
        Some(35)
    } else if name == "teamId"@ {
        Some(36)
    } else if name == "ttkStatus"@ {
        Some(37)
    } else {
        None
    }
}

fn field_index_current_of(name: &str) -> (r: Option<i64>)
    ensures
        r == field_index_current(name@),
{
    if str_eq(name, "accountDBID") {
        Some(0)
    } else if str_eq(name, "antiAbuseEnabled") {
        Some(1)
    } else if str_eq(name, "avatarId") {
        Some(2)
    } else if str_eq(name, "camouflageInfo") {
        Some(3)
    } else if str_eq(name, "clanColor") {
        Some(4)
    } else if str_eq(name, "clanID") {
        Some(5)
    } else if str_eq(name, "clanTag") {
        Some(6)
    } else if str_eq(name, "crewParams") {
        Some(7)
    } else if str_eq(name, "dogTag") {
        Some(8)
    } else if str_eq(name, "fragsCount") {
        Some(9)
    } else if str_eq(name, "friendlyFireEnabled") {
        Some(10)
    } else if str_eq(name, "id") {
        Some(11)
    } else if str_eq(name, "invitationsEnabled") {
        Some(12)
    } else if str_eq(name, "isAbuser") {
        Some(13)
    } else if str_eq(name, "isAlive") {
        Some(14)
    } else if str_eq(name, "isBot") {
        Some(15)
    } else if str_eq(name, "isClientLoaded") {
        Some(16)
    } else if str_eq(name, "isConnected") {
        Some(17)
    } else if str_eq(name, "isHidden") {
        Some(18)
    } else if str_eq(name, "isLeaver") {
        Some(19)
    } else if str_eq(name, "isPreBattleOwner") {
        Some(20)
    } else if str_eq(name, "isTShooter") {
        Some(21)
    } else if str_eq(name, "keyTargetMarkers") {
        Some(22)
    } else if str_eq(name, "killedBuildingsCount") {
        Some(23)
    } else if str_eq(name, "maxHealth") {
        Some(24)
    } else if str_eq(name, "name") {
        Some(25)
    } else if str_eq(name, "playerMode") {
        Some(26)
    } else if str_eq(name, "preBattleIdOnStart") {
        Some(27)
    } else if str_eq(name, "preBattleSign") {
        Some(28)
    } else if str_eq(name, "prebattleId") {
        Some(29)
    } else if str_eq(name, "realm") {
        Some(30)
    } else if str_eq(name, "shipComponents") {
        Some(31)
    } else if str_eq(name, "shipConfigDump") {
        Some(32)
    } else if str_eq(name, "shipId") {
        Some(33)
    } else if str_eq(name, "shipParamsId") {
        Some(34)
    } else if str_eq(name, "skinId") {
        Some(35)
    } else if str_eq(name, "teamId") {
        Some(36)
    } else if str_eq(name, "ttkStatus") {
        Some(37)
    } else {
        None
    }
}

pub open spec fn field_index_v0_10_9(name: Seq<char>) -> Option<i64> {
    if name == "avatarId"@ {
        Some(2)
    } else if name == "clanTag"@ {
        Some(6)
    } else if name == "maxHealth"@ {
        Some(23)
    } else if name == "name"@ {
        Some(24)
    } else if name == "shipId"@ {
        Some(32)
    } else if name == "shipParamsId"@ {
        Some(33)
    } else if name == "skinId"@ {
        Some(34)
    } else if name == "teamId"@ {
        Some(35)
    } else {
        None
    }
}

fn field_index_v0_10_9_of(name: &str) -> (r: Option<i64>)
    ensures
        r == field_index_v0_10_9(name@),
{
    if str_eq(name, "avatarId") {
        Some(2)
    } else if str_eq(name, "clanTag") {
        Some(6)
    } else if str_eq(name, "maxHealth") {
        Some(23)
    } else if str_eq(name, "name") {
        Some(24)
    } else if str_eq(name, "shipId") {
        Some(32)
    } else if str_eq(name, "shipParamsId") {
        Some(33)
    } else if str_eq(name, "skinId") {
        Some(34)
    } else if str_eq(name, "teamId") {
        Some(35)
    } else {
        None
    }
}

pub open spec fn field_index_v0_10_7(name: Seq<char>) -> Option<i64> {
    if name == "avatarId"@ {
        Some(1)
    } else if name == "clanTag"@ {
        Some(5)
    } else if name == "maxHealth"@ {
        Some(22)
    } else if name == "name"@ {
        Some(23)
    } else if name == "shipId"@ {
        Some(30)
    } else if name == "shipParamsId"@ {
        Some(31)
    } else if name == "skinId"@ {
        Some(32)
    } else if name == "teamId"@ {
        Some(33)
    } else {
        None
    }
}

fn field_index_v0_10_7_of(name: &str) -> (r: Option<i64>)
    ensures
        r == field_index_v0_10_7(name@),
{
    if str_eq(name, "avatarId") {
        Some(1)
    } else if str_eq(name, "clanTag") {
        Some(5)
    } else if str_eq(name, "maxHealth") {
        Some(22)
    } else if str_eq(name, "name") {
        Some(23)
    } else if str_eq(name, "shipId") {
        Some(30)
    } else if str_eq(name, "shipParamsId") {
        Some(31)
    } else if str_eq(name, "skinId") {
        Some(32)
    } else if str_eq(name, "teamId") {
        Some(33)
    } else {
        None
    }
}

pub open spec fn field_index_early(name: Seq<char>) -> Option<i64> {
    if name == "avatarId"@ {
        Some(1)
    } else if name == "clanTag"@ {
        Some(5)
    } else if name == "maxHealth"@ {
        Some(21)
    } else if name == "name"@ {
        Some(22)
    } else if name == "shipId"@ {
        Some(29)
    } else if name == "shipParamsId"@ {
        Some(30)
    } else if name == "skinId"@ {
        Some(31)
    } else if name == "teamId"@ {
        Some(32)
    } else {
        None
    }
}

fn field_index_early_of(name: &str) -> (r: Option<i64>)
    ensures
        r == field_index_early(name@),
{
    if str_eq(name, "avatarId") {
        Some(1)
    } else if str_eq(name, "clanTag") {
        Some(5)
    } else if str_eq(name, "maxHealth") {
        Some(21)
    } else if str_eq(name, "name") {
        Some(22)
    } else if str_eq(name, "shipId") {
        Some(29)
    } else if str_eq(name, "shipParamsId") {
        Some(30)
    } else if str_eq(name, "skinId") {
        Some(31)
    } else if str_eq(name, "teamId") {
        Some(32)
    } else {
        None
    }
}

pub open spec fn release(major: u32, minor: u32, patch: u32) -> GameVersion {
    GameVersion { major, minor, patch, build: 0 }
}

/// The index under which a client of `version` sends the player field
/// `name`: the full alphabetical numbering from 0.12.8 on, and a few known
/// fields for 0.10.9, 0.10.7 and earlier clients.
#[verifier::opaque]
pub open spec fn field_index(version: GameVersion, name: Seq<char>) -> Option<i64> {
    if at_least(version, release(0, 12, 8)) {
        field_index_current(name)
    } else if at_least(version, release(0, 10, 9)) {
        field_index_v0_10_9(name)
    } else if at_least(version, release(0, 10, 7)) {
        field_index_v0_10_7(name)
    } else {
        field_index_early(name)
    }
}

pub fn field_index_of(version: &GameVersion, name: &str) -> (r: Option<i64>)
    ensures
        r == field_index(*version, name@),
{
    reveal(field_index);
    if version.is_at_least(&GameVersion::new(0, 12, 8, 0)) {
        field_index_current_of(name)
    } else if version.is_at_least(&GameVersion::new(0, 10, 9, 0)) {
        field_index_v0_10_9_of(name)
    } else if version.is_at_least(&GameVersion::new(0, 10, 7, 0)) {
        field_index_v0_10_7_of(name)
    } else {
        field_index_early_of(name)
    }
}

// ---------------------------------------------------------------------------
// Flat dictionaries
// ---------------------------------------------------------------------------

/// A list item is a usable `(key, value)` pair, or not a pair at all (then
/// it is skipped); a pair must have an integer key and a value.
pub open spec fn flat_entry_ok(e: PickleVal) -> bool {
    match e {
        PickleVal::Tuple(kv) => kv@.len() >= 2 && kv@[0] is I64,
        _ => true,
    }
}

/// A flat dictionary all of whose pairs are usable.
pub open spec fn flat_well_formed(v: PickleVal) -> bool {
    match v {
        PickleVal::List(items) => flat_items_ok(items@),
        _ => true,
    }
}

pub open spec fn flat_items_ok(items: Seq<PickleVal>) -> bool {
    forall|k: int| 0 <= k < items.len() ==> #[trigger] flat_entry_ok(items[k])
}

/// The value of the last pair with `key` (a later pair replaces an earlier one).
pub open spec fn flat_lookup(items: Seq<PickleVal>, key: i64) -> Option<PickleVal>
    decreases items.len(),
{
    if items.len() == 0 {
        None
    } else {
        match items.last() {
            PickleVal::Tuple(kv) => if kv@.len() >= 2 && kv@[0] == PickleVal::I64(key) {
                Some(kv@[1])
            } else {
                flat_lookup(items.drop_last(), key)
            },
            _ => flat_lookup(items.drop_last(), key),
        }
    }
}

/// The value under `key` of a flat dictionary (a list of pairs); nothing for
/// any other value.
pub open spec fn flat_value(v: PickleVal, key: i64) -> Option<PickleVal> {
    match v {
        PickleVal::List(items) => flat_lookup(items@, key),
        _ => None,
    }
}

fn is_flat_well_formed(v: &PickleVal) -> (r: bool)
    ensures
        r == flat_well_formed(*v),
{
    let items = match v {
        PickleVal::List(items) => items,
        _ => {
            return true;
        },
    };
    let mut k: usize = 0;
    while k < items.len()
        invariant
            k <= items@.len(),
            *v == PickleVal::List(*items),
            forall|j: int| 0 <= j < k ==> #[trigger] flat_entry_ok(items@[j]),
        decreases items@.len() - k,
    {
        let ok = match &items[k] {
            PickleVal::Tuple(kv) => kv.len() >= 2 && match &kv[0] {
                PickleVal::I64(_) => true,
                _ => false,
            },
            _ => true,
        };
        if !ok {
            assert(!flat_entry_ok(items@[k as int]));
            assert(!flat_items_ok(items@));
            return false;
        }
        k += 1;
    }
    true
}

fn flat_get(v: &PickleVal, key: i64) -> (r: Option<&PickleVal>)
    ensures
        match flat_value(*v, key) {
            Some(x) => r == Some(&x),
            None => r is None,
        },
{
    let items = match v {
        PickleVal::List(items) => items,
        _ => {
            return None;
        },
    };
    let mut k: usize = items.len();
    assert(items@.subrange(0, k as int) =~= items@);
    while k > 0
        invariant
            k <= items@.len(),
            *v == PickleVal::List(*items),
            flat_lookup(items@, key) == flat_lookup(items@.subrange(0, k as int), key),
        decreases k,
    {
        proof {
            assert(items@.subrange(0, k as int).drop_last() =~= items@.subrange(0, k - 1));
            assert(items@.subrange(0, k as int).last() == items@[k - 1]);
        }
        match &items[k - 1] {
            PickleVal::Tuple(kv) => {
                if kv.len() >= 2 {
                    if let PickleVal::I64(x) = &kv[0] {
                        if *x == key {
                            return Some(&kv[1]);
                        }
                    }
                }
            },
            _ => {},
        }
        k -= 1;
    }
    proof {
        assert(items@.subrange(0, 0) =~= Seq::<PickleVal>::empty());
    }
    None
}

/// The value of the player field `name` in a pickled player state.
pub open spec fn field_value(v: PickleVal, version: GameVersion, name: Seq<char>) -> Option<PickleVal> {
    match field_index(version, name) {
        Some(i) => flat_value(v, i),
        None => None,
    }
}

pub(crate) fn field_of<'a>(v: &'a PickleVal, version: &GameVersion, name: &str) -> (r: Option<&'a PickleVal>)
    ensures
        match field_value(*v, *version, name@) {
            Some(x) => r == Some(&x),
            None => r is None,
        },
{
    match field_index_of(version, name) {
        Some(i) => flat_get(v, i),
        None => None,
    }
}

pub open spec fn i64_field(v: PickleVal, version: GameVersion, name: Seq<char>) -> Option<i64> {
    match field_value(v, version, name) {
        Some(PickleVal::I64(x)) => Some(x),
        _ => None,
    }
}

pub open spec fn str_field(v: PickleVal, version: GameVersion, name: Seq<char>) -> Option<Seq<char>> {
    match field_value(v, version, name) {
        Some(PickleVal::Str(s)) => Some(s@),
        _ => None,
    }
}

pub open spec fn bool_field(v: PickleVal, version: GameVersion, name: Seq<char>) -> Option<bool> {
    match field_value(v, version, name) {
        Some(PickleVal::Bool(b)) => Some(b),
        _ => None,
    }
}

fn get_i64_field(v: &PickleVal, version: &GameVersion, name: &str) -> (r: Option<i64>)
    ensures
        r == i64_field(*v, *version, name@),
{
    match field_of(v, version, name) {
        Some(PickleVal::I64(x)) => Some(*x),
        _ => None,
    }
}

fn get_str_field(v: &PickleVal, version: &GameVersion, name: &str) -> (r: Option<String>)
    ensures
        match str_field(*v, *version, name@) {
            Some(s) => r matches Some(x) && x@ == s,
            None => r is None,
        },
{
    match field_of(v, version, name) {
        Some(PickleVal::Str(s)) => Some(s.clone()),
        _ => None,
    }
}

fn get_bool_field(v: &PickleVal, version: &GameVersion, name: &str) -> (r: Option<bool>)
    ensures
        r == bool_field(*v, *version, name@),
{
    match field_of(v, version, name) {
        Some(PickleVal::Bool(b)) => Some(*b),
        _ => None,
    }
}

// ---------------------------------------------------------------------------
// Player state
// ---------------------------------------------------------------------------

#[derive(Debug)]
pub struct PlayerStateData {
    /// The username of this player
    pub username: String,
    /// The player's clan
    pub clan: String,
    /// The player's clan DB id
    pub clan_id: i64,
    /// The color of the player's clan tag as an RGB integer
    pub clan_color: i64,
    /// The player's DB ID (unique player ID)
    pub db_id: AccountId,
    /// The realm this player belongs to
    pub realm: String,
    /// Their avatar ID in the game
    pub avatar_id: AccountId,
    /// Their meta ID in the game (account-level identifier)
    pub meta_ship_id: AccountId,
    /// This player's entity created by a CreateEntity packet
    pub entity_id: EntityId,
    /// Which team they're on.
    pub team_id: i64,
    /// Division ID
    pub prebattle_id: i64,
    /// Their starting health
    pub max_health: i64,
    pub is_abuser: bool,
    /// Has hidden stats
    pub is_hidden: bool,
    /// Has the client loaded into the game
    pub is_client_loaded: bool,
    /// Is the client connected into the game
    pub is_connected: bool,
    /// Every `(field index, value)` pair of the state the player was read
    /// from, in order.
    pub raw: Vec<(i64, PickleVal)>,
    /// The values of the fields by name (see `named_map`): those of the first
    /// state whose index names a field for the version, each later update
    /// replacing the value of a name it carries and adding the names it
    /// brings; no name occurs twice (see `names_distinct`).
    pub raw_with_names: Vec<(String, PickleVal)>,
}

/// A player's state after a well-formed pickled state update `v`: every
/// field present with the expected kind takes the sent value; the others
/// stay.
pub open spec fn player_state_updated(old: PlayerStateData, new: PlayerStateData, v: PickleVal, version: GameVersion) -> bool {
    &&& new.avatar_id == match i64_field(v, version, "avatarId"@) {
        Some(x) => AccountId(x as u64),
        None => old.avatar_id,
    }
    &&& new.username@ == match str_field(v, version, "name"@) {
        Some(x) => x,
        None => old.username@,
    }
    &&& new.clan@ == match str_field(v, version, "clanTag"@) {
        Some(x) => x,
        None => old.clan@,
    }
    &&& new.clan_id == match i64_field(v, version, "clanID"@) {
        Some(x) => x,
        None => old.clan_id,
    }
    &&& new.clan_color == match i64_field(v, version, "clanColor"@) {
        Some(x) => x,
        None => old.clan_color,
    }
    &&& new.entity_id == match i64_field(v, version, "shipId"@) {
        Some(x) => EntityId(x as u32),
        None => old.entity_id,
    }
    &&& new.meta_ship_id == match i64_field(v, version, "id"@) {
        Some(x) => AccountId(x as u64),
        None => old.meta_ship_id,
    }
    &&& new.team_id == match i64_field(v, version, "teamId"@) {
        Some(x) => x,
        None => old.team_id,
    }
    &&& new.max_health == match i64_field(v, version, "maxHealth"@) {
        Some(x) => x,
        None => old.max_health,
    }
    &&& new.realm@ == match str_field(v, version, "realm"@) {
        Some(x) => x,
        None => old.realm@,
    }
    &&& new.db_id == match i64_field(v, version, "accountDBID"@) {
        Some(x) => AccountId(x as u64),
        None => old.db_id,
    }
    &&& new.prebattle_id == match i64_field(v, version, "prebattleId"@) {
        Some(x) => x,
        None => old.prebattle_id,
    }
    &&& new.is_abuser == match bool_field(v, version, "isAbuser"@) {
        Some(x) => x,
        None => old.is_abuser,
    }
    &&& new.is_hidden == match bool_field(v, version, "isHidden"@) {
        Some(x) => x,
        None => old.is_hidden,
    }
    &&& new.is_connected == match bool_field(v, version, "isConnected"@) {
        Some(x) => x,
        None => old.is_connected,
    }
    &&& new.is_client_loaded == match bool_field(
        v,
        version,
        "isClientLoaded"@,
    ) {
        Some(x) => x,
        None => old.is_client_loaded,
    }
}

impl PlayerStateData {
    pub fn username(&self) -> (r: &str)
        ensures
            r@ == self.username@,
    {
        self.username.as_str()
    }

    pub fn clan(&self) -> (r: &str)
        ensures
            r@ == self.clan@,
    {
        self.clan.as_str()
    }

    pub fn clan_id(&self) -> (r: i64)
        ensures
            r == self.clan_id,
    {
        self.clan_id
    }

    pub fn clan_color(&self) -> (r: i64)
        ensures
            r == self.clan_color,
    {
        self.clan_color
    }

    pub fn db_id(&self) -> (r: AccountId)
        ensures
            r == self.db_id,
    {
        self.db_id
    }

    pub fn realm(&self) -> (r: &str)
        ensures
            r@ == self.realm@,
    {
        self.realm.as_str()
    }

    pub fn avatar_id(&self) -> (r: AccountId)
        ensures
            r == self.avatar_id,
    {
        self.avatar_id
    }

    pub fn meta_ship_id(&self) -> (r: AccountId)
        ensures
            r == self.meta_ship_id,
    {
        self.meta_ship_id
    }

    pub fn entity_id(&self) -> (r: EntityId)
        ensures
            r == self.entity_id,
    {
        self.entity_id
    }

    pub fn team_id(&self) -> (r: i64)
        ensures
            r == self.team_id,
    {
        self.team_id
    }

    /// The division (pre-battle group) id.
    pub fn division_id(&self) -> (r: i64)
        ensures
            r == self.prebattle_id,
    {
        self.prebattle_id
    }

    pub fn max_health(&self) -> (r: i64)
        ensures
            r == self.max_health,
    {
        self.max_health
    }

    pub fn is_abuser(&self) -> (r: bool)
        ensures
            r == self.is_abuser,
    {
        self.is_abuser
    }

    pub fn is_hidden(&self) -> (r: bool)
        ensures
            r == self.is_hidden,
    {
        self.is_hidden
    }

    pub fn is_client_loaded(&self) -> (r: bool)
        ensures
            r == self.is_client_loaded,
    {
        self.is_client_loaded
    }

    pub fn is_connected(&self) -> (r: bool)
        ensures
            r == self.is_connected,
    {
        self.is_connected
    }

    /// The `(field index, value)` pairs of the state the player was read from.
    pub fn raw(&self) -> (r: &[(i64, PickleVal)])
        ensures
            r@ == self.raw@,
    {
        self.raw.as_slice()
    }

    /// The pairs of the first state and of every later update that name a
    /// field, under the field's name; a later pair for a name replaces an
    /// earlier one.
    pub fn raw_with_names(&self) -> (r: &[(String, PickleVal)])
        ensures
            r@ == self.raw_with_names@,
    {
        self.raw_with_names.as_slice()
    }
}

impl Clone for PlayerStateData {
    fn clone(&self) -> (r: Self)
        ensures
            state_same(*self, r),
    {
        PlayerStateData {
            username: self.username.clone(),
            clan: self.clan.clone(),
            clan_id: self.clan_id,
            clan_color: self.clan_color,
            db_id: self.db_id,
            realm: self.realm.clone(),
            avatar_id: self.avatar_id,
            meta_ship_id: self.meta_ship_id,
            entity_id: self.entity_id,
            team_id: self.team_id,
            prebattle_id: self.prebattle_id,
            max_health: self.max_health,
            is_abuser: self.is_abuser,
            is_hidden: self.is_hidden,
            is_client_loaded: self.is_client_loaded,
            is_connected: self.is_connected,
            raw: copy_raw(&self.raw),
            raw_with_names: copy_named(&self.raw_with_names),
        }
    }
}

/// A pickled player state holds every field that a player needs, each of
/// its kind.
pub open spec fn player_state_ok(v: PickleVal, version: GameVersion) -> bool {
    &&& flat_well_formed(v)
    &&& i64_field(v, version, "avatarId"@) is Some
    &&& str_field(v, version, "name"@) is Some
    &&& str_field(v, version, "clanTag"@) is Some
    &&& i64_field(v, version, "clanID"@) is Some
    &&& i64_field(v, version, "shipId"@) is Some
    &&& i64_field(v, version, "id"@) is Some
    &&& i64_field(v, version, "shipParamsId"@) is Some
    &&& i64_field(v, version, "skinId"@) is Some
    &&& i64_field(v, version, "teamId"@) is Some
    &&& i64_field(v, version, "maxHealth"@) is Some
    &&& str_field(v, version, "realm"@) is Some
    &&& i64_field(v, version, "accountDBID"@) is Some
    &&& i64_field(v, version, "prebattleId"@) is Some
    &&& bool_field(v, version, "antiAbuseEnabled"@) is Some
    &&& bool_field(v, version, "isAbuser"@) is Some
    &&& bool_field(v, version, "isHidden"@) is Some
    &&& bool_field(v, version, "isConnected"@) is Some
    &&& bool_field(v, version, "isClientLoaded"@) is Some
    &&& i64_field(v, version, "clanColor"@) is Some
}

/// The player state read from a well-formed pickled state.
pub open spec fn player_state_matches(p: PlayerStateData, v: PickleVal, version: GameVersion) -> bool {
    &&& p.username@ == str_field(v, version, "name"@)->0
    &&& p.clan@ == str_field(v, version, "clanTag"@)->0
    &&& p.clan_id == i64_field(v, version, "clanID"@)->0
    &&& p.clan_color == i64_field(v, version, "clanColor"@)->0
    &&& p.realm@ == str_field(v, version, "realm"@)->0
    &&& p.db_id == AccountId(i64_field(v, version, "accountDBID"@)->0 as u64)
    &&& p.avatar_id == AccountId(i64_field(v, version, "avatarId"@)->0 as u64)
    &&& p.meta_ship_id == AccountId(i64_field(v, version, "id"@)->0 as u64)
    &&& p.entity_id == EntityId(i64_field(v, version, "shipId"@)->0 as u32)
    &&& p.team_id == i64_field(v, version, "teamId"@)->0
    &&& p.max_health == i64_field(v, version, "maxHealth"@)->0
    &&& p.prebattle_id == i64_field(v, version, "prebattleId"@)->0
    &&& p.is_abuser == bool_field(v, version, "isAbuser"@)->0
    &&& p.is_hidden == bool_field(v, version, "isHidden"@)->0
    &&& p.is_connected == bool_field(v, version, "isConnected"@)->0
    &&& p.is_client_loaded == bool_field(v, version, "isClientLoaded"@)->0
}

impl PlayerStateData {
    /// Reads a player's state from its pickled form (a list of
    /// `(field index, value)` pairs); `None` when a field is missing or of
    /// another kind, or a pair is unusable.
    pub fn from_pickle(value: &PickleVal, version: &GameVersion) -> (r: Option<PlayerStateData>)
        ensures
            r is Some <==> player_state_ok(*value, *version),
            r matches Some(p) ==> player_state_matches(p, *value, *version),
            r matches Some(p) ==> raw_of(*value, p.raw@) && names_distinct(p.raw_with_names@) && exists|u: Seq<
                (String, PickleVal),
            >| #[trigger] named_match(*version, p.raw@, u) && named_map(p.raw_with_names@) == named_map(u),
    {
        if !is_flat_well_formed(value) {
            return None;
        }
        let avatar = get_i64_field(value, version, "avatarId");
        let username = get_str_field(value, version, "name");
        let clan = get_str_field(value, version, "clanTag");
        let clan_id = get_i64_field(value, version, "clanID");
        let ship_id = get_i64_field(value, version, "shipId");
        let meta_ship_id = get_i64_field(value, version, "id");
        let params_id = get_i64_field(value, version, "shipParamsId");
        let skin_id = get_i64_field(value, version, "skinId");
        let team = get_i64_field(value, version, "teamId");
        let health = get_i64_field(value, version, "maxHealth");
        let realm = get_str_field(value, version, "realm");
        let db_id = get_i64_field(value, version, "accountDBID");
        let prebattle_id = get_i64_field(value, version, "prebattleId");
        let anti_abuse = get_bool_field(value, version, "antiAbuseEnabled");
        let is_abuser = get_bool_field(value, version, "isAbuser");
        let is_hidden = get_bool_field(value, version, "isHidden");
        let is_connected = get_bool_field(value, version, "isConnected");
        let is_client_loaded = get_bool_field(value, version, "isClientLoaded");
        let clan_color = get_i64_field(value, version, "clanColor");
        let raw = raw_pairs(value);
        let mut named: Vec<(String, PickleVal)> = Vec::new();
        let ghost start = named@;
        let Ghost(u) = insert_named_pairs(version, &mut named, &raw);
        proof {
            assert(named_map(start) =~= Map::empty());
            assert(named_map(named@) =~= named_map(u));
            assert(names_distinct(start));
        }
        match (avatar, username, clan, clan_id, ship_id, meta_ship_id, params_id, skin_id) {
            (Some(avatar), Some(username), Some(clan), Some(clan_id), Some(ship_id), Some(meta_ship_id), Some(_), Some(_)) => {
                match (team, health, realm, db_id, prebattle_id, anti_abuse, is_abuser, is_hidden) {
                    (Some(team), Some(health), Some(realm), Some(db_id), Some(prebattle_id), Some(_), Some(is_abuser), Some(is_hidden)) => {
                        match (is_connected, is_client_loaded, clan_color) {
                            (Some(is_connected), Some(is_client_loaded), Some(clan_color)) => Some(
                                PlayerStateData {
                                    username,
                                    clan,
                                    clan_id,
                                    clan_color,
                                    db_id: AccountId(db_id as u64),
                                    realm,
                                    avatar_id: AccountId(avatar as u64),
                                    meta_ship_id: AccountId(meta_ship_id as u64),
                                    entity_id: EntityId(ship_id as u32),
                                    team_id: team,
                                    prebattle_id,
                                    max_health: health,
                                    is_abuser,
                                    is_hidden,
                                    is_client_loaded,
                                    is_connected,
                                    raw: raw,
                                    raw_with_names: named,
                                },
                            ),
                            _ => None,
                        }
                    },
                    _ => None,
                }
            },
            _ => None,
        }
    }

    /// Applies a pickled state update: every field present with the expected
    /// kind replaces the current value; the others stay. An update with an
    /// unusable pair is rejected and changes nothing.
    pub fn update_from_state(&mut self, value: &PickleVal, version: &GameVersion) -> (ok: bool)
        ensures
            ok == flat_well_formed(*value),
            !ok ==> *final(self) == *old(self),
            ok ==> player_state_updated(*old(self), *final(self), *value, *version),
            ok ==> pairs_updated(*old(self), *final(self), *value, *version),
            ok && names_distinct(old(self).raw_with_names@) ==> names_distinct(final(self).raw_with_names@),
    {
        if !is_flat_well_formed(value) {
            return false;
        }
        let pairs = raw_pairs(value);
        let Ghost(u) = insert_named_pairs(version, &mut self.raw_with_names, &pairs);
        self.avatar_id = pick_account(self.avatar_id, value, version, "avatarId");
        pick_string(&mut self.username, value, version, "name");
        pick_string(&mut self.clan, value, version, "clanTag");
        self.clan_id = pick_i64(self.clan_id, value, version, "clanID");
        self.clan_color = pick_i64(self.clan_color, value, version, "clanColor");
        self.entity_id = match get_i64_field(value, version, "shipId") {
            Some(x) => EntityId(x as u32),
            None => self.entity_id,
        };
        self.meta_ship_id = pick_account(self.meta_ship_id, value, version, "id");
        self.team_id = pick_i64(self.team_id, value, version, "teamId");
        self.max_health = pick_i64(self.max_health, value, version, "maxHealth");
        pick_string(&mut self.realm, value, version, "realm");
        self.db_id = pick_account(self.db_id, value, version, "accountDBID");
        self.prebattle_id = pick_i64(self.prebattle_id, value, version, "prebattleId");
        self.is_abuser = pick_bool(self.is_abuser, value, version, "isAbuser");
        self.is_hidden = pick_bool(self.is_hidden, value, version, "isHidden");
        self.is_connected = pick_bool(self.is_connected, value, version, "isConnected");
        self.is_client_loaded = pick_bool(self.is_client_loaded, value, version, "isClientLoaded");
        true
    }
}

fn pick_i64(cur: i64, value: &PickleVal, version: &GameVersion, name: &str) -> (r: i64)
    ensures
        r == match i64_field(*value, *version, name@) {
            Some(x) => x,
            None => cur,
        },
{
    match get_i64_field(value, version, name) {
        Some(x) => x,
        None => cur,
    }
}

fn pick_account(cur: AccountId, value: &PickleVal, version: &GameVersion, name: &str) -> (r: AccountId)
    ensures
        r == match i64_field(*value, *version, name@) {
            Some(x) => AccountId(x as u64),
            None => cur,
        },
{
    match get_i64_field(value, version, name) {
        Some(x) => AccountId(x as u64),
        None => cur,
    }
}

fn pick_bool(cur: bool, value: &PickleVal, version: &GameVersion, name: &str) -> (r: bool)
    ensures
        r == match bool_field(*value, *version, name@) {
            Some(x) => x,
            None => cur,
        },
{
    match get_bool_field(value, version, name) {
        Some(x) => x,
        None => cur,
    }
}

fn pick_string(cur: &mut String, value: &PickleVal, version: &GameVersion, name: &str)
    ensures
        final(cur)@ == match str_field(*value, *version, name@) {
            Some(x) => x,
            None => old(cur)@,
        },
{
    if let Some(x) = get_str_field(value, version, name) {
        *cur = x;
    }
}

/// The meta ship id that a pickled game room state names its player by.
pub fn state_player_id(value: &PickleVal, version: &GameVersion) -> (r: Option<AccountId>)
    ensures
        r == match i64_field(*value, *version, "id"@) {
            Some(x) => Some(AccountId(x as u64)),
            None => None,
        },
{
    match get_i64_field(value, version, "id") {
        Some(x) => Some(AccountId(x as u64)),
        None => None,
    }
}

/// The player states of an arena state: each item of a list is a player's
/// pickled state; a value that is not a list holds none.
pub open spec fn arena_players_ok(v: PickleVal, version: GameVersion) -> bool {
    match v {
        PickleVal::List(items) => all_players_ok(items@, version),
        _ => true,
    }
}

pub open spec fn all_players_ok(items: Seq<PickleVal>, version: GameVersion) -> bool {
    forall|k: int| 0 <= k < items.len() ==> #[trigger] player_state_ok(items[k], version)
}

/// Reads the player states of an arena state, in order; `None` when one of
/// them is malformed.
pub fn arena_player_states(value: &PickleVal, version: &GameVersion) -> (r: Option<Vec<PlayerStateData>>)
    ensures
        r is Some <==> arena_players_ok(*value, *version),
        r matches Some(ps) ==> arena_players_match(*value, ps@, *version),
{
    let items = match value {
        PickleVal::List(items) => items,
        _ => {
            return Some(Vec::new());
        },
    };
    let mut out: Vec<PlayerStateData> = Vec::new();
    let mut k: usize = 0;
    while k < items.len()
        invariant
            k <= items@.len(),
            *value == PickleVal::List(*items),
            out@.len() == k,
            forall|j: int| 0 <= j < k ==> #[trigger] player_state_ok(items@[j], *version),
            forall|j: int|
                0 <= j < k ==> player_state_matches(#[trigger] out@[j], items@[j], *version),
        decreases items@.len() - k,
    {
        match PlayerStateData::from_pickle(&items[k], version) {
            Some(p) => out.push(p),
            None => {
                assert(!all_players_ok(items@, *version));
                return None;
            },
        }
        k += 1;
    }
    Some(out)
}

/// A damage statistic value: a float, or an integer where the game sends one.
#[derive(Debug, Clone, Copy, PartialEq, Eq, Structural)]
pub enum StatValue {
    /// Bit pattern of an `f64`.
    Float(u64),
    Int(i64),
}

/// One entry of a damage statistics dictionary: a key `(i64, i64)` and a
/// value `[i64, float or integer]`.
pub open spec fn damage_stat_entry(k: PickleVal, v: PickleVal) -> Option<((i64, i64), (i64, StatValue))> {
    match (k, v) {
        (PickleVal::Tuple(kt), PickleVal::List(vl)) => if kt@.len() == 2 && vl@.len() == 2 {
            match (kt@[0], kt@[1], vl@[0], vl@[1]) {
                (PickleVal::I64(a), PickleVal::I64(b), PickleVal::I64(c), PickleVal::F64(d)) => Some(
                    ((a, b), (c, StatValue::Float(d))),
                ),
                (PickleVal::I64(a), PickleVal::I64(b), PickleVal::I64(c), PickleVal::I64(d)) => Some(
                    ((a, b), (c, StatValue::Int(d))),
                ),
                _ => None,
            }
        } else {
            None
        },
        _ => None,
    }
}

fn damage_stat_entry_of(k: &PickleVal, v: &PickleVal) -> (r: Option<((i64, i64), (i64, StatValue))>)
    ensures
        r == damage_stat_entry(*k, *v),
{
    match (k, v) {
        (PickleVal::Tuple(kt), PickleVal::List(vl)) => if kt.len() == 2 && vl.len() == 2 {
            match (&kt[0], &kt[1], &vl[0], &vl[1]) {
                (PickleVal::I64(a), PickleVal::I64(b), PickleVal::I64(c), PickleVal::F64(d)) => Some(
                    ((*a, *b), (*c, StatValue::Float(*d))),
                ),
                (PickleVal::I64(a), PickleVal::I64(b), PickleVal::I64(c), PickleVal::I64(d)) => Some(
                    ((*a, *b), (*c, StatValue::Int(*d))),
                ),
                _ => None,
            }
        } else {
            None
        },
        _ => None,
    }
}

/// Reads a `receiveDamageStat` dictionary, entry by entry in its order;
/// `None` when it is not a dictionary or an entry is malformed.
pub fn decode_damage_stat(value: &PickleVal) -> (r: Option<Vec<((i64, i64), (i64, StatValue))>>)
    ensures
        match *value {
            PickleVal::Dict(entries) => match r {
                Some(out) => out@.len() == entries@.len() && forall|k: int|
                    0 <= k < out@.len() ==> damage_stat_entry(entries@[k].0, entries@[k].1) == Some(
                        #[trigger] out@[k],
                    ),
                None => exists|k: int|
                    0 <= k < entries@.len() && #[trigger] damage_stat_entry(
                        entries@[k].0,
                        entries@[k].1,
                    ) is None,
            },
            _ => r is None,
        },
{
    let entries = match value {
        PickleVal::Dict(entries) => entries,
        _ => {
            return None;
        },
    };
    let mut out: Vec<((i64, i64), (i64, StatValue))> = Vec::new();
    let mut k: usize = 0;
    while k < entries.len()
        invariant
            k <= entries@.len(),
            *value == PickleVal::Dict(*entries),
            out@.len() == k,
            forall|j: int|
                0 <= j < k ==> damage_stat_entry(entries@[j].0, entries@[j].1) == Some(
                    #[trigger] out@[j],
                ),
        decreases entries@.len() - k,
    {
        match damage_stat_entry_of(&entries[k].0, &entries[k].1) {
            Some(e) => out.push(e),
            None => {
                assert(damage_stat_entry(entries@[k as int].0, entries@[k as int].1) is None);
                return None;
            },
        }
        k += 1;
    }
    Some(out)
}

/// A value whose byte strings that hold UTF-8 text became text: byte
/// strings, also inside lists, tuples and dictionaries (keys and values),
/// that are valid UTF-8 are read as strings; everything else stays.
pub open spec fn texts_decoded(old: PickleVal, new: PickleVal) -> bool
    decreases old,
{
    match old {
        PickleVal::Bytes(b) => if valid_utf8(b@) {
            new matches PickleVal::Str(s) && s@ == decode_utf8(b@)
        } else {
            new == old
        },
        PickleVal::List(items) => new matches PickleVal::List(out) && out@.len() == items@.len() && forall|i: int|
            0 <= i < items@.len() ==> texts_decoded(#[trigger] items@[i], out@[i]),
        PickleVal::Tuple(items) => new matches PickleVal::Tuple(out) && out@.len() == items@.len() && forall|i: int|
            0 <= i < items@.len() ==> texts_decoded(#[trigger] items@[i], out@[i]),
        PickleVal::Dict(pairs) => new matches PickleVal::Dict(out) && out@.len() == pairs@.len() && forall|i: int|
            0 <= i < pairs@.len() ==> texts_decoded((#[trigger] pairs@[i]).0, out@[i].0) && texts_decoded(
                pairs@[i].1,
                out@[i].1,
            ),
        _ => new == old,
    }
}

/// Reads as text the byte strings of a value that hold UTF-8 text, also
/// inside lists, tuples and dictionaries.
pub fn decode_texts(v: PickleVal) -> (r: PickleVal)
    ensures
        texts_decoded(v, r),
    decreases v,
{
    match v {
        PickleVal::Bytes(b) => match string_from_utf8(b.as_slice()) {
            Some(s) => PickleVal::Str(s),
            None => PickleVal::Bytes(b),
        },
        PickleVal::List(items) => PickleVal::List(decode_items(items)),
        PickleVal::Tuple(items) => PickleVal::Tuple(decode_items(items)),
        PickleVal::Dict(pairs) => PickleVal::Dict(decode_pairs(pairs)),
        other => other,
    }
}

/// The items of a list, in reverse order.
fn reversed<T>(items: Vec<T>) -> (r: Vec<T>)
    ensures
        r@.len() == items@.len(),
        forall|j: int| 0 <= j < r@.len() ==> #[trigger] r@[j] == items@[items@.len() - 1 - j],
{
    let ghost orig = items@;
    let mut items = items;
    let mut rev: Vec<T> = Vec::new();
    while items.len() > 0
        invariant
            rev@.len() + items@.len() == orig.len(),
            items@ == orig.take(items@.len() as int),
            forall|j: int| 0 <= j < rev@.len() ==> #[trigger] rev@[j] == orig[orig.len() - 1 - j],
        decreases items@.len(),
    {
        match items.pop() {
            Some(x) => {
                rev.push(x);
            },
            None => {},
        }
    }
    rev
}

fn decode_items(items: Vec<PickleVal>) -> (r: Vec<PickleVal>)
    ensures
        r@.len() == items@.len(),
        forall|i: int| 0 <= i < items@.len() ==> texts_decoded(#[trigger] items@[i], r@[i]),
    decreases items,
{
    let ghost orig = items@;
    let ghost whole = items;
    let n = items.len();
    let mut rev = reversed(items);
    let mut out: Vec<PickleVal> = Vec::new();
    while rev.len() > 0
        invariant
            orig.len() == n,
            whole == items,
            whole@ == orig,
            out@.len() + rev@.len() == n,
            forall|j: int| 0 <= j < rev@.len() ==> #[trigger] rev@[j] == orig[n - 1 - j],
            forall|i: int| 0 <= i < out@.len() ==> texts_decoded(#[trigger] orig[i], out@[i]),
        decreases rev@.len(),
    {
        let ghost k = out@.len();
        match rev.pop() {
            Some(x) => {
                assert(x == orig[k as int]);
                assert(decreases_to!(whole => whole@));
                assert(decreases_to!(whole@ => whole@[k as int]));
                let y = decode_texts(x);
                out.push(y);
            },
            None => {},
        }
    }
    out
}

fn decode_pairs(pairs: Vec<(PickleVal, PickleVal)>) -> (r: Vec<(PickleVal, PickleVal)>)
    ensures
        r@.len() == pairs@.len(),
        forall|i: int|
            0 <= i < pairs@.len() ==> texts_decoded((#[trigger] pairs@[i]).0, r@[i].0) && texts_decoded(
                pairs@[i].1,
                r@[i].1,
            ),
    decreases pairs,
{
    let ghost orig = pairs@;
    let ghost whole = pairs;
    let n = pairs.len();
    let mut rev = reversed(pairs);
    let mut out: Vec<(PickleVal, PickleVal)> = Vec::new();
    while rev.len() > 0
        invariant
            orig.len() == n,
            whole == pairs,
            whole@ == orig,
            out@.len() + rev@.len() == n,
            forall|j: int| 0 <= j < rev@.len() ==> #[trigger] rev@[j] == orig[n - 1 - j],
            forall|i: int|
                0 <= i < out@.len() ==> texts_decoded((#[trigger] orig[i]).0, out@[i].0) && texts_decoded(
                    orig[i].1,
                    out@[i].1,
                ),
        decreases rev@.len(),
    {
        let ghost k = out@.len();
        match rev.pop() {
            Some(x) => {
                assert(x == orig[k as int]);
                assert(decreases_to!(whole => whole@));
                assert(decreases_to!(whole@ => whole@[k as int]));
                assert(decreases_to!(whole@[k as int] => whole@[k as int].0));
                assert(decreases_to!(whole@[k as int] => whole@[k as int].1));
                let (a, b) = x;
                let ka = decode_texts(a);
                let kb = decode_texts(b);
                out.push((ka, kb));
            },
            None => {},
        }
    }
    out
}
/// A value as the pickled crate holds it.
#[verifier::external_type_specification]
#[verifier::external_body]
pub struct ExPickledValue(Value);

/// A pickled key as the pickled crate holds it.
#[verifier::external_type_specification]
#[verifier::external_body]
pub struct ExPickledKey(HashableValue);

/// What the pickled crate reads from a pickle blob, as a plain value (floats
/// as bit patterns, sets as lists, integers beyond `i64` as `Other`);
/// `None` where it refuses the blob.
pub uninterp spec fn unpickled(blob: Seq<u8>) -> Option<PickleVal>;

/// Calls `pickled::value_from_slice` with the default options and takes the
/// value it reads as a plain value; the result is what `unpickled` names
/// for the blob.
#[verifier::external_body]
pub(crate) fn unpickle(blob: &[u8]) -> (r: Option<PickleVal>)
    ensures
        r == unpickled(blob@),
{
    match pickled::value_from_slice(blob, pickled::DeOptions::new()) {
        Ok(v) => Some(plain_value(&v)),
        Err(_) => None,
    }
}

/// A value of the pickled crate as a plain value: the plain kinds here, the
/// containers through `plain_container`.
#[verifier::external_body]
fn plain_value(v: &Value) -> PickleVal {
    match v {
        Value::None => PickleVal::Nil,
        Value::Bool(b) => PickleVal::Bool(*b),
        Value::I64(i) => PickleVal::I64(*i),
        Value::F64(f) => PickleVal::F64(f.to_bits()),
        Value::Bytes(b) => PickleVal::Bytes(b.inner().to_vec()),
        Value::String(t) => PickleVal::Str(t.inner().clone()),
        _ => plain_container(v),
    }
}

/// A list, tuple or dictionary of the pickled crate as a plain value, item
/// by item; sets through `plain_set`.
#[verifier::external_body]
fn plain_container(v: &Value) -> PickleVal {
    match v {
        Value::List(l) => PickleVal::List(plain_items(&l.inner())),
        Value::Tuple(t) => PickleVal::Tuple(plain_items(t.inner())),
        Value::Dict(d) => PickleVal::Dict(
            d.inner().iter().map(|(k, x)| (plain_value(&k.clone().into_value()), plain_value(x))).collect(),
        ),
        _ => plain_set(v),
    }
}

/// Values of the pickled crate as plain values, in order.
#[verifier::external_body]
fn plain_items(items: &[Value]) -> Vec<PickleVal> {
    items.iter().map(plain_value).collect()
}

/// A set of the pickled crate as a list of plain values, in the set's order
/// (each key made a value with `HashableValue::into_value`); any other kind
/// as `Other`.
#[verifier::external_body]
fn plain_set(v: &Value) -> PickleVal {
    match v {
        Value::Set(t) => PickleVal::List(t.inner().iter().map(|k| plain_value(&k.clone().into_value())).collect()),
        Value::FrozenSet(t) => PickleVal::List(t.inner().iter().map(|k| plain_value(&k.clone().into_value())).collect()),
        _ => PickleVal::Other,
    }
}

/// The player states that an arena state's value gives: for a list, one per
/// item matching it; for anything else none.
pub open spec fn arena_players_match(value: PickleVal, ps: Seq<PlayerStateData>, version: GameVersion) -> bool {
    match value {
        PickleVal::List(items) => ps.len() == items@.len() && forall|k: int|
            0 <= k < ps.len() ==> player_state_matches(#[trigger] ps[k], items@[k], version),
        _ => ps.len() == 0,
    }
}

/// Two values alike: the same kind, the same numbers, the same bytes and
/// characters, items alike in order.
pub open spec fn pickle_same(a: PickleVal, b: PickleVal) -> bool
    decreases a,
{
    match a {
        PickleVal::Bytes(x) => b matches PickleVal::Bytes(y) && y@ == x@,
        PickleVal::Str(x) => b matches PickleVal::Str(y) && y@ == x@,
        PickleVal::List(xs) => b matches PickleVal::List(ys) && ys@.len() == xs@.len() && forall|i: int|
            0 <= i < xs@.len() ==> pickle_same(#[trigger] xs@[i], ys@[i]),
        PickleVal::Tuple(xs) => b matches PickleVal::Tuple(ys) && ys@.len() == xs@.len() && forall|i: int|
            0 <= i < xs@.len() ==> pickle_same(#[trigger] xs@[i], ys@[i]),
        PickleVal::Dict(xs) => b matches PickleVal::Dict(ys) && ys@.len() == xs@.len() && forall|i: int|
            0 <= i < xs@.len() ==> pickle_same((#[trigger] xs@[i]).0, ys@[i].0) && pickle_same(
                xs@[i].1,
                ys@[i].1,
            ),
        _ => b == a,
    }
}

/// A copy of a value.
pub fn copy_pickle(v: &PickleVal) -> (r: PickleVal)
    ensures
        pickle_same(*v, r),
    decreases *v,
{
    match v {
        PickleVal::Nil => PickleVal::Nil,
        PickleVal::Bool(b) => PickleVal::Bool(*b),
        PickleVal::I64(i) => PickleVal::I64(*i),
        PickleVal::F64(f) => PickleVal::F64(*f),
        PickleVal::Bytes(b) => PickleVal::Bytes(b.clone()),
        PickleVal::Str(t) => PickleVal::Str(t.clone()),
        PickleVal::List(items) => {
            let ghost whole = *items;
            let mut out: Vec<PickleVal> = Vec::new();
            let mut i: usize = 0;
            while i < items.len()
                invariant
                    *v == PickleVal::List(whole),
                    whole == *items,
                    i <= items@.len(),
                    out@.len() == i,
                    forall|j: int| 0 <= j < i ==> pickle_same(#[trigger] items@[j], out@[j]),
                decreases items@.len() - i,
            {
                assert(decreases_to!(*v => (*v)->List_0));
                assert(decreases_to!(whole => whole[i as int]));
                let c = copy_pickle(&items[i]);
                out.push(c);
                i += 1;
            }
            PickleVal::List(out)
        },
        PickleVal::Tuple(items) => {
            let ghost whole = *items;
            let mut out: Vec<PickleVal> = Vec::new();
            let mut i: usize = 0;
            while i < items.len()
                invariant
                    *v == PickleVal::Tuple(whole),
                    whole == *items,
                    i <= items@.len(),
                    out@.len() == i,
                    forall|j: int| 0 <= j < i ==> pickle_same(#[trigger] items@[j], out@[j]),
                decreases items@.len() - i,
            {
                assert(decreases_to!(*v => (*v)->Tuple_0));
                assert(decreases_to!(whole => whole[i as int]));
                let c = copy_pickle(&items[i]);
                out.push(c);
                i += 1;
            }
            PickleVal::Tuple(out)
        },
        PickleVal::Dict(pairs) => {
            let ghost whole = *pairs;
            let mut out: Vec<(PickleVal, PickleVal)> = Vec::new();
            let mut i: usize = 0;
            while i < pairs.len()
                invariant
                    *v == PickleVal::Dict(whole),
                    whole == *pairs,
                    i <= pairs@.len(),
                    out@.len() == i,
                    forall|j: int|
                        0 <= j < i ==> pickle_same((#[trigger] pairs@[j]).0, out@[j].0) && pickle_same(
                            pairs@[j].1,
                            out@[j].1,
                        ),
                decreases pairs@.len() - i,
            {
                assert(decreases_to!(*v => (*v)->Dict_0));
                assert(decreases_to!(whole => whole[i as int]));
                assert(decreases_to!(whole@[i as int] => whole@[i as int].0));
                assert(decreases_to!(whole@[i as int] => whole@[i as int].1));
                let a = copy_pickle(&pairs[i].0);
                let b = copy_pickle(&pairs[i].1);
                out.push((a, b));
                i += 1;
            }
            PickleVal::Dict(out)
        },
        PickleVal::Other => PickleVal::Other,
    }
}

/// The `(index, value)` pairs of a list of items, in order: the items that
/// are pairs with an integer index, others skipped.
pub open spec fn raw_pairs_match(items: Seq<PickleVal>, raw: Seq<(i64, PickleVal)>) -> bool
    decreases items.len(),
{
    if items.len() == 0 {
        raw.len() == 0
    } else {
        match items.last() {
            PickleVal::Tuple(kv) => if kv@.len() >= 2 && kv@[0] is I64 {
                &&& raw.len() > 0
                &&& raw.last().0 == kv@[0]->I64_0
                &&& pickle_same(kv@[1], raw.last().1)
                &&& raw_pairs_match(items.drop_last(), raw.drop_last())
            } else {
                raw_pairs_match(items.drop_last(), raw)
            },
            _ => raw_pairs_match(items.drop_last(), raw),
        }
    }
}

/// The pairs of a value: those of its items for a list, none otherwise.
pub open spec fn raw_of(v: PickleVal, raw: Seq<(i64, PickleVal)>) -> bool {
    match v {
        PickleVal::List(items) => raw_pairs_match(items@, raw),
        _ => raw.len() == 0,
    }
}

/// Copies the `(index, value)` pairs of a value's items.
fn raw_pairs(v: &PickleVal) -> (r: Vec<(i64, PickleVal)>)
    ensures
        raw_of(*v, r@),
{
    let items = match v {
        PickleVal::List(items) => items,
        _ => {
            return Vec::new();
        },
    };
    let mut out: Vec<(i64, PickleVal)> = Vec::new();
    let mut i: usize = 0;
    while i < items.len()
        invariant
            i <= items@.len(),
            raw_pairs_match(items@.take(i as int), out@),
        decreases items@.len() - i,
    {
        let ghost before = out@;
        assert(items@.take(i + 1).drop_last() =~= items@.take(i as int));
        match &items[i] {
            PickleVal::Tuple(kv) => {
                if kv.len() >= 2 {
                    match &kv[0] {
                        PickleVal::I64(k) => {
                            let c = copy_pickle(&kv[1]);
                            out.push((*k, c));
                            assert(out@.drop_last() =~= before);
                        },
                        _ => {},
                    }
                }
            },
            _ => {},
        }
        i += 1;
    }
    assert(items@.take(items@.len() as int) =~= items@);
    out
}

/// Copies pairs.
fn copy_raw(raw: &Vec<(i64, PickleVal)>) -> (r: Vec<(i64, PickleVal)>)
    ensures
        pairs_same(raw@, r@),
{
    let mut out: Vec<(i64, PickleVal)> = Vec::new();
    let mut i: usize = 0;
    while i < raw.len()
        invariant
            i <= raw@.len(),
            out@.len() == i,
            forall|j: int| 0 <= j < i ==> (#[trigger] out@[j]).0 == raw@[j].0 && pickle_same(raw@[j].1, out@[j].1),
        decreases raw@.len() - i,
    {
        let c = copy_pickle(&raw[i].1);
        out.push((raw[i].0, c));
        i += 1;
    }
    out
}

/// Two lists of pairs alike: the same indices in order, values alike.
pub open spec fn pairs_same(a: Seq<(i64, PickleVal)>, b: Seq<(i64, PickleVal)>) -> bool {
    &&& b.len() == a.len()
    &&& forall|j: int| 0 <= j < a.len() ==> (#[trigger] b[j]).0 == a[j].0 && pickle_same(a[j].1, b[j].1)
}

/// Two lists of named pairs alike: the same names in order, values alike.
pub open spec fn named_same(a: Seq<(String, PickleVal)>, b: Seq<(String, PickleVal)>) -> bool {
    &&& b.len() == a.len()
    &&& forall|j: int| 0 <= j < a.len() ==> (#[trigger] b[j]).0@ == a[j].0@ && pickle_same(a[j].1, b[j].1)
}

/// Two player states alike: every field equal, the pairs alike.
pub open spec fn state_same(a: PlayerStateData, b: PlayerStateData) -> bool {
    &&& b == PlayerStateData { raw: b.raw, raw_with_names: b.raw_with_names, ..a }
    &&& pairs_same(a.raw@, b.raw@)
    &&& named_same(a.raw_with_names@, b.raw_with_names@)
}

/// The pairs after an update: the first state's pairs unchanged; the values
/// by name are the old ones updated with the update's pairs that name a
/// field, under their names (a name already there takes the new value).
pub open spec fn pairs_updated(old: PlayerStateData, new: PlayerStateData, v: PickleVal, version: GameVersion) -> bool {
    &&& new.raw == old.raw
    &&& exists|pairs: Seq<(i64, PickleVal)>, u: Seq<(String, PickleVal)>|
        #[trigger] raw_of(v, pairs) && #[trigger] named_match(version, pairs, u) && named_map(new.raw_with_names@)
            == named_map(old.raw_with_names@).union_prefer_right(named_map(u))
}

/// A list of named pairs read as a map from names to values: a later pair
/// for a name replaces an earlier one.
pub open spec fn named_map(s: Seq<(String, PickleVal)>) -> Map<Seq<char>, PickleVal>
    decreases s.len(),
{
    if s.len() == 0 {
        Map::empty()
    } else {
        named_map(s.drop_last()).insert(s.last().0@, s.last().1)
    }
}

/// No name occurs twice in a list of named pairs.
pub open spec fn names_distinct(s: Seq<(String, PickleVal)>) -> bool {
    forall|i: int, j: int| 0 <= i < j < s.len() ==> (#[trigger] s[i]).0@ != (#[trigger] s[j]).0@
}

/// Replacing the last pair of a name replaces that name's value.
proof fn lemma_replace_last_of_name(s: Seq<(String, PickleVal)>, i: int, p: (String, PickleVal))
    requires
        0 <= i < s.len(),
        s[i].0@ == p.0@,
        forall|j: int| i < j < s.len() ==> (#[trigger] s[j]).0@ != p.0@,
    ensures
        named_map(s.update(i, p)) == named_map(s).insert(p.0@, p.1),
    decreases s.len(),
{
    let t = s.update(i, p);
    if i == s.len() - 1 {
        assert(t.drop_last() =~= s.drop_last());
        assert(named_map(t) =~= named_map(s).insert(p.0@, p.1));
    } else {
        assert(t.drop_last() =~= s.drop_last().update(i, p));
        assert forall|j: int| i < j < s.drop_last().len() implies (#[trigger] s.drop_last()[j]).0@ != p.0@ by {
            assert(s.drop_last()[j] == s[j]);
        }
        lemma_replace_last_of_name(s.drop_last(), i, p);
        assert(s.last().0@ != p.0@);
        assert(named_map(t) =~= named_map(s).insert(p.0@, p.1));
    }
}

/// Sets the value of a name: the last pair of that name takes the value, or
/// the pair is added when the name is not there.
fn insert_named(list: &mut Vec<(String, PickleVal)>, name: String, x: PickleVal)
    ensures
        named_map(final(list)@) == named_map(old(list)@).insert(name@, x),
        names_distinct(old(list)@) ==> names_distinct(final(list)@),
{
    let mut i: usize = list.len();
    while i > 0
        invariant
            list@ == old(list)@,
            i <= list@.len(),
            forall|j: int| i <= j < list@.len() ==> (#[trigger] list@[j]).0@ != name@,
        decreases i,
    {
        if str_eq(list[i - 1].0.as_str(), name.as_str()) {
            let ghost before = list@;
            let ghost pair = (name, x);
            proof {
                lemma_replace_last_of_name(before, i - 1, pair);
            }
            list.set(i - 1, (name, x));
            proof {
                assert(list@ == before.update(i - 1, pair));
                if names_distinct(before) {
                    assert forall|a: int, b: int| 0 <= a < b < list@.len() implies (#[trigger] list@[a]).0@
                        != (#[trigger] list@[b]).0@ by {
                        assert(list@[a].0@ == before[a].0@);
                        assert(list@[b].0@ == before[b].0@);
                    }
                }
            }
            return;
        }
        i -= 1;
    }
    let ghost before = list@;
    list.push((name, x));
    proof {
        assert(list@.drop_last() =~= before);
        if names_distinct(before) {
            assert forall|a: int, b: int| 0 <= a < b < list@.len() implies (#[trigger] list@[a]).0@
                != (#[trigger] list@[b]).0@ by {
                if b == before.len() {
                    assert(list@[a] == before[a]);
                } else {
                    assert(list@[a] == before[a] && list@[b] == before[b]);
                }
            }
        }
    }
}

/// The names of the player fields that the clients number.
pub open spec fn field_names() -> Seq<Seq<char>> {
    seq!["accountDBID"@, "antiAbuseEnabled"@, "avatarId"@, "camouflageInfo"@, "clanColor"@, "clanID"@, "clanTag"@, "crewParams"@, "dogTag"@, "fragsCount"@, "friendlyFireEnabled"@, "id"@, "invitationsEnabled"@, "isAbuser"@, "isAlive"@, "isBot"@, "isClientLoaded"@, "isConnected"@, "isHidden"@, "isLeaver"@, "isPreBattleOwner"@, "isTShooter"@, "keyTargetMarkers"@, "killedBuildingsCount"@, "maxHealth"@, "name"@, "playerMode"@, "preBattleIdOnStart"@, "preBattleSign"@, "prebattleId"@, "realm"@, "shipComponents"@, "shipConfigDump"@, "shipId"@, "shipParamsId"@, "skinId"@, "teamId"@, "ttkStatus"@]
}

/// The name a version gives a field index: the first of `names` whose index
/// it is.
pub open spec fn name_of_index(version: GameVersion, k: i64, names: Seq<Seq<char>>) -> Option<Seq<char>>
    decreases names.len(),
{
    if names.len() == 0 {
        None
    } else if field_index(version, names[0]) == Some(k) {
        Some(names[0])
    } else {
        name_of_index(version, k, names.drop_first())
    }
}

fn name_of_index_of(version: &GameVersion, k: i64) -> (r: Option<&'static str>)
    ensures
        match r {
            Some(n) => name_of_index(*version, k, field_names()) == Some(n@),
            None => name_of_index(*version, k, field_names()) is None,
        },
{
    let names: Vec<&'static str> = vec!["accountDBID", "antiAbuseEnabled", "avatarId", "camouflageInfo", "clanColor", "clanID", "clanTag", "crewParams", "dogTag", "fragsCount", "friendlyFireEnabled", "id", "invitationsEnabled", "isAbuser", "isAlive", "isBot", "isClientLoaded", "isConnected", "isHidden", "isLeaver", "isPreBattleOwner", "isTShooter", "keyTargetMarkers", "killedBuildingsCount", "maxHealth", "name", "playerMode", "preBattleIdOnStart", "preBattleSign", "prebattleId", "realm", "shipComponents", "shipConfigDump", "shipId", "shipParamsId", "skinId", "teamId", "ttkStatus"];
    assert(names@.map_values(|n: &str| n@) =~= field_names());
    let ghost all = field_names();
    assert(all.skip(0) =~= all);
    let mut i: usize = 0;
    while i < names.len()
        invariant
            names@.map_values(|n: &str| n@) == all,
            all == field_names(),
            i <= names@.len(),
            name_of_index(*version, k, all) == name_of_index(*version, k, all.skip(i as int)),
        decreases names@.len() - i,
    {
        assert(all.skip(i as int).drop_first() =~= all.skip(i + 1));
        assert(all.skip(i as int)[0] == names@[i as int]@);
        if field_index_of(version, names[i]) == Some(k) {
            return Some(names[i]);
        }
        i += 1;
    }
    None
}

/// The named pairs of a list of pairs: in order, those whose index names a
/// field for the version, each under that name, the value alike.
pub open spec fn named_match(version: GameVersion, raw: Seq<(i64, PickleVal)>, named: Seq<(String, PickleVal)>) -> bool
    decreases raw.len(),
{
    if raw.len() == 0 {
        named.len() == 0
    } else {
        match name_of_index(version, raw.last().0, field_names()) {
            Some(n) => {
                &&& named.len() > 0
                &&& named.last().0@ == n
                &&& pickle_same(raw.last().1, named.last().1)
                &&& named_match(version, raw.drop_last(), named.drop_last())
            },
            None => named_match(version, raw.drop_last(), named),
        }
    }
}

/// Sets, in order, the values of the pairs whose index names a field, under
/// the field's name; gives the named pairs so set.
fn insert_named_pairs(
    version: &GameVersion,
    target: &mut Vec<(String, PickleVal)>,
    raw: &Vec<(i64, PickleVal)>,
) -> (u: Ghost<Seq<(String, PickleVal)>>)
    ensures
        named_match(*version, raw@, u@),
        named_map(final(target)@) == named_map(old(target)@).union_prefer_right(named_map(u@)),
        names_distinct(old(target)@) ==> names_distinct(final(target)@),
{
    let ghost start = target@;
    let ghost mut u: Seq<(String, PickleVal)> = seq![];
    assert(named_map(start) =~= named_map(start).union_prefer_right(named_map(u)));
    let mut i: usize = 0;
    while i < raw.len()
        invariant
            i <= raw@.len(),
            named_match(*version, raw@.take(i as int), u),
            named_map(target@) == named_map(start).union_prefer_right(named_map(u)),
            names_distinct(start) ==> names_distinct(target@),
        decreases raw@.len() - i,
    {
        assert(raw@.take(i + 1).drop_last() =~= raw@.take(i as int));
        match name_of_index_of(version, raw[i].0) {
            Some(n) => {
                let name = n.to_string();
                let c = copy_pickle(&raw[i].1);
                let ghost before = u;
                proof {
                    u = u.push((name, c));
                    assert(u.drop_last() =~= before);
                }
                insert_named(target, name, c);
                proof {
                    assert(named_map(target@) =~= named_map(start).union_prefer_right(named_map(u)));
                }
            },
            None => {},
        }
        i += 1;
    }
    assert(raw@.take(raw@.len() as int) =~= raw@);
    Ghost(u)
}

/// Copies named pairs.
fn copy_named(named: &Vec<(String, PickleVal)>) -> (r: Vec<(String, PickleVal)>)
    ensures
        named_same(named@, r@),
{
    let mut out: Vec<(String, PickleVal)> = Vec::new();
    let mut i: usize = 0;
    while i < named.len()
        invariant
            i <= named@.len(),
            out@.len() == i,
            forall|j: int| 0 <= j < i ==> (#[trigger] out@[j]).0@ == named@[j].0@ && pickle_same(named@[j].1, out@[j].1),
        decreases named@.len() - i,
    {
        let c = copy_pickle(&named[i].1);
        out.push((named[i].0.clone(), c));
        i += 1;
    }
    out
}

/// Every value is alike itself.
pub proof fn lemma_pickle_same_reflexive(a: PickleVal)
    ensures
        pickle_same(a, a),
    decreases a,
{
    match a {
        PickleVal::List(xs) => {
            assert forall|i: int| 0 <= i < xs@.len() implies pickle_same(#[trigger] xs@[i], xs@[i]) by {
                assert(decreases_to!(a => a->List_0));
                assert(decreases_to!(xs => xs[i]));
                lemma_pickle_same_reflexive(xs@[i]);
            }
        },
        PickleVal::Tuple(xs) => {
            assert forall|i: int| 0 <= i < xs@.len() implies pickle_same(#[trigger] xs@[i], xs@[i]) by {
                assert(decreases_to!(a => a->Tuple_0));
                assert(decreases_to!(xs => xs[i]));
                lemma_pickle_same_reflexive(xs@[i]);
            }
        },
        PickleVal::Dict(xs) => {
            assert forall|i: int| 0 <= i < xs@.len() implies pickle_same((#[trigger] xs@[i]).0, xs@[i].0)
                && pickle_same(xs@[i].1, xs@[i].1) by {
                assert(decreases_to!(a => a->Dict_0));
                assert(decreases_to!(xs => xs[i]));
                assert(decreases_to!(xs[i] => xs[i].0));
                assert(decreases_to!(xs[i] => xs[i].1));
                lemma_pickle_same_reflexive(xs@[i].0);
                lemma_pickle_same_reflexive(xs@[i].1);
            }
        },
        _ => {},
    }
}

/// Likeness goes both ways and chains: two values alike a third are alike
/// each other.
pub proof fn lemma_pickle_same_shared(a: PickleVal, b: PickleVal, c: PickleVal)
    requires
        pickle_same(a, b),
        pickle_same(a, c),
    ensures
        pickle_same(b, c),
        pickle_same(c, b),
    decreases a,
{
    match a {
        PickleVal::List(xs) => {
            let ys = b->List_0;
            let zs = c->List_0;
            assert forall|i: int| 0 <= i < ys@.len() implies pickle_same(#[trigger] ys@[i], zs@[i]) && pickle_same(
                zs@[i],
                ys@[i],
            ) by {
                assert(decreases_to!(a => a->List_0));
                assert(decreases_to!(xs => xs[i]));
                assert(pickle_same(xs@[i], ys@[i]));
                lemma_pickle_same_shared(xs@[i], ys@[i], zs@[i]);
            }
            assert forall|i: int| 0 <= i < zs@.len() implies pickle_same(#[trigger] zs@[i], ys@[i]) by {
                assert(pickle_same(ys@[i], zs@[i]) && pickle_same(zs@[i], ys@[i]));
            }
        },
        PickleVal::Tuple(xs) => {
            let ys = b->Tuple_0;
            let zs = c->Tuple_0;
            assert forall|i: int| 0 <= i < ys@.len() implies pickle_same(#[trigger] ys@[i], zs@[i]) && pickle_same(
                zs@[i],
                ys@[i],
            ) by {
                assert(decreases_to!(a => a->Tuple_0));
                assert(decreases_to!(xs => xs[i]));
                assert(pickle_same(xs@[i], ys@[i]));
                lemma_pickle_same_shared(xs@[i], ys@[i], zs@[i]);
            }
            assert forall|i: int| 0 <= i < zs@.len() implies pickle_same(#[trigger] zs@[i], ys@[i]) by {
                assert(pickle_same(ys@[i], zs@[i]) && pickle_same(zs@[i], ys@[i]));
            }
        },
        PickleVal::Dict(xs) => {
            let ys = b->Dict_0;
            let zs = c->Dict_0;
            assert forall|i: int| 0 <= i < ys@.len() implies {
                &&& pickle_same((#[trigger] ys@[i]).0, zs@[i].0) && pickle_same(ys@[i].1, zs@[i].1)
                &&& pickle_same(zs@[i].0, ys@[i].0) && pickle_same(zs@[i].1, ys@[i].1)
            } by {
                assert(decreases_to!(a => a->Dict_0));
                assert(decreases_to!(xs => xs[i]));
                assert(decreases_to!(xs[i] => xs[i].0));
                assert(decreases_to!(xs[i] => xs[i].1));
                assert(pickle_same(xs@[i].0, ys@[i].0) && pickle_same(xs@[i].1, ys@[i].1));
                lemma_pickle_same_shared(xs@[i].0, ys@[i].0, zs@[i].0);
                lemma_pickle_same_shared(xs@[i].1, ys@[i].1, zs@[i].1);
            }
            assert forall|i: int| 0 <= i < zs@.len() implies pickle_same((#[trigger] zs@[i]).0, ys@[i].0)
                && pickle_same(zs@[i].1, ys@[i].1) by {
                assert(pickle_same(ys@[i].0, zs@[i].0));
            }
        },
        _ => {},
    }
}

/// Two lists of pairs read from the same items are alike.
proof fn lemma_raw_pairs_alike(items: Seq<PickleVal>, r1: Seq<(i64, PickleVal)>, r2: Seq<(i64, PickleVal)>)
    requires
        raw_pairs_match(items, r1),
        raw_pairs_match(items, r2),
    ensures
        pairs_same(r1, r2),
    decreases items.len(),
{
    if items.len() > 0 {
        match items.last() {
            PickleVal::Tuple(kv) => if kv@.len() >= 2 && kv@[0] is I64 {
                lemma_raw_pairs_alike(items.drop_last(), r1.drop_last(), r2.drop_last());
                lemma_pickle_same_shared(kv@[1], r1.last().1, r2.last().1);
                assert forall|j: int| 0 <= j < r1.len() implies (#[trigger] r2[j]).0 == r1[j].0 && pickle_same(
                    r1[j].1,
                    r2[j].1,
                ) by {
                    if j < r1.len() - 1 {
                        assert(r1.drop_last()[j] == r1[j] && r2.drop_last()[j] == r2[j]);
                    }
                }
            } else {
                lemma_raw_pairs_alike(items.drop_last(), r1, r2);
            },
            _ => lemma_raw_pairs_alike(items.drop_last(), r1, r2),
        }
    }
}

/// Two maps alike: the same names, each value alike.
pub open spec fn maps_alike(a: Map<Seq<char>, PickleVal>, b: Map<Seq<char>, PickleVal>) -> bool {
    &&& a.dom() == b.dom()
    &&& forall|k: Seq<char>| #[trigger] a.dom().contains(k) ==> pickle_same(a[k], b[k])
}

/// The named pairs of alike pairs are alike, read as maps.
proof fn lemma_named_alike(
    version: GameVersion,
    p1: Seq<(i64, PickleVal)>,
    p2: Seq<(i64, PickleVal)>,
    u1: Seq<(String, PickleVal)>,
    u2: Seq<(String, PickleVal)>,
)
    requires
        pairs_same(p1, p2),
        named_match(version, p1, u1),
        named_match(version, p2, u2),
    ensures
        maps_alike(named_map(u1), named_map(u2)),
    decreases p1.len(),
{
    if p1.len() > 0 {
        assert(p1.last().0 == p2.last().0);
        assert(pairs_same(p1.drop_last(), p2.drop_last())) by {
            assert forall|j: int| 0 <= j < p1.drop_last().len() implies (#[trigger] p2.drop_last()[j]).0
                == p1.drop_last()[j].0 && pickle_same(p1.drop_last()[j].1, p2.drop_last()[j].1) by {
                assert(p1.drop_last()[j] == p1[j] && p2.drop_last()[j] == p2[j]);
            }
        }
        match name_of_index(version, p1.last().0, field_names()) {
            Some(n) => {
                lemma_named_alike(version, p1.drop_last(), p2.drop_last(), u1.drop_last(), u2.drop_last());
                lemma_pickle_same_shared(p1.last().1, p2.last().1, u1.last().1);
                lemma_pickle_same_shared(p2.last().1, u1.last().1, u2.last().1);
                let m1 = named_map(u1);
                let m2 = named_map(u2);
                assert(m1.dom() =~= m2.dom());
                assert forall|k: Seq<char>| #[trigger] m1.dom().contains(k) implies pickle_same(m1[k], m2[k]) by {
                    if k != n {
                        assert(named_map(u1.drop_last()).dom().contains(k));
                    }
                }
            },
            None => {
                lemma_named_alike(version, p1.drop_last(), p2.drop_last(), u1, u2);
            },
        }
    }
}

/// Taking the same update twice: the second changes no field, keeps the
/// first state's pairs, holds the same names, and leaves each name's value
/// alike the one the first update set.
pub proof fn lemma_update_twice_changes_nothing(
    s0: PlayerStateData,
    s1: PlayerStateData,
    s2: PlayerStateData,
    v: PickleVal,
    version: GameVersion,
)
    requires
        player_state_updated(s0, s1, v, version),
        pairs_updated(s0, s1, v, version),
        player_state_updated(s1, s2, v, version),
        pairs_updated(s1, s2, v, version),
    ensures
        s2 == (PlayerStateData {
            username: s2.username,
            clan: s2.clan,
            realm: s2.realm,
            raw_with_names: s2.raw_with_names,
            ..s1
        }),
        s2.username@ == s1.username@,
        s2.clan@ == s1.clan@,
        s2.realm@ == s1.realm@,
        maps_alike(named_map(s1.raw_with_names@), named_map(s2.raw_with_names@)),
{
    let (p1, u1) = choose|pairs: Seq<(i64, PickleVal)>, u: Seq<(String, PickleVal)>|
        #[trigger] raw_of(v, pairs) && #[trigger] named_match(version, pairs, u) && named_map(s1.raw_with_names@)
            == named_map(s0.raw_with_names@).union_prefer_right(named_map(u));
    let (p2, u2) = choose|pairs: Seq<(i64, PickleVal)>, u: Seq<(String, PickleVal)>|
        #[trigger] raw_of(v, pairs) && #[trigger] named_match(version, pairs, u) && named_map(s2.raw_with_names@)
            == named_map(s1.raw_with_names@).union_prefer_right(named_map(u));
    match v {
        PickleVal::List(items) => lemma_raw_pairs_alike(items@, p1, p2),
        _ => {},
    }
    lemma_named_alike(version, p1, p2, u1, u2);
    let m0 = named_map(s0.raw_with_names@);
    let m1 = named_map(u1);
    let m2 = named_map(u2);
    let a = named_map(s1.raw_with_names@);
    let b = named_map(s2.raw_with_names@);
    assert(a.dom() =~= b.dom());
    assert forall|k: Seq<char>| #[trigger] a.dom().contains(k) implies pickle_same(a[k], b[k]) by {
        if m2.dom().contains(k) {
            assert(m1.dom().contains(k));
            assert(pickle_same(m1[k], m2[k]));
        } else {
            lemma_pickle_same_reflexive(a[k]);
        }
    }
}

} // verus!
