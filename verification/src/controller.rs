//! Players, vehicles and the rules by which the battle controller turns
//! decoded events into battle state.
use vstd::prelude::*;
use std::time::Duration;
use crate::bytes::{le_u32, read_le_u32};
use crate::decoder::DeathCause;
use crate::rpc::{dict_get, dict_lookup, str_eq, ArgVal};
use crate::types::EntityId;
use crate::version::{at_least, GameVersion};

verus! {

#[derive(Debug, Default)]
pub struct ShipConfig {
    abilities: Vec<u32>,
    hull: u32,
    modernization: Vec<u32>,
    units: Vec<u32>,
    signals: Vec<u32>,
}

/// A configuration with no units, modules, signals or abilities.
pub open spec fn ship_config_fresh(c: ShipConfig) -> bool {
    &&& c.abilities_view().len() == 0
    &&& c.hull_view() == 0
    &&& c.modernization_view().len() == 0
    &&& c.units_view().len() == 0
    &&& c.signals_view().len() == 0
}

impl ShipConfig {
    /// A configuration with no units, modules or abilities.
    pub fn new() -> (r: ShipConfig)
        ensures
            ship_config_fresh(r),
    {
        ShipConfig {
            abilities: Vec::new(),
            hull: 0,
            modernization: Vec::new(),
            units: Vec::new(),
            signals: Vec::new(),
        }
    }

    pub closed spec fn abilities_view(&self) -> Seq<u32> {
        self.abilities@
    }

    pub closed spec fn hull_view(&self) -> u32 {
        self.hull
    }

    pub closed spec fn modernization_view(&self) -> Seq<u32> {
        self.modernization@
    }

    pub closed spec fn units_view(&self) -> Seq<u32> {
        self.units@
    }

    pub closed spec fn signals_view(&self) -> Seq<u32> {
        self.signals@
    }

    pub fn signals(&self) -> (r: &[u32])
        ensures
            r@ == self.signals_view(),
    {
        self.signals.as_slice()
    }

    pub fn units(&self) -> (r: &[u32])
        ensures
            r@ == self.units_view(),
    {
        self.units.as_slice()
    }

    pub fn modernization(&self) -> (r: &[u32])
        ensures
            r@ == self.modernization_view(),
    {
        self.modernization.as_slice()
    }

    pub fn hull(&self) -> (r: u32)
        ensures
            r == self.hull_view(),
    {
        self.hull
    }

    pub fn abilities(&self) -> (r: &[u32])
        ensures
            r@ == self.abilities_view(),
    {
        self.abilities.as_slice()
    }
}

#[derive(Debug, Default)]
pub struct Skills {
    aircraft_carrier: Vec<u8>,
    battleship: Vec<u8>,
    cruiser: Vec<u8>,
    destroyer: Vec<u8>,
    auxiliary: Vec<u8>,
    submarine: Vec<u8>,
}

/// The learned skills of a commander per ship class, in the order in which
/// they are sent: carrier, battleship, cruiser, destroyer, auxiliary, submarine.
pub open spec fn skills_lists(s: Skills) -> Seq<Seq<u8>> {
    seq![
        s.aircraft_carrier_view(),
        s.battleship_view(),
        s.cruiser_view(),
        s.destroyer_view(),
        s.auxiliary_view(),
        s.submarine_view(),
    ]
}

impl Skills {
    pub closed spec fn aircraft_carrier_view(&self) -> Seq<u8> {
        self.aircraft_carrier@
    }

    pub closed spec fn battleship_view(&self) -> Seq<u8> {
        self.battleship@
    }

    pub closed spec fn cruiser_view(&self) -> Seq<u8> {
        self.cruiser@
    }

    pub closed spec fn destroyer_view(&self) -> Seq<u8> {
        self.destroyer@
    }

    pub closed spec fn auxiliary_view(&self) -> Seq<u8> {
        self.auxiliary@
    }

    pub closed spec fn submarine_view(&self) -> Seq<u8> {
        self.submarine@
    }

    /// Skills with no skill learned for any class.
    pub fn empty() -> (r: Skills)
        ensures
            r.aircraft_carrier_view().len() == 0,
            r.battleship_view().len() == 0,
            r.cruiser_view().len() == 0,
            r.destroyer_view().len() == 0,
            r.auxiliary_view().len() == 0,
            r.submarine_view().len() == 0,
    {
        Skills {
            aircraft_carrier: Vec::new(),
            battleship: Vec::new(),
            cruiser: Vec::new(),
            destroyer: Vec::new(),
            auxiliary: Vec::new(),
            submarine: Vec::new(),
        }
    }

    pub fn submarine(&self) -> (r: &[u8])
        ensures
            r@ == self.submarine_view(),
    {
        self.submarine.as_slice()
    }

    pub fn auxiliary(&self) -> (r: &[u8])
        ensures
            r@ == self.auxiliary_view(),
    {
        self.auxiliary.as_slice()
    }

    pub fn destroyer(&self) -> (r: &[u8])
        ensures
            r@ == self.destroyer_view(),
    {
        self.destroyer.as_slice()
    }

    pub fn cruiser(&self) -> (r: &[u8])
        ensures
            r@ == self.cruiser_view(),
    {
        self.cruiser.as_slice()
    }

    pub fn battleship(&self) -> (r: &[u8])
        ensures
            r@ == self.battleship_view(),
    {
        self.battleship.as_slice()
    }

    pub fn aircraft_carrier(&self) -> (r: &[u8])
        ensures
            r@ == self.aircraft_carrier_view(),
    {
        self.aircraft_carrier.as_slice()
    }
}

#[derive(Debug, Default)]
pub struct ShipLoadout {
    config: Option<ShipConfig>,
    skills: Option<Skills>,
}

impl ShipLoadout {
    pub closed spec fn config_view(&self) -> Option<ShipConfig> {
        self.config
    }

    pub closed spec fn skills_view(&self) -> Option<Skills> {
        self.skills
    }

    pub fn new(config: Option<ShipConfig>, skills: Option<Skills>) -> (r: ShipLoadout)
        ensures
            r.config_view() == config,
            r.skills_view() == skills,
    {
        ShipLoadout { config, skills }
    }

    pub fn skills(&self) -> (r: Option<&Skills>)
        ensures
            match self.skills_view() {
                Some(s) => r == Some(&s),
                None => r is None,
            },
    {
        match &self.skills {
            Some(s) => Some(s),
            None => None,
        }
    }

    pub fn config(&self) -> (r: Option<&ShipConfig>)
        ensures
            match self.config_view() {
                Some(c) => r == Some(&c),
                None => r is None,
            },
    {
        match &self.config {
            Some(c) => Some(c),
            None => None,
        }
    }
}

#[derive(Debug, Copy, Clone, PartialEq, Eq, Structural)]
pub enum ConnectionChangeKind {
    Connected,
    Disconnected,
}

#[derive(Debug)]
pub struct ConnectionChangeInfo {
    /// Duration from start of arena when the connection change
    /// event occurred
    at_game_duration: Duration,
    event_kind: ConnectionChangeKind,
    /// Whether or not this player had a death event when this connection change
    /// occurred
    had_death_event: bool,
}

impl ConnectionChangeInfo {
    pub closed spec fn at_game_duration_view(&self) -> Duration {
        self.at_game_duration
    }

    pub closed spec fn event_kind_view(&self) -> ConnectionChangeKind {
        self.event_kind
    }

    pub closed spec fn had_death_event_view(&self) -> bool {
        self.had_death_event
    }

    pub fn new(
        at_game_duration: Duration,
        event_kind: ConnectionChangeKind,
        had_death_event: bool,
    ) -> (r: ConnectionChangeInfo)
        ensures
            r.at_game_duration_view() == at_game_duration,
            r.event_kind_view() == event_kind,
            r.had_death_event_view() == had_death_event,
    {
        ConnectionChangeInfo { at_game_duration, event_kind, had_death_event }
    }

    pub fn at_game_duration(&self) -> (r: Duration)
        ensures
            r == self.at_game_duration_view(),
    {
        self.at_game_duration
    }

    pub fn event_kind(&self) -> (r: ConnectionChangeKind)
        ensures
            r == self.event_kind_view(),
    {
        self.event_kind
    }

    pub fn had_death_event(&self) -> (r: bool)
        ensures
            r == self.had_death_event_view(),
    {
        self.had_death_event
    }
}

/// The kinds of a connection history, in order.
pub open spec fn history_kinds(h: Seq<ConnectionChangeInfo>) -> Seq<ConnectionChangeKind> {
    h.map_values(|i: ConnectionChangeInfo| i.event_kind_view())
}

/// Whether a player's state change is a new connection event: the first one
/// must be a connection, and each later one must change the kind.
pub open spec fn is_connection_change(
    kinds: Seq<ConnectionChangeKind>,
    kind: ConnectionChangeKind,
) -> bool {
    if kinds.len() == 0 {
        kind != ConnectionChangeKind::Disconnected
    } else {
        kinds.last() != kind
    }
}

/// A history that starts with a connection and alternates between
/// connections and disconnections.
pub open spec fn alternating(kinds: Seq<ConnectionChangeKind>) -> bool {
    &&& (kinds.len() > 0 ==> kinds[0] == ConnectionChangeKind::Connected)
    &&& forall|k: int| 0 < k < kinds.len() ==> #[trigger] kinds[k] != kinds[k - 1]
}

/// Records a player's connection state in their history when it is a change.
pub fn record_connection_state(
    history: &mut Vec<ConnectionChangeInfo>,
    at_game_duration: Duration,
    kind: ConnectionChangeKind,
    had_death_event: bool,
) -> (recorded: bool)
    ensures
        recorded == is_connection_change(history_kinds(old(history)@), kind),
        recorded ==> final(history)@.len() == old(history)@.len() + 1 && final(history)@.drop_last()
            == old(history)@ && final(history)@.last().at_game_duration_view() == at_game_duration
            && final(history)@.last().event_kind_view() == kind
            && final(history)@.last().had_death_event_view() == had_death_event,
        !recorded ==> final(history)@ == old(history)@,
{
    let n = history.len();
    let change = if n == 0 {
        kind != ConnectionChangeKind::Disconnected
    } else {
        history[n - 1].event_kind() != kind
    };
    if change {
        history.push(ConnectionChangeInfo::new(at_game_duration, kind, had_death_event));
        assert(history@.drop_last() =~= old(history)@);
    }
    change
}

/// Recording connection states keeps a history alternating: it starts with a
/// connection and never records the same kind twice in a row.
pub proof fn lemma_recording_keeps_history_alternating(
    kinds: Seq<ConnectionChangeKind>,
    kind: ConnectionChangeKind,
)
    requires
        alternating(kinds),
    ensures
        is_connection_change(kinds, kind) ==> alternating(kinds.push(kind)),
{
    if is_connection_change(kinds, kind) {
        let n = kinds.push(kind);
        assert forall|k: int| 0 < k < n.len() implies #[trigger] n[k] != n[k - 1] by {
            if k < kinds.len() {
                assert(n[k] == kinds[k] && n[k - 1] == kinds[k - 1]);
            }
        }
    }
}

/// The raw `EntityType` flags of an entity description.
#[allow(non_camel_case_types)]
pub enum xEntityType {
    Client,
    Cell,
    Base,
}

impl xEntityType {
    /// The flag value of the kind: 1, 2 or 4.
    pub fn flag(&self) -> (r: u32)
        ensures
            r == match *self {
                xEntityType::Client => 1u32,
                xEntityType::Cell => 2u32,
                xEntityType::Base => 4u32,
            },
    {
        match self {
            xEntityType::Client => 1,
            xEntityType::Cell => 2,
            xEntityType::Base => 4,
        }
    }
}

#[derive(Debug, Clone, Copy, PartialEq, Eq, Structural)]
pub enum EntityType {
    Building,
    BattleEntity,
    BattleLogic,
    Vehicle,
    InteractiveZone,
    SmokeScreen,
}

/// The entity type named exactly (case-sensitive) by `name`.
pub open spec fn entity_type_spec(name: Seq<char>) -> Option<EntityType> {
    if name == "Building"@ {
        Some(EntityType::Building)
    } else if name == "BattleEntity"@ {
        Some(EntityType::BattleEntity)
    } else if name == "BattleLogic"@ {
        Some(EntityType::BattleLogic)
    } else if name == "Vehicle"@ {
        Some(EntityType::Vehicle)
    } else if name == "InteractiveZone"@ {
        Some(EntityType::InteractiveZone)
    } else if name == "SmokeScreen"@ {
        Some(EntityType::SmokeScreen)
    } else {
        None
    }
}

impl EntityType {
    /// Parses an entity type from its exact name.
    pub fn from_name(name: &str) -> (r: Option<EntityType>)
        ensures
            r == entity_type_spec(name@),
    {
        if str_eq(name, "Building") {
            Some(EntityType::Building)
        } else if str_eq(name, "BattleEntity") {
            Some(EntityType::BattleEntity)
        } else if str_eq(name, "BattleLogic") {
            Some(EntityType::BattleLogic)
        } else if str_eq(name, "Vehicle") {
            Some(EntityType::Vehicle)
        } else if str_eq(name, "InteractiveZone") {
            Some(EntityType::InteractiveZone)
        } else if str_eq(name, "SmokeScreen") {
            Some(EntityType::SmokeScreen)
        } else {
            None
        }
    }
}

#[derive(Copy, Clone, Debug, PartialEq, Eq, Structural)]
pub enum BattleResult {
    /// A win, and which team won (inferred to be the team of the player)
    Win(i8),
    /// A loss, and which other team won
    Loss(i8),
    Draw,
}

/// The result of a battle for the recording player: known only once the
/// battle has ended with a winning team; the team numbers wrap to `i8`.
pub open spec fn battle_result_spec(
    match_finished: bool,
    winning_team: Option<i8>,
    self_team: i64,
) -> Option<BattleResult> {
    if !match_finished {
        None
    } else {
        match winning_team {
            None => None,
            Some(team) => if team == self_team as i8 {
                Some(BattleResult::Win(team))
            } else if team >= 0 {
                Some(BattleResult::Loss(team))
            } else {
                Some(BattleResult::Draw)
            },
        }
    }
}

pub fn battle_result(match_finished: bool, winning_team: Option<i8>, self_team: i64) -> (r: Option<
    BattleResult,
>)
    ensures
        r == battle_result_spec(match_finished, winning_team, self_team),
{
    if !match_finished {
        return None;
    }
    match winning_team {
        None => None,
        Some(team) => if team == self_team as i8 {
            Some(BattleResult::Win(team))
        } else if team >= 0 {
            Some(BattleResult::Loss(team))
        } else {
            Some(BattleResult::Draw)
        },
    }
}

#[derive(Copy, Clone, Debug, PartialEq, Eq, Structural)]
pub enum ChatChannel {
    Division,
    Global,
    Team,
}

/// The channel of a chat audience; `None` for an unknown audience.
pub open spec fn chat_channel_spec(audience: Seq<char>) -> Option<ChatChannel> {
    if audience == "battle_common"@ {
        Some(ChatChannel::Global)
    } else if audience == "battle_team"@ {
        Some(ChatChannel::Team)
    } else if audience == "battle_prebattle"@ {
        Some(ChatChannel::Division)
    } else {
        None
    }
}

pub fn chat_channel(audience: &str) -> (r: Option<ChatChannel>)
    ensures
        r == chat_channel_spec(audience@),
{
    if str_eq(audience, "battle_common") {
        Some(ChatChannel::Global)
    } else if str_eq(audience, "battle_team") {
        Some(ChatChannel::Team)
    } else if str_eq(audience, "battle_prebattle") {
        Some(ChatChannel::Division)
    } else {
        None
    }
}

#[derive(Debug, Default, Clone, Copy)]
pub struct AAAura {
    id: u32,
    enabled: bool,
}

impl AAAura {
    pub closed spec fn id_view(&self) -> u32 {
        self.id
    }

    pub closed spec fn enabled_view(&self) -> bool {
        self.enabled
    }

    pub fn new(id: u32, enabled: bool) -> (r: AAAura)
        ensures
            r.id_view() == id && r.enabled_view() == enabled,
    {
        AAAura { id, enabled }
    }
}

#[derive(Debug, Default, Clone, Copy)]
pub struct VehicleState {
    buffs: Option<()>,
    vehicle_visual_state: u8,
    battery: Option<()>,
}

/// The state of a vehicle that nothing has changed.
pub closed spec fn initial_vehicle_state() -> VehicleState {
    VehicleState { buffs: None, vehicle_visual_state: 0, battery: None }
}

impl VehicleState {
    pub fn new() -> (r: VehicleState)
        ensures
            r == initial_vehicle_state(),
    {
        VehicleState { buffs: None, vehicle_visual_state: 0, battery: None }
    }
}

#[derive(Debug, Clone, Copy)]
pub struct DeathInfo {
    /// Time lived in the game. This may not be accurate if a game rejoin occurs
    /// as there's no known way to detect this event.
    time_lived: Duration,
    killer: EntityId,
    cause: DeathCause,
}

impl DeathInfo {
    pub closed spec fn time_lived_view(&self) -> Duration {
        self.time_lived
    }

    pub closed spec fn killer_view(&self) -> EntityId {
        self.killer
    }

    pub closed spec fn cause_view(&self) -> DeathCause {
        self.cause
    }

    pub fn new(time_lived: Duration, killer: EntityId, cause: DeathCause) -> (r: DeathInfo)
        ensures
            r.time_lived_view() == time_lived && r.killer_view() == killer && r.cause_view()
                == cause,
    {
        DeathInfo { time_lived, killer, cause }
    }

    pub fn time_lived(&self) -> (r: Duration)
        ensures
            r == self.time_lived_view(),
    {
        self.time_lived
    }

    pub fn killer(&self) -> (r: EntityId)
        ensures
            r == self.killer_view(),
    {
        self.killer
    }

    pub fn cause(&self) -> (r: DeathCause)
        ensures
            r == self.cause_view(),
    {
        self.cause
    }
}

// ---------------------------------------------------------------------------
// Ship configuration blob
// ---------------------------------------------------------------------------

/// The `n` little-endian `u32`s stored from `pos` on.
pub open spec fn u32s_at(b: Seq<u8>, pos: int, n: int) -> Seq<u32> {
    Seq::new(n as nat, |k: int| le_u32(b, pos + 4 * k) as u32)
}

/// Reads `n` little-endian `u32`s from `pos` on.
pub fn read_u32s(b: &[u8], pos: usize, n: usize) -> (r: Vec<u32>)
    requires
        pos + 4 * n <= b@.len(),
    ensures
        r@ == u32s_at(b@, pos as int, n as int),
{
    let len = b.len();
    let mut out: Vec<u32> = Vec::new();
    let mut k: usize = 0;
    while k < n
        invariant
            k <= n,
            len == b@.len(),
            pos + 4 * n <= b@.len(),
            out@ =~= u32s_at(b@, pos as int, k as int),
        decreases n - k,
    {
        out.push(read_le_u32(b, pos + 4 * k));
        k += 1;
    }
    out
}

/// The layout of a ship configuration blob: three words (the second is the
/// ship's parameters id), the unit list, one more word from 13.2 on, the
/// modernization and signal lists, the supply state, the camouflage pairs and
/// the ability list; each list is a `u32` count and that many `u32`s (pairs
/// for camouflage).
pub open spec fn sc_units_count(b: Seq<u8>) -> int {
    le_u32(b, 12)
}

pub open spec fn sc_mods_count_pos(b: Seq<u8>, extra: bool) -> int {
    16 + 4 * sc_units_count(b) + if extra { 4int } else { 0int }
}

pub open spec fn sc_mods_count(b: Seq<u8>, extra: bool) -> int {
    le_u32(b, sc_mods_count_pos(b, extra))
}

pub open spec fn sc_signals_count_pos(b: Seq<u8>, extra: bool) -> int {
    sc_mods_count_pos(b, extra) + 4 + 4 * sc_mods_count(b, extra)
}

pub open spec fn sc_signals_count(b: Seq<u8>, extra: bool) -> int {
    le_u32(b, sc_signals_count_pos(b, extra))
}

pub open spec fn sc_supply_pos(b: Seq<u8>, extra: bool) -> int {
    sc_signals_count_pos(b, extra) + 4 + 4 * sc_signals_count(b, extra)
}

pub open spec fn sc_camo_count(b: Seq<u8>, extra: bool) -> int {
    le_u32(b, sc_supply_pos(b, extra) + 4)
}

pub open spec fn sc_abilities_count_pos(b: Seq<u8>, extra: bool) -> int {
    sc_supply_pos(b, extra) + 8 + 8 * sc_camo_count(b, extra)
}

pub open spec fn sc_abilities_count(b: Seq<u8>, extra: bool) -> int {
    le_u32(b, sc_abilities_count_pos(b, extra))
}

/// Where a well-formed ship configuration blob ends.
pub open spec fn sc_end(b: Seq<u8>, extra: bool) -> int {
    sc_abilities_count_pos(b, extra) + 4 + 4 * sc_abilities_count(b, extra)
}

/// Why a ship configuration blob could not be read.
#[derive(Debug, Clone, Copy, PartialEq, Eq, Structural)]
pub enum ShipConfigError {
    /// The blob ends before the configuration does.
    Incomplete,
    /// The configuration lists no unit, so it has no hull.
    NoUnits,
}

/// The ship configuration of a well-formed blob.
pub open spec fn ship_config_matches(c: ShipConfig, b: Seq<u8>, extra: bool) -> bool {
    &&& c.units_view() == u32s_at(b, 16, sc_units_count(b))
    &&& c.hull_view() == c.units_view()[0]
    &&& c.modernization_view() == u32s_at(
        b,
        sc_mods_count_pos(b, extra) + 4,
        sc_mods_count(b, extra),
    )
    &&& c.signals_view() == u32s_at(
        b,
        sc_signals_count_pos(b, extra) + 4,
        sc_signals_count(b, extra),
    )
    &&& c.abilities_view() == u32s_at(
        b,
        sc_abilities_count_pos(b, extra) + 4,
        sc_abilities_count(b, extra),
    )
}

/// The release from which ship configurations carry an extra word after the
/// unit list.
pub open spec fn ship_config_extra_word_release() -> GameVersion {
    GameVersion { major: 13, minor: 2, patch: 0, build: 0 }
}

/// Reads the ship configuration blob of a vehicle. On success, also returns
/// how many bytes it took.
pub fn parse_ship_config(blob: &[u8], version: &GameVersion) -> (r: Result<
    (ShipConfig, usize),
    ShipConfigError,
>)
    ensures
        ({
            let b = blob@;
            let extra = at_least(*version, ship_config_extra_word_release());
            match r {
                Ok((c, n)) => n == sc_end(b, extra) && n <= b.len() && sc_units_count(b) > 0
                    && ship_config_matches(c, b, extra),
                Err(ShipConfigError::Incomplete) => sc_end(b, extra) > b.len(),
                Err(ShipConfigError::NoUnits) => sc_end(b, extra) <= b.len() && sc_units_count(b)
                    == 0,
            }
        }),
{
    let ghost b = blob@;
    let extra = version.is_at_least(&GameVersion::new(13, 2, 0, 0));
    let len = blob.len();
    if len < 16 {
        return Err(ShipConfigError::Incomplete);
    }
    let unit_count = read_le_u32(blob, 12) as usize;
    if unit_count > (len - 16) / 4 {
        return Err(ShipConfigError::Incomplete);
    }
    let units = read_u32s(blob, 16, unit_count);
    let mut p: usize = 16 + 4 * unit_count;
    if extra {
        if len - p < 4 {
            return Err(ShipConfigError::Incomplete);
        }
        p = p + 4;
    }
    assert(p == sc_mods_count_pos(b, extra));
    if len - p < 4 {
        return Err(ShipConfigError::Incomplete);
    }
    let mod_count = read_le_u32(blob, p) as usize;
    p = p + 4;
    if mod_count > (len - p) / 4 {
        return Err(ShipConfigError::Incomplete);
    }
    let modernization = read_u32s(blob, p, mod_count);
    p = p + 4 * mod_count;
    assert(p == sc_signals_count_pos(b, extra));
    if len - p < 4 {
        return Err(ShipConfigError::Incomplete);
    }
    let signal_count = read_le_u32(blob, p) as usize;
    p = p + 4;
    if signal_count > (len - p) / 4 {
        return Err(ShipConfigError::Incomplete);
    }
    let signals = read_u32s(blob, p, signal_count);
    p = p + 4 * signal_count;
    assert(p == sc_supply_pos(b, extra));
    if len - p < 8 {
        return Err(ShipConfigError::Incomplete);
    }
    let camo_count = read_le_u32(blob, p + 4) as usize;
    p = p + 8;
    if camo_count > (len - p) / 8 {
        return Err(ShipConfigError::Incomplete);
    }
    p = p + 8 * camo_count;
    assert(p == sc_abilities_count_pos(b, extra));
    if len - p < 4 {
        return Err(ShipConfigError::Incomplete);
    }
    let ability_count = read_le_u32(blob, p) as usize;
    p = p + 4;
    if ability_count > (len - p) / 4 {
        return Err(ShipConfigError::Incomplete);
    }
    let abilities = read_u32s(blob, p, ability_count);
    p = p + 4 * ability_count;
    assert(p == sc_end(b, extra));
    if unit_count == 0 {
        return Err(ShipConfigError::NoUnits);
    }
    let hull = units[0];
    Ok((ShipConfig { abilities, hull, modernization, units, signals }, p))
}

// ---------------------------------------------------------------------------
// Commander skills
// ---------------------------------------------------------------------------

/// The bytes of an array whose items are all `u8` values.
pub open spec fn u8_items(v: ArgVal) -> Option<Seq<u8>> {
    match v {
        ArgVal::Array(a) => if forall|k: int| 0 <= k < a@.len() ==> #[trigger] a@[k] is Uint8 {
            Some(a@.map_values(|x: ArgVal| x->Uint8_0))
        } else {
            None
        },
        _ => None,
    }
}

fn u8_list(v: &ArgVal) -> (r: Option<Vec<u8>>)
    ensures
        match u8_items(*v) {
            Some(s) => r matches Some(x) && x@ == s,
            None => r is None,
        },
{
    let a = match v {
        ArgVal::Array(a) => a,
        _ => {
            return None;
        },
    };
    let mut out: Vec<u8> = Vec::new();
    let mut k: usize = 0;
    while k < a.len()
        invariant
            k <= a@.len(),
            *v == ArgVal::Array(*a),
            out@.len() == k,
            forall|j: int| 0 <= j < k ==> #[trigger] a@[j] is Uint8 && out@[j] == a@[j]->Uint8_0,
        decreases a@.len() - k,
    {
        match &a[k] {
            ArgVal::Uint8(x) => out.push(*x),
            _ => {
                assert(!(a@[k as int] is Uint8));
                return None;
            },
        }
        k += 1;
    }
    assert(out@ =~= a@.map_values(|x: ArgVal| x->Uint8_0));
    Some(out)
}

/// The six per-class skill lists of a `learnedSkills` value: an array whose
/// first six items are arrays of `u8`.
pub open spec fn learned_skills_arg(v: ArgVal) -> Option<Seq<Seq<u8>>> {
    match v {
        ArgVal::Array(a) => if a@.len() >= 6 && forall|k: int|
            0 <= k < 6 ==> #[trigger] u8_items(a@[k]) is Some {
            Some(Seq::new(6, |k: int| u8_items(a@[k])->0))
        } else {
            None
        },
        _ => None,
    }
}

#[derive(Debug, Default)]
pub struct CrewModifiersCompactParams {
    params_id: u32,
    is_in_adaption: bool,
    learned_skills: Skills,
}

/// A crew update's arguments are of the kinds that the game sends: a `u32`
/// `paramsId`, a `u8` `isInAdaption` and six arrays of `u8` under
/// `learnedSkills`, each where present.
pub open spec fn crew_args_well_formed(args: Seq<(String, ArgVal)>) -> bool {
    &&& (dict_lookup(args, "paramsId"@) matches Some(v) ==> v is Uint32)
    &&& (dict_lookup(args, "isInAdaption"@) matches Some(v) ==> v is Uint8)
    &&& (dict_lookup(args, "learnedSkills"@) matches Some(v) ==> learned_skills_arg(v) is Some)
}

/// A crew after a well-formed update: each property present is replaced,
/// the others stay.
pub open spec fn crew_updated(
    old: CrewModifiersCompactParams,
    new: CrewModifiersCompactParams,
    args: Seq<(String, ArgVal)>,
) -> bool {
    &&& new.params_id_view() == match dict_lookup(args, "paramsId"@) {
        Some(v) => v->Uint32_0,
        None => old.params_id_view(),
    }
    &&& new.is_in_adaption_view() == match dict_lookup(args, "isInAdaption"@) {
        Some(v) => v->Uint8_0 != 0,
        None => old.is_in_adaption_view(),
    }
    &&& new.learned_skills_view() == match dict_lookup(args, "learnedSkills"@) {
        Some(v) => learned_skills_arg(v)->0,
        None => old.learned_skills_view(),
    }
}

/// A crew with no commander, not in adaption, with no skills.
pub open spec fn crew_fresh(r: CrewModifiersCompactParams) -> bool {
    &&& r.params_id_view() == 0
    &&& !r.is_in_adaption_view()
    &&& r.learned_skills_view().len() == 6
    &&& forall|k: int| 0 <= k < 6 ==> (#[trigger] r.learned_skills_view()[k]).len() == 0
}

impl CrewModifiersCompactParams {
    /// A crew with no commander and no skills.
    pub fn new() -> (r: CrewModifiersCompactParams)
        ensures
            crew_fresh(r),
    {
        CrewModifiersCompactParams { params_id: 0, is_in_adaption: false, learned_skills: Skills::empty() }
    }

    pub closed spec fn params_id_view(&self) -> u32 {
        self.params_id
    }

    pub closed spec fn is_in_adaption_view(&self) -> bool {
        self.is_in_adaption
    }

    pub closed spec fn learned_skills_view(&self) -> Seq<Seq<u8>> {
        skills_lists(self.learned_skills)
    }

    /// The commander's parameters id (0 when there is no commander).
    pub fn params_id(&self) -> (r: u32)
        ensures
            r == self.params_id_view(),
    {
        self.params_id
    }

    pub fn learned_skills(&self) -> (r: &Skills)
        ensures
            skills_lists(*r) == self.learned_skills_view(),
    {
        &self.learned_skills
    }

    /// Applies the crew properties present in `args`; a property of an
    /// unexpected kind rejects the whole update and leaves the crew as it was.
    pub fn update_from_args(&mut self, args: &Vec<(String, ArgVal)>) -> (r: Result<(), ()>)
        ensures
            r is Ok <==> crew_args_well_formed(args@),
            r is Err ==> *final(self) == *old(self),
            r is Ok ==> crew_updated(*old(self), *final(self), args@),
    {
        let params_id = match dict_get(args, "paramsId") {
            Some(ArgVal::Uint32(x)) => Some(*x),
            Some(_) => {
                return Err(());
            },
            None => None,
        };
        let in_adaption = match dict_get(args, "isInAdaption") {
            Some(ArgVal::Uint8(x)) => Some(*x != 0),
            Some(_) => {
                return Err(());
            },
            None => None,
        };
        let skills = match dict_get(args, "learnedSkills") {
            Some(v) => {
                let a = match v {
                    ArgVal::Array(a) => a,
                    _ => {
                        return Err(());
                    },
                };
                if a.len() < 6 {
                    return Err(());
                }
                let aircraft_carrier = match u8_list(&a[0]) {
                    Some(x) => x,
                    None => {
                        return Err(());
                    },
                };
                let battleship = match u8_list(&a[1]) {
                    Some(x) => x,
                    None => {
                        return Err(());
                    },
                };
                let cruiser = match u8_list(&a[2]) {
                    Some(x) => x,
                    None => {
                        return Err(());
                    },
                };
                let destroyer = match u8_list(&a[3]) {
                    Some(x) => x,
                    None => {
                        return Err(());
                    },
                };
                let auxiliary = match u8_list(&a[4]) {
                    Some(x) => x,
                    None => {
                        return Err(());
                    },
                };
                let submarine = match u8_list(&a[5]) {
                    Some(x) => x,
                    None => {
                        return Err(());
                    },
                };
                let s = Skills { aircraft_carrier, battleship, cruiser, destroyer, auxiliary, submarine };
                proof {
                    assert(skills_lists(s) =~= learned_skills_arg(*v)->0);
                }
                Some(s)
            },
            None => None,
        };
        if let Some(x) = params_id {
            self.params_id = x;
        }
        if let Some(x) = in_adaption {
            self.is_in_adaption = x;
        }
        if let Some(s) = skills {
            self.learned_skills = s;
        }
        Ok(())
    }
}

// ---------------------------------------------------------------------------
// Deaths
// ---------------------------------------------------------------------------

/// A ship's destruction, as the battle reports it.
#[derive(Debug, Clone, Copy)]
pub struct Death {
    /// Time since the arena was created.
    pub timestamp: Duration,
    pub killer: EntityId,
    pub victim: EntityId,
    pub cause: DeathCause,
}

/// The deaths of a battle, in the order they were reported.
pub struct KillLog {
    deaths: Vec<Death>,
}

impl KillLog {
    pub closed spec fn view_deaths(&self) -> Seq<Death> {
        self.deaths@
    }

    pub fn new() -> (r: KillLog)
        ensures
            r.view_deaths().len() == 0,
    {
        KillLog { deaths: Vec::new() }
    }

    /// Records a death.
    pub fn record(&mut self, death: Death)
        ensures
            final(self).view_deaths() == old(self).view_deaths().push(death),
    {
        self.deaths.push(death);
    }

    /// Whether a ship has been destroyed.
    pub fn has_died(&self, victim: EntityId) -> (r: bool)
        ensures
            r == exists|k: int|
                0 <= k < self.view_deaths().len() && (#[trigger] self.view_deaths()[k]).victim
                    == victim,
    {
        let mut k: usize = 0;
        while k < self.deaths.len()
            invariant
                k <= self.deaths@.len(),
                forall|j: int| 0 <= j < k ==> (#[trigger] self.deaths@[j]).victim != victim,
            decreases self.deaths@.len() - k,
        {
            if self.deaths[k].victim == victim {
                assert(self.view_deaths()[k as int].victim == victim);
                return true;
            }
            k += 1;
        }
        false
    }

    /// The first recorded death of a ship, if it died.
    pub fn death_of(&self, victim: EntityId) -> (r: Option<Death>)
        ensures
            match r {
                Some(d) => exists|k: int|
                    0 <= k < self.view_deaths().len() && self.view_deaths()[k] == d && d.victim
                        == victim && forall|j: int|
                        0 <= j < k ==> (#[trigger] self.view_deaths()[j]).victim != victim,
                None => forall|k: int|
                    0 <= k < self.view_deaths().len() ==> (#[trigger] self.view_deaths()[k]).victim
                        != victim,
            },
    {
        let mut k: usize = 0;
        while k < self.deaths.len()
            invariant
                k <= self.deaths@.len(),
                forall|j: int| 0 <= j < k ==> (#[trigger] self.deaths@[j]).victim != victim,
            decreases self.deaths@.len() - k,
        {
            if self.deaths[k].victim == victim {
                return Some(self.deaths[k]);
            }
            k += 1;
        }
        None
    }

    /// The ships that a ship destroyed, in order.
    pub fn kills_by(&self, killer: EntityId) -> (r: Vec<Death>)
        ensures
            r@ == self.view_deaths().filter(|d: Death| d.killer == killer),
    {
        let mut out: Vec<Death> = Vec::new();
        let mut k: usize = 0;
        while k < self.deaths.len()
            invariant
                k <= self.deaths@.len(),
                out@ == self.deaths@.subrange(0, k as int).filter(|d: Death| d.killer == killer),
            decreases self.deaths@.len() - k,
        {
            proof {
                assert(self.deaths@.subrange(0, k as int + 1).drop_last() =~= self.deaths@.subrange(
                    0,
                    k as int,
                ));
                reveal(Seq::filter);
            }
            let d = self.deaths[k];
            if d.killer == killer {
                out.push(d);
            }
            k += 1;
        }
        proof {
            assert(self.deaths@.subrange(0, self.deaths@.len() as int) =~= self.deaths@);
        }
        out
    }
}

/// After a death is recorded its victim counts as dead, and it is among the
/// kills of its killer, last.
pub proof fn lemma_record_then_query(log: Seq<Death>, d: Death)
    ensures
        exists|k: int| 0 <= k < log.push(d).len() && (#[trigger] log.push(d)[k]).victim == d.victim,
        log.push(d).filter(|x: Death| x.killer == d.killer) == log.filter(
            |x: Death| x.killer == d.killer,
        ).push(d),
{
    assert(log.push(d)[log.len() as int].victim == d.victim);
    reveal(Seq::filter);
    assert(log.push(d).drop_last() =~= log);
}

} // verus!
