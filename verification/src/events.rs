//! Decoding of entity method calls (`receiveVehicleDeath`, `onRibbon`, ...)
//! into typed events.
use vstd::prelude::*;
use crate::decoder::{
    command_blob_spec, consumable_from_code, consumable_spec, death_cause_from_code,
    death_cause_spec, legacy_voice_line, legacy_voice_line_spec, packed_minimap_spec,
    parse_receive_common_cmd_blob, ribbon_from_code, ribbon_spec, unpack_minimap_update,
    CommandBlobError, Consumable, DeathCause, PackedMinimapUpdate, Ribbon, VoiceLine,
};
use vstd::utf8::{decode_utf8, valid_utf8};
use crate::rpc::{
    string_from_utf8, as_f32_bits, as_i32, as_i8, as_u32, as_u64, as_u8, dict_get, dict_get_i32_or_zero,
    dict_get_u32_or_zero, dict_i32_or_zero, dict_lookup, dict_u32_or_zero, get_f32_bits, get_i32,
    get_i8, get_u32, get_u64, get_u8, str_eq, ArgVal,
};
use crate::players::{
    arena_player_states, arena_players_match, arena_players_ok, damage_stat_entry, decode_damage_stat,
    decode_texts, texts_decoded, unpickle, unpickled, PickleVal, PlayerStateData, StatValue,
};
use crate::types::{AccountId, EntityId, GameParamId, PlaneId};
use crate::version::{at_least, packed_commands_release, uses_packed_commands, GameVersion};

verus! {

/// The entity methods that the decoder knows.
#[derive(Debug, Clone, Copy, PartialEq, Eq, Structural)]
pub enum MethodKind {
    ChatMessage,
    CommonCommand,
    GameRoomStateChanged,
    ArenaStateReceived,
    DamageStat,
    VehicleDeath,
    Ribbon,
    DamagesOnShip,
    CheckGamePing,
    MinimapVisionInfo,
    BattleEnd,
    ConsumableUsed,
    ArtilleryShots,
    Torpedoes,
    ShotKills,
    AddMinimapSquadron,
    RemoveMinimapSquadron,
    UpdateMinimapSquadron,
    SyncGun,
    Other,
}

pub open spec fn method_kind_spec(m: Seq<char>) -> MethodKind {
    if m == "onChatMessage"@ {
        MethodKind::ChatMessage
    } else if m == "receive_CommonCMD"@ {
        MethodKind::CommonCommand
    } else if m == "onGameRoomStateChanged"@ {
        MethodKind::GameRoomStateChanged
    } else if m == "onArenaStateReceived"@ {
        MethodKind::ArenaStateReceived
    } else if m == "receiveDamageStat"@ {
        MethodKind::DamageStat
    } else if m == "receiveVehicleDeath"@ {
        MethodKind::VehicleDeath
    } else if m == "onRibbon"@ {
        MethodKind::Ribbon
    } else if m == "receiveDamagesOnShip"@ {
        MethodKind::DamagesOnShip
    } else if m == "onCheckGamePing"@ {
        MethodKind::CheckGamePing
    } else if m == "updateMinimapVisionInfo"@ {
        MethodKind::MinimapVisionInfo
    } else if m == "onBattleEnd"@ {
        MethodKind::BattleEnd
    } else if m == "consumableUsed"@ {
        MethodKind::ConsumableUsed
    } else if m == "receiveArtilleryShots"@ {
        MethodKind::ArtilleryShots
    } else if m == "receiveTorpedoes"@ {
        MethodKind::Torpedoes
    } else if m == "receiveShotKills"@ {
        MethodKind::ShotKills
    } else if m == "receive_addMinimapSquadron"@ {
        MethodKind::AddMinimapSquadron
    } else if m == "receive_removeMinimapSquadron"@ {
        MethodKind::RemoveMinimapSquadron
    } else if m == "receive_updateMinimapSquadron"@ {
        MethodKind::UpdateMinimapSquadron
    } else if m == "syncGun"@ {
        MethodKind::SyncGun
    } else {
        MethodKind::Other
    }
}

/// Which known method a method name denotes.
pub fn method_kind(method: &str) -> (r: MethodKind)
    ensures
        r == method_kind_spec(method@),
{
    if str_eq(method, "onChatMessage") {
        MethodKind::ChatMessage
    } else if str_eq(method, "receive_CommonCMD") {
        MethodKind::CommonCommand
    } else if str_eq(method, "onGameRoomStateChanged") {
        MethodKind::GameRoomStateChanged
    } else if str_eq(method, "onArenaStateReceived") {
        MethodKind::ArenaStateReceived
    } else if str_eq(method, "receiveDamageStat") {
        MethodKind::DamageStat
    } else if str_eq(method, "receiveVehicleDeath") {
        MethodKind::VehicleDeath
    } else if str_eq(method, "onRibbon") {
        MethodKind::Ribbon
    } else if str_eq(method, "receiveDamagesOnShip") {
        MethodKind::DamagesOnShip
    } else if str_eq(method, "onCheckGamePing") {
        MethodKind::CheckGamePing
    } else if str_eq(method, "updateMinimapVisionInfo") {
        MethodKind::MinimapVisionInfo
    } else if str_eq(method, "onBattleEnd") {
        MethodKind::BattleEnd
    } else if str_eq(method, "consumableUsed") {
        MethodKind::ConsumableUsed
    } else if str_eq(method, "receiveArtilleryShots") {
        MethodKind::ArtilleryShots
    } else if str_eq(method, "receiveTorpedoes") {
        MethodKind::Torpedoes
    } else if str_eq(method, "receiveShotKills") {
        MethodKind::ShotKills
    } else if str_eq(method, "receive_addMinimapSquadron") {
        MethodKind::AddMinimapSquadron
    } else if str_eq(method, "receive_removeMinimapSquadron") {
        MethodKind::RemoveMinimapSquadron
    } else if str_eq(method, "receive_updateMinimapSquadron") {
        MethodKind::UpdateMinimapSquadron
    } else if str_eq(method, "syncGun") {
        MethodKind::SyncGun
    } else {
        MethodKind::Other
    }
}

/// Indicates that the given attacker has dealt damage.
#[derive(Debug, Clone, Copy, PartialEq, Eq, Structural)]
pub struct DamageReceived {
    /// Ship ID of the aggressor
    pub aggressor: EntityId,
    /// Bit pattern of the `f32` amount of damage dealt
    pub damage: u32,
}

/// Sent to update the minimap display.
#[derive(Debug, Clone, Copy, PartialEq, Eq, Structural)]
pub struct MinimapUpdate {
    /// The ship ID of the ship to update
    pub entity_id: EntityId,
    /// The packed position, heading and flags
    pub packed: PackedMinimapUpdate,
}

/// A single projectile hit (from `receiveShotKills`).
#[derive(Debug, Clone, Copy, PartialEq, Eq, Structural)]
pub struct ShotHit {
    pub owner_id: EntityId,
    pub shot_id: u32,
}

/// Bit patterns of the three `f32` components of a vector.
#[derive(Debug, Clone, Copy, PartialEq, Eq, Structural)]
pub struct Vec3Bits {
    pub x: u32,
    pub y: u32,
    pub z: u32,
}

/// A single shell in an artillery salvo.
#[derive(Debug, Clone, Copy, PartialEq, Eq, Structural)]
pub struct ArtilleryShotData {
    pub origin: Vec3Bits,
    pub target: Vec3Bits,
    pub shot_id: u32,
    pub speed: u32,
}

/// A salvo of artillery shells from one ship.
#[derive(Debug)]
pub struct ArtillerySalvo {
    pub owner_id: EntityId,
    pub params_id: GameParamId,
    pub salvo_id: u32,
    pub shots: Vec<ArtilleryShotData>,
}

/// A single torpedo launch.
#[derive(Debug, Clone, Copy, PartialEq, Eq, Structural)]
pub struct TorpedoData {
    pub owner_id: EntityId,
    pub params_id: GameParamId,
    pub salvo_id: u32,
    pub shot_id: u32,
    pub origin: Vec3Bits,
    pub direction: Vec3Bits,
}

/// A value that the audit mode reports instead of decoding it.
#[derive(Debug, Clone, Copy, PartialEq, Eq, Structural)]
pub enum AuditNote {
    UnknownDeathCause { victim: i32, killer: i32, cause: u32 },
    UnknownRibbon(i8),
    UnknownConsumable { entity: EntityId, consumable: i8, duration: u32 },
}

/// Why a method call could not be decoded: its arguments are not of the
/// kinds that the method passes.
#[derive(Debug, Clone, Copy, PartialEq, Eq, Structural)]
pub enum DecodeError {
    Malformed,
    CommandBlob(CommandBlobError),
}

/// The extra data that a system chat message carries.
#[derive(Debug, PartialEq, Eq)]
pub struct ChatMessageExtra {
    pub pre_battle_sign: i64,
    pub pre_battle_id: i64,
    pub player_clan_tag: String,
    pub typ: i64,
    pub player_avatar_id: AccountId,
    pub player_name: String,
}

/// A decoded entity method call. Floating-point values are bit patterns.
#[allow(inconsistent_fields)]
#[derive(Debug)]
pub enum MethodEvent {
    Chat {
        entity_id: EntityId,
        sender_id: AccountId,
        audience: String,
        message: String,
        /// The extra data of a system message.
        extra: Option<ChatMessageExtra>,
    },
    VoiceLine { sender_id: AccountId, is_global: bool, message: VoiceLine },
    ShipDestroyed { victim: EntityId, killer: EntityId, cause: DeathCause },
    Ribbon(Ribbon),
    DamageReceived { victim: EntityId, aggressors: Vec<DamageReceived> },
    CheckPing(u64),
    MinimapUpdate { updates: Vec<MinimapUpdate> },
    BattleEnd { winning_team: Option<i8>, state: Option<u8> },
    Consumable { entity: EntityId, consumable: Consumable, duration: u32 },
    ShotKills { entity_id: EntityId, hits: Vec<ShotHit> },
    ArtilleryShots { entity_id: EntityId, salvos: Vec<ArtillerySalvo> },
    TorpedoesReceived { entity_id: EntityId, torpedoes: Vec<TorpedoData> },
    PlaneAdded {
        entity_id: EntityId,
        plane_id: PlaneId,
        team_id: u32,
        params_id: GameParamId,
        x: u32,
        y: u32,
    },
    PlaneRemoved { entity_id: EntityId, plane_id: PlaneId },
    PlanePosition { entity_id: EntityId, plane_id: PlaneId, x: u32, y: u32 },
    GunSync { entity_id: EntityId, group: u32, turret: u32, yaw: u32, pitch: u32 },
    Audit(AuditNote),
    /// The arena's id, its team build type and its players' states.
    ArenaState { arena_id: i64, team_build_type_id: i8, players: Vec<PlayerStateData> },
    /// The pickled states of the players of a game room state change.
    GameRoomState { player_states: Vec<PickleVal> },
    /// The entries of a damage statistics dictionary, in its order.
    DamageStat(Vec<((i64, i64), (i64, StatValue))>),
    /// The call is passed on as it is.
    Undecoded,
}

// ---------------------------------------------------------------------------
// Calls with fixed argument lists
// ---------------------------------------------------------------------------

/// `receiveVehicleDeath(victim: i32, killer: i32, cause: u32)`.
pub open spec fn vehicle_death_spec(audit: bool, args: Seq<ArgVal>) -> Result<MethodEvent, DecodeError> {
    if args.len() < 3 {
        Err(DecodeError::Malformed)
    } else {
        match (as_i32(args[0]), as_i32(args[1]), as_u32(args[2])) {
            (Some(victim), Some(killer), Some(code)) => match death_cause_spec(code) {
                Some(cause) => Ok(
                    MethodEvent::ShipDestroyed {
                        victim: EntityId(victim as u32),
                        killer: EntityId(killer as u32),
                        cause,
                    },
                ),
                None => if audit {
                    Ok(MethodEvent::Audit(AuditNote::UnknownDeathCause { victim, killer, cause: code }))
                } else {
                    Ok(
                        MethodEvent::ShipDestroyed {
                            victim: EntityId(victim as u32),
                            killer: EntityId(killer as u32),
                            cause: DeathCause::Unknown(code),
                        },
                    )
                },
            },
            _ => Err(DecodeError::Malformed),
        }
    }
}

pub fn decode_vehicle_death(audit: bool, args: &Vec<ArgVal>) -> (r: Result<MethodEvent, DecodeError>)
    ensures
        r == vehicle_death_spec(audit, args@),
{
    if args.len() < 3 {
        return Err(DecodeError::Malformed);
    }
    match (get_i32(&args[0]), get_i32(&args[1]), get_u32(&args[2])) {
        (Some(victim), Some(killer), Some(code)) => match death_cause_from_code(code) {
            Some(cause) => Ok(
                MethodEvent::ShipDestroyed {
                    victim: EntityId(victim as u32),
                    killer: EntityId(killer as u32),
                    cause,
                },
            ),
            None => if audit {
                Ok(MethodEvent::Audit(AuditNote::UnknownDeathCause { victim, killer, cause: code }))
            } else {
                Ok(
                    MethodEvent::ShipDestroyed {
                        victim: EntityId(victim as u32),
                        killer: EntityId(killer as u32),
                        cause: DeathCause::Unknown(code),
                    },
                )
            },
        },
        _ => Err(DecodeError::Malformed),
    }
}

/// `onRibbon(ribbon: i8)`.
pub open spec fn ribbon_event_spec(audit: bool, args: Seq<ArgVal>) -> Result<MethodEvent, DecodeError> {
    if args.len() < 1 {
        Err(DecodeError::Malformed)
    } else {
        match as_i8(args[0]) {
            Some(code) => match ribbon_spec(code) {
                Some(ribbon) => Ok(MethodEvent::Ribbon(ribbon)),
                None => if audit {
                    Ok(MethodEvent::Audit(AuditNote::UnknownRibbon(code)))
                } else {
                    Ok(MethodEvent::Ribbon(Ribbon::Unknown(code)))
                },
            },
            None => Err(DecodeError::Malformed),
        }
    }
}

pub fn decode_ribbon(audit: bool, args: &Vec<ArgVal>) -> (r: Result<MethodEvent, DecodeError>)
    ensures
        r == ribbon_event_spec(audit, args@),
{
    if args.len() < 1 {
        return Err(DecodeError::Malformed);
    }
    match get_i8(&args[0]) {
        Some(code) => match ribbon_from_code(code) {
            Some(ribbon) => Ok(MethodEvent::Ribbon(ribbon)),
            None => if audit {
                Ok(MethodEvent::Audit(AuditNote::UnknownRibbon(code)))
            } else {
                Ok(MethodEvent::Ribbon(Ribbon::Unknown(code)))
            },
        },
        None => Err(DecodeError::Malformed),
    }
}

/// `consumableUsed(consumable: i8, duration: f32)`.
pub open spec fn consumable_event_spec(
    audit: bool,
    entity: EntityId,
    args: Seq<ArgVal>,
) -> Result<MethodEvent, DecodeError> {
    if args.len() < 2 {
        Err(DecodeError::Malformed)
    } else {
        match (as_i8(args[0]), as_f32_bits(args[1])) {
            (Some(code), Some(duration)) => match consumable_spec(code) {
                Some(consumable) => Ok(MethodEvent::Consumable { entity, consumable, duration }),
                None => if audit {
                    Ok(
                        MethodEvent::Audit(
                            AuditNote::UnknownConsumable { entity, consumable: code, duration },
                        ),
                    )
                } else {
                    Ok(
                        MethodEvent::Consumable {
                            entity,
                            consumable: Consumable::Unknown(code),
                            duration,
                        },
                    )
                },
            },
            _ => Err(DecodeError::Malformed),
        }
    }
}

pub fn decode_consumable(audit: bool, entity: EntityId, args: &Vec<ArgVal>) -> (r: Result<
    MethodEvent,
    DecodeError,
>)
    ensures
        r == consumable_event_spec(audit, entity, args@),
{
    if args.len() < 2 {
        return Err(DecodeError::Malformed);
    }
    match (get_i8(&args[0]), get_f32_bits(&args[1])) {
        (Some(code), Some(duration)) => match consumable_from_code(code) {
            Some(consumable) => Ok(MethodEvent::Consumable { entity, consumable, duration }),
            None => if audit {
                Ok(
                    MethodEvent::Audit(
                        AuditNote::UnknownConsumable { entity, consumable: code, duration },
                    ),
                )
            } else {
                Ok(MethodEvent::Consumable { entity, consumable: Consumable::Unknown(code), duration })
            },
        },
        _ => Err(DecodeError::Malformed),
    }
}

/// `onCheckGamePing(ping: u64)`.
pub open spec fn ping_event_spec(args: Seq<ArgVal>) -> Result<MethodEvent, DecodeError> {
    if args.len() < 1 {
        Err(DecodeError::Malformed)
    } else {
        match as_u64(args[0]) {
            Some(p) => Ok(MethodEvent::CheckPing(p)),
            None => Err(DecodeError::Malformed),
        }
    }
}

pub fn decode_ping(args: &Vec<ArgVal>) -> (r: Result<MethodEvent, DecodeError>)
    ensures
        r == ping_event_spec(args@),
{
    if args.len() < 1 {
        return Err(DecodeError::Malformed);
    }
    match get_u64(&args[0]) {
        Some(p) => Ok(MethodEvent::CheckPing(p)),
        None => Err(DecodeError::Malformed),
    }
}

/// `onBattleEnd`: no arguments from 0.12.8 on, `(winning_team: i8, state: u8)`
/// before.
pub open spec fn battle_end_spec(packed: bool, args: Seq<ArgVal>) -> Result<MethodEvent, DecodeError> {
    if packed {
        Ok(MethodEvent::BattleEnd { winning_team: None, state: None })
    } else if args.len() < 2 {
        Err(DecodeError::Malformed)
    } else {
        match (as_i8(args[0]), as_u8(args[1])) {
            (Some(team), Some(state)) => Ok(
                MethodEvent::BattleEnd { winning_team: Some(team), state: Some(state) },
            ),
            _ => Err(DecodeError::Malformed),
        }
    }
}

pub fn decode_battle_end(packed: bool, args: &Vec<ArgVal>) -> (r: Result<MethodEvent, DecodeError>)
    ensures
        r == battle_end_spec(packed, args@),
{
    if packed {
        return Ok(MethodEvent::BattleEnd { winning_team: None, state: None });
    }
    if args.len() < 2 {
        return Err(DecodeError::Malformed);
    }
    match (get_i8(&args[0]), get_u8(&args[1])) {
        (Some(team), Some(state)) => Ok(
            MethodEvent::BattleEnd { winning_team: Some(team), state: Some(state) },
        ),
        _ => Err(DecodeError::Malformed),
    }
}

/// `receive_CommonCMD`: from 0.12.8 on `(sender: i32, blob)`, before that
/// `(audience: u8, sender: i32, line: u8, a: u32, b: u64)`.
pub open spec fn common_command_spec(packed: bool, args: Seq<ArgVal>) -> Result<MethodEvent, DecodeError> {
    if packed {
        if args.len() < 2 {
            Err(DecodeError::Malformed)
        } else {
            match (as_i32(args[0]), args[1]) {
                (Some(sender), ArgVal::Blob(blob)) => match command_blob_spec(blob@) {
                    Ok((message, is_global, _)) => Ok(
                        MethodEvent::VoiceLine {
                            sender_id: AccountId(sender as u64),
                            is_global,
                            message,
                        },
                    ),
                    Err(e) => Err(DecodeError::CommandBlob(e)),
                },
                _ => Err(DecodeError::Malformed),
            }
        }
    } else if args.len() < 5 {
        Err(DecodeError::Malformed)
    } else {
        match (
            as_u8(args[0]),
            as_i32(args[1]),
            as_u8(args[2]),
            as_u32(args[3]),
            as_u64(args[4]),
        ) {
            (Some(audience), Some(sender), Some(line), Some(a), Some(b)) => if audience > 1 {
                Err(DecodeError::Malformed)
            } else {
                match legacy_voice_line_spec(line, a, b) {
                    Some(message) => Ok(
                        MethodEvent::VoiceLine {
                            sender_id: AccountId(sender as u64),
                            is_global: audience == 1,
                            message,
                        },
                    ),
                    None => Err(DecodeError::Malformed),
                }
            },
            _ => Err(DecodeError::Malformed),
        }
    }
}

pub fn decode_common_command(packed: bool, args: &Vec<ArgVal>) -> (r: Result<
    MethodEvent,
    DecodeError,
>)
    ensures
        r == common_command_spec(packed, args@),
{
    if packed {
        if args.len() < 2 {
            return Err(DecodeError::Malformed);
        }
        match (get_i32(&args[0]), &args[1]) {
            (Some(sender), ArgVal::Blob(blob)) => match parse_receive_common_cmd_blob(
                blob.as_slice(),
            ) {
                Ok((message, is_global, _)) => Ok(
                    MethodEvent::VoiceLine {
                        sender_id: AccountId(sender as u64),
                        is_global,
                        message,
                    },
                ),
                Err(e) => Err(DecodeError::CommandBlob(e)),
            },
            _ => Err(DecodeError::Malformed),
        }
    } else {
        if args.len() < 5 {
            return Err(DecodeError::Malformed);
        }
        match (
            get_u8(&args[0]),
            get_i32(&args[1]),
            get_u8(&args[2]),
            get_u32(&args[3]),
            get_u64(&args[4]),
        ) {
            (Some(audience), Some(sender), Some(line), Some(a), Some(b)) => {
                if audience > 1 {
                    return Err(DecodeError::Malformed);
                }
                match legacy_voice_line(line, a, b) {
                    Some(message) => Ok(
                        MethodEvent::VoiceLine {
                            sender_id: AccountId(sender as u64),
                            is_global: audience == 1,
                            message,
                        },
                    ),
                    None => Err(DecodeError::Malformed),
                }
            },
            _ => Err(DecodeError::Malformed),
        }
    }
}

// ---------------------------------------------------------------------------
// Calls that carry lists
// ---------------------------------------------------------------------------

/// The items of an array value.
pub open spec fn array_items(v: ArgVal) -> Option<Seq<ArgVal>> {
    match v {
        ArgVal::Array(a) => Some(a@),
        _ => None,
    }
}

/// One entry of `receiveDamagesOnShip`: a dictionary with an `i32`
/// `vehicleID` and an `f32` `damage`.
pub open spec fn damage_entry_spec(v: ArgVal) -> Option<DamageReceived> {
    match v {
        ArgVal::FixedDict(d) => match (dict_lookup(d@, "vehicleID"@), dict_lookup(d@, "damage"@)) {
            (Some(ArgVal::Int32(a)), Some(ArgVal::Float32(f))) => Some(
                DamageReceived { aggressor: EntityId(a as u32), damage: f },
            ),
            _ => None,
        },
        _ => None,
    }
}

/// The damage entries of `receiveDamagesOnShip`, all well formed.
pub open spec fn damages_decoded(args: Seq<ArgVal>, out: Seq<DamageReceived>) -> bool {
    &&& args.len() >= 1
    &&& array_items(args[0]) matches Some(items)
    &&& out.len() == items.len()
    &&& forall|k: int| 0 <= k < items.len() ==> damage_entry_spec(#[trigger] items[k]) == Some(out[k])
}

/// `receiveDamagesOnShip` is malformed: no array, or an entry that is not a
/// dictionary with an `i32` `vehicleID` and an `f32` `damage`.
pub open spec fn damages_malformed(args: Seq<ArgVal>) -> bool {
    args.len() < 1 || match array_items(args[0]) {
        Some(items) => exists|k: int| 0 <= k < items.len() && damage_entry_spec(#[trigger] items[k]) is None,
        None => true,
    }
}

fn damage_entry(v: &ArgVal) -> (r: Option<DamageReceived>)
    ensures
        r == damage_entry_spec(*v),
{
    match v {
        ArgVal::FixedDict(d) => match (dict_get(d, "vehicleID"), dict_get(d, "damage")) {
            (Some(ArgVal::Int32(a)), Some(ArgVal::Float32(f))) => Some(
                DamageReceived { aggressor: EntityId(*a as u32), damage: *f },
            ),
            _ => None,
        },
        _ => None,
    }
}

pub fn decode_damages_on_ship(victim: EntityId, args: &Vec<ArgVal>) -> (r: Result<
    MethodEvent,
    DecodeError,
>)
    ensures
        match r {
            Ok(MethodEvent::DamageReceived { victim: v, aggressors }) => v == victim
                && damages_decoded(args@, aggressors@),
            Err(DecodeError::Malformed) => damages_malformed(args@),
            _ => false,
        },
{
    if args.len() < 1 {
        return Err(DecodeError::Malformed);
    }
    let items = match &args[0] {
        ArgVal::Array(a) => a,
        _ => {
            return Err(DecodeError::Malformed);
        },
    };
    let mut out: Vec<DamageReceived> = Vec::new();
    let mut k: usize = 0;
    while k < items.len()
        invariant
            k <= items@.len(),
            args@.len() >= 1,
            array_items(args@[0]) == Some(items@),
            out@.len() == k,
            forall|j: int| 0 <= j < k ==> damage_entry_spec(#[trigger] items@[j]) == Some(out@[j]),
        decreases items@.len() - k,
    {
        match damage_entry(&items[k]) {
            Some(e) => out.push(e),
            None => {
                assert(array_items(args@[0]) == Some(items@));
                assert(damage_entry_spec(items@[k as int]) is None);
                return Err(DecodeError::Malformed);
            },
        }
        k += 1;
    }
    Ok(MethodEvent::DamageReceived { victim, aggressors: out })
}

/// One entry of `updateMinimapVisionInfo`: a dictionary with a `u32`
/// `vehicleID` and a `u32` `packedData`.
pub open spec fn minimap_entry_spec(v: ArgVal) -> Option<MinimapUpdate> {
    match v {
        ArgVal::FixedDict(d) => match (dict_lookup(d@, "vehicleID"@), dict_lookup(d@, "packedData"@)) {
            (Some(ArgVal::Uint32(id)), Some(ArgVal::Uint32(packed))) => Some(
                MinimapUpdate { entity_id: EntityId(id), packed: packed_minimap_spec(packed) },
            ),
            _ => None,
        },
        _ => None,
    }
}

/// The updates of `updateMinimapVisionInfo`, all well formed, with an array
/// as second argument.
pub open spec fn minimap_decoded(args: Seq<ArgVal>, out: Seq<MinimapUpdate>) -> bool {
    &&& args.len() >= 2
    &&& array_items(args[0]) matches Some(items)
    &&& array_items(args[1]) is Some
    &&& out.len() == items.len()
    &&& forall|k: int| 0 <= k < items.len() ==> minimap_entry_spec(#[trigger] items[k]) == Some(out[k])
}

pub open spec fn minimap_malformed(args: Seq<ArgVal>) -> bool {
    args.len() < 1 || match array_items(args[0]) {
        Some(items) => (exists|k: int| 0 <= k < items.len() && minimap_entry_spec(#[trigger] items[k]) is None)
            || args.len() < 2 || array_items(args[1]) is None,
        None => true,
    }
}

fn minimap_entry(v: &ArgVal) -> (r: Option<MinimapUpdate>)
    ensures
        r == minimap_entry_spec(*v),
{
    match v {
        ArgVal::FixedDict(d) => match (dict_get(d, "vehicleID"), dict_get(d, "packedData")) {
            (Some(ArgVal::Uint32(id)), Some(ArgVal::Uint32(packed))) => Some(
                MinimapUpdate { entity_id: EntityId(*id), packed: unpack_minimap_update(*packed) },
            ),
            _ => None,
        },
        _ => None,
    }
}

pub fn decode_minimap_vision(args: &Vec<ArgVal>) -> (r: Result<MethodEvent, DecodeError>)
    ensures
        match r {
            Ok(MethodEvent::MinimapUpdate { updates }) => minimap_decoded(args@, updates@),
            Err(DecodeError::Malformed) => minimap_malformed(args@),
            _ => false,
        },
{
    if args.len() < 1 {
        return Err(DecodeError::Malformed);
    }
    let items = match &args[0] {
        ArgVal::Array(a) => a,
        _ => {
            return Err(DecodeError::Malformed);
        },
    };
    let mut out: Vec<MinimapUpdate> = Vec::new();
    let mut k: usize = 0;
    while k < items.len()
        invariant
            k <= items@.len(),
            args@.len() >= 1,
            array_items(args@[0]) == Some(items@),
            out@.len() == k,
            forall|j: int| 0 <= j < k ==> minimap_entry_spec(#[trigger] items@[j]) == Some(out@[j]),
        decreases items@.len() - k,
    {
        match minimap_entry(&items[k]) {
            Some(e) => out.push(e),
            None => {
                assert(array_items(args@[0]) == Some(items@));
                assert(minimap_entry_spec(items@[k as int]) is None);
                return Err(DecodeError::Malformed);
            },
        }
        k += 1;
    }
    if args.len() < 2 {
        return Err(DecodeError::Malformed);
    }
    match &args[1] {
        ArgVal::Array(_) => Ok(MethodEvent::MinimapUpdate { updates: out }),
        _ => Err(DecodeError::Malformed),
    }
}

/// The hits of the kills of one `receiveShotKills` pack: each kill that is a
/// dictionary gives a hit (`shotID`, 0 when missing); others are skipped.
pub open spec fn kills_of(kills: Seq<ArgVal>, owner: EntityId) -> Seq<ShotHit>
    decreases kills.len(),
{
    if kills.len() == 0 {
        seq![]
    } else {
        let rest = kills_of(kills.drop_last(), owner);
        match kills.last() {
            ArgVal::FixedDict(d) => rest.push(
                ShotHit { owner_id: owner, shot_id: dict_u32_or_zero(d@, "shotID"@) },
            ),
            _ => rest,
        }
    }
}

/// The hits of one pack: a dictionary with an `ownerID` (0 when missing) and
/// an array of `kills`; any other pack gives none.
pub open spec fn pack_hits(pack: ArgVal) -> Seq<ShotHit> {
    match pack {
        ArgVal::FixedDict(d) => match dict_lookup(d@, "kills"@) {
            Some(ArgVal::Array(kills)) => kills_of(
                kills@,
                EntityId(dict_i32_or_zero(d@, "ownerID"@) as u32),
            ),
            _ => seq![],
        },
        _ => seq![],
    }
}

/// All hits of the packs of `receiveShotKills`, in order.
pub open spec fn shot_hits(packs: Seq<ArgVal>) -> Seq<ShotHit>
    decreases packs.len(),
{
    if packs.len() == 0 {
        seq![]
    } else {
        shot_hits(packs.drop_last()) + pack_hits(packs.last())
    }
}

fn hits_of_pack(pack: &ArgVal, out: &mut Vec<ShotHit>)
    ensures
        final(out)@ == old(out)@ + pack_hits(*pack),
{
    let d = match pack {
        ArgVal::FixedDict(d) => d,
        _ => {
            assert(old(out)@ + pack_hits(*pack) =~= old(out)@);
            return;
        },
    };
    let kills = match dict_get(d, "kills") {
        Some(ArgVal::Array(kills)) => kills,
        _ => {
            assert(old(out)@ + pack_hits(*pack) =~= old(out)@);
            return;
        },
    };
    let owner = EntityId(dict_get_i32_or_zero(d, "ownerID") as u32);
    let ghost start = out@;
    let mut k: usize = 0;
    while k < kills.len()
        invariant
            k <= kills@.len(),
            out@ == start + kills_of(kills@.subrange(0, k as int), owner),
        decreases kills@.len() - k,
    {
        proof {
            assert(kills@.subrange(0, k as int + 1).drop_last() =~= kills@.subrange(0, k as int));
        }
        match &kills[k] {
            ArgVal::FixedDict(kd) => {
                let shot_id = dict_get_u32_or_zero(kd, "shotID");
                out.push(ShotHit { owner_id: owner, shot_id });
            },
            _ => {},
        }
        k += 1;
    }
    assert(kills@.subrange(0, kills@.len() as int) =~= kills@);
}

/// `receiveShotKills(packs)`; a first argument that is not an array leaves
/// the call undecoded.
pub open spec fn shot_kills_decoded(entity_id: EntityId, args: Seq<ArgVal>, r: Result<MethodEvent, DecodeError>) -> bool {
    if args.len() < 1 {
        r == Err::<MethodEvent, DecodeError>(DecodeError::Malformed)
    } else {
        match array_items(args[0]) {
            Some(packs) => match r {
                Ok(MethodEvent::ShotKills { entity_id: e, hits }) => e == entity_id && hits@
                    == shot_hits(packs),
                _ => false,
            },
            None => r matches Ok(MethodEvent::Undecoded),
        }
    }
}

pub fn decode_shot_kills(entity_id: EntityId, args: &Vec<ArgVal>) -> (r: Result<
    MethodEvent,
    DecodeError,
>)
    ensures
        shot_kills_decoded(entity_id, args@, r),
{
    if args.len() < 1 {
        return Err(DecodeError::Malformed);
    }
    let packs = match &args[0] {
        ArgVal::Array(a) => a,
        _ => {
            return Ok(MethodEvent::Undecoded);
        },
    };
    let mut hits: Vec<ShotHit> = Vec::new();
    let mut k: usize = 0;
    while k < packs.len()
        invariant
            k <= packs@.len(),
            hits@ == shot_hits(packs@.subrange(0, k as int)),
        decreases packs@.len() - k,
    {
        proof {
            assert(packs@.subrange(0, k as int + 1).drop_last() =~= packs@.subrange(0, k as int));
        }
        hits_of_pack(&packs[k], &mut hits);
        k += 1;
    }
    assert(packs@.subrange(0, packs@.len() as int) =~= packs@);
    Ok(MethodEvent::ShotKills { entity_id, hits })
}

// ---------------------------------------------------------------------------
// Minimap squadrons and guns
// ---------------------------------------------------------------------------

/// A plane id passed as any 32- or 64-bit integer.
pub open spec fn plane_id_arg(v: ArgVal) -> Option<PlaneId> {
    match v {
        ArgVal::Uint64(x) => Some(PlaneId(x)),
        ArgVal::Int64(x) => Some(PlaneId(x as u64)),
        ArgVal::Uint32(x) => Some(PlaneId(x as u64)),
        ArgVal::Int32(x) => Some(PlaneId(x as u64)),
        _ => None,
    }
}

/// A team id passed as any integer, taken modulo 2^32.
pub open spec fn team_id_arg(v: ArgVal) -> Option<u32> {
    match v {
        ArgVal::Uint32(x) => Some(x),
        ArgVal::Int32(x) => Some(x as u32),
        ArgVal::Uint64(x) => Some(x as u32),
        ArgVal::Int64(x) => Some(x as u32),
        ArgVal::Uint8(x) => Some(x as u32),
        ArgVal::Int8(x) => Some(x as u32),
        _ => None,
    }
}

/// A game parameter id passed as any 32- or 64-bit integer.
pub open spec fn params_id_arg(v: ArgVal) -> Option<u64> {
    match v {
        ArgVal::Uint64(x) => Some(x),
        ArgVal::Int64(x) => Some(x as u64),
        ArgVal::Uint32(x) => Some(x as u64),
        ArgVal::Int32(x) => Some(x as u64),
        _ => None,
    }
}

/// The `f32` bit pattern of a value, 0 (the pattern of 0.0) for any other kind.
pub open spec fn f32_bits_or_zero(v: ArgVal) -> u32 {
    match v {
        ArgVal::Float32(x) => x,
        _ => 0,
    }
}

/// A minimap position: an array of at least two floats (0.0 for an item of
/// another kind) or a two-component vector.
pub open spec fn position_arg(v: ArgVal) -> Option<(u32, u32)> {
    match v {
        ArgVal::Array(a) => if a@.len() >= 2 {
            Some((f32_bits_or_zero(a@[0]), f32_bits_or_zero(a@[1])))
        } else {
            None
        },
        ArgVal::Vector2(x, y) => Some((x, y)),
        _ => None,
    }
}

fn plane_id_of(v: &ArgVal) -> (r: Option<PlaneId>)
    ensures
        r == plane_id_arg(*v),
{
    match v {
        ArgVal::Uint64(x) => Some(PlaneId(*x)),
        ArgVal::Int64(x) => Some(PlaneId(*x as u64)),
        ArgVal::Uint32(x) => Some(PlaneId(*x as u64)),
        ArgVal::Int32(x) => Some(PlaneId(*x as i64 as u64)),
        _ => None,
    }
}

fn team_id_of(v: &ArgVal) -> (r: Option<u32>)
    ensures
        r == team_id_arg(*v),
{
    match v {
        ArgVal::Uint32(x) => Some(*x),
        ArgVal::Int32(x) => Some(*x as u32),
        ArgVal::Uint64(x) => Some(*x as u32),
        ArgVal::Int64(x) => Some(*x as u32),
        ArgVal::Uint8(x) => Some(*x as u32),
        ArgVal::Int8(x) => Some(*x as u32),
        _ => None,
    }
}

fn params_id_of(v: &ArgVal) -> (r: Option<u64>)
    ensures
        r == params_id_arg(*v),
{
    match v {
        ArgVal::Uint64(x) => Some(*x),
        ArgVal::Int64(x) => Some(*x as u64),
        ArgVal::Uint32(x) => Some(*x as u64),
        ArgVal::Int32(x) => Some(*x as u64),
        _ => None,
    }
}

fn f32_bits_of(v: &ArgVal) -> (r: u32)
    ensures
        r == f32_bits_or_zero(*v),
{
    match v {
        ArgVal::Float32(x) => *x,
        _ => 0,
    }
}

fn position_of(v: &ArgVal) -> (r: Option<(u32, u32)>)
    ensures
        r == position_arg(*v),
{
    match v {
        ArgVal::Array(a) => if a.len() >= 2 {
            Some((f32_bits_of(&a[0]), f32_bits_of(&a[1])))
        } else {
            None
        },
        ArgVal::Vector2(x, y) => Some((*x, *y)),
        _ => None,
    }
}

/// `receive_addMinimapSquadron(plane_id, team_id, params_id, position, _)`:
/// an argument of an unexpected kind leaves the call undecoded.
pub open spec fn squadron_added_spec(entity_id: EntityId, args: Seq<ArgVal>) -> Result<MethodEvent, DecodeError> {
    if args.len() < 1 {
        Err(DecodeError::Malformed)
    } else {
        match plane_id_arg(args[0]) {
            None => Ok(MethodEvent::Undecoded),
            Some(plane_id) => if args.len() < 2 {
                Err(DecodeError::Malformed)
            } else {
                match team_id_arg(args[1]) {
                    None => Ok(MethodEvent::Undecoded),
                    Some(team_id) => if args.len() < 3 {
                        Err(DecodeError::Malformed)
                    } else {
                        match params_id_arg(args[2]) {
                            None => Ok(MethodEvent::Undecoded),
                            Some(params) => if args.len() < 4 {
                                Err(DecodeError::Malformed)
                            } else {
                                match position_arg(args[3]) {
                                    None => Ok(MethodEvent::Undecoded),
                                    Some((x, y)) => Ok(
                                        MethodEvent::PlaneAdded {
                                            entity_id,
                                            plane_id,
                                            team_id,
                                            params_id: GameParamId(params as u32),
                                            x,
                                            y,
                                        },
                                    ),
                                }
                            },
                        }
                    },
                }
            },
        }
    }
}

pub fn decode_squadron_added(entity_id: EntityId, args: &Vec<ArgVal>) -> (r: Result<
    MethodEvent,
    DecodeError,
>)
    ensures
        r == squadron_added_spec(entity_id, args@),
{
    if args.len() < 1 {
        return Err(DecodeError::Malformed);
    }
    let plane_id = match plane_id_of(&args[0]) {
        Some(p) => p,
        None => {
            return Ok(MethodEvent::Undecoded);
        },
    };
    if args.len() < 2 {
        return Err(DecodeError::Malformed);
    }
    let team_id = match team_id_of(&args[1]) {
        Some(t) => t,
        None => {
            return Ok(MethodEvent::Undecoded);
        },
    };
    if args.len() < 3 {
        return Err(DecodeError::Malformed);
    }
    let params = match params_id_of(&args[2]) {
        Some(p) => p,
        None => {
            return Ok(MethodEvent::Undecoded);
        },
    };
    if args.len() < 4 {
        return Err(DecodeError::Malformed);
    }
    match position_of(&args[3]) {
        None => Ok(MethodEvent::Undecoded),
        Some((x, y)) => Ok(
            MethodEvent::PlaneAdded {
                entity_id,
                plane_id,
                team_id,
                params_id: GameParamId(params as u32),
                x,
                y,
            },
        ),
    }
}

/// `receive_removeMinimapSquadron(plane_id)`.
pub open spec fn squadron_removed_spec(entity_id: EntityId, args: Seq<ArgVal>) -> Result<MethodEvent, DecodeError> {
    if args.len() < 1 {
        Err(DecodeError::Malformed)
    } else {
        match plane_id_arg(args[0]) {
            None => Ok(MethodEvent::Undecoded),
            Some(plane_id) => Ok(MethodEvent::PlaneRemoved { entity_id, plane_id }),
        }
    }
}

pub fn decode_squadron_removed(entity_id: EntityId, args: &Vec<ArgVal>) -> (r: Result<
    MethodEvent,
    DecodeError,
>)
    ensures
        r == squadron_removed_spec(entity_id, args@),
{
    if args.len() < 1 {
        return Err(DecodeError::Malformed);
    }
    match plane_id_of(&args[0]) {
        None => Ok(MethodEvent::Undecoded),
        Some(plane_id) => Ok(MethodEvent::PlaneRemoved { entity_id, plane_id }),
    }
}

/// `receive_updateMinimapSquadron(plane_id, position)`.
pub open spec fn squadron_moved_spec(entity_id: EntityId, args: Seq<ArgVal>) -> Result<MethodEvent, DecodeError> {
    if args.len() < 1 {
        Err(DecodeError::Malformed)
    } else {
        match plane_id_arg(args[0]) {
            None => Ok(MethodEvent::Undecoded),
            Some(plane_id) => if args.len() < 2 {
                Err(DecodeError::Malformed)
            } else {
                match position_arg(args[1]) {
                    None => Ok(MethodEvent::Undecoded),
                    Some((x, y)) => Ok(MethodEvent::PlanePosition { entity_id, plane_id, x, y }),
                }
            },
        }
    }
}

pub fn decode_squadron_moved(entity_id: EntityId, args: &Vec<ArgVal>) -> (r: Result<
    MethodEvent,
    DecodeError,
>)
    ensures
        r == squadron_moved_spec(entity_id, args@),
{
    if args.len() < 1 {
        return Err(DecodeError::Malformed);
    }
    let plane_id = match plane_id_of(&args[0]) {
        Some(p) => p,
        None => {
            return Ok(MethodEvent::Undecoded);
        },
    };
    if args.len() < 2 {
        return Err(DecodeError::Malformed);
    }
    match position_of(&args[1]) {
        None => Ok(MethodEvent::Undecoded),
        Some((x, y)) => Ok(MethodEvent::PlanePosition { entity_id, plane_id, x, y }),
    }
}

/// A turret group or index passed as an 8-bit integer.
pub open spec fn small_index_arg(v: ArgVal) -> Option<u32> {
    match v {
        ArgVal::Uint8(x) => Some(x as u32),
        ArgVal::Int8(x) => Some(x as u32),
        _ => None,
    }
}

fn small_index_of(v: &ArgVal) -> (r: Option<u32>)
    ensures
        r == small_index_arg(*v),
{
    match v {
        ArgVal::Uint8(x) => Some(*x as u32),
        ArgVal::Int8(x) => Some(*x as u32),
        _ => None,
    }
}

/// `syncGun(group, turret, yaw: f32, pitch: f32, ...)`.
pub open spec fn gun_sync_spec(entity_id: EntityId, args: Seq<ArgVal>) -> Result<MethodEvent, DecodeError> {
    if args.len() < 1 {
        Err(DecodeError::Malformed)
    } else {
        match small_index_arg(args[0]) {
            None => Ok(MethodEvent::Undecoded),
            Some(group) => if args.len() < 2 {
                Err(DecodeError::Malformed)
            } else {
                match small_index_arg(args[1]) {
                    None => Ok(MethodEvent::Undecoded),
                    Some(turret) => if args.len() < 3 {
                        Err(DecodeError::Malformed)
                    } else {
                        match as_f32_bits(args[2]) {
                            None => Ok(MethodEvent::Undecoded),
                            Some(yaw) => if args.len() < 4 {
                                Err(DecodeError::Malformed)
                            } else {
                                match as_f32_bits(args[3]) {
                                    None => Ok(MethodEvent::Undecoded),
                                    Some(pitch) => Ok(
                                        MethodEvent::GunSync { entity_id, group, turret, yaw, pitch },
                                    ),
                                }
                            },
                        }
                    },
                }
            },
        }
    }
}

pub fn decode_gun_sync(entity_id: EntityId, args: &Vec<ArgVal>) -> (r: Result<
    MethodEvent,
    DecodeError,
>)
    ensures
        r == gun_sync_spec(entity_id, args@),
{
    if args.len() < 1 {
        return Err(DecodeError::Malformed);
    }
    let group = match small_index_of(&args[0]) {
        Some(g) => g,
        None => {
            return Ok(MethodEvent::Undecoded);
        },
    };
    if args.len() < 2 {
        return Err(DecodeError::Malformed);
    }
    let turret = match small_index_of(&args[1]) {
        Some(t) => t,
        None => {
            return Ok(MethodEvent::Undecoded);
        },
    };
    if args.len() < 3 {
        return Err(DecodeError::Malformed);
    }
    let yaw = match get_f32_bits(&args[2]) {
        Some(y) => y,
        None => {
            return Ok(MethodEvent::Undecoded);
        },
    };
    if args.len() < 4 {
        return Err(DecodeError::Malformed);
    }
    match get_f32_bits(&args[3]) {
        None => Ok(MethodEvent::Undecoded),
        Some(pitch) => Ok(MethodEvent::GunSync { entity_id, group, turret, yaw, pitch }),
    }
}

// ---------------------------------------------------------------------------
// Shells and torpedoes
// ---------------------------------------------------------------------------

/// A vector read from a dictionary entry: a three-component vector, or an
/// array of at least three floats (0.0 for an item of another kind); zero
/// otherwise.
pub open spec fn vec3_arg(v: Option<ArgVal>) -> Vec3Bits {
    match v {
        Some(ArgVal::Vector3(x, y, z)) => Vec3Bits { x, y, z },
        Some(ArgVal::Array(a)) => if a@.len() >= 3 {
            Vec3Bits {
                x: f32_bits_or_zero(a@[0]),
                y: f32_bits_or_zero(a@[1]),
                z: f32_bits_or_zero(a@[2]),
            }
        } else {
            Vec3Bits { x: 0, y: 0, z: 0 }
        },
        _ => Vec3Bits { x: 0, y: 0, z: 0 },
    }
}

fn vec3_of(v: Option<&ArgVal>) -> (r: Vec3Bits)
    ensures
        r == vec3_arg(
            match v {
                Some(x) => Some(*x),
                None => None,
            },
        ),
{
    match v {
        Some(ArgVal::Vector3(x, y, z)) => Vec3Bits { x: *x, y: *y, z: *z },
        Some(ArgVal::Array(a)) => if a.len() >= 3 {
            Vec3Bits { x: f32_bits_of(&a[0]), y: f32_bits_of(&a[1]), z: f32_bits_of(&a[2]) }
        } else {
            Vec3Bits { x: 0, y: 0, z: 0 }
        },
        _ => Vec3Bits { x: 0, y: 0, z: 0 },
    }
}

/// The `f32` bit pattern stored under `key`, 0 when missing or of another kind.
pub open spec fn dict_f32_or_zero(entries: Seq<(String, ArgVal)>, key: Seq<char>) -> u32 {
    match dict_lookup(entries, key) {
        Some(ArgVal::Float32(x)) => x,
        _ => 0,
    }
}

fn dict_get_f32_or_zero(entries: &Vec<(String, ArgVal)>, key: &str) -> (r: u32)
    ensures
        r == dict_f32_or_zero(entries@, key@),
{
    match dict_get(entries, key) {
        Some(ArgVal::Float32(x)) => *x,
        _ => 0,
    }
}

/// The torpedoes of one salvo's `torpedoes` array (items that are not
/// dictionaries are skipped).
pub open spec fn torpedoes_of(
    items: Seq<ArgVal>,
    owner: EntityId,
    params: GameParamId,
    salvo_id: u32,
) -> Seq<TorpedoData>
    decreases items.len(),
{
    if items.len() == 0 {
        seq![]
    } else {
        let rest = torpedoes_of(items.drop_last(), owner, params, salvo_id);
        match items.last() {
            ArgVal::FixedDict(d) => rest.push(
                TorpedoData {
                    owner_id: owner,
                    params_id: params,
                    salvo_id,
                    shot_id: dict_u32_or_zero(d@, "shotID"@),
                    origin: vec3_arg(dict_lookup(d@, "pos"@)),
                    direction: vec3_arg(dict_lookup(d@, "dir"@)),
                },
            ),
            _ => rest,
        }
    }
}

/// The torpedoes of one salvo: a dictionary with `ownerID`, `paramsID`,
/// `salvoID` (0 when missing) and an array of `torpedoes`; any other salvo
/// gives none.
pub open spec fn salvo_torpedoes(salvo: ArgVal) -> Seq<TorpedoData> {
    match salvo {
        ArgVal::FixedDict(d) => match dict_lookup(d@, "torpedoes"@) {
            Some(ArgVal::Array(t)) => torpedoes_of(
                t@,
                EntityId(dict_i32_or_zero(d@, "ownerID"@) as u32),
                GameParamId(dict_u32_or_zero(d@, "paramsID"@)),
                dict_u32_or_zero(d@, "salvoID"@),
            ),
            _ => seq![],
        },
        _ => seq![],
    }
}

/// All torpedoes of the salvos of `receiveTorpedoes`, in order.
pub open spec fn all_torpedoes(salvos: Seq<ArgVal>) -> Seq<TorpedoData>
    decreases salvos.len(),
{
    if salvos.len() == 0 {
        seq![]
    } else {
        all_torpedoes(salvos.drop_last()) + salvo_torpedoes(salvos.last())
    }
}

fn torpedoes_of_salvo(salvo: &ArgVal, out: &mut Vec<TorpedoData>)
    ensures
        final(out)@ == old(out)@ + salvo_torpedoes(*salvo),
{
    let d = match salvo {
        ArgVal::FixedDict(d) => d,
        _ => {
            assert(old(out)@ + salvo_torpedoes(*salvo) =~= old(out)@);
            return;
        },
    };
    let owner = EntityId(dict_get_i32_or_zero(d, "ownerID") as u32);
    let params = GameParamId(dict_get_u32_or_zero(d, "paramsID"));
    let salvo_id = dict_get_u32_or_zero(d, "salvoID");
    let items = match dict_get(d, "torpedoes") {
        Some(ArgVal::Array(t)) => t,
        _ => {
            assert(old(out)@ + salvo_torpedoes(*salvo) =~= old(out)@);
            return;
        },
    };
    let ghost start = out@;
    let mut k: usize = 0;
    while k < items.len()
        invariant
            k <= items@.len(),
            out@ == start + torpedoes_of(items@.subrange(0, k as int), owner, params, salvo_id),
        decreases items@.len() - k,
    {
        proof {
            assert(items@.subrange(0, k as int + 1).drop_last() =~= items@.subrange(0, k as int));
        }
        match &items[k] {
            ArgVal::FixedDict(td) => {
                let shot_id = dict_get_u32_or_zero(td, "shotID");
                let origin = vec3_of(dict_get(td, "pos"));
                let direction = vec3_of(dict_get(td, "dir"));
                out.push(
                    TorpedoData { owner_id: owner, params_id: params, salvo_id, shot_id, origin, direction },
                );
            },
            _ => {},
        }
        k += 1;
    }
    assert(items@.subrange(0, items@.len() as int) =~= items@);
}

/// `receiveTorpedoes(salvos)`; a first argument that is not an array leaves
/// the call undecoded.
pub open spec fn torpedoes_decoded(entity_id: EntityId, args: Seq<ArgVal>, r: Result<MethodEvent, DecodeError>) -> bool {
    if args.len() < 1 {
        r == Err::<MethodEvent, DecodeError>(DecodeError::Malformed)
    } else {
        match array_items(args[0]) {
            Some(salvos) => match r {
                Ok(MethodEvent::TorpedoesReceived { entity_id: e, torpedoes }) => e == entity_id
                    && torpedoes@ == all_torpedoes(salvos),
                _ => false,
            },
            None => r matches Ok(MethodEvent::Undecoded),
        }
    }
}

pub fn decode_torpedoes(entity_id: EntityId, args: &Vec<ArgVal>) -> (r: Result<
    MethodEvent,
    DecodeError,
>)
    ensures
        torpedoes_decoded(entity_id, args@, r),
{
    if args.len() < 1 {
        return Err(DecodeError::Malformed);
    }
    let salvos = match &args[0] {
        ArgVal::Array(a) => a,
        _ => {
            return Ok(MethodEvent::Undecoded);
        },
    };
    let mut torpedoes: Vec<TorpedoData> = Vec::new();
    let mut k: usize = 0;
    while k < salvos.len()
        invariant
            k <= salvos@.len(),
            torpedoes@ == all_torpedoes(salvos@.subrange(0, k as int)),
        decreases salvos@.len() - k,
    {
        proof {
            assert(salvos@.subrange(0, k as int + 1).drop_last() =~= salvos@.subrange(0, k as int));
        }
        torpedoes_of_salvo(&salvos[k], &mut torpedoes);
        k += 1;
    }
    assert(salvos@.subrange(0, salvos@.len() as int) =~= salvos@);
    Ok(MethodEvent::TorpedoesReceived { entity_id, torpedoes })
}

/// The shells of one salvo's `shots` array (items that are not dictionaries
/// are skipped).
pub open spec fn shots_of(items: Seq<ArgVal>) -> Seq<ArtilleryShotData>
    decreases items.len(),
{
    if items.len() == 0 {
        seq![]
    } else {
        let rest = shots_of(items.drop_last());
        match items.last() {
            ArgVal::FixedDict(d) => rest.push(
                ArtilleryShotData {
                    origin: vec3_arg(dict_lookup(d@, "pos"@)),
                    target: vec3_arg(dict_lookup(d@, "tarPos"@)),
                    shot_id: dict_u32_or_zero(d@, "shotID"@),
                    speed: dict_f32_or_zero(d@, "speed"@),
                },
            ),
            _ => rest,
        }
    }
}

/// The fields of a decoded salvo: owner, parameters id, salvo id, shells.
pub type SalvoFields = (EntityId, GameParamId, u32, Seq<ArtilleryShotData>);

/// One salvo of `receiveArtilleryShots`: a dictionary with `ownerID`,
/// `paramsID`, `salvoID` (0 when missing) and an array of `shots`; any other
/// salvo is skipped.
pub open spec fn salvo_fields(salvo: ArgVal) -> Option<SalvoFields> {
    match salvo {
        ArgVal::FixedDict(d) => match dict_lookup(d@, "shots"@) {
            Some(ArgVal::Array(s)) => Some(
                (
                    EntityId(dict_i32_or_zero(d@, "ownerID"@) as u32),
                    GameParamId(dict_u32_or_zero(d@, "paramsID"@)),
                    dict_u32_or_zero(d@, "salvoID"@),
                    shots_of(s@),
                ),
            ),
            _ => None,
        },
        _ => None,
    }
}

/// The decoded salvos of `receiveArtilleryShots`, in order.
pub open spec fn all_salvos(items: Seq<ArgVal>) -> Seq<SalvoFields>
    decreases items.len(),
{
    if items.len() == 0 {
        seq![]
    } else {
        let rest = all_salvos(items.drop_last());
        match salvo_fields(items.last()) {
            Some(f) => rest.push(f),
            None => rest,
        }
    }
}

/// The fields of a salvo as decoded.
pub open spec fn salvo_view(s: ArtillerySalvo) -> SalvoFields {
    (s.owner_id, s.params_id, s.salvo_id, s.shots@)
}

fn salvo_of(salvo: &ArgVal) -> (r: Option<ArtillerySalvo>)
    ensures
        match (r, salvo_fields(*salvo)) {
            (Some(s), Some(f)) => salvo_view(s) == f,
            (None, None) => true,
            _ => false,
        },
{
    let d = match salvo {
        ArgVal::FixedDict(d) => d,
        _ => {
            return None;
        },
    };
    let owner_id = EntityId(dict_get_i32_or_zero(d, "ownerID") as u32);
    let params_id = GameParamId(dict_get_u32_or_zero(d, "paramsID"));
    let salvo_id = dict_get_u32_or_zero(d, "salvoID");
    let items = match dict_get(d, "shots") {
        Some(ArgVal::Array(s)) => s,
        _ => {
            return None;
        },
    };
    let mut shots: Vec<ArtilleryShotData> = Vec::new();
    let mut k: usize = 0;
    while k < items.len()
        invariant
            k <= items@.len(),
            shots@ == shots_of(items@.subrange(0, k as int)),
        decreases items@.len() - k,
    {
        proof {
            assert(items@.subrange(0, k as int + 1).drop_last() =~= items@.subrange(0, k as int));
        }
        match &items[k] {
            ArgVal::FixedDict(sd) => {
                let origin = vec3_of(dict_get(sd, "pos"));
                let target = vec3_of(dict_get(sd, "tarPos"));
                let shot_id = dict_get_u32_or_zero(sd, "shotID");
                let speed = dict_get_f32_or_zero(sd, "speed");
                shots.push(ArtilleryShotData { origin, target, shot_id, speed });
            },
            _ => {},
        }
        k += 1;
    }
    assert(items@.subrange(0, items@.len() as int) =~= items@);
    Some(ArtillerySalvo { owner_id, params_id, salvo_id, shots })
}

/// `receiveArtilleryShots(salvos)`; a first argument that is not an array
/// leaves the call undecoded.
pub open spec fn artillery_decoded(entity_id: EntityId, args: Seq<ArgVal>, r: Result<MethodEvent, DecodeError>) -> bool {
    if args.len() < 1 {
        r == Err::<MethodEvent, DecodeError>(DecodeError::Malformed)
    } else {
        match array_items(args[0]) {
            Some(items) => match r {
                Ok(MethodEvent::ArtilleryShots { entity_id: e, salvos }) => e == entity_id
                    && salvos@.map_values(|s: ArtillerySalvo| salvo_view(s)) == all_salvos(items),
                _ => false,
            },
            None => r matches Ok(MethodEvent::Undecoded),
        }
    }
}

pub fn decode_artillery_shots(entity_id: EntityId, args: &Vec<ArgVal>) -> (r: Result<
    MethodEvent,
    DecodeError,
>)
    ensures
        artillery_decoded(entity_id, args@, r),
{
    if args.len() < 1 {
        return Err(DecodeError::Malformed);
    }
    let items = match &args[0] {
        ArgVal::Array(a) => a,
        _ => {
            return Ok(MethodEvent::Undecoded);
        },
    };
    let mut salvos: Vec<ArtillerySalvo> = Vec::new();
    let mut k: usize = 0;
    while k < items.len()
        invariant
            k <= items@.len(),
            salvos@.map_values(|s: ArtillerySalvo| salvo_view(s)) == all_salvos(
                items@.subrange(0, k as int),
            ),
        decreases items@.len() - k,
    {
        proof {
            assert(items@.subrange(0, k as int + 1).drop_last() =~= items@.subrange(0, k as int));
        }
        let ghost before = salvos@;
        match salvo_of(&items[k]) {
            Some(s) => {
                salvos.push(s);
                proof {
                    assert(salvos@.map_values(|s: ArtillerySalvo| salvo_view(s)) =~= before.map_values(
                        |s: ArtillerySalvo| salvo_view(s),
                    ).push(salvo_view(salvos@.last())));
                }
            },
            None => {},
        }
        k += 1;
    }
    assert(items@.subrange(0, items@.len() as int) =~= items@);
    Ok(MethodEvent::ArtilleryShots { entity_id, salvos })
}

// ---------------------------------------------------------------------------
// Chat and dispatch
// ---------------------------------------------------------------------------

/// The bytes of a string value.
pub open spec fn string_bytes(v: ArgVal) -> Option<Seq<u8>> {
    match v {
        ArgVal::String(b) => Some(b@),
        _ => None,
    }
}

/// `onChatMessage(sender: i32, audience: str, message: str, extra?)` is well
/// formed: audience and message are UTF-8, and a system message (sender 0)
/// with a fourth argument carries it as a string of pickled data.
pub open spec fn chat_well_formed(args: Seq<ArgVal>) -> bool {
    &&& args.len() >= 3
    &&& as_i32(args[0]) is Some
    &&& string_bytes(args[1]) matches Some(a) && valid_utf8(a)
    &&& string_bytes(args[2]) matches Some(m) && valid_utf8(m)
    &&& (as_i32(args[0]) == Some(0i32) && args.len() >= 4 ==> (string_bytes(args[3]) is Some && unpickled(
        string_bytes(args[3])->0,
    ) is Some && chat_extra_ok(unpickled(string_bytes(args[3])->0)->0)))
}

pub open spec fn chat_decoded(entity_id: EntityId, args: Seq<ArgVal>, r: Result<MethodEvent, DecodeError>) -> bool {
    match r {
        Ok(MethodEvent::Chat { entity_id: e, sender_id, audience, message, extra }) => {
            &&& chat_well_formed(args)
            &&& e == entity_id
            &&& sender_id == AccountId(as_i32(args[0])->0 as u64)
            &&& audience@ == decode_utf8(string_bytes(args[1])->0)
            &&& message@ == decode_utf8(string_bytes(args[2])->0)
            &&& if as_i32(args[0]) == Some(0i32) && args.len() >= 4 {
                extra matches Some(x) && chat_extra_matches(unpickled(string_bytes(args[3])->0)->0, x)
            } else {
                extra is None
            }
        },
        Err(DecodeError::Malformed) => !chat_well_formed(args),
        _ => false,
    }
}

pub fn decode_chat(entity_id: EntityId, args: &Vec<ArgVal>) -> (r: Result<MethodEvent, DecodeError>)
    ensures
        chat_decoded(entity_id, args@, r),
{
    if args.len() < 3 {
        return Err(DecodeError::Malformed);
    }
    let audience = match &args[1] {
        ArgVal::String(b) => b,
        _ => {
            return Err(DecodeError::Malformed);
        },
    };
    let message = match &args[2] {
        ArgVal::String(b) => b,
        _ => {
            return Err(DecodeError::Malformed);
        },
    };
    let sender = match get_i32(&args[0]) {
        Some(s) => s,
        None => {
            return Err(DecodeError::Malformed);
        },
    };
    let extra = if sender == 0 && args.len() >= 4 {
        match &args[3] {
            ArgVal::String(b) => match unpickle(b.as_slice()) {
                Some(v) => match chat_extra_from(&v) {
                    Some(x) => Some(x),
                    None => {
                        return Err(DecodeError::Malformed);
                    },
                },
                None => {
                    return Err(DecodeError::Malformed);
                },
            },
            _ => {
                return Err(DecodeError::Malformed);
            },
        }
    } else {
        None
    };
    let audience = match string_from_utf8(audience.as_slice()) {
        Some(a) => a,
        None => {
            return Err(DecodeError::Malformed);
        },
    };
    let message = match string_from_utf8(message.as_slice()) {
        Some(m) => m,
        None => {
            return Err(DecodeError::Malformed);
        },
    };
    Ok(MethodEvent::Chat { entity_id, sender_id: AccountId(sender as u64), audience, message, extra })
}

/// The text a key or value stands for: a string, or a byte string that is
/// valid UTF-8.
pub open spec fn text_of(v: PickleVal) -> Option<Seq<char>> {
    match v {
        PickleVal::Str(s) => Some(s@),
        PickleVal::Bytes(b) => if valid_utf8(b@) {
            Some(decode_utf8(b@))
        } else {
            None
        },
        _ => None,
    }
}

fn text_of_value(v: &PickleVal) -> (r: Option<String>)
    ensures
        match r {
            Some(s) => text_of(*v) == Some(s@),
            None => text_of(*v) is None,
        },
{
    match v {
        PickleVal::Str(s) => Some(s.clone()),
        PickleVal::Bytes(b) => string_from_utf8(b.as_slice()),
        _ => None,
    }
}

/// The value under the key `name` of a dictionary read with text keys: that
/// of the last pair whose key stands for `name`.
pub open spec fn text_entry(pairs: Seq<(PickleVal, PickleVal)>, name: Seq<char>) -> Option<PickleVal>
    decreases pairs.len(),
{
    if pairs.len() == 0 {
        None
    } else if text_of(pairs.last().0) == Some(name) {
        Some(pairs.last().1)
    } else {
        text_entry(pairs.drop_last(), name)
    }
}

fn text_entry_of<'a>(pairs: &'a Vec<(PickleVal, PickleVal)>, name: &str) -> (r: Option<&'a PickleVal>)
    ensures
        match text_entry(pairs@, name@) {
            Some(v) => r == Some(&v),
            None => r is None,
        },
{
    let mut i: usize = pairs.len();
    assert(pairs@.take(pairs@.len() as int) =~= pairs@);
    while i > 0
        invariant
            i <= pairs@.len(),
            text_entry(pairs@, name@) == text_entry(pairs@.take(i as int), name@),
        decreases i,
    {
        assert(pairs@.take(i as int).drop_last() =~= pairs@.take(i - 1));
        match text_of_value(&pairs[i - 1].0) {
            Some(k) => {
                if str_eq(k.as_str(), name) {
                    return Some(&pairs[i - 1].1);
                }
            },
            None => {},
        }
        i -= 1;
    }
    None
}

/// The integer under a key.
pub open spec fn entry_i64(pairs: Seq<(PickleVal, PickleVal)>, name: Seq<char>) -> Option<i64> {
    match text_entry(pairs, name) {
        Some(PickleVal::I64(x)) => Some(x),
        _ => None,
    }
}

/// The string under a key (a string value, or a byte string that is UTF-8).
pub open spec fn entry_text(pairs: Seq<(PickleVal, PickleVal)>, name: Seq<char>) -> Option<Seq<char>> {
    match text_entry(pairs, name) {
        Some(v) => text_of(v),
        None => None,
    }
}

/// A key of a chat message's extra data.
pub open spec fn extra_key(k: PickleVal) -> bool {
    text_of(k) matches Some(s) && (s == "preBattleSign"@ || s == "prebattleId"@ || s == "playerClanTag"@
        || s == "type"@ || s == "playerAvatarId"@ || s == "playerName"@)
}

fn is_extra_key(k: &PickleVal) -> (r: bool)
    ensures
        r == extra_key(*k),
{
    match text_of_value(k) {
        Some(s) => {
            let t = s.as_str();
            str_eq(t, "preBattleSign") || str_eq(t, "prebattleId") || str_eq(t, "playerClanTag") || str_eq(
                t,
                "type",
            ) || str_eq(t, "playerAvatarId") || str_eq(t, "playerName")
        },
        None => false,
    }
}

/// A system message's extra data as it must be: a dictionary with text keys
/// that holds the six fields and no other key, each field of its kind.
pub open spec fn chat_extra_ok(w: PickleVal) -> bool {
    match w {
        PickleVal::Dict(pairs) => {
            &&& forall|i: int| 0 <= i < pairs@.len() ==> extra_key(#[trigger] pairs@[i].0)
            &&& entry_i64(pairs@, "preBattleSign"@) is Some
            &&& entry_i64(pairs@, "prebattleId"@) is Some
            &&& entry_text(pairs@, "playerClanTag"@) is Some
            &&& entry_i64(pairs@, "type"@) is Some
            &&& entry_i64(pairs@, "playerAvatarId"@) is Some
            &&& entry_text(pairs@, "playerName"@) is Some
        },
        _ => false,
    }
}

/// The extra data read from a well-formed dictionary.
pub open spec fn chat_extra_matches(w: PickleVal, e: ChatMessageExtra) -> bool {
    match w {
        PickleVal::Dict(pairs) => {
            &&& e.pre_battle_sign == entry_i64(pairs@, "preBattleSign"@)->0
            &&& e.pre_battle_id == entry_i64(pairs@, "prebattleId"@)->0
            &&& e.player_clan_tag@ == entry_text(pairs@, "playerClanTag"@)->0
            &&& e.typ == entry_i64(pairs@, "type"@)->0
            &&& e.player_avatar_id == AccountId(entry_i64(pairs@, "playerAvatarId"@)->0 as u64)
            &&& e.player_name@ == entry_text(pairs@, "playerName"@)->0
        },
        _ => false,
    }
}

fn entry_i64_of(pairs: &Vec<(PickleVal, PickleVal)>, name: &str) -> (r: Option<i64>)
    ensures
        r == entry_i64(pairs@, name@),
{
    match text_entry_of(pairs, name) {
        Some(PickleVal::I64(x)) => Some(*x),
        _ => None,
    }
}

fn entry_text_of(pairs: &Vec<(PickleVal, PickleVal)>, name: &str) -> (r: Option<String>)
    ensures
        match r {
            Some(s) => entry_text(pairs@, name@) == Some(s@),
            None => entry_text(pairs@, name@) is None,
        },
{
    match text_entry_of(pairs, name) {
        Some(v) => text_of_value(v),
        None => None,
    }
}

/// Reads a system message's extra data from its unpickled value; `None`
/// when it is not a dictionary of the six fields, each of its kind.
pub fn chat_extra_from(w: &PickleVal) -> (r: Option<ChatMessageExtra>)
    ensures
        r is Some <==> chat_extra_ok(*w),
        r matches Some(e) ==> chat_extra_matches(*w, e),
{
    let pairs = match w {
        PickleVal::Dict(pairs) => pairs,
        _ => {
            return None;
        },
    };
    let mut i: usize = 0;
    while i < pairs.len()
        invariant
            *w == PickleVal::Dict(*pairs),
            i <= pairs@.len(),
            forall|j: int| 0 <= j < i ==> extra_key(#[trigger] pairs@[j].0),
        decreases pairs@.len() - i,
    {
        if !is_extra_key(&pairs[i].0) {
            assert(!extra_key(pairs@[i as int].0));
            return None;
        }
        i += 1;
    }
    let sign = entry_i64_of(pairs, "preBattleSign");
    let id = entry_i64_of(pairs, "prebattleId");
    let clan = entry_text_of(pairs, "playerClanTag");
    let typ = entry_i64_of(pairs, "type");
    let avatar = entry_i64_of(pairs, "playerAvatarId");
    let name = entry_text_of(pairs, "playerName");
    match (sign, id, clan, typ, avatar, name) {
        (Some(sign), Some(id), Some(clan), Some(typ), Some(avatar), Some(name)) => Some(
            ChatMessageExtra {
                pre_battle_sign: sign,
                pre_battle_id: id,
                player_clan_tag: clan,
                typ,
                player_avatar_id: AccountId(avatar as u64),
                player_name: name,
            },
        ),
        _ => None,
    }
}

/// The bytes of a blob argument.
pub open spec fn blob_of(v: ArgVal) -> Option<Seq<u8>> {
    match v {
        ArgVal::Blob(b) => Some(b@),
        _ => None,
    }
}

pub open spec fn as_i64(v: ArgVal) -> Option<i64> {
    match v {
        ArgVal::Int64(x) => Some(x),
        _ => None,
    }
}

fn get_i64(v: &ArgVal) -> (r: Option<i64>)
    ensures
        r == as_i64(*v),
{
    match v {
        ArgVal::Int64(x) => Some(*x),
        _ => None,
    }
}

/// The value of a pickled blob argument, with its byte strings that hold
/// UTF-8 text read as text.
fn unpickle_blob(v: &ArgVal) -> (r: Option<PickleVal>)
    ensures
        match r {
            Some(w) => blob_of(*v) is Some && unpickled(blob_of(*v)->0) is Some && texts_decoded(
                unpickled(blob_of(*v)->0)->0,
                w,
            ),
            None => blob_of(*v) is None || unpickled(blob_of(*v)->0) is None,
        },
{
    match v {
        ArgVal::Blob(b) => match unpickle(b.as_slice()) {
            Some(x) => Some(decode_texts(x)),
            None => None,
        },
        _ => None,
    }
}

/// The items of a list value; none for anything else.
pub open spec fn list_items(w: PickleVal) -> Seq<PickleVal> {
    match w {
        PickleVal::List(items) => items@,
        _ => Seq::empty(),
    }
}

/// `onGameRoomStateChanged(player_states: blob)`: the pickled list of the
/// players' states, each as it is (text decoded).
pub open spec fn room_state_decoded(args: Seq<ArgVal>, r: Result<MethodEvent, DecodeError>) -> bool {
    match r {
        Ok(MethodEvent::GameRoomState { player_states }) => {
            &&& args.len() >= 1
            &&& blob_of(args[0]) is Some
            &&& unpickled(blob_of(args[0])->0) is Some
            &&& exists|w: PickleVal|
                #[trigger] texts_decoded(unpickled(blob_of(args[0])->0)->0, w) && player_states@ == list_items(w)
        },
        Err(DecodeError::Malformed) => args.len() < 1 || blob_of(args[0]) is None || unpickled(
            blob_of(args[0])->0,
        ) is None,
        _ => false,
    }
}

pub fn decode_room_state(args: &Vec<ArgVal>) -> (r: Result<MethodEvent, DecodeError>)
    ensures
        room_state_decoded(args@, r),
{
    if args.len() < 1 {
        return Err(DecodeError::Malformed);
    }
    let w = match unpickle_blob(&args[0]) {
        Some(w) => w,
        None => {
            return Err(DecodeError::Malformed);
        },
    };
    let ghost wg = w;
    let player_states = match w {
        PickleVal::List(items) => items,
        _ => Vec::new(),
    };
    assert(player_states@ == list_items(wg));
    Ok(MethodEvent::GameRoomState { player_states })
}

/// `onArenaStateReceived(arena_id: i64, team_build_type_id: i8,
/// pre_battles_info: blob, player_states: blob)`: the players' states read
/// from the pickled list of the last argument.
pub open spec fn arena_head_ok(args: Seq<ArgVal>) -> bool {
    &&& args.len() >= 4
    &&& as_i64(args[0]) is Some
    &&& as_i8(args[1]) is Some
    &&& blob_of(args[2]) is Some
    &&& blob_of(args[3]) is Some
}

pub open spec fn arena_state_decoded(
    version: GameVersion,
    args: Seq<ArgVal>,
    r: Result<MethodEvent, DecodeError>,
) -> bool {
    match r {
        Ok(MethodEvent::ArenaState { arena_id, team_build_type_id, players }) => {
            &&& arena_head_ok(args)
            &&& arena_id == as_i64(args[0])->0
            &&& team_build_type_id == as_i8(args[1])->0
            &&& unpickled(blob_of(args[3])->0) is Some
            &&& exists|w: PickleVal|
                #[trigger] texts_decoded(unpickled(blob_of(args[3])->0)->0, w) && arena_players_ok(w, version)
                    && arena_players_match(w, players@, version)
        },
        Err(DecodeError::Malformed) => !arena_head_ok(args) || unpickled(blob_of(args[3])->0) is None || exists|
            w: PickleVal,
        | #[trigger] texts_decoded(unpickled(blob_of(args[3])->0)->0, w) && !arena_players_ok(w, version),
        _ => false,
    }
}

pub fn decode_arena_state(version: &GameVersion, args: &Vec<ArgVal>) -> (r: Result<MethodEvent, DecodeError>)
    ensures
        arena_state_decoded(*version, args@, r),
{
    if args.len() < 4 {
        return Err(DecodeError::Malformed);
    }
    let arena_id = match get_i64(&args[0]) {
        Some(x) => x,
        None => {
            return Err(DecodeError::Malformed);
        },
    };
    let team_build_type_id = match get_i8(&args[1]) {
        Some(x) => x,
        None => {
            return Err(DecodeError::Malformed);
        },
    };
    match &args[2] {
        ArgVal::Blob(_) => {},
        _ => {
            return Err(DecodeError::Malformed);
        },
    }
    let w = match unpickle_blob(&args[3]) {
        Some(w) => w,
        None => {
            return Err(DecodeError::Malformed);
        },
    };
    match arena_player_states(&w, version) {
        Some(players) => Ok(MethodEvent::ArenaState { arena_id, team_build_type_id, players }),
        None => Err(DecodeError::Malformed),
    }
}

/// `receiveDamageStat(stats: blob)`: the entries of the pickled dictionary.
pub open spec fn damage_stat_decoded(args: Seq<ArgVal>, r: Result<MethodEvent, DecodeError>) -> bool {
    match r {
        Ok(MethodEvent::DamageStat(stats)) => {
            &&& args.len() >= 1
            &&& blob_of(args[0]) is Some
            &&& match unpickled(blob_of(args[0])->0) {
                Some(PickleVal::Dict(entries)) => stats@.len() == entries@.len() && forall|k: int|
                    0 <= k < stats@.len() ==> damage_stat_entry(entries@[k].0, entries@[k].1) == Some(
                        #[trigger] stats@[k],
                    ),
                _ => false,
            }
        },
        Err(DecodeError::Malformed) => args.len() < 1 || blob_of(args[0]) is None || match unpickled(
            blob_of(args[0])->0,
        ) {
            Some(PickleVal::Dict(entries)) => exists|k: int|
                0 <= k < entries@.len() && #[trigger] damage_stat_entry(entries@[k].0, entries@[k].1) is None,
            _ => true,
        },
        _ => false,
    }
}

pub fn decode_damage_stat_call(args: &Vec<ArgVal>) -> (r: Result<MethodEvent, DecodeError>)
    ensures
        damage_stat_decoded(args@, r),
{
    if args.len() < 1 {
        return Err(DecodeError::Malformed);
    }
    let v = match &args[0] {
        ArgVal::Blob(b) => match unpickle(b.as_slice()) {
            Some(v) => v,
            None => {
                return Err(DecodeError::Malformed);
            },
        },
        _ => {
            return Err(DecodeError::Malformed);
        },
    };
    match decode_damage_stat(&v) {
        Some(stats) => Ok(MethodEvent::DamageStat(stats)),
        None => Err(DecodeError::Malformed),
    }
}

/// What decoding an entity method call gives, method by method; unknown
/// methods are passed on undecoded.
pub open spec fn method_event_spec(
    version: GameVersion,
    audit: bool,
    entity_id: EntityId,
    method: Seq<char>,
    args: Seq<ArgVal>,
    r: Result<MethodEvent, DecodeError>,
) -> bool {
    let packed = at_least(version, packed_commands_release());
    match method_kind_spec(method) {
        MethodKind::ChatMessage => chat_decoded(entity_id, args, r),
        MethodKind::CommonCommand => r == common_command_spec(packed, args),
        MethodKind::VehicleDeath => r == vehicle_death_spec(audit, args),
        MethodKind::Ribbon => r == ribbon_event_spec(audit, args),
        MethodKind::DamagesOnShip => match r {
            Ok(MethodEvent::DamageReceived { victim, aggressors }) => victim == entity_id
                && damages_decoded(args, aggressors@),
            Err(DecodeError::Malformed) => damages_malformed(args),
            _ => false,
        },
        MethodKind::CheckGamePing => r == ping_event_spec(args),
        MethodKind::MinimapVisionInfo => match r {
            Ok(MethodEvent::MinimapUpdate { updates }) => minimap_decoded(args, updates@),
            Err(DecodeError::Malformed) => minimap_malformed(args),
            _ => false,
        },
        MethodKind::BattleEnd => r == battle_end_spec(packed, args),
        MethodKind::ConsumableUsed => r == consumable_event_spec(audit, entity_id, args),
        MethodKind::ArtilleryShots => artillery_decoded(entity_id, args, r),
        MethodKind::Torpedoes => torpedoes_decoded(entity_id, args, r),
        MethodKind::ShotKills => shot_kills_decoded(entity_id, args, r),
        MethodKind::AddMinimapSquadron => r == squadron_added_spec(entity_id, args),
        MethodKind::RemoveMinimapSquadron => r == squadron_removed_spec(entity_id, args),
        MethodKind::UpdateMinimapSquadron => r == squadron_moved_spec(entity_id, args),
        MethodKind::SyncGun => r == gun_sync_spec(entity_id, args),
        MethodKind::GameRoomStateChanged => room_state_decoded(args, r),
        MethodKind::ArenaStateReceived => arena_state_decoded(version, args, r),
        MethodKind::DamageStat => damage_stat_decoded(args, r),
        MethodKind::Other => r matches Ok(MethodEvent::Undecoded),
    }
}

/// Decodes an entity method call of the given client version into an event.
pub fn decode_entity_method(
    version: &GameVersion,
    audit: bool,
    entity_id: EntityId,
    method: &str,
    args: &Vec<ArgVal>,
) -> (r: Result<MethodEvent, DecodeError>)
    ensures
        method_event_spec(*version, audit, entity_id, method@, args@, r),
{
    let packed = uses_packed_commands(version);
    match method_kind(method) {
        MethodKind::ChatMessage => decode_chat(entity_id, args),
        MethodKind::CommonCommand => decode_common_command(packed, args),
        MethodKind::VehicleDeath => decode_vehicle_death(audit, args),
        MethodKind::Ribbon => decode_ribbon(audit, args),
        MethodKind::DamagesOnShip => decode_damages_on_ship(entity_id, args),
        MethodKind::CheckGamePing => decode_ping(args),
        MethodKind::MinimapVisionInfo => decode_minimap_vision(args),
        MethodKind::BattleEnd => decode_battle_end(packed, args),
        MethodKind::ConsumableUsed => decode_consumable(audit, entity_id, args),
        MethodKind::ArtilleryShots => decode_artillery_shots(entity_id, args),
        MethodKind::Torpedoes => decode_torpedoes(entity_id, args),
        MethodKind::ShotKills => decode_shot_kills(entity_id, args),
        MethodKind::AddMinimapSquadron => decode_squadron_added(entity_id, args),
        MethodKind::RemoveMinimapSquadron => decode_squadron_removed(entity_id, args),
        MethodKind::UpdateMinimapSquadron => decode_squadron_moved(entity_id, args),
        MethodKind::SyncGun => decode_gun_sync(entity_id, args),
        MethodKind::GameRoomStateChanged => decode_room_state(args),
        MethodKind::ArenaStateReceived => decode_arena_state(version, args),
        MethodKind::DamageStat => decode_damage_stat_call(args),
        MethodKind::Other => Ok(MethodEvent::Undecoded),
    }
}

/// The names of the methods that are decoded; every other method's call
/// stays undecoded.
pub open spec fn decoded_method_names() -> Seq<Seq<char>> {
    seq!["onChatMessage"@, "receive_CommonCMD"@, "onGameRoomStateChanged"@, "onArenaStateReceived"@, "receiveDamageStat"@, "receiveVehicleDeath"@, "onRibbon"@, "receiveDamagesOnShip"@, "onCheckGamePing"@, "updateMinimapVisionInfo"@, "onBattleEnd"@, "consumableUsed"@, "receiveArtilleryShots"@, "receiveTorpedoes"@, "receiveShotKills"@, "receive_addMinimapSquadron"@, "receive_removeMinimapSquadron"@, "receive_updateMinimapSquadron"@, "syncGun"@]
}

/// A call of a method that is not decoded stays undecoded, whatever its
/// arguments and the client; so does a call of a shot method whose first
/// argument is not an array.
pub proof fn lemma_other_methods_stay_undecoded(
    version: GameVersion,
    audit: bool,
    entity_id: EntityId,
    method: Seq<char>,
    args: Seq<ArgVal>,
    r: Result<MethodEvent, DecodeError>,
)
    requires
        method_event_spec(version, audit, entity_id, method, args, r),
        !decoded_method_names().contains(method) || ((method == "receiveArtilleryShots"@ || method
            == "receiveTorpedoes"@ || method == "receiveShotKills"@) && args.len() >= 1 && array_items(args[0]) is None),
    ensures
        r matches Ok(MethodEvent::Undecoded),
{
    let names = decoded_method_names();
        assert(names[0] == "onChatMessage"@);
        assert(names[1] == "receive_CommonCMD"@);
        assert(names[2] == "onGameRoomStateChanged"@);
        assert(names[3] == "onArenaStateReceived"@);
        assert(names[4] == "receiveDamageStat"@);
        assert(names[5] == "receiveVehicleDeath"@);
        assert(names[6] == "onRibbon"@);
        assert(names[7] == "receiveDamagesOnShip"@);
        assert(names[8] == "onCheckGamePing"@);
        assert(names[9] == "updateMinimapVisionInfo"@);
        assert(names[10] == "onBattleEnd"@);
        assert(names[11] == "consumableUsed"@);
        assert(names[12] == "receiveArtilleryShots"@);
        assert(names[13] == "receiveTorpedoes"@);
        assert(names[14] == "receiveShotKills"@);
        assert(names[15] == "receive_addMinimapSquadron"@);
        assert(names[16] == "receive_removeMinimapSquadron"@);
        assert(names[17] == "receive_updateMinimapSquadron"@);
        assert(names[18] == "syncGun"@);
    if !names.contains(method) {
        assert(method_kind_spec(method) == MethodKind::Other);
    } else {
        reveal_strlit("onChatMessage");
        reveal_strlit("receive_CommonCMD");
        reveal_strlit("onGameRoomStateChanged");
        reveal_strlit("onArenaStateReceived");
        reveal_strlit("receiveDamageStat");
        reveal_strlit("receiveVehicleDeath");
        reveal_strlit("onRibbon");
        reveal_strlit("receiveDamagesOnShip");
        reveal_strlit("onCheckGamePing");
        reveal_strlit("updateMinimapVisionInfo");
        reveal_strlit("onBattleEnd");
        reveal_strlit("consumableUsed");
        reveal_strlit("receiveArtilleryShots");
        reveal_strlit("receiveTorpedoes");
        reveal_strlit("receiveShotKills");
        if method == "receiveArtilleryShots"@ {
            assert("receiveArtilleryShots"@.len() != "onChatMessage"@.len());
            assert("receiveArtilleryShots"@.len() != "receive_CommonCMD"@.len());
            assert("receiveArtilleryShots"@.len() != "onGameRoomStateChanged"@.len());
            assert("receiveArtilleryShots"@.len() != "onArenaStateReceived"@.len());
            assert("receiveArtilleryShots"@.len() != "receiveDamageStat"@.len());
            assert("receiveArtilleryShots"@.len() != "receiveVehicleDeath"@.len());
            assert("receiveArtilleryShots"@.len() != "onRibbon"@.len());
            assert("receiveArtilleryShots"@.len() != "receiveDamagesOnShip"@.len());
            assert("receiveArtilleryShots"@.len() != "onCheckGamePing"@.len());
            assert("receiveArtilleryShots"@.len() != "updateMinimapVisionInfo"@.len());
            assert("receiveArtilleryShots"@.len() != "onBattleEnd"@.len());
            assert("receiveArtilleryShots"@.len() != "consumableUsed"@.len());
            assert(method_kind_spec(method) == MethodKind::ArtilleryShots);
        }
        if method == "receiveTorpedoes"@ {
            assert("receiveTorpedoes"@.len() != "onChatMessage"@.len());
            assert("receiveTorpedoes"@.len() != "receive_CommonCMD"@.len());
            assert("receiveTorpedoes"@.len() != "onGameRoomStateChanged"@.len());
            assert("receiveTorpedoes"@.len() != "onArenaStateReceived"@.len());
            assert("receiveTorpedoes"@.len() != "receiveDamageStat"@.len());
            assert("receiveTorpedoes"@.len() != "receiveVehicleDeath"@.len());
            assert("receiveTorpedoes"@.len() != "onRibbon"@.len());
            assert("receiveTorpedoes"@.len() != "receiveDamagesOnShip"@.len());
            assert("receiveTorpedoes"@.len() != "onCheckGamePing"@.len());
            assert("receiveTorpedoes"@.len() != "updateMinimapVisionInfo"@.len());
            assert("receiveTorpedoes"@.len() != "onBattleEnd"@.len());
            assert("receiveTorpedoes"@.len() != "consumableUsed"@.len());
            assert("receiveTorpedoes"@.len() != "receiveArtilleryShots"@.len());
            assert(method_kind_spec(method) == MethodKind::Torpedoes);
        }
        if method == "receiveShotKills"@ {
            assert("receiveShotKills"@.len() != "onChatMessage"@.len());
            assert("receiveShotKills"@.len() != "receive_CommonCMD"@.len());
            assert("receiveShotKills"@.len() != "onGameRoomStateChanged"@.len());
            assert("receiveShotKills"@.len() != "onArenaStateReceived"@.len());
            assert("receiveShotKills"@.len() != "receiveDamageStat"@.len());
            assert("receiveShotKills"@.len() != "receiveVehicleDeath"@.len());
            assert("receiveShotKills"@.len() != "onRibbon"@.len());
            assert("receiveShotKills"@.len() != "receiveDamagesOnShip"@.len());
            assert("receiveShotKills"@.len() != "onCheckGamePing"@.len());
            assert("receiveShotKills"@.len() != "updateMinimapVisionInfo"@.len());
            assert("receiveShotKills"@.len() != "onBattleEnd"@.len());
            assert("receiveShotKills"@.len() != "consumableUsed"@.len());
            assert("receiveShotKills"@.len() != "receiveArtilleryShots"@.len());
            assert("receiveShotKills"@[7] != "receiveTorpedoes"@[7]);
            assert(method_kind_spec(method) == MethodKind::ShotKills);
        }
    }
}

/// A ship's death names the victim (first argument), the killer (second)
/// and the cause's code (third): a known code gives its cause; an unknown one
/// is reported as such in audit mode and kept as an unknown cause otherwise.
pub proof fn lemma_vehicle_death_reads_its_arguments(
    audit: bool,
    victim: i32,
    killer: i32,
    code: u32,
    rest: Seq<ArgVal>,
)
    ensures
        ({
            let r = vehicle_death_spec(
                audit,
                seq![ArgVal::Int32(victim), ArgVal::Int32(killer), ArgVal::Uint32(code)] + rest,
            );
            &&& death_cause_spec(code) matches Some(c) ==> r == Ok::<MethodEvent, DecodeError>(
                MethodEvent::ShipDestroyed { victim: EntityId(victim as u32), killer: EntityId(killer as u32), cause: c },
            )
            &&& (death_cause_spec(code) is None && !audit) ==> r == Ok::<MethodEvent, DecodeError>(
                MethodEvent::ShipDestroyed {
                    victim: EntityId(victim as u32),
                    killer: EntityId(killer as u32),
                    cause: DeathCause::Unknown(code),
                },
            )
            &&& (death_cause_spec(code) is None && audit) ==> r == Ok::<MethodEvent, DecodeError>(
                MethodEvent::Audit(AuditNote::UnknownDeathCause { victim, killer, cause: code }),
            )
        }),
{
    let args = seq![ArgVal::Int32(victim), ArgVal::Int32(killer), ArgVal::Uint32(code)] + rest;
    assert(args[0] == ArgVal::Int32(victim) && args[1] == ArgVal::Int32(killer) && args[2] == ArgVal::Uint32(code));
}

/// A consumable's use names the consumable's code (first argument) and its
/// duration (second) for the entity that used it.
pub proof fn lemma_consumable_reads_its_arguments(
    audit: bool,
    entity: EntityId,
    code: i8,
    duration: u32,
    rest: Seq<ArgVal>,
)
    ensures
        ({
            let r = consumable_event_spec(audit, entity, seq![ArgVal::Int8(code), ArgVal::Float32(duration)] + rest);
            &&& consumable_spec(code) matches Some(c) ==> r == Ok::<MethodEvent, DecodeError>(
                MethodEvent::Consumable { entity, consumable: c, duration },
            )
            &&& (consumable_spec(code) is None && !audit) ==> r == Ok::<MethodEvent, DecodeError>(
                MethodEvent::Consumable { entity, consumable: Consumable::Unknown(code), duration },
            )
        }),
{
    let args = seq![ArgVal::Int8(code), ArgVal::Float32(duration)] + rest;
    assert(args[0] == ArgVal::Int8(code) && args[1] == ArgVal::Float32(duration));
}

/// A ribbon names its code (first argument): a known code gives its ribbon,
/// an unknown one is kept as an unknown ribbon outside audit mode.
pub proof fn lemma_ribbon_reads_its_argument(audit: bool, code: i8, rest: Seq<ArgVal>)
    ensures
        ({
            let r = ribbon_event_spec(audit, seq![ArgVal::Int8(code)] + rest);
            &&& ribbon_spec(code) matches Some(x) ==> r == Ok::<MethodEvent, DecodeError>(MethodEvent::Ribbon(x))
            &&& (ribbon_spec(code) is None && !audit) ==> r == Ok::<MethodEvent, DecodeError>(
                MethodEvent::Ribbon(Ribbon::Unknown(code)),
            )
        }),
{
    let args = seq![ArgVal::Int8(code)] + rest;
    assert(args[0] == ArgVal::Int8(code));
}

} // verus!
