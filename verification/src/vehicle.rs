//! The properties of vehicle entities, as entity creation and property
//! updates set them.
use vstd::prelude::*;
use vstd::utf8::{decode_utf8, valid_utf8};
use crate::controller::{
    crew_args_well_formed, crew_fresh, crew_updated, initial_vehicle_state, parse_ship_config,
    ship_config_fresh, sc_end, sc_units_count,
    ship_config_extra_word_release, ship_config_matches, AAAura, CrewModifiersCompactParams,
    ShipConfig, VehicleState,
};
use crate::rpc::{dict_get, dict_lookup, string_from_utf8, ArgVal};
use crate::controller::{entity_type_spec, EntityType};
use crate::state::{building_from_props, building_spec, smoke_radius, smoke_radius_spec, BuildingEntity};
use crate::types::EntityId;
use crate::version::{at_least, GameVersion};

verus! {

/// The value of a property in an update (the first entry for the key).
#[verifier::opaque]
pub open spec fn prop(args: Seq<(String, ArgVal)>, key: Seq<char>) -> Option<ArgVal> {
    dict_lookup(args, key)
}

/// The kind of value that a property update carries for a key.
#[derive(Debug, Clone, Copy, PartialEq, Eq, Structural)]
pub enum ArgKind {
    /// A `u8`, non-zero meaning true.
    Flag,
    /// An `f32`.
    Float,
    U8,
    U16,
    U32,
    I8,
    I32,
    /// A blob of bytes.
    Bytes,
    /// An array of `u32`.
    U32List,
    /// An array of UTF-8 strings.
    TextList,
    /// A dictionary of crew properties.
    Dict,
    /// A blob holding a ship configuration.
    ShipConfigBlob,
}

/// The items of an array of `u32` values.
pub open spec fn u32_items(v: ArgVal) -> Option<Seq<u32>> {
    match v {
        ArgVal::Array(a) => if forall|k: int| 0 <= k < a@.len() ==> #[trigger] a@[k] is Uint32 {
            Some(a@.map_values(|x: ArgVal| x->Uint32_0))
        } else {
            None
        },
        _ => None,
    }
}

/// The texts of an array of UTF-8 strings.
pub open spec fn text_items(v: ArgVal) -> Option<Seq<Seq<char>>> {
    match v {
        ArgVal::Array(a) => if forall|k: int|
            0 <= k < a@.len() ==> #[trigger] a@[k] is String && valid_utf8(a@[k]->String_0@) {
            Some(a@.map_values(|x: ArgVal| decode_utf8(x->String_0@)))
        } else {
            None
        },
        _ => None,
    }
}

/// A blob that holds a complete ship configuration for the version.
pub open spec fn ship_config_ok(b: Seq<u8>, version: GameVersion) -> bool {
    let extra = at_least(version, ship_config_extra_word_release());
    sc_end(b, extra) <= b.len() && sc_units_count(b) > 0
}

/// A property value (if present) is of the kind that its key carries.
pub open spec fn arg_kind_ok(v: Option<ArgVal>, kind: ArgKind, version: GameVersion) -> bool {
    match v {
        None => true,
        Some(v) => match kind {
            ArgKind::Flag => v is Uint8,
            ArgKind::Float => v is Float32,
            ArgKind::U8 => v is Uint8,
            ArgKind::U16 => v is Uint16,
            ArgKind::U32 => v is Uint32,
            ArgKind::I8 => v is Int8,
            ArgKind::I32 => v is Int32,
            ArgKind::Bytes => v is Blob,
            ArgKind::U32List => u32_items(v) is Some,
            ArgKind::TextList => text_items(v) is Some,
            ArgKind::Dict => v matches ArgVal::FixedDict(d) && crew_args_well_formed(d@),
            ArgKind::ShipConfigBlob => v matches ArgVal::Blob(b) && ship_config_ok(b@, version),
        },
    }
}

fn u32_list_of(v: &ArgVal) -> (r: Option<Vec<u32>>)
    ensures
        match u32_items(*v) {
            Some(s) => r matches Some(x) && x@ == s,
            None => r is None,
        },
{
    let a = match v {
        ArgVal::Array(a) => a,
        _ => {
            return None;
        },
    };
    let mut out: Vec<u32> = Vec::new();
    let mut k: usize = 0;
    while k < a.len()
        invariant
            k <= a@.len(),
            *v == ArgVal::Array(*a),
            out@.len() == k,
            forall|j: int| 0 <= j < k ==> #[trigger] a@[j] is Uint32 && out@[j] == a@[j]->Uint32_0,
        decreases a@.len() - k,
    {
        match &a[k] {
            ArgVal::Uint32(x) => out.push(*x),
            _ => {
                assert(!(a@[k as int] is Uint32));
                return None;
            },
        }
        k += 1;
    }
    assert(out@ =~= a@.map_values(|x: ArgVal| x->Uint32_0));
    Some(out)
}

fn text_list_of(v: &ArgVal) -> (r: Option<Vec<String>>)
    ensures
        match text_items(*v) {
            Some(s) => r matches Some(x) && x@.map_values(|t: String| t@) == s,
            None => r is None,
        },
{
    let a = match v {
        ArgVal::Array(a) => a,
        _ => {
            return None;
        },
    };
    let mut out: Vec<String> = Vec::new();
    let mut k: usize = 0;
    while k < a.len()
        invariant
            k <= a@.len(),
            *v == ArgVal::Array(*a),
            out@.len() == k,
            forall|j: int|
                0 <= j < k ==> #[trigger] a@[j] is String && valid_utf8(a@[j]->String_0@)
                    && out@[j]@ == decode_utf8(a@[j]->String_0@),
        decreases a@.len() - k,
    {
        match &a[k] {
            ArgVal::String(b) => match string_from_utf8(b.as_slice()) {
                Some(s) => out.push(s),
                None => {
                    assert(!(a@[k as int] is String && valid_utf8(a@[k as int]->String_0@)));
                    return None;
                },
            },
            _ => {
                assert(!(a@[k as int] is String));
                return None;
            },
        }
        k += 1;
    }
    assert(out@.map_values(|t: String| t@) =~= a@.map_values(|x: ArgVal| decode_utf8(x->String_0@)));
    Some(out)
}

fn arg_kind_valid(args: &Vec<(String, ArgVal)>, key: &str, kind: ArgKind, version: &GameVersion) -> (r: bool)
    ensures
        r == arg_kind_ok(prop(args@, key@), kind, *version),
{
    reveal(prop);
    let v = match dict_get(args, key) {
        Some(v) => v,
        None => {
            return true;
        },
    };
    match kind {
        ArgKind::Flag => matches!(v, ArgVal::Uint8(_)),
        ArgKind::Float => matches!(v, ArgVal::Float32(_)),
        ArgKind::U8 => matches!(v, ArgVal::Uint8(_)),
        ArgKind::U16 => matches!(v, ArgVal::Uint16(_)),
        ArgKind::U32 => matches!(v, ArgVal::Uint32(_)),
        ArgKind::I8 => matches!(v, ArgVal::Int8(_)),
        ArgKind::I32 => matches!(v, ArgVal::Int32(_)),
        ArgKind::Bytes => matches!(v, ArgVal::Blob(_)),
        ArgKind::U32List => u32_list_of(v).is_some(),
        ArgKind::TextList => text_list_of(v).is_some(),
        ArgKind::Dict => match v {
            ArgVal::FixedDict(d) => {
                let mut scratch = CrewModifiersCompactParams::new();
                scratch.update_from_args(d).is_ok()
            },
            _ => false,
        },
        ArgKind::ShipConfigBlob => match v {
            ArgVal::Blob(b) => parse_ship_config(b.as_slice(), version).is_ok(),
            _ => false,
        },
    }
}

fn apply_flag(cur: bool, args: &Vec<(String, ArgVal)>, key: &str) -> (r: bool)
    requires
        prop(args@, key@) matches Some(v) ==> v is Uint8,
    ensures
        r == match prop(args@, key@) {
            Some(v) => v->Uint8_0 != 0,
            None => cur,
        },
{
    reveal(prop);
    match dict_get(args, key) {
        Some(ArgVal::Uint8(x)) => *x != 0,
        _ => cur,
    }
}

fn apply_float(cur: u32, args: &Vec<(String, ArgVal)>, key: &str) -> (r: u32)
    requires
        prop(args@, key@) matches Some(v) ==> v is Float32,
    ensures
        r == match prop(args@, key@) {
            Some(v) => v->Float32_0,
            None => cur,
        },
{
    reveal(prop);
    match dict_get(args, key) {
        Some(ArgVal::Float32(x)) => *x,
        _ => cur,
    }
}

fn apply_u8(cur: u8, args: &Vec<(String, ArgVal)>, key: &str) -> (r: u8)
    requires
        prop(args@, key@) matches Some(v) ==> v is Uint8,
    ensures
        r == match prop(args@, key@) {
            Some(v) => v->Uint8_0,
            None => cur,
        },
{
    reveal(prop);
    match dict_get(args, key) {
        Some(ArgVal::Uint8(x)) => *x,
        _ => cur,
    }
}

fn apply_u16(cur: u16, args: &Vec<(String, ArgVal)>, key: &str) -> (r: u16)
    requires
        prop(args@, key@) matches Some(v) ==> v is Uint16,
    ensures
        r == match prop(args@, key@) {
            Some(v) => v->Uint16_0,
            None => cur,
        },
{
    reveal(prop);
    match dict_get(args, key) {
        Some(ArgVal::Uint16(x)) => *x,
        _ => cur,
    }
}

fn apply_u32(cur: u32, args: &Vec<(String, ArgVal)>, key: &str) -> (r: u32)
    requires
        prop(args@, key@) matches Some(v) ==> v is Uint32,
    ensures
        r == match prop(args@, key@) {
            Some(v) => v->Uint32_0,
            None => cur,
        },
{
    reveal(prop);
    match dict_get(args, key) {
        Some(ArgVal::Uint32(x)) => *x,
        _ => cur,
    }
}

fn apply_i8(cur: i8, args: &Vec<(String, ArgVal)>, key: &str) -> (r: i8)
    requires
        prop(args@, key@) matches Some(v) ==> v is Int8,
    ensures
        r == match prop(args@, key@) {
            Some(v) => v->Int8_0,
            None => cur,
        },
{
    reveal(prop);
    match dict_get(args, key) {
        Some(ArgVal::Int8(x)) => *x,
        _ => cur,
    }
}

fn apply_owner(cur: u32, args: &Vec<(String, ArgVal)>, key: &str) -> (r: u32)
    requires
        prop(args@, key@) matches Some(v) ==> v is Int32,
    ensures
        r == match prop(args@, key@) {
            Some(v) => v->Int32_0 as u32,
            None => cur,
        },
{
    reveal(prop);
    match dict_get(args, key) {
        Some(ArgVal::Int32(x)) => *x as u32,
        _ => cur,
    }
}

fn copy_vec(b: &Vec<u8>) -> (r: Vec<u8>)
    ensures
        r@ == b@,
{
    let mut out: Vec<u8> = Vec::new();
    let mut k: usize = 0;
    while k < b.len()
        invariant
            k <= b@.len(),
            out@ == b@.subrange(0, k as int),
        decreases b@.len() - k,
    {
        out.push(b[k]);
        k += 1;
    }
    assert(b@.subrange(0, b@.len() as int) =~= b@);
    out
}

fn apply_bytes(cur: &mut Vec<u8>, args: &Vec<(String, ArgVal)>, key: &str)
    requires
        prop(args@, key@) matches Some(v) ==> v is Blob,
    ensures
        final(cur)@ == match prop(args@, key@) {
            Some(v) => v->Blob_0@,
            None => old(cur)@,
        },
{
    reveal(prop);
    if let Some(ArgVal::Blob(b)) = dict_get(args, key) {
        *cur = copy_vec(b);
    }
}

fn apply_u32_list(cur: &mut Vec<u32>, args: &Vec<(String, ArgVal)>, key: &str)
    requires
        prop(args@, key@) matches Some(v) ==> u32_items(v) is Some,
    ensures
        final(cur)@ == match prop(args@, key@) {
            Some(v) => u32_items(v)->0,
            None => old(cur)@,
        },
{
    reveal(prop);
    if let Some(v) = dict_get(args, key) {
        if let Some(list) = u32_list_of(v) {
            *cur = list;
        }
    }
}

fn apply_text_list(cur: &mut Vec<String>, args: &Vec<(String, ArgVal)>, key: &str)
    requires
        prop(args@, key@) matches Some(v) ==> text_items(v) is Some,
    ensures
        final(cur)@.map_values(|s: String| s@) == match prop(args@, key@) {
            Some(v) => text_items(v)->0,
            None => old(cur)@.map_values(|s: String| s@),
        },
{
    reveal(prop);
    if let Some(v) = dict_get(args, key) {
        if let Some(list) = text_list_of(v) {
            *cur = list;
        }
    }
}

fn apply_crew(cur: &mut CrewModifiersCompactParams, args: &Vec<(String, ArgVal)>, key: &str)
    requires
        prop(args@, key@) matches Some(v) ==> (v matches ArgVal::FixedDict(d)
            && crew_args_well_formed(d@)),
    ensures
        prop(args@, key@) is None ==> *final(cur) == *old(cur),
        prop(args@, key@) matches Some(ArgVal::FixedDict(d)) ==> crew_updated(
            *old(cur),
            *final(cur),
            d@,
        ),
{
    reveal(prop);
    if let Some(ArgVal::FixedDict(d)) = dict_get(args, key) {
        let _ = cur.update_from_args(d);
    }
}

fn apply_ship_config(
    cur: &mut ShipConfig,
    args: &Vec<(String, ArgVal)>,
    key: &str,
    version: &GameVersion,
)
    requires
        prop(args@, key@) matches Some(v) ==> (v matches ArgVal::Blob(b) && ship_config_ok(
            b@,
            *version,
        )),
    ensures
        prop(args@, key@) is None ==> *final(cur) == *old(cur),
        prop(args@, key@) matches Some(ArgVal::Blob(b)) ==> ship_config_matches(
            *final(cur),
            b@,
            at_least(*version, ship_config_extra_word_release()),
        ),
{
    reveal(prop);
    if let Some(ArgVal::Blob(b)) = dict_get(args, key) {
        if let Ok((c, _)) = parse_ship_config(b.as_slice(), version) {
            *cur = c;
        }
    }
}

/// The properties of a vehicle entity. Floating-point values are bit patterns.
#[derive(Debug, Default)]
pub struct VehicleProps {
    pub ignore_map_borders: bool,
    pub air_defense_dispersion_radius: u32,
    pub death_settings: Vec<u8>,
    pub owner: u32,
    pub atba_targets: Vec<u32>,
    pub effects: Vec<String>,
    pub crew_modifiers_compact_params: CrewModifiersCompactParams,
    pub laser_target_local_pos: u16,
    pub selected_weapon: u32,
    pub is_on_forsage: bool,
    pub is_in_rage_mode: bool,
    pub has_air_targets_in_range: bool,
    pub torpedo_local_pos: u16,
    pub buoyancy: u32,
    pub max_health: u32,
    pub draught: u32,
    pub rudders_angle: u32,
    pub target_local_pos: u16,
    pub triggered_skills_data: Vec<u8>,
    pub regenerated_health: u32,
    pub blocked_controls: u8,
    pub is_invisible: bool,
    pub is_fog_horn_on: bool,
    pub server_speed_raw: u16,
    pub regen_crew_hp_limit: u32,
    pub buoyancy_current_waterline: u32,
    pub is_alive: bool,
    pub is_bot: bool,
    pub visibility_flags: u32,
    pub buoyancy_rudder_index: u8,
    pub is_anti_air_mode: bool,
    pub speed_sign_dir: i8,
    pub oil_leak_state: u8,
    pub ship_config: ShipConfig,
    pub wave_local_pos: u16,
    pub has_active_main_squadron: bool,
    pub weapon_lock_flags: u16,
    pub deep_rudders_angle: u32,
    pub health: u32,
    pub engine_dir: i8,
    pub team_id: i8,
    pub buoyancy_current_state: u8,
    pub ui_enabled: bool,
    pub respawn_time: u16,
    pub engine_power: u8,
    pub max_server_speed_raw: u32,
    pub burning_flags: u16,
    pub regeneration_health: u32,
    pub anti_air_auras: Vec<AAAura>,
    pub air_defense_target_ids: Vec<()>,
    pub miscs_presets_status: Vec<()>,
    pub heat_infos: Vec<()>,
    pub sounds: Vec<()>,
    pub debug_text: Vec<()>,
    pub state: VehicleState,
}

/// The properties present in an update have the kinds that the game sends.
pub open spec fn vehicle_args_ok(args: Seq<(String, ArgVal)>, version: GameVersion) -> bool {
    &&& arg_kind_ok(prop(args, "ignoreMapBorders"@), ArgKind::Flag, version)
    &&& arg_kind_ok(prop(args, "airDefenseDispRadius"@), ArgKind::Float, version)
    &&& arg_kind_ok(prop(args, "deathSettings"@), ArgKind::Bytes, version)
    &&& arg_kind_ok(prop(args, "owner"@), ArgKind::I32, version)
    &&& arg_kind_ok(prop(args, "atbaTargets"@), ArgKind::U32List, version)
    &&& arg_kind_ok(prop(args, "effects"@), ArgKind::TextList, version)
    &&& arg_kind_ok(prop(args, "crewModifiersCompactParams"@), ArgKind::Dict, version)
    &&& arg_kind_ok(prop(args, "laserTargetLocalPos"@), ArgKind::U16, version)
    &&& arg_kind_ok(prop(args, "selectedWeapon"@), ArgKind::U32, version)
    &&& arg_kind_ok(prop(args, "isOnForsage"@), ArgKind::Flag, version)
    &&& arg_kind_ok(prop(args, "isInRageMode"@), ArgKind::Flag, version)
    &&& arg_kind_ok(prop(args, "hasAirTargetsInRange"@), ArgKind::Flag, version)
    &&& arg_kind_ok(prop(args, "torpedoLocalPos"@), ArgKind::U16, version)
    &&& arg_kind_ok(prop(args, "buoyancy"@), ArgKind::Float, version)
    &&& arg_kind_ok(prop(args, "maxHealth"@), ArgKind::Float, version)
    &&& arg_kind_ok(prop(args, "draught"@), ArgKind::Float, version)
    &&& arg_kind_ok(prop(args, "ruddersAngle"@), ArgKind::Float, version)
    &&& arg_kind_ok(prop(args, "targetLocalPos"@), ArgKind::U16, version)
    &&& arg_kind_ok(prop(args, "triggeredSkillsData"@), ArgKind::Bytes, version)
    &&& arg_kind_ok(prop(args, "regeneratedHealth"@), ArgKind::Float, version)
    &&& arg_kind_ok(prop(args, "blockedControls"@), ArgKind::U8, version)
    &&& arg_kind_ok(prop(args, "isInvisible"@), ArgKind::Flag, version)
    &&& arg_kind_ok(prop(args, "isFogHornOn"@), ArgKind::Flag, version)
    &&& arg_kind_ok(prop(args, "serverSpeedRaw"@), ArgKind::U16, version)
    &&& arg_kind_ok(prop(args, "regenCrewHpLimit"@), ArgKind::Float, version)
    &&& arg_kind_ok(prop(args, "buoyancyCurrentWaterline"@), ArgKind::Float, version)
    &&& arg_kind_ok(prop(args, "isAlive"@), ArgKind::Flag, version)
    &&& arg_kind_ok(prop(args, "isBot"@), ArgKind::Flag, version)
    &&& arg_kind_ok(prop(args, "visibilityFlags"@), ArgKind::U32, version)
    &&& arg_kind_ok(prop(args, "buoyancyRudderIndex"@), ArgKind::U8, version)
    &&& arg_kind_ok(prop(args, "isAntiAirMode"@), ArgKind::Flag, version)
    &&& arg_kind_ok(prop(args, "speedSignDir"@), ArgKind::I8, version)
    &&& arg_kind_ok(prop(args, "oilLeakState"@), ArgKind::U8, version)
    &&& arg_kind_ok(prop(args, "shipConfig"@), ArgKind::ShipConfigBlob, version)
    &&& arg_kind_ok(prop(args, "waveLocalPos"@), ArgKind::U16, version)
    &&& arg_kind_ok(prop(args, "hasActiveMainSquadron"@), ArgKind::Flag, version)
    &&& arg_kind_ok(prop(args, "weaponLockFlags"@), ArgKind::U16, version)
    &&& arg_kind_ok(prop(args, "deepRuddersAngle"@), ArgKind::Float, version)
    &&& arg_kind_ok(prop(args, "health"@), ArgKind::Float, version)
    &&& arg_kind_ok(prop(args, "engineDir"@), ArgKind::I8, version)
    &&& arg_kind_ok(prop(args, "teamId"@), ArgKind::I8, version)
    &&& arg_kind_ok(prop(args, "buoyancyCurrentState"@), ArgKind::U8, version)
    &&& arg_kind_ok(prop(args, "uiEnabled"@), ArgKind::Flag, version)
    &&& arg_kind_ok(prop(args, "respawnTime"@), ArgKind::U16, version)
    &&& arg_kind_ok(prop(args, "enginePower"@), ArgKind::U8, version)
    &&& arg_kind_ok(prop(args, "maxServerSpeedRaw"@), ArgKind::U32, version)
    &&& arg_kind_ok(prop(args, "burningFlags"@), ArgKind::U16, version)
}

pub(crate) fn vehicle_args_valid(args: &Vec<(String, ArgVal)>, version: &GameVersion) -> (r: bool)
    ensures
        r == vehicle_args_ok(args@, *version),
{
    if !arg_kind_valid(args, "ignoreMapBorders", ArgKind::Flag, version) {
        return false;
    }
    if !arg_kind_valid(args, "airDefenseDispRadius", ArgKind::Float, version) {
        return false;
    }
    if !arg_kind_valid(args, "deathSettings", ArgKind::Bytes, version) {
        return false;
    }
    if !arg_kind_valid(args, "owner", ArgKind::I32, version) {
        return false;
    }
    if !arg_kind_valid(args, "atbaTargets", ArgKind::U32List, version) {
        return false;
    }
    if !arg_kind_valid(args, "effects", ArgKind::TextList, version) {
        return false;
    }
    if !arg_kind_valid(args, "crewModifiersCompactParams", ArgKind::Dict, version) {
        return false;
    }
    if !arg_kind_valid(args, "laserTargetLocalPos", ArgKind::U16, version) {
        return false;
    }
    if !arg_kind_valid(args, "selectedWeapon", ArgKind::U32, version) {
        return false;
    }
    if !arg_kind_valid(args, "isOnForsage", ArgKind::Flag, version) {
        return false;
    }
    if !arg_kind_valid(args, "isInRageMode", ArgKind::Flag, version) {
        return false;
    }
    if !arg_kind_valid(args, "hasAirTargetsInRange", ArgKind::Flag, version) {
        return false;
    }
    if !arg_kind_valid(args, "torpedoLocalPos", ArgKind::U16, version) {
        return false;
    }
    if !arg_kind_valid(args, "buoyancy", ArgKind::Float, version) {
        return false;
    }
    if !arg_kind_valid(args, "maxHealth", ArgKind::Float, version) {
        return false;
    }
    if !arg_kind_valid(args, "draught", ArgKind::Float, version) {
        return false;
    }
    if !arg_kind_valid(args, "ruddersAngle", ArgKind::Float, version) {
        return false;
    }
    if !arg_kind_valid(args, "targetLocalPos", ArgKind::U16, version) {
        return false;
    }
    if !arg_kind_valid(args, "triggeredSkillsData", ArgKind::Bytes, version) {
        return false;
    }
    if !arg_kind_valid(args, "regeneratedHealth", ArgKind::Float, version) {
        return false;
    }
    if !arg_kind_valid(args, "blockedControls", ArgKind::U8, version) {
        return false;
    }
    if !arg_kind_valid(args, "isInvisible", ArgKind::Flag, version) {
        return false;
    }
    if !arg_kind_valid(args, "isFogHornOn", ArgKind::Flag, version) {
        return false;
    }
    if !arg_kind_valid(args, "serverSpeedRaw", ArgKind::U16, version) {
        return false;
    }
    if !arg_kind_valid(args, "regenCrewHpLimit", ArgKind::Float, version) {
        return false;
    }
    if !arg_kind_valid(args, "buoyancyCurrentWaterline", ArgKind::Float, version) {
        return false;
    }
    if !arg_kind_valid(args, "isAlive", ArgKind::Flag, version) {
        return false;
    }
    if !arg_kind_valid(args, "isBot", ArgKind::Flag, version) {
        return false;
    }
    if !arg_kind_valid(args, "visibilityFlags", ArgKind::U32, version) {
        return false;
    }
    if !arg_kind_valid(args, "buoyancyRudderIndex", ArgKind::U8, version) {
        return false;
    }
    if !arg_kind_valid(args, "isAntiAirMode", ArgKind::Flag, version) {
        return false;
    }
    if !arg_kind_valid(args, "speedSignDir", ArgKind::I8, version) {
        return false;
    }
    if !arg_kind_valid(args, "oilLeakState", ArgKind::U8, version) {
        return false;
    }
    if !arg_kind_valid(args, "shipConfig", ArgKind::ShipConfigBlob, version) {
        return false;
    }
    if !arg_kind_valid(args, "waveLocalPos", ArgKind::U16, version) {
        return false;
    }
    if !arg_kind_valid(args, "hasActiveMainSquadron", ArgKind::Flag, version) {
        return false;
    }
    if !arg_kind_valid(args, "weaponLockFlags", ArgKind::U16, version) {
        return false;
    }
    if !arg_kind_valid(args, "deepRuddersAngle", ArgKind::Float, version) {
        return false;
    }
    if !arg_kind_valid(args, "health", ArgKind::Float, version) {
        return false;
    }
    if !arg_kind_valid(args, "engineDir", ArgKind::I8, version) {
        return false;
    }
    if !arg_kind_valid(args, "teamId", ArgKind::I8, version) {
        return false;
    }
    if !arg_kind_valid(args, "buoyancyCurrentState", ArgKind::U8, version) {
        return false;
    }
    if !arg_kind_valid(args, "uiEnabled", ArgKind::Flag, version) {
        return false;
    }
    if !arg_kind_valid(args, "respawnTime", ArgKind::U16, version) {
        return false;
    }
    if !arg_kind_valid(args, "enginePower", ArgKind::U8, version) {
        return false;
    }
    if !arg_kind_valid(args, "maxServerSpeedRaw", ArgKind::U32, version) {
        return false;
    }
    if !arg_kind_valid(args, "burningFlags", ArgKind::U16, version) {
        return false;
    }
    true
}

/// The properties of a vehicle that no update has touched.
pub open spec fn fresh_props(q: VehicleProps) -> bool {
    &&& !q.ignore_map_borders
    &&& q.air_defense_dispersion_radius == 0
    &&& q.death_settings@.len() == 0
    &&& q.owner == 0
    &&& q.atba_targets@.len() == 0
    &&& q.effects@.len() == 0
    &&& crew_fresh(q.crew_modifiers_compact_params)
    &&& q.laser_target_local_pos == 0
    &&& q.selected_weapon == 0
    &&& !q.is_on_forsage
    &&& !q.is_in_rage_mode
    &&& !q.has_air_targets_in_range
    &&& q.torpedo_local_pos == 0
    &&& q.buoyancy == 0
    &&& q.max_health == 0
    &&& q.draught == 0
    &&& q.rudders_angle == 0
    &&& q.target_local_pos == 0
    &&& q.triggered_skills_data@.len() == 0
    &&& q.regenerated_health == 0
    &&& q.blocked_controls == 0
    &&& !q.is_invisible
    &&& !q.is_fog_horn_on
    &&& q.server_speed_raw == 0
    &&& q.regen_crew_hp_limit == 0
    &&& q.buoyancy_current_waterline == 0
    &&& !q.is_alive
    &&& !q.is_bot
    &&& q.visibility_flags == 0
    &&& q.buoyancy_rudder_index == 0
    &&& !q.is_anti_air_mode
    &&& q.speed_sign_dir == 0
    &&& q.oil_leak_state == 0
    &&& ship_config_fresh(q.ship_config)
    &&& q.wave_local_pos == 0
    &&& !q.has_active_main_squadron
    &&& q.weapon_lock_flags == 0
    &&& q.deep_rudders_angle == 0
    &&& q.health == 0
    &&& q.engine_dir == 0
    &&& q.team_id == 0
    &&& q.buoyancy_current_state == 0
    &&& !q.ui_enabled
    &&& q.respawn_time == 0
    &&& q.engine_power == 0
    &&& q.max_server_speed_raw == 0
    &&& q.burning_flags == 0
    &&& q.regeneration_health == 0
    &&& q.anti_air_auras@.len() == 0
    &&& q.air_defense_target_ids@.len() == 0
    &&& q.miscs_presets_status@.len() == 0
    &&& q.heat_infos@.len() == 0
    &&& q.sounds@.len() == 0
    &&& q.debug_text@.len() == 0
    &&& q.state == initial_vehicle_state()
}

/// The properties of a vehicle created with well-formed `args`: those of a
/// vehicle that no update has touched, updated with `args`.
pub open spec fn props_from_args(p: VehicleProps, args: Seq<(String, ArgVal)>, version: GameVersion) -> bool {
    exists|q: VehicleProps| fresh_props(q) && #[trigger] props_updated(q, p, args, version)
}

/// The properties after an update with well-formed `args`: each property
/// present in `args` takes the sent value, the others stay as they were.
pub open spec fn props_updated(old: VehicleProps, new: VehicleProps, args: Seq<(String, ArgVal)>, version: GameVersion) -> bool {
    &&& new.ignore_map_borders == match prop(args, "ignoreMapBorders"@) {
        Some(v) => v->Uint8_0 != 0,
        None => old.ignore_map_borders,
    }
    &&& new.air_defense_dispersion_radius == match prop(args, "airDefenseDispRadius"@) {
        Some(v) => v->Float32_0,
        None => old.air_defense_dispersion_radius,
    }
    &&& new.death_settings@ == match prop(args, "deathSettings"@) {
        Some(v) => v->Blob_0@,
        None => old.death_settings@,
    }
    &&& new.owner == match prop(args, "owner"@) {
        Some(v) => v->Int32_0 as u32,
        None => old.owner,
    }
    &&& new.atba_targets@ == match prop(args, "atbaTargets"@) {
        Some(v) => u32_items(v)->0,
        None => old.atba_targets@,
    }
    &&& new.effects@.map_values(|s: String| s@) == match prop(args, "effects"@) {
        Some(v) => text_items(v)->0,
        None => old.effects@.map_values(|s: String| s@),
    }
    &&& (prop(args, "crewModifiersCompactParams"@) is None ==> new.crew_modifiers_compact_params == old.crew_modifiers_compact_params)
    &&& (prop(args, "crewModifiersCompactParams"@) matches Some(ArgVal::FixedDict(d)) ==> crew_updated(old.crew_modifiers_compact_params, new.crew_modifiers_compact_params, d@))
    &&& new.laser_target_local_pos == match prop(args, "laserTargetLocalPos"@) {
        Some(v) => v->Uint16_0,
        None => old.laser_target_local_pos,
    }
    &&& new.selected_weapon == match prop(args, "selectedWeapon"@) {
        Some(v) => v->Uint32_0,
        None => old.selected_weapon,
    }
    &&& new.is_on_forsage == match prop(args, "isOnForsage"@) {
        Some(v) => v->Uint8_0 != 0,
        None => old.is_on_forsage,
    }
    &&& new.is_in_rage_mode == match prop(args, "isInRageMode"@) {
        Some(v) => v->Uint8_0 != 0,
        None => old.is_in_rage_mode,
    }
    &&& new.has_air_targets_in_range == match prop(args, "hasAirTargetsInRange"@) {
        Some(v) => v->Uint8_0 != 0,
        None => old.has_air_targets_in_range,
    }
    &&& new.torpedo_local_pos == match prop(args, "torpedoLocalPos"@) {
        Some(v) => v->Uint16_0,
        None => old.torpedo_local_pos,
    }
    &&& new.buoyancy == match prop(args, "buoyancy"@) {
        Some(v) => v->Float32_0,
        None => old.buoyancy,
    }
    &&& new.max_health == match prop(args, "maxHealth"@) {
        Some(v) => v->Float32_0,
        None => old.max_health,
    }
    &&& new.draught == match prop(args, "draught"@) {
        Some(v) => v->Float32_0,
        None => old.draught,
    }
    &&& new.rudders_angle == match prop(args, "ruddersAngle"@) {
        Some(v) => v->Float32_0,
        None => old.rudders_angle,
    }
    &&& new.target_local_pos == match prop(args, "targetLocalPos"@) {
        Some(v) => v->Uint16_0,
        None => old.target_local_pos,
    }
    &&& new.triggered_skills_data@ == match prop(args, "triggeredSkillsData"@) {
        Some(v) => v->Blob_0@,
        None => old.triggered_skills_data@,
    }
    &&& new.regenerated_health == match prop(args, "regeneratedHealth"@) {
        Some(v) => v->Float32_0,
        None => old.regenerated_health,
    }
    &&& new.blocked_controls == match prop(args, "blockedControls"@) {
        Some(v) => v->Uint8_0,
        None => old.blocked_controls,
    }
    &&& new.is_invisible == match prop(args, "isInvisible"@) {
        Some(v) => v->Uint8_0 != 0,
        None => old.is_invisible,
    }
    &&& new.is_fog_horn_on == match prop(args, "isFogHornOn"@) {
        Some(v) => v->Uint8_0 != 0,
        None => old.is_fog_horn_on,
    }
    &&& new.server_speed_raw == match prop(args, "serverSpeedRaw"@) {
        Some(v) => v->Uint16_0,
        None => old.server_speed_raw,
    }
    &&& new.regen_crew_hp_limit == match prop(args, "regenCrewHpLimit"@) {
        Some(v) => v->Float32_0,
        None => old.regen_crew_hp_limit,
    }
    &&& new.buoyancy_current_waterline == match prop(args, "buoyancyCurrentWaterline"@) {
        Some(v) => v->Float32_0,
        None => old.buoyancy_current_waterline,
    }
    &&& new.is_alive == match prop(args, "isAlive"@) {
        Some(v) => v->Uint8_0 != 0,
        None => old.is_alive,
    }
    &&& new.is_bot == match prop(args, "isBot"@) {
        Some(v) => v->Uint8_0 != 0,
        None => old.is_bot,
    }
    &&& new.visibility_flags == match prop(args, "visibilityFlags"@) {
        Some(v) => v->Uint32_0,
        None => old.visibility_flags,
    }
    &&& new.buoyancy_rudder_index == match prop(args, "buoyancyRudderIndex"@) {
        Some(v) => v->Uint8_0,
        None => old.buoyancy_rudder_index,
    }
    &&& new.is_anti_air_mode == match prop(args, "isAntiAirMode"@) {
        Some(v) => v->Uint8_0 != 0,
        None => old.is_anti_air_mode,
    }
    &&& new.speed_sign_dir == match prop(args, "speedSignDir"@) {
        Some(v) => v->Int8_0,
        None => old.speed_sign_dir,
    }
    &&& new.oil_leak_state == match prop(args, "oilLeakState"@) {
        Some(v) => v->Uint8_0,
        None => old.oil_leak_state,
    }
    &&& (prop(args, "shipConfig"@) is None ==> new.ship_config == old.ship_config)
    &&& (prop(args, "shipConfig"@) matches Some(ArgVal::Blob(b)) ==> ship_config_matches(
        new.ship_config,
        b@,
        at_least(version, ship_config_extra_word_release()),
    ))
    &&& new.wave_local_pos == match prop(args, "waveLocalPos"@) {
        Some(v) => v->Uint16_0,
        None => old.wave_local_pos,
    }
    &&& new.has_active_main_squadron == match prop(args, "hasActiveMainSquadron"@) {
        Some(v) => v->Uint8_0 != 0,
        None => old.has_active_main_squadron,
    }
    &&& new.weapon_lock_flags == match prop(args, "weaponLockFlags"@) {
        Some(v) => v->Uint16_0,
        None => old.weapon_lock_flags,
    }
    &&& new.deep_rudders_angle == match prop(args, "deepRuddersAngle"@) {
        Some(v) => v->Float32_0,
        None => old.deep_rudders_angle,
    }
    &&& new.health == match prop(args, "health"@) {
        Some(v) => v->Float32_0,
        None => old.health,
    }
    &&& new.engine_dir == match prop(args, "engineDir"@) {
        Some(v) => v->Int8_0,
        None => old.engine_dir,
    }
    &&& new.team_id == match prop(args, "teamId"@) {
        Some(v) => v->Int8_0,
        None => old.team_id,
    }
    &&& new.buoyancy_current_state == match prop(args, "buoyancyCurrentState"@) {
        Some(v) => v->Uint8_0,
        None => old.buoyancy_current_state,
    }
    &&& new.ui_enabled == match prop(args, "uiEnabled"@) {
        Some(v) => v->Uint8_0 != 0,
        None => old.ui_enabled,
    }
    &&& new.respawn_time == match prop(args, "respawnTime"@) {
        Some(v) => v->Uint16_0,
        None => old.respawn_time,
    }
    &&& new.engine_power == match prop(args, "enginePower"@) {
        Some(v) => v->Uint8_0,
        None => old.engine_power,
    }
    &&& new.max_server_speed_raw == match prop(args, "maxServerSpeedRaw"@) {
        Some(v) => v->Uint32_0,
        None => old.max_server_speed_raw,
    }
    &&& new.burning_flags == match prop(args, "burningFlags"@) {
        Some(v) => v->Uint16_0,
        None => old.burning_flags,
    }
    &&& new.regeneration_health == old.regeneration_health
    &&& new.anti_air_auras@ == old.anti_air_auras@
    &&& new.air_defense_target_ids@ == old.air_defense_target_ids@
    &&& new.miscs_presets_status@ == old.miscs_presets_status@
    &&& new.heat_infos@ == old.heat_infos@
    &&& new.sounds@ == old.sounds@
    &&& new.debug_text@ == old.debug_text@
    &&& new.state == old.state
}

impl VehicleProps {
    /// Applies one property by its wire name, as `update_from_args` does
    /// with the single pair `(name, value)`.
    pub fn update_by_name(&mut self, name: String, value: ArgVal, version: &GameVersion) -> (r: Result<(), ()>)
        ensures
            r is Ok <==> vehicle_args_ok(seq![(name, value)], *version),
            r is Err ==> *final(self) == *old(self),
            r is Ok ==> props_updated(*old(self), *final(self), seq![(name, value)], *version),
    {
        let mut args: Vec<(String, ArgVal)> = Vec::new();
        args.push((name, value));
        assert(args@ =~= seq![(name, value)]);
        self.update_from_args(&args, version)
    }

    /// Applies the properties present in `args`; a property of an
    /// unexpected kind (or a ship configuration that does not parse) rejects
    /// the whole update and leaves the properties as they were.
    #[verifier::rlimit(100)]
    #[verifier::spinoff_prover]
    pub fn update_from_args(&mut self, args: &Vec<(String, ArgVal)>, version: &GameVersion) -> (r: Result<(), ()>)
        ensures
            r is Ok <==> vehicle_args_ok(args@, *version),
            r is Err ==> *final(self) == *old(self),
            r is Ok ==> props_updated(*old(self), *final(self), args@, *version),
    {
        if !vehicle_args_valid(args, version) {
            return Err(());
        }
        self.ignore_map_borders = apply_flag(self.ignore_map_borders, args, "ignoreMapBorders");
        self.air_defense_dispersion_radius = apply_float(self.air_defense_dispersion_radius, args, "airDefenseDispRadius");
        apply_bytes(&mut self.death_settings, args, "deathSettings");
        self.owner = apply_owner(self.owner, args, "owner");
        apply_u32_list(&mut self.atba_targets, args, "atbaTargets");
        apply_text_list(&mut self.effects, args, "effects");
        apply_crew(&mut self.crew_modifiers_compact_params, args, "crewModifiersCompactParams");
        self.laser_target_local_pos = apply_u16(self.laser_target_local_pos, args, "laserTargetLocalPos");
        self.selected_weapon = apply_u32(self.selected_weapon, args, "selectedWeapon");
        self.is_on_forsage = apply_flag(self.is_on_forsage, args, "isOnForsage");
        self.is_in_rage_mode = apply_flag(self.is_in_rage_mode, args, "isInRageMode");
        self.has_air_targets_in_range = apply_flag(self.has_air_targets_in_range, args, "hasAirTargetsInRange");
        self.torpedo_local_pos = apply_u16(self.torpedo_local_pos, args, "torpedoLocalPos");
        self.buoyancy = apply_float(self.buoyancy, args, "buoyancy");
        self.max_health = apply_float(self.max_health, args, "maxHealth");
        self.draught = apply_float(self.draught, args, "draught");
        self.rudders_angle = apply_float(self.rudders_angle, args, "ruddersAngle");
        self.target_local_pos = apply_u16(self.target_local_pos, args, "targetLocalPos");
        apply_bytes(&mut self.triggered_skills_data, args, "triggeredSkillsData");
        self.regenerated_health = apply_float(self.regenerated_health, args, "regeneratedHealth");
        self.blocked_controls = apply_u8(self.blocked_controls, args, "blockedControls");
        self.is_invisible = apply_flag(self.is_invisible, args, "isInvisible");
        self.is_fog_horn_on = apply_flag(self.is_fog_horn_on, args, "isFogHornOn");
        self.server_speed_raw = apply_u16(self.server_speed_raw, args, "serverSpeedRaw");
        self.regen_crew_hp_limit = apply_float(self.regen_crew_hp_limit, args, "regenCrewHpLimit");
        self.buoyancy_current_waterline = apply_float(self.buoyancy_current_waterline, args, "buoyancyCurrentWaterline");
        self.is_alive = apply_flag(self.is_alive, args, "isAlive");
        self.is_bot = apply_flag(self.is_bot, args, "isBot");
        self.visibility_flags = apply_u32(self.visibility_flags, args, "visibilityFlags");
        self.buoyancy_rudder_index = apply_u8(self.buoyancy_rudder_index, args, "buoyancyRudderIndex");
        self.is_anti_air_mode = apply_flag(self.is_anti_air_mode, args, "isAntiAirMode");
        self.speed_sign_dir = apply_i8(self.speed_sign_dir, args, "speedSignDir");
        self.oil_leak_state = apply_u8(self.oil_leak_state, args, "oilLeakState");
        apply_ship_config(&mut self.ship_config, args, "shipConfig", version);
        self.wave_local_pos = apply_u16(self.wave_local_pos, args, "waveLocalPos");
        self.has_active_main_squadron = apply_flag(self.has_active_main_squadron, args, "hasActiveMainSquadron");
        self.weapon_lock_flags = apply_u16(self.weapon_lock_flags, args, "weaponLockFlags");
        self.deep_rudders_angle = apply_float(self.deep_rudders_angle, args, "deepRuddersAngle");
        self.health = apply_float(self.health, args, "health");
        self.engine_dir = apply_i8(self.engine_dir, args, "engineDir");
        self.team_id = apply_i8(self.team_id, args, "teamId");
        self.buoyancy_current_state = apply_u8(self.buoyancy_current_state, args, "buoyancyCurrentState");
        self.ui_enabled = apply_flag(self.ui_enabled, args, "uiEnabled");
        self.respawn_time = apply_u16(self.respawn_time, args, "respawnTime");
        self.engine_power = apply_u8(self.engine_power, args, "enginePower");
        self.max_server_speed_raw = apply_u32(self.max_server_speed_raw, args, "maxServerSpeedRaw");
        self.burning_flags = apply_u16(self.burning_flags, args, "burningFlags");
        Ok(())
    }

    pub fn ignore_map_borders(&self) -> (r: bool)
        ensures
            r == self.ignore_map_borders,
    {
        self.ignore_map_borders
    }

    pub fn air_defense_dispersion_radius(&self) -> (r: u32)
        ensures
            r == self.air_defense_dispersion_radius,
    {
        self.air_defense_dispersion_radius
    }

    pub fn death_settings(&self) -> (r: &[u8])
        ensures
            r@ == self.death_settings@,
    {
        self.death_settings.as_slice()
    }

    pub fn owner(&self) -> (r: u32)
        ensures
            r == self.owner,
    {
        self.owner
    }

    pub fn atba_targets(&self) -> (r: &[u32])
        ensures
            r@ == self.atba_targets@,
    {
        self.atba_targets.as_slice()
    }

    pub fn effects(&self) -> (r: &[String])
        ensures
            r@ == self.effects@,
    {
        self.effects.as_slice()
    }

    pub fn crew_modifiers_compact_params(&self) -> (r: &CrewModifiersCompactParams)
        ensures
            *r == self.crew_modifiers_compact_params,
    {
        &self.crew_modifiers_compact_params
    }

    pub fn laser_target_local_pos(&self) -> (r: u16)
        ensures
            r == self.laser_target_local_pos,
    {
        self.laser_target_local_pos
    }

    pub fn selected_weapon(&self) -> (r: u32)
        ensures
            r == self.selected_weapon,
    {
        self.selected_weapon
    }

    pub fn is_on_forsage(&self) -> (r: bool)
        ensures
            r == self.is_on_forsage,
    {
        self.is_on_forsage
    }

    pub fn is_in_rage_mode(&self) -> (r: bool)
        ensures
            r == self.is_in_rage_mode,
    {
        self.is_in_rage_mode
    }

    pub fn has_air_targets_in_range(&self) -> (r: bool)
        ensures
            r == self.has_air_targets_in_range,
    {
        self.has_air_targets_in_range
    }

    pub fn torpedo_local_pos(&self) -> (r: u16)
        ensures
            r == self.torpedo_local_pos,
    {
        self.torpedo_local_pos
    }

    pub fn buoyancy(&self) -> (r: u32)
        ensures
            r == self.buoyancy,
    {
        self.buoyancy
    }

    pub fn max_health(&self) -> (r: u32)
        ensures
            r == self.max_health,
    {
        self.max_health
    }

    pub fn draught(&self) -> (r: u32)
        ensures
            r == self.draught,
    {
        self.draught
    }

    pub fn rudders_angle(&self) -> (r: u32)
        ensures
            r == self.rudders_angle,
    {
        self.rudders_angle
    }

    pub fn target_local_pos(&self) -> (r: u16)
        ensures
            r == self.target_local_pos,
    {
        self.target_local_pos
    }

    pub fn triggered_skills_data(&self) -> (r: &[u8])
        ensures
            r@ == self.triggered_skills_data@,
    {
        self.triggered_skills_data.as_slice()
    }

    pub fn regenerated_health(&self) -> (r: u32)
        ensures
            r == self.regenerated_health,
    {
        self.regenerated_health
    }

    pub fn blocked_controls(&self) -> (r: u8)
        ensures
            r == self.blocked_controls,
    {
        self.blocked_controls
    }

    pub fn is_invisible(&self) -> (r: bool)
        ensures
            r == self.is_invisible,
    {
        self.is_invisible
    }

    pub fn is_fog_horn_on(&self) -> (r: bool)
        ensures
            r == self.is_fog_horn_on,
    {
        self.is_fog_horn_on
    }

    pub fn server_speed_raw(&self) -> (r: u16)
        ensures
            r == self.server_speed_raw,
    {
        self.server_speed_raw
    }

    pub fn regen_crew_hp_limit(&self) -> (r: u32)
        ensures
            r == self.regen_crew_hp_limit,
    {
        self.regen_crew_hp_limit
    }

    pub fn buoyancy_current_waterline(&self) -> (r: u32)
        ensures
            r == self.buoyancy_current_waterline,
    {
        self.buoyancy_current_waterline
    }

    pub fn is_alive(&self) -> (r: bool)
        ensures
            r == self.is_alive,
    {
        self.is_alive
    }

    pub fn is_bot(&self) -> (r: bool)
        ensures
            r == self.is_bot,
    {
        self.is_bot
    }

    pub fn visibility_flags(&self) -> (r: u32)
        ensures
            r == self.visibility_flags,
    {
        self.visibility_flags
    }

    pub fn buoyancy_rudder_index(&self) -> (r: u8)
        ensures
            r == self.buoyancy_rudder_index,
    {
        self.buoyancy_rudder_index
    }

    pub fn is_anti_air_mode(&self) -> (r: bool)
        ensures
            r == self.is_anti_air_mode,
    {
        self.is_anti_air_mode
    }

    pub fn speed_sign_dir(&self) -> (r: i8)
        ensures
            r == self.speed_sign_dir,
    {
        self.speed_sign_dir
    }

    pub fn oil_leak_state(&self) -> (r: u8)
        ensures
            r == self.oil_leak_state,
    {
        self.oil_leak_state
    }

    pub fn ship_config(&self) -> (r: &ShipConfig)
        ensures
            *r == self.ship_config,
    {
        &self.ship_config
    }

    pub fn wave_local_pos(&self) -> (r: u16)
        ensures
            r == self.wave_local_pos,
    {
        self.wave_local_pos
    }

    pub fn has_active_main_squadron(&self) -> (r: bool)
        ensures
            r == self.has_active_main_squadron,
    {
        self.has_active_main_squadron
    }

    pub fn weapon_lock_flags(&self) -> (r: u16)
        ensures
            r == self.weapon_lock_flags,
    {
        self.weapon_lock_flags
    }

    pub fn deep_rudders_angle(&self) -> (r: u32)
        ensures
            r == self.deep_rudders_angle,
    {
        self.deep_rudders_angle
    }

    pub fn health(&self) -> (r: u32)
        ensures
            r == self.health,
    {
        self.health
    }

    pub fn engine_dir(&self) -> (r: i8)
        ensures
            r == self.engine_dir,
    {
        self.engine_dir
    }

    pub fn team_id(&self) -> (r: i8)
        ensures
            r == self.team_id,
    {
        self.team_id
    }

    pub fn buoyancy_current_state(&self) -> (r: u8)
        ensures
            r == self.buoyancy_current_state,
    {
        self.buoyancy_current_state
    }

    pub fn ui_enabled(&self) -> (r: bool)
        ensures
            r == self.ui_enabled,
    {
        self.ui_enabled
    }

    pub fn respawn_time(&self) -> (r: u16)
        ensures
            r == self.respawn_time,
    {
        self.respawn_time
    }

    pub fn engine_power(&self) -> (r: u8)
        ensures
            r == self.engine_power,
    {
        self.engine_power
    }

    pub fn max_server_speed_raw(&self) -> (r: u32)
        ensures
            r == self.max_server_speed_raw,
    {
        self.max_server_speed_raw
    }

    pub fn burning_flags(&self) -> (r: u16)
        ensures
            r == self.burning_flags,
    {
        self.burning_flags
    }

    pub fn regeneration_health(&self) -> (r: u32)
        ensures
            r == self.regeneration_health,
    {
        self.regeneration_health
    }

    pub fn anti_air_auras(&self) -> (r: &[AAAura])
        ensures
            r@ == self.anti_air_auras@,
    {
        self.anti_air_auras.as_slice()
    }

    pub fn air_defense_target_ids(&self) -> (r: &[()])
        ensures
            r@ == self.air_defense_target_ids@,
    {
        self.air_defense_target_ids.as_slice()
    }

    pub fn miscs_presets_status(&self) -> (r: &[()])
        ensures
            r@ == self.miscs_presets_status@,
    {
        self.miscs_presets_status.as_slice()
    }

    pub fn heat_infos(&self) -> (r: &[()])
        ensures
            r@ == self.heat_infos@,
    {
        self.heat_infos.as_slice()
    }

    pub fn sounds(&self) -> (r: &[()])
        ensures
            r@ == self.sounds@,
    {
        self.sounds.as_slice()
    }

    pub fn debug_text(&self) -> (r: &[()])
        ensures
            r@ == self.debug_text@,
    {
        self.debug_text.as_slice()
    }

    pub fn state(&self) -> (r: &VehicleState)
        ensures
            *r == self.state,
    {
        &self.state
    }

}

/// What an entity creation makes.
pub enum CreatedEntity {
    /// A vehicle with its properties, and the parameters id of its
    /// commander when it has one.
    Vehicle { props: VehicleProps, captain: Option<u32> },
    Building(BuildingEntity),
    /// A smoke screen with the bit pattern of its `f32` radius.
    SmokeScreen { radius: u32 },
    /// An entity that is not tracked (battle logic, interactive zones,
    /// battle entities).
    Untracked(EntityType),
}

/// Why an entity creation could not be handled.
#[derive(Debug, Clone, Copy, PartialEq, Eq, Structural)]
pub enum CreateError {
    UnknownEntityType,
    MalformedProperties,
}

impl VehicleProps {
    /// The properties of a vehicle that no update has touched.
    pub fn new() -> (r: VehicleProps)
        ensures
            fresh_props(r),
    {
        VehicleProps {
            ignore_map_borders: false,
            air_defense_dispersion_radius: 0,
            death_settings: Vec::new(),
            owner: 0,
            atba_targets: Vec::new(),
            effects: Vec::new(),
            crew_modifiers_compact_params: CrewModifiersCompactParams::new(),
            laser_target_local_pos: 0,
            selected_weapon: 0,
            is_on_forsage: false,
            is_in_rage_mode: false,
            has_air_targets_in_range: false,
            torpedo_local_pos: 0,
            buoyancy: 0,
            max_health: 0,
            draught: 0,
            rudders_angle: 0,
            target_local_pos: 0,
            triggered_skills_data: Vec::new(),
            regenerated_health: 0,
            blocked_controls: 0,
            is_invisible: false,
            is_fog_horn_on: false,
            server_speed_raw: 0,
            regen_crew_hp_limit: 0,
            buoyancy_current_waterline: 0,
            is_alive: false,
            is_bot: false,
            visibility_flags: 0,
            buoyancy_rudder_index: 0,
            is_anti_air_mode: false,
            speed_sign_dir: 0,
            oil_leak_state: 0,
            ship_config: ShipConfig::new(),
            wave_local_pos: 0,
            has_active_main_squadron: false,
            weapon_lock_flags: 0,
            deep_rudders_angle: 0,
            health: 0,
            engine_dir: 0,
            team_id: 0,
            buoyancy_current_state: 0,
            ui_enabled: false,
            respawn_time: 0,
            engine_power: 0,
            max_server_speed_raw: 0,
            burning_flags: 0,
            regeneration_health: 0,
            anti_air_auras: Vec::new(),
            air_defense_target_ids: Vec::new(),
            miscs_presets_status: Vec::new(),
            heat_infos: Vec::new(),
            sounds: Vec::new(),
            debug_text: Vec::new(),
            state: VehicleState::new(),
        }
    }
}

/// Handles the creation of an entity of the named type with its properties:
/// a vehicle takes its properties (and names its commander when the
/// commander's parameters id is not 0), a building and a smoke screen take
/// theirs, other known types are not tracked.
pub fn create_entity(
    entity_type: &str,
    id: EntityId,
    props: &Vec<(String, ArgVal)>,
    version: &GameVersion,
) -> (r: Result<CreatedEntity, CreateError>)
    ensures
        match entity_type_spec(entity_type@) {
            None => r == Err::<CreatedEntity, CreateError>(CreateError::UnknownEntityType),
            Some(EntityType::Vehicle) => if vehicle_args_ok(props@, *version) {
                r matches Ok(CreatedEntity::Vehicle { props: p, captain }) && props_from_args(p, props@, *version)
                    && captain == (if p.crew_modifiers_compact_params.params_id_view() != 0 {
                    Some(p.crew_modifiers_compact_params.params_id_view())
                } else {
                    None
                })
            } else {
                r == Err::<CreatedEntity, CreateError>(CreateError::MalformedProperties)
            },
            Some(EntityType::Building) => r matches Ok(CreatedEntity::Building(b)) && b
                == building_spec(id, props@),
            Some(EntityType::SmokeScreen) => r matches Ok(CreatedEntity::SmokeScreen { radius })
                && radius == smoke_radius_spec(props@),
            Some(t) => r matches Ok(CreatedEntity::Untracked(u)) && u == t,
        },
{
    let t = match EntityType::from_name(entity_type) {
        Some(t) => t,
        None => {
            return Err(CreateError::UnknownEntityType);
        },
    };
    match t {
        EntityType::Vehicle => {
            let mut p = VehicleProps::new();
            let ghost fresh = p;
            if p.update_from_args(props, version).is_err() {
                return Err(CreateError::MalformedProperties);
            }
            assert(fresh_props(fresh) && props_updated(fresh, p, props@, *version));
            let captain_id = p.crew_modifiers_compact_params.params_id();
            let captain = if captain_id != 0 {
                Some(captain_id)
            } else {
                None
            };
            Ok(CreatedEntity::Vehicle { props: p, captain })
        },
        EntityType::Building => Ok(CreatedEntity::Building(building_from_props(id, props))),
        EntityType::SmokeScreen => Ok(CreatedEntity::SmokeScreen { radius: smoke_radius(props) }),
        other => Ok(CreatedEntity::Untracked(other)),
    }
}

} // verus!
