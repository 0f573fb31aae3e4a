//! Decoding of entity method calls and small packets into typed events.
use vstd::prelude::*;
use crate::bytes::{le_u16, le_u32, le_u64, read_le_u16, read_le_u32, read_le_u64};

verus! {

/// A map coordinate carried by a voice line: either the bit pattern of an
/// `f32` (current clients) or a whole number (older clients).
#[derive(Debug, Clone, Copy, PartialEq, Eq, Structural)]
pub enum MapCoord {
    Bits(u32),
    Whole(u64),
}

#[derive(Debug, Clone, Copy, PartialEq, Eq, Structural)]
pub enum VoiceLine {
    IntelRequired,
    FairWinds,
    Wilco,
    Negative,
    WellDone,
    Curses,
    UsingRadar,
    UsingHydroSearch,
    DefendTheBase,
    SetSmokeScreen,
    FollowMe,
    MapPointAttention(MapCoord, MapCoord),
    UsingSubmarineLocator,
    ProvideAntiAircraft,
    RequestingSupport(Option<u32>),
    Retreat(Option<i32>),
    AttentionToSquare(u32, u32),
    QuickTactic(u16, u64),
}

#[derive(Debug, Clone, Copy, PartialEq, Eq, Structural, Hash)]
pub enum Ribbon {
    PlaneShotDown,
    Incapacitation,
    SetFire,
    Citadel,
    SecondaryHit,
    OverPenetration,
    Penetration,
    NonPenetration,
    Ricochet,
    TorpedoProtectionHit,
    Captured,
    AssistedInCapture,
    Spotted,
    Destroyed,
    TorpedoHit,
    Defended,
    Flooding,
    DiveBombPenetration,
    RocketPenetration,
    RocketNonPenetration,
    RocketTorpedoProtectionHit,
    DepthChargeHit,
    ShotDownByAircraft,
    BuffSeized,
    SonarOneHit,
    SonarTwoHits,
    SonarNeutralized,
    Unknown(i8),
}

#[derive(Debug, Clone, Copy, PartialEq, Eq, Structural, Hash)]
pub enum DeathCause {
    Secondaries,
    Artillery,
    Fire,
    Flooding,
    Torpedo,
    DiveBomber,
    AerialRocket,
    AerialTorpedo,
    Detonation,
    Ramming,
    DepthCharge,
    SkipBombs,
    Unknown(u32),
}

/// Enumerates usable consumables in-game
#[derive(Debug, Clone, Copy, PartialEq, Eq, Structural)]
pub enum Consumable {
    DamageControl,
    SpottingAircraft,
    DefensiveAntiAircraft,
    SpeedBoost,
    RepairParty,
    CatapultFighter,
    MainBatteryReloadBooster,
    TorpedoReloadBooster,
    Smoke,
    Radar,
    HydroacousticSearch,
    Hydrophone,
    EnhancedRudders,
    ReserveBattery,
    Unknown(i8),
}

#[derive(Debug, Clone, Copy, PartialEq, Eq, Structural)]
pub enum CameraMode {
    OverheadMap,
    FollowingShells,
    FollowingPlanes,
    FollowingShip,
    FollowingSubmarine,
    FreeFlying,
    Unknown(u32),
}

/// Enumerates the "cruise states".
#[derive(Debug, Clone, Copy, PartialEq, Eq, Structural)]
pub enum CruiseState {
    /// Possible values for the throttle range from -1 for reverse to 4 for full power ahead.
    Throttle,
    /// Rudder set via the Q & E keys: -2 full to port .. 2 full to starboard.
    Rudder,
    /// Sets the dive depth (0 = surface .. 7 = -80m).
    DiveDepth,
    /// Indicates an unknown cruise state.
    Unknown(u32),
}

/// The ribbon with a known code.
pub open spec fn ribbon_spec(code: i8) -> Option<Ribbon> {
    match code {
        1 => Some(Ribbon::TorpedoHit),
        3 => Some(Ribbon::PlaneShotDown),
        4 => Some(Ribbon::Incapacitation),
        5 => Some(Ribbon::Destroyed),
        6 => Some(Ribbon::SetFire),
        7 => Some(Ribbon::Flooding),
        8 => Some(Ribbon::Citadel),
        9 => Some(Ribbon::Defended),
        10 => Some(Ribbon::Captured),
        11 => Some(Ribbon::AssistedInCapture),
        13 => Some(Ribbon::SecondaryHit),
        14 => Some(Ribbon::OverPenetration),
        15 => Some(Ribbon::Penetration),
        16 => Some(Ribbon::NonPenetration),
        17 => Some(Ribbon::Ricochet),
        19 => Some(Ribbon::Spotted),
        21 => Some(Ribbon::DiveBombPenetration),
        25 => Some(Ribbon::RocketPenetration),
        26 => Some(Ribbon::RocketNonPenetration),
        27 => Some(Ribbon::ShotDownByAircraft),
        28 => Some(Ribbon::TorpedoProtectionHit),
        30 => Some(Ribbon::RocketTorpedoProtectionHit),
        31 => Some(Ribbon::DepthChargeHit),
        33 => Some(Ribbon::BuffSeized),
        39 => Some(Ribbon::SonarOneHit),
        40 => Some(Ribbon::SonarTwoHits),
        41 => Some(Ribbon::SonarNeutralized),
        _ => None,
    }
}

/// The ribbon for a known code, `None` for an unknown one.
pub fn ribbon_from_code(code: i8) -> (r: Option<Ribbon>)
    ensures
        r == ribbon_spec(code),
{
    match code {
        1 => Some(Ribbon::TorpedoHit),
        3 => Some(Ribbon::PlaneShotDown),
        4 => Some(Ribbon::Incapacitation),
        5 => Some(Ribbon::Destroyed),
        6 => Some(Ribbon::SetFire),
        7 => Some(Ribbon::Flooding),
        8 => Some(Ribbon::Citadel),
        9 => Some(Ribbon::Defended),
        10 => Some(Ribbon::Captured),
        11 => Some(Ribbon::AssistedInCapture),
        13 => Some(Ribbon::SecondaryHit),
        14 => Some(Ribbon::OverPenetration),
        15 => Some(Ribbon::Penetration),
        16 => Some(Ribbon::NonPenetration),
        17 => Some(Ribbon::Ricochet),
        19 => Some(Ribbon::Spotted),
        21 => Some(Ribbon::DiveBombPenetration),
        25 => Some(Ribbon::RocketPenetration),
        26 => Some(Ribbon::RocketNonPenetration),
        27 => Some(Ribbon::ShotDownByAircraft),
        28 => Some(Ribbon::TorpedoProtectionHit),
        30 => Some(Ribbon::RocketTorpedoProtectionHit),
        31 => Some(Ribbon::DepthChargeHit),
        33 => Some(Ribbon::BuffSeized),
        39 => Some(Ribbon::SonarOneHit),
        40 => Some(Ribbon::SonarTwoHits),
        41 => Some(Ribbon::SonarNeutralized),
        _ => None,
    }
}

/// The cause of death with a known code.
pub open spec fn death_cause_spec(code: u32) -> Option<DeathCause> {
    match code {
        2 => Some(DeathCause::Secondaries),
        3 => Some(DeathCause::Torpedo),
        4 => Some(DeathCause::DiveBomber),
        5 => Some(DeathCause::AerialTorpedo),
        6 => Some(DeathCause::Fire),
        7 => Some(DeathCause::Ramming),
        9 => Some(DeathCause::Flooding),
        13 => Some(DeathCause::DepthCharge),
        14 => Some(DeathCause::AerialRocket),
        15 => Some(DeathCause::Detonation),
        17 => Some(DeathCause::Artillery),
        18 => Some(DeathCause::Artillery),
        19 => Some(DeathCause::Artillery),
        22 => Some(DeathCause::SkipBombs),
        28 => Some(DeathCause::DepthCharge),
        _ => None,
    }
}

/// The cause of death for a known code, `None` for an unknown one.
pub fn death_cause_from_code(code: u32) -> (r: Option<DeathCause>)
    ensures
        r == death_cause_spec(code),
{
    match code {
        2 => Some(DeathCause::Secondaries),
        3 => Some(DeathCause::Torpedo),
        4 => Some(DeathCause::DiveBomber),
        5 => Some(DeathCause::AerialTorpedo),
        6 => Some(DeathCause::Fire),
        7 => Some(DeathCause::Ramming),
        9 => Some(DeathCause::Flooding),
        13 => Some(DeathCause::DepthCharge),
        14 => Some(DeathCause::AerialRocket),
        15 => Some(DeathCause::Detonation),
        17 => Some(DeathCause::Artillery),
        18 => Some(DeathCause::Artillery),
        19 => Some(DeathCause::Artillery),
        22 => Some(DeathCause::SkipBombs),
        28 => Some(DeathCause::DepthCharge),
        _ => None,
    }
}

/// The consumable with a known code.
pub open spec fn consumable_spec(code: i8) -> Option<Consumable> {
    match code {
        0 => Some(Consumable::DamageControl),
        1 => Some(Consumable::SpottingAircraft),
        2 => Some(Consumable::DefensiveAntiAircraft),
        3 => Some(Consumable::SpeedBoost),
        5 => Some(Consumable::MainBatteryReloadBooster),
        7 => Some(Consumable::Smoke),
        9 => Some(Consumable::RepairParty),
        10 => Some(Consumable::CatapultFighter),
        11 => Some(Consumable::HydroacousticSearch),
        12 => Some(Consumable::TorpedoReloadBooster),
        13 => Some(Consumable::Radar),
        35 => Some(Consumable::Hydrophone),
        36 => Some(Consumable::EnhancedRudders),
        37 => Some(Consumable::ReserveBattery),
        _ => None,
    }
}

/// The consumable for a known code, `None` for an unknown one.
pub fn consumable_from_code(code: i8) -> (r: Option<Consumable>)
    ensures
        r == consumable_spec(code),
{
    match code {
        0 => Some(Consumable::DamageControl),
        1 => Some(Consumable::SpottingAircraft),
        2 => Some(Consumable::DefensiveAntiAircraft),
        3 => Some(Consumable::SpeedBoost),
        5 => Some(Consumable::MainBatteryReloadBooster),
        7 => Some(Consumable::Smoke),
        9 => Some(Consumable::RepairParty),
        10 => Some(Consumable::CatapultFighter),
        11 => Some(Consumable::HydroacousticSearch),
        12 => Some(Consumable::TorpedoReloadBooster),
        13 => Some(Consumable::Radar),
        35 => Some(Consumable::Hydrophone),
        36 => Some(Consumable::EnhancedRudders),
        37 => Some(Consumable::ReserveBattery),
        _ => None,
    }
}

/// The camera mode with a known code.
pub open spec fn camera_mode_spec(code: u32) -> Option<CameraMode> {
    match code {
        3 => Some(CameraMode::OverheadMap),
        5 => Some(CameraMode::FollowingShells),
        6 => Some(CameraMode::FollowingPlanes),
        8 => Some(CameraMode::FollowingShip),
        9 => Some(CameraMode::FreeFlying),
        11 => Some(CameraMode::FollowingSubmarine),
        _ => None,
    }
}

/// The camera mode for a known code, `None` for an unknown one.
pub fn camera_mode_from_code(code: u32) -> (r: Option<CameraMode>)
    ensures
        r == camera_mode_spec(code),
{
    match code {
        3 => Some(CameraMode::OverheadMap),
        5 => Some(CameraMode::FollowingShells),
        6 => Some(CameraMode::FollowingPlanes),
        8 => Some(CameraMode::FollowingShip),
        9 => Some(CameraMode::FreeFlying),
        11 => Some(CameraMode::FollowingSubmarine),
        _ => None,
    }
}

/// The cruise state with a known key.
pub open spec fn cruise_state_spec(key: u32) -> Option<CruiseState> {
    match key {
        0 => Some(CruiseState::Throttle),
        1 => Some(CruiseState::Rudder),
        2 => Some(CruiseState::DiveDepth),
        _ => None,
    }
}

/// The cruise state for a known key, `None` for an unknown one.
pub fn cruise_state_from_key(key: u32) -> (r: Option<CruiseState>)
    ensures
        r == cruise_state_spec(key),
{
    match key {
        0 => Some(CruiseState::Throttle),
        1 => Some(CruiseState::Rudder),
        2 => Some(CruiseState::DiveDepth),
        _ => None,
    }
}

/// Why a voice-line command blob could not be read.
#[derive(Debug, Clone, Copy, PartialEq, Eq, Structural)]
pub enum CommandBlobError {
    /// The blob ends before a field that the line needs.
    Incomplete,
    /// The audience byte is neither 0 (team) nor 1 (all).
    UnknownAudience(u8),
    /// The line number names no known voice line.
    UnknownLine(u16),
}

/// The voice line of a command blob without extra fields.
pub open spec fn simple_voice_line(line: int) -> Option<VoiceLine> {
    if line == 3 {
        Some(VoiceLine::RequestingSupport(None))
    } else if line == 5 {
        Some(VoiceLine::Wilco)
    } else if line == 6 {
        Some(VoiceLine::Negative)
    } else if line == 7 {
        Some(VoiceLine::WellDone)
    } else if line == 8 {
        Some(VoiceLine::FairWinds)
    } else if line == 9 {
        Some(VoiceLine::Curses)
    } else if line == 10 {
        Some(VoiceLine::DefendTheBase)
    } else if line == 11 {
        Some(VoiceLine::ProvideAntiAircraft)
    } else if line == 13 {
        Some(VoiceLine::IntelRequired)
    } else if line == 14 {
        Some(VoiceLine::SetSmokeScreen)
    } else if line == 15 {
        Some(VoiceLine::UsingRadar)
    } else if line == 16 {
        Some(VoiceLine::UsingHydroSearch)
    } else if line == 17 {
        Some(VoiceLine::FollowMe)
    } else if line == 19 {
        Some(VoiceLine::UsingSubmarineLocator)
    } else {
        None
    }
}

/// The retreat line for a target id (0 means no target).
pub open spec fn retreat_line(target_id: u64) -> VoiceLine {
    VoiceLine::Retreat(if target_id != 0 { Some(target_id as i32) } else { None })
}

/// What a `receive_CommonCMD` blob holds: a `u16` line number, a `u8`
/// audience (1 = all, 0 = team) and the fields of the line; on success the
/// line, whether it was sent to all, and how many bytes were read.
pub open spec fn command_blob_spec(b: Seq<u8>) -> Result<(VoiceLine, bool, int), CommandBlobError> {
    if b.len() < 3 {
        Err(CommandBlobError::Incomplete)
    } else if b[2] > 1 {
        Err(CommandBlobError::UnknownAudience(b[2]))
    } else {
        let global = b[2] == 1;
        let line = le_u16(b, 0);
        if line == 1 {
            if b.len() < 7 {
                Err(CommandBlobError::Incomplete)
            } else {
                Ok((VoiceLine::AttentionToSquare(le_u16(b, 3) as u32, le_u16(b, 5) as u32), global, 7))
            }
        } else if line == 2 {
            if b.len() < 13 {
                Err(CommandBlobError::Incomplete)
            } else {
                Ok((VoiceLine::QuickTactic(le_u16(b, 3) as u16, le_u64(b, 5) as u64), global, 13))
            }
        } else if line == 12 {
            if b.len() < 13 {
                Err(CommandBlobError::Incomplete)
            } else {
                Ok((retreat_line(le_u64(b, 5) as u64), global, 13))
            }
        } else if line == 18 {
            if b.len() < 11 {
                Err(CommandBlobError::Incomplete)
            } else {
                Ok((
                    VoiceLine::MapPointAttention(
                        MapCoord::Bits(le_u32(b, 3) as u32),
                        MapCoord::Bits(le_u32(b, 7) as u32),
                    ),
                    global,
                    11,
                ))
            }
        } else {
            match simple_voice_line(line) {
                Some(v) => Ok((v, global, 3)),
                None => Err(CommandBlobError::UnknownLine(line as u16)),
            }
        }
    }
}

fn simple_voice_line_of(line: u16) -> (r: Option<VoiceLine>)
    ensures
        r == simple_voice_line(line as int),
{
    match line {
        3 => Some(VoiceLine::RequestingSupport(None)),
        5 => Some(VoiceLine::Wilco),
        6 => Some(VoiceLine::Negative),
        7 => Some(VoiceLine::WellDone),
        8 => Some(VoiceLine::FairWinds),
        9 => Some(VoiceLine::Curses),
        10 => Some(VoiceLine::DefendTheBase),
        11 => Some(VoiceLine::ProvideAntiAircraft),
        13 => Some(VoiceLine::IntelRequired),
        14 => Some(VoiceLine::SetSmokeScreen),
        15 => Some(VoiceLine::UsingRadar),
        16 => Some(VoiceLine::UsingHydroSearch),
        17 => Some(VoiceLine::FollowMe),
        19 => Some(VoiceLine::UsingSubmarineLocator),
        _ => None,
    }
}

/// Reads the voice line of a `receive_CommonCMD` blob.
pub fn parse_receive_common_cmd_blob(blob: &[u8]) -> (r: Result<(VoiceLine, bool, usize), CommandBlobError>)
    ensures
        match (r, command_blob_spec(blob@)) {
            (Ok((v, g, n)), Ok((sv, sg, sn))) => v == sv && g == sg && n == sn,
            (Err(e), Err(se)) => e == se,
            _ => false,
        },
{
    let len = blob.len();
    if len < 3 {
        return Err(CommandBlobError::Incomplete);
    }
    let audience = blob[2];
    if audience > 1 {
        return Err(CommandBlobError::UnknownAudience(audience));
    }
    let global = audience == 1;
    let line = read_le_u16(blob, 0);
    if line == 1 {
        if len < 7 {
            return Err(CommandBlobError::Incomplete);
        }
        let x = read_le_u16(blob, 3);
        let y = read_le_u16(blob, 5);
        Ok((VoiceLine::AttentionToSquare(x as u32, y as u32), global, 7))
    } else if line == 2 {
        if len < 13 {
            return Err(CommandBlobError::Incomplete);
        }
        let target_type = read_le_u16(blob, 3);
        let target_id = read_le_u64(blob, 5);
        Ok((VoiceLine::QuickTactic(target_type, target_id), global, 13))
    } else if line == 12 {
        if len < 13 {
            return Err(CommandBlobError::Incomplete);
        }
        let target_id = read_le_u64(blob, 5);
        let target = if target_id != 0 {
            Some(target_id as i32)
        } else {
            None
        };
        Ok((VoiceLine::Retreat(target), global, 13))
    } else if line == 18 {
        if len < 11 {
            return Err(CommandBlobError::Incomplete);
        }
        let x = read_le_u32(blob, 3);
        let y = read_le_u32(blob, 7);
        Ok((VoiceLine::MapPointAttention(MapCoord::Bits(x), MapCoord::Bits(y)), global, 11))
    } else {
        match simple_voice_line_of(line) {
            Some(v) => Ok((v, global, 3)),
            None => Err(CommandBlobError::UnknownLine(line)),
        }
    }
}

/// The voice line of a command sent by clients older than 0.12.8, which pass
/// the line and its two fields `a` and `b` as separate arguments.
pub open spec fn legacy_voice_line_spec(line: u8, a: u32, b: u64) -> Option<VoiceLine> {
    if line == 1 {
        Some(VoiceLine::AttentionToSquare(a, b as u32))
    } else if line == 2 {
        Some(VoiceLine::QuickTactic(a as u16, b))
    } else if line == 12 {
        Some(retreat_line(b))
    } else if line == 18 {
        Some(VoiceLine::MapPointAttention(MapCoord::Whole(a as u64), MapCoord::Whole(b)))
    } else {
        simple_voice_line(line as int)
    }
}

/// The voice line of a command sent by an older client, `None` for an
/// unknown line.
pub fn legacy_voice_line(line: u8, a: u32, b: u64) -> (r: Option<VoiceLine>)
    ensures
        r == legacy_voice_line_spec(line, a, b),
{
    if line == 1 {
        Some(VoiceLine::AttentionToSquare(a, b as u32))
    } else if line == 2 {
        Some(VoiceLine::QuickTactic(a as u16, b))
    } else if line == 12 {
        Some(VoiceLine::Retreat(if b != 0 { Some(b as i32) } else { None }))
    } else if line == 18 {
        Some(VoiceLine::MapPointAttention(MapCoord::Whole(a as u64), MapCoord::Whole(b)))
    } else {
        simple_voice_line_of(line as u16)
    }
}

/// The fields packed in the 32-bit word of a minimap vision update: an 11-bit
/// x, an 11-bit y, an 8-bit heading, then two flags, from the lowest bit up.
#[derive(Debug, Clone, Copy, PartialEq, Eq, Structural)]
pub struct PackedMinimapUpdate {
    pub x: u16,
    pub y: u16,
    pub heading: u8,
    pub unknown: bool,
    pub is_disappearing: bool,
}

pub open spec fn packed_minimap_spec(packed: u32) -> PackedMinimapUpdate {
    PackedMinimapUpdate {
        x: (packed % 0x800) as u16,
        y: ((packed / 0x800) % 0x800) as u16,
        heading: ((packed / 0x40_0000) % 0x100) as u8,
        unknown: (packed / 0x4000_0000) % 2 == 1,
        is_disappearing: packed / 0x8000_0000 == 1,
    }
}

/// Splits the packed word of a minimap vision update into its fields.
pub fn unpack_minimap_update(packed: u32) -> (r: PackedMinimapUpdate)
    ensures
        r == packed_minimap_spec(packed),
{
    assert(packed & 0x7ff == packed % 0x800) by (bit_vector);
    assert((packed >> 11) & 0x7ff == (packed / 0x800) % 0x800) by (bit_vector);
    assert((packed >> 22) & 0xff == (packed / 0x40_0000) % 0x100) by (bit_vector);
    assert((packed >> 30) & 1 == (packed / 0x4000_0000) % 2) by (bit_vector);
    assert(packed >> 31 == packed / 0x8000_0000) by (bit_vector);
    PackedMinimapUpdate {
        x: (packed & 0x7ff) as u16,
        y: ((packed >> 11) & 0x7ff) as u16,
        heading: ((packed >> 22) & 0xff) as u8,
        unknown: (packed >> 30) & 1 == 1,
        is_disappearing: packed >> 31 == 1,
    }
}

/// Each cause of death comes from exactly the game's codes for it (fire 6, flooding 9, main-battery artillery 17 to 19, depth charges 13 and 28, ...); every other code is unknown.
pub proof fn lemma_death_cause_codes(code: u32)
    ensures
        (death_cause_spec(code) == Some(DeathCause::Secondaries)) <==> (code == 2),
        (death_cause_spec(code) == Some(DeathCause::Torpedo)) <==> (code == 3),
        (death_cause_spec(code) == Some(DeathCause::DiveBomber)) <==> (code == 4),
        (death_cause_spec(code) == Some(DeathCause::AerialTorpedo)) <==> (code == 5),
        (death_cause_spec(code) == Some(DeathCause::Fire)) <==> (code == 6),
        (death_cause_spec(code) == Some(DeathCause::Ramming)) <==> (code == 7),
        (death_cause_spec(code) == Some(DeathCause::Flooding)) <==> (code == 9),
        (death_cause_spec(code) == Some(DeathCause::DepthCharge)) <==> (code == 13 || code == 28),
        (death_cause_spec(code) == Some(DeathCause::AerialRocket)) <==> (code == 14),
        (death_cause_spec(code) == Some(DeathCause::Detonation)) <==> (code == 15),
        (death_cause_spec(code) == Some(DeathCause::Artillery)) <==> (code == 17 || code == 18 || code == 19),
        (death_cause_spec(code) == Some(DeathCause::SkipBombs)) <==> (code == 22),
        (death_cause_spec(code) is None) <==> !(code == 2 || code == 3 || code == 4 || code == 5 || code == 6 || code == 7 || code == 9 || code == 13 || code == 14 || code == 15 || code == 17 || code == 18 || code == 19 || code == 22 || code == 28),
{
}

/// Each ribbon comes from exactly the game's code for it (torpedo hit 1, citadel 8, spotted 19, ...); every other code is unknown.
pub proof fn lemma_ribbon_codes(code: i8)
    ensures
        (ribbon_spec(code) == Some(Ribbon::TorpedoHit)) <==> (code == 1),
        (ribbon_spec(code) == Some(Ribbon::PlaneShotDown)) <==> (code == 3),
        (ribbon_spec(code) == Some(Ribbon::Incapacitation)) <==> (code == 4),
        (ribbon_spec(code) == Some(Ribbon::Destroyed)) <==> (code == 5),
        (ribbon_spec(code) == Some(Ribbon::SetFire)) <==> (code == 6),
        (ribbon_spec(code) == Some(Ribbon::Flooding)) <==> (code == 7),
        (ribbon_spec(code) == Some(Ribbon::Citadel)) <==> (code == 8),
        (ribbon_spec(code) == Some(Ribbon::Defended)) <==> (code == 9),
        (ribbon_spec(code) == Some(Ribbon::Captured)) <==> (code == 10),
        (ribbon_spec(code) == Some(Ribbon::AssistedInCapture)) <==> (code == 11),
        (ribbon_spec(code) == Some(Ribbon::SecondaryHit)) <==> (code == 13),
        (ribbon_spec(code) == Some(Ribbon::OverPenetration)) <==> (code == 14),
        (ribbon_spec(code) == Some(Ribbon::Penetration)) <==> (code == 15),
        (ribbon_spec(code) == Some(Ribbon::NonPenetration)) <==> (code == 16),
        (ribbon_spec(code) == Some(Ribbon::Ricochet)) <==> (code == 17),
        (ribbon_spec(code) == Some(Ribbon::Spotted)) <==> (code == 19),
        (ribbon_spec(code) == Some(Ribbon::DiveBombPenetration)) <==> (code == 21),
        (ribbon_spec(code) == Some(Ribbon::RocketPenetration)) <==> (code == 25),
        (ribbon_spec(code) == Some(Ribbon::RocketNonPenetration)) <==> (code == 26),
        (ribbon_spec(code) == Some(Ribbon::ShotDownByAircraft)) <==> (code == 27),
        (ribbon_spec(code) == Some(Ribbon::TorpedoProtectionHit)) <==> (code == 28),
        (ribbon_spec(code) == Some(Ribbon::RocketTorpedoProtectionHit)) <==> (code == 30),
        (ribbon_spec(code) == Some(Ribbon::DepthChargeHit)) <==> (code == 31),
        (ribbon_spec(code) == Some(Ribbon::BuffSeized)) <==> (code == 33),
        (ribbon_spec(code) == Some(Ribbon::SonarOneHit)) <==> (code == 39),
        (ribbon_spec(code) == Some(Ribbon::SonarTwoHits)) <==> (code == 40),
        (ribbon_spec(code) == Some(Ribbon::SonarNeutralized)) <==> (code == 41),
        (ribbon_spec(code) is None) <==> !(code == 1 || code == 3 || code == 4 || code == 5 || code == 6 || code == 7 || code == 8 || code == 9 || code == 10 || code == 11 || code == 13 || code == 14 || code == 15 || code == 16 || code == 17 || code == 19 || code == 21 || code == 25 || code == 26 || code == 27 || code == 28 || code == 30 || code == 31 || code == 33 || code == 39 || code == 40 || code == 41),
{
}

/// Each consumable comes from exactly the game's code for it (damage control 0, smoke 7, repair party 9, radar 13, ...); every other code is unknown.
pub proof fn lemma_consumable_codes(code: i8)
    ensures
        (consumable_spec(code) == Some(Consumable::DamageControl)) <==> (code == 0),
        (consumable_spec(code) == Some(Consumable::SpottingAircraft)) <==> (code == 1),
        (consumable_spec(code) == Some(Consumable::DefensiveAntiAircraft)) <==> (code == 2),
        (consumable_spec(code) == Some(Consumable::SpeedBoost)) <==> (code == 3),
        (consumable_spec(code) == Some(Consumable::MainBatteryReloadBooster)) <==> (code == 5),
        (consumable_spec(code) == Some(Consumable::Smoke)) <==> (code == 7),
        (consumable_spec(code) == Some(Consumable::RepairParty)) <==> (code == 9),
        (consumable_spec(code) == Some(Consumable::CatapultFighter)) <==> (code == 10),
        (consumable_spec(code) == Some(Consumable::HydroacousticSearch)) <==> (code == 11),
        (consumable_spec(code) == Some(Consumable::TorpedoReloadBooster)) <==> (code == 12),
        (consumable_spec(code) == Some(Consumable::Radar)) <==> (code == 13),
        (consumable_spec(code) == Some(Consumable::Hydrophone)) <==> (code == 35),
        (consumable_spec(code) == Some(Consumable::EnhancedRudders)) <==> (code == 36),
        (consumable_spec(code) == Some(Consumable::ReserveBattery)) <==> (code == 37),
        (consumable_spec(code) is None) <==> !(code == 0 || code == 1 || code == 2 || code == 3 || code == 5 || code == 7 || code == 9 || code == 10 || code == 11 || code == 12 || code == 13 || code == 35 || code == 36 || code == 37),
{
}

/// Each camera mode comes from exactly the game's code for it (overhead map 3, following shells 5, free flying 9, ...); every other code is unknown.
pub proof fn lemma_camera_mode_codes(code: u32)
    ensures
        (camera_mode_spec(code) == Some(CameraMode::OverheadMap)) <==> (code == 3),
        (camera_mode_spec(code) == Some(CameraMode::FollowingShells)) <==> (code == 5),
        (camera_mode_spec(code) == Some(CameraMode::FollowingPlanes)) <==> (code == 6),
        (camera_mode_spec(code) == Some(CameraMode::FollowingShip)) <==> (code == 8),
        (camera_mode_spec(code) == Some(CameraMode::FreeFlying)) <==> (code == 9),
        (camera_mode_spec(code) == Some(CameraMode::FollowingSubmarine)) <==> (code == 11),
        (camera_mode_spec(code) is None) <==> !(code == 3 || code == 5 || code == 6 || code == 8 || code == 9 || code == 11),
{
}

/// Each cruise state comes from exactly the game's key for it (throttle 0, rudder 1, dive depth 2); every other key is unknown.
pub proof fn lemma_cruise_state_keys(key: u32)
    ensures
        (cruise_state_spec(key) == Some(CruiseState::Throttle)) <==> (key == 0),
        (cruise_state_spec(key) == Some(CruiseState::Rudder)) <==> (key == 1),
        (cruise_state_spec(key) == Some(CruiseState::DiveDepth)) <==> (key == 2),
        (cruise_state_spec(key) is None) <==> !(key == 0 || key == 1 || key == 2),
{
}

/// Each voice line without fields comes from exactly the game's number for
/// it (requesting support 3, wilco 5, negative 6, well done 7, ...); the
/// numbers of the lines with fields (1, 2, 12, 18) and unknown numbers give
/// none.
pub proof fn lemma_simple_voice_line_numbers(line: int)
    ensures
        (simple_voice_line(line) == Some(VoiceLine::RequestingSupport(None))) <==> (line == 3),
        (simple_voice_line(line) == Some(VoiceLine::Wilco)) <==> (line == 5),
        (simple_voice_line(line) == Some(VoiceLine::Negative)) <==> (line == 6),
        (simple_voice_line(line) == Some(VoiceLine::WellDone)) <==> (line == 7),
        (simple_voice_line(line) == Some(VoiceLine::FairWinds)) <==> (line == 8),
        (simple_voice_line(line) == Some(VoiceLine::Curses)) <==> (line == 9),
        (simple_voice_line(line) == Some(VoiceLine::DefendTheBase)) <==> (line == 10),
        (simple_voice_line(line) == Some(VoiceLine::ProvideAntiAircraft)) <==> (line == 11),
        (simple_voice_line(line) == Some(VoiceLine::IntelRequired)) <==> (line == 13),
        (simple_voice_line(line) == Some(VoiceLine::SetSmokeScreen)) <==> (line == 14),
        (simple_voice_line(line) == Some(VoiceLine::UsingRadar)) <==> (line == 15),
        (simple_voice_line(line) == Some(VoiceLine::UsingHydroSearch)) <==> (line == 16),
        (simple_voice_line(line) == Some(VoiceLine::FollowMe)) <==> (line == 17),
        (simple_voice_line(line) == Some(VoiceLine::UsingSubmarineLocator)) <==> (line == 19),
        (simple_voice_line(line) is None) <==> !(line == 3 || line == 5 || line == 6 || line == 7 || line == 8 || line == 9 || line == 10 || line == 11 || line == 13 || line == 14 || line == 15 || line == 16 || line == 17 || line == 19),
{
}

/// A command blob's third byte is its audience: 1 sends to all, 0 to the
/// team, any other value is refused; a blob shorter than three bytes is
/// incomplete.
pub proof fn lemma_command_blob_audience(b: Seq<u8>)
    ensures
        b.len() < 3 ==> command_blob_spec(b) == Err::<(VoiceLine, bool, int), CommandBlobError>(CommandBlobError::Incomplete),
        b.len() >= 3 && b[2] > 1 ==> command_blob_spec(b) == Err::<(VoiceLine, bool, int), CommandBlobError>(
            CommandBlobError::UnknownAudience(b[2]),
        ),
        b.len() >= 3 && b[2] <= 1 && command_blob_spec(b) is Ok ==> (command_blob_spec(b)->Ok_0).1 == (b[2] == 1),
{
}

} // verus!
