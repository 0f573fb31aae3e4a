//! The bookkeeping of a battle as its packets arrive: deaths, damage,
//! consumables, positions, entities, chat, capture points, team scores and
//! the timeline of discrete events.
use vstd::prelude::*;
use std::collections::HashMap;
use std::time::Duration;
use crate::controller::{
    chat_channel, chat_channel_spec, entity_type_spec, history_kinds, is_connection_change,
    record_connection_state, lemma_record_then_query, lemma_recording_keeps_history_alternating, alternating, battle_result, battle_result_spec, BattleResult, ChatChannel, ConnectionChangeInfo, ConnectionChangeKind, Death,
    EntityType, KillLog,
};
use crate::players::{field_of, field_value, flat_well_formed, pairs_updated, player_state_updated, state_same, PickleVal, PlayerStateData};
use crate::decoder::{Consumable, DeathCause, PackedMinimapUpdate};
use crate::events::{DamageReceived, MethodEvent, MinimapUpdate, Vec3Bits};
use crate::rpc::ArgVal;
use crate::state::{
    apply_state_update, building_spec, smoke_radius_spec, state_update_spec, BuildingEntity,
    CapturePointState, NestLevel, StateEvent, TeamScore, UpdateAction,
};
use crate::timeline::{GameClock, GameTimeline, TimelineEvent, TimestampedEvent};
use crate::types::{AccountId, EntityId, GameParamId, Relation};
use crate::vehicle::{
    create_entity, props_from_args, props_updated, vehicle_args_ok, vehicle_args_valid,
    CreateError, CreatedEntity, VehicleProps,
};
use crate::version::GameVersion;

verus! {

broadcast use vstd::std_specs::hash::group_hash_axioms;

/// A vehicle of the replay's metadata: the player's account id, name and
/// relation to the recording player.
pub struct MetaVehicle {
    pub id: AccountId,
    pub name: String,
    pub relation: u32,
    /// The parameters id of the player's ship.
    pub ship_id: GameParamId,
}

impl MetaVehicle {
    pub fn name(&self) -> (r: &str)
        ensures
            r@ == self.name@,
    {
        self.name.as_str()
    }

    pub fn relation(&self) -> (r: Relation)
        ensures
            r.spec_value() == self.relation,
    {
        Relation::new(self.relation)
    }

    /// The parameters id of the player's ship.
    pub fn vehicle(&self) -> (r: GameParamId)
        ensures
            r == self.ship_id,
    {
        self.ship_id
    }

    pub fn id(&self) -> (r: AccountId)
        ensures
            r == self.id,
    {
        self.id
    }
}

/// A player of the battle: the state that the arena first reported, the
/// latest state, the connection history, the relation to the recording
/// player and the parameters id of the player's ship.
pub struct Player {
    pub initial_state: PlayerStateData,
    pub end_state: PlayerStateData,
    pub connection_change_info: Vec<ConnectionChangeInfo>,
    pub relation: Relation,
    pub vehicle: GameParamId,
}

impl Player {
    pub fn initial_state(&self) -> (r: &PlayerStateData)
        ensures
            *r == self.initial_state,
    {
        &self.initial_state
    }

    pub fn end_state(&self) -> (r: &PlayerStateData)
        ensures
            *r == self.end_state,
    {
        &self.end_state
    }

    /// When this player connected or disconnected, in order.
    pub fn connection_change_info(&self) -> (r: &[ConnectionChangeInfo])
        ensures
            r@ == self.connection_change_info@,
    {
        self.connection_change_info.as_slice()
    }

    pub fn relation(&self) -> (r: Relation)
        ensures
            r == self.relation,
    {
        self.relation
    }

    /// The parameters id of the player's ship.
    pub fn vehicle(&self) -> (r: GameParamId)
        ensures
            r == self.vehicle,
    {
        self.vehicle
    }
}

/// Last known world-space position of a ship entity. Floating-point values
/// are bit patterns.
#[derive(Debug, Clone, Copy, PartialEq, Eq, Structural)]
pub struct ShipPosition {
    pub entity_id: EntityId,
    pub position: Vec3Bits,
    pub yaw: u32,
    pub pitch: u32,
    pub roll: u32,
    pub last_updated: GameClock,
}

/// Last known minimap position of an entity: the packed position and heading
/// of its last vision update.
#[derive(Debug, Clone, Copy, PartialEq, Eq, Structural)]
pub struct MinimapPosition {
    pub entity_id: EntityId,
    pub update: PackedMinimapUpdate,
    pub visible: bool,
    pub last_updated: GameClock,
}

/// Damage dealt by an aggressor to a victim (bit pattern of the `f32`
/// amount).
#[derive(Debug, Clone, Copy, PartialEq, Eq, Structural)]
pub struct DamageEvent {
    pub aggressor: EntityId,
    pub victim: EntityId,
    pub amount: u32,
}

/// A consumable activated on a ship (bit pattern of the `f32` duration).
#[derive(Debug, Clone, Copy, PartialEq, Eq, Structural)]
pub struct ActiveConsumable {
    pub entity: EntityId,
    pub consumable: Consumable,
    pub activated_at: GameClock,
    pub duration: u32,
}

/// A smoke screen entity: its radius and where it was created (bit
/// patterns).
#[derive(Debug, Clone, Copy, PartialEq, Eq, Structural)]
pub struct SmokeScreenEntity {
    pub id: EntityId,
    pub radius: u32,
    pub position: Vec3Bits,
}

/// A vehicle entity: its properties and the parameters id of its commander,
/// when it has one.
pub struct VehicleEntity {
    pub id: EntityId,
    pub props: VehicleProps,
    pub captain: Option<u32>,
}

impl VehicleEntity {
    pub fn id(&self) -> (r: EntityId)
        ensures
            r == self.id,
    {
        self.id
    }

    pub fn props(&self) -> (r: &VehicleProps)
        ensures
            *r == self.props,
    {
        &self.props
    }

    /// The skills that the commander learned for ships of a class, as the
    /// game numbers them.
    pub fn commander_skills_raw(&self, class: ShipClass) -> (r: &[u8])
        ensures
            r@ == match class {
                ShipClass::AirCarrier => self.props.crew_modifiers_compact_params.learned_skills_view()[0],
                ShipClass::Battleship => self.props.crew_modifiers_compact_params.learned_skills_view()[1],
                ShipClass::Cruiser => self.props.crew_modifiers_compact_params.learned_skills_view()[2],
                ShipClass::Destroyer => self.props.crew_modifiers_compact_params.learned_skills_view()[3],
                ShipClass::Submarine => self.props.crew_modifiers_compact_params.learned_skills_view()[5],
            },
    {
        let skills = self.props.crew_modifiers_compact_params.learned_skills();
        match class {
            ShipClass::AirCarrier => skills.aircraft_carrier(),
            ShipClass::Battleship => skills.battleship(),
            ShipClass::Cruiser => skills.cruiser(),
            ShipClass::Destroyer => skills.destroyer(),
            ShipClass::Submarine => skills.submarine(),
        }
    }

    /// The parameters id of the commander (0 when there is none).
    pub fn commander_id(&self) -> (r: u32)
        ensures
            r == self.props.crew_modifiers_compact_params.params_id_view(),
    {
        self.props.crew_modifiers_compact_params.params_id()
    }
}

/// The classes of ships whose commanders learn skills.
#[derive(Debug, Clone, Copy, PartialEq, Eq, Structural)]
pub enum ShipClass {
    AirCarrier,
    Battleship,
    Cruiser,
    Destroyer,
    Submarine,
}

/// An entity that the battle keeps track of.
pub enum Entity {
    Vehicle(VehicleEntity),
    Building(BuildingEntity),
    SmokeScreen(SmokeScreenEntity),
}

/// A chat message of the battle.
pub struct GameMessage {
    pub clock: GameClock,
    pub sender_relation: Option<Relation>,
    pub sender_name: String,
    pub channel: ChatChannel,
    pub message: String,
    pub entity_id: EntityId,
}

/// What one packet of a replay tells the battle. Floating-point values are
/// bit patterns.
pub enum BattlePacket {
    /// An entity method call.
    Method(MethodEvent),
    /// A ship's position and rotation.
    Position { entity_id: EntityId, position: Vec3Bits, yaw: u32, pitch: u32, roll: u32 },
    /// An entity was created with the named type and these properties.
    EntityCreate {
        entity_id: EntityId,
        entity_type: String,
        position: Vec3Bits,
        props: Vec<(String, ArgVal)>,
    },
    /// One property of an entity changed.
    EntityProperty { entity_id: EntityId, property: String, value: ArgVal },
    /// An entity left the area of interest.
    EntityLeave(EntityId),
    /// A nested property of an entity changed.
    PropertyUpdate {
        entity_id: EntityId,
        property: String,
        levels: Vec<NestLevel>,
        action: UpdateAction,
    },
    /// The battle results, as JSON text.
    BattleResults(String),
    /// A packet that the battle does not keep anything of.
    Other,
}

/// A packet that the battle cannot take.
#[derive(Debug, Clone, Copy, PartialEq, Eq, Structural)]
pub enum BattleError {
    /// A player's chat message went to an audience that is not a known
    /// channel.
    UnknownChatChannel,
    /// An entity was created with a type that is not known.
    UnknownEntityType,
    /// A vehicle's properties are not of the kinds that the game sends.
    MalformedProperties,
    /// An arena player is not among the vehicles of the metadata.
    UnknownPlayer,
    /// A player's game room state names its player by a value that is not
    /// an integer.
    MalformedPlayerState,
    /// No player of the battle is the recording player.
    NoSelfPlayer,
}

/// The vehicle of the metadata with this account id: the last one listed.
pub open spec fn meta_sender(vs: Seq<MetaVehicle>, id: AccountId) -> Option<MetaVehicle>
    decreases vs.len(),
{
    if vs.len() == 0 {
        None
    } else if vs.last().id == id {
        Some(vs.last())
    } else {
        meta_sender(vs.drop_last(), id)
    }
}

/// The name shown for a chat sender: the player's name in the metadata,
/// `Unknown` when the metadata does not list the sender.
pub open spec fn sender_name(vs: Seq<MetaVehicle>, id: AccountId) -> Seq<char> {
    match meta_sender(vs, id) {
        Some(v) => v.name@,
        None => "Unknown"@,
    }
}

/// The relation of a chat sender to the recording player, when the metadata
/// lists the sender.
pub open spec fn sender_relation_matches(r: Option<Relation>, vs: Seq<MetaVehicle>, id: AccountId) -> bool {
    match (r, meta_sender(vs, id)) {
        (Some(a), Some(v)) => a.spec_value() == v.relation,
        (None, None) => true,
        _ => false,
    }
}

/// The timeline grew by `added`.
pub open spec fn timeline_grew(old: GameTimeline, new: GameTimeline, added: Seq<TimestampedEvent>) -> bool {
    new.events_view() == old.events_view() + added
}

/// The timeline grew by one event at `clock`.
pub open spec fn timeline_grew_by_one(old: GameTimeline, new: GameTimeline, clock: GameClock, e: TimelineEvent) -> bool {
    new.events_view() == old.events_view().push(TimestampedEvent { clock, event: e })
}

/// The damage entries of a damage report, one per aggressor, in order.
pub open spec fn damage_events(victim: EntityId, aggs: Seq<DamageReceived>) -> Seq<DamageEvent> {
    Seq::new(aggs.len(), |i: int| DamageEvent { aggressor: aggs[i].aggressor, victim, amount: aggs[i].damage })
}

/// The timeline events of a damage report, one per aggressor, in order.
pub open spec fn damage_timeline(clock: GameClock, victim: EntityId, aggs: Seq<DamageReceived>) -> Seq<TimestampedEvent> {
    Seq::new(
        aggs.len(),
        |i: int|
            TimestampedEvent {
                clock,
                event: TimelineEvent::DamageDealt {
                    aggressor_id: aggs[i].aggressor.0,
                    victim_id: victim.0,
                    damage: aggs[i].damage,
                },
            },
    )
}

/// Where a minimap vision update puts an entity.
pub open spec fn minimap_position_of(clock: GameClock, u: MinimapUpdate) -> MinimapPosition {
    MinimapPosition { entity_id: u.entity_id, update: u.packed, visible: !u.packed.is_disappearing, last_updated: clock }
}

/// The minimap positions after a list of updates: each update replaces the
/// position of its entity, a later one an earlier one.
pub open spec fn minimap_after(m: Map<u32, MinimapPosition>, ups: Seq<MinimapUpdate>, clock: GameClock) -> Map<
    u32,
    MinimapPosition,
>
    decreases ups.len(),
{
    if ups.len() == 0 {
        m
    } else {
        minimap_after(m, ups.drop_last(), clock).insert(ups.last().entity_id.0, minimap_position_of(clock, ups.last()))
    }
}

/// The timeline events of a minimap update, one per entity update, in order.
pub open spec fn minimap_timeline(clock: GameClock, ups: Seq<MinimapUpdate>) -> Seq<TimestampedEvent> {
    Seq::new(
        ups.len(),
        |i: int|
            TimestampedEvent {
                clock,
                event: TimelineEvent::MinimapVisionUpdate {
                    entity_id: ups[i].entity_id.0,
                    update: ups[i].packed,
                    disappearing: ups[i].packed.is_disappearing,
                },
            },
    )
}

/// The timeline event of a change of the battle logic's state.
pub open spec fn state_timeline_event(e: StateEvent) -> TimelineEvent {
    match e {
        StateEvent::CapturePointUpdate { point_index, team_id, invader_team, progress, has_invaders, both_inside } =>
            TimelineEvent::CapturePointUpdate { point_index, team_id, invader_team, progress, has_invaders, both_inside },
        StateEvent::TeamScoreUpdate { team_index, score } => TimelineEvent::TeamScoreUpdate { team_index, score },
    }
}

fn state_event_to_timeline(e: StateEvent) -> (r: TimelineEvent)
    ensures
        r == state_timeline_event(e),
{
    match e {
        StateEvent::CapturePointUpdate { point_index, team_id, invader_team, progress, has_invaders, both_inside } =>
            TimelineEvent::CapturePointUpdate { point_index, team_id, invader_team, progress, has_invaders, both_inside },
        StateEvent::TeamScoreUpdate { team_index, score } => TimelineEvent::TeamScoreUpdate { team_index, score },
    }
}

/// The metadata vehicle of a sender, searched from the end of the list.
fn find_sender(vs: &Vec<MetaVehicle>, id: AccountId) -> (r: Option<usize>)
    ensures
        match r {
            Some(k) => k < vs@.len() && meta_sender(vs@, id) == Some(vs@[k as int]),
            None => meta_sender(vs@, id) is None,
        },
{
    let mut k: usize = vs.len();
    assert(vs@.subrange(0, k as int) =~= vs@);
    while k > 0
        invariant
            k <= vs@.len(),
            meta_sender(vs@, id) == meta_sender(vs@.subrange(0, k as int), id),
        decreases k,
    {
        assert(vs@.subrange(0, k as int).drop_last() =~= vs@.subrange(0, k - 1));
        if vs[k - 1].id == id {
            return Some(k - 1);
        }
        k -= 1;
    }
    None
}

/// A timeline that accepts an event at `clock` still does after one.
proof fn lemma_push_keeps_accepting(old: GameTimeline, new: GameTimeline, clock: GameClock, e: TimelineEvent)
    requires
        new.events_view() == old.events_view().push(TimestampedEvent { clock, event: e }),
    ensures
        new.accepts_spec(clock),
{
}

/// Records the damage of a report, aggressor by aggressor.
fn record_damage(
    dealt: &mut Vec<DamageEvent>,
    timeline: &mut GameTimeline,
    clock: GameClock,
    victim: EntityId,
    aggs: &Vec<DamageReceived>,
)
    requires
        old(timeline).accepts_spec(clock),
    ensures
        final(dealt)@ == old(dealt)@ + damage_events(victim, aggs@),
        timeline_grew(*old(timeline), *final(timeline), damage_timeline(clock, victim, aggs@)),
        final(timeline).accepts_spec(clock),
{
    let ghost d0 = dealt@;
    let ghost t0 = timeline.events_view();
    let mut k: usize = 0;
    while k < aggs.len()
        invariant
            k <= aggs@.len(),
            dealt@ == d0 + damage_events(victim, aggs@.take(k as int)),
            timeline.events_view() == t0 + damage_timeline(clock, victim, aggs@.take(k as int)),
            timeline.accepts_spec(clock),
        decreases aggs@.len() - k,
    {
        let a = aggs[k];
        dealt.push(DamageEvent { aggressor: a.aggressor, victim, amount: a.damage });
        let ghost before = *timeline;
        timeline.push(
            clock,
            TimelineEvent::DamageDealt { aggressor_id: a.aggressor.0, victim_id: victim.0, damage: a.damage },
        );
        proof {
            lemma_push_keeps_accepting(
                before,
                *timeline,
                clock,
                TimelineEvent::DamageDealt { aggressor_id: a.aggressor.0, victim_id: victim.0, damage: a.damage },
            );
            assert(damage_events(victim, aggs@.take(k + 1)) =~= damage_events(victim, aggs@.take(k as int)).push(
                DamageEvent { aggressor: a.aggressor, victim, amount: a.damage },
            ));
            assert(damage_timeline(clock, victim, aggs@.take(k + 1)) =~= damage_timeline(
                clock,
                victim,
                aggs@.take(k as int),
            ).push(
                TimestampedEvent {
                    clock,
                    event: TimelineEvent::DamageDealt { aggressor_id: a.aggressor.0, victim_id: victim.0, damage: a.damage },
                },
            ));
        }
        k += 1;
    }
    assert(aggs@.take(aggs@.len() as int) =~= aggs@);
}

/// Records the minimap vision updates, entity by entity.
fn record_minimap(
    positions: &mut HashMap<u32, MinimapPosition>,
    timeline: &mut GameTimeline,
    clock: GameClock,
    ups: &Vec<MinimapUpdate>,
)
    requires
        old(timeline).accepts_spec(clock),
    ensures
        final(positions)@ == minimap_after(old(positions)@, ups@, clock),
        timeline_grew(*old(timeline), *final(timeline), minimap_timeline(clock, ups@)),
        final(timeline).accepts_spec(clock),
{
    let ghost m0 = positions@;
    let ghost t0 = timeline.events_view();
    let mut k: usize = 0;
    while k < ups.len()
        invariant
            k <= ups@.len(),
            positions@ == minimap_after(m0, ups@.take(k as int), clock),
            timeline.events_view() == t0 + minimap_timeline(clock, ups@.take(k as int)),
            timeline.accepts_spec(clock),
        decreases ups@.len() - k,
    {
        let u = ups[k];
        let visible = !u.packed.is_disappearing;
        positions.insert(
            u.entity_id.0,
            MinimapPosition { entity_id: u.entity_id, update: u.packed, visible, last_updated: clock },
        );
        let ghost before = *timeline;
        timeline.push(
            clock,
            TimelineEvent::MinimapVisionUpdate {
                entity_id: u.entity_id.0,
                update: u.packed,
                disappearing: u.packed.is_disappearing,
            },
        );
        proof {
            lemma_push_keeps_accepting(
                before,
                *timeline,
                clock,
                TimelineEvent::MinimapVisionUpdate {
                    entity_id: u.entity_id.0,
                    update: u.packed,
                    disappearing: u.packed.is_disappearing,
                },
            );
            assert(ups@.take(k + 1).drop_last() =~= ups@.take(k as int));
            assert(minimap_timeline(clock, ups@.take(k + 1)) =~= minimap_timeline(clock, ups@.take(k as int)).push(
                TimestampedEvent {
                    clock,
                    event: TimelineEvent::MinimapVisionUpdate {
                        entity_id: u.entity_id.0,
                        update: u.packed,
                        disappearing: u.packed.is_disappearing,
                    },
                },
            ));
        }
        k += 1;
    }
    assert(ups@.take(ups@.len() as int) =~= ups@);
}

/// A player's chat message, as the timeline and the chat log keep it.
pub open spec fn chat_recorded(
    meta: Seq<MetaVehicle>,
    old_chat: Seq<GameMessage>,
    new_chat: Seq<GameMessage>,
    old_timeline: GameTimeline,
    new_timeline: GameTimeline,
    clock: GameClock,
    entity_id: EntityId,
    sender_id: AccountId,
    channel: ChatChannel,
    message: Seq<char>,
) -> bool {
    let name = sender_name(meta, sender_id);
    &&& new_timeline.events_view().len() == old_timeline.events_view().len() + 1
    &&& new_timeline.events_view().drop_last() == old_timeline.events_view()
    &&& new_timeline.events_view().last().clock == clock
    &&& new_timeline.events_view().last().event matches TimelineEvent::ChatMessage {
        entity_id: e,
        sender_name: s,
        channel: c,
        message: m,
    } && e == entity_id.0 && s@ == name && c == channel && m@ == message
    &&& new_chat.len() == old_chat.len() + 1
    &&& new_chat.drop_last() == old_chat
    &&& new_chat.last().clock == clock
    &&& sender_relation_matches(new_chat.last().sender_relation, meta, sender_id)
    &&& new_chat.last().sender_name@ == name
    &&& new_chat.last().channel == channel
    &&& new_chat.last().message@ == message
    &&& new_chat.last().entity_id == entity_id
}

/// Records a player's chat message in the timeline and the chat log.
fn record_chat(
    meta: &Vec<MetaVehicle>,
    chat: &mut Vec<GameMessage>,
    timeline: &mut GameTimeline,
    clock: GameClock,
    entity_id: EntityId,
    sender_id: AccountId,
    channel: ChatChannel,
    message: String,
)
    requires
        old(timeline).accepts_spec(clock),
    ensures
        chat_recorded(
            meta@,
            old(chat)@,
            final(chat)@,
            *old(timeline),
            *final(timeline),
            clock,
            entity_id,
            sender_id,
            channel,
            message@,
        ),
        final(timeline).accepts_spec(clock),
{
    let (name, relation) = match find_sender(meta, sender_id) {
        Some(k) => (meta[k].name.clone(), Some(Relation::new(meta[k].relation))),
        None => ("Unknown".to_string(), None),
    };
    proof {
        reveal_strlit("Unknown");
    }
    let ghost before = *timeline;
    let ghost ev = TimelineEvent::ChatMessage {
        entity_id: entity_id.0,
        sender_name: name,
        channel,
        message,
    };
    timeline.push(
        clock,
        TimelineEvent::ChatMessage {
            entity_id: entity_id.0,
            sender_name: name.clone(),
            channel,
            message: message.clone(),
        },
    );
    proof {
        lemma_push_keeps_accepting(before, *timeline, clock, ev);
        assert(timeline.events_view().drop_last() =~= before.events_view());
    }
    let ghost c0 = chat@;
    chat.push(
        GameMessage { clock, sender_relation: relation, sender_name: name, channel, message, entity_id },
    );
    assert(chat@.drop_last() =~= c0);
}

/// The battle as its packets have told it so far.
pub struct BattleState {
    pub version: GameVersion,
    pub meta_vehicles: Vec<MetaVehicle>,
    pub arena_id: i64,
    pub match_finished: bool,
    pub winning_team: Option<i8>,
    pub battle_results: Option<String>,
    /// The deaths, in the order they were reported.
    pub kills: KillLog,
    /// The damage dealt, in the order it was reported.
    pub damage_dealt: Vec<DamageEvent>,
    /// The consumables activated, in the order they were reported.
    pub consumables: Vec<ActiveConsumable>,
    pub game_chat: Vec<GameMessage>,
    /// The tracked entities, by entity id.
    pub entities: HashMap<u32, Entity>,
    /// The last position of each ship, by entity id.
    pub ship_positions: HashMap<u32, ShipPosition>,
    /// The last minimap position of each entity, by entity id.
    pub minimap_positions: HashMap<u32, MinimapPosition>,
    pub capture_points: Vec<CapturePointState>,
    pub team_scores: Vec<TeamScore>,
    pub timeline: GameTimeline,
    /// The players, by entity id.
    pub players: HashMap<u32, Player>,
    /// The entity ids of the players, in the order they first arrived.
    pub player_order: Vec<u32>,
}

/// What an entity method call does to the battle: a player's chat message is
/// logged (a system message, sender 0, is not; an unknown channel is
/// refused), a death is recorded, damage and consumables are recorded and
/// minimap positions replaced, the battle's end is noted, and each of these,
/// as well as ribbons, artillery salvos, torpedoes and plane positions, goes
/// to the timeline at the packet's clock. Other calls change nothing.
pub open spec fn method_processed(
    old: BattleState,
    new: BattleState,
    clock: GameClock,
    elapsed: Duration,
    m: MethodEvent,
    r: Result<(), BattleError>,
) -> bool {
    match m {
        MethodEvent::Chat { entity_id, sender_id, audience, message, extra: _ } => if sender_id.0 == 0 {
            r is Ok && new == old
        } else {
            match chat_channel_spec(audience@) {
                None => r == Err::<(), BattleError>(BattleError::UnknownChatChannel) && new == old,
                Some(ch) => {
                    &&& r is Ok
                    &&& new == BattleState { game_chat: new.game_chat, timeline: new.timeline, ..old }
                    &&& chat_recorded(
                        old.meta_vehicles@,
                        old.game_chat@,
                        new.game_chat@,
                        old.timeline,
                        new.timeline,
                        clock,
                        entity_id,
                        sender_id,
                        ch,
                        message@,
                    )
                },
            }
        },
        MethodEvent::ShipDestroyed { victim, killer, cause } => {
            &&& r is Ok
            &&& new == BattleState { kills: new.kills, timeline: new.timeline, ..old }
            &&& new.kills.view_deaths() == old.kills.view_deaths().push(
                Death { timestamp: elapsed, killer, victim, cause },
            )
            &&& timeline_grew_by_one(
                old.timeline,
                new.timeline,
                clock,
                TimelineEvent::ShipDestroyed { killer: killer.0, victim: victim.0, cause },
            )
        },
        MethodEvent::Ribbon(ribbon) => {
            &&& r is Ok
            &&& new == BattleState { timeline: new.timeline, ..old }
            &&& timeline_grew_by_one(old.timeline, new.timeline, clock, TimelineEvent::Ribbon(ribbon))
        },
        MethodEvent::DamageReceived { victim, aggressors } => {
            &&& r is Ok
            &&& new == BattleState { damage_dealt: new.damage_dealt, timeline: new.timeline, ..old }
            &&& new.damage_dealt@ == old.damage_dealt@ + damage_events(victim, aggressors@)
            &&& timeline_grew(old.timeline, new.timeline, damage_timeline(clock, victim, aggressors@))
        },
        MethodEvent::MinimapUpdate { updates } => {
            &&& r is Ok
            &&& new == BattleState { minimap_positions: new.minimap_positions, timeline: new.timeline, ..old }
            &&& new.minimap_positions@ == minimap_after(old.minimap_positions@, updates@, clock)
            &&& timeline_grew(old.timeline, new.timeline, minimap_timeline(clock, updates@))
        },
        MethodEvent::BattleEnd { winning_team, state: _ } => {
            &&& r is Ok
            &&& new == BattleState { match_finished: true, winning_team, timeline: new.timeline, ..old }
            &&& timeline_grew_by_one(old.timeline, new.timeline, clock, TimelineEvent::BattleEnd { winning_team })
        },
        MethodEvent::Consumable { entity, consumable, duration } => {
            &&& r is Ok
            &&& new == BattleState { consumables: new.consumables, timeline: new.timeline, ..old }
            &&& new.consumables@ == old.consumables@.push(
                ActiveConsumable { entity, consumable, activated_at: clock, duration },
            )
            &&& timeline_grew_by_one(
                old.timeline,
                new.timeline,
                clock,
                TimelineEvent::ConsumableActivated { entity_id: entity.0, consumable, duration },
            )
        },
        MethodEvent::ArtilleryShots { entity_id, salvos } => {
            &&& r is Ok
            &&& new == BattleState { timeline: new.timeline, ..old }
            &&& timeline_grew_by_one(
                old.timeline,
                new.timeline,
                clock,
                TimelineEvent::ArtilleryShots { entity_id: entity_id.0, salvos },
            )
        },
        MethodEvent::TorpedoesReceived { entity_id, torpedoes } => {
            &&& r is Ok
            &&& new == BattleState { timeline: new.timeline, ..old }
            &&& timeline_grew_by_one(
                old.timeline,
                new.timeline,
                clock,
                TimelineEvent::TorpedoesLaunched { entity_id: entity_id.0, torpedoes },
            )
        },
        MethodEvent::PlanePosition { entity_id, plane_id, x, y } => {
            &&& r is Ok
            &&& new == BattleState { timeline: new.timeline, ..old }
            &&& timeline_grew_by_one(
                old.timeline,
                new.timeline,
                clock,
                TimelineEvent::PlanePosition { entity_id: entity_id.0, squadron_id: plane_id.0, x, y },
            )
        },
        MethodEvent::ArenaState { arena_id, team_build_type_id: _, players } => arena_received(
            old,
            new,
            elapsed,
            arena_id,
            players@,
            r,
        ) && new.timeline == old.timeline,
        MethodEvent::GameRoomState { player_states } => room_received(old, new, elapsed, player_states@, r)
            && new.timeline == old.timeline,
        _ => r is Ok && new == old,
    }
}

/// What an entity creation does to the battle: a vehicle is tracked with its
/// properties (refused when they are malformed), a building and a smoke
/// screen are tracked and go to the timeline, other known types change
/// nothing, an unknown type is refused.
pub open spec fn entity_created(
    old: BattleState,
    new: BattleState,
    clock: GameClock,
    entity_id: EntityId,
    entity_type: Seq<char>,
    position: Vec3Bits,
    props: Seq<(String, ArgVal)>,
    r: Result<(), BattleError>,
) -> bool {
    match entity_type_spec(entity_type) {
        None => r == Err::<(), BattleError>(BattleError::UnknownEntityType) && new == old,
        Some(EntityType::Vehicle) => if vehicle_args_ok(props, old.version) {
            &&& r is Ok
            &&& new == BattleState { entities: new.entities, ..old }
            &&& new.entities@ == old.entities@.insert(entity_id.0, new.entities@[entity_id.0])
            &&& new.entities@[entity_id.0] matches Entity::Vehicle(v) && v.id == entity_id && props_from_args(
                v.props,
                props,
                old.version,
            ) && v.captain == (if v.props.crew_modifiers_compact_params.params_id_view() != 0 {
                Some(v.props.crew_modifiers_compact_params.params_id_view())
            } else {
                None
            })
        } else {
            r == Err::<(), BattleError>(BattleError::MalformedProperties) && new == old
        },
        Some(EntityType::Building) => {
            let b = building_spec(entity_id, props);
            &&& r is Ok
            &&& new == BattleState { entities: new.entities, timeline: new.timeline, ..old }
            &&& new.entities@ == old.entities@.insert(entity_id.0, Entity::Building(b))
            &&& timeline_grew_by_one(
                old.timeline,
                new.timeline,
                clock,
                TimelineEvent::BuildingStateChanged {
                    entity_id: entity_id.0,
                    is_alive: b.is_alive,
                    is_suppressed: b.is_suppressed,
                    team_id: b.team_id,
                },
            )
        },
        Some(EntityType::SmokeScreen) => {
            let radius = smoke_radius_spec(props);
            &&& r is Ok
            &&& new == BattleState { entities: new.entities, timeline: new.timeline, ..old }
            &&& new.entities@ == old.entities@.insert(
                entity_id.0,
                Entity::SmokeScreen(SmokeScreenEntity { id: entity_id, radius, position }),
            )
            &&& timeline_grew_by_one(
                old.timeline,
                new.timeline,
                clock,
                TimelineEvent::SmokeScreenCreated { entity_id: entity_id.0, radius },
            )
        },
        Some(_) => r is Ok && new == old,
    }
}

/// What a change of one property does: a tracked vehicle takes it (refused
/// when it is malformed); for other entities nothing changes.
pub open spec fn property_taken(
    old: BattleState,
    new: BattleState,
    entity_id: EntityId,
    property: String,
    value: ArgVal,
    r: Result<(), BattleError>,
) -> bool {
    if old.entities@.contains_key(entity_id.0) && old.entities@[entity_id.0] is Vehicle {
        let v = old.entities@[entity_id.0]->Vehicle_0;
        let args = Seq::<(String, ArgVal)>::empty().push((property, value));
        if vehicle_args_ok(args, old.version) {
            &&& r is Ok
            &&& new == BattleState { entities: new.entities, ..old }
            &&& new.entities@ == old.entities@.insert(entity_id.0, new.entities@[entity_id.0])
            &&& new.entities@[entity_id.0] matches Entity::Vehicle(w) && w.id == v.id && w.captain == v.captain
                && props_updated(v.props, w.props, args, old.version)
        } else {
            r == Err::<(), BattleError>(BattleError::MalformedProperties) && new == old
        }
    } else {
        r is Ok && new == old
    }
}

/// What one packet does to the battle (see `method_processed`,
/// `entity_created` and `property_taken`): a position replaces the ship's
/// last one and goes to the timeline; a smoke screen that leaves is no
/// longer tracked and its end goes to the timeline; a change of the battle
/// logic's state updates the capture points or team scores and its change
/// goes to the timeline; the battle results are kept.
pub open spec fn processed(
    old: BattleState,
    new: BattleState,
    clock: GameClock,
    elapsed: Duration,
    packet: BattlePacket,
    r: Result<(), BattleError>,
) -> bool {
    match packet {
        BattlePacket::Method(m) => method_processed(old, new, clock, elapsed, m, r),
        BattlePacket::Position { entity_id, position, yaw, pitch, roll } => {
            &&& r is Ok
            &&& new == BattleState { ship_positions: new.ship_positions, timeline: new.timeline, ..old }
            &&& new.ship_positions@ == old.ship_positions@.insert(
                entity_id.0,
                ShipPosition { entity_id, position, yaw, pitch, roll, last_updated: clock },
            )
            &&& timeline_grew_by_one(
                old.timeline,
                new.timeline,
                clock,
                TimelineEvent::ShipPosition { entity_id: entity_id.0, position, yaw, pitch, roll },
            )
        },
        BattlePacket::EntityCreate { entity_id, entity_type, position, props } => entity_created(
            old,
            new,
            clock,
            entity_id,
            entity_type@,
            position,
            props@,
            r,
        ),
        BattlePacket::EntityProperty { entity_id, property, value } => property_taken(
            old,
            new,
            entity_id,
            property,
            value,
            r,
        ),
        BattlePacket::EntityLeave(id) => if old.entities@.contains_key(id.0) && old.entities@[id.0] is SmokeScreen {
            &&& r is Ok
            &&& new == BattleState { entities: new.entities, timeline: new.timeline, ..old }
            &&& new.entities@ == old.entities@.remove(id.0)
            &&& timeline_grew_by_one(
                old.timeline,
                new.timeline,
                clock,
                TimelineEvent::SmokeScreenDestroyed { entity_id: id.0 },
            )
        } else {
            r is Ok && new == old
        },
        BattlePacket::PropertyUpdate { entity_id: _, property, levels, action } => {
            let u = state_update_spec(old.capture_points@, old.team_scores@, property@, levels@, action);
            &&& r is Ok
            &&& new == BattleState {
                capture_points: new.capture_points,
                team_scores: new.team_scores,
                timeline: new.timeline,
                ..old
            }
            &&& new.capture_points@ == u.0
            &&& new.team_scores@ == u.1
            &&& match u.2 {
                Some(e) => timeline_grew_by_one(old.timeline, new.timeline, clock, state_timeline_event(e)),
                None => new.timeline == old.timeline,
            }
        },
        BattlePacket::BattleResults(text) => r is Ok && new == BattleState { battle_results: Some(text), ..old },
        BattlePacket::Other => r is Ok && new == old,
    }
}

/// The first vehicle of the metadata with this account id.
pub open spec fn meta_index(vs: Seq<MetaVehicle>, id: AccountId) -> Option<int>
    decreases vs.len(),
{
    if vs.len() == 0 {
        None
    } else {
        match meta_index(vs.drop_last(), id) {
            Some(i) => Some(i),
            None => if vs.last().id == id {
                Some(vs.len() - 1)
            } else {
                None
            },
        }
    }
}

fn find_meta(vs: &Vec<MetaVehicle>, id: AccountId) -> (r: Option<usize>)
    ensures
        match r {
            Some(k) => meta_index(vs@, id) == Some(k as int) && k < vs@.len(),
            None => meta_index(vs@, id) is None,
        },
{
    let mut k: usize = 0;
    while k < vs.len()
        invariant
            k <= vs@.len(),
            meta_index(vs@.take(k as int), id) is None,
        decreases vs@.len() - k,
    {
        assert(vs@.take(k + 1).drop_last() =~= vs@.take(k as int));
        if vs[k].id == id {
            proof {
                lemma_meta_index_prefix(vs@, id, k + 1);
            }
            return Some(k);
        }
        k += 1;
    }
    assert(vs@.take(vs@.len() as int) =~= vs@);
    None
}

/// The first match of a prefix is the first match of the whole list.
proof fn lemma_meta_index_prefix(vs: Seq<MetaVehicle>, id: AccountId, n: int)
    requires
        0 <= n <= vs.len(),
        meta_index(vs.take(n), id) is Some,
    ensures
        meta_index(vs, id) == meta_index(vs.take(n), id),
    decreases vs.len() - n,
{
    if n < vs.len() {
        assert(vs.take(n + 1).drop_last() =~= vs.take(n));
        lemma_meta_index_prefix(vs, id, n + 1);
    } else {
        assert(vs.take(n) =~= vs);
    }
}

/// A ship has died: a death of it was recorded.
pub open spec fn died(kills: KillLog, v: EntityId) -> bool {
    exists|k: int| 0 <= k < kills.view_deaths().len() && (#[trigger] kills.view_deaths()[k]).victim == v
}

/// The entity is a tracked vehicle that has died.
pub open spec fn vehicle_has_died(b: BattleState, e: EntityId) -> bool {
    b.entities@.contains_key(e.0) && b.entities@[e.0] is Vehicle && died(b.kills, e)
}

/// The player that an arena state makes of a player state: both its states
/// are the reported one, relation and ship come from the metadata, and a
/// connected player's history starts with its connection.
pub open spec fn player_made(pl: Player, p: PlayerStateData, m: MetaVehicle, had_death: bool, elapsed: Duration) -> bool {
    &&& state_same(p, pl.initial_state)
    &&& state_same(p, pl.end_state)
    &&& pl.relation.spec_value() == m.relation
    &&& pl.vehicle == m.ship_id
    &&& if p.is_connected {
        &&& pl.connection_change_info@.len() == 1
        &&& pl.connection_change_info@[0].at_game_duration_view() == elapsed
        &&& pl.connection_change_info@[0].event_kind_view() == ConnectionChangeKind::Connected
        &&& pl.connection_change_info@[0].had_death_event_view() == had_death
    } else {
        pl.connection_change_info@.len() == 0
    }
}

/// What one player of an arena state does: it becomes the player of its
/// entity (refused when the metadata does not list it).
pub open spec fn arena_player_received(
    old: BattleState,
    new: BattleState,
    elapsed: Duration,
    p: PlayerStateData,
    r: Result<(), BattleError>,
) -> bool {
    match meta_index(old.meta_vehicles@, p.meta_ship_id) {
        None => r == Err::<(), BattleError>(BattleError::UnknownPlayer) && new == old,
        Some(i) => {
            &&& r is Ok
            &&& new == BattleState { players: new.players, player_order: new.player_order, ..old }
            &&& new.players@ == old.players@.insert(p.entity_id.0, new.players@[p.entity_id.0])
            &&& player_made(
                new.players@[p.entity_id.0],
                p,
                old.meta_vehicles@[i],
                vehicle_has_died(old, p.entity_id),
                elapsed,
            )
            &&& new.player_order@ == if old.player_order@.contains(p.entity_id.0) {
                old.player_order@
            } else {
                old.player_order@.push(p.entity_id.0)
            }
        },
    }
}

/// The players of an arena state taken one after another: `states[j]` is
/// the battle before player `j` and `states[j + 1]` after it, `rs[j]` what
/// taking it gave; all but the last were taken.
pub open spec fn arena_steps(
    states: Seq<BattleState>,
    rs: Seq<Result<(), BattleError>>,
    elapsed: Duration,
    ps: Seq<PlayerStateData>,
) -> bool {
    &&& states.len() == rs.len() + 1
    &&& rs.len() <= ps.len()
    &&& forall|j: int|
        0 <= j < rs.len() ==> arena_player_received(states[j], states[j + 1], elapsed, ps[j], #[trigger] rs[j])
    &&& forall|j: int| 0 <= j < rs.len() - 1 ==> (#[trigger] rs[j]) is Ok
}

/// What an arena state does: the arena id is kept, then its players are
/// taken in order, up to the first that is refused.
pub open spec fn arena_received(
    old: BattleState,
    new: BattleState,
    elapsed: Duration,
    arena_id: i64,
    ps: Seq<PlayerStateData>,
    r: Result<(), BattleError>,
) -> bool {
    exists|states: Seq<BattleState>, rs: Seq<Result<(), BattleError>>|
        {
            &&& #[trigger] arena_steps(states, rs, elapsed, ps)
            &&& states[0] == BattleState { arena_id, ..old }
            &&& states.last() == new
            &&& (rs.len() < ps.len() ==> rs.len() > 0 && rs.last() is Err)
            &&& r == if rs.len() > 0 && rs.last() is Err {
                rs.last()
            } else {
                Ok::<(), BattleError>(())
            }
        }
}

/// The first player, in order of arrival, whose first reported state has
/// this meta ship id.
pub open spec fn player_with_meta(order: Seq<u32>, players: Map<u32, Player>, id: AccountId) -> Option<u32>
    decreases order.len(),
{
    if order.len() == 0 {
        None
    } else {
        match player_with_meta(order.drop_last(), players, id) {
            Some(k) => Some(k),
            None => {
                let k = order.last();
                if players.contains_key(k) && players[k].initial_state.meta_ship_id == id {
                    Some(k)
                } else {
                    None
                }
            },
        }
    }
}

/// The connection kind of a connected flag.
pub open spec fn connection_kind_of(connected: bool) -> ConnectionChangeKind {
    if connected {
        ConnectionChangeKind::Connected
    } else {
        ConnectionChangeKind::Disconnected
    }
}

/// What one player's game room state does: the player it names by meta
/// ship id takes the state as its latest, and a change of its connection
/// goes to its history. A state that names no known player changes nothing;
/// one whose id is not an integer is refused.
pub open spec fn room_state_received(
    old: BattleState,
    new: BattleState,
    elapsed: Duration,
    v: PickleVal,
    r: Result<(), BattleError>,
) -> bool {
    match field_value(v, old.version, "id"@) {
        None => r is Ok && new == old,
        Some(PickleVal::I64(x)) => match player_with_meta(old.player_order@, old.players@, AccountId(x as u64)) {
            None => r is Ok && new == old,
            Some(key) => {
                let pl = old.players@[key];
                let npl = new.players@[key];
                let kind = connection_kind_of(npl.end_state.is_connected);
                &&& r is Ok
                &&& new == BattleState { players: new.players, ..old }
                &&& new.players@ == old.players@.insert(key, npl)
                &&& npl.initial_state == pl.initial_state
                &&& npl.relation == pl.relation
                &&& npl.vehicle == pl.vehicle
                &&& if flat_well_formed(v) {
                    player_state_updated(pl.end_state, npl.end_state, v, old.version) && pairs_updated(
                        pl.end_state,
                        npl.end_state,
                        v,
                        old.version,
                    )
                } else {
                    npl.end_state == pl.end_state
                }
                &&& if is_connection_change(history_kinds(pl.connection_change_info@), kind) {
                    &&& npl.connection_change_info@.len() == pl.connection_change_info@.len() + 1
                    &&& npl.connection_change_info@.drop_last() == pl.connection_change_info@
                    &&& npl.connection_change_info@.last().at_game_duration_view() == elapsed
                    &&& npl.connection_change_info@.last().event_kind_view() == kind
                    &&& npl.connection_change_info@.last().had_death_event_view() == vehicle_has_died(
                        old,
                        pl.initial_state.entity_id,
                    )
                } else {
                    npl.connection_change_info@ == pl.connection_change_info@
                }
            },
        },
        Some(_) => r == Err::<(), BattleError>(BattleError::MalformedPlayerState) && new == old,
    }
}

/// The players' states of a game room state change taken one after
/// another: `states[j]` is the battle before state `j` and `states[j + 1]`
/// after it, `rs[j]` what taking it gave; all but the last were taken.
pub open spec fn room_steps(
    states: Seq<BattleState>,
    rs: Seq<Result<(), BattleError>>,
    elapsed: Duration,
    vs: Seq<PickleVal>,
) -> bool {
    &&& states.len() == rs.len() + 1
    &&& rs.len() <= vs.len()
    &&& forall|j: int|
        0 <= j < rs.len() ==> room_state_received(states[j], states[j + 1], elapsed, vs[j], #[trigger] rs[j])
    &&& forall|j: int| 0 <= j < rs.len() - 1 ==> (#[trigger] rs[j]) is Ok
}

/// What a game room state change does: its players' states are taken in
/// order, up to the first that is refused.
pub open spec fn room_received(
    old: BattleState,
    new: BattleState,
    elapsed: Duration,
    vs: Seq<PickleVal>,
    r: Result<(), BattleError>,
) -> bool {
    exists|states: Seq<BattleState>, rs: Seq<Result<(), BattleError>>|
        {
            &&& #[trigger] room_steps(states, rs, elapsed, vs)
            &&& states[0] == old
            &&& states.last() == new
            &&& (rs.len() < vs.len() ==> rs.len() > 0 && rs.last() is Err)
            &&& r == if rs.len() > 0 && rs.last() is Err {
                rs.last()
            } else {
                Ok::<(), BattleError>(())
            }
        }
}


/// The first match of a prefix is the first match of the whole order.
proof fn lemma_player_with_meta_prefix(order: Seq<u32>, players: Map<u32, Player>, id: AccountId, n: int)
    requires
        0 <= n <= order.len(),
        player_with_meta(order.take(n), players, id) is Some,
    ensures
        player_with_meta(order, players, id) == player_with_meta(order.take(n), players, id),
    decreases order.len() - n,
{
    if n < order.len() {
        assert(order.take(n + 1).drop_last() =~= order.take(n));
        lemma_player_with_meta_prefix(order, players, id, n + 1);
    } else {
        assert(order.take(n) =~= order);
    }
}


/// The player found by meta ship id is a player with that meta ship id.
proof fn lemma_player_with_meta_found(order: Seq<u32>, players: Map<u32, Player>, id: AccountId)
    ensures
        player_with_meta(order, players, id) matches Some(k) ==> players.contains_key(k)
            && players[k].initial_state.meta_ship_id == id,
    decreases order.len(),
{
    if order.len() > 0 {
        lemma_player_with_meta_found(order.drop_last(), players, id);
    }
}


/// The recording player: the first player, in order of arrival, whose
/// relation is the recording player's.
pub open spec fn self_player_spec(order: Seq<u32>, players: Map<u32, Player>) -> Option<u32>
    decreases order.len(),
{
    if order.len() == 0 {
        None
    } else {
        match self_player_spec(order.drop_last(), players) {
            Some(k) => Some(k),
            None => {
                let k = order.last();
                if players.contains_key(k) && players[k].relation.spec_value() == 0 {
                    Some(k)
                } else {
                    None
                }
            },
        }
    }
}

proof fn lemma_self_player_prefix(order: Seq<u32>, players: Map<u32, Player>, n: int)
    requires
        0 <= n <= order.len(),
        self_player_spec(order.take(n), players) is Some,
    ensures
        self_player_spec(order, players) == self_player_spec(order.take(n), players),
    decreases order.len() - n,
{
    if n < order.len() {
        assert(order.take(n + 1).drop_last() =~= order.take(n));
        lemma_self_player_prefix(order, players, n + 1);
    } else {
        assert(order.take(n) =~= order);
    }
}

proof fn lemma_self_player_found(order: Seq<u32>, players: Map<u32, Player>)
    ensures
        self_player_spec(order, players) matches Some(k) ==> players.contains_key(k)
            && players[k].relation.spec_value() == 0,
    decreases order.len(),
{
    if order.len() > 0 {
        lemma_self_player_found(order.drop_last(), players);
    }
}

impl BattleState {
    /// A battle that no packet has told anything yet.
    pub fn new(version: GameVersion, meta_vehicles: Vec<MetaVehicle>) -> (r: BattleState)
        ensures
            r.version == version,
            r.meta_vehicles@ == meta_vehicles@,
            r.arena_id == 0,
            !r.match_finished,
            r.winning_team is None,
            r.battle_results is None,
            r.kills.view_deaths().len() == 0,
            r.damage_dealt@.len() == 0,
            r.consumables@.len() == 0,
            r.game_chat@.len() == 0,
            r.entities@ == Map::<u32, Entity>::empty(),
            r.ship_positions@ == Map::<u32, ShipPosition>::empty(),
            r.minimap_positions@ == Map::<u32, MinimapPosition>::empty(),
            r.capture_points@.len() == 0,
            r.team_scores@.len() == 0,
            r.timeline.events_view().len() == 0,
            r.players@ == Map::<u32, Player>::empty(),
            r.player_order@.len() == 0,
            histories_alternate(r),
    {
        BattleState {
            version,
            meta_vehicles,
            arena_id: 0,
            match_finished: false,
            winning_team: None,
            battle_results: None,
            kills: KillLog::new(),
            damage_dealt: Vec::new(),
            consumables: Vec::new(),
            game_chat: Vec::new(),
            entities: HashMap::new(),
            ship_positions: HashMap::new(),
            minimap_positions: HashMap::new(),
            capture_points: Vec::new(),
            team_scores: Vec::new(),
            timeline: GameTimeline::new(),
            players: HashMap::new(),
            player_order: Vec::new(),
        }
    }

    /// Takes an entity method call.
    pub fn process_method(&mut self, clock: GameClock, elapsed: Duration, m: MethodEvent) -> (r: Result<
        (),
        BattleError,
    >)
        requires
            old(self).timeline.accepts_spec(clock),
        ensures
            method_processed(*old(self), *final(self), clock, elapsed, m, r),
            final(self).timeline.accepts_spec(clock),
    {
        match m {
            MethodEvent::Chat { entity_id, sender_id, audience, message, extra: _ } => {
                if sender_id.0 == 0 {
                    return Ok(());
                }
                match chat_channel(audience.as_str()) {
                    None => Err(BattleError::UnknownChatChannel),
                    Some(ch) => {
                        record_chat(
                            &self.meta_vehicles,
                            &mut self.game_chat,
                            &mut self.timeline,
                            clock,
                            entity_id,
                            sender_id,
                            ch,
                            message,
                        );
                        Ok(())
                    },
                }
            },
            MethodEvent::ShipDestroyed { victim, killer, cause } => {
                self.kills.record(Death { timestamp: elapsed, killer, victim, cause });
                self.timeline.push(clock, TimelineEvent::ShipDestroyed { killer: killer.0, victim: victim.0, cause });
                Ok(())
            },
            MethodEvent::Ribbon(ribbon) => {
                self.timeline.push(clock, TimelineEvent::Ribbon(ribbon));
                Ok(())
            },
            MethodEvent::DamageReceived { victim, aggressors } => {
                record_damage(&mut self.damage_dealt, &mut self.timeline, clock, victim, &aggressors);
                Ok(())
            },
            MethodEvent::MinimapUpdate { updates } => {
                record_minimap(&mut self.minimap_positions, &mut self.timeline, clock, &updates);
                Ok(())
            },
            MethodEvent::BattleEnd { winning_team, state: _ } => {
                self.match_finished = true;
                self.winning_team = winning_team;
                self.timeline.push(clock, TimelineEvent::BattleEnd { winning_team });
                Ok(())
            },
            MethodEvent::Consumable { entity, consumable, duration } => {
                self.consumables.push(ActiveConsumable { entity, consumable, activated_at: clock, duration });
                self.timeline.push(clock, TimelineEvent::ConsumableActivated { entity_id: entity.0, consumable, duration });
                Ok(())
            },
            MethodEvent::ArtilleryShots { entity_id, salvos } => {
                self.timeline.push(clock, TimelineEvent::ArtilleryShots { entity_id: entity_id.0, salvos });
                Ok(())
            },
            MethodEvent::TorpedoesReceived { entity_id, torpedoes } => {
                self.timeline.push(clock, TimelineEvent::TorpedoesLaunched { entity_id: entity_id.0, torpedoes });
                Ok(())
            },
            MethodEvent::PlanePosition { entity_id, plane_id, x, y } => {
                self.timeline.push(
                    clock,
                    TimelineEvent::PlanePosition { entity_id: entity_id.0, squadron_id: plane_id.0, x, y },
                );
                Ok(())
            },
            MethodEvent::ArenaState { arena_id, team_build_type_id: _, players } => self.receive_arena_state(
                elapsed,
                arena_id,
                &players,
            ),
            MethodEvent::GameRoomState { player_states } => self.receive_room_states(elapsed, &player_states),
            _ => Ok(()),
        }
    }

    fn create(
        &mut self,
        clock: GameClock,
        entity_id: EntityId,
        entity_type: String,
        position: Vec3Bits,
        props: Vec<(String, ArgVal)>,
    ) -> (r: Result<(), BattleError>)
        requires
            old(self).timeline.accepts_spec(clock),
        ensures
            entity_created(*old(self), *final(self), clock, entity_id, entity_type@, position, props@, r),
            final(self).timeline.accepts_spec(clock),
    {
        match create_entity(entity_type.as_str(), entity_id, &props, &self.version) {
            Err(CreateError::UnknownEntityType) => Err(BattleError::UnknownEntityType),
            Err(CreateError::MalformedProperties) => Err(BattleError::MalformedProperties),
            Ok(CreatedEntity::Vehicle { props: p, captain }) => {
                self.entities.insert(entity_id.0, Entity::Vehicle(VehicleEntity { id: entity_id, props: p, captain }));
                Ok(())
            },
            Ok(CreatedEntity::Building(b)) => {
                self.entities.insert(entity_id.0, Entity::Building(b));
                self.timeline.push(
                    clock,
                    TimelineEvent::BuildingStateChanged {
                        entity_id: entity_id.0,
                        is_alive: b.is_alive,
                        is_suppressed: b.is_suppressed,
                        team_id: b.team_id,
                    },
                );
                Ok(())
            },
            Ok(CreatedEntity::SmokeScreen { radius }) => {
                self.entities.insert(
                    entity_id.0,
                    Entity::SmokeScreen(SmokeScreenEntity { id: entity_id, radius, position }),
                );
                self.timeline.push(clock, TimelineEvent::SmokeScreenCreated { entity_id: entity_id.0, radius });
                Ok(())
            },
            Ok(CreatedEntity::Untracked(_)) => Ok(()),
        }
    }

    fn take_property(&mut self, entity_id: EntityId, property: String, value: ArgVal) -> (r: Result<
        (),
        BattleError,
    >)
        ensures
            property_taken(*old(self), *final(self), entity_id, property, value, r),
    {
        let id = entity_id.0;
        let is_vehicle = match self.entities.get(&id) {
            Some(Entity::Vehicle(_)) => true,
            _ => false,
        };
        if !is_vehicle {
            return Ok(());
        }
        let mut args: Vec<(String, ArgVal)> = Vec::new();
        args.push((property, value));
        if !vehicle_args_valid(&args, &self.version) {
            return Err(BattleError::MalformedProperties);
        }
        let (property, value) = match args.pop() {
            Some(pair) => pair,
            None => {
                return Ok(());
            },
        };
        assert(seq![(property, value)] =~= Seq::<(String, ArgVal)>::empty().push((property, value)));
        match self.entities.remove(&id) {
            Some(Entity::Vehicle(mut v)) => {
                let _ = v.props.update_by_name(property, value, &self.version);
                self.entities.insert(id, Entity::Vehicle(v));
                assert(self.entities@ =~= old(self).entities@.insert(id, self.entities@[id]));
                Ok(())
            },
            Some(other) => {
                self.entities.insert(id, other);
                Ok(())
            },
            None => Ok(()),
        }
    }

    /// Takes one packet of the replay, at `clock` (`elapsed` is the same
    /// clock as a duration).
    pub fn process(&mut self, clock: GameClock, elapsed: Duration, packet: BattlePacket) -> (r: Result<
        (),
        BattleError,
    >)
        requires
            old(self).timeline.accepts_spec(clock),
        ensures
            processed(*old(self), *final(self), clock, elapsed, packet, r),
            final(self).timeline.accepts_spec(clock),
    {
        match packet {
            BattlePacket::Method(m) => self.process_method(clock, elapsed, m),
            BattlePacket::Position { entity_id, position, yaw, pitch, roll } => {
                self.ship_positions.insert(
                    entity_id.0,
                    ShipPosition { entity_id, position, yaw, pitch, roll, last_updated: clock },
                );
                self.timeline.push(
                    clock,
                    TimelineEvent::ShipPosition { entity_id: entity_id.0, position, yaw, pitch, roll },
                );
                Ok(())
            },
            BattlePacket::EntityCreate { entity_id, entity_type, position, props } => self.create(
                clock,
                entity_id,
                entity_type,
                position,
                props,
            ),
            BattlePacket::EntityProperty { entity_id, property, value } => self.take_property(
                entity_id,
                property,
                value,
            ),
            BattlePacket::EntityLeave(id) => {
                let is_smoke = match self.entities.get(&id.0) {
                    Some(Entity::SmokeScreen(_)) => true,
                    _ => false,
                };
                if is_smoke {
                    let _ = self.entities.remove(&id.0);
                    self.timeline.push(clock, TimelineEvent::SmokeScreenDestroyed { entity_id: id.0 });
                }
                Ok(())
            },
            BattlePacket::PropertyUpdate { entity_id: _, property, levels, action } => {
                let e = apply_state_update(
                    &mut self.capture_points,
                    &mut self.team_scores,
                    property.as_str(),
                    &levels,
                    &action,
                );
                match e {
                    Some(ev) => {
                        self.timeline.push(clock, state_event_to_timeline(ev));
                    },
                    None => {},
                }
                Ok(())
            },
            BattlePacket::BattleResults(text) => {
                self.battle_results = Some(text);
                Ok(())
            },
            BattlePacket::Other => Ok(()),
        }
    }

    pub fn timeline(&self) -> (r: &GameTimeline)
        ensures
            *r == self.timeline,
    {
        &self.timeline
    }

    pub fn game_chat(&self) -> (r: &[GameMessage])
        ensures
            r@ == self.game_chat@,
    {
        self.game_chat.as_slice()
    }

    pub fn battle_results(&self) -> (r: Option<&String>)
        ensures
            match r {
                Some(t) => self.battle_results == Some(*t),
                None => self.battle_results is None,
            },
    {
        match &self.battle_results {
            Some(t) => Some(t),
            None => None,
        }
    }

    pub fn ship_positions(&self) -> (r: &HashMap<u32, ShipPosition>)
        ensures
            r@ == self.ship_positions@,
    {
        &self.ship_positions
    }

    pub fn minimap_positions(&self) -> (r: &HashMap<u32, MinimapPosition>)
        ensures
            r@ == self.minimap_positions@,
    {
        &self.minimap_positions
    }

    pub fn capture_points(&self) -> (r: &[CapturePointState])
        ensures
            r@ == self.capture_points@,
    {
        self.capture_points.as_slice()
    }

    pub fn team_scores(&self) -> (r: &[TeamScore])
        ensures
            r@ == self.team_scores@,
    {
        self.team_scores.as_slice()
    }

    /// The entity id of the recording player.
    pub fn self_player(&self) -> (r: Option<u32>)
        ensures
            r == self_player_spec(self.player_order@, self.players@),
    {
        let mut k: usize = 0;
        while k < self.player_order.len()
            invariant
                k <= self.player_order@.len(),
                self_player_spec(self.player_order@.take(k as int), self.players@) is None,
            decreases self.player_order@.len() - k,
        {
            let key = self.player_order[k];
            assert(self.player_order@.take(k + 1).drop_last() =~= self.player_order@.take(k as int));
            let found = match self.players.get(&key) {
                Some(p) => p.relation.is_self(),
                None => false,
            };
            if found {
                proof {
                    lemma_self_player_prefix(self.player_order@, self.players@, k + 1);
                }
                return Some(key);
            }
            k += 1;
        }
        assert(self.player_order@.take(self.player_order@.len() as int) =~= self.player_order@);
        None
    }

    /// The result of the battle for the recording player (see
    /// `battle_result`), by the team of its first reported state; refused
    /// when no player is the recording player.
    pub fn match_result(&self) -> (r: Result<Option<BattleResult>, BattleError>)
        ensures
            match self_player_spec(self.player_order@, self.players@) {
                Some(k) => r == Ok::<Option<BattleResult>, BattleError>(
                    battle_result_spec(self.match_finished, self.winning_team, self.players@[k].initial_state.team_id),
                ),
                None => r == Err::<Option<BattleResult>, BattleError>(BattleError::NoSelfPlayer),
            },
    {
        proof {
            lemma_self_player_found(self.player_order@, self.players@);
        }
        match self.self_player() {
            None => Err(BattleError::NoSelfPlayer),
            Some(k) => match self.players.get(&k) {
                Some(p) => Ok(battle_result(self.match_finished, self.winning_team, p.initial_state.team_id)),
                None => Err(BattleError::NoSelfPlayer),
            },
        }
    }

    /// Whether the entity is a tracked vehicle that has died.
    fn vehicle_died(&self, e: EntityId) -> (r: bool)
        ensures
            r == vehicle_has_died(*self, e),
    {
        match self.entities.get(&e.0) {
            Some(Entity::Vehicle(_)) => self.kills.has_died(e),
            _ => false,
        }
    }

    /// Takes one player of an arena state.
    pub fn receive_arena_player(&mut self, elapsed: Duration, p: &PlayerStateData) -> (r: Result<
        (),
        BattleError,
    >)
        ensures
            arena_player_received(*old(self), *final(self), elapsed, *p, r),
    {
        let i = match find_meta(&self.meta_vehicles, p.meta_ship_id) {
            None => {
                return Err(BattleError::UnknownPlayer);
            },
            Some(i) => i,
        };
        let had_death = self.vehicle_died(p.entity_id);
        let mut history: Vec<ConnectionChangeInfo> = Vec::new();
        if p.is_connected {
            history.push(ConnectionChangeInfo::new(elapsed, ConnectionChangeKind::Connected, had_death));
        }
        let player = Player {
            initial_state: p.clone(),
            end_state: p.clone(),
            connection_change_info: history,
            relation: Relation::new(self.meta_vehicles[i].relation),
            vehicle: self.meta_vehicles[i].ship_id,
        };
        let key = p.entity_id.0;
        let mut known = false;
        let mut k: usize = 0;
        while k < self.player_order.len()
            invariant
                k <= self.player_order@.len(),
                known == exists|j: int| 0 <= j < k && #[trigger] self.player_order@[j] == key,
            decreases self.player_order@.len() - k,
        {
            if self.player_order[k] == key {
                known = true;
            }
            k += 1;
        }
        assert(known == self.player_order@.contains(key));
        self.players.insert(key, player);
        if !known {
            self.player_order.push(key);
        }
        Ok(())
    }

    /// Takes an arena state: its id, then its players in order, up to the
    /// first that is refused.
    pub fn receive_arena_state(&mut self, elapsed: Duration, arena_id: i64, players: &Vec<PlayerStateData>) -> (r: Result<
        (),
        BattleError,
    >)
        ensures
            arena_received(*old(self), *final(self), elapsed, arena_id, players@, r),
            final(self).timeline == old(self).timeline,
    {
        self.arena_id = arena_id;
        let ghost mut states: Seq<BattleState> = seq![*self];
        let ghost mut rs: Seq<Result<(), BattleError>> = seq![];
        let mut k: usize = 0;
        while k < players.len()
            invariant
                k <= players@.len(),
                arena_steps(states, rs, elapsed, players@),
                rs.len() == k,
                forall|j: int| 0 <= j < k ==> (#[trigger] rs[j]) is Ok,
                states[0] == (BattleState { arena_id, ..*old(self) }),
                states.last() == *self,
                self.timeline == old(self).timeline,
            decreases players@.len() - k,
        {
            let r = self.receive_arena_player(elapsed, &players[k]);
            proof {
                states = states.push(*self);
                rs = rs.push(r);
            }
            if r.is_err() {
                assert(arena_steps(states, rs, elapsed, players@));
                return r;
            }
            k += 1;
        }
        assert(arena_steps(states, rs, elapsed, players@));
        Ok(())
    }

    /// Takes one player's state of a game room state change.
    pub fn receive_room_state(&mut self, elapsed: Duration, v: &PickleVal) -> (r: Result<(), BattleError>)
        ensures
            room_state_received(*old(self), *final(self), elapsed, *v, r),
    {
        let id = match field_of(v, &self.version, "id") {
            None => {
                return Ok(());
            },
            Some(PickleVal::I64(x)) => AccountId(*x as u64),
            Some(_) => {
                return Err(BattleError::MalformedPlayerState);
            },
        };
        let key = match self.find_player(id) {
            None => {
                return Ok(());
            },
            Some(key) => key,
        };
        proof {
            lemma_player_with_meta_found(self.player_order@, self.players@, id);
        }
        let mut player = match self.players.remove(&key) {
            Some(p) => p,
            None => {
                return Ok(());
            },
        };
        let had_death = self.vehicle_died(player.initial_state.entity_id);
        let _ = player.end_state.update_from_state(v, &self.version);
        let kind = if player.end_state.is_connected {
            ConnectionChangeKind::Connected
        } else {
            ConnectionChangeKind::Disconnected
        };
        let _ = record_connection_state(&mut player.connection_change_info, elapsed, kind, had_death);
        self.players.insert(key, player);
        assert(self.players@ =~= old(self).players@.insert(key, self.players@[key]));
        Ok(())
    }

    /// The first player, in order of arrival, whose first reported state has
    /// this meta ship id.
    fn find_player(&self, id: AccountId) -> (r: Option<u32>)
        ensures
            r == player_with_meta(self.player_order@, self.players@, id),
    {
        let mut k: usize = 0;
        while k < self.player_order.len()
            invariant
                k <= self.player_order@.len(),
                player_with_meta(self.player_order@.take(k as int), self.players@, id) is None,
            decreases self.player_order@.len() - k,
        {
            let key = self.player_order[k];
            assert(self.player_order@.take(k + 1).drop_last() =~= self.player_order@.take(k as int));
            let found = match self.players.get(&key) {
                Some(p) => p.initial_state.meta_ship_id == id,
                None => false,
            };
            if found {
                proof {
                    lemma_player_with_meta_prefix(self.player_order@, self.players@, id, k + 1);
                }
                return Some(key);
            }
            k += 1;
        }
        assert(self.player_order@.take(self.player_order@.len() as int) =~= self.player_order@);
        None
    }

    /// Takes a game room state change: its players' states in order, up to
    /// the first that is refused.
    pub fn receive_room_states(&mut self, elapsed: Duration, vs: &Vec<PickleVal>) -> (r: Result<(), BattleError>)
        ensures
            room_received(*old(self), *final(self), elapsed, vs@, r),
            final(self).timeline == old(self).timeline,
    {
        let ghost mut states: Seq<BattleState> = seq![*self];
        let ghost mut rs: Seq<Result<(), BattleError>> = seq![];
        let mut k: usize = 0;
        while k < vs.len()
            invariant
                k <= vs@.len(),
                room_steps(states, rs, elapsed, vs@),
                rs.len() == k,
                forall|j: int| 0 <= j < k ==> (#[trigger] rs[j]) is Ok,
                states[0] == *old(self),
                states.last() == *self,
                self.timeline == old(self).timeline,
            decreases vs@.len() - k,
        {
            let r = self.receive_room_state(elapsed, &vs[k]);
            proof {
                states = states.push(*self);
                rs = rs.push(r);
            }
            if r.is_err() {
                assert(room_steps(states, rs, elapsed, vs@));
                return r;
            }
            k += 1;
        }
        assert(room_steps(states, rs, elapsed, vs@));
        Ok(())
    }
}

/// A packet that the battle refuses leaves it as it was, but for arena and
/// game room states, whose players before the refused one were taken.
pub proof fn lemma_refused_packet_changes_nothing(
    old: BattleState,
    new: BattleState,
    clock: GameClock,
    elapsed: Duration,
    packet: BattlePacket,
    r: Result<(), BattleError>,
)
    requires
        processed(old, new, clock, elapsed, packet, r),
        r is Err,
        !(packet matches BattlePacket::Method(MethodEvent::ArenaState { .. })),
        !(packet matches BattlePacket::Method(MethodEvent::GameRoomState { .. })),
    ensures
        new == old,
{
}

/// The timeline only grows: whatever packet the battle takes, the events it
/// held before are still there, in the same order, at the front.
pub proof fn lemma_timeline_only_grows(
    old: BattleState,
    new: BattleState,
    clock: GameClock,
    elapsed: Duration,
    packet: BattlePacket,
    r: Result<(), BattleError>,
)
    requires
        processed(old, new, clock, elapsed, packet, r),
    ensures
        old.timeline.events_view().len() <= new.timeline.events_view().len(),
        new.timeline.events_view().subrange(0, old.timeline.events_view().len() as int)
            == old.timeline.events_view(),
{
    let o = old.timeline.events_view();
    let n = new.timeline.events_view();
    assert forall|added: Seq<TimestampedEvent>| n == o + added implies n.subrange(0, o.len() as int) == o by {
        assert(n.subrange(0, o.len() as int) =~= o);
    }
    assert forall|e: TimestampedEvent| n == o.push(e) implies n.subrange(0, o.len() as int) == o by {
        assert(n.subrange(0, o.len() as int) =~= o);
    }
    assert(n == o ==> n.subrange(0, o.len() as int) =~= o);
    assert(n.len() == o.len() + 1 && n.drop_last() == o ==> n.subrange(0, o.len() as int) =~= o);

}

/// A destroyed ship has died: after the battle takes its destruction, a
/// death of it is recorded, and it is the last kill of its killer.
pub proof fn lemma_destroyed_ship_has_died(
    old: BattleState,
    new: BattleState,
    clock: GameClock,
    elapsed: Duration,
    victim: EntityId,
    killer: EntityId,
    cause: DeathCause,
    r: Result<(), BattleError>,
)
    requires
        processed(
            old,
            new,
            clock,
            elapsed,
            BattlePacket::Method(MethodEvent::ShipDestroyed { victim, killer, cause }),
            r,
        ),
    ensures
        died(new.kills, victim),
        new.kills.view_deaths().filter(|d: Death| d.killer == killer) == old.kills.view_deaths().filter(
            |d: Death| d.killer == killer,
        ).push(Death { timestamp: elapsed, killer, victim, cause }),
{
    let d = Death { timestamp: elapsed, killer, victim, cause };
    lemma_record_then_query(old.kills.view_deaths(), d);
    assert(new.kills.view_deaths()[old.kills.view_deaths().len() as int] == d);
}

/// Every player's connection history starts with a connection and then
/// alternates between connections and disconnections.
pub open spec fn histories_alternate(b: BattleState) -> bool {
    forall|k: u32|
        #[trigger] b.players@.contains_key(k) ==> alternating(history_kinds(b.players@[k].connection_change_info@))
}

/// One more entry at the end of a history adds its kind at the end of the
/// kinds.
proof fn lemma_history_kinds_push(h: Seq<ConnectionChangeInfo>, n: Seq<ConnectionChangeInfo>)
    requires
        n.len() == h.len() + 1,
        n.drop_last() == h,
    ensures
        history_kinds(n) == history_kinds(h).push(n.last().event_kind_view()),
{
    assert forall|j: int| 0 <= j < h.len() implies n[j] == h[j] by {
        assert(n.drop_last()[j] == n[j]);
    }
    assert(history_kinds(n) =~= history_kinds(h).push(n.last().event_kind_view()));
}

proof fn lemma_arena_player_keeps_alternation(
    old: BattleState,
    new: BattleState,
    elapsed: Duration,
    p: PlayerStateData,
    r: Result<(), BattleError>,
)
    requires
        arena_player_received(old, new, elapsed, p, r),
        histories_alternate(old),
    ensures
        histories_alternate(new),
{
    if meta_index(old.meta_vehicles@, p.meta_ship_id) is Some {
        let key = p.entity_id.0;
        assert forall|k: u32| #[trigger] new.players@.contains_key(k) implies alternating(
            history_kinds(new.players@[k].connection_change_info@),
        ) by {
            if k == key {
                let h = new.players@[key].connection_change_info@;
                if p.is_connected {
                    assert(history_kinds(h) =~= seq![ConnectionChangeKind::Connected]);
                } else {
                    assert(history_kinds(h) =~= Seq::<ConnectionChangeKind>::empty());
                }
            } else {
                assert(old.players@.contains_key(k));
            }
        }
    }
}

proof fn lemma_arena_steps_keep_alternation(
    states: Seq<BattleState>,
    rs: Seq<Result<(), BattleError>>,
    elapsed: Duration,
    ps: Seq<PlayerStateData>,
    n: int,
)
    requires
        arena_steps(states, rs, elapsed, ps),
        histories_alternate(states[0]),
        0 <= n < states.len(),
    ensures
        histories_alternate(states[n]),
    decreases n,
{
    if n > 0 {
        lemma_arena_steps_keep_alternation(states, rs, elapsed, ps, n - 1);
        assert(arena_player_received(states[n - 1], states[n], elapsed, ps[n - 1], rs[n - 1]));
        lemma_arena_player_keeps_alternation(states[n - 1], states[n], elapsed, ps[n - 1], rs[n - 1]);
    }
}

proof fn lemma_room_state_keeps_alternation(
    old: BattleState,
    new: BattleState,
    elapsed: Duration,
    v: PickleVal,
    r: Result<(), BattleError>,
)
    requires
        room_state_received(old, new, elapsed, v, r),
        histories_alternate(old),
    ensures
        histories_alternate(new),
{
    if let Some(PickleVal::I64(x)) = field_value(v, old.version, "id"@) {
        if let Some(key) = player_with_meta(old.player_order@, old.players@, AccountId(x as u64)) {
            let pl = old.players@[key];
            let npl = new.players@[key];
            let kind = connection_kind_of(npl.end_state.is_connected);
            let h = pl.connection_change_info@;
            assert(old.players@.contains_key(key)) by {
                lemma_player_with_meta_found(old.player_order@, old.players@, AccountId(x as u64));
            }
            assert(alternating(history_kinds(h)));
            lemma_recording_keeps_history_alternating(history_kinds(h), kind);
            if is_connection_change(history_kinds(h), kind) {
                lemma_history_kinds_push(h, npl.connection_change_info@);
            }
            assert forall|k: u32| #[trigger] new.players@.contains_key(k) implies alternating(
                history_kinds(new.players@[k].connection_change_info@),
            ) by {
                if k != key {
                    assert(old.players@.contains_key(k));
                }
            }
        }
    }
}

proof fn lemma_room_steps_keep_alternation(
    states: Seq<BattleState>,
    rs: Seq<Result<(), BattleError>>,
    elapsed: Duration,
    vs: Seq<PickleVal>,
    n: int,
)
    requires
        room_steps(states, rs, elapsed, vs),
        histories_alternate(states[0]),
        0 <= n < states.len(),
    ensures
        histories_alternate(states[n]),
    decreases n,
{
    if n > 0 {
        lemma_room_steps_keep_alternation(states, rs, elapsed, vs, n - 1);
        assert(room_state_received(states[n - 1], states[n], elapsed, vs[n - 1], rs[n - 1]));
        lemma_room_state_keeps_alternation(states[n - 1], states[n], elapsed, vs[n - 1], rs[n - 1]);
    }
}

/// Connection histories alternate whatever packets the battle takes: every
/// player's history starts with a connection and never records the same
/// kind twice in a row, before and after any packet.
pub proof fn lemma_histories_stay_alternating(
    old: BattleState,
    new: BattleState,
    clock: GameClock,
    elapsed: Duration,
    packet: BattlePacket,
    r: Result<(), BattleError>,
)
    requires
        processed(old, new, clock, elapsed, packet, r),
        histories_alternate(old),
    ensures
        histories_alternate(new),
{
    match packet {
        BattlePacket::Method(MethodEvent::ArenaState { arena_id, team_build_type_id: _, players }) => {
            let (states, rs) = choose|states: Seq<BattleState>, rs: Seq<Result<(), BattleError>>|
                {
                    &&& #[trigger] arena_steps(states, rs, elapsed, players@)
                    &&& states[0] == BattleState { arena_id, ..old }
                    &&& states.last() == new
                    &&& (rs.len() < players@.len() ==> rs.len() > 0 && rs.last() is Err)
                    &&& r == if rs.len() > 0 && rs.last() is Err {
                        rs.last()
                    } else {
                        Ok::<(), BattleError>(())
                    }
                };
            lemma_arena_steps_keep_alternation(states, rs, elapsed, players@, states.len() - 1);
        },
        BattlePacket::Method(MethodEvent::GameRoomState { player_states }) => {
            let (states, rs) = choose|states: Seq<BattleState>, rs: Seq<Result<(), BattleError>>|
                {
                    &&& #[trigger] room_steps(states, rs, elapsed, player_states@)
                    &&& states[0] == old
                    &&& states.last() == new
                    &&& (rs.len() < player_states@.len() ==> rs.len() > 0 && rs.last() is Err)
                    &&& r == if rs.len() > 0 && rs.last() is Err {
                        rs.last()
                    } else {
                        Ok::<(), BattleError>(())
                    }
                };
            lemma_room_steps_keep_alternation(states, rs, elapsed, player_states@, states.len() - 1);
        },
        _ => {},
    }
}

/// Every player of `old` is still there in `new`, and its history in `old`
/// is the start of its history in `new`.
pub open spec fn histories_kept(old: BattleState, new: BattleState) -> bool {
    forall|k: u32|
        #[trigger] old.players@.contains_key(k) ==> {
            &&& new.players@.contains_key(k)
            &&& old.players@[k].connection_change_info@.len() <= new.players@[k].connection_change_info@.len()
            &&& new.players@[k].connection_change_info@.take(old.players@[k].connection_change_info@.len() as int)
                == old.players@[k].connection_change_info@
        }
}

proof fn lemma_room_state_keeps_histories(
    old: BattleState,
    new: BattleState,
    elapsed: Duration,
    v: PickleVal,
    r: Result<(), BattleError>,
)
    requires
        room_state_received(old, new, elapsed, v, r),
    ensures
        histories_kept(old, new),
{
    assert forall|k: u32| #[trigger] old.players@.contains_key(k) implies {
        &&& new.players@.contains_key(k)
        &&& old.players@[k].connection_change_info@.len() <= new.players@[k].connection_change_info@.len()
        &&& new.players@[k].connection_change_info@.take(old.players@[k].connection_change_info@.len() as int)
            == old.players@[k].connection_change_info@
    } by {
        let h = old.players@[k].connection_change_info@;
        let n = new.players@[k].connection_change_info@;
        if n.len() == h.len() + 1 && n.drop_last() == h {
            assert(n.take(h.len() as int) =~= h);
        } else {
            assert(n.take(h.len() as int) =~= h);
        }
    }
}

proof fn lemma_room_steps_keep_histories(
    states: Seq<BattleState>,
    rs: Seq<Result<(), BattleError>>,
    elapsed: Duration,
    vs: Seq<PickleVal>,
    n: int,
)
    requires
        room_steps(states, rs, elapsed, vs),
        0 <= n < states.len(),
    ensures
        histories_kept(states[0], states[n]),
    decreases n,
{
    if n == 0 {
        assert forall|k: u32| #[trigger] states[0].players@.contains_key(k) implies states[0].players@[k].connection_change_info@.take(
            states[0].players@[k].connection_change_info@.len() as int,
        ) == states[0].players@[k].connection_change_info@ by {
            assert(states[0].players@[k].connection_change_info@.take(
                states[0].players@[k].connection_change_info@.len() as int,
            ) =~= states[0].players@[k].connection_change_info@);
        }
    } else {
        lemma_room_steps_keep_histories(states, rs, elapsed, vs, n - 1);
        assert(room_state_received(states[n - 1], states[n], elapsed, vs[n - 1], rs[n - 1]));
        lemma_room_state_keeps_histories(states[n - 1], states[n], elapsed, vs[n - 1], rs[n - 1]);
        assert forall|k: u32| #[trigger] states[0].players@.contains_key(k) implies {
            &&& states[n].players@.contains_key(k)
            &&& states[0].players@[k].connection_change_info@.len() <= states[n].players@[k].connection_change_info@.len()
            &&& states[n].players@[k].connection_change_info@.take(
                states[0].players@[k].connection_change_info@.len() as int,
            ) == states[0].players@[k].connection_change_info@
        } by {
            let a = states[0].players@[k].connection_change_info@;
            let b = states[n - 1].players@[k].connection_change_info@;
            let c = states[n].players@[k].connection_change_info@;
            assert(states[n - 1].players@.contains_key(k));
            assert(c.take(a.len() as int) =~= b.take(a.len() as int)) by {
                assert forall|j: int| 0 <= j < a.len() implies c[j] == b[j] by {
                    assert(c.take(b.len() as int)[j] == c[j]);
                }
            }
        }
    }
}

/// A recorded connection change is never altered: whatever packet the
/// battle takes, but for an arena state (which makes its players anew),
/// every player stays and its history only grows at the end.
pub proof fn lemma_histories_only_grow(
    old: BattleState,
    new: BattleState,
    clock: GameClock,
    elapsed: Duration,
    packet: BattlePacket,
    r: Result<(), BattleError>,
)
    requires
        processed(old, new, clock, elapsed, packet, r),
        !(packet matches BattlePacket::Method(MethodEvent::ArenaState { .. })),
    ensures
        histories_kept(old, new),
{
    match packet {
        BattlePacket::Method(MethodEvent::GameRoomState { player_states }) => {
            let (states, rs) = choose|states: Seq<BattleState>, rs: Seq<Result<(), BattleError>>|
                {
                    &&& #[trigger] room_steps(states, rs, elapsed, player_states@)
                    &&& states[0] == old
                    &&& states.last() == new
                    &&& (rs.len() < player_states@.len() ==> rs.len() > 0 && rs.last() is Err)
                    &&& r == if rs.len() > 0 && rs.last() is Err {
                        rs.last()
                    } else {
                        Ok::<(), BattleError>(())
                    }
                };
            lemma_room_steps_keep_histories(states, rs, elapsed, player_states@, states.len() - 1);
        },
        _ => {
            assert forall|k: u32| #[trigger] old.players@.contains_key(k) implies new.players@[k].connection_change_info@.take(
                old.players@[k].connection_change_info@.len() as int,
            ) == old.players@[k].connection_change_info@ by {
                assert(new.players == old.players);
                assert(new.players@[k].connection_change_info@.take(
                    old.players@[k].connection_change_info@.len() as int,
                ) =~= old.players@[k].connection_change_info@);
            }
        },
    }
}

/// A run of packets: `states[j]` is the battle before packet `j` and
/// `states[j + 1]` after it, taken at `clocks[j]` (`elapsed[j]` as a
/// duration) with outcome `rs[j]`.
pub open spec fn run_processed(
    states: Seq<BattleState>,
    clocks: Seq<GameClock>,
    elapsed: Seq<Duration>,
    packets: Seq<BattlePacket>,
    rs: Seq<Result<(), BattleError>>,
) -> bool {
    &&& states.len() == packets.len() + 1
    &&& clocks.len() == packets.len()
    &&& elapsed.len() == packets.len()
    &&& rs.len() == packets.len()
    &&& forall|j: int|
        0 <= j < packets.len() ==> processed(states[j], states[j + 1], clocks[j], elapsed[j], #[trigger] packets[j], rs[j])
}

/// Over any run of packets from a new battle, every player's connection
/// history starts with a connection and alternates.
pub proof fn lemma_run_keeps_histories_alternating(
    states: Seq<BattleState>,
    clocks: Seq<GameClock>,
    elapsed: Seq<Duration>,
    packets: Seq<BattlePacket>,
    rs: Seq<Result<(), BattleError>>,
    n: int,
)
    requires
        run_processed(states, clocks, elapsed, packets, rs),
        states[0].players@ == Map::<u32, Player>::empty(),
        0 <= n < states.len(),
    ensures
        histories_alternate(states[n]),
    decreases n,
{
    if n > 0 {
        lemma_run_keeps_histories_alternating(states, clocks, elapsed, packets, rs, n - 1);
        assert(processed(states[n - 1], states[n], clocks[n - 1], elapsed[n - 1], packets[n - 1], rs[n - 1]));
        lemma_histories_stay_alternating(states[n - 1], states[n], clocks[n - 1], elapsed[n - 1], packets[n - 1], rs[n - 1]);
    }
}

} // verus!
