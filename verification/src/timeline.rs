//! The battle timeline: discrete events of a battle in clock order.
use vstd::prelude::*;
use crate::controller::ChatChannel;
use crate::decoder::{Consumable, DeathCause, PackedMinimapUpdate, Ribbon};
use crate::events::{ArtillerySalvo, TorpedoData, Vec3Bits};
use crate::state::CaptureProgress;

verus! {

/// A game clock: the bit pattern of the `f32` seconds since the arena was
/// created. For the non-negative clocks of a replay the bit patterns order
/// as the seconds do.
#[derive(Debug, Clone, Copy, PartialEq, Eq, Structural)]
pub struct GameClock(pub u32);

/// All discrete events that can be recorded in the timeline.
/// Floating-point values are bit patterns.
#[derive(Debug)]
#[allow(inconsistent_fields)]
pub enum TimelineEvent {
    /// Ship position from a Position packet (world coordinates)
    ShipPosition { entity_id: u32, position: Vec3Bits, yaw: u32, pitch: u32, roll: u32 },
    /// Minimap vision update (the packed position and heading)
    MinimapVisionUpdate { entity_id: u32, update: PackedMinimapUpdate, disappearing: bool },
    /// A ship was destroyed
    ShipDestroyed { killer: u32, victim: u32, cause: DeathCause },
    /// Damage was dealt from one entity to another
    DamageDealt { aggressor_id: u32, victim_id: u32, damage: u32 },
    /// A consumable was activated
    ConsumableActivated { entity_id: u32, consumable: Consumable, duration: u32 },
    /// Capture point state changed
    CapturePointUpdate {
        point_index: usize,
        team_id: Option<i64>,
        invader_team: Option<i64>,
        progress: Option<CaptureProgress>,
        has_invaders: Option<bool>,
        both_inside: Option<bool>,
    },
    /// Team score changed
    TeamScoreUpdate { team_index: usize, score: i64 },
    /// A smoke screen was created
    SmokeScreenCreated { entity_id: u32, radius: u32 },
    /// A smoke screen was destroyed
    SmokeScreenDestroyed { entity_id: u32 },
    /// A building's state changed
    BuildingStateChanged { entity_id: u32, is_alive: bool, is_suppressed: bool, team_id: i8 },
    /// A ribbon was earned
    Ribbon(Ribbon),
    /// A chat message was sent
    ChatMessage { entity_id: u32, sender_name: String, channel: ChatChannel, message: String },
    /// The battle ended
    BattleEnd { winning_team: Option<i8> },
    /// Artillery shells were fired
    ArtilleryShots { entity_id: u32, salvos: Vec<ArtillerySalvo> },
    /// Torpedoes were launched
    TorpedoesLaunched { entity_id: u32, torpedoes: Vec<TorpedoData> },
    /// A plane/squadron position was updated on the minimap
    PlanePosition { entity_id: u32, squadron_id: u64, x: u32, y: u32 },
}

/// A timestamped event in the battle timeline.
#[derive(Debug)]
pub struct TimestampedEvent {
    pub clock: GameClock,
    pub event: TimelineEvent,
}

/// The clocks of a sequence of events never decrease.
pub open spec fn clocks_ordered(s: Seq<TimestampedEvent>) -> bool {
    forall|i: int, j: int| 0 <= i <= j < s.len() ==> #[trigger] s[i].clock.0 <= #[trigger] s[j].clock.0
}

/// How many events happened before `c`.
pub open spec fn count_before(s: Seq<TimestampedEvent>, c: GameClock) -> nat
    decreases s.len(),
{
    if s.len() == 0 {
        0
    } else {
        count_before(s.drop_last(), c) + if s.last().clock.0 < c.0 {
            1nat
        } else {
            0nat
        }
    }
}

/// Where the events split at a clock, `count_before` counts the events
/// before the split.
proof fn lemma_count_before_split(s: Seq<TimestampedEvent>, c: GameClock, i: int)
    requires
        0 <= i <= s.len(),
        forall|j: int| 0 <= j < i ==> (#[trigger] s[j]).clock.0 < c.0,
        forall|j: int| i <= j < s.len() ==> (#[trigger] s[j]).clock.0 >= c.0,
    ensures
        count_before(s, c) == i,
    decreases s.len(),
{
    if s.len() > 0 {
        let t = s.drop_last();
        if i == s.len() {
            assert(s.last().clock.0 < c.0);
            lemma_count_before_split(t, c, i - 1);
        } else {
            assert(s.last().clock.0 >= c.0);
            assert forall|j: int| 0 <= j < i implies (#[trigger] t[j]).clock.0 < c.0 by {
                assert(t[j] == s[j]);
            }
            assert forall|j: int| i <= j < t.len() implies (#[trigger] t[j]).clock.0 >= c.0 by {
                assert(t[j] == s[j]);
            }
            lemma_count_before_split(t, c, i);
        }
    }
}

/// No more events happened before a clock than there are.
pub proof fn lemma_count_before_bounded(s: Seq<TimestampedEvent>, c: GameClock)
    ensures
        count_before(s, c) <= s.len(),
    decreases s.len(),
{
    if s.len() > 0 {
        lemma_count_before_bounded(s.drop_last(), c);
    }
}

/// A later clock has at least as many events before it.
pub proof fn lemma_count_before_monotone(s: Seq<TimestampedEvent>, a: GameClock, b: GameClock)
    requires
        a.0 <= b.0,
    ensures
        count_before(s, a) <= count_before(s, b),
    decreases s.len(),
{
    if s.len() > 0 {
        lemma_count_before_monotone(s.drop_last(), a, b);
    }
}

/// Adjacent time windows split the events between them: the events of
/// `[a, b)` followed by those of `[b, c)` are the events of `[a, c)`.
pub proof fn lemma_adjacent_windows_join(s: Seq<TimestampedEvent>, a: GameClock, b: GameClock, c: GameClock)
    requires
        a.0 <= b.0 <= c.0,
    ensures
        s.subrange(count_before(s, a) as int, count_before(s, b) as int) + s.subrange(
            count_before(s, b) as int,
            count_before(s, c) as int,
        ) == s.subrange(count_before(s, a) as int, count_before(s, c) as int),
{
    lemma_count_before_monotone(s, a, b);
    lemma_count_before_monotone(s, b, c);
    lemma_count_before_bounded(s, c);
    assert(s.subrange(count_before(s, a) as int, count_before(s, b) as int) + s.subrange(
        count_before(s, b) as int,
        count_before(s, c) as int,
    ) =~= s.subrange(count_before(s, a) as int, count_before(s, c) as int));
}

/// Append-only timeline of battle events. Events are pushed in packet order,
/// which is monotonically increasing by clock time.
pub struct GameTimeline {
    events: Vec<TimestampedEvent>,
}

impl GameTimeline {
    /// The events, oldest first.
    pub closed spec fn events_view(&self) -> Seq<TimestampedEvent> {
        self.events@
    }

    #[verifier::type_invariant]
    spec fn ordered(self) -> bool {
        clocks_ordered(self.events@)
    }

    /// An event at `clock` keeps the timeline in clock order.
    pub open spec fn accepts_spec(&self, clock: GameClock) -> bool {
        self.events_view().len() == 0 || self.events_view().last().clock.0 <= clock.0
    }

    pub fn new() -> (r: GameTimeline)
        ensures
            r.events_view().len() == 0,
    {
        GameTimeline { events: Vec::new() }
    }

    /// Whether an event at `clock` may be pushed: no event is later.
    pub fn accepts(&self, clock: GameClock) -> (r: bool)
        ensures
            r == self.accepts_spec(clock),
    {
        let n = self.events.len();
        n == 0 || self.events[n - 1].clock.0 <= clock.0
    }

    pub fn push(&mut self, clock: GameClock, event: TimelineEvent)
        requires
            old(self).accepts_spec(clock),
        ensures
            final(self).events_view() == old(self).events_view().push(TimestampedEvent { clock, event }),
    {
        proof {
            use_type_invariant(&*self);
        }
        let mut events: Vec<TimestampedEvent> = Vec::new();
        std::mem::swap(&mut events, &mut self.events);
        let ghost before = events@;
        events.push(TimestampedEvent { clock, event });
        assert(clocks_ordered(events@)) by {
            assert forall|i: int, j: int| 0 <= i <= j < events@.len() implies #[trigger] events@[i].clock.0
                <= #[trigger] events@[j].clock.0 by {
                if j < before.len() {
                    assert(events@[i] == before[i] && events@[j] == before[j]);
                } else if i < before.len() {
                    assert(events@[i] == before[i]);
                    assert(before[i].clock.0 <= before[before.len() - 1].clock.0);
                }
            }
        }
        self.events = events;
    }

    /// The events, oldest first; their clocks never decrease.
    pub fn events(&self) -> (r: &[TimestampedEvent])
        ensures
            r@ == self.events_view(),
            clocks_ordered(r@),
    {
        proof {
            use_type_invariant(self);
        }
        self.events.as_slice()
    }

    /// The index of the first event at or after `c`.
    fn partition_point(&self, c: GameClock) -> (r: usize)
        ensures
            r <= self.events_view().len(),
            r == count_before(self.events_view(), c),
            forall|j: int| 0 <= j < r ==> (#[trigger] self.events_view()[j]).clock.0 < c.0,
            forall|j: int| r <= j < self.events_view().len() ==> (#[trigger] self.events_view()[j]).clock.0 >= c.0,
    {
        proof {
            use_type_invariant(self);
        }
        let mut lo: usize = 0;
        let mut hi: usize = self.events.len();
        while lo < hi
            invariant
                0 <= lo <= hi <= self.events@.len(),
                clocks_ordered(self.events@),
                forall|j: int| 0 <= j < lo ==> (#[trigger] self.events@[j]).clock.0 < c.0,
                forall|j: int| hi <= j < self.events@.len() ==> (#[trigger] self.events@[j]).clock.0 >= c.0,
            decreases hi - lo,
        {
            let mid = lo + (hi - lo) / 2;
            if self.events[mid].clock.0 < c.0 {
                assert forall|j: int| 0 <= j <= mid implies (#[trigger] self.events@[j]).clock.0 < c.0 by {
                    assert(self.events@[j].clock.0 <= self.events@[mid as int].clock.0);
                }
                lo = mid + 1;
            } else {
                assert forall|j: int| mid <= j < self.events@.len() implies (#[trigger] self.events@[j]).clock.0
                    >= c.0 by {
                    assert(self.events@[mid as int].clock.0 <= self.events@[j].clock.0);
                }
                hi = mid;
            }
        }
        proof {
            lemma_count_before_split(self.events@, c, lo as int);
        }
        lo
    }

    /// Returns events within a time window [start, end) in raw clock seconds.
    pub fn events_in_range(&self, start: GameClock, end: GameClock) -> (r: &[TimestampedEvent])
        requires
            count_before(self.events_view(), start) <= count_before(self.events_view(), end),
        ensures
            r@ == self.events_view().subrange(
                count_before(self.events_view(), start) as int,
                count_before(self.events_view(), end) as int,
            ),
            forall|k: int| 0 <= k < r@.len() ==> start.0 <= (#[trigger] r@[k]).clock.0 < end.0,
            forall|k: int|
                0 <= k < self.events_view().len() && start.0 <= (#[trigger] self.events_view()[k]).clock.0
                    < end.0 ==> count_before(self.events_view(), start) <= k < count_before(
                    self.events_view(),
                    end,
                ),
    {
        let a = self.partition_point(start);
        let b = self.partition_point(end);
        let r = vstd::slice::slice_subrange(self.events.as_slice(), a, b);
        assert forall|k: int| 0 <= k < r@.len() implies start.0 <= (#[trigger] r@[k]).clock.0 < end.0 by {
            assert(r@[k] == self.events_view()[a + k]);
        }
        r
    }

    pub fn len(&self) -> (r: usize)
        ensures
            r == self.events_view().len(),
    {
        self.events.len()
    }

    pub fn is_empty(&self) -> (r: bool)
        ensures
            r == (self.events_view().len() == 0),
    {
        self.events.len() == 0
    }
}

} // verus!
