//! Battle state that property updates and entity creation maintain: capture
//! points, team scores, buildings and smoke screens.
use vstd::prelude::*;
use crate::events::Vec3Bits;
use crate::rpc::{dict_get, dict_lookup, str_eq, ArgVal};
use crate::types::{EntityId, GameParamId};

verus! {

/// Capture progress: bit patterns of the `f64` fraction captured (0..1) and of
/// the `f64` time remaining.
#[derive(Debug, Clone, Copy, PartialEq, Eq, Structural)]
pub struct CaptureProgress {
    pub fraction: u64,
    pub time_remaining: u64,
}

/// State of one capture point. Floating-point values are bit patterns.
#[derive(Debug, Clone, Copy, PartialEq, Eq, Structural)]
pub struct CapturePointState {
    pub index: usize,
    /// World position of the zone center (from InteractiveZone entity)
    pub position: Option<Vec3Bits>,
    /// Zone radius in world units (from InteractiveZone entity)
    pub radius: u32,
    /// Control point type: 5=flag, others=lettered (A, B, C...)
    pub control_point_type: i32,
    pub team_id: i64,
    pub invader_team: i64,
    /// (fraction captured 0..1, time remaining)
    pub progress: CaptureProgress,
    pub has_invaders: bool,
    pub both_inside: bool,
    /// Whether this capture point is enabled (arms race: starts disabled, enabled mid-game)
    pub is_enabled: bool,
}

#[derive(Debug, Clone, Copy, PartialEq, Eq, Structural)]
pub struct TeamScore {
    pub team_index: usize,
    pub score: i64,
}

/// One level of the path of a nested property update.
pub enum NestLevel {
    DictKey(String),
    ArrayIndex(usize),
}

/// What a nested property update does at the end of its path.
pub enum UpdateAction {
    SetKey { key: String, value: ArgVal },
    /// Any other change (element updates, slices, ...).
    Other,
}

/// A change that a property update makes to the battle state.
#[derive(Debug, Clone, Copy, PartialEq, Eq, Structural)]
pub enum StateEvent {
    CapturePointUpdate {
        point_index: usize,
        team_id: Option<i64>,
        invader_team: Option<i64>,
        progress: Option<CaptureProgress>,
        has_invaders: Option<bool>,
        both_inside: Option<bool>,
    },
    TeamScoreUpdate { team_index: usize, score: i64 },
}

/// A capture point that nothing has been learned about yet.
pub open spec fn default_point(index: int) -> CapturePointState {
    CapturePointState {
        index: index as usize,
        position: None,
        radius: 0,
        control_point_type: 0,
        team_id: 0,
        invader_team: 0,
        progress: CaptureProgress { fraction: 0, time_remaining: 0 },
        has_invaders: false,
        both_inside: false,
        is_enabled: false,
    }
}

/// The capture points, extended with fresh points up to `idx` if needed.
pub open spec fn points_grown(old: Seq<CapturePointState>, idx: int) -> Seq<CapturePointState> {
    if idx < old.len() {
        old
    } else {
        old + Seq::new((idx + 1 - old.len()) as nat, |j: int| default_point(old.len() + j))
    }
}

/// The team scores, extended with zero scores up to `idx` if needed.
pub open spec fn scores_grown(old: Seq<TeamScore>, idx: int) -> Seq<TeamScore> {
    if idx < old.len() {
        old
    } else {
        old + Seq::new(
            (idx + 1 - old.len()) as nat,
            |j: int| TeamScore { team_index: (old.len() + j) as usize, score: 0 },
        )
    }
}

/// The `f64` bit pattern of a value, 0 (the pattern of 0.0) for any other kind.
pub open spec fn f64_bits_or_zero(v: ArgVal) -> u64 {
    match v {
        ArgVal::Float64(x) => x,
        _ => 0,
    }
}

/// The event fields of a capture point key update, none set.
pub open spec fn no_point_change(idx: int) -> StateEvent {
    StateEvent::CapturePointUpdate {
        point_index: idx as usize,
        team_id: None,
        invader_team: None,
        progress: None,
        has_invaders: None,
        both_inside: None,
    }
}

/// What setting `key` to `value` does to a capture point, and the event it
/// reports: `hasInvaders`, `bothInside` (`i32`, non-zero is true),
/// `invaderTeam`, `teamId` (`i32`) and `progress` (an array of at least two
/// `f64`, 0.0 for an item of another kind); a value of another kind, or
/// another key, changes nothing.
pub open spec fn point_key_update(
    p: CapturePointState,
    idx: int,
    key: Seq<char>,
    value: ArgVal,
) -> (CapturePointState, StateEvent) {
    let none = no_point_change(idx);
    if key == "hasInvaders"@ {
        match value {
            ArgVal::Int32(v) => (
                CapturePointState { has_invaders: v != 0, ..p },
                StateEvent::CapturePointUpdate {
                    point_index: idx as usize,
                    team_id: None,
                    invader_team: None,
                    progress: None,
                    has_invaders: Some(v != 0),
                    both_inside: None,
                },
            ),
            _ => (p, none),
        }
    } else if key == "invaderTeam"@ {
        match value {
            ArgVal::Int32(v) => (
                CapturePointState { invader_team: v as i64, ..p },
                StateEvent::CapturePointUpdate {
                    point_index: idx as usize,
                    team_id: None,
                    invader_team: Some(v as i64),
                    progress: None,
                    has_invaders: None,
                    both_inside: None,
                },
            ),
            _ => (p, none),
        }
    } else if key == "progress"@ {
        match value {
            ArgVal::Array(a) => if a@.len() >= 2 {
                let pr = CaptureProgress {
                    fraction: f64_bits_or_zero(a@[0]),
                    time_remaining: f64_bits_or_zero(a@[1]),
                };
                (
                    CapturePointState { progress: pr, ..p },
                    StateEvent::CapturePointUpdate {
                        point_index: idx as usize,
                        team_id: None,
                        invader_team: None,
                        progress: Some(pr),
                        has_invaders: None,
                        both_inside: None,
                    },
                )
            } else {
                (p, none)
            },
            _ => (p, none),
        }
    } else if key == "bothInside"@ {
        match value {
            ArgVal::Int32(v) => (
                CapturePointState { both_inside: v != 0, ..p },
                StateEvent::CapturePointUpdate {
                    point_index: idx as usize,
                    team_id: None,
                    invader_team: None,
                    progress: None,
                    has_invaders: None,
                    both_inside: Some(v != 0),
                },
            ),
            _ => (p, none),
        }
    } else if key == "teamId"@ {
        match value {
            ArgVal::Int32(v) => (
                CapturePointState { team_id: v as i64, ..p },
                StateEvent::CapturePointUpdate {
                    point_index: idx as usize,
                    team_id: Some(v as i64),
                    invader_team: None,
                    progress: None,
                    has_invaders: None,
                    both_inside: None,
                },
            ),
            _ => (p, none),
        }
    } else {
        (p, none)
    }
}

fn f64_bits_of(v: &ArgVal) -> (r: u64)
    ensures
        r == f64_bits_or_zero(*v),
{
    match v {
        ArgVal::Float64(x) => *x,
        _ => 0,
    }
}

fn apply_point_key(p: &mut CapturePointState, idx: usize, key: &str, value: &ArgVal) -> (e: StateEvent)
    ensures
        (*final(p), e) == point_key_update(*old(p), idx as int, key@, *value),
{
    let none = StateEvent::CapturePointUpdate {
        point_index: idx,
        team_id: None,
        invader_team: None,
        progress: None,
        has_invaders: None,
        both_inside: None,
    };
    if str_eq(key, "hasInvaders") {
        match value {
            ArgVal::Int32(v) => {
                p.has_invaders = *v != 0;
                StateEvent::CapturePointUpdate {
                    point_index: idx,
                    team_id: None,
                    invader_team: None,
                    progress: None,
                    has_invaders: Some(*v != 0),
                    both_inside: None,
                }
            },
            _ => none,
        }
    } else if str_eq(key, "invaderTeam") {
        match value {
            ArgVal::Int32(v) => {
                p.invader_team = *v as i64;
                StateEvent::CapturePointUpdate {
                    point_index: idx,
                    team_id: None,
                    invader_team: Some(*v as i64),
                    progress: None,
                    has_invaders: None,
                    both_inside: None,
                }
            },
            _ => none,
        }
    } else if str_eq(key, "progress") {
        match value {
            ArgVal::Array(a) => if a.len() >= 2 {
                let pr = CaptureProgress {
                    fraction: f64_bits_of(&a[0]),
                    time_remaining: f64_bits_of(&a[1]),
                };
                p.progress = pr;
                StateEvent::CapturePointUpdate {
                    point_index: idx,
                    team_id: None,
                    invader_team: None,
                    progress: Some(pr),
                    has_invaders: None,
                    both_inside: None,
                }
            } else {
                none
            },
            _ => none,
        }
    } else if str_eq(key, "bothInside") {
        match value {
            ArgVal::Int32(v) => {
                p.both_inside = *v != 0;
                StateEvent::CapturePointUpdate {
                    point_index: idx,
                    team_id: None,
                    invader_team: None,
                    progress: None,
                    has_invaders: None,
                    both_inside: Some(*v != 0),
                }
            },
            _ => none,
        }
    } else if str_eq(key, "teamId") {
        match value {
            ArgVal::Int32(v) => {
                p.team_id = *v as i64;
                StateEvent::CapturePointUpdate {
                    point_index: idx,
                    team_id: Some(*v as i64),
                    invader_team: None,
                    progress: None,
                    has_invaders: None,
                    both_inside: None,
                }
            },
            _ => none,
        }
    } else {
        none
    }
}

/// The index of a path `controlPoints -> [i]`.
pub open spec fn control_point_path(levels: Seq<NestLevel>) -> Option<usize> {
    if levels.len() == 2 {
        match (levels[0], levels[1]) {
            (NestLevel::DictKey(k), NestLevel::ArrayIndex(i)) => if k@ == "controlPoints"@ {
                Some(i)
            } else {
                None
            },
            _ => None,
        }
    } else {
        None
    }
}

/// The index of a path `missions -> teamsScore -> [i]`.
pub open spec fn team_score_path(levels: Seq<NestLevel>) -> Option<usize> {
    if levels.len() == 3 {
        match (levels[0], levels[1], levels[2]) {
            (NestLevel::DictKey(k0), NestLevel::DictKey(k1), NestLevel::ArrayIndex(i)) => if k0@
                == "missions"@ && k1@ == "teamsScore"@ {
                Some(i)
            } else {
                None
            },
            _ => None,
        }
    } else {
        None
    }
}

/// The new score of a `score` key set to an `i32`.
pub open spec fn score_set(action: UpdateAction) -> Option<i64> {
    match action {
        UpdateAction::SetKey { key, value } => if key@ == "score"@ {
            match value {
                ArgVal::Int32(s) => Some(s as i64),
                _ => None,
            }
        } else {
            None
        },
        UpdateAction::Other => None,
    }
}

/// What an update of the battle logic's `state` property does: a key set on
/// `controlPoints[i]` updates that capture point (created with the points
/// before it as needed) and is always reported; an `i32` `score` set on
/// `missions.teamsScore[i]` sets that team's score. Other updates change
/// nothing.
pub open spec fn state_update_spec(
    points: Seq<CapturePointState>,
    scores: Seq<TeamScore>,
    property: Seq<char>,
    levels: Seq<NestLevel>,
    action: UpdateAction,
) -> (Seq<CapturePointState>, Seq<TeamScore>, Option<StateEvent>) {
    if property != "state"@ {
        (points, scores, None)
    } else {
        match control_point_path(levels) {
            Some(i) => {
                let grown = points_grown(points, i as int);
                match action {
                    UpdateAction::SetKey { key, value } => {
                        let (p, e) = point_key_update(grown[i as int], i as int, key@, value);
                        (grown.update(i as int, p), scores, Some(e))
                    },
                    UpdateAction::Other => (grown, scores, Some(no_point_change(i as int))),
                }
            },
            None => match (team_score_path(levels), score_set(action)) {
                (Some(i), Some(s)) => {
                    let grown = scores_grown(scores, i as int);
                    (
                        points,
                        grown.update(i as int, TeamScore { score: s, ..grown[i as int] }),
                        Some(StateEvent::TeamScoreUpdate { team_index: i, score: s }),
                    )
                },
                _ => (points, scores, None),
            },
        }
    }
}

fn grow_points(points: &mut Vec<CapturePointState>, idx: usize)
    ensures
        final(points)@ == points_grown(old(points)@, idx as int),
{
    let ghost start = old(points)@;
    while points.len() <= idx
        invariant
            start.len() <= points@.len(),
            points@.len() <= idx + 1 || points@.len() == start.len(),
            points@ =~= start + Seq::new(
                (points@.len() - start.len()) as nat,
                |j: int| default_point(start.len() + j),
            ),
        decreases idx + 1 - points@.len(),
    {
        let n = points.len();
        points.push(
            CapturePointState {
                index: n,
                position: None,
                radius: 0,
                control_point_type: 0,
                team_id: 0,
                invader_team: 0,
                progress: CaptureProgress { fraction: 0, time_remaining: 0 },
                has_invaders: false,
                both_inside: false,
                is_enabled: false,
            },
        );
    }
    assert(points@ =~= points_grown(start, idx as int));
}

fn grow_scores(scores: &mut Vec<TeamScore>, idx: usize)
    ensures
        final(scores)@ == scores_grown(old(scores)@, idx as int),
{
    let ghost start = old(scores)@;
    while scores.len() <= idx
        invariant
            start.len() <= scores@.len(),
            scores@.len() <= idx + 1 || scores@.len() == start.len(),
            scores@ =~= start + Seq::new(
                (scores@.len() - start.len()) as nat,
                |j: int| TeamScore { team_index: (start.len() + j) as usize, score: 0 },
            ),
        decreases idx + 1 - scores@.len(),
    {
        let n = scores.len();
        scores.push(TeamScore { team_index: n, score: 0 });
    }
    assert(scores@ =~= scores_grown(start, idx as int));
}

fn control_point_index(levels: &Vec<NestLevel>) -> (r: Option<usize>)
    ensures
        r == control_point_path(levels@),
{
    if levels.len() != 2 {
        return None;
    }
    match (&levels[0], &levels[1]) {
        (NestLevel::DictKey(k), NestLevel::ArrayIndex(i)) => if str_eq(k.as_str(), "controlPoints") {
            Some(*i)
        } else {
            None
        },
        _ => None,
    }
}

fn team_score_index(levels: &Vec<NestLevel>) -> (r: Option<usize>)
    ensures
        r == team_score_path(levels@),
{
    if levels.len() != 3 {
        return None;
    }
    match (&levels[0], &levels[1], &levels[2]) {
        (NestLevel::DictKey(k0), NestLevel::DictKey(k1), NestLevel::ArrayIndex(i)) => if str_eq(
            k0.as_str(),
            "missions",
        ) && str_eq(k1.as_str(), "teamsScore") {
            Some(*i)
        } else {
            None
        },
        _ => None,
    }
}

fn score_of(action: &UpdateAction) -> (r: Option<i64>)
    ensures
        r == score_set(*action),
{
    match action {
        UpdateAction::SetKey { key, value } => if str_eq(key.as_str(), "score") {
            match value {
                ArgVal::Int32(s) => Some(*s as i64),
                _ => None,
            }
        } else {
            None
        },
        UpdateAction::Other => None,
    }
}

/// Applies a property update of the battle logic entity to the capture
/// points and team scores, and returns the change to report, if any.
pub fn apply_state_update(
    points: &mut Vec<CapturePointState>,
    scores: &mut Vec<TeamScore>,
    property: &str,
    levels: &Vec<NestLevel>,
    action: &UpdateAction,
) -> (e: Option<StateEvent>)
    ensures
        (final(points)@, final(scores)@, e) == state_update_spec(
            old(points)@,
            old(scores)@,
            property@,
            levels@,
            *action,
        ),
{
    if !str_eq(property, "state") {
        return None;
    }
    match control_point_index(levels) {
        Some(i) => {
            grow_points(points, i);
            match action {
                UpdateAction::SetKey { key, value } => {
                    let mut p = points[i];
                    let e = apply_point_key(&mut p, i, key.as_str(), value);
                    points.set(i, p);
                    Some(e)
                },
                UpdateAction::Other => Some(
                    StateEvent::CapturePointUpdate {
                        point_index: i,
                        team_id: None,
                        invader_team: None,
                        progress: None,
                        has_invaders: None,
                        both_inside: None,
                    },
                ),
            }
        },
        None => match (team_score_index(levels), score_of(action)) {
            (Some(i), Some(s)) => {
                grow_scores(scores, i);
                let t = scores[i];
                scores.set(i, TeamScore { score: s, ..t });
                Some(StateEvent::TeamScoreUpdate { team_index: i, score: s })
            },
            _ => None,
        },
    }
}

/// A key set on one capture point leaves every other capture point, and the
/// team scores, as they were.
pub proof fn lemma_point_update_is_local(
    points: Seq<CapturePointState>,
    scores: Seq<TeamScore>,
    levels: Seq<NestLevel>,
    action: UpdateAction,
    j: int,
)
    requires
        control_point_path(levels) is Some,
        0 <= j < points.len(),
        j != control_point_path(levels)->0,
    ensures
        ({
            let (new_points, new_scores, _) = state_update_spec(
                points,
                scores,
                "state"@,
                levels,
                action,
            );
            new_points[j] == points[j] && new_scores == scores
        }),
{
}

/// After a score update, the team's score is the new score, every team up to
/// it has an entry, and the other teams keep theirs.
pub proof fn lemma_score_update_sets_score(
    points: Seq<CapturePointState>,
    scores: Seq<TeamScore>,
    levels: Seq<NestLevel>,
    action: UpdateAction,
    j: int,
)
    requires
        control_point_path(levels) is None,
        team_score_path(levels) is Some,
        score_set(action) is Some,
    ensures
        ({
            let i = team_score_path(levels)->0 as int;
            let (new_points, new_scores, e) = state_update_spec(
                points,
                scores,
                "state"@,
                levels,
                action,
            );
            &&& new_points == points
            &&& new_scores.len() == if i < scores.len() { scores.len() as int } else { i + 1 }
            &&& new_scores[i].score == score_set(action)->0
            &&& (0 <= j < scores.len() && j != i ==> new_scores[j] == scores[j])
            &&& e == Some(StateEvent::TeamScoreUpdate { team_index: i as usize, score: score_set(action)->0 })
        }),
{
}

/// A key set to an `i32` on `controlPoints[i]` stores its meaning in that
/// capture point, and the event reports the same and nothing else:
/// `hasInvaders` and `bothInside` are true exactly for a non-zero value (1:
/// the point is contested, 0: it is not), `teamId` and `invaderTeam` take
/// the number. The point's other fields stay as they were (a point new to
/// the list starts from its defaults), the team scores are untouched.
pub proof fn lemma_point_keys_store_their_values(
    points: Seq<CapturePointState>,
    scores: Seq<TeamScore>,
    levels: Seq<NestLevel>,
    key: String,
    v: i32,
)
    requires
        control_point_path(levels) is Some,
    ensures
        ({
            let i = control_point_path(levels)->0 as int;
            let before = if i < points.len() {
                points[i]
            } else {
                default_point(i)
            };
            let (np, ns, e) = state_update_spec(
                points,
                scores,
                "state"@,
                levels,
                (UpdateAction::SetKey { key, value: ArgVal::Int32(v) }),
            );
            &&& ns == scores
            &&& np.len() == if i < points.len() { points.len() as int } else { i + 1 }
            &&& key@ == "hasInvaders"@ ==> np[i] == (CapturePointState { has_invaders: v != 0, ..before })
                && e == Some(StateEvent::CapturePointUpdate { point_index: i as usize, team_id: None, invader_team: None, progress: None, has_invaders: Some(v != 0), both_inside: None })
            &&& key@ == "bothInside"@ ==> np[i] == (CapturePointState { both_inside: v != 0, ..before })
                && e == Some(StateEvent::CapturePointUpdate { point_index: i as usize, team_id: None, invader_team: None, progress: None, has_invaders: None, both_inside: Some(v != 0) })
            &&& key@ == "teamId"@ ==> np[i] == (CapturePointState { team_id: v as i64, ..before }) && e
                == Some(StateEvent::CapturePointUpdate { point_index: i as usize, team_id: Some(v as i64), invader_team: None, progress: None, has_invaders: None, both_inside: None })
            &&& key@ == "invaderTeam"@ ==> np[i] == (CapturePointState { invader_team: v as i64, ..before })
                && e == Some(StateEvent::CapturePointUpdate { point_index: i as usize, team_id: None, invader_team: Some(v as i64), progress: None, has_invaders: None, both_inside: None })
        }),
{
    if key@ == "invaderTeam"@ {
        reveal_strlit("invaderTeam");
        reveal_strlit("hasInvaders");
        assert("invaderTeam"@[0] != "hasInvaders"@[0]);
    }
    if key@ == "bothInside"@ {
        reveal_strlit("bothInside");
        reveal_strlit("hasInvaders");
        assert("bothInside"@.len() != "hasInvaders"@.len());
        reveal_strlit("invaderTeam");
        assert("bothInside"@.len() != "invaderTeam"@.len());
        reveal_strlit("progress");
        assert("bothInside"@.len() != "progress"@.len());
    }
    if key@ == "teamId"@ {
        reveal_strlit("teamId");
        reveal_strlit("hasInvaders");
        assert("teamId"@.len() != "hasInvaders"@.len());
        reveal_strlit("invaderTeam");
        assert("teamId"@.len() != "invaderTeam"@.len());
        reveal_strlit("progress");
        assert("teamId"@.len() != "progress"@.len());
        reveal_strlit("bothInside");
        assert("teamId"@.len() != "bothInside"@.len());
    }
}

/// Setting `progress` on `controlPoints[i]` to an array whose first two
/// items are the `f64` fraction captured and time remaining stores them in
/// that order, and the event reports the same progress and nothing else.
pub proof fn lemma_point_progress_is_fraction_then_time(
    points: Seq<CapturePointState>,
    scores: Seq<TeamScore>,
    levels: Seq<NestLevel>,
    key: String,
    items: Vec<ArgVal>,
    fraction: u64,
    time_remaining: u64,
)
    requires
        control_point_path(levels) is Some,
        key@ == "progress"@,
        items@.len() >= 2,
        items@[0] == ArgVal::Float64(fraction),
        items@[1] == ArgVal::Float64(time_remaining),
    ensures
        ({
            let i = control_point_path(levels)->0 as int;
            let before = if i < points.len() {
                points[i]
            } else {
                default_point(i)
            };
            let pr = CaptureProgress { fraction, time_remaining };
            let (np, ns, e) = state_update_spec(
                points,
                scores,
                "state"@,
                levels,
                (UpdateAction::SetKey { key, value: ArgVal::Array(items) }),
            );
            &&& ns == scores
            &&& np[i] == (CapturePointState { progress: pr, ..before })
            &&& e == Some(
                StateEvent::CapturePointUpdate {
                    point_index: i as usize,
                    team_id: None,
                    invader_team: None,
                    progress: Some(pr),
                    has_invaders: None,
                    both_inside: None,
                },
            )
        }),
{
    reveal_strlit("progress");
    reveal_strlit("hasInvaders");
    reveal_strlit("invaderTeam");
    assert("progress"@.len() != "hasInvaders"@.len());
    assert("progress"@.len() != "invaderTeam"@.len());
}

/// Setting `score` to an `i32` on `missions.teamsScore[i]` sets that team's
/// score to the number and reports it; the capture points are untouched.
pub proof fn lemma_team_score_is_the_number(
    points: Seq<CapturePointState>,
    scores: Seq<TeamScore>,
    levels: Seq<NestLevel>,
    key: String,
    v: i32,
)
    requires
        team_score_path(levels) is Some,
        key@ == "score"@,
    ensures
        ({
            let i = team_score_path(levels)->0 as int;
            let (np, ns, e) = state_update_spec(
                points,
                scores,
                "state"@,
                levels,
                (UpdateAction::SetKey { key, value: ArgVal::Int32(v) }),
            );
            &&& np == points
            &&& ns[i].score == v as i64
            &&& e == Some(StateEvent::TeamScoreUpdate { team_index: i as usize, score: v as i64 })
        }),
{
}

/// A building as created from its entity properties.
#[derive(Debug, Clone, Copy, PartialEq, Eq, Structural)]
pub struct BuildingEntity {
    pub id: EntityId,
    pub is_alive: bool,
    pub is_hidden: bool,
    pub is_suppressed: bool,
    pub team_id: i8,
    pub params_id: GameParamId,
}

/// A `u8` flag of the properties: non-zero is true; `default` when missing or
/// of another kind.
pub open spec fn flag_prop(props: Seq<(String, ArgVal)>, key: Seq<char>, default: bool) -> bool {
    match dict_lookup(props, key) {
        Some(ArgVal::Uint8(v)) => v != 0,
        _ => default,
    }
}

fn flag_of(props: &Vec<(String, ArgVal)>, key: &str, default: bool) -> (r: bool)
    ensures
        r == flag_prop(props@, key@, default),
{
    match dict_get(props, key) {
        Some(ArgVal::Uint8(v)) => *v != 0,
        _ => default,
    }
}

/// The building that an entity creation with these properties describes:
/// `isAlive` (true by default), `isHidden`, `isSuppressed`, an `i8` `teamId`
/// and a `u32` `paramsId` (0 by default).
pub open spec fn building_spec(id: EntityId, props: Seq<(String, ArgVal)>) -> BuildingEntity {
    BuildingEntity {
        id,
        is_alive: flag_prop(props, "isAlive"@, true),
        is_hidden: flag_prop(props, "isHidden"@, false),
        is_suppressed: flag_prop(props, "isSuppressed"@, false),
        team_id: match dict_lookup(props, "teamId"@) {
            Some(ArgVal::Int8(v)) => v,
            _ => 0,
        },
        params_id: match dict_lookup(props, "paramsId"@) {
            Some(ArgVal::Uint32(v)) => GameParamId(v),
            _ => GameParamId(0),
        },
    }
}

pub fn building_from_props(id: EntityId, props: &Vec<(String, ArgVal)>) -> (r: BuildingEntity)
    ensures
        r == building_spec(id, props@),
{
    let team_id = match dict_get(props, "teamId") {
        Some(ArgVal::Int8(v)) => *v,
        _ => 0,
    };
    let params_id = match dict_get(props, "paramsId") {
        Some(ArgVal::Uint32(v)) => GameParamId(*v),
        _ => GameParamId(0),
    };
    BuildingEntity {
        id,
        is_alive: flag_of(props, "isAlive", true),
        is_hidden: flag_of(props, "isHidden", false),
        is_suppressed: flag_of(props, "isSuppressed", false),
        team_id,
        params_id,
    }
}

/// The radius of a smoke screen from its `f32` `radius` property (bit
/// pattern; 0.0 when missing or of another kind).
pub open spec fn smoke_radius_spec(props: Seq<(String, ArgVal)>) -> u32 {
    match dict_lookup(props, "radius"@) {
        Some(ArgVal::Float32(v)) => v,
        _ => 0,
    }
}

pub fn smoke_radius(props: &Vec<(String, ArgVal)>) -> (r: u32)
    ensures
        r == smoke_radius_spec(props@),
{
    match dict_get(props, "radius") {
        Some(ArgVal::Float32(v)) => *v,
        _ => 0,
    }
}

/// A building created with no properties is alive, shown, not suppressed,
/// of team 0 and parameters 0; each `u8` flag present sets its field to
/// whether it is non-zero, and an `i8` team and a `u32` parameters id are
/// taken as they are.
pub proof fn lemma_building_defaults_and_flags(id: EntityId, props: Seq<(String, ArgVal)>)
    ensures
        building_spec(id, Seq::empty()) == (BuildingEntity {
            id,
            is_alive: true,
            is_hidden: false,
            is_suppressed: false,
            team_id: 0,
            params_id: GameParamId(0),
        }),
        building_spec(id, props).id == id,
        dict_lookup(props, "isAlive"@) matches Some(ArgVal::Uint8(v)) ==> building_spec(id, props).is_alive == (v
            != 0),
        dict_lookup(props, "isHidden"@) matches Some(ArgVal::Uint8(v)) ==> building_spec(id, props).is_hidden == (v
            != 0),
        dict_lookup(props, "isSuppressed"@) matches Some(ArgVal::Uint8(v)) ==> building_spec(id, props).is_suppressed
            == (v != 0),
        dict_lookup(props, "teamId"@) matches Some(ArgVal::Int8(v)) ==> building_spec(id, props).team_id == v,
        dict_lookup(props, "paramsId"@) matches Some(ArgVal::Uint32(v)) ==> building_spec(id, props).params_id
            == GameParamId(v),
{
    assert(dict_lookup(Seq::<(String, ArgVal)>::empty(), "isAlive"@) is None);
    assert(dict_lookup(Seq::<(String, ArgVal)>::empty(), "isHidden"@) is None);
    assert(dict_lookup(Seq::<(String, ArgVal)>::empty(), "isSuppressed"@) is None);
    assert(dict_lookup(Seq::<(String, ArgVal)>::empty(), "teamId"@) is None);
    assert(dict_lookup(Seq::<(String, ArgVal)>::empty(), "paramsId"@) is None);
}

} // verus!
