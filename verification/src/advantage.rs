//! Team advantage: which team stands better, judged from score, capture
//! points, score trajectory, health and fleet size.
//!
//! Every quantity is computed exactly. Contributions are integers in units of
//! 1/240 of a point (`CONTRIBUTION_SCALE`), which is the least unit in which all
//! of them are whole: the capture-point weight grows by 1/120 per second of
//! remaining time and the smallest factor weight is 1/2.
use vstd::prelude::*;

verus! {

/// One point of advantage, in the units that contributions are counted in.
pub const CONTRIBUTION_SCALE: i64 = 240;

/// Largest magnitude accepted for scores, rewards and remaining time.
pub const SCORE_LIMIT: i64 = 0x8000_0000;

/// Largest number of capture points a team may hold.
pub const CAPS_LIMIT: usize = 0xffff;

/// Largest hold period, in milliseconds.
pub const PERIOD_LIMIT: u64 = 0x1_0000_0000;

/// Largest hit-point value.
pub const HP_LIMIT: u64 = 0x1_0000_0000_0000;

/// Per-team snapshot of game state for a single frame.
#[derive(Debug, Clone, Copy)]
pub struct TeamState {
    pub score: i64,
    /// Number of uncontested caps owned by this team
    pub uncontested_caps: usize,
    /// Sum of the current hit points of the team's known ships
    pub total_hp: u64,
    /// Sum of the maximum hit points of the team's known ships
    pub max_hp: u64,
    pub ships_alive: usize,
    /// Total number of players on this team (from arena state)
    pub ships_total: usize,
    /// Number of ships with known entity data (EntityCreate received)
    pub ships_known: usize,
}

/// How strong the advantage is.
#[derive(Debug, Clone, Copy, PartialEq, Eq, Structural)]
pub enum AdvantageLevel {
    Absolute,
    Strong,
    Moderate,
    Weak,
}

impl AdvantageLevel {
    pub fn label(&self) -> (r: &'static str)
        ensures
            r@ == level_label(*self),
    {
        match self {
            AdvantageLevel::Absolute => "Absolute",
            AdvantageLevel::Strong => "Strong",
            AdvantageLevel::Moderate => "Moderate",
            AdvantageLevel::Weak => "Weak",
        }
    }
}

/// The label shown for a level.
pub open spec fn level_label(level: AdvantageLevel) -> Seq<char> {
    match level {
        AdvantageLevel::Absolute => "Absolute"@,
        AdvantageLevel::Strong => "Strong"@,
        AdvantageLevel::Moderate => "Moderate"@,
        AdvantageLevel::Weak => "Weak"@,
    }
}

/// Which team has the advantage, if any.
#[derive(Debug, Clone, Copy, PartialEq, Eq, Structural)]
pub enum TeamAdvantage {
    /// Team 0 has the advantage at the given level
    Team0(AdvantageLevel),
    /// Team 1 has the advantage at the given level
    Team1(AdvantageLevel),
    /// No clear advantage
    Even,
}

impl TeamAdvantage {
    fn for_team(team: usize, level: AdvantageLevel) -> (r: Self)
        ensures
            r == (if team == 0 {
                TeamAdvantage::Team0(level)
            } else {
                TeamAdvantage::Team1(level)
            }),
    {
        if team == 0 {
            TeamAdvantage::Team0(level)
        } else {
            TeamAdvantage::Team1(level)
        }
    }
}

/// Scoring rules from the replay's BattleLogic.
#[derive(Debug, Clone, Copy)]
pub struct ScoringParams {
    pub team_win_score: i64,
    /// Points a team earns per held capture point each hold period
    pub hold_reward: i64,
    /// Length of the hold period, in milliseconds
    pub hold_period_ms: u64,
}

/// An exact rational number `num / den`, with `den > 0`.
#[derive(Debug, Clone, Copy, PartialEq, Eq, Structural)]
pub struct Fraction {
    pub num: i128,
    pub den: i128,
}

/// Breakdown of individual factors contributing to the advantage verdict.
/// All contribution values are signed: positive = favors team 0, negative = favors team 1,
/// and counted in units of 1/`CONTRIBUTION_SCALE` of a point.
#[derive(Debug, Clone, Copy)]
pub struct AdvantageBreakdown {
    /// Contribution from time-to-win projection (who reaches win score first)
    pub time_to_win: i64,
    /// Contribution from current score gap
    pub score_gap: i64,
    /// Contribution from projected final score gap
    pub projection: i64,
    /// Contribution from cap count advantage (time-weighted)
    pub cap_control: i64,
    /// Contribution from HP ratio difference (0 if data incomplete)
    pub hp: i64,
    /// Contribution from ship count difference (0 if data incomplete)
    pub ship_count: i64,
    /// Total advantage score (sum of all contributions)
    pub total: i64,
    /// Whether HP/ship data was complete enough to factor in
    pub hp_data_reliable: bool,
    /// Special case: a team was fully eliminated
    pub team_eliminated: bool,
    /// Points per second from caps for team 0
    pub team0_pps: Fraction,
    /// Points per second from caps for team 1
    pub team1_pps: Fraction,
    /// Projected final score for team 0 (capped at win score)
    pub team0_projected: Fraction,
    /// Projected final score for team 1 (capped at win score)
    pub team1_projected: Fraction,
    /// HP ratio for team 0 (0..1)
    pub team0_hp_ratio: Fraction,
    /// HP ratio for team 1 (0..1)
    pub team1_hp_ratio: Fraction,
}

/// Result of advantage calculation: the verdict plus the breakdown of why.
#[derive(Debug, Clone, Copy)]
pub struct AdvantageResult {
    pub advantage: TeamAdvantage,
    pub breakdown: AdvantageBreakdown,
}

// ---------------------------------------------------------------------------
// The rules, stated over mathematical integers
// ---------------------------------------------------------------------------

pub open spec fn sgn(x: int) -> int {
    if x > 0 {
        1
    } else if x < 0 {
        -1
    } else {
        0
    }
}

pub open spec fn abs(x: int) -> int {
    if x < 0 {
        -x
    } else {
        x
    }
}

pub open spec fn min(a: int, b: int) -> int {
    if a <= b {
        a
    } else {
        b
    }
}

pub open spec fn zero_fraction() -> Fraction {
    Fraction { num: 0, den: 1 }
}

/// Breakdown with every contribution zero and no raw values.
pub open spec fn empty_breakdown() -> AdvantageBreakdown {
    AdvantageBreakdown {
        time_to_win: 0,
        score_gap: 0,
        projection: 0,
        cap_control: 0,
        hp: 0,
        ship_count: 0,
        total: 0,
        hp_data_reliable: false,
        team_eliminated: false,
        team0_pps: zero_fraction(),
        team1_pps: zero_fraction(),
        team0_projected: zero_fraction(),
        team1_projected: zero_fraction(),
        team0_hp_ratio: zero_fraction(),
        team1_hp_ratio: zero_fraction(),
    }
}

pub open spec fn even_result() -> AdvantageResult {
    AdvantageResult { advantage: TeamAdvantage::Even, breakdown: empty_breakdown() }
}

/// Seconds of play left: the given time, or none when unknown or negative.
pub open spec fn seconds_left(time_left: Option<i64>) -> int {
    match time_left {
        Some(t) => if t > 0 {
            t as int
        } else {
            0
        },
        None => 0,
    }
}

/// Denominator of the points-per-second rate: the hold period in milliseconds
/// (1 when there is no hold period).
pub open spec fn rate_den(s: ScoringParams) -> int {
    if s.hold_period_ms > 0 {
        s.hold_period_ms as int
    } else {
        1
    }
}

/// Numerator of a team's points-per-second rate; the rate is
/// `rate_num / rate_den` (no income when there is no hold period).
pub open spec fn rate_num(caps: usize, s: ScoringParams) -> int {
    if s.hold_period_ms > 0 {
        caps * s.hold_reward * 1000
    } else {
        0
    }
}

/// Numerator of the projected final score, capped at the win score; the
/// projection is `projected_num / rate_den`.
pub open spec fn projected_num(t: TeamState, s: ScoringParams, secs: int) -> int {
    min(
        t.score * rate_den(s) + rate_num(t.uncontested_caps, s) * secs,
        s.team_win_score * rate_den(s),
    )
}

/// Time for a team to reach the win score as a fraction `(a, b)` with `b > 0`,
/// or `None` when it has no income and has not reached it yet.
pub open spec fn time_to_win(t: TeamState, s: ScoringParams) -> Option<(int, int)> {
    let remaining = s.team_win_score - t.score;
    if remaining <= 0 {
        Some((0, 1))
    } else if rate_num(t.uncontested_caps, s) > 0 {
        Some((remaining * rate_den(s), rate_num(t.uncontested_caps, s)))
    } else {
        None
    }
}

/// Whether a team reaches the win score before time runs out.
pub open spec fn reaches_win(t: TeamState, s: ScoringParams, secs: int) -> bool {
    match time_to_win(t, s) {
        Some((a, b)) => a < secs * b,
        None => false,
    }
}

/// Contribution of the race to the win score.
pub open spec fn time_to_win_contribution(
    t0: TeamState,
    t1: TeamState,
    s: ScoringParams,
    secs: int,
) -> int {
    let r0 = reaches_win(t0, s, secs);
    let r1 = reaches_win(t1, s, secs);
    if r0 && r1 {
        let (a0, b0) = time_to_win(t0, s).unwrap();
        let (a1, b1) = time_to_win(t1, s).unwrap();
        // (t1 - t0) * b0 * b1, the lead of team 0 in time
        let d = a1 * b0 - a0 * b1;
        if abs(d) > 30 * (b0 * b1) {
            sgn(d) * 720
        } else if abs(d) > 10 * (b0 * b1) {
            sgn(d) * 480
        } else {
            0
        }
    } else if r0 {
        720
    } else if r1 {
        -720
    } else {
        0
    }
}

/// Contribution of the current score gap (team 0's score minus team 1's).
pub open spec fn score_gap_contribution(gap: int) -> int {
    if abs(gap) >= 400 {
        sgn(gap) * 720
    } else if abs(gap) >= 200 {
        sgn(gap) * 480
    } else if abs(gap) >= 100 {
        sgn(gap) * 240
    } else {
        0
    }
}

/// Contribution of the projected score gap; `gap / den` is the gap in points.
pub open spec fn projection_contribution(gap: int, den: int) -> int {
    if abs(gap) >= 300 * den {
        sgn(gap) * 480
    } else if abs(gap) >= 150 * den {
        sgn(gap) * 240
    } else {
        0
    }
}

/// Contribution of the capture point lead, weighted by the remaining time
/// (full weight at two minutes or more).
pub open spec fn cap_contribution(lead: int, secs: int) -> int {
    let w = min(secs, 120);
    if lead >= 2 {
        3 * w
    } else if lead <= -2 {
        -3 * w
    } else if lead == 1 {
        w
    } else if lead == -1 {
        -w
    } else {
        0
    }
}

/// A team's health ratio as `(num, den)`, `den > 0`.
pub open spec fn hp_ratio(t: TeamState) -> (int, int) {
    if t.max_hp > 0 {
        (t.total_hp as int, t.max_hp as int)
    } else {
        (0, 1)
    }
}

/// Contribution of the health ratio difference: a lead of a quarter or more
/// counts one point, of 15% or more half a point.
pub open spec fn hp_contribution(t0: TeamState, t1: TeamState) -> int {
    let (n0, d0) = hp_ratio(t0);
    let (n1, d1) = hp_ratio(t1);
    // (ratio0 - ratio1) * d0 * d1
    let g = n0 * d1 - n1 * d0;
    if 4 * abs(g) >= d0 * d1 {
        sgn(g) * 240
    } else if 20 * abs(g) >= 3 * (d0 * d1) {
        sgn(g) * 120
    } else {
        0
    }
}

/// Contribution of the ship count: one point when the difference is at least
/// a fifth of the ships alive.
pub open spec fn ship_contribution(a0: int, a1: int) -> int {
    let total = a0 + a1;
    if total > 0 && 5 * abs(a0 - a1) >= total {
        sgn(a0 - a1) * 240
    } else {
        0
    }
}

/// The level that a total contribution earns, if any.
pub open spec fn level_for_total(total: int) -> Option<AdvantageLevel> {
    if abs(total) >= 7 * 240 {
        Some(AdvantageLevel::Absolute)
    } else if abs(total) >= 4 * 240 {
        Some(AdvantageLevel::Strong)
    } else if abs(total) >= 2 * 240 {
        Some(AdvantageLevel::Moderate)
    } else if abs(total) >= 120 {
        Some(AdvantageLevel::Weak)
    } else {
        None
    }
}

/// The verdict for a total contribution.
pub open spec fn verdict_for_total(total: int) -> TeamAdvantage {
    match level_for_total(total) {
        Some(level) => if total > 0 {
            TeamAdvantage::Team0(level)
        } else {
            TeamAdvantage::Team1(level)
        },
        None => TeamAdvantage::Even,
    }
}

/// Whether both teams' ship data covers every player.
pub open spec fn data_reliable(t0: TeamState, t1: TeamState) -> bool {
    t0.ships_known == t0.ships_total && t1.ships_known == t1.ships_total
}

/// Inputs small enough for the exact computation.
pub open spec fn within_limits(t: TeamState) -> bool {
    &&& -SCORE_LIMIT <= t.score <= SCORE_LIMIT
    &&& t.uncontested_caps <= CAPS_LIMIT
    &&& t.total_hp <= HP_LIMIT
    &&& t.max_hp <= HP_LIMIT
}

pub open spec fn scoring_within_limits(s: ScoringParams) -> bool {
    &&& -SCORE_LIMIT <= s.team_win_score <= SCORE_LIMIT
    &&& -SCORE_LIMIT <= s.hold_reward <= SCORE_LIMIT
    &&& s.hold_period_ms <= PERIOD_LIMIT
}

pub open spec fn time_within_limits(time_left: Option<i64>) -> bool {
    match time_left {
        Some(t) => t <= SCORE_LIMIT,
        None => true,
    }
}

/// Sum of all contributions.
pub open spec fn total_contribution(
    t0: TeamState,
    t1: TeamState,
    s: ScoringParams,
    time_left: Option<i64>,
) -> int {
    let secs = seconds_left(time_left);
    let reliable = data_reliable(t0, t1);
    time_to_win_contribution(t0, t1, s, secs) + score_gap_contribution(t0.score - t1.score)
        + projection_contribution(
        projected_num(t0, s, secs) - projected_num(t1, s, secs),
        rate_den(s),
    ) + cap_contribution(t0.uncontested_caps - t1.uncontested_caps, secs) + (if reliable {
        hp_contribution(t0, t1)
    } else {
        0
    }) + (if reliable {
        ship_contribution(t0.ships_alive as int, t1.ships_alive as int)
    } else {
        0
    })
}

/// The advantage verdict and breakdown for two teams.
pub open spec fn advantage_spec(
    t0: TeamState,
    t1: TeamState,
    s: ScoringParams,
    time_left: Option<i64>,
) -> AdvantageResult {
    let secs = seconds_left(time_left);
    let reliable = data_reliable(t0, t1);
    if t0.ships_total == 0 || t1.ships_total == 0 {
        even_result()
    } else if reliable && t0.ships_alive == 0 && t1.ships_alive > 0 {
        AdvantageResult {
            advantage: TeamAdvantage::Team1(AdvantageLevel::Absolute),
            breakdown: AdvantageBreakdown {
                team_eliminated: true,
                hp_data_reliable: true,
                ..empty_breakdown()
            },
        }
    } else if reliable && t1.ships_alive == 0 && t0.ships_alive > 0 {
        AdvantageResult {
            advantage: TeamAdvantage::Team0(AdvantageLevel::Absolute),
            breakdown: AdvantageBreakdown {
                team_eliminated: true,
                hp_data_reliable: true,
                ..empty_breakdown()
            },
        }
    } else if reliable && t0.ships_alive == 0 && t1.ships_alive == 0 {
        even_result()
    } else {
        let den = rate_den(s);
        let (h0n, h0d) = hp_ratio(t0);
        let (h1n, h1d) = hp_ratio(t1);
        let total = total_contribution(t0, t1, s, time_left);
        AdvantageResult {
            advantage: verdict_for_total(total),
            breakdown: AdvantageBreakdown {
                time_to_win: time_to_win_contribution(t0, t1, s, secs) as i64,
                score_gap: score_gap_contribution(t0.score - t1.score) as i64,
                projection: projection_contribution(
                    projected_num(t0, s, secs) - projected_num(t1, s, secs),
                    den,
                ) as i64,
                cap_control: cap_contribution(
                    t0.uncontested_caps - t1.uncontested_caps,
                    secs,
                ) as i64,
                hp: (if reliable {
                    hp_contribution(t0, t1)
                } else {
                    0
                }) as i64,
                ship_count: (if reliable {
                    ship_contribution(t0.ships_alive as int, t1.ships_alive as int)
                } else {
                    0
                }) as i64,
                total: total as i64,
                hp_data_reliable: reliable,
                team_eliminated: false,
                team0_pps: Fraction {
                    num: rate_num(t0.uncontested_caps, s) as i128,
                    den: den as i128,
                },
                team1_pps: Fraction {
                    num: rate_num(t1.uncontested_caps, s) as i128,
                    den: den as i128,
                },
                team0_projected: Fraction {
                    num: projected_num(t0, s, secs) as i128,
                    den: den as i128,
                },
                team1_projected: Fraction {
                    num: projected_num(t1, s, secs) as i128,
                    den: den as i128,
                },
                team0_hp_ratio: Fraction { num: h0n as i128, den: h0d as i128 },
                team1_hp_ratio: Fraction { num: h1n as i128, den: h1d as i128 },
            },
        }
    }
}

// ---------------------------------------------------------------------------
// Arithmetic facts
// ---------------------------------------------------------------------------

proof fn lemma_mul_bounds(a: int, b: int, x: int, y: int)
    by (nonlinear_arith)
    requires
        -x <= a <= x,
        -y <= b <= y,
    ensures
        -(x * y) <= a * b <= x * y,
        0 <= x * y,
{
}

// ---------------------------------------------------------------------------
// Laws
// ---------------------------------------------------------------------------

/// The verdict with the teams' roles exchanged.
pub open spec fn mirrored(a: TeamAdvantage) -> TeamAdvantage {
    match a {
        TeamAdvantage::Team0(level) => TeamAdvantage::Team1(level),
        TeamAdvantage::Team1(level) => TeamAdvantage::Team0(level),
        TeamAdvantage::Even => TeamAdvantage::Even,
    }
}

/// Swapping the two teams swaps the verdict.
/// The level stays, and each contribution is negated.
pub proof fn lemma_advantage_mirror(
    t0: TeamState,
    t1: TeamState,
    s: ScoringParams,
    time_left: Option<i64>,
)
    requires
        within_limits(t0),
        within_limits(t1),
        scoring_within_limits(s),
        time_within_limits(time_left),
    ensures
        advantage_spec(t1, t0, s, time_left).advantage == mirrored(
            advantage_spec(t0, t1, s, time_left).advantage,
        ),
        advantage_spec(t1, t0, s, time_left).breakdown.total == -advantage_spec(
            t0,
            t1,
            s,
            time_left,
        ).breakdown.total,
        advantage_spec(t1, t0, s, time_left).breakdown.time_to_win == -advantage_spec(
            t0,
            t1,
            s,
            time_left,
        ).breakdown.time_to_win,
        advantage_spec(t1, t0, s, time_left).breakdown.hp == -advantage_spec(
            t0,
            t1,
            s,
            time_left,
        ).breakdown.hp,
        advantage_spec(t1, t0, s, time_left).breakdown.team0_projected == advantage_spec(
            t0,
            t1,
            s,
            time_left,
        ).breakdown.team1_projected,
{
    let secs = seconds_left(time_left);
    lemma_ttw_antisymmetric(t0, t1, s, secs);
    lemma_score_gap_antisymmetric(t0.score - t1.score);
    lemma_projection_antisymmetric(
        projected_num(t0, s, secs) - projected_num(t1, s, secs),
        rate_den(s),
    );
    lemma_cap_antisymmetric(t0.uncontested_caps - t1.uncontested_caps, secs);
    lemma_hp_antisymmetric(t0, t1);
    lemma_ship_antisymmetric(t0.ships_alive as int, t1.ships_alive as int);
    let total = total_contribution(t0, t1, s, time_left);
    assert(total_contribution(t1, t0, s, time_left) == -total);
    lemma_verdict_antisymmetric(total);
    lemma_contributions_bounded(t0, t1, s, secs);
    lemma_contributions_bounded(t1, t0, s, secs);
}

proof fn lemma_ttw_antisymmetric(t0: TeamState, t1: TeamState, s: ScoringParams, secs: int)
    ensures
        time_to_win_contribution(t1, t0, s, secs) == -time_to_win_contribution(t0, t1, s, secs),
{
    if reaches_win(t0, s, secs) && reaches_win(t1, s, secs) {
        let (a0, b0) = time_to_win(t0, s).unwrap();
        let (a1, b1) = time_to_win(t1, s).unwrap();
        assert(b0 * b1 == b1 * b0) by (nonlinear_arith);
    }
}

proof fn lemma_score_gap_antisymmetric(g: int)
    ensures
        score_gap_contribution(-g) == -score_gap_contribution(g),
{
}

proof fn lemma_projection_antisymmetric(g: int, den: int)
    ensures
        projection_contribution(-g, den) == -projection_contribution(g, den),
{
}

proof fn lemma_cap_antisymmetric(lead: int, secs: int)
    ensures
        cap_contribution(-lead, secs) == -cap_contribution(lead, secs),
{
}

proof fn lemma_hp_antisymmetric(t0: TeamState, t1: TeamState)
    ensures
        hp_contribution(t1, t0) == -hp_contribution(t0, t1),
{
    let (n0, d0) = hp_ratio(t0);
    let (n1, d1) = hp_ratio(t1);
    assert(d0 * d1 == d1 * d0) by (nonlinear_arith);
}

proof fn lemma_ship_antisymmetric(a0: int, a1: int)
    ensures
        ship_contribution(a1, a0) == -ship_contribution(a0, a1),
{
}

proof fn lemma_verdict_antisymmetric(total: int)
    ensures
        verdict_for_total(-total) == mirrored(verdict_for_total(total)),
{
}

/// A count of the thresholds that a magnitude reaches.
pub open spec fn reached(x: int, t: int) -> int {
    if x >= t {
        1
    } else {
        0
    }
}

/// The projection counts the projected gap in whole points, whatever unit
/// the hold period gives the numerators: scaling the gap and its denominator
/// alike changes nothing, and the contribution is one point (240) per
/// threshold of 150 and 300 whole points that the gap reaches, positive for
/// team 0's lead and negative for team 1's.
pub proof fn lemma_projection_counts_points(gap: int, den: int, k: int)
    requires
        den >= 1,
        k >= 1,
    ensures
        projection_contribution(k * gap, k * den) == projection_contribution(gap, den),
        gap >= 0 ==> projection_contribution(gap, den) == 240 * (reached(abs(gap) / den, 150) + reached(
            abs(gap) / den,
            300,
        )),
        gap < 0 ==> projection_contribution(gap, den) == -240 * (reached(abs(gap) / den, 150) + reached(
            abs(gap) / den,
            300,
        )),
{
    let a = abs(gap);
    assert(a >= 0);
    assert((a >= 300 * den) == (a / den >= 300)) by (nonlinear_arith)
        requires
            a >= 0,
            den >= 1,
    {
        if a >= 300 * den {
            assert(a / den >= (300 * den) / den) by {
                vstd::arithmetic::div_mod::lemma_div_is_ordered(300 * den, a, den);
            }
            vstd::arithmetic::div_mod::lemma_div_multiples_vanish(300, den);
        } else {
            vstd::arithmetic::div_mod::lemma_fundamental_div_mod(a, den);
            vstd::arithmetic::div_mod::lemma_mod_bound(a, den);
        }
    }
    assert((a >= 150 * den) == (a / den >= 150)) by (nonlinear_arith)
        requires
            a >= 0,
            den >= 1,
    {
        if a >= 150 * den {
            assert(a / den >= (150 * den) / den) by {
                vstd::arithmetic::div_mod::lemma_div_is_ordered(150 * den, a, den);
            }
            vstd::arithmetic::div_mod::lemma_div_multiples_vanish(150, den);
        } else {
            vstd::arithmetic::div_mod::lemma_fundamental_div_mod(a, den);
            vstd::arithmetic::div_mod::lemma_mod_bound(a, den);
        }
    }
    assert(abs(k * gap) == k * a) by (nonlinear_arith)
        requires
            k >= 1,
            a == abs(gap),
    ;
    assert(sgn(k * gap) == sgn(gap)) by (nonlinear_arith)
        requires
            k >= 1,
    ;
    assert((k * a >= 300 * (k * den)) == (a >= 300 * den)) by (nonlinear_arith)
        requires
            k >= 1,
    ;
    assert((k * a >= 150 * (k * den)) == (a >= 150 * den)) by (nonlinear_arith)
        requires
            k >= 1,
    ;
}

/// The score gap counts one point (240) per threshold of 100, 200 and 400
/// points that the gap reaches, positive for team 0's lead and negative for
/// team 1's.
pub proof fn lemma_score_gap_counts_points(gap: int)
    ensures
        gap >= 0 ==> score_gap_contribution(gap) == 240 * (reached(abs(gap), 100) + reached(abs(gap), 200)
            + reached(abs(gap), 400)),
        gap < 0 ==> score_gap_contribution(gap) == -240 * (reached(abs(gap), 100) + reached(abs(gap), 200)
            + reached(abs(gap), 400)),
{
}

/// The verdict counts the total in points (240 each): under half a point is
/// even; otherwise the team ahead (team 0 for a positive total) has a weak
/// advantage, a moderate one from two points, a strong one from four and an
/// absolute one from seven.
pub proof fn lemma_verdict_counts_points(total: int)
    ensures
        (verdict_for_total(total) == TeamAdvantage::Even) <==> (-120 < total < 120),
        120 <= total < 480 ==> verdict_for_total(total) == TeamAdvantage::Team0(AdvantageLevel::Weak),
        480 <= total < 960 ==> verdict_for_total(total) == TeamAdvantage::Team0(AdvantageLevel::Moderate),
        960 <= total < 1680 ==> verdict_for_total(total) == TeamAdvantage::Team0(AdvantageLevel::Strong),
        1680 <= total ==> verdict_for_total(total) == TeamAdvantage::Team0(AdvantageLevel::Absolute),
        -480 < total <= -120 ==> verdict_for_total(total) == TeamAdvantage::Team1(AdvantageLevel::Weak),
        -960 < total <= -480 ==> verdict_for_total(total) == TeamAdvantage::Team1(AdvantageLevel::Moderate),
        -1680 < total <= -960 ==> verdict_for_total(total) == TeamAdvantage::Team1(AdvantageLevel::Strong),
        total <= -1680 ==> verdict_for_total(total) == TeamAdvantage::Team1(AdvantageLevel::Absolute),
{
}

/// The capture lead counts one and a half points (360) for a lead of two or
/// more points and half a point (120) for a lead of one, at full weight from
/// two minutes left and in proportion to the seconds left below that: the
/// contribution is 3 (resp. 1) per second of weight, up to 120 seconds.
pub proof fn lemma_cap_lead_counts_points(lead: int, secs: int)
    requires
        secs >= 0,
    ensures
        lead >= 2 ==> cap_contribution(lead, secs) == 3 * min(secs, 120),
        lead <= -2 ==> cap_contribution(lead, secs) == -3 * min(secs, 120),
        lead == 1 ==> cap_contribution(lead, secs) == min(secs, 120),
        lead == -1 ==> cap_contribution(lead, secs) == -min(secs, 120),
        lead == 0 ==> cap_contribution(lead, secs) == 0,
        secs >= 120 && lead >= 2 ==> cap_contribution(lead, secs) == 360,
{
}

/// What the verdict rests on: with no ships on a side it is even; with
/// complete data, a side with no ship left loses absolutely (even when both
/// are gone); otherwise the total is the sum of the six contributions, the
/// health and ship-count ones counting only with complete data, and the
/// verdict is read from that total.
pub proof fn lemma_advantage_outcomes(t0: TeamState, t1: TeamState, s: ScoringParams, time_left: Option<i64>)
    ensures
        ({
            let r = advantage_spec(t0, t1, s, time_left);
            let b = r.breakdown;
            let complete = t0.ships_known == t0.ships_total && t1.ships_known == t1.ships_total;
            let sides = t0.ships_total > 0 && t1.ships_total > 0;
            &&& !sides ==> r.advantage == TeamAdvantage::Even && b.total == 0
            &&& sides && complete && t0.ships_alive == 0 && t1.ships_alive > 0 ==> r.advantage
                == TeamAdvantage::Team1(AdvantageLevel::Absolute) && b.team_eliminated
            &&& sides && complete && t1.ships_alive == 0 && t0.ships_alive > 0 ==> r.advantage
                == TeamAdvantage::Team0(AdvantageLevel::Absolute) && b.team_eliminated
            &&& sides && complete && t0.ships_alive == 0 && t1.ships_alive == 0 ==> r.advantage
                == TeamAdvantage::Even
            &&& sides && !(complete && (t0.ships_alive == 0 || t1.ships_alive == 0)) ==> {
                &&& !b.team_eliminated
                &&& b.hp_data_reliable == complete
                &&& b.total == b.time_to_win + b.score_gap + b.projection + b.cap_control + b.hp + b.ship_count
                &&& r.advantage == verdict_for_total(b.total as int)
                &&& !complete ==> b.hp == 0 && b.ship_count == 0
            }
        }),
{
    let secs = seconds_left(time_left);
    lemma_contributions_bounded(t0, t1, s, secs);
}

/// A team reaches the win score in time exactly when it has it already and
/// some time is left, or it earns points (its caps times the hold reward per
/// hold period) fast enough to make up the rest before the time runs out.
pub proof fn lemma_reaching_the_win_score(t: TeamState, s: ScoringParams, secs: int)
    requires
        secs >= 0,
    ensures
        reaches_win(t, s, secs) <==> ((s.team_win_score <= t.score && secs > 0) || (t.score
            < s.team_win_score && s.hold_period_ms > 0 && t.uncontested_caps * s.hold_reward > 0 && (
        s.team_win_score - t.score) * s.hold_period_ms < secs * (t.uncontested_caps * s.hold_reward * 1000))),
{
    let c = t.uncontested_caps * s.hold_reward;
    assert((c * 1000 > 0) == (c > 0)) by (nonlinear_arith);
}

/// The race to the win score: three points (720) to the only team that gets
/// there in time; when both do, three points to the first for a lead of more
/// than 30 seconds, two (480) for more than 10, none otherwise; none when
/// neither does.
pub proof fn lemma_race_counts_points(t0: TeamState, t1: TeamState, s: ScoringParams, secs: int)
    ensures
        ({
            let c = time_to_win_contribution(t0, t1, s, secs);
            let r0 = reaches_win(t0, s, secs);
            let r1 = reaches_win(t1, s, secs);
            &&& r0 && !r1 ==> c == 720
            &&& !r0 && r1 ==> c == -720
            &&& !r0 && !r1 ==> c == 0
            &&& r0 && r1 ==> {
                let (a0, b0) = time_to_win(t0, s).unwrap();
                let (a1, b1) = time_to_win(t1, s).unwrap();
                // team 0's lead in seconds is (a1 * b0 - a0 * b1) / (b0 * b1)
                let lead = a1 * b0 - a0 * b1;
                let unit = b0 * b1;
                &&& lead > 30 * unit ==> c == 720
                &&& 10 * unit < lead <= 30 * unit ==> c == 480
                &&& -10 * unit <= lead <= 10 * unit ==> c == 0
                &&& -30 * unit <= lead < -10 * unit ==> c == -480
                &&& lead < -30 * unit ==> c == -720
            }
        }),
{
}

/// Health counts one point (240) for a lead of a quarter or more of the
/// ratio of health left to full health, half a point (120) for 15% or more
/// (both sides with a known full health).
pub proof fn lemma_health_counts_points(t0: TeamState, t1: TeamState)
    requires
        t0.max_hp > 0,
        t1.max_hp > 0,
    ensures
        ({
            let c = hp_contribution(t0, t1);
            // (ratio0 - ratio1) * max0 * max1
            let g = t0.total_hp * t1.max_hp - t1.total_hp * t0.max_hp;
            let unit = t0.max_hp * t1.max_hp;
            &&& 4 * g >= unit ==> c == 240
            &&& 20 * g >= 3 * unit && 4 * g < unit ==> c == 120
            &&& -3 * unit < 20 * g < 3 * unit ==> c == 0
            &&& 20 * g <= -3 * unit && 4 * g > -unit ==> c == -120
            &&& 4 * g <= -unit ==> c == -240
        }),
{
    assert(t0.max_hp * t1.max_hp > 0) by (nonlinear_arith)
        requires
            t0.max_hp > 0,
            t1.max_hp > 0,
    ;
}

/// Ships count one point (240) for the side with more ships alive when the
/// difference is a fifth or more of all ships alive.
pub proof fn lemma_ships_count_points(a0: int, a1: int)
    requires
        a0 >= 0,
        a1 >= 0,
    ensures
        a0 > a1 && 5 * (a0 - a1) >= a0 + a1 ==> ship_contribution(a0, a1) == 240,
        a1 > a0 && 5 * (a1 - a0) >= a0 + a1 ==> ship_contribution(a0, a1) == -240,
        5 * abs(a0 - a1) < a0 + a1 || a0 == a1 ==> ship_contribution(a0, a1) == 0,
{
}

/// The time left counts the given seconds, none when it is negative or
/// unknown; a team's projected score is its score plus what its caps earn in
/// that time (its caps times the hold reward per hold period), capped at the
/// win score, in units of one thousandth of a hold period.
pub proof fn lemma_time_and_projection_inputs(t: TeamState, s: ScoringParams, time_left: Option<i64>)
    ensures
        time_left is Some && time_left->0 > 0 ==> seconds_left(time_left) == time_left->0,
        time_left is Some && time_left->0 <= 0 ==> seconds_left(time_left) == 0,
        time_left is None ==> seconds_left(time_left) == 0,
        s.hold_period_ms > 0 ==> projected_num(t, s, seconds_left(time_left)) == min(
            t.score * s.hold_period_ms + t.uncontested_caps * s.hold_reward * 1000 * seconds_left(time_left),
            s.team_win_score * s.hold_period_ms,
        ),
        s.hold_period_ms == 0 ==> projected_num(t, s, seconds_left(time_left)) == min(
            t.score as int,
            s.team_win_score as int,
        ),
{
}

/// No factor ever counts more than three points, so an absolute advantage
/// (seven points) needs several strong factors aligned.
pub proof fn lemma_contributions_bounded(t0: TeamState, t1: TeamState, s: ScoringParams, secs: int)
    requires
        secs >= 0,
    ensures
        -720 <= time_to_win_contribution(t0, t1, s, secs) <= 720,
        -720 <= score_gap_contribution(t0.score - t1.score) <= 720,
        -480 <= projection_contribution(
            projected_num(t0, s, secs) - projected_num(t1, s, secs),
            rate_den(s),
        ) <= 480,
        -360 <= cap_contribution(t0.uncontested_caps - t1.uncontested_caps, secs) <= 360,
        -240 <= hp_contribution(t0, t1) <= 240,
        -240 <= ship_contribution(t0.ships_alive as int, t1.ships_alive as int) <= 240,
{
}

// ---------------------------------------------------------------------------
// The computation
// ---------------------------------------------------------------------------

fn exec_sgn(x: i128) -> (r: i128)
    ensures
        r == sgn(x as int),
{
    if x > 0 {
        1
    } else if x < 0 {
        -1
    } else {
        0
    }
}

fn exec_abs(x: i128) -> (r: i128)
    requires
        x > i128::MIN,
    ensures
        r == abs(x as int),
{
    if x < 0 {
        -x
    } else {
        x
    }
}

fn exec_seconds_left(time_left: Option<i64>) -> (r: i128)
    requires
        time_within_limits(time_left),
    ensures
        r == seconds_left(time_left),
        0 <= r <= SCORE_LIMIT,
{
    match time_left {
        Some(t) => if t > 0 {
            t as i128
        } else {
            0
        },
        None => 0,
    }
}

fn exec_rate(caps: usize, s: &ScoringParams) -> (r: (i128, i128))
    requires
        caps <= CAPS_LIMIT,
        scoring_within_limits(*s),
    ensures
        r.0 == rate_num(caps, *s),
        r.1 == rate_den(*s),
        -0x200_0000_0000_0000 <= r.0 <= 0x200_0000_0000_0000,
        1 <= r.1 <= PERIOD_LIMIT,
{
    if s.hold_period_ms > 0 {
        proof {
            lemma_mul_bounds(caps as int, s.hold_reward as int, 0xffff, 0x8000_0000);
            lemma_mul_bounds(caps * s.hold_reward, 1000, 0xffff_8000_0000int, 1000);
        }
        ((caps as i128) * (s.hold_reward as i128) * 1000, s.hold_period_ms as i128)
    } else {
        (0, 1)
    }
}

fn exec_projected(t: &TeamState, s: &ScoringParams, secs: i128) -> (r: i128)
    requires
        within_limits(*t),
        scoring_within_limits(*s),
        0 <= secs <= SCORE_LIMIT,
    ensures
        r == projected_num(*t, *s, secs as int),
        -0x1_0000_0000_0000_0000_0000_0000 <= r <= 0x1_0000_0000_0000_0000_0000_0000,
{
    let (num, den) = exec_rate(t.uncontested_caps, s);
    proof {
        lemma_mul_bounds(t.score as int, den as int, 0x8000_0000, 0x1_0000_0000);
        lemma_mul_bounds(num as int, secs as int, 0x200_0000_0000_0000, 0x8000_0000);
        lemma_mul_bounds(s.team_win_score as int, den as int, 0x8000_0000, 0x1_0000_0000);
    }
    let x = (t.score as i128) * den + num * secs;
    let w = (s.team_win_score as i128) * den;
    if x <= w {
        x
    } else {
        w
    }
}

fn exec_time_to_win(t: &TeamState, s: &ScoringParams) -> (r: Option<(i128, i128)>)
    requires
        within_limits(*t),
        scoring_within_limits(*s),
    ensures
        match r {
            Some((a, b)) => time_to_win(*t, *s) == Some((a as int, b as int)),
            None => time_to_win(*t, *s) is None,
        },
        match r {
            Some((a, b)) => 0 <= a <= 0x2_0000_0000_0000_0000 && 0 < b
                <= 0x200_0000_0000_0000,
            None => true,
        },
{
    let remaining = (s.team_win_score as i128) - (t.score as i128);
    let (num, den) = exec_rate(t.uncontested_caps, s);
    if remaining <= 0 {
        Some((0, 1))
    } else if num > 0 {
        proof {
            lemma_mul_bounds(remaining as int, den as int, 0x1_0000_0000, 0x1_0000_0000);
        }
        Some((remaining * den, num))
    } else {
        None
    }
}

fn exec_reaches(ttw: Option<(i128, i128)>, secs: i128) -> (r: bool)
    requires
        0 <= secs <= SCORE_LIMIT,
        match ttw {
            Some((a, b)) => 0 <= a <= 0x2_0000_0000_0000_0000 && 0 < b <= 0x200_0000_0000_0000,
            None => true,
        },
    ensures
        r == match ttw {
            Some((a, b)) => a < secs * b,
            None => false,
        },
{
    match ttw {
        Some((a, b)) => {
            proof {
                lemma_mul_bounds(secs as int, b as int, 0x8000_0000, 0x200_0000_0000_0000);
            }
            a < secs * b
        },
        None => false,
    }
}

fn exec_time_to_win_contribution(
    t0: &TeamState,
    t1: &TeamState,
    s: &ScoringParams,
    secs: i128,
) -> (r: i128)
    requires
        within_limits(*t0),
        within_limits(*t1),
        scoring_within_limits(*s),
        0 <= secs <= SCORE_LIMIT,
    ensures
        r == time_to_win_contribution(*t0, *t1, *s, secs as int),
        -720 <= r <= 720,
{
    let w0 = exec_time_to_win(t0, s);
    let w1 = exec_time_to_win(t1, s);
    let r0 = exec_reaches(w0, secs);
    let r1 = exec_reaches(w1, secs);
    if r0 && r1 {
        let (a0, b0) = w0.unwrap();
        let (a1, b1) = w1.unwrap();
        proof {
            lemma_mul_bounds(a1 as int, b0 as int, 0x2_0000_0000_0000_0000, 0x200_0000_0000_0000);
            lemma_mul_bounds(a0 as int, b1 as int, 0x2_0000_0000_0000_0000, 0x200_0000_0000_0000);
            lemma_mul_bounds(b0 as int, b1 as int, 0x200_0000_0000_0000, 0x200_0000_0000_0000);
        }
        let d = a1 * b0 - a0 * b1;
        let bb = b0 * b1;
        let ad = exec_abs(d);
        let sd = exec_sgn(d);
        if ad > 30 * bb {
            sd * 720
        } else if ad > 10 * bb {
            sd * 480
        } else {
            0
        }
    } else if r0 {
        720
    } else if r1 {
        -720
    } else {
        0
    }
}

fn exec_score_gap_contribution(gap: i128) -> (r: i128)
    requires
        -0x1_0000_0000 <= gap <= 0x1_0000_0000,
    ensures
        r == score_gap_contribution(gap as int),
        -720 <= r <= 720,
{
    let a = exec_abs(gap);
    let sg = exec_sgn(gap);
    if a >= 400 {
        sg * 720
    } else if a >= 200 {
        sg * 480
    } else if a >= 100 {
        sg * 240
    } else {
        0
    }
}

fn exec_projection_contribution(gap: i128, den: i128) -> (r: i128)
    requires
        -0x2_0000_0000_0000_0000_0000_0000 <= gap <= 0x2_0000_0000_0000_0000_0000_0000,
        1 <= den <= PERIOD_LIMIT,
    ensures
        r == projection_contribution(gap as int, den as int),
        -480 <= r <= 480,
{
    let a = exec_abs(gap);
    let sg = exec_sgn(gap);
    if a >= 300 * den {
        sg * 480
    } else if a >= 150 * den {
        sg * 240
    } else {
        0
    }
}

fn exec_cap_contribution(lead: i128, secs: i128) -> (r: i128)
    requires
        -0x1_0000 <= lead <= 0x1_0000,
        0 <= secs,
    ensures
        r == cap_contribution(lead as int, secs as int),
        -360 <= r <= 360,
{
    let w = if secs <= 120 {
        secs
    } else {
        120
    };
    if lead >= 2 {
        3 * w
    } else if lead <= -2 {
        -(3 * w)
    } else if lead == 1 {
        w
    } else if lead == -1 {
        -w
    } else {
        0
    }
}

fn exec_hp_ratio(t: &TeamState) -> (r: (i128, i128))
    requires
        within_limits(*t),
    ensures
        (r.0 as int, r.1 as int) == hp_ratio(*t),
        0 <= r.0 <= HP_LIMIT,
        1 <= r.1 <= HP_LIMIT,
{
    if t.max_hp > 0 {
        (t.total_hp as i128, t.max_hp as i128)
    } else {
        (0, 1)
    }
}

fn exec_hp_contribution(t0: &TeamState, t1: &TeamState) -> (r: i128)
    requires
        within_limits(*t0),
        within_limits(*t1),
    ensures
        r == hp_contribution(*t0, *t1),
        -240 <= r <= 240,
{
    let (n0, d0) = exec_hp_ratio(t0);
    let (n1, d1) = exec_hp_ratio(t1);
    proof {
        lemma_mul_bounds(n0 as int, d1 as int, HP_LIMIT as int, HP_LIMIT as int);
        lemma_mul_bounds(n1 as int, d0 as int, HP_LIMIT as int, HP_LIMIT as int);
        lemma_mul_bounds(d0 as int, d1 as int, HP_LIMIT as int, HP_LIMIT as int);
    }
    let g = n0 * d1 - n1 * d0;
    let dd = d0 * d1;
    let a = exec_abs(g);
    let sg = exec_sgn(g);
    if 4 * a >= dd {
        sg * 240
    } else if 20 * a >= 3 * dd {
        sg * 120
    } else {
        0
    }
}

fn exec_ship_contribution(a0: usize, a1: usize) -> (r: i128)
    ensures
        r == ship_contribution(a0 as int, a1 as int),
        -240 <= r <= 240,
{
    let total = (a0 as i128) + (a1 as i128);
    let diff = (a0 as i128) - (a1 as i128);
    let a = exec_abs(diff);
    if total > 0 && 5 * a >= total {
        exec_sgn(diff) * 240
    } else {
        0
    }
}

fn exec_verdict(total: i128) -> (r: TeamAdvantage)
    requires
        -0x1_0000 <= total <= 0x1_0000,
    ensures
        r == verdict_for_total(total as int),
{
    let a = exec_abs(total);
    let team: usize = if total > 0 {
        0
    } else {
        1
    };
    if a >= 7 * 240 {
        TeamAdvantage::for_team(team, AdvantageLevel::Absolute)
    } else if a >= 4 * 240 {
        TeamAdvantage::for_team(team, AdvantageLevel::Strong)
    } else if a >= 2 * 240 {
        TeamAdvantage::for_team(team, AdvantageLevel::Moderate)
    } else if a >= 120 {
        TeamAdvantage::for_team(team, AdvantageLevel::Weak)
    } else {
        TeamAdvantage::Even
    }
}

fn exec_empty_breakdown() -> (r: AdvantageBreakdown)
    ensures
        r == empty_breakdown(),
{
    AdvantageBreakdown {
        time_to_win: 0,
        score_gap: 0,
        projection: 0,
        cap_control: 0,
        hp: 0,
        ship_count: 0,
        total: 0,
        hp_data_reliable: false,
        team_eliminated: false,
        team0_pps: Fraction { num: 0, den: 1 },
        team1_pps: Fraction { num: 0, den: 1 },
        team0_projected: Fraction { num: 0, den: 1 },
        team1_projected: Fraction { num: 0, den: 1 },
        team0_hp_ratio: Fraction { num: 0, den: 1 },
        team1_hp_ratio: Fraction { num: 0, den: 1 },
    }
}

impl AdvantageResult {
    fn even() -> (r: Self)
        ensures
            r == even_result(),
    {
        AdvantageResult { advantage: TeamAdvantage::Even, breakdown: exec_empty_breakdown() }
    }
}

fn eliminated(advantage: TeamAdvantage) -> (r: AdvantageResult)
    ensures
        r == (AdvantageResult {
            advantage,
            breakdown: AdvantageBreakdown {
                team_eliminated: true,
                hp_data_reliable: true,
                ..empty_breakdown()
            },
        }),
{
    let mut breakdown = exec_empty_breakdown();
    breakdown.team_eliminated = true;
    breakdown.hp_data_reliable = true;
    AdvantageResult { advantage, breakdown }
}

/// The inputs for which the advantage is computed exactly: scores and
/// scoring within `i32`-sized bounds, at most 65535 caps, hit points below
/// 2^48 and a hold period below 2^32 milliseconds.
pub open spec fn advantage_inputs_ok(
    team0: TeamState,
    team1: TeamState,
    scoring: ScoringParams,
    time_left: Option<i64>,
) -> bool {
    &&& within_limits(team0)
    &&& within_limits(team1)
    &&& scoring_within_limits(scoring)
    &&& time_within_limits(time_left)
}

fn team_within_limits(t: &TeamState) -> (r: bool)
    ensures
        r == within_limits(*t),
{
    -SCORE_LIMIT <= t.score && t.score <= SCORE_LIMIT && t.uncontested_caps <= CAPS_LIMIT && t.total_hp
        <= HP_LIMIT && t.max_hp <= HP_LIMIT
}

/// Calculate which team has the advantage; `None` for inputs beyond the
/// bounds of `advantage_inputs_ok`, which the exact computation does not
/// take.
///
/// Contested capture points are excluded from both teams' `uncontested_caps`
/// counts before calling this function.
pub fn calculate_advantage(
    team0: &TeamState,
    team1: &TeamState,
    scoring: &ScoringParams,
    time_left: Option<i64>,
) -> (r: Option<AdvantageResult>)
    ensures
        r is Some <==> advantage_inputs_ok(*team0, *team1, *scoring, time_left),
        r matches Some(x) ==> x == advantage_spec(*team0, *team1, *scoring, time_left),
{
    let time_ok = match time_left {
        Some(t) => t <= SCORE_LIMIT,
        None => true,
    };
    if team_within_limits(team0) && team_within_limits(team1) && -SCORE_LIMIT <= scoring.team_win_score
        && scoring.team_win_score <= SCORE_LIMIT && -SCORE_LIMIT <= scoring.hold_reward
        && scoring.hold_reward <= SCORE_LIMIT && scoring.hold_period_ms <= PERIOD_LIMIT && time_ok {
        Some(advantage_exact(team0, team1, scoring, time_left))
    } else {
        None
    }
}

/// Calculate which team has the advantage, for inputs within the bounds of
/// `advantage_inputs_ok`.
#[verifier::rlimit(40)]
pub fn advantage_exact(
    team0: &TeamState,
    team1: &TeamState,
    scoring: &ScoringParams,
    time_left: Option<i64>,
) -> (r: AdvantageResult)
    requires
        within_limits(*team0),
        within_limits(*team1),
        scoring_within_limits(*scoring),
        time_within_limits(time_left),
    ensures
        r == advantage_spec(*team0, *team1, *scoring, time_left),
{
    if team0.ships_total == 0 || team1.ships_total == 0 {
        return AdvantageResult::even();
    }
    let hp_data_reliable = team0.ships_known == team0.ships_total && team1.ships_known
        == team1.ships_total;
    if hp_data_reliable {
        if team0.ships_alive == 0 && team1.ships_alive > 0 {
            return eliminated(TeamAdvantage::Team1(AdvantageLevel::Absolute));
        }
        if team1.ships_alive == 0 && team0.ships_alive > 0 {
            return eliminated(TeamAdvantage::Team0(AdvantageLevel::Absolute));
        }
        if team0.ships_alive == 0 && team1.ships_alive == 0 {
            return AdvantageResult::even();
        }
    }
    let secs = exec_seconds_left(time_left);
    let (pps0, den) = exec_rate(team0.uncontested_caps, scoring);
    let (pps1, _) = exec_rate(team1.uncontested_caps, scoring);
    let proj0 = exec_projected(team0, scoring, secs);
    let proj1 = exec_projected(team1, scoring, secs);
    let (h0n, h0d) = exec_hp_ratio(team0);
    let (h1n, h1d) = exec_hp_ratio(team1);

    let time_to_win = exec_time_to_win_contribution(team0, team1, scoring, secs);
    let score_gap = exec_score_gap_contribution((team0.score as i128) - (team1.score as i128));
    let projection = exec_projection_contribution(proj0 - proj1, den);
    let cap_control = exec_cap_contribution(
        (team0.uncontested_caps as i128) - (team1.uncontested_caps as i128),
        secs,
    );
    let hp = if hp_data_reliable {
        exec_hp_contribution(team0, team1)
    } else {
        0
    };
    let ship_count = if hp_data_reliable {
        exec_ship_contribution(team0.ships_alive, team1.ships_alive)
    } else {
        0
    };
    let total = time_to_win + score_gap + projection + cap_control + hp + ship_count;
    let advantage = exec_verdict(total);
    AdvantageResult {
        advantage,
        breakdown: AdvantageBreakdown {
            time_to_win: time_to_win as i64,
            score_gap: score_gap as i64,
            projection: projection as i64,
            cap_control: cap_control as i64,
            hp: hp as i64,
            ship_count: ship_count as i64,
            total: total as i64,
            hp_data_reliable,
            team_eliminated: false,
            team0_pps: Fraction { num: pps0, den },
            team1_pps: Fraction { num: pps1, den },
            team0_projected: Fraction { num: proj0, den },
            team1_projected: Fraction { num: proj1, den },
            team0_hp_ratio: Fraction { num: h0n, den: h0d },
            team1_hp_ratio: Fraction { num: h1n, den: h1d },
        },
    }
}

} // verus!
