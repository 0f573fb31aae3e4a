use minimap_renderer::advantage::{
    calculate_advantage, AdvantageLevel, Fraction, ScoringParams, TeamAdvantage, TeamState,
    CONTRIBUTION_SCALE,
};

fn default_scoring() -> ScoringParams {
    ScoringParams {
        team_win_score: 1000,
        hold_reward: 3,
        hold_period_ms: 5000,
    }
}

fn even_team(score: i64, caps: usize) -> TeamState {
    TeamState {
        score,
        uncontested_caps: caps,
        total_hp: 100000,
        max_hp: 100000,
        ships_alive: 12,
        ships_total: 12,
        ships_known: 12,
    }
}

fn value(f: Fraction) -> f64 {
    f.num as f64 / f.den as f64
}

#[test]
fn even_game_start() {
    let t0 = even_team(0, 0);
    let t1 = even_team(0, 0);
    let r = calculate_advantage(&t0, &t1, &default_scoring(), Some(1200)).unwrap();
    assert_eq!(r.advantage, TeamAdvantage::Even);
}

#[test]
fn team_eliminated() {
    let t0 = TeamState {
        ships_alive: 8,
        ..even_team(500, 2)
    };
    let t1 = TeamState {
        ships_alive: 0,
        total_hp: 0,
        ..even_team(300, 0)
    };
    let r = calculate_advantage(&t0, &t1, &default_scoring(), Some(600)).unwrap();
    assert_eq!(r.advantage, TeamAdvantage::Team0(AdvantageLevel::Absolute));
    assert!(r.breakdown.team_eliminated);
}

#[test]
fn team_eliminated_other() {
    let t0 = TeamState {
        ships_alive: 0,
        total_hp: 0,
        ..even_team(300, 0)
    };
    let t1 = TeamState {
        ships_alive: 5,
        ..even_team(400, 3)
    };
    let r = calculate_advantage(&t0, &t1, &default_scoring(), Some(600)).unwrap();
    assert_eq!(r.advantage, TeamAdvantage::Team1(AdvantageLevel::Absolute));
    assert!(r.breakdown.team_eliminated);
}

#[test]
fn score_gap_400_plus() {
    let t0 = even_team(700, 2);
    let t1 = even_team(250, 1);
    let r = calculate_advantage(&t0, &t1, &default_scoring(), Some(300)).unwrap();
    assert!(matches!(
        r.advantage,
        TeamAdvantage::Team0(AdvantageLevel::Absolute | AdvantageLevel::Strong)
    ));
    assert!(r.breakdown.score_gap > 0);
}

#[test]
fn score_gap_200_plus() {
    let t0 = even_team(500, 2);
    let t1 = even_team(280, 2);
    let r = calculate_advantage(&t0, &t1, &default_scoring(), Some(300)).unwrap();
    assert!(matches!(
        r.advantage,
        TeamAdvantage::Team0(
            AdvantageLevel::Moderate | AdvantageLevel::Strong | AdvantageLevel::Absolute
        )
    ));
}

#[test]
fn cap_advantage_projects_win() {
    let t0 = even_team(0, 3);
    let t1 = even_team(0, 0);
    let r = calculate_advantage(&t0, &t1, &default_scoring(), Some(1200)).unwrap();
    assert!(matches!(
        r.advantage,
        TeamAdvantage::Team0(
            AdvantageLevel::Strong | AdvantageLevel::Absolute | AdvantageLevel::Moderate
        )
    ));
    assert!(r.breakdown.time_to_win > 0);
    assert!(r.breakdown.cap_control > 0);
}

#[test]
fn hp_advantage_25_percent() {
    let t0 = TeamState {
        total_hp: 80000,
        ..even_team(400, 1)
    };
    let t1 = TeamState {
        total_hp: 50000,
        ..even_team(400, 1)
    };
    let r = calculate_advantage(&t0, &t1, &default_scoring(), Some(600)).unwrap();
    assert!(matches!(
        r.advantage,
        TeamAdvantage::Team0(
            AdvantageLevel::Weak
                | AdvantageLevel::Moderate
                | AdvantageLevel::Strong
                | AdvantageLevel::Absolute
        )
    ));
    assert!(r.breakdown.hp > 0);
}

#[test]
fn ship_count_20_percent_deficit() {
    // 10 vs 6 alive: ship_advantage = 4/16 = 0.25 > 0.20 threshold
    let t0 = TeamState {
        ships_alive: 10,
        ..even_team(400, 2)
    };
    let t1 = TeamState {
        ships_alive: 6,
        total_hp: 60000,
        ..even_team(400, 2)
    };
    let r = calculate_advantage(&t0, &t1, &default_scoring(), Some(600)).unwrap();
    assert!(matches!(
        r.advantage,
        TeamAdvantage::Team0(
            AdvantageLevel::Weak
                | AdvantageLevel::Moderate
                | AdvantageLevel::Strong
                | AdvantageLevel::Absolute
        )
    ));
    assert!(r.breakdown.ship_count > 0);
}

#[test]
fn cap_advantage_but_trailing_score() {
    let t0 = even_team(600, 0);
    let t1 = even_team(400, 3);
    let scoring = default_scoring();
    let r = calculate_advantage(&t0, &t1, &scoring, Some(1000)).unwrap();
    assert!(matches!(r.advantage, TeamAdvantage::Team1(_)));
    // time_to_win should favor team1 (negative = team1)
    assert!(r.breakdown.time_to_win < 0);
}

#[test]
fn close_to_win_threshold() {
    let t0 = even_team(950, 1);
    let t1 = even_team(900, 0);
    let r = calculate_advantage(&t0, &t1, &default_scoring(), Some(300)).unwrap();
    // Team0 reaches 1000 in ~83s, team1 can't score: time_to_win=3.0, cap_control=0.5 -> 3.5
    assert!(matches!(
        r.advantage,
        TeamAdvantage::Team0(
            AdvantageLevel::Moderate | AdvantageLevel::Strong | AdvantageLevel::Absolute
        )
    ));
}

#[test]
fn no_time_left_limits_cap_advantage() {
    let t0 = even_team(800, 0);
    let t1 = even_team(700, 4);
    let r = calculate_advantage(&t0, &t1, &default_scoring(), Some(5)).unwrap();
    assert!(matches!(r.advantage, TeamAdvantage::Team0(_)));
    // Cap control should be near zero due to time weighting
    assert!((r.breakdown.cap_control as f64 / CONTRIBUTION_SCALE as f64).abs() < 0.1);
}

#[test]
fn contested_caps_no_income() {
    let t0 = even_team(500, 0);
    let t1 = even_team(500, 0);
    let r = calculate_advantage(&t0, &t1, &default_scoring(), Some(600)).unwrap();
    assert_eq!(r.advantage, TeamAdvantage::Even);
}

#[test]
fn incomplete_entity_data_ignores_hp_and_ships() {
    let t0 = even_team(0, 0);
    let t1 = TeamState {
        ships_known: 1,
        ships_alive: 1,
        total_hp: 8000,
        max_hp: 8000,
        ..even_team(0, 0)
    };
    let r = calculate_advantage(&t0, &t1, &default_scoring(), Some(1200)).unwrap();
    assert_eq!(r.advantage, TeamAdvantage::Even);
    assert!(!r.breakdown.hp_data_reliable);
    assert_eq!(r.breakdown.hp, 0);
    assert_eq!(r.breakdown.ship_count, 0);
}

#[test]
fn breakdown_has_raw_values() {
    let t0 = even_team(500, 2);
    let t1 = even_team(300, 1);
    let r = calculate_advantage(&t0, &t1, &default_scoring(), Some(600)).unwrap();
    // team0 has 2 caps at 3pts/5s = 1.2 pps, team1 has 1 cap = 0.6 pps
    assert!((value(r.breakdown.team0_pps) - 1.2).abs() < 0.01);
    assert!((value(r.breakdown.team1_pps) - 0.6).abs() < 0.01);
    // Projected scores should be above current
    assert!(value(r.breakdown.team0_projected) > 500.0);
    assert!(value(r.breakdown.team1_projected) > 300.0);
    // HP ratios both 100%
    assert!((value(r.breakdown.team0_hp_ratio) - 1.0).abs() < 0.01);
    assert!((value(r.breakdown.team1_hp_ratio) - 1.0).abs() < 0.01);
}

#[test]
fn swapping_teams_mirrors_the_verdict() {
    let t0 = even_team(600, 0);
    let t1 = even_team(400, 3);
    let a = calculate_advantage(&t0, &t1, &default_scoring(), Some(1000)).unwrap();
    let b = calculate_advantage(&t1, &t0, &default_scoring(), Some(1000)).unwrap();
    assert_eq!(a.breakdown.total, -b.breakdown.total);
    assert!(matches!(a.advantage, TeamAdvantage::Team1(_)));
    assert!(matches!(b.advantage, TeamAdvantage::Team0(_)));
}

#[test]
fn exact_contributions_for_a_capped_lead() {
    // team0 two caps ahead with ten minutes left: cap control 1.5 points,
    // score gap 200 -> 2 points
    let t0 = even_team(500, 2);
    let t1 = even_team(300, 0);
    let r = calculate_advantage(&t0, &t1, &default_scoring(), Some(600)).unwrap();
    assert_eq!(r.breakdown.cap_control, 360);
    assert_eq!(r.breakdown.score_gap, 480);
    assert_eq!(
        r.breakdown.total,
        r.breakdown.time_to_win
            + r.breakdown.score_gap
            + r.breakdown.projection
            + r.breakdown.cap_control
            + r.breakdown.hp
            + r.breakdown.ship_count
    );
}

#[test]
fn level_labels() {
    assert_eq!(AdvantageLevel::Absolute.label(), "Absolute");
    assert_eq!(AdvantageLevel::Strong.label(), "Strong");
    assert_eq!(AdvantageLevel::Moderate.label(), "Moderate");
    assert_eq!(AdvantageLevel::Weak.label(), "Weak");
}

#[test]
fn inputs_beyond_the_exact_bounds_are_refused() {
    let t0 = even_team(i64::MAX, 0);
    let t1 = even_team(0, 0);
    assert!(calculate_advantage(&t0, &t1, &default_scoring(), Some(600)).is_none());
    assert!(calculate_advantage(&even_team(0, 0), &t1, &default_scoring(), Some(i64::MAX)).is_none());
}
