use minimap_renderer::rpc::ArgVal;
use minimap_renderer::state::{
    apply_state_update, building_from_props, smoke_radius, CapturePointState, NestLevel,
    StateEvent, TeamScore, UpdateAction,
};
use minimap_renderer::types::{EntityId, GameParamId};

fn cp_path(i: usize) -> Vec<NestLevel> {
    vec![NestLevel::DictKey("controlPoints".to_string()), NestLevel::ArrayIndex(i)]
}

fn set(key: &str, value: ArgVal) -> UpdateAction {
    UpdateAction::SetKey { key: key.to_string(), value }
}

#[test]
fn capture_point_updates_create_points_and_set_keys() {
    let mut points: Vec<CapturePointState> = Vec::new();
    let mut scores: Vec<TeamScore> = Vec::new();
    let e = apply_state_update(&mut points, &mut scores, "state", &cp_path(2), &set("teamId", ArgVal::Int32(1)));
    assert_eq!(points.len(), 3);
    assert_eq!(points[0].index, 0);
    assert_eq!(points[1].index, 1);
    assert_eq!(points[2].team_id, 1);
    assert_eq!(points[0].team_id, 0);
    match e {
        Some(StateEvent::CapturePointUpdate { point_index: 2, team_id: Some(1), invader_team: None, .. }) => {}
        other => panic!("unexpected {:?}", other),
    }

    let progress = ArgVal::Array(vec![ArgVal::Float64(0.5f64.to_bits()), ArgVal::Uint8(0)]);
    apply_state_update(&mut points, &mut scores, "state", &cp_path(0), &set("progress", progress));
    assert_eq!(f64::from_bits(points[0].progress.fraction), 0.5);
    assert_eq!(points[0].progress.time_remaining, 0);
    assert_eq!(points[2].team_id, 1);

    apply_state_update(&mut points, &mut scores, "state", &cp_path(1), &set("hasInvaders", ArgVal::Int32(3)));
    assert!(points[1].has_invaders);
    apply_state_update(&mut points, &mut scores, "state", &cp_path(1), &set("bothInside", ArgVal::Int32(1)));
    assert!(points[1].both_inside);
    apply_state_update(&mut points, &mut scores, "state", &cp_path(1), &set("invaderTeam", ArgVal::Int32(-1)));
    assert_eq!(points[1].invader_team, -1);

    // A value of another kind changes nothing but is still reported.
    let e = apply_state_update(&mut points, &mut scores, "state", &cp_path(1), &set("teamId", ArgVal::Uint8(1)));
    assert_eq!(points[1].team_id, 0);
    assert!(matches!(e, Some(StateEvent::CapturePointUpdate { team_id: None, .. })));
    let e = apply_state_update(&mut points, &mut scores, "state", &cp_path(4), &UpdateAction::Other);
    assert_eq!(points.len(), 5);
    assert!(matches!(e, Some(StateEvent::CapturePointUpdate { point_index: 4, .. })));
    assert!(scores.is_empty());
}

#[test]
fn team_scores_and_other_properties() {
    let mut points: Vec<CapturePointState> = Vec::new();
    let mut scores: Vec<TeamScore> = Vec::new();
    let path = vec![
        NestLevel::DictKey("missions".to_string()),
        NestLevel::DictKey("teamsScore".to_string()),
        NestLevel::ArrayIndex(1),
    ];
    let e = apply_state_update(&mut points, &mut scores, "state", &path, &set("score", ArgVal::Int32(450)));
    assert_eq!(scores, vec![TeamScore { team_index: 0, score: 0 }, TeamScore { team_index: 1, score: 450 }]);
    assert_eq!(e, Some(StateEvent::TeamScoreUpdate { team_index: 1, score: 450 }));
    let e = apply_state_update(&mut points, &mut scores, "state", &path, &set("other", ArgVal::Int32(1)));
    assert_eq!(e, None);
    let e = apply_state_update(&mut points, &mut scores, "visibility", &cp_path(0), &set("teamId", ArgVal::Int32(1)));
    assert_eq!(e, None);
    assert!(points.is_empty());
}

#[test]
fn buildings_and_smoke() {
    let props = vec![
        ("isAlive".to_string(), ArgVal::Uint8(0)),
        ("teamId".to_string(), ArgVal::Int8(1)),
        ("paramsId".to_string(), ArgVal::Uint32(55)),
    ];
    let b = building_from_props(EntityId(9), &props);
    assert!(!b.is_alive && !b.is_hidden && !b.is_suppressed);
    assert_eq!(b.team_id, 1);
    assert_eq!(b.params_id, GameParamId(55));
    let b = building_from_props(EntityId(9), &vec![("isAlive".to_string(), ArgVal::Int8(0))]);
    assert!(b.is_alive);
    assert_eq!(smoke_radius(&vec![("radius".to_string(), ArgVal::Float32(3))]), 3);
    assert_eq!(smoke_radius(&vec![]), 0);
}
