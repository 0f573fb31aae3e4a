use minimap_renderer::render::{
    icon_dir, is_consumable_category, kill_feed_indices, plane_icon_key, score_bar,
    ship_color_rgb, ship_draw_plan, species_to_icon_base, torpedo_is_friendly, unknown_relation,
    CliOverrides, PlaneCategory, PlaneSpecies, PositionSource, RenderOptions, RendererConfig,
    ShipVisibility,
};
use minimap_renderer::state::TeamScore;
use minimap_renderer::types::Relation;

#[test]
fn defaults_show_everything_but_armament_and_trails() {
    let c = RendererConfig::default();
    let o = c.into_render_options();
    assert_eq!(o, RenderOptions::default());
    assert!(o.show_hp_bars && o.show_kill_feed && o.show_consumables);
    assert!(!o.show_armament && !o.show_trails);
}

#[test]
fn default_toml_matches_the_default_config() {
    let text = RendererConfig::generate_default_toml();
    let table: toml::Table = toml::from_str(&text).unwrap();
    let c = RendererConfig::default();
    let expected = [
        ("show_player_names", c.show_player_names),
        ("show_ship_names", c.show_ship_names),
        ("show_capture_points", c.show_capture_points),
        ("show_buildings", c.show_buildings),
        ("show_turret_direction", c.show_turret_direction),
        ("show_hp_bars", c.show_hp_bars),
        ("show_tracers", c.show_tracers),
        ("show_torpedoes", c.show_torpedoes),
        ("show_planes", c.show_planes),
        ("show_smoke", c.show_smoke),
        ("show_score", c.show_score),
        ("show_timer", c.show_timer),
        ("show_kill_feed", c.show_kill_feed),
        ("show_consumables", c.show_consumables),
        ("show_armament", c.show_armament),
        ("show_trails", c.show_trails),
    ];
    assert_eq!(table.len(), expected.len());
    for (key, value) in expected {
        assert_eq!(table.get(key).and_then(|v| v.as_bool()), Some(value), "{}", key);
    }
}

#[test]
fn cli_flags_override_the_file() {
    let mut c = RendererConfig::default();
    let flags = CliOverrides {
        no_player_names: true,
        no_buildings: true,
        show_trails: true,
        ..CliOverrides::default()
    };
    c.apply_cli_overrides(&flags);
    assert!(!c.show_player_names && !c.show_buildings && c.show_trails);
    assert!(c.show_ship_names && !c.show_armament);
    let before = c;
    c.apply_cli_overrides(&flags);
    assert_eq!(c, before);
    c.apply_cli_overrides(&CliOverrides::default());
    assert_eq!(c, before);
}

#[test]
fn colors() {
    assert_eq!(ship_color_rgb(Relation::new(0)), [255, 255, 255]);
    assert_eq!(ship_color_rgb(Relation::new(1)), [76, 232, 170]);
    assert_eq!(ship_color_rgb(Relation::new(5)), [254, 77, 42]);
    assert_eq!(ship_color_rgb(unknown_relation()), [254, 77, 42]);
    assert!(torpedo_is_friendly(Relation::new(1)));
    assert!(!torpedo_is_friendly(Relation::new(2)));
}

#[test]
fn ship_drawing() {
    let p = ship_draw_plan(false, true, true, true, true, true).unwrap();
    assert_eq!(p.visibility, ShipVisibility::Visible);
    assert_eq!(p.source, PositionSource::World);
    assert!(p.colored && p.health_bar);
    let p = ship_draw_plan(false, true, false, true, true, false).unwrap();
    assert_eq!(p.visibility, ShipVisibility::MinimapOnly);
    assert!(!p.colored && !p.health_bar);
    let p = ship_draw_plan(false, false, false, true, true, true).unwrap();
    assert_eq!((p.visibility, p.source), (ShipVisibility::Undetected, PositionSource::Minimap));
    assert!(!p.health_bar);
    assert!(ship_draw_plan(true, true, true, true, true, true).is_none());
    assert!(ship_draw_plan(false, false, false, false, true, true).is_none());
}

#[test]
fn kill_feed_keeps_the_latest_five_in_order() {
    let w = vec![true, true, false, true, true, true, true, true, false];
    assert_eq!(kill_feed_indices(&w), vec![3, 4, 5, 6, 7]);
    assert_eq!(kill_feed_indices(&vec![false, true, false]), vec![1]);
    assert!(kill_feed_indices(&vec![]).is_empty());
}

#[test]
fn scores_and_planes() {
    assert_eq!(score_bar(&vec![TeamScore { team_index: 0, score: 10 }]), None);
    let s = vec![TeamScore { team_index: 0, score: 10 }, TeamScore { team_index: 1, score: 0x1_0000_0002 }];
    assert_eq!(score_bar(&s), Some((10, 2)));
    assert_eq!(icon_dir(PlaneCategory::Airsupport), "airsupport");
    assert!(is_consumable_category(PlaneCategory::Consumable));
    assert!(!is_consumable_category(PlaneCategory::Controllable));
    assert_eq!(plane_icon_key("controllable", "bomber_he", 1), "controllable/bomber_he_enemy");
    assert_eq!(plane_icon_key("consumables", "fighter", 0), "consumables/fighter_ally");
}

#[test]
fn squadron_icon_names() {
    assert_eq!(species_to_icon_base(PlaneSpecies::Dive, "Dive", false, "AP"), "bomber_ap");
    assert_eq!(species_to_icon_base(PlaneSpecies::Dive, "Dive", true, "depthcharge"), "bomber_depth_charge");
    assert_eq!(species_to_icon_base(PlaneSpecies::Fighter, "Fighter", false, "HE"), "fighter_he");
    assert_eq!(species_to_icon_base(PlaneSpecies::Bomber, "Bomber", false, "torpedo_deepwater"), "torpedo_deepwater");
    assert_eq!(species_to_icon_base(PlaneSpecies::Bomber, "Bomber", false, "torpedo"), "torpedo_regular");
    assert_eq!(species_to_icon_base(PlaneSpecies::Skip, "Skip", false, "HE"), "skip_he");
    assert_eq!(species_to_icon_base(PlaneSpecies::Airship, "Airship", false, ""), "auxiliary");
    assert_eq!(species_to_icon_base(PlaneSpecies::Other, "Scout", true, ""), "scout");
    assert_eq!(species_to_icon_base(PlaneSpecies::Other, "SmokeLayer", true, ""), "smoke_layer");
}
