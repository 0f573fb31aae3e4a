//! Renderer configuration and the decisions of the minimap renderer that do
//! not depend on pixel geometry: what to draw for each ship, which kills the
//! kill feed lists, colors and icon names.
use vstd::prelude::*;
use vstd::string::StringExecFns;
use convert_case::{Case, Casing};
use crate::rpc::str_eq;
use crate::types::Relation;

verus! {

/// Configurable rendering options.
#[derive(Clone, Copy, Debug, PartialEq, Eq, Structural)]
pub struct RenderOptions {
    pub show_hp_bars: bool,
    pub show_tracers: bool,
    pub show_torpedoes: bool,
    pub show_planes: bool,
    pub show_smoke: bool,
    pub show_score: bool,
    pub show_timer: bool,
    pub show_kill_feed: bool,
    pub show_player_names: bool,
    pub show_ship_names: bool,
    pub show_capture_points: bool,
    pub show_buildings: bool,
    pub show_turret_direction: bool,
    pub show_consumables: bool,
    pub show_armament: bool,
    pub show_trails: bool,
}

/// Every display element is shown by default except the armament labels and
/// the position trails.
pub open spec fn default_options() -> RenderOptions {
    RenderOptions {
        show_hp_bars: true,
        show_tracers: true,
        show_torpedoes: true,
        show_planes: true,
        show_smoke: true,
        show_score: true,
        show_timer: true,
        show_kill_feed: true,
        show_player_names: true,
        show_ship_names: true,
        show_capture_points: true,
        show_buildings: true,
        show_turret_direction: true,
        show_consumables: true,
        show_armament: false,
        show_trails: false,
    }
}

impl Default for RenderOptions {
    fn default() -> (r: Self)
        ensures
            r == default_options(),
    {
        RenderOptions {
            show_hp_bars: true,
            show_tracers: true,
            show_torpedoes: true,
            show_planes: true,
            show_smoke: true,
            show_score: true,
            show_timer: true,
            show_kill_feed: true,
            show_player_names: true,
            show_ship_names: true,
            show_capture_points: true,
            show_buildings: true,
            show_turret_direction: true,
            show_consumables: true,
            show_armament: false,
            show_trails: false,
        }
    }
}

/// Renderer configuration, loadable from a TOML file.
///
/// All fields default to their standard values. CLI flags override config file values.
#[derive(Debug, Clone, Copy, PartialEq, Eq, Structural)]
pub struct RendererConfig {
    pub show_player_names: bool,
    pub show_ship_names: bool,
    pub show_capture_points: bool,
    pub show_buildings: bool,
    pub show_turret_direction: bool,
    pub show_hp_bars: bool,
    pub show_tracers: bool,
    pub show_torpedoes: bool,
    pub show_planes: bool,
    pub show_smoke: bool,
    pub show_score: bool,
    pub show_timer: bool,
    pub show_kill_feed: bool,
    pub show_consumables: bool,
    pub show_armament: bool,
    pub show_trails: bool,
}

/// The options that a configuration selects: the same toggles, field by field.
pub open spec fn options_of(c: RendererConfig) -> RenderOptions {
    RenderOptions {
        show_hp_bars: c.show_hp_bars,
        show_tracers: c.show_tracers,
        show_torpedoes: c.show_torpedoes,
        show_planes: c.show_planes,
        show_smoke: c.show_smoke,
        show_score: c.show_score,
        show_timer: c.show_timer,
        show_kill_feed: c.show_kill_feed,
        show_player_names: c.show_player_names,
        show_ship_names: c.show_ship_names,
        show_capture_points: c.show_capture_points,
        show_buildings: c.show_buildings,
        show_turret_direction: c.show_turret_direction,
        show_consumables: c.show_consumables,
        show_armament: c.show_armament,
        show_trails: c.show_trails,
    }
}

pub open spec fn default_config() -> RendererConfig {
    RendererConfig {
        show_player_names: true,
        show_ship_names: true,
        show_capture_points: true,
        show_buildings: true,
        show_turret_direction: true,
        show_hp_bars: true,
        show_tracers: true,
        show_torpedoes: true,
        show_planes: true,
        show_smoke: true,
        show_score: true,
        show_timer: true,
        show_kill_feed: true,
        show_consumables: true,
        show_armament: false,
        show_trails: false,
    }
}

impl Default for RendererConfig {
    fn default() -> (r: Self)
        ensures
            r == default_config(),
    {
        RendererConfig {
            show_player_names: true,
            show_ship_names: true,
            show_capture_points: true,
            show_buildings: true,
            show_turret_direction: true,
            show_hp_bars: true,
            show_tracers: true,
            show_torpedoes: true,
            show_planes: true,
            show_smoke: true,
            show_score: true,
            show_timer: true,
            show_kill_feed: true,
            show_consumables: true,
            show_armament: false,
            show_trails: false,
        }
    }
}

/// The command-line display flags: `--no-X` hides an element, `--show-X`
/// shows one that is hidden by default.
#[derive(Debug, Clone, Copy, PartialEq, Eq, Structural, Default)]
pub struct CliOverrides {
    pub no_player_names: bool,
    pub no_ship_names: bool,
    pub no_capture_points: bool,
    pub no_buildings: bool,
    pub no_turret_direction: bool,
    pub show_armament: bool,
    pub show_trails: bool,
}

/// A configuration with the command-line flags applied: a flag that is
/// present wins over the file, an absent one leaves the file's value.
pub open spec fn with_overrides(c: RendererConfig, f: CliOverrides) -> RendererConfig {
    RendererConfig {
        show_player_names: if f.no_player_names { false } else { c.show_player_names },
        show_ship_names: if f.no_ship_names { false } else { c.show_ship_names },
        show_capture_points: if f.no_capture_points { false } else { c.show_capture_points },
        show_buildings: if f.no_buildings { false } else { c.show_buildings },
        show_turret_direction: if f.no_turret_direction { false } else { c.show_turret_direction },
        show_armament: if f.show_armament { true } else { c.show_armament },
        show_trails: if f.show_trails { true } else { c.show_trails },
        ..c
    }
}

impl RendererConfig {
    /// Convert into RenderOptions for the renderer.
    pub fn into_render_options(self) -> (r: RenderOptions)
        ensures
            r == options_of(self),
    {
        RenderOptions {
            show_player_names: self.show_player_names,
            show_ship_names: self.show_ship_names,
            show_capture_points: self.show_capture_points,
            show_buildings: self.show_buildings,
            show_turret_direction: self.show_turret_direction,
            show_hp_bars: self.show_hp_bars,
            show_tracers: self.show_tracers,
            show_torpedoes: self.show_torpedoes,
            show_planes: self.show_planes,
            show_smoke: self.show_smoke,
            show_score: self.show_score,
            show_timer: self.show_timer,
            show_kill_feed: self.show_kill_feed,
            show_consumables: self.show_consumables,
            show_armament: self.show_armament,
            show_trails: self.show_trails,
        }
    }

    /// Apply CLI flag overrides. Flags use negative form (--no-X disables, --show-X enables).
    pub fn apply_cli_overrides(&mut self, flags: &CliOverrides)
        ensures
            *final(self) == with_overrides(*old(self), *flags),
    {
        if flags.no_player_names {
            self.show_player_names = false;
        }
        if flags.no_ship_names {
            self.show_ship_names = false;
        }
        if flags.no_capture_points {
            self.show_capture_points = false;
        }
        if flags.no_buildings {
            self.show_buildings = false;
        }
        if flags.no_turret_direction {
            self.show_turret_direction = false;
        }
        if flags.show_armament {
            self.show_armament = true;
        }
        if flags.show_trails {
            self.show_trails = true;
        }
    }

    /// Generate a commented default TOML config string.
    pub fn generate_default_toml() -> (r: String)
        ensures
            r@ == DEFAULT_CONFIG_TOML@,
    {
        DEFAULT_CONFIG_TOML.to_owned()
    }
}

/// The commented default configuration file.
pub const DEFAULT_CONFIG_TOML: &'static str = "# Minimap Renderer Configuration
# Place this file as minimap_renderer.toml next to the executable,
# or specify with --config <path>.

# Display toggles (true = show, false = hide)

# Show player names above ship icons
show_player_names = true

# Show ship type names above ship icons
show_ship_names = true

# Show capture point zones with progress
show_capture_points = true

# Show building markers (e.g. shipyard structures)
show_buildings = true

# Show turret direction indicators
show_turret_direction = true

# Show health bars below ship icons
show_hp_bars = true

# Show artillery shell tracers
show_tracers = true

# Show torpedo markers
show_torpedoes = true

# Show plane squadron icons
show_planes = true

# Show smoke screen clouds
show_smoke = true

# Show team score bar at top
show_score = true

# Show game timer
show_timer = true

# Show kill feed in top-right corner
show_kill_feed = true

# Show active consumable icons below ships
show_consumables = true

# Show selected armament/ammo type below ship icons (e.g. AP, HE, SAP, Torp)
show_armament = false

# Show position trail heatmap (rainbow: blue=oldest, red=newest)
show_trails = false
";

/// Applying no command-line flag leaves a configuration as it was, and
/// applying the same flags twice is the same as applying them once.
pub proof fn lemma_overrides_idempotent(c: RendererConfig, f: CliOverrides)
    ensures
        with_overrides(c, CliOverrides {
            no_player_names: false,
            no_ship_names: false,
            no_capture_points: false,
            no_buildings: false,
            no_turret_direction: false,
            show_armament: false,
            show_trails: false,
        }) == c,
        with_overrides(with_overrides(c, f), f) == with_overrides(c, f),
{
}

// ---------------------------------------------------------------------------
// Map geometry types
// ---------------------------------------------------------------------------

/// Map metadata for coordinate conversion.
#[derive(Debug, Clone, Copy, PartialEq, Eq, Structural)]
pub struct MapInfo {
    pub space_size: i32,
}

/// Pixel position on the minimap image.
/// (0,0) is top-left, positive X = right, positive Y = down.
/// Does NOT include HUD offset — that's applied at draw time.
#[derive(Debug, Clone, Copy, PartialEq, Eq, Structural)]
pub struct MinimapPos {
    pub x: i32,
    pub y: i32,
}

/// How a ship should be rendered based on its visibility state.
#[derive(Clone, Copy, PartialEq, Eq, Structural, Debug)]
pub enum ShipVisibility {
    /// Ship is directly visible (Position packets). Solid fill.
    Visible,
    /// Ship is detected on minimap but not directly rendered. Outline only.
    MinimapOnly,
    /// Ship has gone undetected. Gray, semi-transparent at last known position.
    Undetected,
}

/// Kind of ship configuration circle for filtering and grouping.
#[derive(Debug, Clone, Copy, PartialEq, Eq, Structural)]
pub enum ShipConfigCircleKind {
    Detection,
    MainBattery,
    SecondaryBattery,
    Radar,
    Hydro,
}

// ---------------------------------------------------------------------------
// Colors
// ---------------------------------------------------------------------------

/// The ship color of a relation: white for the recording player, green for
/// allies, red for enemies.
pub open spec fn ship_color_spec(relation: Relation) -> Seq<u8> {
    if relation.spec_value() == 0 {
        seq![255u8, 255u8, 255u8]
    } else if relation.spec_value() == 1 {
        seq![76u8, 232u8, 170u8]
    } else {
        seq![254u8, 77u8, 42u8]
    }
}

/// Get the ship color as an RGB array based on relation.
pub fn ship_color_rgb(relation: Relation) -> (r: [u8; 3])
    ensures
        r@ == ship_color_spec(relation),
{
    if relation.is_self() {
        [255, 255, 255]
    } else if relation.is_ally() {
        [76, 232, 170]
    } else {
        [254, 77, 42]
    }
}

/// The relation assumed for an entity whose player is not known: an enemy.
pub fn unknown_relation() -> (r: Relation)
    ensures
        r.spec_value() == 2,
{
    Relation::new(2)
}

/// Whether a torpedo is drawn in the friendly color: it belongs to the
/// recording player or an ally.
pub fn torpedo_is_friendly(owner: Relation) -> (r: bool)
    ensures
        r == (owner.spec_value() <= 1),
{
    owner.is_self() || owner.is_ally()
}

// ---------------------------------------------------------------------------
// Ships
// ---------------------------------------------------------------------------

/// Where a ship's icon is placed from.
#[derive(Debug, Clone, Copy, PartialEq, Eq, Structural)]
pub enum PositionSource {
    /// The world position of its last position packet.
    World,
    /// The normalized position of its last minimap update.
    Minimap,
}

/// How one ship is drawn in a frame.
#[derive(Debug, Clone, Copy, PartialEq, Eq, Structural)]
pub struct ShipDrawPlan {
    pub visibility: ShipVisibility,
    pub source: PositionSource,
    /// Filled with the relation's color (only a visible ship is).
    pub colored: bool,
    /// With a health bar below it.
    pub health_bar: bool,
}

/// The drawing of a ship: a dead ship is skipped (it gets a wreck marker);
/// a ship detected on the minimap is drawn visible at its world position if
/// it has one, else outlined at its minimap position; an undetected ship is
/// drawn gray at its last known position. Detected ships get a health bar
/// when bars are shown and the health is known.
pub open spec fn ship_draw_spec(
    is_dead: bool,
    detected: bool,
    has_world: bool,
    has_minimap: bool,
    health_known: bool,
    show_hp_bars: bool,
) -> Option<ShipDrawPlan> {
    if is_dead {
        None
    } else if detected {
        if has_world {
            Some(
                ShipDrawPlan {
                    visibility: ShipVisibility::Visible,
                    source: PositionSource::World,
                    colored: true,
                    health_bar: show_hp_bars && health_known,
                },
            )
        } else if has_minimap {
            Some(
                ShipDrawPlan {
                    visibility: ShipVisibility::MinimapOnly,
                    source: PositionSource::Minimap,
                    colored: false,
                    health_bar: show_hp_bars && health_known,
                },
            )
        } else {
            None
        }
    } else if has_world {
        Some(
            ShipDrawPlan {
                visibility: ShipVisibility::Undetected,
                source: PositionSource::World,
                colored: false,
                health_bar: false,
            },
        )
    } else if has_minimap {
        Some(
            ShipDrawPlan {
                visibility: ShipVisibility::Undetected,
                source: PositionSource::Minimap,
                colored: false,
                health_bar: false,
            },
        )
    } else {
        None
    }
}

pub fn ship_draw_plan(
    is_dead: bool,
    detected: bool,
    has_world: bool,
    has_minimap: bool,
    health_known: bool,
    show_hp_bars: bool,
) -> (r: Option<ShipDrawPlan>)
    ensures
        r == ship_draw_spec(is_dead, detected, has_world, has_minimap, health_known, show_hp_bars),
{
    if is_dead {
        return None;
    }
    if detected {
        if has_world {
            Some(
                ShipDrawPlan {
                    visibility: ShipVisibility::Visible,
                    source: PositionSource::World,
                    colored: true,
                    health_bar: show_hp_bars && health_known,
                },
            )
        } else if has_minimap {
            Some(
                ShipDrawPlan {
                    visibility: ShipVisibility::MinimapOnly,
                    source: PositionSource::Minimap,
                    colored: false,
                    health_bar: show_hp_bars && health_known,
                },
            )
        } else {
            None
        }
    } else if has_world {
        Some(
            ShipDrawPlan {
                visibility: ShipVisibility::Undetected,
                source: PositionSource::World,
                colored: false,
                health_bar: false,
            },
        )
    } else if has_minimap {
        Some(
            ShipDrawPlan {
                visibility: ShipVisibility::Undetected,
                source: PositionSource::Minimap,
                colored: false,
                health_bar: false,
            },
        )
    } else {
        None
    }
}

/// Only a ship seen in a position packet while detected is drawn solid in
/// its team color; no ship without any known position is drawn.
pub proof fn lemma_only_visible_ships_are_colored(
    is_dead: bool,
    detected: bool,
    has_world: bool,
    has_minimap: bool,
    health_known: bool,
    show_hp_bars: bool,
)
    ensures
        ship_draw_spec(is_dead, detected, has_world, has_minimap, health_known, show_hp_bars) matches Some(p)
            ==> (p.colored <==> p.visibility == ShipVisibility::Visible) && (p.colored ==> detected
            && has_world),
        !has_world && !has_minimap ==> ship_draw_spec(
            is_dead,
            detected,
            has_world,
            has_minimap,
            health_known,
            show_hp_bars,
        ) is None,
{
}

/// A health bar is drawn exactly under a detected ship whose health is known
/// while health bars are shown; turning the bars off or on changes nothing
/// else about how a ship is drawn.
pub proof fn lemma_health_bar_follows_the_option(
    is_dead: bool,
    detected: bool,
    has_world: bool,
    has_minimap: bool,
    health_known: bool,
    show_hp_bars: bool,
)
    ensures
        ship_draw_spec(is_dead, detected, has_world, has_minimap, health_known, show_hp_bars) matches Some(p)
            ==> p.health_bar == (detected && show_hp_bars && health_known),
        ship_draw_spec(is_dead, detected, has_world, has_minimap, health_known, false) is Some ==> !ship_draw_spec(
            is_dead,
            detected,
            has_world,
            has_minimap,
            health_known,
            false,
        )->0.health_bar,
        ({
            let on = ship_draw_spec(is_dead, detected, has_world, has_minimap, health_known, true);
            let off = ship_draw_spec(is_dead, detected, has_world, has_minimap, health_known, false);
            &&& ((on is Some) <==> (off is Some))
            &&& (on is Some && off is Some) ==> on->0.visibility == off->0.visibility && on->0.source
                == off->0.source && on->0.colored == off->0.colored
        }),
{
}

/// Where and how a ship is drawn: a dead ship is not drawn; a detected ship
/// is drawn visible at its world position when it has one, else outlined at
/// its minimap position; an undetected ship is drawn gray at its world
/// position when it has one, else at its minimap position; a ship with no
/// position is not drawn.
pub proof fn lemma_ship_drawing_places(
    is_dead: bool,
    detected: bool,
    has_world: bool,
    has_minimap: bool,
    health_known: bool,
    show_hp_bars: bool,
)
    ensures
        ({
            let r = ship_draw_spec(is_dead, detected, has_world, has_minimap, health_known, show_hp_bars);
            &&& ((r is Some) <==> (!is_dead && (has_world || has_minimap)))
            &&& r matches Some(p) ==> {
                &&& (p.source == PositionSource::World <==> has_world)
                &&& (p.visibility == ShipVisibility::Visible <==> detected && has_world)
                &&& (p.visibility == ShipVisibility::MinimapOnly <==> detected && !has_world)
                &&& (p.visibility == ShipVisibility::Undetected <==> !detected)
            }
        }),
{
}

// ---------------------------------------------------------------------------
// Kill feed
// ---------------------------------------------------------------------------

/// Most entries the kill feed shows.
pub const KILL_FEED_MAX: usize = 5;

/// The positions of the kills that the feed lists: the latest (at most five)
/// whose time window holds the current clock, oldest first. Built from the
/// end of the list.
pub open spec fn feed_rev(in_window: Seq<bool>, limit: nat) -> Seq<int>
    decreases in_window.len(),
{
    if in_window.len() == 0 || limit == 0 {
        seq![]
    } else {
        let last = in_window.len() - 1;
        if in_window[last] {
            seq![last as int] + feed_rev(in_window.drop_last(), (limit - 1) as nat)
        } else {
            feed_rev(in_window.drop_last(), limit)
        }
    }
}

pub open spec fn kill_feed_spec(in_window: Seq<bool>) -> Seq<int> {
    feed_rev(in_window, KILL_FEED_MAX as nat).reverse()
}

proof fn lemma_feed_rev_props(in_window: Seq<bool>, limit: nat)
    ensures
        feed_rev(in_window, limit).len() <= limit,
        forall|k: int|
            0 <= k < feed_rev(in_window, limit).len() ==> 0 <= #[trigger] feed_rev(in_window, limit)[k]
                < in_window.len() && in_window[feed_rev(in_window, limit)[k]],
        forall|a: int, b: int|
            0 <= a < b < feed_rev(in_window, limit).len() ==> feed_rev(in_window, limit)[a]
                > feed_rev(in_window, limit)[b],
    decreases in_window.len(),
{
    if in_window.len() > 0 && limit > 0 {
        let last = in_window.len() - 1;
        if in_window[last] {
            lemma_feed_rev_props(in_window.drop_last(), (limit - 1) as nat);
        } else {
            lemma_feed_rev_props(in_window.drop_last(), limit);
        }
    }
}

/// Selects the kills that the kill feed lists, given for each kill (in the
/// order they happened) whether its display window holds the current clock.
pub fn kill_feed_indices(in_window: &Vec<bool>) -> (r: Vec<usize>)
    ensures
        r@.map_values(|i: usize| i as int) == kill_feed_spec(in_window@),
{
    let ghost w = in_window@;
    let mut picked: Vec<usize> = Vec::new();
    let mut i: usize = in_window.len();
    assert(w.subrange(0, i as int) =~= w);
    assert(picked@.map_values(|x: usize| x as int) + feed_rev(w, KILL_FEED_MAX as nat) =~= feed_rev(
        w,
        KILL_FEED_MAX as nat,
    ));
    while i > 0 && picked.len() < KILL_FEED_MAX
        invariant
            i <= w.len(),
            w == in_window@,
            picked@.len() <= KILL_FEED_MAX,
            picked@.map_values(|x: usize| x as int) + feed_rev(
                w.subrange(0, i as int),
                (KILL_FEED_MAX - picked@.len()) as nat,
            ) == feed_rev(w, KILL_FEED_MAX as nat),
        decreases i,
    {
        let ghost prefix = w.subrange(0, i as int);
        let ghost before = picked@;
        assert(prefix.drop_last() =~= w.subrange(0, i - 1));
        i -= 1;
        if in_window[i] {
            picked.push(i);
            assert(picked@.map_values(|x: usize| x as int) =~= before.map_values(
                |x: usize| x as int,
            ) + seq![i as int]);
        }
    }
    let ghost rest = feed_rev(w.subrange(0, i as int), (KILL_FEED_MAX - picked@.len()) as nat);
    assert(rest =~= Seq::<int>::empty()) by {
        if i == 0 {
            assert(w.subrange(0, 0).len() == 0);
        }
    }
    assert(picked@.map_values(|x: usize| x as int) =~= feed_rev(w, KILL_FEED_MAX as nat));
    let ghost forward = picked@;
    let mut out: Vec<usize> = Vec::new();
    let mut k: usize = picked.len();
    while k > 0
        invariant
            k <= forward.len(),
            forward == picked@,
            out@.len() == forward.len() - k,
            forall|j: int| 0 <= j < out@.len() ==> #[trigger] out@[j] == forward[forward.len() - 1 - j],
        decreases k,
    {
        k -= 1;
        out.push(picked[k]);
    }
    assert(out@.map_values(|i: usize| i as int) =~= forward.map_values(|x: usize| x as int).reverse());
    out
}

proof fn lemma_feed_rev_complete(in_window: Seq<bool>, limit: nat, j: int)
    requires
        0 <= j < in_window.len(),
        in_window[j],
        !feed_rev(in_window, limit).contains(j),
    ensures
        feed_rev(in_window, limit).len() == limit,
        limit > 0 ==> j < feed_rev(in_window, limit).last(),
    decreases in_window.len(),
{
    if limit > 0 {
        let last = in_window.len() - 1;
        let f = feed_rev(in_window, limit);
        if in_window[last] {
            let rest = feed_rev(in_window.drop_last(), (limit - 1) as nat);
            assert(f == seq![last as int] + rest);
            assert(f[0] == last);
            assert(j != last);
            assert(!rest.contains(j)) by {
                if rest.contains(j) {
                    let k = choose|k: int| 0 <= k < rest.len() && rest[k] == j;
                    assert(f[k + 1] == j);
                }
            }
            lemma_feed_rev_complete(in_window.drop_last(), (limit - 1) as nat, j);
        } else {
            assert(j != last);
            lemma_feed_rev_complete(in_window.drop_last(), limit, j);
        }
    }
}

/// The kill feed holds the latest kills inside their windows: a kill inside
/// its window that the feed leaves out is older than every kill it lists,
/// and then the feed is full (five kills).
pub proof fn lemma_kill_feed_keeps_the_latest(in_window: Seq<bool>, j: int)
    requires
        0 <= j < in_window.len(),
        in_window[j],
        !kill_feed_spec(in_window).contains(j),
    ensures
        kill_feed_spec(in_window).len() == 5,
        forall|k: int| 0 <= k < 5 ==> j < #[trigger] kill_feed_spec(in_window)[k],
{
    let f = feed_rev(in_window, 5);
    assert(!f.contains(j)) by {
        if f.contains(j) {
            let k = choose|k: int| 0 <= k < f.len() && f[k] == j;
            assert(f.reverse()[f.len() - 1 - k] == j);
        }
    }
    lemma_feed_rev_complete(in_window, 5, j);
    lemma_feed_rev_props(in_window, 5);
    assert forall|k: int| 0 <= k < 5 implies j < #[trigger] kill_feed_spec(in_window)[k] by {
        assert(kill_feed_spec(in_window)[k] == f[4 - k]);
        if 4 - k < 4 {
            assert(f[4 - k] > f[4]);
        }
    }
}

/// The kill feed lists at most five kills, each inside its window, oldest
/// first, and it is the latest such kills.
pub proof fn lemma_kill_feed_shape(in_window: Seq<bool>)
    ensures
        kill_feed_spec(in_window).len() <= 5,
        forall|k: int|
            0 <= k < kill_feed_spec(in_window).len() ==> 0 <= #[trigger] kill_feed_spec(in_window)[k]
                < in_window.len() && in_window[kill_feed_spec(in_window)[k]],
        forall|a: int, b: int|
            0 <= a < b < kill_feed_spec(in_window).len() ==> kill_feed_spec(in_window)[a]
                < kill_feed_spec(in_window)[b],
{
    lemma_feed_rev_props(in_window, 5);
    let f = feed_rev(in_window, 5);
    assert forall|k: int| 0 <= k < f.reverse().len() implies #[trigger] f.reverse()[k] == f[f.len()
        - 1 - k] by {}
}

// ---------------------------------------------------------------------------
// Scores and planes
// ---------------------------------------------------------------------------

/// The two scores shown in the score bar, when both teams have one; the
/// scores wrap to `i32` as the bar draws them.
pub fn score_bar(scores: &Vec<crate::state::TeamScore>) -> (r: Option<(i32, i32)>)
    ensures
        scores@.len() >= 2 ==> r == Some((scores@[0].score as i32, scores@[1].score as i32)),
        scores@.len() < 2 ==> r is None,
{
    if scores.len() >= 2 {
        Some((scores[0].score as i32, scores[1].score as i32))
    } else {
        None
    }
}

/// How a squadron is launched, which decides where its icons are found.
#[derive(Debug, Clone, Copy, PartialEq, Eq, Structural)]
pub enum PlaneCategory {
    Consumable,
    Airsupport,
    Controllable,
}

/// The icon directory of a plane category.
pub fn icon_dir(category: PlaneCategory) -> (r: &'static str)
    ensures
        r@ == match category {
            PlaneCategory::Consumable => "consumables"@,
            PlaneCategory::Airsupport => "airsupport"@,
            PlaneCategory::Controllable => "controllable"@,
        },
{
    match category {
        PlaneCategory::Consumable => "consumables",
        PlaneCategory::Airsupport => "airsupport",
        PlaneCategory::Controllable => "controllable",
    }
}

/// Whether planes of a category are launched by a consumable or an air
/// strike rather than controlled.
pub fn is_consumable_category(category: PlaneCategory) -> (r: bool)
    ensures
        r == (category != PlaneCategory::Controllable),
{
    match category {
        PlaneCategory::Consumable => true,
        PlaneCategory::Airsupport => true,
        PlaneCategory::Controllable => false,
    }
}

/// The icon of a squadron: `<dir>/<base>_enemy` for the enemy team (team 1),
/// `<dir>/<base>_ally` otherwise.
pub open spec fn plane_icon_key_spec(dir: Seq<char>, base: Seq<char>, team_id: u32) -> Seq<char> {
    dir + "/"@ + base + "_"@ + if team_id == 1 { "enemy"@ } else { "ally"@ }
}

pub fn plane_icon_key(dir: &str, base: &str, team_id: u32) -> (r: String)
    ensures
        r@ == plane_icon_key_spec(dir@, base@, team_id),
{
    let mut key = dir.to_owned();
    key.append("/");
    key.append(base);
    key.append("_");
    if team_id == 1 {
        key.append("enemy");
    } else {
        key.append("ally");
    }
    key
}

/// The kind of aircraft of a squadron, as far as its icon depends on it.
#[derive(Debug, Clone, Copy, PartialEq, Eq, Structural)]
pub enum PlaneSpecies {
    Fighter,
    Dive,
    Bomber,
    Skip,
    Airship,
    /// Any other species (its name is passed alongside).
    Other,
}

/// What convert_case's `to_case(Case::Snake)` makes of a text.
pub uninterp spec fn snake_case(text: Seq<char>) -> Seq<char>;

/// Calls convert_case's `Casing::to_case` with `Case::Snake`; the result is
/// what `snake_case` names for the text.
#[verifier::external_body]
fn to_snake_case(text: &str) -> (r: String)
    ensures
        r@ == snake_case(text@),
{
    text.to_case(Case::Snake)
}

/// The base name of a squadron's icons: consumable planes are named after
/// their species (dive bombers after their ammunition), controllable ones
/// after species and ammunition (`depthcharge` reads `depth_charge`).
pub open spec fn icon_base_spec(
    species: PlaneSpecies,
    species_name: Seq<char>,
    is_consumable: bool,
    ammo_type: Seq<char>,
) -> Seq<char> {
    let normalized = if ammo_type == "depthcharge"@ {
        "depth_charge"@
    } else {
        ammo_type
    };
    let ammo = snake_case(normalized);
    if is_consumable {
        match species {
            PlaneSpecies::Dive => "bomber_"@ + ammo,
            _ => snake_case(species_name),
        }
    } else {
        match species {
            PlaneSpecies::Fighter => "fighter_"@ + ammo,
            PlaneSpecies::Dive => "bomber_"@ + ammo,
            PlaneSpecies::Bomber => if ammo == "torpedo_deepwater"@ {
                "torpedo_deepwater"@
            } else {
                "torpedo_regular"@
            },
            PlaneSpecies::Skip => "skip_"@ + ammo,
            PlaneSpecies::Airship => "auxiliary"@,
            PlaneSpecies::Other => "fighter_"@ + ammo,
        }
    }
}

fn prefixed(prefix: &str, rest: &String) -> (r: String)
    ensures
        r@ == prefix@ + rest@,
{
    let mut s = prefix.to_owned();
    s.append(rest.as_str());
    s
}

/// Build the icon base name from species, consumable flag, and ammo type.
pub fn species_to_icon_base(
    species: PlaneSpecies,
    species_name: &str,
    is_consumable: bool,
    ammo_type: &str,
) -> (r: String)
    ensures
        r@ == icon_base_spec(species, species_name@, is_consumable, ammo_type@),
{
    let normalized = if str_eq(ammo_type, "depthcharge") {
        "depth_charge"
    } else {
        ammo_type
    };
    let ammo = to_snake_case(normalized);
    if is_consumable {
        match species {
            PlaneSpecies::Dive => prefixed("bomber_", &ammo),
            _ => to_snake_case(species_name),
        }
    } else {
        match species {
            PlaneSpecies::Fighter => prefixed("fighter_", &ammo),
            PlaneSpecies::Dive => prefixed("bomber_", &ammo),
            PlaneSpecies::Bomber => if str_eq(ammo.as_str(), "torpedo_deepwater") {
                "torpedo_deepwater".to_owned()
            } else {
                "torpedo_regular".to_owned()
            },
            PlaneSpecies::Skip => prefixed("skip_", &ammo),
            PlaneSpecies::Airship => "auxiliary".to_owned(),
            PlaneSpecies::Other => prefixed("fighter_", &ammo),
        }
    }
}

} // verus!
