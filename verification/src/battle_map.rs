//! The RTS battle map handed to the presentation client, and the authored
//! mission objectives that are placed on it.

use vstd::prelude::*;
use vstd::string::*;
use vstd::utf8::*;
use crate::catalog::CampaignMission;
use crate::error::CampaignError;
use crate::text::{is_blank, spec_is_blank, str_eq};

verus! {

/// A cell of the battle grid.
#[derive(Debug, Clone, Copy, PartialEq, Eq, PartialOrd, Ord, Hash, Structural)]
pub struct BattleGridPoint {
    pub x: i16,
    pub y: i16,
}

impl BattleGridPoint {
    pub fn new(x: i16, y: i16) -> (r: Self)
        ensures
            r.x == x,
            r.y == y,
    {
        Self { x, y }
    }
}

/// A named point of interest on the map (resource node or enemy spawn).
#[derive(Debug, Clone, PartialEq, Eq)]
pub struct BattleMapNodeV1 {
    pub id: String,
    pub position: BattleGridPoint,
}

/// The mathematical content of a map node.
pub struct BattleMapNodeView {
    pub id: Seq<char>,
    pub position: BattleGridPoint,
}

impl View for BattleMapNodeV1 {
    type V = BattleMapNodeView;

    open spec fn view(&self) -> BattleMapNodeView {
        BattleMapNodeView { id: self.id@, position: self.position }
    }
}

/// The terrain and anchors of one RTS battle.
#[derive(Debug, Clone, PartialEq, Eq)]
pub struct BattleMapSeedV1 {
    pub width: u16,
    pub height: u16,
    pub terrain_rows: Vec<String>,
    pub party_start: BattleGridPoint,
    pub approach_point: BattleGridPoint,
    pub objective: BattleGridPoint,
    pub resource_nodes: Vec<BattleMapNodeV1>,
    pub enemy_spawns: Vec<BattleMapNodeV1>,
}

/// The mathematical content of a battle map.
pub struct BattleMapView {
    pub width: u16,
    pub height: u16,
    pub terrain_rows: Seq<Seq<char>>,
    pub party_start: BattleGridPoint,
    pub approach_point: BattleGridPoint,
    pub objective: BattleGridPoint,
    pub resource_nodes: Seq<BattleMapNodeView>,
    pub enemy_spawns: Seq<BattleMapNodeView>,
}

impl View for BattleMapSeedV1 {
    type V = BattleMapView;

    open spec fn view(&self) -> BattleMapView {
        BattleMapView {
            width: self.width,
            height: self.height,
            terrain_rows: self.terrain_rows@.map_values(|row: String| row@),
            party_start: self.party_start,
            approach_point: self.approach_point,
            objective: self.objective,
            resource_nodes: self.resource_nodes@.map_values(|node: BattleMapNodeV1| node@),
            enemy_spawns: self.enemy_spawns@.map_values(|node: BattleMapNodeV1| node@),
        }
    }
}

pub open spec fn msg_map_dimensions() -> Seq<char> {
    "battle map dimensions/rows are invalid"@
}

pub open spec fn msg_map_row_width() -> Seq<char> {
    "battle map row width mismatch"@
}

pub open spec fn msg_map_nodes() -> Seq<char> {
    "battle map requires resources and enemy spawns"@
}

pub open spec fn msg_map_anchor_bounds() -> Seq<char> {
    "battle map anchor is outside map bounds"@
}

pub open spec fn msg_map_anchor_passable() -> Seq<char> {
    "battle map route anchors must be passable"@
}

impl BattleMapView {
    /// The point lies on the grid. The width and height are read as `i16`,
    /// exactly as the comparison against the signed coordinates does.
    pub open spec fn in_bounds(self, p: BattleGridPoint) -> bool {
        p.x >= 0 && p.y >= 0 && p.x < (self.width as i16) && p.y < (self.height as i16)
    }

    /// The UTF-8 byte of row `y` at column `x` is ground (`g`) or road (`r`).
    pub open spec fn terrain_walkable(self, p: BattleGridPoint) -> bool {
        &&& 0 <= p.y < self.terrain_rows.len()
        &&& 0 <= p.x < encode_utf8(self.terrain_rows[p.y as int]).len()
        &&& (encode_utf8(self.terrain_rows[p.y as int])[p.x as int] == 0x67u8
            || encode_utf8(self.terrain_rows[p.y as int])[p.x as int] == 0x72u8)
    }

    pub open spec fn passable(self, p: BattleGridPoint) -> bool {
        self.in_bounds(p) && self.terrain_walkable(p)
    }

    pub open spec fn rows_have_width(self) -> bool {
        forall|i: int|
            0 <= i < self.terrain_rows.len() ==> #[trigger] self.terrain_rows[i].len()
                == self.width as int
    }

    pub open spec fn anchors_in_bounds(self) -> bool {
        &&& self.in_bounds(self.party_start)
        &&& self.in_bounds(self.approach_point)
        &&& self.in_bounds(self.objective)
        &&& forall|i: int|
            0 <= i < self.resource_nodes.len() ==> self.in_bounds(
                #[trigger] self.resource_nodes[i].position,
            )
        &&& forall|i: int|
            0 <= i < self.enemy_spawns.len() ==> self.in_bounds(
                #[trigger] self.enemy_spawns[i].position,
            )
    }

    /// The message of the first check that the map fails, or `None` when
    /// the map is a valid battle map.
    pub open spec fn failure(self) -> Option<Seq<char>> {
        if self.width < 12 || self.height < 8 || self.terrain_rows.len() != self.height as int {
            Some(msg_map_dimensions())
        } else if !self.rows_have_width() {
            Some(msg_map_row_width())
        } else if self.resource_nodes.len() == 0 || self.enemy_spawns.len() < 3 {
            Some(msg_map_nodes())
        } else if !self.anchors_in_bounds() {
            Some(msg_map_anchor_bounds())
        } else if !self.passable(self.party_start) || !self.passable(self.approach_point)
            || !self.passable(self.objective) {
            Some(msg_map_anchor_passable())
        } else {
            None
        }
    }
}

impl BattleMapSeedV1 {
    #[verifier::loop_isolation(false)]
    pub fn validate(&self) -> (r: Result<(), CampaignError>)
        ensures
            match self@.failure() {
                None => r is Ok,
                Some(message) => r matches Err(e) && e.is_contract(message),
            },
    {
        let ghost v = self@;
        if self.width < 12 || self.height < 8 || self.terrain_rows.len() != self.height as usize {
            return Err(CampaignError::InvalidContract("battle map dimensions/rows are invalid".to_owned()));
        }
        let mut i: usize = 0;
        while i < self.terrain_rows.len()
            invariant
                v == self@,
                i <= self.terrain_rows@.len(),
                v.terrain_rows.len() == self.terrain_rows@.len(),
                forall|j: int| 0 <= j < i ==> #[trigger] v.terrain_rows[j].len() == self.width as int,
            decreases self.terrain_rows@.len() - i,
        {
            if self.terrain_rows[i].as_str().unicode_len() != self.width as usize {
                assert(v.terrain_rows[i as int] == self.terrain_rows@[i as int]@);
                assert(v.terrain_rows[i as int].len() != self.width as int);
                assert(!v.rows_have_width());
                return Err(CampaignError::InvalidContract("battle map row width mismatch".to_owned()));
            }
            i = i + 1;
        }
        if self.resource_nodes.len() == 0 || self.enemy_spawns.len() < 3 {
            return Err(CampaignError::InvalidContract("battle map requires resources and enemy spawns".to_owned()));
        }
        if !self.in_bounds(self.party_start) || !self.in_bounds(self.approach_point)
            || !self.in_bounds(self.objective) {
            return Err(CampaignError::InvalidContract("battle map anchor is outside map bounds".to_owned()));
        }
        let mut k: usize = 0;
        while k < self.resource_nodes.len()
            invariant
                v == self@,
                k <= self.resource_nodes@.len(),
                v.resource_nodes.len() == self.resource_nodes@.len(),
                forall|j: int| 0 <= j < k ==> v.in_bounds(#[trigger] v.resource_nodes[j].position),
            decreases self.resource_nodes@.len() - k,
        {
            if !self.in_bounds(self.resource_nodes[k].position) {
                assert(v.resource_nodes[k as int].position == self.resource_nodes@[k as int].position);
                assert(!v.anchors_in_bounds());
                return Err(CampaignError::InvalidContract("battle map anchor is outside map bounds".to_owned()));
            }
            k = k + 1;
        }
        let mut s: usize = 0;
        while s < self.enemy_spawns.len()
            invariant
                v == self@,
                s <= self.enemy_spawns@.len(),
                v.enemy_spawns.len() == self.enemy_spawns@.len(),
                forall|j: int| 0 <= j < s ==> v.in_bounds(#[trigger] v.enemy_spawns[j].position),
            decreases self.enemy_spawns@.len() - s,
        {
            if !self.in_bounds(self.enemy_spawns[s].position) {
                assert(v.enemy_spawns[s as int].position == self.enemy_spawns@[s as int].position);
                assert(!v.anchors_in_bounds());
                return Err(CampaignError::InvalidContract("battle map anchor is outside map bounds".to_owned()));
            }
            s = s + 1;
        }
        if !self.passable(self.party_start) || !self.passable(self.approach_point)
            || !self.passable(self.objective) {
            return Err(CampaignError::InvalidContract("battle map route anchors must be passable".to_owned()));
        }
        Ok(())
    }

    pub fn in_bounds(&self, point: BattleGridPoint) -> (r: bool)
        ensures
            r == self@.in_bounds(point),
    {
        point.x >= 0 && point.y >= 0 && point.x < self.width as i16 && point.y < self.height as i16
    }

    pub fn passable(&self, point: BattleGridPoint) -> (r: bool)
        ensures
            r == self@.passable(point),
    {
        if !self.in_bounds(point) {
            return false;
        }
        let y = point.y as usize;
        let x = point.x as usize;
        if y >= self.terrain_rows.len() {
            return false;
        }
        let bytes = self.terrain_rows[y].as_str().as_bytes();
        assert(self@.terrain_rows[y as int] == self.terrain_rows@[y as int]@);
        if x >= bytes.len() {
            return false;
        }
        let terrain = bytes[x];
        terrain == 0x67u8 || terrain == 0x72u8
    }
}

/// What a mission objective asks of the player's forces.
#[derive(Debug, Clone, Copy, PartialEq, Eq, Hash, Structural)]
pub enum ObjectiveKind {
    Destroy,
    Capture,
    Defend,
    Escort,
    Extract,
}

impl ObjectiveKind {
    /// Objectives that are held over time and therefore need a duration.
    pub open spec fn is_timed(self) -> bool {
        self is Defend || self is Capture || self is Extract
    }
}

/// One objective of a mission, placed on the battle grid.
#[derive(Debug, Clone, PartialEq, Eq)]
pub struct MissionObjectiveDefinition {
    pub id: String,
    pub kind: ObjectiveKind,
    pub target: BattleGridPoint,
    pub duration_ticks: u32,
}

pub struct MissionObjectiveView {
    pub id: Seq<char>,
    pub kind: ObjectiveKind,
    pub target: BattleGridPoint,
    pub duration_ticks: u32,
}

impl View for MissionObjectiveDefinition {
    type V = MissionObjectiveView;

    open spec fn view(&self) -> MissionObjectiveView {
        MissionObjectiveView {
            id: self.id@,
            kind: self.kind,
            target: self.target,
            duration_ticks: self.duration_ticks,
        }
    }
}

/// The authored objectives of a mission on a particular map.
#[derive(Debug, Clone, PartialEq, Eq)]
pub struct MissionDefinition {
    pub mission: CampaignMission,
    pub map_id: String,
    pub title: String,
    pub objectives: Vec<MissionObjectiveDefinition>,
}

pub struct MissionDefinitionView {
    pub mission: CampaignMission,
    pub map_id: Seq<char>,
    pub title: Seq<char>,
    pub objectives: Seq<MissionObjectiveView>,
}

impl View for MissionDefinition {
    type V = MissionDefinitionView;

    open spec fn view(&self) -> MissionDefinitionView {
        MissionDefinitionView {
            mission: self.mission,
            map_id: self.map_id@,
            title: self.title@,
            objectives: self.objectives@.map_values(|o: MissionObjectiveDefinition| o@),
        }
    }
}

/// The three authored objectives of `mission`, anchored at the map's
/// approach point and objective.
pub open spec fn authored_objectives(
    mission: CampaignMission,
    approach: BattleGridPoint,
    objective: BattleGridPoint,
) -> Seq<MissionObjectiveView> {
    match mission {
            CampaignMission::FirstContact | CampaignMission::AftershockPatrol => seq![
                MissionObjectiveView { id: "reach_contact_line"@, kind: ObjectiveKind::Escort, target: approach, duration_ticks: 0 },
                MissionObjectiveView { id: "break_relay_guard"@, kind: ObjectiveKind::Destroy, target: objective, duration_ticks: 0 },
                MissionObjectiveView { id: "secure_relay"@, kind: ObjectiveKind::Capture, target: objective, duration_ticks: 602 },
            ],
            CampaignMission::ConvoyExodus => seq![
                MissionObjectiveView { id: "escort_supply_convoy"@, kind: ObjectiveKind::Escort, target: approach, duration_ticks: 0 },
                MissionObjectiveView { id: "hold_signal_generator"@, kind: ObjectiveKind::Defend, target: approach, duration_ticks: 260 },
                MissionObjectiveView { id: "extract_at_north_gate"@, kind: ObjectiveKind::Extract, target: objective, duration_ticks: 80 },
            ],
            CampaignMission::MirrorSiege => seq![
                MissionObjectiveView { id: "breach_siege_perimeter"@, kind: ObjectiveKind::Escort, target: approach, duration_ticks: 0 },
                MissionObjectiveView { id: "destroy_signal_jammer"@, kind: ObjectiveKind::Destroy, target: objective, duration_ticks: 0 },
                MissionObjectiveView { id: "reclaim_mirror_gate"@, kind: ObjectiveKind::Capture, target: objective, duration_ticks: 720 },
            ],
            CampaignMission::IronDeltaSkirmish => seq![
                MissionObjectiveView { id: "take_delta_crossing"@, kind: ObjectiveKind::Escort, target: approach, duration_ticks: 0 },
                MissionObjectiveView { id: "destroy_ash_foundry"@, kind: ObjectiveKind::Destroy, target: objective, duration_ticks: 0 },
                MissionObjectiveView { id: "hold_iron_delta"@, kind: ObjectiveKind::Capture, target: objective, duration_ticks: 500 },
            ],
            CampaignMission::NightWatchCrossingSkirmish => seq![
                MissionObjectiveView { id: "screen_night_convoy"@, kind: ObjectiveKind::Escort, target: approach, duration_ticks: 0 },
                MissionObjectiveView { id: "break_ash_beacon"@, kind: ObjectiveKind::Destroy, target: objective, duration_ticks: 0 },
                MissionObjectiveView { id: "extract_watch_patrol"@, kind: ObjectiveKind::Extract, target: objective, duration_ticks: 80 },
            ],
            CampaignMission::GlassBasinSkirmish => seq![
                MissionObjectiveView { id: "cross_glass_flats"@, kind: ObjectiveKind::Escort, target: approach, duration_ticks: 0 },
                MissionObjectiveView { id: "disable_basin_array"@, kind: ObjectiveKind::Destroy, target: objective, duration_ticks: 0 },
                MissionObjectiveView { id: "hold_glass_basin"@, kind: ObjectiveKind::Capture, target: objective, duration_ticks: 560 },
            ],
            CampaignMission::EmberOrchardSkirmish => seq![
                MissionObjectiveView { id: "enter_ember_orchard"@, kind: ObjectiveKind::Escort, target: approach, duration_ticks: 0 },
                MissionObjectiveView { id: "break_orchard_command"@, kind: ObjectiveKind::Destroy, target: objective, duration_ticks: 0 },
                MissionObjectiveView { id: "clear_orchard_base"@, kind: ObjectiveKind::Capture, target: objective, duration_ticks: 620 },
            ],
            CampaignMission::SaltMarshSkirmish => seq![
                MissionObjectiveView { id: "cross_salt_causeway"@, kind: ObjectiveKind::Escort, target: approach, duration_ticks: 0 },
                MissionObjectiveView { id: "break_marsh_pump"@, kind: ObjectiveKind::Destroy, target: objective, duration_ticks: 0 },
                MissionObjectiveView { id: "hold_salt_divide"@, kind: ObjectiveKind::Capture, target: objective, duration_ticks: 580 },
            ],
            CampaignMission::CinderCrownSkirmish => seq![
                MissionObjectiveView { id: "breach_cinder_ring"@, kind: ObjectiveKind::Escort, target: approach, duration_ticks: 0 },
                MissionObjectiveView { id: "destroy_crown_command"@, kind: ObjectiveKind::Destroy, target: objective, duration_ticks: 0 },
                MissionObjectiveView { id: "secure_cinder_crown"@, kind: ObjectiveKind::Capture, target: objective, duration_ticks: 640 },
            ],
    }
}

pub open spec fn spec_for_mission(mission: CampaignMission, map: BattleMapView) -> MissionDefinitionView {
    MissionDefinitionView {
        mission,
        map_id: mission.spec_map_id(),
        title: mission.spec_display_name(),
        objectives: authored_objectives(mission, map.approach_point, map.objective),
    }
}

pub open spec fn msg_mission_identity() -> Seq<char> {
    "mission definition identity/objectives are invalid"@
}

pub open spec fn msg_mission_objective() -> Seq<char> {
    "mission objective is invalid"@
}

/// An objective that cannot be played on `map`.
pub open spec fn objective_defective(o: MissionObjectiveView, map: BattleMapView) -> bool {
    spec_is_blank(o.id) || !map.in_bounds(o.target) || !map.passable(o.target) || (
    o.kind.is_timed() && o.duration_ticks == 0)
}

impl MissionDefinitionView {
    pub open spec fn ids_distinct(self) -> bool {
        forall|i: int, j: int|
            0 <= i < j < self.objectives.len() ==> #[trigger] self.objectives[i].id
                != #[trigger] self.objectives[j].id
    }

    pub open spec fn failure(self, map: BattleMapView) -> Option<Seq<char>> {
        if self.map_id != self.mission.spec_map_id() || self.objectives.len() < 2 {
            Some(msg_mission_identity())
        } else if !self.ids_distinct() || exists|i: int|
            0 <= i < self.objectives.len() && objective_defective(#[trigger] self.objectives[i], map) {
            Some(msg_mission_objective())
        } else {
            None
        }
    }
}

fn objective(id: &str, kind: ObjectiveKind, target: BattleGridPoint, duration_ticks: u32) -> (r: MissionObjectiveDefinition)
    ensures
        r@ == (MissionObjectiveView { id: id@, kind, target, duration_ticks }),
{
    MissionObjectiveDefinition { id: id.to_owned(), kind, target, duration_ticks }
}

impl MissionDefinition {
    pub fn for_mission(mission: CampaignMission, map: &BattleMapSeedV1) -> (r: Self)
        ensures
            r@ == spec_for_mission(mission, map@),
    {
        let objectives = match mission {
            CampaignMission::FirstContact | CampaignMission::AftershockPatrol => vec![
                objective("reach_contact_line", ObjectiveKind::Escort, map.approach_point, 0),
                objective("break_relay_guard", ObjectiveKind::Destroy, map.objective, 0),
                objective("secure_relay", ObjectiveKind::Capture, map.objective, 602),
            ],
            CampaignMission::ConvoyExodus => vec![
                objective("escort_supply_convoy", ObjectiveKind::Escort, map.approach_point, 0),
                objective("hold_signal_generator", ObjectiveKind::Defend, map.approach_point, 260),
                objective("extract_at_north_gate", ObjectiveKind::Extract, map.objective, 80),
            ],
            CampaignMission::MirrorSiege => vec![
                objective("breach_siege_perimeter", ObjectiveKind::Escort, map.approach_point, 0),
                objective("destroy_signal_jammer", ObjectiveKind::Destroy, map.objective, 0),
                objective("reclaim_mirror_gate", ObjectiveKind::Capture, map.objective, 720),
            ],
            CampaignMission::IronDeltaSkirmish => vec![
                objective("take_delta_crossing", ObjectiveKind::Escort, map.approach_point, 0),
                objective("destroy_ash_foundry", ObjectiveKind::Destroy, map.objective, 0),
                objective("hold_iron_delta", ObjectiveKind::Capture, map.objective, 500),
            ],
            CampaignMission::NightWatchCrossingSkirmish => vec![
                objective("screen_night_convoy", ObjectiveKind::Escort, map.approach_point, 0),
                objective("break_ash_beacon", ObjectiveKind::Destroy, map.objective, 0),
                objective("extract_watch_patrol", ObjectiveKind::Extract, map.objective, 80),
            ],
            CampaignMission::GlassBasinSkirmish => vec![
                objective("cross_glass_flats", ObjectiveKind::Escort, map.approach_point, 0),
                objective("disable_basin_array", ObjectiveKind::Destroy, map.objective, 0),
                objective("hold_glass_basin", ObjectiveKind::Capture, map.objective, 560),
            ],
            CampaignMission::EmberOrchardSkirmish => vec![
                objective("enter_ember_orchard", ObjectiveKind::Escort, map.approach_point, 0),
                objective("break_orchard_command", ObjectiveKind::Destroy, map.objective, 0),
                objective("clear_orchard_base", ObjectiveKind::Capture, map.objective, 620),
            ],
            CampaignMission::SaltMarshSkirmish => vec![
                objective("cross_salt_causeway", ObjectiveKind::Escort, map.approach_point, 0),
                objective("break_marsh_pump", ObjectiveKind::Destroy, map.objective, 0),
                objective("hold_salt_divide", ObjectiveKind::Capture, map.objective, 580),
            ],
            CampaignMission::CinderCrownSkirmish => vec![
                objective("breach_cinder_ring", ObjectiveKind::Escort, map.approach_point, 0),
                objective("destroy_crown_command", ObjectiveKind::Destroy, map.objective, 0),
                objective("secure_cinder_crown", ObjectiveKind::Capture, map.objective, 640),
            ],
        };
        let r = Self {
            mission,
            map_id: mission.map_id().to_owned(),
            title: mission.display_name().to_owned(),
            objectives,
        };
        assert(r@.objectives =~= authored_objectives(mission, map@.approach_point, map@.objective));
        r
    }

    #[verifier::loop_isolation(false)]
    pub fn validate(&self, map: &BattleMapSeedV1) -> (r: Result<(), CampaignError>)
        ensures
            match self@.failure(map@) {
                None => r is Ok,
                Some(message) => r matches Err(e) && e.is_contract(message),
            },
    {
        let ghost v = self@;
        let ghost m = map@;
        if !str_eq(self.map_id.as_str(), self.mission.map_id()) || self.objectives.len() < 2 {
            return Err(CampaignError::InvalidContract("mission definition identity/objectives are invalid".to_owned()));
        }
        let n = self.objectives.len();
        let mut i: usize = 0;
        while i < n
            invariant
                v == self@,
                n == self.objectives@.len(),
                n == v.objectives.len(),
                i <= n,
                forall|a: int, b: int| 0 <= a < i && a < b < n ==> #[trigger] v.objectives[a].id != #[trigger] v.objectives[b].id,
            decreases n - i,
        {
            let mut j: usize = i + 1;
            while j < n
                invariant
                    v == self@,
                    n == self.objectives@.len(),
                    n == v.objectives.len(),
                    i < n,
                    i + 1 <= j <= n,
                    forall|a: int, b: int| 0 <= a < i && a < b < n ==> #[trigger] v.objectives[a].id != #[trigger] v.objectives[b].id,
                    forall|b: int| i < b < j ==> v.objectives[i as int].id != #[trigger] v.objectives[b].id,
                decreases n - j,
            {
                if str_eq(self.objectives[i].id.as_str(), self.objectives[j].id.as_str()) {
                    assert(v.objectives[i as int].id == v.objectives[j as int].id);
                    assert(!v.ids_distinct());
                    assert(v.failure(m) == Some(msg_mission_objective()));
                    return Err(CampaignError::InvalidContract("mission objective is invalid".to_owned()));
                }
                j = j + 1;
            }
            i = i + 1;
        }
        assert(v.ids_distinct());
        let mut k: usize = 0;
        while k < n
            invariant
                v == self@,
                m == map@,
                n == self.objectives@.len(),
                n == v.objectives.len(),
                k <= n,
                forall|a: int| 0 <= a < k ==> !objective_defective(#[trigger] v.objectives[a], m),
            decreases n - k,
        {
            let o = &self.objectives[k];
            assert(v.objectives[k as int] == o@);
            let timed = match o.kind {
                ObjectiveKind::Defend | ObjectiveKind::Capture | ObjectiveKind::Extract => true,
                _ => false,
            };
            if is_blank(o.id.as_str()) || !map.in_bounds(o.target) || !map.passable(o.target)
                || timed && o.duration_ticks == 0 {
                assert(objective_defective(v.objectives[k as int], m));
                assert(v.failure(m) == Some(msg_mission_objective()));
                return Err(CampaignError::InvalidContract("mission objective is invalid".to_owned()));
            }
            k = k + 1;
        }
        Ok(())
    }
}

/// Every authored mission definition fits every valid battle map: its
/// objectives are uniquely named, placed on passable anchors, and the held
/// objectives last for a positive number of ticks.
pub proof fn lemma_authored_missions_fit_valid_maps(mission: CampaignMission, map: BattleMapView)
    requires
        map.failure() is None,
    ensures
        spec_for_mission(mission, map).failure(map) is None,
{
    reveal_strlit("reach_contact_line");
    reveal_strlit("break_relay_guard");
    reveal_strlit("secure_relay");
    reveal_strlit("escort_supply_convoy");
    reveal_strlit("hold_signal_generator");
    reveal_strlit("extract_at_north_gate");
    reveal_strlit("breach_siege_perimeter");
    reveal_strlit("destroy_signal_jammer");
    reveal_strlit("reclaim_mirror_gate");
    reveal_strlit("take_delta_crossing");
    reveal_strlit("destroy_ash_foundry");
    reveal_strlit("hold_iron_delta");
    reveal_strlit("screen_night_convoy");
    reveal_strlit("break_ash_beacon");
    reveal_strlit("extract_watch_patrol");
    reveal_strlit("cross_glass_flats");
    reveal_strlit("disable_basin_array");
    reveal_strlit("hold_glass_basin");
    reveal_strlit("enter_ember_orchard");
    reveal_strlit("break_orchard_command");
    reveal_strlit("clear_orchard_base");
    reveal_strlit("cross_salt_causeway");
    reveal_strlit("break_marsh_pump");
    reveal_strlit("hold_salt_divide");
    reveal_strlit("breach_cinder_ring");
    reveal_strlit("destroy_crown_command");
    reveal_strlit("secure_cinder_crown");
    let d = spec_for_mission(mission, map);
    assert(d.objectives.len() == 3);
    assert forall|i: int, j: int| 0 <= i < j < d.objectives.len() implies #[trigger] d.objectives[i].id
        != #[trigger] d.objectives[j].id by {
        assert(d.objectives[i].id.len() != d.objectives[j].id.len()
            || d.objectives[i].id[0] != d.objectives[j].id[0]);
    }
    assert forall|i: int| 0 <= i < d.objectives.len() implies !objective_defective(#[trigger] d.objectives[i], map) by {
        assert(!crate::text::spec_is_whitespace(d.objectives[i].id[0]));
    }
}

} // verus!
