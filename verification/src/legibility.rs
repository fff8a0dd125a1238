//! Factory legibility: the at-a-glance status of a workstation and the
//! warren's pending-haul pressure, so a stalled chain link is diagnosable
//! without opening any panel.

use vstd::prelude::*;
use crate::model::{
    Building, Creature, GameData, GameSession, Job, TilePos, Task, ExpeditionState, Outpost,
    count_where, find_first, find_equipment, job_count, lemma_count_step, lemma_find_skip,
};
use crate::text::str_eq;

verus! {

/// What is wrong with a workstation right now — the in-world status icon.
/// `None` from [`building_status`] means the node is running nominally.
#[derive(Debug, Clone, Copy, PartialEq, Eq, Structural)]
pub enum BuildingStatus {
    /// A workstation with no creature working it (stopped node).
    NoWorker,
    /// A node whose floor is no longer connected to the stockpile.
    NoValidRoute,
    /// Waiting on input goods it can't get (starved).
    InputStarved,
    /// Output buffer is full and backing up — needs a carrier.
    OutputFull,
    /// A Mine whose deposit has run dry.
    Exhausted,
    /// A Farm sitting at its storage cap, idle until a carrier drains it.
    AwaitingHaul,
    /// A remote route that is turned off and needs activation before use. This
    /// is the legend's entry; on the map an inactive outpost reads as starved,
    /// since nothing reaches it until it is switched on.
    RouteInactive,
    /// An awakened remote route with no crew stationed to scout.
    ExpeditionNoCrew,
    /// An awakened remote route whose scouting has been paused by the player.
    ExpeditionPaused,
    /// A staffed remote route that needs more cooked food before scouting.
    ExpeditionNeedsFood,
    /// A remote cargo hold that needs a return trip before scouting can continue.
    ExpeditionHoldFull,
    /// Worm Shrine offerings were paused by the player.
    ShrineOfferingsPaused,
    /// Worm Shrine offerings are waiting for the food reserve.
    ShrineNeedsFood,
    /// Worm Shrine offerings are waiting for the ingot reserve.
    ShrineNeedsIngots,
    /// Spoiled stores are accumulating faster than they are cleaned.
    WasteOverflow,
}

/// The legend text of a status.
pub open spec fn status_label(status: BuildingStatus) -> Seq<char> {
    match status {
        BuildingStatus::NoWorker => "No worker"@,
        BuildingStatus::NoValidRoute => "No valid route"@,
        BuildingStatus::InputStarved => "Starved"@,
        BuildingStatus::OutputFull => "Backed up"@,
        BuildingStatus::Exhausted => "Exhausted"@,
        BuildingStatus::AwaitingHaul => "Awaiting haul"@,
        BuildingStatus::RouteInactive => "Route inactive"@,
        BuildingStatus::ExpeditionNoCrew => "No scout crew"@,
        BuildingStatus::ExpeditionPaused => "Scouting paused"@,
        BuildingStatus::ExpeditionNeedsFood => "Scout food low"@,
        BuildingStatus::ExpeditionHoldFull => "Outpost full"@,
        BuildingStatus::ShrineOfferingsPaused => "Offerings paused"@,
        BuildingStatus::ShrineNeedsFood => "Food reserve low"@,
        BuildingStatus::ShrineNeedsIngots => "Ingot reserve low"@,
        BuildingStatus::WasteOverflow => "Waste accumulating"@,
    }
}

impl BuildingStatus {
    /// A short human label (also the legend text).
    pub fn label(self) -> (s: &'static str)
        ensures
            s@ == status_label(self),
    {
        match self {
            BuildingStatus::NoWorker => "No worker",
            BuildingStatus::NoValidRoute => "No valid route",
            BuildingStatus::InputStarved => "Starved",
            BuildingStatus::OutputFull => "Backed up",
            BuildingStatus::Exhausted => "Exhausted",
            BuildingStatus::AwaitingHaul => "Awaiting haul",
            BuildingStatus::RouteInactive => "Route inactive",
            BuildingStatus::ExpeditionNoCrew => "No scout crew",
            BuildingStatus::ExpeditionPaused => "Scouting paused",
            BuildingStatus::ExpeditionNeedsFood => "Scout food low",
            BuildingStatus::ExpeditionHoldFull => "Outpost full",
            BuildingStatus::ShrineOfferingsPaused => "Offerings paused",
            BuildingStatus::ShrineNeedsFood => "Food reserve low",
            BuildingStatus::ShrineNeedsIngots => "Ingot reserve low",
            BuildingStatus::WasteOverflow => "Waste accumulating",
        }
    }
}

/// Whether the post-campaign specialist and advanced-building controls are
/// available: after the warren is secured with a Guard posted, or once the
/// worm is awake.
pub open spec fn advanced_unlocked(session: GameSession) -> bool {
    (session.won && job_count(session, Job::Guard) > 0) || session.worm_awake
}

/// Whether the post-campaign specialist and advanced-building controls are
/// available in the Jobs and Build panels.
pub fn advanced_systems_unlocked(session: &GameSession) -> (r: bool)
    ensures
        r == advanced_unlocked(*session),
{
    (session.won && session.job_count(Job::Guard) > 0) || session.worm_awake
}

/// The building kinds that only work while a path links them to the
/// stockpile.
pub open spec fn needs_local_route(kind: Seq<char>) -> bool {
    kind == "farm"@ || kind == "mine"@ || kind == "cook_pot"@ || kind == "blacksmith"@
        || kind == "kiln"@ || kind == "smelter"@ || kind == "feeding_trough"@
}

/// Whether a building of this kind needs a path to the stockpile.
pub fn requires_local_route(kind: &str) -> (r: bool)
    ensures
        r == needs_local_route(kind@),
{
    str_eq(kind, "farm") || str_eq(kind, "mine") || str_eq(kind, "cook_pot") || str_eq(
        kind,
        "blacksmith",
    ) || str_eq(kind, "kiln") || str_eq(kind, "smelter") || str_eq(kind, "feeding_trough")
}

/// Whether creature `c` mans the workstation at `pos` for `job`: a local
/// creature in that job (an Engineer also counts as a Miner) whose task is
/// bound to `pos`, or which idles on the tile.
pub open spec fn mans(c: Creature, pos: TilePos, job: Job) -> bool {
    &&& !c.remote
    &&& (c.job == job || (job == Job::Miner && c.job == Job::Engineer))
    &&& match c.task {
        Task::WorkMine(p) | Task::GoMine(p) => p == pos,
        Task::Smithing { shop } | Task::Crafting { shop } | Task::GoSmith(shop) => shop == pos,
        Task::Smelting { den } | Task::GoSmelt(den) => den == pos,
        Task::Cooking { pot } | Task::GoCook(pot) => pot == pos,
        Task::Other => c.tile == pos,
    }
}

/// Whether any creature mans the workstation at `pos` for `job`.
pub open spec fn staffed(session: GameSession, pos: TilePos, job: Job) -> bool {
    exists|i: int| 0 <= i < session.creatures@.len() && mans(#[trigger] session.creatures@[i], pos, job)
}

fn creature_mans(c: &Creature, pos: TilePos, job: Job) -> (r: bool)
    ensures
        r == mans(*c, pos, job),
{
    !c.remote && (c.job == job || (job == Job::Miner && c.job == Job::Engineer)) && match c.task {
        Task::WorkMine(p) | Task::GoMine(p) => p == pos,
        Task::Smithing { shop } | Task::Crafting { shop } | Task::GoSmith(shop) => shop == pos,
        Task::Smelting { den } | Task::GoSmelt(den) => den == pos,
        Task::Cooking { pot } | Task::GoCook(pot) => pot == pos,
        Task::Other => c.tile == pos,
    }
}

/// Is any creature of `job` currently working (or waiting) at `pos`?
pub fn staffed_at(session: &GameSession, pos: TilePos, job: Job) -> (r: bool)
    ensures
        r == staffed(*session, pos, job),
{
    let mut i: usize = 0;
    while i < session.creatures.len()
        invariant
            i <= session.creatures@.len(),
            forall|j: int| 0 <= j < i ==> !mans(#[trigger] session.creatures@[j], pos, job),
        decreases session.creatures@.len() - i,
    {
        if creature_mans(&session.creatures[i], pos, job) {
            return true;
        }
        i += 1;
    }
    false
}

/// The ingots a queued order costs, when its equipment is known.
pub open spec fn first_order_paid(building: Building, data: GameData) -> bool {
    building.orders@.len() > 0 && match find_equipment(data, building.orders@[0]@) {
        Some(e) => building.ingot_milli >= e.cost_ingots * 1000,
        None => false,
    }
}

/// A Blacksmith lacks the ore for a batch and its next order (if any) is not
/// yet paid for in ingots.
pub open spec fn smith_needs_ore(building: Building, data: GameData) -> bool {
    !(building.ore_milli >= data.balance.smith_batch_ore * 1000) && (building.orders@.len() == 0
        || !first_order_paid(building, data))
}

/// Whether an idle Blacksmith is stalled on ore: a queued order is only
/// actionable at once when its ingot cost is already paid.
pub fn blacksmith_needs_ore(building: &Building, data: &GameData) -> (r: bool)
    ensures
        r == smith_needs_ore(*building, *data),
{
    let has_ore = building.ore_milli >= data.balance.smith_batch_ore as i64 * 1000;
    if has_ore {
        return false;
    }
    if building.orders.len() == 0 {
        return true;
    }
    let paid = match data.equipment_def(building.orders[0].as_str()) {
        Some(e) => building.ingot_milli >= e.cost_ingots as i64 * 1000,
        None => false,
    };
    !paid
}

/// The Shrine has not finished its food offerings and the food store is at
/// or below the protected reserve.
pub open spec fn shrine_food_blocked(session: GameSession, data: GameData) -> bool {
    session.worm_fed_milli < data.balance.worm_awaken_at_milli
        && session.economy.food_milli <= data.balance.worm_feed_reserve_milli
}

/// Whether the Shrine is below the food reserve needed to keep its offerings
/// running.
pub fn shrine_waiting_for_food(session: &GameSession, data: &GameData) -> (r: bool)
    ensures
        r == shrine_food_blocked(*session, *data),
{
    session.worm_fed_milli < data.balance.worm_awaken_at_milli
        && session.economy.food_milli <= data.balance.worm_feed_reserve_milli
}

/// Whole food offerings completed so far: food fed divided by the food one
/// offering takes (at least one unit), rounded down, never below zero.
pub open spec fn completed_offerings(session: GameSession, data: GameData) -> int {
    let fed = session.worm_fed_milli as int;
    let per = data.balance.worm_food_per_offering_milli as int;
    let n: int = if data.balance.worm_awaken_ingots > 0 { data.balance.worm_awaken_ingots as int } else { 1 };
    let awaken = data.balance.worm_awaken_at_milli as int;
    let raw: int = if fed <= 0 {
        0
    } else if per > 0 {
        if per >= 1000 { fed / per } else { fed / 1000 }
    } else if awaken >= 1000 * n {
        (fed * n) / awaken
    } else {
        fed / 1000
    };
    if raw > u32::MAX { u32::MAX as int } else { raw }
}

/// The Shrine has earned another ingot offering (or still owes the final
/// ones) but the ingot bank is at or below its protected reserve.
pub open spec fn shrine_ingots_blocked(session: GameSession, data: GameData) -> bool {
    if session.worm_fed_milli >= data.balance.worm_awaken_at_milli {
        session.worm_ingots_fed < data.balance.worm_awaken_ingots
            && session.economy.ingots_stock <= data.balance.worm_ingot_reserve
    } else {
        session.worm_ingots_fed < completed_offerings(session, data) * data.balance.worm_ingots_per_offering
            && session.economy.ingots_stock <= data.balance.worm_ingot_reserve
    }
}

/// Whether the Shrine has earned another food offering but cannot spend the
/// next ingot without dipping below the protected bank reserve.
pub fn shrine_waiting_for_ingots(session: &GameSession, data: &GameData) -> (r: bool)
    ensures
        r == shrine_ingots_blocked(*session, *data),
{
    if session.worm_fed_milli >= data.balance.worm_awaken_at_milli {
        return session.worm_ingots_fed < data.balance.worm_awaken_ingots
            && session.economy.ingots_stock <= data.balance.worm_ingot_reserve;
    }
    let fed = session.worm_fed_milli as i128;
    let per = data.balance.worm_food_per_offering_milli as i128;
    let n: i128 = if data.balance.worm_awaken_ingots > 0 { data.balance.worm_awaken_ingots as i128 } else { 1 };
    let awaken = data.balance.worm_awaken_at_milli as i128;
    let raw: i128 = if fed <= 0 {
        0
    } else if per > 0 {
        if per >= 1000 { fed / per } else { fed / 1000 }
    } else if awaken >= 1000 * n {
        assert(0 < fed * n <= 0x7fff_ffff_ffff_ffff * 0xffff_ffff) by (nonlinear_arith)
            requires
                0 < fed <= 0x7fff_ffff_ffff_ffff,
                1 <= n <= 0xffff_ffff,
        ;
        (fed * n) / awaken
    } else {
        fed / 1000
    };
    let completed: u64 = if raw > u32::MAX as i128 { u32::MAX as u64 } else { raw as u64 };
    let per_offering = data.balance.worm_ingots_per_offering as u64;
    assert(completed * per_offering <= 0xffff_ffff * 0xffff_ffff) by (nonlinear_arith)
        requires
            completed <= 0xffff_ffff,
            per_offering <= 0xffff_ffff,
    ;
    let desired: u64 = completed * per_offering;
    (session.worm_ingots_fed as u64) < desired
        && session.economy.ingots_stock <= data.balance.worm_ingot_reserve
}

/// Mushrooms a Cook Pot batch takes, rounded up to whole mushrooms, in
/// thousandths.
pub open spec fn cook_batch_milli(data: GameData) -> int {
    let exact = data.balance.cook_batch_mushrooms * data.balance.raw_recipe_multiplier_milli;
    (-((-exact) / 1000)) * 1000
}

/// The route with the given position.
pub open spec fn route_at(session: GameSession, pos: TilePos) -> Option<Outpost> {
    find_first(session.outposts@, |o: Outpost| o.pos == pos)
}

/// The status icon to show over a building, or `None` when it's nominal.
pub open spec fn status_of(session: GameSession, data: GameData, b: Building) -> Option<BuildingStatus> {
    let kind = b.kind@;
    if b.waste_milli > 0 {
        Some(BuildingStatus::WasteOverflow)
    } else if needs_local_route(kind) && !b.connected {
        Some(BuildingStatus::NoValidRoute)
    } else if kind == "mine"@ {
        if b.reserve_milli <= 0 {
            Some(BuildingStatus::Exhausted)
        } else if !staffed(session, b.pos, Job::Miner) {
            Some(BuildingStatus::NoWorker)
        } else if b.ore_milli >= data.balance.mine_buffer_cap_milli - 500 {
            Some(BuildingStatus::OutputFull)
        } else {
            None
        }
    } else if kind == "blacksmith"@ {
        if !staffed(session, b.pos, Job::Smith) {
            Some(BuildingStatus::NoWorker)
        } else if smith_needs_ore(b, data) {
            Some(BuildingStatus::InputStarved)
        } else {
            None
        }
    } else if kind == "smelter"@ {
        if !staffed(session, b.pos, Job::Smelter) {
            Some(BuildingStatus::NoWorker)
        } else if b.ore_milli < data.balance.smelt_batch_ore * 1000
            || b.charcoal_milli < data.balance.smelt_batch_charcoal_milli {
            Some(BuildingStatus::InputStarved)
        } else {
            None
        }
    } else if kind == "farm"@ {
        if b.mushroom_milli >= session.farm_cap_milli - 500 {
            Some(BuildingStatus::AwaitingHaul)
        } else {
            None
        }
    } else if kind == "cook_pot"@ {
        if !staffed(session, b.pos, Job::Cook) {
            Some(BuildingStatus::NoWorker)
        } else if b.mushroom_milli < cook_batch_milli(data) {
            Some(BuildingStatus::InputStarved)
        } else {
            None
        }
    } else if kind == "kiln"@ {
        if b.wood_milli <= 0 {
            Some(BuildingStatus::InputStarved)
        } else {
            None
        }
    } else if kind == "outpost"@ {
        match route_at(session, b.pos) {
            None => None,
            Some(o) => if !o.active {
                Some(BuildingStatus::InputStarved)
            } else if !session.worm_awake {
                None
            } else {
                match o.readout.route_expedition {
                    ExpeditionState::Paused => Some(BuildingStatus::ExpeditionPaused),
                    ExpeditionState::NoCrew => Some(BuildingStatus::ExpeditionNoCrew),
                    ExpeditionState::NeedsFood { .. } => Some(BuildingStatus::ExpeditionNeedsFood),
                    ExpeditionState::HoldFull => Some(BuildingStatus::ExpeditionHoldFull),
                    _ => None,
                }
            },
        }
    } else if kind == "worm_shrine"@ {
        if session.worm_awake {
            None
        } else if session.worm_feeding_paused {
            Some(BuildingStatus::ShrineOfferingsPaused)
        } else if shrine_food_blocked(session, data) {
            Some(BuildingStatus::ShrineNeedsFood)
        } else if shrine_ingots_blocked(session, data) {
            Some(BuildingStatus::ShrineNeedsIngots)
        } else {
            None
        }
    } else {
        None
    }
}

/// The index of the route standing at `pos`.
pub fn route_index_at(session: &GameSession, pos: TilePos) -> (res: Option<usize>)
    ensures
        match res {
            Some(i) => i < session.outposts@.len() && route_at(*session, pos) == Some(session.outposts@[i as int])
                && forall|j: int| 0 <= j < i ==> session.outposts@[j].pos != pos,
            None => route_at(*session, pos) is None
                && forall|j: int| 0 <= j < session.outposts@.len() ==> session.outposts@[j].pos != pos,
        },
{
    let ghost p = |o: Outpost| o.pos == pos;
    let mut i: usize = 0;
    assert(session.outposts@.skip(0) =~= session.outposts@);
    while i < session.outposts.len()
        invariant
            p == (|o: Outpost| o.pos == pos),
            i <= session.outposts@.len(),
            find_first(session.outposts@, p) == find_first(session.outposts@.skip(i as int), p),
            forall|j: int| 0 <= j < i ==> session.outposts@[j].pos != pos,
        decreases session.outposts@.len() - i,
    {
        proof {
            lemma_find_skip(session.outposts@, i as int, p);
        }
        if session.outposts[i].pos == pos {
            return Some(i);
        }
        i += 1;
    }
    assert(session.outposts@.skip(i as int).len() == 0);
    None
}

/// The status icon to show over `building`, or `None` when it's nominal.
/// Waste outranks everything, then a broken route to the stockpile, then the
/// kind-specific stalls.
pub fn building_status(session: &GameSession, data: &GameData, building: &Building) -> (res: Option<BuildingStatus>)
    ensures
        res == status_of(*session, *data, *building),
{
    let kind = building.kind.as_str();
    let pos = building.pos;
    if building.waste_milli > 0 {
        return Some(BuildingStatus::WasteOverflow);
    }
    if requires_local_route(kind) && !building.connected {
        return Some(BuildingStatus::NoValidRoute);
    }
    if str_eq(kind, "mine") {
        if building.reserve_milli <= 0 {
            return Some(BuildingStatus::Exhausted);
        }
        if !staffed_at(session, pos, Job::Miner) {
            return Some(BuildingStatus::NoWorker);
        }
        if building.ore_milli as i128 >= data.balance.mine_buffer_cap_milli as i128 - 500 {
            return Some(BuildingStatus::OutputFull);
        }
        None
    } else if str_eq(kind, "blacksmith") {
        if !staffed_at(session, pos, Job::Smith) {
            return Some(BuildingStatus::NoWorker);
        }
        if blacksmith_needs_ore(building, data) {
            return Some(BuildingStatus::InputStarved);
        }
        None
    } else if str_eq(kind, "smelter") {
        if !staffed_at(session, pos, Job::Smelter) {
            return Some(BuildingStatus::NoWorker);
        }
        if building.ore_milli < data.balance.smelt_batch_ore as i64 * 1000
            || building.charcoal_milli < data.balance.smelt_batch_charcoal_milli {
            return Some(BuildingStatus::InputStarved);
        }
        None
    } else if str_eq(kind, "farm") {
        if building.mushroom_milli as i128 >= session.farm_cap_milli as i128 - 500 {
            return Some(BuildingStatus::AwaitingHaul);
        }
        None
    } else if str_eq(kind, "cook_pot") {
        if !staffed_at(session, pos, Job::Cook) {
            return Some(BuildingStatus::NoWorker);
        }
        let batch = data.balance.cook_batch_mushrooms as i128;
        let mult = data.balance.raw_recipe_multiplier_milli as i128;
        assert(-0x8000_0000_0000_0000 * 0xffff_ffff <= batch * mult <= 0x7fff_ffff_ffff_ffff * 0xffff_ffff) by (nonlinear_arith)
            requires
                0 <= batch <= 0xffff_ffff,
                -0x8000_0000_0000_0000 <= mult <= 0x7fff_ffff_ffff_ffff,
        ;
        let exact: i128 = batch * mult;
        let whole: i128 = if exact >= 0 { (exact + 999) / 1000 } else { -((-exact) / 1000) };
        proof {
            assert(whole == -((-exact) / 1000)) by (nonlinear_arith)
                requires
                    whole == (if exact >= 0 { (exact + 999) / 1000 } else { -((-exact) / 1000) }),
            {
            }
        }
        if (building.mushroom_milli as i128) < whole * 1000 {
            return Some(BuildingStatus::InputStarved);
        }
        None
    } else if str_eq(kind, "kiln") {
        if building.wood_milli <= 0 {
            return Some(BuildingStatus::InputStarved);
        }
        None
    } else if str_eq(kind, "outpost") {
        match route_index_at(session, pos) {
            None => None,
            Some(i) => {
                let o = &session.outposts[i];
                if !o.active {
                    Some(BuildingStatus::InputStarved)
                } else if !session.worm_awake {
                    None
                } else {
                    match o.readout.route_expedition {
                        ExpeditionState::Paused => Some(BuildingStatus::ExpeditionPaused),
                        ExpeditionState::NoCrew => Some(BuildingStatus::ExpeditionNoCrew),
                        ExpeditionState::NeedsFood { .. } => Some(BuildingStatus::ExpeditionNeedsFood),
                        ExpeditionState::HoldFull => Some(BuildingStatus::ExpeditionHoldFull),
                        _ => None,
                    }
                }
            },
        }
    } else if str_eq(kind, "worm_shrine") {
        if session.worm_awake {
            None
        } else if session.worm_feeding_paused {
            Some(BuildingStatus::ShrineOfferingsPaused)
        } else if shrine_waiting_for_food(session, data) {
            Some(BuildingStatus::ShrineNeedsFood)
        } else if shrine_waiting_for_ingots(session, data) {
            Some(BuildingStatus::ShrineNeedsIngots)
        } else {
            None
        }
    } else {
        None
    }
}

/// A building holds goods that a carrier should move.
pub open spec fn haul_waiting(b: Building) -> bool {
    ||| b.kind@ == "mine"@ && b.ore_milli >= 1000
    ||| b.kind@ == "farm"@ && b.mushroom_milli >= 1000
    ||| b.kind@ == "smelter"@ && b.ingot_milli >= 1000
    ||| b.kind@ == "blacksmith"@ && b.ingot_milli >= 1000 && b.orders@.len() == 0
}

/// Rough count of pending haul jobs: pickup points holding goods that want
/// moving, plus open construction.
pub open spec fn pending_haul_count(session: GameSession) -> nat {
    count_where(session.buildings@, |b: Building| haul_waiting(b))
        + count_where(session.build_sites@, |s: crate::model::BuildSite| s.remaining > 0)
}

fn building_haul_waiting(b: &Building) -> (r: bool)
    ensures
        r == haul_waiting(*b),
{
    let kind = b.kind.as_str();
    if str_eq(kind, "mine") {
        if b.ore_milli >= 1000 {
            return true;
        }
    }
    if str_eq(kind, "farm") {
        if b.mushroom_milli >= 1000 {
            return true;
        }
    }
    if str_eq(kind, "smelter") {
        if b.ingot_milli >= 1000 {
            return true;
        }
    }
    str_eq(kind, "blacksmith") && b.ingot_milli >= 1000 && b.orders.len() == 0
}

/// Rough count of pending haul jobs — pickup points holding goods that want
/// moving, plus open construction. Turns "should I add a carrier?" into a
/// read instead of a guess.
pub fn pending_hauls(session: &GameSession) -> (n: usize)
    requires
        session.buildings@.len() + session.build_sites@.len() <= usize::MAX,
    ensures
        n == pending_haul_count(*session),
{
    let ghost pb = |b: Building| haul_waiting(b);
    let ghost ps = |s: crate::model::BuildSite| s.remaining > 0;
    let mut n: usize = 0;
    let mut i: usize = 0;
    while i < session.buildings.len()
        invariant
            pb == (|b: Building| haul_waiting(b)),
            i <= session.buildings@.len(),
            n == count_where(session.buildings@.take(i as int), pb),
            n <= i,
        decreases session.buildings@.len() - i,
    {
        proof {
            lemma_count_step(session.buildings@, i as int, pb);
        }
        if building_haul_waiting(&session.buildings[i]) {
            n += 1;
        }
        i += 1;
    }
    assert(session.buildings@.take(i as int) =~= session.buildings@);
    let ghost first = n;
    let mut m: usize = 0;
    let mut k: usize = 0;
    while k < session.build_sites.len()
        invariant
            ps == (|s: crate::model::BuildSite| s.remaining > 0),
            k <= session.build_sites@.len(),
            m == count_where(session.build_sites@.take(k as int), ps),
            m <= k,
        decreases session.build_sites@.len() - k,
    {
        proof {
            lemma_count_step(session.build_sites@, k as int, ps);
        }
        if session.build_sites[k].remaining > 0 {
            m += 1;
        }
        k += 1;
    }
    assert(session.build_sites@.take(k as int) =~= session.build_sites@);
    n + m
}

} // verus!
