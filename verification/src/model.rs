//! A snapshot of the colony that the HUD reads: creatures, buildings,
//! remote routes, the economy and the data-driven balance tables.
//!
//! Quantities that the simulation keeps as fractional amounts (food, ore
//! stock, deposits, timers) are held here in thousandths of a unit, in fields
//! whose names end in `_milli`. Values the simulation derives from the world
//! (route capacities, expedition states, contract progress, counter readings)
//! are carried in the snapshot as plain numbers.

use vstd::prelude::*;
use crate::text::str_eq;

verus! {

// ---------------------------------------------------------------------------
// Sequence helpers used by the contracts.

/// How many items of `s` satisfy `p`.
pub open spec fn count_where<A>(s: Seq<A>, p: spec_fn(A) -> bool) -> nat
    decreases s.len(),
{
    if s.len() == 0 {
        0
    } else {
        count_where(s.drop_last(), p) + (if p(s.last()) { 1nat } else { 0nat })
    }
}

/// The first item of `s` that satisfies `p`.
pub open spec fn find_first<A>(s: Seq<A>, p: spec_fn(A) -> bool) -> Option<A>
    decreases s.len(),
{
    if s.len() == 0 {
        None
    } else if p(s[0]) {
        Some(s[0])
    } else {
        find_first(s.drop_first(), p)
    }
}

/// The index of the first item of `s` that satisfies `p`.
pub open spec fn find_first_index<A>(s: Seq<A>, p: spec_fn(A) -> bool) -> Option<nat>
    decreases s.len(),
{
    if s.len() == 0 {
        None
    } else if p(s[0]) {
        Some(0nat)
    } else {
        match find_first_index(s.drop_first(), p) {
            Some(i) => Some(i + 1),
            None => None,
        }
    }
}

/// Sum of `f` over the items of `s`.
pub open spec fn sum_of<A>(s: Seq<A>, f: spec_fn(A) -> nat) -> nat
    decreases s.len(),
{
    if s.len() == 0 {
        0
    } else {
        sum_of(s.drop_last(), f) + f(s.last())
    }
}

/// Counting one more item extends the count by whether it matches.
pub proof fn lemma_count_step<A>(s: Seq<A>, i: int, p: spec_fn(A) -> bool)
    requires
        0 <= i < s.len(),
    ensures
        count_where(s.take(i + 1), p) == count_where(s.take(i), p) + (if p(s[i]) { 1nat } else { 0nat }),
{
    assert(s.take(i + 1).drop_last() =~= s.take(i));
}

/// Summing one more item extends the sum by its value.
pub proof fn lemma_sum_step<A>(s: Seq<A>, i: int, f: spec_fn(A) -> nat)
    requires
        0 <= i < s.len(),
    ensures
        sum_of(s.take(i + 1), f) == sum_of(s.take(i), f) + f(s[i]),
{
    assert(s.take(i + 1).drop_last() =~= s.take(i));
}

/// Searching from position `i` finds what searching from `i + 1` finds when
/// item `i` does not match.
pub proof fn lemma_find_skip<A>(s: Seq<A>, i: int, p: spec_fn(A) -> bool)
    requires
        0 <= i < s.len(),
    ensures
        find_first(s.skip(i), p) == (if p(s[i]) { Some(s[i]) } else { find_first(s.skip(i + 1), p) }),
        find_first_index(s.skip(i), p) == (if p(s[i]) { Some(0nat) } else {
            match find_first_index(s.skip(i + 1), p) {
                Some(k) => Some(k + 1),
                None => None,
            }
        }),
{
    assert(s.skip(i).drop_first() =~= s.skip(i + 1));
}

/// A count never exceeds the number of items counted.
pub proof fn lemma_count_le_len<A>(s: Seq<A>, p: spec_fn(A) -> bool)
    ensures
        count_where(s, p) <= s.len(),
    decreases s.len(),
{
    if s.len() > 0 {
        lemma_count_le_len(s.drop_last(), p);
    }
}

/// Counting with a weaker predicate counts at least as many items.
pub proof fn lemma_count_monotone<A>(s: Seq<A>, p: spec_fn(A) -> bool, q: spec_fn(A) -> bool)
    requires
        forall|x: A| #[trigger] p(x) ==> q(x),
    ensures
        count_where(s, p) <= count_where(s, q),
    decreases s.len(),
{
    if s.len() > 0 {
        lemma_count_monotone(s.drop_last(), p, q);
    }
}

/// Items that satisfy `p` and items that satisfy `q`, for complementary
/// predicates, together make up the whole sequence.
pub proof fn lemma_count_complement<A>(s: Seq<A>, p: spec_fn(A) -> bool, q: spec_fn(A) -> bool)
    requires
        forall|x: A| #[trigger] p(x) == !q(x),
    ensures
        count_where(s, p) + count_where(s, q) == s.len(),
    decreases s.len(),
{
    if s.len() > 0 {
        lemma_count_complement(s.drop_last(), p, q);
        assert(p(s.last()) == !q(s.last()));
    }
}

/// Counting over two sequences of one length, where every item the first
/// count takes is matched at the same place in the second, counts at least
/// as many in the second.
pub proof fn lemma_count_pointwise<A>(s: Seq<A>, t: Seq<A>, p: spec_fn(A) -> bool)
    requires
        s.len() == t.len(),
        forall|k: int| 0 <= k < s.len() && #[trigger] p(s[k]) ==> p(t[k]),
    ensures
        count_where(s, p) <= count_where(t, p),
    decreases s.len(),
{
    if s.len() > 0 {
        let (s1, t1) = (s.drop_last(), t.drop_last());
        assert forall|k: int| 0 <= k < s1.len() && #[trigger] p(s1[k]) implies p(t1[k]) by {
            assert(s1[k] == s[k] && t1[k] == t[k]);
        }
        lemma_count_pointwise(s1, t1, p);
        assert(p(s[s.len() - 1]) ==> p(t[t.len() - 1]));
    }
}

/// Replacing one item changes the count by what the old and the new item
/// contribute.
pub proof fn lemma_count_update<A>(s: Seq<A>, i: int, x: A, p: spec_fn(A) -> bool)
    requires
        0 <= i < s.len(),
    ensures
        count_where(s.update(i, x), p) + (if p(s[i]) { 1nat } else { 0nat })
            == count_where(s, p) + (if p(x) { 1nat } else { 0nat }),
    decreases s.len(),
{
    let t = s.update(i, x);
    if i == s.len() - 1 {
        assert(t.drop_last() =~= s.drop_last());
    } else {
        assert(t.drop_last() =~= s.drop_last().update(i, x));
        lemma_count_update(s.drop_last(), i, x, p);
    }
}

/// The first item that satisfies the predicate is what `find_first` returns.
pub proof fn lemma_find_first_at<A>(s: Seq<A>, p: spec_fn(A) -> bool, i: int)
    requires
        0 <= i < s.len(),
        p(s[i]),
        forall|j: int| 0 <= j < i ==> !p(#[trigger] s[j]),
    ensures
        find_first(s, p) == Some(s[i]),
{
    lemma_find_first_is_first(s, p);
    match find_first(s, p) {
        Some(x) => {
            let k = choose|k: int|
                0 <= k < s.len() && s[k] == x && p(x) && (forall|j: int| 0 <= j < k ==> !p(#[trigger] s[j]));
            if k < i {
                assert(!p(s[k]));
            } else if k > i {
                assert(!p(s[i]));
            }
        },
        None => {
            assert(!p(s[i]));
        },
    }
}

/// What `find_first` returns is an item of the sequence that satisfies the
/// predicate, and no earlier item does; `None` means no item does.
pub proof fn lemma_find_first_is_first<A>(s: Seq<A>, p: spec_fn(A) -> bool)
    ensures
        match find_first(s, p) {
            Some(x) => exists|i: int|
                0 <= i < s.len() && s[i] == x && p(x) && (forall|j: int| 0 <= j < i ==> !p(#[trigger] s[j])),
            None => forall|j: int| 0 <= j < s.len() ==> !p(#[trigger] s[j]),
        },
    decreases s.len(),
{
    if s.len() > 0 {
        let t = s.drop_first();
        lemma_find_first_is_first(t, p);
        if !p(s[0]) {
            match find_first(t, p) {
                Some(x) => {
                    let i = choose|i: int|
                        0 <= i < t.len() && t[i] == x && p(x) && (forall|j: int| 0 <= j < i ==> !p(#[trigger] t[j]));
                    assert(s[i + 1] == x);
                    assert forall|j: int| 0 <= j < i + 1 implies !p(#[trigger] s[j]) by {
                        if j > 0 {
                            assert(s[j] == t[j - 1]);
                        }
                    }
                },
                None => {
                    assert forall|j: int| 0 <= j < s.len() implies !p(#[trigger] s[j]) by {
                        if j > 0 {
                            assert(s[j] == t[j - 1]);
                        }
                    }
                },
            }
        }
    }
}

// ---------------------------------------------------------------------------
// Positions, jobs and creatures.

/// A tile coordinate in the warren grid.
#[derive(Debug, Clone, Copy, PartialEq, Eq, Structural)]
pub struct TilePos {
    pub x: i32,
    pub y: i32,
}

impl TilePos {
    /// The tile at column `x`, row `y`.
    pub fn new(x: i32, y: i32) -> (p: TilePos)
        ensures
            p.x == x,
            p.y == y,
    {
        TilePos { x, y }
    }
}

/// A creature's assigned role.
#[derive(Debug, Clone, Copy, PartialEq, Eq, Structural)]
pub enum Job {
    Miner,
    Carrier,
    Cook,
    Smith,
    Smelter,
    Engineer,
    Guard,
    Janitor,
    Courier,
    Idle,
}

/// The name a role has in the Jobs panel.
pub open spec fn job_label(job: Job) -> Seq<char> {
    match job {
        Job::Miner => "Miner"@,
        Job::Carrier => "Carrier"@,
        Job::Cook => "Cook"@,
        Job::Smith => "Smith"@,
        Job::Smelter => "Smelter"@,
        Job::Engineer => "Engineer"@,
        Job::Guard => "Guard"@,
        Job::Janitor => "Janitor"@,
        Job::Courier => "Courier"@,
        Job::Idle => "Idle"@,
    }
}

impl Job {
    /// The name of the role in the Jobs panel.
    pub fn label(self) -> (s: &'static str)
        ensures
            s@ == job_label(self),
    {
        match self {
            Job::Miner => "Miner",
            Job::Carrier => "Carrier",
            Job::Cook => "Cook",
            Job::Smith => "Smith",
            Job::Smelter => "Smelter",
            Job::Engineer => "Engineer",
            Job::Guard => "Guard",
            Job::Janitor => "Janitor",
            Job::Courier => "Courier",
            Job::Idle => "Idle",
        }
    }
}

/// What a creature is doing right now, with the workstation it is bound to.
#[derive(Debug, Clone, Copy, PartialEq, Eq, Structural)]
pub enum Task {
    WorkMine(TilePos),
    GoMine(TilePos),
    Smithing { shop: TilePos },
    Crafting { shop: TilePos },
    GoSmith(TilePos),
    Smelting { den: TilePos },
    GoSmelt(TilePos),
    Cooking { pot: TilePos },
    GoCook(TilePos),
    /// Any task that binds the creature to no workstation.
    Other,
}

/// A creature of the colony.
#[derive(Debug, Clone)]
pub struct Creature {
    /// Species id from the data tables, such as `goblin`.
    pub species: String,
    pub job: Job,
    /// Stationed on a remote route rather than in the warren.
    pub remote: bool,
    /// Carrying goods right now.
    pub carrying: bool,
    /// The tile the creature stands on.
    pub tile: TilePos,
    pub task: Task,
}

// ---------------------------------------------------------------------------
// Buildings and remote routes.

/// A placed building and the goods it holds.
#[derive(Debug, Clone)]
pub struct Building {
    /// Building kind id, such as `mine` or `blacksmith`.
    pub kind: String,
    pub pos: TilePos,
    /// Ore left in a Mine's deposit.
    pub reserve_milli: i64,
    /// Spoiled stores piling up at the building.
    pub waste_milli: i64,
    pub ore_milli: i64,
    pub mushroom_milli: i64,
    pub charcoal_milli: i64,
    pub ingot_milli: i64,
    pub wood_milli: i64,
    /// Queued equipment orders (equipment ids), first in line first.
    pub orders: Vec<String>,
    /// A walkable path links the building to the stockpile.
    pub connected: bool,
}

/// Construction that still waits for ore.
#[derive(Debug, Clone)]
pub struct BuildSite {
    pub kind: String,
    /// Ore still to be delivered.
    pub remaining: u32,
}

/// The state a remote route's expedition is in, as the simulation reports it.
#[derive(Debug, Clone, Copy, PartialEq, Eq, Structural)]
pub enum ExpeditionState {
    Inactive,
    NoCrew,
    Paused,
    NeedsFood { required: u32, available: u32 },
    HoldFull,
    Scouting { progress_percent: u32, ore_yield: u32, food_cost: u32 },
}

/// Values the simulation derives for one remote route.
#[derive(Debug, Clone)]
pub struct RouteReadout {
    /// Expedition state judged with the whole colony in view.
    pub expedition: ExpeditionState,
    /// Expedition state judged from the route alone (used by map badges).
    pub route_expedition: ExpeditionState,
    pub storage_capacity: u32,
    pub crew_capacity: u32,
    pub ore_per_crew: u32,
    /// Ingots the Signal Cache adds per haul.
    pub cache_ingots_per_haul: u32,
    /// Ingots the Wormsong Chorus adds per haul.
    pub chorus_ingots_per_haul: u32,
    /// Whether the route currently earns a Wormsong bonus.
    pub wormsong_bonus: bool,
    /// The long bonus description, when the route has one.
    pub bonus_summary: Option<String>,
    /// Length of one scouting cycle.
    pub cycle_milli: u64,
    /// Length of one worm transit on this route.
    pub transit_milli: u64,
    /// Whether the warren has any payload it could load onto this route.
    pub loadable_payload: bool,
    /// The route's own hold size, before network bonuses.
    pub hold_capacity: u32,
    /// What one press of Load would send out, by the route's load order.
    pub load_preview: CargoLoad,
}

/// Goods of one outbound load.
#[derive(Debug, Clone, Copy)]
pub struct CargoLoad {
    pub ore: u32,
    pub ingots: u32,
    pub food: u32,
}

/// Which goods a route's Load button takes first.
#[derive(Debug, Clone, Copy, PartialEq, Eq, Structural)]
pub enum CargoPriority {
    Ore,
    Ingots,
    Food,
}

/// The button text of a load order.
pub open spec fn cargo_priority_label(p: CargoPriority) -> Seq<char> {
    match p {
        CargoPriority::Ore => "Ore first"@,
        CargoPriority::Ingots => "Ingots first"@,
        CargoPriority::Food => "Food first"@,
    }
}

impl CargoPriority {
    /// The load order as the route controls name it.
    pub fn label(self) -> (s: &'static str)
        ensures
            s@ == cargo_priority_label(self),
    {
        match self {
            CargoPriority::Ore => "Ore first",
            CargoPriority::Ingots => "Ingots first",
            CargoPriority::Food => "Food first",
        }
    }
}

/// A remote Worm Outpost route.
#[derive(Debug, Clone)]
pub struct Outpost {
    pub pos: TilePos,
    pub active: bool,
    /// Goods held in the route's hold.
    pub cargo_total: u32,
    /// Scouts stationed on the route.
    pub crew: usize,
    pub crew_dispatch_limit: Option<u32>,
    /// The goods the Load button takes first.
    pub cargo_priority: CargoPriority,
    pub auto_load: bool,
    pub auto_return_cargo: bool,
    pub auto_resupply_food: bool,
    pub expedition_paused: bool,
    pub storage_upgraded: bool,
    pub crew_upgraded: bool,
    pub survey_upgraded: bool,
    pub resonator_upgraded: bool,
    pub deep_survey_upgraded: bool,
    pub signal_cache_upgraded: bool,
    pub waypoint_upgraded: bool,
    /// The last run on the route failed.
    pub failed: bool,
    pub ore_scouted: u32,
    pub signal_cache_ingots: u32,
    pub chorus_ingots: u32,
    pub readout: RouteReadout,
}

/// Which way the worm is travelling.
#[derive(Debug, Clone, Copy, PartialEq, Eq, Structural)]
pub enum TransitDirection {
    ToOutpost,
    ToShrine,
}

/// The worm's current trip between the shrine and a route.
#[derive(Debug, Clone)]
pub struct WormTransit {
    pub outpost: TilePos,
    pub direction: TransitDirection,
    pub remaining_milli: i64,
    pub ore: u32,
    pub ingots: u32,
    pub food_milli: i64,
    pub passengers: usize,
}

/// The colony's stores and totals.
#[derive(Debug, Clone)]
pub struct Economy {
    pub food_milli: i64,
    pub ore_stock: u32,
    pub ingots_stock: u32,
    pub ingots_forged: u32,
    pub ore_delivered_total: u32,
}

/// Contract progress across the route network, as the simulation counts it.
#[derive(Debug, Clone)]
pub struct NetworkProgress {
    pub archive: u32,
    pub total_expeditions: u32,
    pub relay_routes: u32,
    pub relay_hauls: u32,
    pub convoy_routes: u32,
    pub convoy_hauls: u32,
    pub muster_routes: u32,
    pub muster_hauls: u32,
    pub concord_roles: u32,
    pub concord_routes: u32,
    pub circuit_complete: u32,
    pub circuit_active: u32,
    pub chorus_complete: u32,
    pub chorus_active: u32,
    pub encore: u32,
}

/// A named progress counter that unlocks compare against.
#[derive(Debug, Clone)]
pub struct Counter {
    pub name: String,
    pub value: u32,
}

/// The next job the automatic route planner would run.
#[derive(Debug, Clone)]
pub struct AutomaticPreview {
    pub outpost: TilePos,
    pub job_label: String,
}

/// Everything the HUD reads about a running colony.
#[derive(Debug, Clone)]
pub struct GameSession {
    pub creatures: Vec<Creature>,
    pub buildings: Vec<Building>,
    pub build_sites: Vec<BuildSite>,
    pub outposts: Vec<Outpost>,
    pub economy: Economy,
    /// Ids of the unlocks granted so far.
    pub unlocked: Vec<String>,
    pub won: bool,
    pub factory_complete: bool,
    pub worm_awake: bool,
    /// The warren-secured report has been dismissed.
    pub victory_shown: bool,
    /// The factory-complete report has been dismissed.
    pub factory_shown: bool,
    /// The worm-awakened report has been dismissed.
    pub worm_shown: bool,
    pub worm_feeding_paused: bool,
    pub worm_fed_milli: i64,
    pub worm_ingots_fed: u32,
    pub outpost_charter_claimed: bool,
    pub outpost_archive_claims: u32,
    pub outpost_relay_claimed: bool,
    pub outpost_convoy_claims: u32,
    pub outpost_muster_claims: u32,
    pub outpost_concord_claimed: bool,
    pub outpost_circuit_claimed: bool,
    pub outpost_encore_claims: u32,
    pub outpost_chorus_claimed: bool,
    pub worm_transit: Option<WormTransit>,
    pub stockpile_pos: TilePos,
    /// Room the warren's dug floor offers for local creatures.
    pub warren_capacity: usize,
    /// Deliveries completed by courier runs.
    pub courier_deliveries: u32,
    /// Simulated time since the warren was founded.
    pub elapsed_milli: u64,
    /// The simulation finds the warren cannot staff the Guard post any more.
    pub non_viable: bool,
    /// How much more a Beetle carries thanks to study adaptations.
    pub beetle_carry_multiplier_milli: i64,
    /// Current time between Breeding Pit hatches.
    pub breeding_interval_milli: i64,
    /// Captured specimens housed in the Study Pen.
    pub specimens: u32,
    /// How many mushrooms a Farm holds before it idles.
    pub farm_cap_milli: i64,
    pub network: NetworkProgress,
    pub counters: Vec<Counter>,
    pub automatic_preview: Option<AutomaticPreview>,
    /// A raid is under way.
    pub raid_active: bool,
    /// Time until the next raid.
    pub raid_in_milli: i64,
    /// The worm's last run failed and nobody has looked at the route since.
    pub last_transit_failure: bool,
    /// Time until the food store runs out at the current rate, when it is
    /// falling.
    pub food_empty_in_milli: Option<i64>,
}

/// The numeric balance table.
#[derive(Debug, Clone)]
pub struct Balance {
    pub outpost_charter_haul_goal: u32,
    pub outpost_charter_reward_ingots: u32,
    pub outpost_archive_haul_goal: u32,
    pub outpost_archive_reward_ingots: u32,
    pub outpost_relay_route_goal: u32,
    pub outpost_relay_haul_goal: u32,
    pub outpost_relay_reward_ingots: u32,
    pub outpost_convoy_route_goal: u32,
    pub outpost_convoy_haul_goal: u32,
    pub outpost_convoy_reward_ingots: u32,
    pub outpost_muster_route_goal: u32,
    pub outpost_muster_haul_goal: u32,
    pub outpost_muster_reward_ingots: u32,
    pub outpost_concord_role_goal: u32,
    pub outpost_concord_reward_ingots: u32,
    pub outpost_circuit_route_goal: u32,
    pub outpost_circuit_reward_ingots: u32,
    pub outpost_encore_haul_goal: u32,
    pub outpost_encore_reward_ingots: u32,
    pub outpost_chorus_route_goal: u32,
    pub outpost_chorus_reward_ingots: u32,
    pub outpost_chorus_ingots_per_haul: u32,
    pub outpost_upgrade_ingots: u32,
    pub outpost_crew_upgrade_ingots: u32,
    pub outpost_survey_upgrade_ingots: u32,
    pub outpost_resonator_upgrade_ingots: u32,
    pub outpost_deep_survey_upgrade_ingots: u32,
    pub outpost_signal_cache_upgrade_ingots: u32,
    pub outpost_waypoint_upgrade_ingots: u32,
    pub order_queue_size: usize,
    pub smith_batch_ore: u32,
    pub smelt_batch_ore: u32,
    pub smelt_batch_charcoal_milli: i64,
    pub cook_batch_mushrooms: u32,
    pub raw_recipe_multiplier_milli: i64,
    pub mine_buffer_cap_milli: i64,
    pub worm_feed_reserve_milli: i64,
    pub worm_awaken_at_milli: i64,
    pub worm_awaken_ingots: u32,
    /// Food the Worm Shrine draws per minute while offering.
    pub worm_food_per_min_milli: i64,
    pub worm_food_per_offering_milli: i64,
    pub worm_ingots_per_offering: u32,
    pub worm_ingot_reserve: u32,
    pub win_food_surplus_milli: i64,
    pub win_ore_delivered: u32,
    pub win2_ingots: u32,
    pub overseer_aura_mult_milli: i64,
    /// Scouts one route's camp holds before any upgrade.
    pub outpost_capacity: usize,
    /// Ingots the Signal Cache adds per haul.
    pub outpost_signal_cache_ingots_per_haul: u32,
    /// Base time between Breeding Pit hatches.
    pub breed_interval_milli: i64,
    /// How long before a raid the HUD starts warning.
    pub raid_warning_milli: i64,
    /// How long before the food runs out the HUD starts warning.
    pub food_warning_milli: i64,
    /// Ore it takes to attract a Beetle.
    pub beetle_ore_cost: u32,
    /// Ore it takes to attract a Salamander.
    pub salamander_ore_cost: u32,
    /// Banked ingots it takes to breed a Hobgoblin.
    pub hobgoblin_ingot_cost: u32,
    /// Banked ingots it takes to breed an Overseer.
    pub overseer_ingot_cost: u32,
    /// Banked ingots it takes to breed an Engineer.
    pub engineer_ingot_cost: u32,
}

/// A data-driven unlock: reaching `threshold` on `counter` grants `id`.
#[derive(Debug, Clone)]
pub struct Unlock {
    pub id: String,
    pub counter: String,
    pub threshold: u32,
}

/// A species definition from the data tables.
#[derive(Debug, Clone)]
pub struct SpeciesDef {
    pub id: String,
    /// The name the HUD shows, such as `Goblin Overseer`.
    pub name: String,
    pub reassignable: bool,
    /// The species eats cooked food.
    pub eats_food: bool,
    pub food_per_min_milli: i64,
    pub work_mult_milli: i64,
}

/// An equipment definition that the Blacksmith can forge.
#[derive(Debug, Clone)]
pub struct EquipmentDef {
    pub id: String,
    pub name: String,
    pub cost_ingots: u32,
}

/// The data tables the game is configured with.
#[derive(Debug, Clone)]
pub struct GameData {
    pub balance: Balance,
    pub unlocks: Vec<Unlock>,
    pub species: Vec<SpeciesDef>,
    pub equipment: Vec<EquipmentDef>,
}

// ---------------------------------------------------------------------------
// Lookups.

/// Matches the unlock with id `id`.
pub open spec fn unlock_named(id: Seq<char>) -> spec_fn(Unlock) -> bool {
    |u: Unlock| u.id@ == id
}

/// Matches the species with id `id`.
pub open spec fn species_named(id: Seq<char>) -> spec_fn(SpeciesDef) -> bool {
    |s: SpeciesDef| s.id@ == id
}

/// Matches the equipment with id `id`.
pub open spec fn equipment_named(id: Seq<char>) -> spec_fn(EquipmentDef) -> bool {
    |e: EquipmentDef| e.id@ == id
}

/// Matches the counter called `name`.
pub open spec fn counter_named(name: Seq<char>) -> spec_fn(Counter) -> bool {
    |c: Counter| c.name@ == name
}

/// Matches creatures in `job`.
pub open spec fn has_job(job: Job) -> spec_fn(Creature) -> bool {
    |c: Creature| c.job == job
}

/// Matches creatures living in the warren.
pub open spec fn is_local() -> spec_fn(Creature) -> bool {
    |c: Creature| !c.remote
}

/// Matches creatures stationed on a remote route.
pub open spec fn is_remote() -> spec_fn(Creature) -> bool {
    |c: Creature| c.remote
}

/// The first unlock whose id is `id`.
pub open spec fn find_unlock(data: GameData, id: Seq<char>) -> Option<Unlock> {
    find_first(data.unlocks@, unlock_named(id))
}

/// The species definition with id `id`.
pub open spec fn find_species(data: GameData, id: Seq<char>) -> Option<SpeciesDef> {
    find_first(data.species@, species_named(id))
}

/// The equipment definition with id `id`.
pub open spec fn find_equipment(data: GameData, id: Seq<char>) -> Option<EquipmentDef> {
    find_first(data.equipment@, equipment_named(id))
}

/// The reading of the counter named `name` (zero when the simulation keeps
/// no such counter).
pub open spec fn counter_value(session: GameSession, name: Seq<char>) -> nat {
    match find_first(session.counters@, counter_named(name)) {
        Some(c) => c.value as nat,
        None => 0,
    }
}

/// Whether the unlock `id` has been granted.
pub open spec fn is_unlocked(session: GameSession, id: Seq<char>) -> bool {
    exists|i: int| 0 <= i < session.unlocked@.len() && #[trigger] session.unlocked@[i]@ == id
}

/// The number of creatures with role `job`.
pub open spec fn job_count(session: GameSession, job: Job) -> nat {
    count_where(session.creatures@, has_job(job))
}

/// The number of creatures living in the warren.
pub open spec fn local_count(session: GameSession) -> nat {
    count_where(session.creatures@, is_local())
}

/// The number of creatures stationed on remote routes.
pub open spec fn remote_count(session: GameSession) -> nat {
    count_where(session.creatures@, is_remote())
}

/// Whether the species `id` may be moved between jobs.
pub open spec fn species_reassignable(data: GameData, id: Seq<char>) -> bool {
    match find_species(data, id) {
        Some(s) => s.reassignable,
        None => false,
    }
}

/// Local creatures in `job` whose species may be moved to another job.
pub open spec fn reassignable(session: GameSession, data: GameData, job: Job) -> nat {
    count_where(
        session.creatures@,
        |c: Creature| !c.remote && c.job == job && species_reassignable(data, c.species@),
    )
}

impl Unlock {
    /// Whether this is the unlock with id `id`.
    pub fn id_is(&self, id: &str) -> (r: bool)
        ensures
            r == (self.id@ == id@),
    {
        str_eq(self.id.as_str(), id)
    }
}

impl GameData {
    /// The first unlock whose id is `id`.
    pub fn unlock(&self, id: &str) -> (res: Option<&Unlock>)
        ensures
            match res {
                Some(u) => find_unlock(*self, id@) == Some(*u),
                None => find_unlock(*self, id@) is None,
            },
    {
        let ghost p = unlock_named(id@);
        let mut i: usize = 0;
        assert(self.unlocks@.skip(0) =~= self.unlocks@);
        while i < self.unlocks.len()
            invariant
                i <= self.unlocks@.len(),
                p == unlock_named(id@),
                find_first(self.unlocks@, p) == find_first(self.unlocks@.skip(i as int), p),
            decreases self.unlocks@.len() - i,
        {
            proof {
                lemma_find_skip(self.unlocks@, i as int, p);
            }
            if self.unlocks[i].id_is(id) {
                return Some(&self.unlocks[i]);
            }
            i += 1;
        }
        assert(self.unlocks@.skip(i as int).len() == 0);
        None
    }

    /// The species definition with id `id`.
    pub fn species_def(&self, id: &str) -> (res: Option<&SpeciesDef>)
        ensures
            match res {
                Some(s) => find_species(*self, id@) == Some(*s),
                None => find_species(*self, id@) is None,
            },
    {
        let ghost p = species_named(id@);
        let mut i: usize = 0;
        assert(self.species@.skip(0) =~= self.species@);
        while i < self.species.len()
            invariant
                i <= self.species@.len(),
                p == species_named(id@),
                find_first(self.species@, p) == find_first(self.species@.skip(i as int), p),
            decreases self.species@.len() - i,
        {
            proof {
                lemma_find_skip(self.species@, i as int, p);
            }
            if str_eq(self.species[i].id.as_str(), id) {
                return Some(&self.species[i]);
            }
            i += 1;
        }
        assert(self.species@.skip(i as int).len() == 0);
        None
    }

    /// The equipment definition with id `id`.
    pub fn equipment_def(&self, id: &str) -> (res: Option<&EquipmentDef>)
        ensures
            match res {
                Some(e) => find_equipment(*self, id@) == Some(*e),
                None => find_equipment(*self, id@) is None,
            },
    {
        let ghost p = equipment_named(id@);
        let mut i: usize = 0;
        assert(self.equipment@.skip(0) =~= self.equipment@);
        while i < self.equipment.len()
            invariant
                i <= self.equipment@.len(),
                p == equipment_named(id@),
                find_first(self.equipment@, p) == find_first(self.equipment@.skip(i as int), p),
            decreases self.equipment@.len() - i,
        {
            proof {
                lemma_find_skip(self.equipment@, i as int, p);
            }
            if str_eq(self.equipment[i].id.as_str(), id) {
                return Some(&self.equipment[i]);
            }
            i += 1;
        }
        assert(self.equipment@.skip(i as int).len() == 0);
        None
    }

    /// Whether the species `id` may be moved between jobs.
    pub fn is_reassignable(&self, id: &str) -> (r: bool)
        ensures
            r == species_reassignable(*self, id@),
    {
        match self.species_def(id) {
            Some(s) => s.reassignable,
            None => false,
        }
    }
}

impl GameSession {
    /// Whether the unlock `id` has been granted.
    pub fn is_unlocked(&self, id: &str) -> (r: bool)
        ensures
            r == is_unlocked(*self, id@),
    {
        let mut i: usize = 0;
        while i < self.unlocked.len()
            invariant
                i <= self.unlocked@.len(),
                forall|j: int| 0 <= j < i ==> self.unlocked@[j]@ != id@,
            decreases self.unlocked@.len() - i,
        {
            if str_eq(self.unlocked[i].as_str(), id) {
                return true;
            }
            i += 1;
        }
        false
    }

    /// The reading of the counter named `name`.
    pub fn counter_value(&self, name: &str) -> (v: u32)
        ensures
            v == counter_value(*self, name@),
    {
        let ghost p = counter_named(name@);
        let mut i: usize = 0;
        assert(self.counters@.skip(0) =~= self.counters@);
        while i < self.counters.len()
            invariant
                i <= self.counters@.len(),
                p == counter_named(name@),
                find_first(self.counters@, p) == find_first(self.counters@.skip(i as int), p),
            decreases self.counters@.len() - i,
        {
            proof {
                lemma_find_skip(self.counters@, i as int, p);
            }
            if str_eq(self.counters[i].name.as_str(), name) {
                return self.counters[i].value;
            }
            i += 1;
        }
        assert(self.counters@.skip(i as int).len() == 0);
        0
    }

    /// The number of creatures with role `job`.
    pub fn job_count(&self, job: Job) -> (n: usize)
        ensures
            n == job_count(*self, job),
    {
        let ghost p = has_job(job);
        let mut n: usize = 0;
        let mut i: usize = 0;
        while i < self.creatures.len()
            invariant
                p == has_job(job),
                i <= self.creatures@.len(),
                n == count_where(self.creatures@.take(i as int), p),
                n <= i,
            decreases self.creatures@.len() - i,
        {
            proof {
                lemma_count_step(self.creatures@, i as int, p);
            }
            if self.creatures[i].job == job {
                n += 1;
            }
            i += 1;
        }
        assert(self.creatures@.take(i as int) =~= self.creatures@);
        n
    }

    /// The number of creatures living in the warren.
    pub fn local_creature_count(&self) -> (n: usize)
        ensures
            n == local_count(*self),
    {
        let ghost p = is_local();
        let mut n: usize = 0;
        let mut i: usize = 0;
        while i < self.creatures.len()
            invariant
                p == is_local(),
                i <= self.creatures@.len(),
                n == count_where(self.creatures@.take(i as int), p),
                n <= i,
            decreases self.creatures@.len() - i,
        {
            proof {
                lemma_count_step(self.creatures@, i as int, p);
            }
            if !self.creatures[i].remote {
                n += 1;
            }
            i += 1;
        }
        assert(self.creatures@.take(i as int) =~= self.creatures@);
        n
    }

    /// The number of creatures stationed on remote routes.
    pub fn remote_creature_count(&self) -> (n: usize)
        ensures
            n == remote_count(*self),
    {
        let ghost p = is_remote();
        let mut n: usize = 0;
        let mut i: usize = 0;
        while i < self.creatures.len()
            invariant
                p == is_remote(),
                i <= self.creatures@.len(),
                n == count_where(self.creatures@.take(i as int), p),
                n <= i,
            decreases self.creatures@.len() - i,
        {
            proof {
                lemma_count_step(self.creatures@, i as int, p);
            }
            if self.creatures[i].remote {
                n += 1;
            }
            i += 1;
        }
        assert(self.creatures@.take(i as int) =~= self.creatures@);
        n
    }
}

} // verus!
