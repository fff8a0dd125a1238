//! The inspection card's first-read status and the route readouts beside it.

use vstd::prelude::*;
use crate::model::{
    Building, Creature, GameData, GameSession, Job, Outpost, Task, TilePos, TransitDirection, WormTransit,
    ExpeditionState, find_unlock, is_unlocked,
};
use crate::legibility::{
    BuildingStatus, building_status, route_at, route_index_at, shrine_food_blocked, shrine_ingots_blocked,
    shrine_waiting_for_food, shrine_waiting_for_ingots, status_label, status_of, advanced_unlocked,
    advanced_systems_unlocked,
};
use crate::guidance::{crew_waiting, crew_waiting_exec, food_spare};
use crate::routes::{min_cap, whole_units};
use crate::inspect::{
    blacksmith_input_hint, cook_hint_text, cook_pot_input_hint, kiln_input_hint, smelter_hint_text, smelter_input_hint,
    smith_hint_text,
};
use crate::text::{dec, milli_text, push_dec, round_milli_u64, str_eq, text_of, round_even_div};

verus! {

/// How an inspection status reads: fine, needs a look, or broken.
#[derive(Debug, Clone, Copy, PartialEq, Eq, Structural)]
pub enum Tone {
    Positive,
    Warning,
    Negative,
}

/// The Worm Shrine's status line.
pub open spec fn shrine_status_text(session: GameSession, data: GameData) -> (Seq<char>, Tone) {
    if session.worm_awake {
        ("Awakened"@, Tone::Positive)
    } else if session.worm_feeding_paused {
        ("Paused — reserve protected"@, Tone::Warning)
    } else if shrine_food_blocked(session, data) {
        ("Waiting for food reserve"@, Tone::Warning)
    } else if shrine_ingots_blocked(session, data) {
        ("Waiting for ingot reserve"@, Tone::Warning)
    } else {
        ("Working"@, Tone::Positive)
    }
}

/// The Worm Shrine's status: awake, paused by the player, or waiting on the
/// food or ingot reserve.
pub fn worm_shrine_status(session: &GameSession, data: &GameData) -> (r: (&'static str, Tone))
    ensures
        (r.0@, r.1) == shrine_status_text(*session, *data),
{
    if session.worm_awake {
        ("Awakened", Tone::Positive)
    } else if session.worm_feeding_paused {
        ("Paused — reserve protected", Tone::Warning)
    } else if worm_waiting_for_food(session, data) {
        ("Waiting for food reserve", Tone::Warning)
    } else if worm_waiting_for_ingots(session, data) {
        ("Waiting for ingot reserve", Tone::Warning)
    } else {
        ("Working", Tone::Positive)
    }
}

/// Whether the Shrine waits for the food reserve (the same blocker as the
/// map badge).
pub fn worm_waiting_for_food(session: &GameSession, data: &GameData) -> (r: bool)
    ensures
        r == shrine_food_blocked(*session, *data),
{
    shrine_waiting_for_food(session, data)
}

/// Whether the Shrine waits for the ingot reserve (the same blocker as the
/// map badge).
pub fn worm_waiting_for_ingots(session: &GameSession, data: &GameData) -> (r: bool)
    ensures
        r == shrine_ingots_blocked(*session, *data),
{
    shrine_waiting_for_ingots(session, data)
}

/// The warren has goods to send and the hold has room.
pub open spec fn cargo_loadable(session: GameSession, data: GameData, cargo: nat, capacity: nat) -> bool {
    cargo < capacity && (session.economy.ore_stock > 0 || session.economy.ingots_stock > 0 || food_spare(session, data))
}

/// Whether the warren has goods to load into a hold holding `cargo` of
/// `capacity`.
pub fn outpost_has_loadable_cargo(session: &GameSession, data: &GameData, cargo: u32, capacity: u32) -> (r: bool)
    ensures
        r == cargo_loadable(*session, *data, cargo as nat, capacity as nat),
{
    if cargo >= capacity {
        return false;
    }
    session.economy.ore_stock > 0 || session.economy.ingots_stock > 0
        || session.economy.food_milli as i128 - data.balance.worm_feed_reserve_milli as i128 >= 1000
}

/// The inspection card's notion of a loadable route: goods with room in the
/// hold, or a waiting scout while the camp has room and the run takes crew.
pub open spec fn payload_loadable(
    session: GameSession,
    data: GameData,
    cargo: nat,
    crew: nat,
    capacity: nat,
    crew_dispatch_limit: Option<u32>,
) -> bool {
    let crew_ready = crew < data.balance.outpost_capacity && crew_dispatch_limit != Some(0u32) && crew_waiting(session);
    cargo_loadable(session, data, cargo, capacity) || crew_ready
}

/// Whether a route holding `cargo` and `crew` could be loaded from the warren.
pub fn outpost_has_loadable_payload(
    session: &GameSession,
    data: &GameData,
    cargo: u32,
    crew: usize,
    capacity: u32,
    crew_dispatch_limit: Option<u32>,
) -> (r: bool)
    ensures
        r == payload_loadable(*session, *data, cargo as nat, crew as nat, capacity as nat, crew_dispatch_limit),
{
    let crew_ready = crew < data.balance.outpost_capacity && crew_dispatch_limit != Some(0u32)
        && crew_waiting_exec(session);
    outpost_has_loadable_cargo(session, data, cargo, capacity) || crew_ready
}

/// The status line of a route building. While the shared worm travels
/// another route, a route ready to send or load says the worm is busy.
pub open spec fn route_status_text(session: GameSession, data: GameData, b: Building, o: Outpost) -> (Seq<char>, Tone) {
    if session.worm_transit matches Some(t) && t.outpost == b.pos {
        ("In transit"@, Tone::Positive)
    } else if o.failed {
        ("Route failed"@, Tone::Negative)
    } else if !o.active {
        if o.cargo_total > 0 || o.crew > 0 {
            ("Payload held · route inactive"@, Tone::Warning)
        } else {
            ("Route inactive"@, Tone::Warning)
        }
    } else if session.worm_awake && o.readout.route_expedition == ExpeditionState::Paused {
        ("Scouting paused"@, Tone::Warning)
    } else if session.worm_awake && o.readout.route_expedition is NeedsFood {
        ("Needs scout food"@, Tone::Warning)
    } else if session.worm_awake && o.readout.route_expedition == ExpeditionState::HoldFull {
        ("Outpost hold full"@, Tone::Negative)
    } else if !session.worm_awake {
        ("Route active"@, Tone::Positive)
    } else if o.cargo_total > 0 || o.crew > 0 {
        (if session.worm_transit is Some { "Worm busy · payload ready"@ } else { "Payload ready"@ }, Tone::Positive)
    } else if payload_loadable(session, data, 0, 0, o.readout.hold_capacity as nat, o.crew_dispatch_limit) {
        (if session.worm_transit is Some { "Worm busy · load ready"@ } else { "Ready to load"@ }, Tone::Positive)
    } else {
        ("Awaiting payload"@, Tone::Warning)
    }
}

/// The first-read status of any inspected building.
pub open spec fn inspect_status_text(session: GameSession, data: GameData, b: Building) -> (Seq<char>, Tone) {
    if b.kind@ == "worm_shrine"@ {
        shrine_status_text(session, data)
    } else if b.kind@ == "outpost"@ && route_at(session, b.pos) is Some {
        route_status_text(session, data, b, route_at(session, b.pos)->0)
    } else {
        match status_of(session, data, b) {
            Some(st) => (
                status_label(st),
                match st {
                    BuildingStatus::Exhausted | BuildingStatus::OutputFull => Tone::Negative,
                    _ => Tone::Warning,
                },
            ),
            None => ("Working"@, Tone::Positive),
        }
    }
}

fn route_status(session: &GameSession, data: &GameData, b: &Building, o: &Outpost) -> (r: (&'static str, Tone))
    ensures
        (r.0@, r.1) == route_status_text(*session, *data, *b, *o),
{
    match &session.worm_transit {
        Some(t) => {
            if t.outpost == b.pos {
                return ("In transit", Tone::Positive);
            }
        },
        None => {},
    }
    if o.failed {
        return ("Route failed", Tone::Negative);
    }
    if !o.active {
        if o.cargo_total > 0 || o.crew > 0 {
            return ("Payload held · route inactive", Tone::Warning);
        }
        return ("Route inactive", Tone::Warning);
    }
    if session.worm_awake {
        match o.readout.route_expedition {
            ExpeditionState::Paused => {
                return ("Scouting paused", Tone::Warning);
            },
            ExpeditionState::NeedsFood { .. } => {
                return ("Needs scout food", Tone::Warning);
            },
            ExpeditionState::HoldFull => {
                return ("Outpost hold full", Tone::Negative);
            },
            _ => {},
        }
    }
    if !session.worm_awake {
        return ("Route active", Tone::Positive);
    }
    let worm_busy = session.worm_transit.is_some();
    if o.cargo_total > 0 || o.crew > 0 {
        return (if worm_busy { "Worm busy · payload ready" } else { "Payload ready" }, Tone::Positive);
    }
    if outpost_has_loadable_payload(session, data, 0, 0, o.readout.hold_capacity, o.crew_dispatch_limit) {
        (if worm_busy { "Worm busy · load ready" } else { "Ready to load" }, Tone::Positive)
    } else {
        ("Awaiting payload", Tone::Warning)
    }
}

/// Give every inspected building the same first-read answer: is it working,
/// stalled, paused, or on a route that needs attention?
pub fn inspect_status(session: &GameSession, data: &GameData, building: &Building) -> (r: (&'static str, Tone))
    ensures
        (r.0@, r.1) == inspect_status_text(*session, *data, *building),
{
    if str_eq(building.kind.as_str(), "worm_shrine") {
        return worm_shrine_status(session, data);
    }
    if str_eq(building.kind.as_str(), "outpost") {
        match route_index_at(session, building.pos) {
            Some(i) => {
                return route_status(session, data, building, &session.outposts[i]);
            },
            None => {},
        }
    }
    match building_status(session, data, building) {
        Some(status) => (
            status.label(),
            match status {
                BuildingStatus::Exhausted | BuildingStatus::OutputFull => Tone::Negative,
                _ => Tone::Warning,
            },
        ),
        None => ("Working", Tone::Positive),
    }
}

/// A local creature working the Mine at `pos`.
pub open spec fn mine_working_at(c: Creature, pos: TilePos) -> bool {
    !c.remote && c.task == Task::WorkMine(pos)
}

/// Whether `creature` is working the Mine at `pos`.
pub fn local_mine_worker_at(creature: &Creature, pos: TilePos) -> (r: bool)
    ensures
        r == mine_working_at(*creature, pos),
{
    !creature.remote && match creature.task {
        Task::WorkMine(p) => p == pos,
        _ => false,
    }
}

/// A local Miner or Engineer bound to the Mine at `pos` (or idling there).
pub open spec fn mine_staffing(c: Creature, pos: TilePos) -> bool {
    !c.remote && (c.job == Job::Miner || c.job == Job::Engineer) && match c.task {
        Task::WorkMine(p) | Task::GoMine(p) => p == pos,
        _ => c.tile == pos,
    }
}

/// Whether `creature` staffs the Mine at `pos`.
pub fn local_mine_staffed_at(creature: &Creature, pos: TilePos) -> (r: bool)
    ensures
        r == mine_staffing(*creature, pos),
{
    !creature.remote && (creature.job == Job::Miner || creature.job == Job::Engineer) && match creature.task {
        Task::WorkMine(p) | Task::GoMine(p) => p == pos,
        _ => creature.tile == pos,
    }
}

/// The Mine's staffing line.
pub open spec fn mine_staffing_text(staffed: nat, slots: nat, exhausted: bool) -> Seq<char> {
    if exhausted {
        "Deposit exhausted"@
    } else if staffed == 0 {
        "No mine worker — stopped"@
    } else {
        "Mine staff "@ + dec(staffed) + "/"@ + dec(slots)
    }
}

/// The Mine's staffing: an exhausted deposit first, then a stopped mine,
/// then workers against slots.
pub fn mine_staffing_label(staffed: usize, slots: u32, deposit_exhausted: bool) -> (s: String)
    ensures
        s@ == mine_staffing_text(staffed as nat, slots as nat, deposit_exhausted),
{
    if deposit_exhausted {
        "Deposit exhausted".to_owned()
    } else if staffed == 0 {
        "No mine worker — stopped".to_owned()
    } else {
        let mut s = "Mine staff ".to_owned();
        push_dec(&mut s, staffed as u64);
        s.append("/");
        push_dec(&mut s, slots as u64);
        s
    }
}

/// An amount held in thousandths printed with one decimal (ties to even).
pub open spec fn tenths_text(m: int) -> Seq<char> {
    let q = round_even_div((if m < 0 { -m } else { m }) as nat, 100);
    (if m < 0 { "-"@ } else { Seq::<char>::empty() }) + dec(q / 10) + "."@ + dec(q % 10)
}

fn push_tenths(s: &mut String, m: i64)
    ensures
        final(s)@ == old(s)@ + tenths_text(m as int),
{
    let ghost before = s@;
    let magnitude: u64 = if m < 0 {
        if m == i64::MIN { 9223372036854775808u64 } else { (-m) as u64 }
    } else {
        m as u64
    };
    let q0 = magnitude / 100;
    let r = magnitude % 100;
    let q: u64 = if r > 50 {
        q0 + 1
    } else if r < 50 {
        q0
    } else if q0 % 2 == 0 {
        q0
    } else {
        q0 + 1
    };
    if m < 0 {
        s.append("-");
    }
    push_dec(s, q / 10);
    s.append(".");
    push_dec(s, q % 10);
    proof {
        reveal_strlit("-");
        assert(q == round_even_div((if m < 0 { -(m as int) } else { m as int }) as nat, 100));
    }
    assert(s@ =~= before + tenths_text(m as int));
}

/// What will deal with a building's waste.
pub open spec fn waste_action_text(session: GameSession, data: GameData) -> Seq<char> {
    if exists|i: int| 0 <= i < session.creatures@.len() && !(#[trigger] session.creatures@[i]).remote
        && session.creatures@[i].species@ == "slime_janitor"@ {
        "Slime Janitor cleans it"@
    } else if !advanced_unlocked(session) {
        "Secure warren first"@
    } else if is_unlocked(session, "slime_janitor"@) {
        "Attract Slime"@
    } else {
        match find_unlock(data, "slime_janitor"@) {
            Some(u) => "Spoil "@ + dec(u.threshold as nat) + " food to unlock Slime"@,
            None => "Unlock Slime Janitor"@,
        }
    }
}

/// The waste readout of an inspected building.
pub open spec fn waste_hint_text(session: GameSession, data: GameData, b: Building) -> Seq<char> {
    "Waste "@ + tenths_text(b.waste_milli as int) + " · "@ + waste_action_text(session, data)
}

fn janitor_present(session: &GameSession) -> (r: bool)
    ensures
        r == exists|i: int| 0 <= i < session.creatures@.len() && !(#[trigger] session.creatures@[i]).remote
            && session.creatures@[i].species@ == "slime_janitor"@,
{
    let mut i: usize = 0;
    while i < session.creatures.len()
        invariant
            i <= session.creatures@.len(),
            forall|j: int| 0 <= j < i ==> !(!(#[trigger] session.creatures@[j]).remote
                && session.creatures@[j].species@ == "slime_janitor"@),
        decreases session.creatures@.len() - i,
    {
        if !session.creatures[i].remote && str_eq(session.creatures[i].species.as_str(), "slime_janitor") {
            return true;
        }
        i += 1;
    }
    false
}

/// How much waste a building holds and what will clean it: a local Slime
/// Janitor, or the steps toward one.
pub fn waste_inspection_hint(session: &GameSession, data: &GameData, building: &Building) -> (s: String)
    ensures
        s@ == waste_hint_text(*session, *data, *building),
{
    let mut s = "Waste ".to_owned();
    push_tenths(&mut s, building.waste_milli);
    s.append(" · ");
    if janitor_present(session) {
        s.append("Slime Janitor cleans it");
    } else if !advanced_systems_unlocked(session) {
        s.append("Secure warren first");
    } else if session.is_unlocked("slime_janitor") {
        s.append("Attract Slime");
    } else {
        match data.unlock("slime_janitor") {
            Some(u) => {
                s.append("Spoil ");
                push_dec(&mut s, u.threshold as u64);
                s.append(" food to unlock Slime");
            },
            None => {
                s.append("Unlock Slime Janitor");
            },
        }
    }
    s
}

/// The route-return button label.
pub open spec fn return_label_text(cargo: nat, crew: nat) -> Seq<char> {
    if cargo > 0 && crew > 0 {
        "Send "@ + dec(cargo) + " cargo + "@ + dec(crew) + " crew to shrine"@
    } else if cargo > 0 {
        "Send "@ + dec(cargo) + " cargo to shrine"@
    } else if crew > 0 {
        "Send "@ + dec(crew) + " crew to shrine"@
    } else {
        "No cargo or crew to return"@
    }
}

/// What the return button would send back to the shrine.
pub fn outpost_return_label(cargo: u32, crew: usize) -> (s: String)
    ensures
        s@ == return_label_text(cargo as nat, crew as nat),
{
    if cargo > 0 && crew > 0 {
        let mut s = "Send ".to_owned();
        push_dec(&mut s, cargo as u64);
        s.append(" cargo + ");
        push_dec(&mut s, crew as u64);
        s.append(" crew to shrine");
        s
    } else if cargo > 0 {
        let mut s = "Send ".to_owned();
        push_dec(&mut s, cargo as u64);
        s.append(" cargo to shrine");
        s
    } else if crew > 0 {
        let mut s = "Send ".to_owned();
        push_dec(&mut s, crew as u64);
        s.append(" crew to shrine");
        s
    } else {
        "No cargo or crew to return".to_owned()
    }
}

/// The return button that keeps the scouts remote.
pub fn outpost_cargo_only_return_label(cargo: u32) -> (s: String)
    ensures
        s@ == "Send "@ + dec(cargo as nat) + " cargo · keep crew"@,
{
    let mut s = "Send ".to_owned();
    push_dec(&mut s, cargo as u64);
    s.append(" cargo · keep crew");
    s
}

/// The load hint of a route card.
pub open spec fn load_hint_text(o: Outpost) -> Option<Seq<char>> {
    let load = o.readout.load_preview;
    if load.ore + load.ingots + load.food > 0 {
        Some("Load · Ore "@ + dec(load.ore as nat) + " · Ingots "@ + dec(load.ingots as nat) + " · Food "@
            + dec(load.food as nat))
    } else if o.cargo_total >= o.readout.hold_capacity {
        Some("Hold full · return to shrine"@)
    } else {
        None
    }
}

/// What one press of Load would send, or why the hold cannot take more.
pub fn outpost_load_hint(session: &GameSession, data: &GameData, outpost: &Outpost) -> (res: Option<String>)
    ensures
        text_of(res) == load_hint_text(*outpost),
{
    let load = outpost.readout.load_preview;
    if load.ore > 0 || load.ingots > 0 || load.food > 0 {
        let mut s = "Load · Ore ".to_owned();
        push_dec(&mut s, load.ore as u64);
        s.append(" · Ingots ");
        push_dec(&mut s, load.ingots as u64);
        s.append(" · Food ");
        push_dec(&mut s, load.food as u64);
        Some(s)
    } else if outpost.cargo_total >= outpost.readout.hold_capacity {
        Some("Hold full · return to shrine".to_owned())
    } else {
        None
    }
}

/// The expedition line of a route card.
pub open spec fn expedition_hint_text(o: Outpost) -> Option<Seq<char>> {
    match o.readout.route_expedition {
        ExpeditionState::Inactive => None,
        ExpeditionState::NoCrew => Some("Need scout crew"@),
        ExpeditionState::Paused => Some("Expedition paused · player paused"@),
        ExpeditionState::HoldFull => Some("Expedition paused · hold full"@),
        ExpeditionState::NeedsFood { required, available } => Some(
            "Expedition paused · need "@ + dec(if required > available { (required - available) as nat } else { 0 })
                + " food"@,
        ),
        ExpeditionState::Scouting { progress_percent, ore_yield, food_cost } => Some(
            if o.resonator_upgraded {
                "Expedition "@ + dec(progress_percent as nat) + "% · +"@ + dec(ore_yield as nat) + "/-"@
                    + dec(food_cost as nat) + " food · "@ + milli_text(o.readout.cycle_milli as int) + "s"@
            } else {
                "Expedition "@ + dec(progress_percent as nat) + "% · +"@ + dec(ore_yield as nat) + " ore / -"@
                    + dec(food_cost as nat) + " food"@
            },
        ),
    }
}

/// What the route's expedition is doing, or what stops it.
pub fn outpost_expedition_hint(data: &GameData, outpost: &Outpost) -> (res: Option<String>)
    ensures
        text_of(res) == expedition_hint_text(*outpost),
{
    match outpost.readout.route_expedition {
        ExpeditionState::Inactive => None,
        ExpeditionState::NoCrew => Some("Need scout crew".to_owned()),
        ExpeditionState::Paused => Some("Expedition paused · player paused".to_owned()),
        ExpeditionState::HoldFull => Some("Expedition paused · hold full".to_owned()),
        ExpeditionState::NeedsFood { required, available } => {
            let mut s = "Expedition paused · need ".to_owned();
            push_dec(&mut s, required.saturating_sub(available) as u64);
            s.append(" food");
            Some(s)
        },
        ExpeditionState::Scouting { progress_percent, ore_yield, food_cost } => {
            let mut s = "Expedition ".to_owned();
            push_dec(&mut s, progress_percent as u64);
            s.append("% · +");
            push_dec(&mut s, ore_yield as u64);
            if outpost.resonator_upgraded {
                s.append("/-");
                push_dec(&mut s, food_cost as u64);
                s.append(" food · ");
                push_dec(&mut s, round_milli_u64(outpost.readout.cycle_milli));
                s.append("s");
            } else {
                s.append(" ore / -");
                push_dec(&mut s, food_cost as u64);
                s.append(" food");
            }
            Some(s)
        },
    }
}

/// Where the worm is heading.
pub fn transit_destination(direction: TransitDirection) -> (s: &'static str)
    ensures
        s@ == (match direction {
            TransitDirection::ToOutpost => "outpost"@,
            TransitDirection::ToShrine => "shrine"@,
        }),
{
    match direction {
        TransitDirection::ToOutpost => "outpost",
        TransitDirection::ToShrine => "shrine",
    }
}

/// The worm's payload while in flight.
pub open spec fn payload_line_text(t: WormTransit) -> Seq<char> {
    let cargo = min_cap(min_cap((t.ore + t.ingots) as nat, u32::MAX as nat) + whole_units(t.food_milli as int), u32::MAX as nat);
    "In flight · "@ + dec(cargo) + " cargo · "@ + dec(t.passengers as nat) + " crew"@
}

/// The worm's payload while in flight: cargo (counting whole food) and crew.
pub fn transit_payload_line(transit: &WormTransit) -> (s: String)
    ensures
        s@ == payload_line_text(*transit),
{
    let food: u32 = if transit.food_milli <= 0 {
        0
    } else if transit.food_milli / 1000 > u32::MAX as i64 {
        u32::MAX
    } else {
        (transit.food_milli / 1000) as u32
    };
    let cargo = transit.ore.saturating_add(transit.ingots).saturating_add(food);
    let mut s = "In flight · ".to_owned();
    push_dec(&mut s, cargo as u64);
    s.append(" cargo · ");
    push_dec(&mut s, transit.passengers as u64);
    s.append(" crew");
    s
}


/// The Archive line of the Outpost card.
pub open spec fn archive_text(session: GameSession, data: GameData) -> Option<Seq<char>> {
    if !session.outpost_charter_claimed || data.balance.outpost_archive_haul_goal == 0 {
        None
    } else {
        Some("Archive pages "@ + dec(session.outpost_archive_claims as nat) + " · Next "@
            + dec(session.network.archive as nat) + "/"@ + dec(data.balance.outpost_archive_haul_goal as nat))
    }
}

/// Archive pages logged and progress toward the next, once the Charter is
/// claimed.
pub fn outpost_archive_summary(session: &GameSession, data: &GameData) -> (res: Option<String>)
    ensures
        text_of(res) == archive_text(*session, *data),
{
    if !session.outpost_charter_claimed || data.balance.outpost_archive_haul_goal == 0 {
        return None;
    }
    let mut s = "Archive pages ".to_owned();
    push_dec(&mut s, session.outpost_archive_claims as u64);
    s.append(" · Next ");
    push_dec(&mut s, session.network.archive as u64);
    s.append("/");
    push_dec(&mut s, data.balance.outpost_archive_haul_goal as u64);
    Some(s)
}

/// The Signal Cache line of the Outpost card.
pub open spec fn signal_cache_text(o: Outpost, data: GameData, compact: bool) -> Option<Seq<char>> {
    if !o.signal_cache_upgraded {
        None
    } else if compact {
        Some("Cache +"@ + dec(data.balance.outpost_signal_cache_ingots_per_haul as nat) + "/haul · Kept "@
            + dec(o.signal_cache_ingots as nat))
    } else {
        Some("Signal cache · +"@ + dec(data.balance.outpost_signal_cache_ingots_per_haul as nat) + "/haul · Kept "@
            + dec(o.signal_cache_ingots as nat))
    }
}

/// The Signal Cache's per-haul ingots and the ingots it has kept.
pub fn outpost_signal_cache_summary(outpost: &Outpost, data: &GameData, compact: bool) -> (res: Option<String>)
    ensures
        text_of(res) == signal_cache_text(*outpost, *data, compact),
{
    if !outpost.signal_cache_upgraded {
        return None;
    }
    let mut s = if compact { "Cache +".to_owned() } else { "Signal cache · +".to_owned() };
    push_dec(&mut s, data.balance.outpost_signal_cache_ingots_per_haul as u64);
    s.append("/haul · Kept ");
    push_dec(&mut s, outpost.signal_cache_ingots as u64);
    Some(s)
}

/// The Worm Road Waypoint line of the Outpost card.
pub open spec fn waypoint_summary_text(o: Outpost, compact: bool) -> Option<Seq<char>> {
    if !o.waypoint_upgraded {
        None
    } else if compact {
        Some("Waypoint · "@ + milli_text(o.readout.transit_milli as int) + "s"@)
    } else {
        Some("Worm Road Waypoint · "@ + milli_text(o.readout.transit_milli as int) + "s transit"@)
    }
}

/// The transit time the Worm Road Waypoint gives the route.
pub fn outpost_waypoint_summary(outpost: &Outpost, data: &GameData, compact: bool) -> (res: Option<String>)
    ensures
        text_of(res) == waypoint_summary_text(*outpost, compact),
{
    if !outpost.waypoint_upgraded {
        return None;
    }
    let mut s = if compact { "Waypoint · ".to_owned() } else { "Worm Road Waypoint · ".to_owned() };
    push_dec(&mut s, round_milli_u64(outpost.readout.transit_milli));
    if compact {
        s.append("s");
    } else {
        s.append("s transit");
    }
    Some(s)
}

/// The input shortfall a starved workstation names, by kind.
pub open spec fn input_hint_text(b: Building, data: GameData) -> Option<Seq<char>> {
    if b.kind@ == "blacksmith"@ {
        Some(smith_hint_text(b, data))
    } else if b.kind@ == "cook_pot"@ {
        Some(cook_hint_text(b, data))
    } else if b.kind@ == "kiln"@ {
        Some("Needs 1 wood"@)
    } else if b.kind@ == "smelter"@ {
        Some(smelter_hint_text(b, data))
    } else {
        None
    }
}

/// The first lines of an inspection card: the status, how to reconnect a
/// building cut off from the stockpile, what a starved workstation lacks,
/// and the waste readout (troughs show their waste elsewhere).
pub open spec fn header_lines(session: GameSession, data: GameData, b: Building) -> Seq<(Seq<char>, Tone)> {
    let status = inspect_status_text(session, data, b);
    seq![("Status · "@ + status.0, status.1)]
        + (if status.0 == "No valid route"@ {
            seq![("Dig a tunnel to reconnect this node"@, Tone::Warning)]
        } else {
            Seq::empty()
        })
        + (if status_of(session, data, b) == Some(BuildingStatus::InputStarved) && input_hint_text(b, data) is Some {
            seq![(input_hint_text(b, data)->0, Tone::Warning)]
        } else {
            Seq::empty()
        })
        + (if b.waste_milli > 0 && b.kind@ != "feeding_trough"@ {
            seq![(waste_hint_text(session, data, b), Tone::Warning)]
        } else {
            Seq::empty()
        })
}

fn input_hint(b: &Building, data: &GameData) -> (res: Option<String>)
    ensures
        text_of(res) == input_hint_text(*b, *data),
{
    let kind = b.kind.as_str();
    if str_eq(kind, "blacksmith") {
        Some(blacksmith_input_hint(b, data))
    } else if str_eq(kind, "cook_pot") {
        Some(cook_pot_input_hint(b, data))
    } else if str_eq(kind, "kiln") {
        Some(kiln_input_hint())
    } else if str_eq(kind, "smelter") {
        Some(smelter_input_hint(b, data))
    } else {
        None
    }
}

/// The first lines of the inspection card with the tone each is drawn in.
pub fn inspection_header(session: &GameSession, data: &GameData, building: &Building) -> (lines: Vec<(String, Tone)>)
    ensures
        lines@.map_values(|l: (String, Tone)| (l.0@, l.1)) == header_lines(*session, *data, *building),
{
    let ghost view = |l: (String, Tone)| (l.0@, l.1);
    let (status, tone) = inspect_status(session, data, building);
    let mut first = "Status · ".to_owned();
    first.append(status);
    let mut lines: Vec<(String, Tone)> = Vec::new();
    lines.push((first, tone));
    let ghost a = seq![("Status · "@ + status@, tone)];
    assert(lines@.map_values(view) =~= a);
    if str_eq(status, "No valid route") {
        lines.push(("Dig a tunnel to reconnect this node".to_owned(), Tone::Warning));
    }
    let ghost b = a + (if status@ == "No valid route"@ {
        seq![("Dig a tunnel to reconnect this node"@, Tone::Warning)]
    } else {
        Seq::empty()
    });
    assert(lines@.map_values(view) =~= b);
    let starved = match building_status(session, data, building) {
        Some(BuildingStatus::InputStarved) => true,
        _ => false,
    };
    if starved {
        match input_hint(building, data) {
            Some(h) => {
                lines.push((h, Tone::Warning));
            },
            None => {},
        }
    }
    let ghost c = b + (if status_of(*session, *data, *building) == Some(BuildingStatus::InputStarved)
        && input_hint_text(*building, *data) is Some {
        seq![(input_hint_text(*building, *data)->0, Tone::Warning)]
    } else {
        Seq::empty()
    });
    assert(lines@.map_values(view) =~= c);
    if building.waste_milli > 0 && !str_eq(building.kind.as_str(), "feeding_trough") {
        let w = waste_inspection_hint(session, data, building);
        lines.push((w, Tone::Warning));
    }
    assert(lines@.map_values(view) =~= header_lines(*session, *data, *building));
    lines
}

} // verus!
