//! Labels and hints of the building inspection card: breeding, study,
//! and the input shortfalls of staffed workstations.

use vstd::prelude::*;
use crate::model::{
    Building, Creature, GameData, GameSession, Job, TilePos, Task, find_species, find_unlock,
    find_equipment, is_unlocked, counter_value,
};
use crate::text::{
    dec, mmss_text, push_dec, push_mmss, push_whole_away, push_whole_even, str_eq, text_of, whole_away_text,
    whole_even_text,
};
use crate::requirements::{requirement_progress_text, unlock_requirement_progress};
use crate::legibility::{shrine_food_blocked, shrine_ingots_blocked, shrine_waiting_for_food, shrine_waiting_for_ingots};
use crate::status::Tone;

verus! {

/// The marker shown beside a locked specialist (plain ASCII so every font
/// can draw it).
pub const LOCKED_SPECIALIST_MARKER: &'static str = "[L]";

/// How many rows the Blacksmith's recipe grid needs for two recipes a row.
pub fn blacksmith_recipe_rows(equipment_count: usize) -> (rows: usize)
    ensures
        rows == (equipment_count + 1) / 2,
{
    equipment_count / 2 + equipment_count % 2
}

/// The height and row step of an inspection card's buttons, in logical
/// pixels.
pub open spec fn button_metrics(kind: Seq<char>, compact: bool, equipment_count: nat) -> (nat, nat) {
    if kind == "material_stockpile"@ {
        (72, 76)
    } else if compact && kind == "worm_shrine"@ {
        (72, 76)
    } else if compact && kind == "blacksmith"@ && equipment_count > 4 {
        (46, 48)
    } else if compact && (kind == "blacksmith"@ || kind == "breeding_pit"@) {
        (36, 40)
    } else if !compact && kind == "breeding_pit"@ {
        (38, 42)
    } else if compact {
        (30, 34)
    } else {
        (24, 26)
    }
}

/// Button height and row step for an inspection card. Stockpiles and, on a
/// compact canvas, the Worm Shrine keep full touch targets: the shrine's
/// pause/resume action is on the campaign's critical path.
pub fn inspection_button_metrics(kind: &str, compact: bool, equipment_count: usize) -> (r: (u32, u32))
    ensures
        (r.0 as nat, r.1 as nat) == button_metrics(kind@, compact, equipment_count as nat),
{
    if str_eq(kind, "material_stockpile") {
        (72, 76)
    } else if compact && str_eq(kind, "worm_shrine") {
        (72, 76)
    } else if compact && str_eq(kind, "blacksmith") && equipment_count > 4 {
        (46, 48)
    } else if compact && (str_eq(kind, "blacksmith") || str_eq(kind, "breeding_pit")) {
        (36, 40)
    } else if !compact && str_eq(kind, "breeding_pit") {
        (38, 42)
    } else if compact {
        (30, 34)
    } else {
        (24, 26)
    }
}

/// The label of a Breeding Pit recipe: the specialist's benefit and cost.
pub open spec fn breed_label_text(id: Seq<char>, name: Seq<char>, cost: nat, data: GameData) -> Seq<char> {
    if id == "hobgoblin"@ {
        let work: int = match find_species(data, id) {
            Some(s) => s.work_mult_milli as int,
            None => 2000,
        };
        name + " · ×"@ + whole_even_text(work, 1000) + " work ("@ + dec(cost) + ")"@
    } else if id == "overseer"@ {
        name + " · aura +"@ + whole_away_text(data.balance.overseer_aura_mult_milli - 1000, 10) + "% ("@ + dec(cost)
            + ")"@
    } else if id == "engineer"@ {
        let mine = match find_species(data, id) {
            Some(s) => whole_even_text(s.work_mult_milli - 1000, 10),
            None => "25"@,
        };
        name + " · Mine +"@ + mine + "% ("@ + dec(cost) + ")"@
    } else {
        name + " ("@ + dec(cost) + " ingots)"@
    }
}

/// The label of a Breeding Pit recipe: what the specialist adds (work
/// multiplier, Overseer aura, Engineer mine bonus) and its ingot cost.
pub fn breed_label(id: &str, name: &str, cost: u32, data: &GameData) -> (s: String)
    ensures
        s@ == breed_label_text(id@, name@, cost as nat, *data),
{
    let mut s = name.to_owned();
    if str_eq(id, "hobgoblin") {
        let work: i64 = match data.species_def(id) {
            Some(def) => def.work_mult_milli,
            None => 2000,
        };
        s.append(" · ×");
        push_whole_even(&mut s, work as i128, 1000);
        s.append(" work (");
    } else if str_eq(id, "overseer") {
        s.append(" · aura +");
        push_whole_away(&mut s, data.balance.overseer_aura_mult_milli as i128 - 1000, 10);
        s.append("% (");
    } else if str_eq(id, "engineer") {
        s.append(" · Mine +");
        match data.species_def(id) {
            Some(def) => push_whole_even(&mut s, def.work_mult_milli as i128 - 1000, 10),
            None => {
                proof {
                    reveal_strlit("25");
                }
                s.append("25");
            },
        }
        s.append("% (");
    } else {
        s.append(" (");
        push_dec(&mut s, cost as u64);
        s.append(" ingots)");
        return s;
    }
    push_dec(&mut s, cost as u64);
    s.append(")");
    s
}

/// The hint under a locked specialist: the unlock's action with progress.
pub open spec fn breeding_hint_text(session: GameSession, data: GameData, unlock: Seq<char>) -> Option<Seq<char>> {
    match requirement_progress_text(session, data, unlock) {
        Some(r) => Some("Next: "@ + r),
        None => None,
    }
}

/// What the player must do to unlock a specialist, with live progress.
pub fn breeding_unlock_hint(session: &GameSession, data: &GameData, unlock: &str) -> (res: Option<String>)
    ensures
        text_of(res) == breeding_hint_text(*session, *data, unlock@),
{
    match unlock_requirement_progress(session, data, unlock) {
        Some(r) => {
            let mut s = "Next: ".to_owned();
            s.append(r.as_str());
            Some(s)
        },
        None => None,
    }
}

/// The Study Pen's adaptation line.
pub open spec fn study_line_text(session: GameSession, data: GameData) -> Seq<char> {
    match find_unlock(data, "adaptive_haulers"@) {
        None => "No adaptation recorded"@,
        Some(haulers) => if !is_unlocked(session, haulers.id@) {
            match requirement_progress_text(session, data, haulers.id@) {
                Some(r) => "Next · "@ + r,
                None => "Adaptation in progress"@,
            }
        } else {
            let hauler_bonus = whole_even_text(session.beetle_carry_multiplier_milli - 1000, 10);
            match find_unlock(data, "brood_memory"@) {
                None => "Adapted haulers · +"@ + hauler_bonus + "% carry"@,
                Some(brood) => if !is_unlocked(session, brood.id@) {
                    "Haulers +"@ + hauler_bonus + "% · next "@ + dec(counter_value(session, brood.counter@)) + "/"@
                        + dec(brood.threshold as nat) + " study"@
                } else {
                    let base = data.balance.breed_interval_milli;
                    let hatch = if base > 0 {
                        whole_even_text((base - session.breeding_interval_milli) * 100, base as nat)
                    } else {
                        "0"@
                    };
                    "Haulers +"@ + hauler_bonus + "% · Brood +"@ + hatch + "%"@
                },
            }
        },
    }
}

/// What study has taught the colony: the next adaptation's progress, or the
/// Beetle carry and Brood hatch bonuses already earned.
pub fn study_adaptation_line(session: &GameSession, data: &GameData) -> (s: String)
    ensures
        s@ == study_line_text(*session, *data),
{
    let haulers = match data.unlock("adaptive_haulers") {
        Some(u) => u,
        None => return "No adaptation recorded".to_owned(),
    };
    if !session.is_unlocked(haulers.id.as_str()) {
        return match unlock_requirement_progress(session, data, haulers.id.as_str()) {
            Some(r) => {
                let mut s = "Next · ".to_owned();
                s.append(r.as_str());
                s
            },
            None => "Adaptation in progress".to_owned(),
        };
    }
    let bonus = session.beetle_carry_multiplier_milli as i128 - 1000;
    let brood = match data.unlock("brood_memory") {
        Some(u) => u,
        None => {
            let mut s = "Adapted haulers · +".to_owned();
            push_whole_even(&mut s, bonus, 10);
            s.append("% carry");
            return s;
        },
    };
    let mut s = "Haulers +".to_owned();
    push_whole_even(&mut s, bonus, 10);
    if !session.is_unlocked(brood.id.as_str()) {
        s.append("% · next ");
        push_dec(&mut s, session.counter_value(brood.counter.as_str()) as u64);
        s.append("/");
        push_dec(&mut s, brood.threshold as u64);
        s.append(" study");
        return s;
    }
    s.append("% · Brood +");
    let base = data.balance.breed_interval_milli;
    if base > 0 {
        push_whole_even(&mut s, (base as i128 - session.breeding_interval_milli as i128) * 100, base as i128);
    } else {
        proof {
            reveal_strlit("0");
        }
        s.append("0");
    }
    s.append("%");
    s
}

/// Whether the Blacksmith's order queue has room for another order.
pub fn blacksmith_queue_available(building: &Building, data: &GameData) -> (r: bool)
    ensures
        r == (building.orders@.len() < data.balance.order_queue_size),
{
    building.orders.len() < data.balance.order_queue_size
}

/// Whole units still missing to reach a target, rounded up, as a saturating
/// count.
pub open spec fn units_short(target_milli: int, have_milli: int) -> nat {
    let need = target_milli - have_milli;
    if need <= 0 {
        0
    } else {
        let units = (need + 999) / 1000;
        if units > u32::MAX { u32::MAX as nat } else { units as nat }
    }
}

fn units_short_exec(target_milli: i128, have_milli: i128) -> (n: u32)
    requires
        -0x10_0000_0000_0000_0000_0000_0000 <= target_milli <= 0x10_0000_0000_0000_0000_0000_0000,
        -0x10_0000_0000_0000_0000_0000_0000 <= have_milli <= 0x10_0000_0000_0000_0000_0000_0000,
    ensures
        n == units_short(target_milli as int, have_milli as int),
{
    let need = target_milli - have_milli;
    if need <= 0 {
        0
    } else {
        let units = (need + 999) / 1000;
        if units > u32::MAX as i128 { u32::MAX } else { units as u32 }
    }
}

/// The Blacksmith's input hint: ore short of a batch and the next order.
pub open spec fn smith_hint_text(building: Building, data: GameData) -> Seq<char> {
    let ore = units_short(data.balance.smith_batch_ore * 1000, building.ore_milli as int);
    let next = if building.orders@.len() > 0 {
        match find_equipment(data, building.orders@[0]@) {
            Some(e) => e.name@,
            None => "ingot"@,
        }
    } else {
        "ingot"@
    };
    "Needs "@ + dec(ore) + " ore · next "@ + next
}

/// Ore the Blacksmith still needs for a batch, and what it forges next.
pub fn blacksmith_input_hint(building: &Building, data: &GameData) -> (s: String)
    ensures
        s@ == smith_hint_text(*building, *data),
{
    let ore = units_short_exec(data.balance.smith_batch_ore as i128 * 1000, building.ore_milli as i128);
    let mut s = "Needs ".to_owned();
    push_dec(&mut s, ore as u64);
    s.append(" ore · next ");
    if building.orders.len() > 0 {
        match data.equipment_def(building.orders[0].as_str()) {
            Some(e) => {
                s.append(e.name.as_str());
                return s;
            },
            None => {},
        }
    }
    s.append("ingot");
    s
}

/// The Smelter's input hint: each missing material, joined with `+`.
pub open spec fn smelter_hint_text(building: Building, data: GameData) -> Seq<char> {
    let ore = units_short(data.balance.smelt_batch_ore * 1000, building.ore_milli as int);
    let charcoal = units_short(data.balance.smelt_batch_charcoal_milli as int, building.charcoal_milli as int);
    let ore_part = dec(ore) + " ore"@;
    let charcoal_part = dec(charcoal) + " charcoal"@;
    "Needs "@ + if ore > 0 && charcoal > 0 {
        ore_part + " + "@ + charcoal_part
    } else if ore > 0 {
        ore_part
    } else if charcoal > 0 {
        charcoal_part
    } else {
        Seq::<char>::empty()
    }
}

/// The ore and charcoal the Smelter is missing for a batch.
pub fn smelter_input_hint(building: &Building, data: &GameData) -> (s: String)
    ensures
        s@ == smelter_hint_text(*building, *data),
{
    let ore = units_short_exec(data.balance.smelt_batch_ore as i128 * 1000, building.ore_milli as i128);
    let charcoal = units_short_exec(data.balance.smelt_batch_charcoal_milli as i128, building.charcoal_milli as i128);
    let mut s = "Needs ".to_owned();
    if ore > 0 {
        push_dec(&mut s, ore as u64);
        s.append(" ore");
    }
    if charcoal > 0 {
        if ore > 0 {
            s.append(" + ");
        }
        push_dec(&mut s, charcoal as u64);
        s.append(" charcoal");
    }
    s
}

/// The Cook Pot's input hint.
pub open spec fn cook_hint_text(building: Building, data: GameData) -> Seq<char> {
    let batch = data.balance.cook_batch_mushrooms * data.balance.raw_recipe_multiplier_milli;
    "Needs "@ + dec(units_short(batch, building.mushroom_milli as int)) + " mushrooms"@
}

/// The mushrooms the Cook Pot is missing for a batch.
pub fn cook_pot_input_hint(building: &Building, data: &GameData) -> (s: String)
    ensures
        s@ == cook_hint_text(*building, *data),
{
    let batch_count = data.balance.cook_batch_mushrooms as i128;
    let mult = data.balance.raw_recipe_multiplier_milli as i128;
    assert(-0x8000_0000_0000_0000 * 0xffff_ffff <= batch_count * mult <= 0x7fff_ffff_ffff_ffff * 0xffff_ffff) by (nonlinear_arith)
        requires
            0 <= batch_count <= 0xffff_ffff,
            -0x8000_0000_0000_0000 <= mult <= 0x7fff_ffff_ffff_ffff,
    ;
    let batch = batch_count * mult;
    let need = units_short_exec(batch, building.mushroom_milli as i128);
    let mut s = "Needs ".to_owned();
    push_dec(&mut s, need as u64);
    s.append(" mushrooms");
    s
}

/// The Kiln's input hint.
pub fn kiln_input_hint() -> (s: String)
    ensures
        s@ == "Needs 1 wood"@,
{
    "Needs 1 wood".to_owned()
}

/// A local creature smithing or crafting at the Blacksmith at `pos`.
pub open spec fn smith_working_at(c: Creature, pos: TilePos) -> bool {
    !c.remote && match c.task {
        Task::Smithing { shop } | Task::Crafting { shop } => shop == pos,
        _ => false,
    }
}

/// Whether `creature` is smithing or crafting at the Blacksmith at `pos`.
pub fn local_smith_worker_at(creature: &Creature, pos: TilePos) -> (r: bool)
    ensures
        r == smith_working_at(*creature, pos),
{
    !creature.remote && match creature.task {
        Task::Smithing { shop } | Task::Crafting { shop } => shop == pos,
        _ => false,
    }
}

/// A local Smith bound to the Blacksmith at `pos` (or idling on its tile).
pub open spec fn smith_staffing(c: Creature, pos: TilePos) -> bool {
    !c.remote && c.job == Job::Smith && match c.task {
        Task::Smithing { shop } | Task::Crafting { shop } | Task::GoSmith(shop) => shop == pos,
        _ => c.tile == pos,
    }
}

/// Whether `creature` staffs the Blacksmith at `pos`.
pub fn local_smith_staffed_at(creature: &Creature, pos: TilePos) -> (r: bool)
    ensures
        r == smith_staffing(*creature, pos),
{
    !creature.remote && creature.job == Job::Smith && match creature.task {
        Task::Smithing { shop } | Task::Crafting { shop } | Task::GoSmith(shop) => shop == pos,
        _ => creature.tile == pos,
    }
}

/// A local creature smelting at the Smelter at `pos`.
pub open spec fn smelter_working_at(c: Creature, pos: TilePos) -> bool {
    !c.remote && match c.task {
        Task::Smelting { den } => den == pos,
        _ => false,
    }
}

/// Whether `creature` is smelting at the Smelter at `pos`.
pub fn local_smelter_worker_at(creature: &Creature, pos: TilePos) -> (r: bool)
    ensures
        r == smelter_working_at(*creature, pos),
{
    !creature.remote && match creature.task {
        Task::Smelting { den } => den == pos,
        _ => false,
    }
}

/// A local Smelter bound to the Smelter at `pos` (or idling on its tile).
pub open spec fn smelter_staffing(c: Creature, pos: TilePos) -> bool {
    !c.remote && c.job == Job::Smelter && match c.task {
        Task::Smelting { den } | Task::GoSmelt(den) => den == pos,
        _ => c.tile == pos,
    }
}

/// Whether `creature` staffs the Smelter at `pos`.
pub fn local_smelter_staffed_at(creature: &Creature, pos: TilePos) -> (r: bool)
    ensures
        r == smelter_staffing(*creature, pos),
{
    !creature.remote && creature.job == Job::Smelter && match creature.task {
        Task::Smelting { den } | Task::GoSmelt(den) => den == pos,
        _ => creature.tile == pos,
    }
}

/// The Blacksmith's staffing line: a smith at work, one stationed, or none.
pub open spec fn smith_line(session: GameSession, pos: TilePos) -> (Seq<char>, Tone) {
    let working = exists|i: int| 0 <= i < session.creatures@.len() && smith_working_at(#[trigger] session.creatures@[i], pos);
    let staffed = exists|i: int| 0 <= i < session.creatures@.len() && smith_staffing(#[trigger] session.creatures@[i], pos);
    (
        if working { "Smith at work"@ } else if staffed { "Smith stationed"@ } else { "No smith — idle"@ },
        if staffed { Tone::Positive } else { Tone::Warning },
    )
}

/// Whether some creature works, and whether some creature staffs, the
/// Blacksmith at `pos`.
fn smith_presence(session: &GameSession, pos: TilePos) -> (r: (bool, bool))
    ensures
        r.0 == exists|i: int| 0 <= i < session.creatures@.len() && smith_working_at(#[trigger] session.creatures@[i], pos),
        r.1 == exists|i: int| 0 <= i < session.creatures@.len() && smith_staffing(#[trigger] session.creatures@[i], pos),
{
    let mut working = false;
    let mut staffed = false;
    let mut i: usize = 0;
    while i < session.creatures.len()
        invariant
            i <= session.creatures@.len(),
            working == exists|j: int| 0 <= j < i && smith_working_at(#[trigger] session.creatures@[j], pos),
            staffed == exists|j: int| 0 <= j < i && smith_staffing(#[trigger] session.creatures@[j], pos),
        decreases session.creatures@.len() - i,
    {
        let c = &session.creatures[i];
        if local_smith_worker_at(c, pos) {
            working = true;
        }
        if local_smith_staffed_at(c, pos) {
            staffed = true;
        }
        i += 1;
    }
    (working, staffed)
}

/// Whether the Blacksmith at `pos` is worked, stationed or idle, and the
/// tone of that line.
pub fn smith_staffing_line(session: &GameSession, pos: TilePos) -> (r: (&'static str, Tone))
    ensures
        (r.0@, r.1) == smith_line(*session, pos),
{
    let (working, staffed) = smith_presence(session, pos);
    let text = if working { "Smith at work" } else if staffed { "Smith stationed" } else { "No smith — idle" };
    (text, if staffed { Tone::Positive } else { Tone::Warning })
}

/// The Smelter's staffing line: a Salamander at work, one stationed, or none.
pub open spec fn smelter_line(session: GameSession, pos: TilePos) -> (Seq<char>, Tone) {
    let working = exists|i: int| 0 <= i < session.creatures@.len() && smelter_working_at(#[trigger] session.creatures@[i], pos);
    let staffed = exists|i: int| 0 <= i < session.creatures@.len() && smelter_staffing(#[trigger] session.creatures@[i], pos);
    (
        if working { "Salamander at work"@ } else if staffed { "Salamander stationed"@ } else { "No salamander — idle"@ },
        if staffed { Tone::Positive } else { Tone::Warning },
    )
}

fn smelter_presence(session: &GameSession, pos: TilePos) -> (r: (bool, bool))
    ensures
        r.0 == exists|i: int| 0 <= i < session.creatures@.len() && smelter_working_at(#[trigger] session.creatures@[i], pos),
        r.1 == exists|i: int| 0 <= i < session.creatures@.len() && smelter_staffing(#[trigger] session.creatures@[i], pos),
{
    let mut working = false;
    let mut staffed = false;
    let mut i: usize = 0;
    while i < session.creatures.len()
        invariant
            i <= session.creatures@.len(),
            working == exists|j: int| 0 <= j < i && smelter_working_at(#[trigger] session.creatures@[j], pos),
            staffed == exists|j: int| 0 <= j < i && smelter_staffing(#[trigger] session.creatures@[j], pos),
        decreases session.creatures@.len() - i,
    {
        let c = &session.creatures[i];
        if local_smelter_worker_at(c, pos) {
            working = true;
        }
        if local_smelter_staffed_at(c, pos) {
            staffed = true;
        }
        i += 1;
    }
    (working, staffed)
}

/// Whether the Smelter at `pos` is worked, stationed or idle, and the tone
/// of that line.
pub fn smelter_staffing_line(session: &GameSession, pos: TilePos) -> (r: (&'static str, Tone))
    ensures
        (r.0@, r.1) == smelter_line(*session, pos),
{
    let (working, staffed) = smelter_presence(session, pos);
    let text = if working { "Salamander at work" } else if staffed { "Salamander stationed" } else { "No salamander — idle" };
    (text, if staffed { Tone::Positive } else { Tone::Warning })
}

/// The Worm Shrine card's offering line.
pub open spec fn offering_text(session: GameSession, data: GameData) -> (Seq<char>, Tone) {
    let blocked = session.worm_feeding_paused || shrine_food_blocked(session, data) || shrine_ingots_blocked(session, data);
    (
        if session.worm_awake {
            "The Colossal Worm is awake"@
        } else if session.worm_feeding_paused {
            "Offerings paused — reserve protected"@
        } else if shrine_food_blocked(session, data) {
            "Waiting for food reserve"@
        } else if shrine_ingots_blocked(session, data) {
            "Waiting for ingot reserve"@
        } else {
            "Offering automatically"@
        },
        if blocked { Tone::Warning } else { Tone::Positive },
    )
}

/// What the Shrine's offerings are doing: the worm awake, paused by the
/// player, waiting on a reserve, or feeding on their own.
pub fn shrine_offering_line(session: &GameSession, data: &GameData) -> (r: (&'static str, Tone))
    ensures
        (r.0@, r.1) == offering_text(*session, *data),
{
    let food = shrine_waiting_for_food(session, data);
    let ingots = shrine_waiting_for_ingots(session, data);
    let text = if session.worm_awake {
        "The Colossal Worm is awake"
    } else if session.worm_feeding_paused {
        "Offerings paused — reserve protected"
    } else if food {
        "Waiting for food reserve"
    } else if ingots {
        "Waiting for ingot reserve"
    } else {
        "Offering automatically"
    };
    (text, if session.worm_feeding_paused || food || ingots { Tone::Warning } else { Tone::Positive })
}

/// The specialists the Breeding Pit offers, top to bottom.
pub open spec fn breed_targets() -> Seq<Seq<char>> {
    seq!["hobgoblin"@, "overseer"@, "engineer"@]
}

/// Banked ingots a specialist costs to breed.
pub open spec fn breed_cost(data: GameData, id: Seq<char>) -> u32 {
    if id == "hobgoblin"@ {
        data.balance.hobgoblin_ingot_cost
    } else if id == "overseer"@ {
        data.balance.overseer_ingot_cost
    } else {
        data.balance.engineer_ingot_cost
    }
}

/// Some creature of species `id` lives in the colony.
pub open spec fn species_present(session: GameSession, id: Seq<char>) -> bool {
    exists|i: int| 0 <= i < session.creatures@.len() && (#[trigger] session.creatures@[i]).species@ == id
}

/// A Breeding Pit button: its label, whether it can be pressed, and the
/// unlock hint shown under it while the specialist is locked. The Overseer
/// and Engineer are unique posts; the Hobgoblin is not.
pub open spec fn breed_button_view(session: GameSession, data: GameData, id: Seq<char>) -> (Seq<char>, bool, Option<Seq<char>>) {
    let name = match find_species(data, id) {
        Some(s) => s.name@,
        None => id,
    };
    let unlocked = is_unlocked(session, id);
    let posted = id != "hobgoblin"@ && species_present(session, id);
    let cost = breed_cost(data, id);
    (
        if !unlocked {
            name + " "@ + LOCKED_SPECIALIST_MARKER@
        } else if posted {
            name + " — posted"@
        } else {
            breed_label_text(id, name, cost as nat, data)
        },
        unlocked && !posted && session.economy.ingots_stock >= cost,
        if !unlocked { breeding_hint_text(session, data, id) } else { None },
    )
}

/// One Breeding Pit button.
#[derive(Debug, Clone)]
pub struct BreedButton {
    /// The species the button breeds.
    pub species: &'static str,
    pub label: String,
    pub enabled: bool,
    /// What unlocks the specialist, while it is locked.
    pub unlock_hint: Option<String>,
}

fn species_exists(session: &GameSession, id: &str) -> (r: bool)
    ensures
        r == species_present(*session, id@),
{
    let mut i: usize = 0;
    while i < session.creatures.len()
        invariant
            i <= session.creatures@.len(),
            forall|j: int| 0 <= j < i ==> (#[trigger] session.creatures@[j]).species@ != id@,
        decreases session.creatures@.len() - i,
    {
        if str_eq(session.creatures[i].species.as_str(), id) {
            return true;
        }
        i += 1;
    }
    false
}

fn breed_button(session: &GameSession, data: &GameData, id: &'static str) -> (b: BreedButton)
    ensures
        b.species@ == id@,
        (b.label@, b.enabled, text_of(b.unlock_hint)) == breed_button_view(*session, *data, id@),
{
    let name: &str = match data.species_def(id) {
        Some(s) => s.name.as_str(),
        None => id,
    };
    let unlocked = session.is_unlocked(id);
    let posted = !str_eq(id, "hobgoblin") && species_exists(session, id);
    let cost = if str_eq(id, "hobgoblin") {
        data.balance.hobgoblin_ingot_cost
    } else if str_eq(id, "overseer") {
        data.balance.overseer_ingot_cost
    } else {
        data.balance.engineer_ingot_cost
    };
    let label = if !unlocked {
        let mut s = name.to_owned();
        s.append(" ");
        s.append(LOCKED_SPECIALIST_MARKER);
        s
    } else if posted {
        let mut s = name.to_owned();
        s.append(" — posted");
        s
    } else {
        breed_label(id, name, cost, data)
    };
    let unlock_hint = if !unlocked { breeding_unlock_hint(session, data, id) } else { None };
    BreedButton { species: id, label, enabled: unlocked && !posted && session.economy.ingots_stock >= cost, unlock_hint }
}

/// The Breeding Pit's specialist buttons: Hobgoblin, Overseer, Engineer.
pub fn breeding_buttons(session: &GameSession, data: &GameData) -> (buttons: Vec<BreedButton>)
    ensures
        buttons@.len() == breed_targets().len(),
        forall|i: int|
            0 <= i < buttons@.len() ==> (#[trigger] buttons@[i]).species@ == breed_targets()[i] && (
            buttons@[i].label@,
            buttons@[i].enabled,
            text_of(buttons@[i].unlock_hint),
        ) == breed_button_view(*session, *data, breed_targets()[i]),
{
    let mut buttons: Vec<BreedButton> = Vec::new();
    buttons.push(breed_button(session, data, "hobgoblin"));
    buttons.push(breed_button(session, data, "overseer"));
    buttons.push(breed_button(session, data, "engineer"));
    buttons
}

// ---------------------------------------------------------------------------
// Readouts of the inspection card.

/// A Mine's buffer against its cap, and the ore left in its deposit (never
/// below zero).
pub open spec fn mine_stock_text(b: Building, data: GameData) -> (Seq<char>, Seq<char>) {
    let reserve = if b.reserve_milli > 0 { b.reserve_milli as int } else { 0 };
    (
        "Buffer "@ + whole_even_text(b.ore_milli as int, 1000) + "/"@
            + whole_even_text(data.balance.mine_buffer_cap_milli as int, 1000),
        "Reserve "@ + whole_even_text(reserve, 1000),
    )
}

/// The Mine card's buffer and reserve lines.
pub fn mine_stock_lines(building: &Building, data: &GameData) -> (r: (String, String))
    ensures
        (r.0@, r.1@) == mine_stock_text(*building, *data),
{
    let mut buffer = String::new();
    buffer.append("Buffer ");
    push_whole_even(&mut buffer, building.ore_milli as i128, 1000);
    buffer.append("/");
    push_whole_even(&mut buffer, data.balance.mine_buffer_cap_milli as i128, 1000);
    let reserve: i64 = if building.reserve_milli > 0 { building.reserve_milli } else { 0 };
    let mut left = String::new();
    left.append("Reserve ");
    push_whole_even(&mut left, reserve as i128, 1000);
    (buffer, left)
}

/// The stock line of a Farm (against its cap), Cook Pot, Kiln or Smelter;
/// `None` for other buildings.
pub open spec fn stock_text(session: GameSession, b: Building) -> Option<Seq<char>> {
    let kind = b.kind@;
    if kind == "farm"@ {
        Some("Mushrooms "@ + whole_even_text(b.mushroom_milli as int, 1000) + "/"@
            + whole_even_text(session.farm_cap_milli as int, 1000))
    } else if kind == "cook_pot"@ {
        Some("Mushrooms "@ + whole_even_text(b.mushroom_milli as int, 1000))
    } else if kind == "kiln"@ {
        Some("Wood "@ + whole_even_text(b.wood_milli as int, 1000) + "  Charcoal "@
            + whole_even_text(b.charcoal_milli as int, 1000))
    } else if kind == "smelter"@ {
        Some("Ore "@ + whole_even_text(b.ore_milli as int, 1000) + "  Charcoal "@
            + whole_even_text(b.charcoal_milli as int, 1000))
    } else {
        None
    }
}

/// The goods a Farm, Cook Pot, Kiln or Smelter holds, as its card prints
/// them.
pub fn stock_line(session: &GameSession, building: &Building) -> (res: Option<String>)
    ensures
        text_of(res) == stock_text(*session, *building),
{
    let kind = building.kind.as_str();
    let mut s = String::new();
    if str_eq(kind, "farm") {
        s.append("Mushrooms ");
        push_whole_even(&mut s, building.mushroom_milli as i128, 1000);
        s.append("/");
        push_whole_even(&mut s, session.farm_cap_milli as i128, 1000);
    } else if str_eq(kind, "cook_pot") {
        s.append("Mushrooms ");
        push_whole_even(&mut s, building.mushroom_milli as i128, 1000);
    } else if str_eq(kind, "kiln") {
        s.append("Wood ");
        push_whole_even(&mut s, building.wood_milli as i128, 1000);
        s.append("  Charcoal ");
        push_whole_even(&mut s, building.charcoal_milli as i128, 1000);
    } else if str_eq(kind, "smelter") {
        s.append("Ore ");
        push_whole_even(&mut s, building.ore_milli as i128, 1000);
        s.append("  Charcoal ");
        push_whole_even(&mut s, building.charcoal_milli as i128, 1000);
    } else {
        return None;
    }
    Some(s)
}

/// The Study Pen's specimen count.
pub open spec fn specimens_text(session: GameSession) -> Seq<char> {
    "Specimens housed · "@ + dec(session.specimens as nat)
}

/// How many captured specimens the Study Pen houses.
pub fn specimens_line(session: &GameSession) -> (s: String)
    ensures
        s@ == specimens_text(*session),
{
    let mut s = String::new();
    s.append("Specimens housed · ");
    push_dec(&mut s, session.specimens as u64);
    s
}

/// The Breeding Pit's current time between hatches, in whole seconds.
pub open spec fn hatch_cycle_text(session: GameSession) -> Seq<char> {
    "Hatch cycle "@ + whole_even_text(session.breeding_interval_milli as int, 1000) + "s"@
}

/// The Breeding Pit's hatch-cycle line.
pub fn hatch_cycle_line(session: &GameSession) -> (s: String)
    ensures
        s@ == hatch_cycle_text(*session),
{
    let mut s = String::new();
    s.append("Hatch cycle ");
    push_whole_even(&mut s, session.breeding_interval_milli as i128, 1000);
    s.append("s");
    s
}

/// Food the worm still needs before it wakes, never below zero.
pub open spec fn shrine_food_left_milli(session: GameSession, data: GameData) -> int {
    let left = data.balance.worm_awaken_at_milli - session.worm_fed_milli;
    if left > 0 { left } else { 0 }
}

/// The shortest time the remaining food takes at the shrine's draw, in whole
/// seconds; zero when the shrine draws nothing.
pub open spec fn shrine_feed_seconds(session: GameSession, data: GameData) -> nat {
    let per = data.balance.worm_food_per_min_milli;
    if per > 0 { (shrine_food_left_milli(session, data) * 60 / (per as int)) as nat } else { 0 }
}

/// The Worm Shrine card's progress lines: food and ingots offered against
/// what wakes the worm, what remains, and the food draw with the shortest
/// time the rest can take.
pub open spec fn shrine_progress_text(session: GameSession, data: GameData) -> (Seq<char>, Seq<char>, Seq<char>) {
    let ingots_left: nat = if data.balance.worm_awaken_ingots >= session.worm_ingots_fed {
        (data.balance.worm_awaken_ingots - session.worm_ingots_fed) as nat
    } else {
        0
    };
    (
        "Food "@ + whole_even_text(session.worm_fed_milli as int, 1000) + "/"@
            + whole_even_text(data.balance.worm_awaken_at_milli as int, 1000) + " · Ingots "@
            + dec(session.worm_ingots_fed as nat) + "/"@ + dec(data.balance.worm_awaken_ingots as nat),
        "Remaining "@ + whole_even_text(shrine_food_left_milli(session, data), 1000) + " food · "@
            + dec(ingots_left) + " ingots"@,
        "Food draw "@ + whole_even_text(data.balance.worm_food_per_min_milli as int, 1000) + "/min · minimum "@
            + mmss_text(shrine_feed_seconds(session, data)),
    )
}

/// The Worm Shrine card's three progress lines.
pub fn shrine_progress_lines(session: &GameSession, data: &GameData) -> (r: (String, String, String))
    ensures
        (r.0@, r.1@, r.2@) == shrine_progress_text(*session, *data),
{
    let mut offered = String::new();
    offered.append("Food ");
    push_whole_even(&mut offered, session.worm_fed_milli as i128, 1000);
    offered.append("/");
    push_whole_even(&mut offered, data.balance.worm_awaken_at_milli as i128, 1000);
    offered.append(" · Ingots ");
    push_dec(&mut offered, session.worm_ingots_fed as u64);
    offered.append("/");
    push_dec(&mut offered, data.balance.worm_awaken_ingots as u64);

    let diff: i128 = data.balance.worm_awaken_at_milli as i128 - session.worm_fed_milli as i128;
    let left: i128 = if diff > 0 { diff } else { 0 };
    let ingots_left: u32 = if data.balance.worm_awaken_ingots >= session.worm_ingots_fed {
        data.balance.worm_awaken_ingots - session.worm_ingots_fed
    } else {
        0
    };
    let mut remaining = String::new();
    remaining.append("Remaining ");
    push_whole_even(&mut remaining, left, 1000);
    remaining.append(" food · ");
    push_dec(&mut remaining, ingots_left as u64);
    remaining.append(" ingots");

    let per: i64 = data.balance.worm_food_per_min_milli;
    let secs: u128 = if per > 0 {
        assert(0 <= left * 60 <= 0x1_0000_0000_0000_0000 * 60) by (nonlinear_arith)
            requires
                0 <= left <= 0x1_0000_0000_0000_0000,
        ;
        ((left * 60) / (per as i128)) as u128
    } else {
        0
    };
    let mut draw = String::new();
    draw.append("Food draw ");
    push_whole_even(&mut draw, per as i128, 1000);
    draw.append("/min · minimum ");
    push_mmss(&mut draw, secs);
    (offered, remaining, draw)
}

/// The shrine's pause button: its label, and whether it can be pressed
/// (only until the worm wakes).
pub fn shrine_offering_toggle(session: &GameSession) -> (r: (&'static str, bool))
    ensures
        r.0@ == (if session.worm_feeding_paused { "Resume offerings"@ } else { "Pause offerings"@ }),
        r.1 == !session.worm_awake,
{
    let label = if session.worm_feeding_paused { "Resume offerings" } else { "Pause offerings" };
    (label, !session.worm_awake)
}

} // verus!
