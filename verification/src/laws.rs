//! Properties that hold across the HUD's readouts, whatever the colony's
//! state: what the map badge and the inspection card agree on, how the
//! recent-events pages cover the history, and what the guidance never
//! promises.

use vstd::prelude::*;
use crate::model::{
    Building, Creature, GameData, GameSession, Job, Outpost, TilePos, find_first, has_job, is_local,
    is_remote, job_count, lemma_count_complement, lemma_count_le_len, lemma_count_monotone,
    lemma_count_pointwise, lemma_count_update, lemma_find_first_at, lemma_find_first_is_first, local_count, reassignable, remote_count,
};
use crate::legibility::{
    BuildingStatus, advanced_unlocked, mans, needs_local_route, pending_haul_count, staffed, status_label,
    status_of,
};
use crate::status::{Tone, inspect_status_text, shrine_status_text};
use crate::help::{page_bounds, page_count};
use crate::guidance::{
    chorus_guidance_text, circuit_guidance_text, concord_guidance_text, contract_step_text, encore_guidance_text,
    first_free_source, relay_guidance_text,
};
use crate::routes::{is_active, needs_attention, totals_match, wants_attention, NetworkTotals};
use crate::model::{ExpeditionState, count_where};
use crate::guidance::{active_step_text, focus_route, has_building};
use crate::objective::objective_spec;
use crate::hud::{failure_of, overlay_of, GoalOverlay};
use crate::upgrades::{upgrade_entry, RouteUpgrade};
use crate::guidance::next_upgrade;
use crate::text::dec;

verus! {

// ---------------------------------------------------------------------------
// Recent events.

/// The first page of recent events ends at the newest entry, and each page
/// holds at most ten entries inside the history.
pub proof fn newest_events_open_the_first_page(history_len: nat, page: nat)
    ensures
        page_bounds(history_len, 0).1 == history_len,
        page_bounds(history_len, page).0 <= page_bounds(history_len, page).1 <= history_len,
        page_bounds(history_len, page).1 - page_bounds(history_len, page).0 <= 10,
{
}

/// Browsing one page older continues exactly where the newer page began:
/// no entry is skipped or shown twice.
pub proof fn older_page_continues_the_newer_one(history_len: nat, page: nat)
    ensures
        page_bounds(history_len, page + 1).1 == page_bounds(history_len, page).0,
{
    assert((page + 1) * 10 == page * 10 + 10) by (nonlinear_arith);
}

/// Every page the view counts shows at least one entry of a non-empty
/// history, the last of them reaches the oldest entry, and pages past the
/// count are empty.
pub proof fn event_pages_cover_the_history(history_len: nat, page: nat)
    requires
        history_len > 0,
    ensures
        page_count(history_len) >= 1,
        page_bounds(history_len, (page_count(history_len) - 1) as nat).0 == 0,
        page < page_count(history_len) ==> page_bounds(history_len, page).0 < page_bounds(history_len, page).1,
        page >= page_count(history_len) ==> page_bounds(history_len, page) == (0nat, 0nat),
{
    let pc = page_count(history_len);
    let q = (history_len + 9) / 10;
    assert(q >= 1);
    assert(pc == q);
    assert((q - 1) * 10 < history_len && history_len <= q * 10) by (nonlinear_arith)
        requires
            q == (history_len + 9) / 10,
            q >= 1,
    ;
    assert(page < q ==> page * 10 < history_len) by (nonlinear_arith)
        requires
            (q - 1) * 10 < history_len,
    ;
    assert(page >= q ==> page * 10 >= history_len) by (nonlinear_arith)
        requires
            history_len <= q * 10,
    ;
}

// ---------------------------------------------------------------------------
// Building status.

/// Spoiled stores are always shown: waste overflow outranks every other
/// status of any building.
pub proof fn waste_overflow_outranks_every_status(session: GameSession, data: GameData, b: Building)
    requires
        b.waste_milli > 0,
    ensures
        status_of(session, data, b) == Some(BuildingStatus::WasteOverflow),
{
}

/// A connected Mine whose deposit is dry reads as exhausted whether or not
/// anyone works it.
pub proof fn dry_mine_reads_exhausted(session: GameSession, data: GameData, b: Building)
    requires
        b.kind@ == "mine"@,
        b.waste_milli <= 0,
        b.connected,
        b.reserve_milli <= 0,
    ensures
        status_of(session, data, b) == Some(BuildingStatus::Exhausted),
{
}

/// A staffed, connected Smelter reads as starved whenever either input falls
/// short of a batch (ore or charcoal, each alone is enough), and shows no
/// badge when it holds both.
pub proof fn smelter_short_of_either_input_is_starved(session: GameSession, data: GameData, b: Building)
    requires
        b.kind@ == "smelter"@,
        b.waste_milli <= 0,
        b.connected,
        staffed(session, b.pos, Job::Smelter),
    ensures
        b.ore_milli < data.balance.smelt_batch_ore * 1000 ==> status_of(session, data, b) == Some(
            BuildingStatus::InputStarved,
        ),
        b.charcoal_milli < data.balance.smelt_batch_charcoal_milli ==> status_of(session, data, b) == Some(
            BuildingStatus::InputStarved,
        ),
        b.ore_milli >= data.balance.smelt_batch_ore * 1000 && b.charcoal_milli
            >= data.balance.smelt_batch_charcoal_milli ==> status_of(session, data, b) is None,
{
    reveal_strlit("smelter");
    reveal_strlit("mine");
    reveal_strlit("blacksmith");
    assert(b.kind@.len() == 7);
}

/// A creature stationed on a remote route never staffs a workstation in the
/// warren.
pub proof fn remote_crew_never_staffs_a_workstation(
    before: GameSession,
    after: GameSession,
    c: Creature,
    pos: TilePos,
    job: Job,
)
    requires
        c.remote,
        after.creatures@ == before.creatures@.push(c),
    ensures
        staffed(after, pos, job) == staffed(before, pos, job),
{
    if staffed(after, pos, job) {
        let i = choose|i: int| 0 <= i < after.creatures@.len() && mans(#[trigger] after.creatures@[i], pos, job);
        assert(i < before.creatures@.len());
        assert(after.creatures@[i] == before.creatures@[i]);
    }
    if staffed(before, pos, job) {
        let i = choose|i: int| 0 <= i < before.creatures@.len() && mans(#[trigger] before.creatures@[i], pos, job);
        assert(after.creatures@[i] == before.creatures@[i]);
    }
}

/// Sending one more creature to a remote route changes no building's status.
pub proof fn remote_crew_leaves_every_status_unchanged(
    before: GameSession,
    after: GameSession,
    c: Creature,
    data: GameData,
    b: Building,
)
    requires
        c.remote,
        after.creatures@ == before.creatures@.push(c),
        after == (GameSession { creatures: after.creatures, ..before }),
    ensures
        status_of(after, data, b) == status_of(before, data, b),
{
    remote_crew_never_staffs_a_workstation(before, after, c, b.pos, Job::Miner);
    remote_crew_never_staffs_a_workstation(before, after, c, b.pos, Job::Smith);
    remote_crew_never_staffs_a_workstation(before, after, c, b.pos, Job::Smelter);
    remote_crew_never_staffs_a_workstation(before, after, c, b.pos, Job::Cook);
}

/// The inspection card reads a workstation with the map badge's words: the
/// badge's label when it has one, "Working" when it has none.
pub proof fn inspection_reuses_the_map_vocabulary(session: GameSession, data: GameData, b: Building)
    requires
        b.kind@ != "worm_shrine"@,
        b.kind@ != "outpost"@,
    ensures
        match status_of(session, data, b) {
            Some(st) => inspect_status_text(session, data, b).0 == status_label(st)
                && inspect_status_text(session, data, b).1 != Tone::Positive,
            None => inspect_status_text(session, data, b) == ("Working"@, Tone::Positive),
        },
{
}

/// The Worm Shrine's map badge and its inspection card name the same
/// blocker.
pub proof fn shrine_badge_and_card_agree(session: GameSession, data: GameData, b: Building)
    requires
        b.kind@ == "worm_shrine"@,
        b.waste_milli <= 0,
    ensures
        inspect_status_text(session, data, b) == shrine_status_text(session, data),
        status_of(session, data, b) == Some(BuildingStatus::ShrineOfferingsPaused)
            ==> shrine_status_text(session, data).0 == "Paused — reserve protected"@,
        status_of(session, data, b) == Some(BuildingStatus::ShrineNeedsFood)
            ==> shrine_status_text(session, data).0 == "Waiting for food reserve"@,
        status_of(session, data, b) == Some(BuildingStatus::ShrineNeedsIngots)
            ==> shrine_status_text(session, data).0 == "Waiting for ingot reserve"@,
        status_of(session, data, b) is None <==> shrine_status_text(session, data).1 == Tone::Positive,
{
    reveal_strlit("worm_shrine");
    reveal_strlit("farm");
    reveal_strlit("mine");
    reveal_strlit("cook_pot");
    reveal_strlit("blacksmith");
    reveal_strlit("kiln");
    reveal_strlit("smelter");
    reveal_strlit("feeding_trough");
    reveal_strlit("outpost");
    assert(b.kind@.len() == 11);
    assert(!needs_local_route(b.kind@));
}

/// The pending-haul readout never counts more jobs than there are pickup
/// points and open construction sites.
pub proof fn pending_hauls_are_bounded(session: GameSession)
    ensures
        pending_haul_count(session) <= session.buildings@.len() + session.build_sites@.len(),
{
    lemma_count_le_len(session.buildings@, |b: Building| crate::legibility::haul_waiting(b));
    lemma_count_le_len(session.build_sites@, |s: crate::model::BuildSite| s.remaining > 0);
}

/// Goods arriving at a building never lower the pending-haul count: when
/// one building gains ore, mushrooms or ingots (and nothing else about the
/// colony changes), at least as many pickups wait as before.
pub proof fn arriving_goods_never_lower_pending_hauls(before: GameSession, after: GameSession, i: int, b: Building)
    requires
        0 <= i < before.buildings@.len(),
        after.buildings@ == before.buildings@.update(i, b),
        after.build_sites@ == before.build_sites@,
        b.kind@ == before.buildings@[i].kind@,
        b.orders@.len() == before.buildings@[i].orders@.len(),
        b.ore_milli >= before.buildings@[i].ore_milli,
        b.mushroom_milli >= before.buildings@[i].mushroom_milli,
        b.ingot_milli >= before.buildings@[i].ingot_milli,
    ensures
        pending_haul_count(after) >= pending_haul_count(before),
{
    let p = |x: Building| crate::legibility::haul_waiting(x);
    assert forall|k: int| 0 <= k < before.buildings@.len() && #[trigger] p(before.buildings@[k]) implies p(
        after.buildings@[k],
    ) by {
        if k != i {
            assert(after.buildings@[k] == before.buildings@[k]);
        }
    }
    lemma_count_pointwise(before.buildings@, after.buildings@, p);
}

/// A Mine whose buffer reaches one whole ore adds exactly one pending haul:
/// when a Mine holding less than one ore comes to hold at least one (and
/// nothing else about the colony changes), one more pickup waits than before.
pub proof fn mine_reaching_one_ore_adds_a_pending_haul(before: GameSession, after: GameSession, i: int, b: Building)
    requires
        0 <= i < before.buildings@.len(),
        after.buildings@ == before.buildings@.update(i, b),
        after.build_sites@ == before.build_sites@,
        before.buildings@[i].kind@ == "mine"@,
        b.kind@ == "mine"@,
        before.buildings@[i].ore_milli < 1000,
        b.ore_milli >= 1000,
    ensures
        pending_haul_count(after) == pending_haul_count(before) + 1,
{
    reveal_strlit("mine");
    reveal_strlit("farm");
    reveal_strlit("smelter");
    reveal_strlit("blacksmith");
    let p = |x: Building| crate::legibility::haul_waiting(x);
    let old_b = before.buildings@[i];
    assert("mine"@ != "farm"@) by {
        assert("mine"@[0] != "farm"@[0]);
    }
    assert("mine"@.len() != "smelter"@.len());
    assert("mine"@.len() != "blacksmith"@.len());
    assert(!p(old_b));
    assert(p(b));
    lemma_count_update(before.buildings@, i, b, p);
}

/// Any pickup point whose goods reach one whole unit adds exactly one
/// pending haul: a Farm's mushrooms, a Smelter's ingots, or the ingots of a
/// Blacksmith with no orders queued (nothing else about the colony
/// changing).
pub proof fn pickup_reaching_one_unit_adds_a_pending_haul(before: GameSession, after: GameSession, i: int, b: Building)
    requires
        0 <= i < before.buildings@.len(),
        after.buildings@ == before.buildings@.update(i, b),
        after.build_sites@ == before.build_sites@,
        b.kind@ == before.buildings@[i].kind@,
        (b.kind@ == "farm"@ && before.buildings@[i].mushroom_milli < 1000 && b.mushroom_milli >= 1000)
            || (b.kind@ == "smelter"@ && before.buildings@[i].ingot_milli < 1000 && b.ingot_milli >= 1000)
            || (b.kind@ == "blacksmith"@ && before.buildings@[i].ingot_milli < 1000 && b.ingot_milli >= 1000
                && b.orders@.len() == 0),
    ensures
        pending_haul_count(after) == pending_haul_count(before) + 1,
{
    reveal_strlit("mine");
    reveal_strlit("farm");
    reveal_strlit("smelter");
    reveal_strlit("blacksmith");
    let p = |x: Building| crate::legibility::haul_waiting(x);
    let old_b = before.buildings@[i];
    assert("mine"@ != "farm"@) by {
        assert("mine"@[0] != "farm"@[0]);
    }
    assert("mine"@.len() == 4 && "farm"@.len() == 4 && "smelter"@.len() == 7 && "blacksmith"@.len() == 10);
    if b.kind@ == "farm"@ {
        assert(old_b.kind@ != "mine"@);
    } else if b.kind@ == "smelter"@ {
        assert(old_b.kind@.len() == 7);
    } else {
        assert(old_b.kind@.len() == 10);
    }
    assert(!p(old_b));
    assert(p(b));
    lemma_count_update(before.buildings@, i, b, p);
}

// ---------------------------------------------------------------------------
// Workers and guidance.

/// Every creature is either at home in the warren or stationed on a route.
pub proof fn every_creature_is_home_or_remote(session: GameSession)
    ensures
        local_count(session) + remote_count(session) == session.creatures@.len(),
{
    lemma_count_complement(session.creatures@, is_local(), is_remote());
}

/// A job never has more workers the player may move than workers.
pub proof fn movable_workers_are_workers(session: GameSession, data: GameData, job: Job)
    ensures
        reassignable(session, data, job) <= job_count(session, job),
{
    let p = |c: Creature| !c.remote && c.job == job && crate::model::species_reassignable(data, c.species@);
    lemma_count_monotone(session.creatures@, p, has_job(job));
}

/// The Jobs-panel hint only names a source job that holds a worker the
/// player may move, and it names the first such job in the order given.
pub proof fn hints_name_only_movable_sources(session: GameSession, data: GameData, sources: Seq<Job>)
    ensures
        match first_free_source(session, data, sources) {
            Some(j) => reassignable(session, data, j) > 0 && exists|i: int|
                0 <= i < sources.len() && sources[i] == j && (forall|k: int|
                    0 <= k < i ==> reassignable(session, data, #[trigger] sources[k]) == 0),
            None => forall|k: int| 0 <= k < sources.len() ==> reassignable(session, data, #[trigger] sources[k]) == 0,
        },
{
    let p = |j: Job| reassignable(session, data, j) > 0;
    lemma_find_first_is_first(sources, p);
    match find_first(sources, p) {
        Some(j) => {
            let i = choose|i: int|
                0 <= i < sources.len() && sources[i] == j && p(j) && (forall|k: int| 0 <= k < i ==> !p(#[trigger] sources[k]));
            assert forall|k: int| 0 <= k < i implies reassignable(session, data, #[trigger] sources[k]) == 0 by {
                assert(!p(sources[k]));
            }
        },
        None => {
            assert forall|k: int| 0 <= k < sources.len() implies reassignable(session, data, #[trigger] sources[k]) == 0 by {
                assert(!p(sources[k]));
            }
        },
    }
}

/// The specialist and advanced-building controls appear once the security
/// handoff is done, stay visible once the worm is awake, and wait while no
/// Guard is posted before the worm wakes.
pub proof fn advanced_systems_follow_the_handoff(session: GameSession)
    ensures
        session.worm_awake ==> advanced_unlocked(session),
        session.won && job_count(session, Job::Guard) > 0 ==> advanced_unlocked(session),
        !session.worm_awake && job_count(session, Job::Guard) == 0 ==> !advanced_unlocked(session),
        !session.worm_awake && !session.won ==> !advanced_unlocked(session),
{
}

// ---------------------------------------------------------------------------
// Contracts and the objective card.

/// A claimed contract stops asking for work.
pub proof fn claimed_contracts_stop_guiding(session: GameSession, data: GameData)
    ensures
        session.outpost_relay_claimed ==> relay_guidance_text(session, data) is None,
        session.outpost_concord_claimed ==> concord_guidance_text(session, data) is None,
        session.outpost_circuit_claimed ==> circuit_guidance_text(session, data) is None,
        session.outpost_chorus_claimed ==> chorus_guidance_text(session, data) is None,
{
}

/// Once the Chorus is claimed, the objective card returns to the repeatable
/// Encore when no earlier contract has a step to show.
pub proof fn claimed_chorus_returns_to_the_encore(session: GameSession, data: GameData)
    requires
        session.outpost_circuit_claimed,
        session.outpost_chorus_claimed,
        data.balance.outpost_encore_haul_goal > 0,
        relay_guidance_text(session, data) is None,
        concord_guidance_text(session, data) is None,
    ensures
        contract_step_text(session, data) == encore_guidance_text(session, data),
        encore_guidance_text(session, data) is Some,
{
}

/// The objective card reads complete exactly when the worm is awake, and its
/// progress is always a ratio over a positive denominator.
pub proof fn objective_completes_with_the_awakening(session: GameSession, data: GameData)
    ensures
        objective_spec(session, data).4 <==> session.worm_awake,
        objective_spec(session, data).3.den > 0,
{
    let b = data.balance;
    if !session.worm_awake && !session.won {
        let food_den: int = if (b.win_food_surplus_milli as int) > 1000 { b.win_food_surplus_milli as int } else { 1000 };
        let ore_den: int = if (b.win_ore_delivered as int) > 1 { b.win_ore_delivered as int } else { 1 };
        assert(0 < food_den * ore_den <= 0x7fff_ffff_ffff_ffff * 0xffff_ffff) by (nonlinear_arith)
            requires
                1000 <= food_den <= 0x7fff_ffff_ffff_ffff,
                1 <= ore_den <= 0xffff_ffff,
        ;
    }
    if !session.worm_awake && session.won && job_count(session, Job::Guard) > 0 && session.factory_complete {
        let a: int = if (b.worm_awaken_at_milli as int) > 1000 { b.worm_awaken_at_milli as int } else { 1000 };
        let n: int = if (b.worm_awaken_ingots as int) > 1 { b.worm_awaken_ingots as int } else { 1 };
        assert(0 < a * n <= 0x7fff_ffff_ffff_ffff * 0xffff_ffff) by (nonlinear_arith)
            requires
                1000 <= a <= 0x7fff_ffff_ffff_ffff,
                1 <= n <= 0xffff_ffff,
        ;
    }
}

// ---------------------------------------------------------------------------
// The route network.

/// The network ledger never reports more active routes, or routes needing
/// attention, than routes.
pub proof fn network_counts_are_bounded(t: NetworkTotals, routes: Seq<Outpost>)
    requires
        totals_match(t, routes),
    ensures
        t.active <= routes.len(),
        t.attention <= routes.len(),
        t.attention + t.active >= routes.len(),
{
    lemma_count_le_len(routes, is_active());
    lemma_count_le_len(routes, wants_attention());
    let inactive = |o: Outpost| !o.active;
    lemma_count_complement(routes, is_active(), inactive);
    lemma_count_monotone(routes, inactive, wants_attention());
}

// ---------------------------------------------------------------------------
// Overlays.

/// An overlay takes the screen exactly when one of the conditions that hand
/// world input to a modal holds (a failed colony, the load confirmation, or
/// an undismissed milestone report), and a failed colony always wins.
pub proof fn overlays_follow_the_modal_conditions(session: GameSession, confirm_load: bool)
    ensures
        overlay_of(session, confirm_load) is Some <==> (failure_of(session) is Some || confirm_load || (
        session.worm_awake && !session.worm_shown) || (session.factory_complete && !session.factory_shown) || (
        session.won && !session.victory_shown)),
        failure_of(session) is Some ==> overlay_of(session, confirm_load) == Some(
            GoalOverlay::ColonyFailure(failure_of(session)->0),
        ),
{
}

// ---------------------------------------------------------------------------
// Route upgrades.

/// The objective card only recommends a route upgrade whose button the
/// route card shows, enabled, under the same name and cost.
pub proof fn recommended_upgrade_is_pressable(session: GameSession, data: GameData, o: Outpost)
    ensures
        match next_upgrade(session, data, o) {
            Some(rec) => exists|u: RouteUpgrade|
                #[trigger] upgrade_entry(session, data, o, u, false) == Some(
                    (rec.0 + " · "@ + dec(rec.1) + " ingots"@, true),
                ),
            None => true,
        },
{
    let b = data.balance;
    let avail = session.economy.ingots_stock;
    reveal_strlit(" · ");
    if !o.storage_upgraded && avail >= b.outpost_upgrade_ingots {
        reveal_strlit("Expand hold · ");
        reveal_strlit("Expand hold");
        assert("Expand hold · "@ =~= "Expand hold"@ + " · "@);
        assert(upgrade_entry(session, data, o, RouteUpgrade::Hold, false) is Some);
    } else if o.storage_upgraded && !o.crew_upgraded && avail >= b.outpost_crew_upgrade_ingots {
        reveal_strlit("Expand camp · ");
        reveal_strlit("Expand camp");
        assert("Expand camp · "@ =~= "Expand camp"@ + " · "@);
        assert(upgrade_entry(session, data, o, RouteUpgrade::Camp, false) is Some);
    } else if o.storage_upgraded && o.crew_upgraded && !o.survey_upgraded && avail >= b.outpost_survey_upgrade_ingots {
        reveal_strlit("Install survey · ");
        reveal_strlit("Install survey");
        assert("Install survey · "@ =~= "Install survey"@ + " · "@);
        assert(upgrade_entry(session, data, o, RouteUpgrade::Survey, false) is Some);
    } else if o.survey_upgraded && !o.resonator_upgraded && avail >= b.outpost_resonator_upgrade_ingots {
        reveal_strlit("Tune beacon · ");
        reveal_strlit("Tune beacon");
        assert("Tune beacon · "@ =~= "Tune beacon"@ + " · "@);
        assert(upgrade_entry(session, data, o, RouteUpgrade::Beacon, false) is Some);
    } else if o.resonator_upgraded && session.outpost_charter_claimed && !o.deep_survey_upgraded
        && avail >= b.outpost_deep_survey_upgrade_ingots {
        reveal_strlit("Calibrate deep survey · ");
        reveal_strlit("Calibrate deep survey");
        assert("Calibrate deep survey · "@ =~= "Calibrate deep survey"@ + " · "@);
        assert(upgrade_entry(session, data, o, RouteUpgrade::DeepSurvey, false) is Some);
    } else if o.deep_survey_upgraded && session.outpost_relay_claimed && !o.signal_cache_upgraded
        && avail >= b.outpost_signal_cache_upgrade_ingots {
        reveal_strlit("Install signal cache · ");
        reveal_strlit("Install signal cache");
        assert("Install signal cache · "@ =~= "Install signal cache"@ + " · "@);
        assert(upgrade_entry(session, data, o, RouteUpgrade::SignalCache, false) is Some);
    } else if o.signal_cache_upgraded && session.outpost_convoy_claims > 0 && !o.waypoint_upgraded
        && avail >= b.outpost_waypoint_upgrade_ingots {
        reveal_strlit("Install Worm Road waypoint · ");
        reveal_strlit("Install Worm Road waypoint");
        assert("Install Worm Road waypoint · "@ =~= "Install Worm Road waypoint"@ + " · "@);
        assert(upgrade_entry(session, data, o, RouteUpgrade::Waypoint, false) is Some);
    }
}

// ---------------------------------------------------------------------------
// What the objective card and the route ledger single out.

/// While the worm sleeps in its built shrine (warren secured, a Guard
/// posted, the Biofoundry complete), the card names what holds the offerings
/// back: paused offerings first, then missing food, then missing ingots.
pub proof fn offerings_card_names_the_blocker(session: GameSession, data: GameData)
    requires
        !session.worm_awake,
        session.won,
        job_count(session, Job::Guard) > 0,
        session.factory_complete,
        has_building(session, "worm_shrine"@),
    ensures
        objective_spec(session, data).0 == "Awaken the Worm"@,
        session.worm_feeding_paused ==> objective_spec(session, data).2
            == "Next: tap Resume offerings in the Worm Shrine panel."@,
        !session.worm_feeding_paused && session.worm_fed_milli < data.balance.worm_awaken_at_milli
            ==> objective_spec(session, data).2 == "Next: keep Food Grid production above Upkeep for the offerings."@,
        !session.worm_feeding_paused && session.worm_fed_milli >= data.balance.worm_awaken_at_milli
            && session.worm_ingots_fed < data.balance.worm_awaken_ingots ==> objective_spec(session, data).2
            == "Next: keep forging ingots for the remaining offerings."@,
{
}

/// A route needs the player when it is switched off, when its last run
/// failed, or when its expedition lacks crew, is paused, lacks food or has a
/// full hold; a switched-on route with none of these needs nothing. The
/// ledger's attention count is therefore never below the number of failed
/// routes.
pub proof fn failed_routes_need_attention(o: Outpost, t: NetworkTotals, routes: Seq<Outpost>)
    requires
        totals_match(t, routes),
    ensures
        !o.active ==> needs_attention(o),
        o.failed ==> needs_attention(o),
        o.readout.expedition == ExpeditionState::NoCrew ==> needs_attention(o),
        o.readout.expedition == ExpeditionState::Paused ==> needs_attention(o),
        o.readout.expedition is NeedsFood ==> needs_attention(o),
        o.readout.expedition == ExpeditionState::HoldFull ==> needs_attention(o),
        o.active && !o.failed && !(o.readout.expedition is NoCrew) && !(o.readout.expedition is Paused)
            && !(o.readout.expedition is NeedsFood) && !(o.readout.expedition is HoldFull) ==> !needs_attention(o),
        t.attention >= count_where(routes, |r: Outpost| r.failed),
{
    let failed = |r: Outpost| r.failed;
    assert forall|r: Outpost| #[trigger] failed(r) implies wants_attention()(r) by {}
    lemma_count_monotone(routes, failed, wants_attention());
}

/// When no active route holds cargo without crew, the card turns to the
/// first active route whose scouting is paused, and, when that route has
/// scouts out, asks the player to resume it.
pub proof fn paused_route_takes_the_focus(session: GameSession, data: GameData, i: int)
    requires
        0 <= i < session.outposts@.len(),
        session.outposts@[i].active,
        session.outposts@[i].readout.expedition == ExpeditionState::Paused,
        forall|j: int| 0 <= j < i ==> !(#[trigger] session.outposts@[j].active
            && session.outposts@[j].readout.expedition == ExpeditionState::Paused),
        forall|k: int| 0 <= k < session.outposts@.len() && #[trigger] session.outposts@[k].active
            ==> !(session.outposts@[k].cargo_total > 0 && session.outposts@[k].crew == 0),
    ensures
        focus_route(session, data) == Some(session.outposts@[i]),
        session.outposts@[i].crew > 0 ==> active_step_text(session, data)
            == "Next: tap the active Worm Outpost, then Resume scouting."@,
{
    let r = session.outposts@;
    let p0 = crate::guidance::focus_stage(session, data, 0);
    let p1 = crate::guidance::focus_stage(session, data, 1);
    lemma_find_first_is_first(r, p0);
    if find_first(r, p0) is Some {
        let x = find_first(r, p0)->0;
        let k = choose|k: int| 0 <= k < r.len() && r[k] == x && p0(x) && (forall|j: int| 0 <= j < k ==> !p0(#[trigger] r[j]));
        assert(r[k].active);
        assert(false);
    }
    assert forall|j: int| 0 <= j < i implies !p1(#[trigger] r[j]) by {
        assert(!(r[j].active && r[j].readout.expedition == ExpeditionState::Paused));
    }
    lemma_find_first_at(r, p1, i);
}

} // verus!
