use biofoundry::guidance::{
    active_outpost_next_step, charter_guidance, chorus_contract_guidance, convoy_contract_guidance,
    encore_contract_guidance, endless_forge_next_step, job_assignment_action_hint,
    outpost_has_loadable_payload, outpost_upgrade_next_step, pending_build_site, reassignable_job_count,
    relay_contract_guidance, security_handoff_action_hint, shrine_build_requirement,
};
use biofoundry::help::{
    event_log_page_bounds, event_log_page_count, event_log_view, EMPTY_EVENT_LOG_TEXT, field_guide_inspect_content, field_guide_objective_content,
    recovery_guide_body, ENDLESS_INSPECT_HELP_BODY, ENDLESS_OBJECTIVE_HELP_BODY, FIELD_GUIDE_INTRO,
    INSPECT_HELP_BODY, LOAD_CONFIRMATION_TEXT, OBJECTIVE_HELP_BODY,
};
use biofoundry::hud::{
    active_tool_marker, colony_failure_actions, colony_failure_body, colony_failure_reason, colony_failure_title,
    construction_progress_label, factory_completion_body, goal_overlay, goal_report, is_core_building,
    modal_owns_world_input, resource_bank_line, route_ledger_open, status_legend_visible, tutorial_body,
    warren_victory_body, warren_victory_continue_label, worm_completion_body, ColonyFailure, GoalOverlay,
    LOCKED_TOOL_MARKER, TutorialStepDef, UiAction,
};
use biofoundry::inspect::{
    blacksmith_input_hint, blacksmith_queue_available, blacksmith_recipe_rows, breed_label, breeding_buttons,
    breeding_unlock_hint, cook_pot_input_hint, hatch_cycle_line, inspection_button_metrics, kiln_input_hint,
    local_smelter_staffed_at, local_smelter_worker_at, local_smith_staffed_at, local_smith_worker_at,
    mine_stock_lines, shrine_offering_line, shrine_offering_toggle, shrine_progress_lines, smelter_input_hint,
    smelter_staffing_line, smith_staffing_line, specimens_line, stock_line, study_adaptation_line,
    LOCKED_SPECIALIST_MARKER,
};
use biofoundry::jobs::{engineer_roster_line, jobs_panel_rows, locked_recruit_lines, recruit_buttons};
use biofoundry::legibility::{
    advanced_systems_unlocked, building_status, pending_hauls, requires_local_route, shrine_waiting_for_food,
    shrine_waiting_for_ingots, staffed_at, BuildingStatus,
};
use biofoundry::model::{
    Balance, Building, BuildSite, CargoLoad, CargoPriority, Counter, Creature, Economy, EquipmentDef,
    ExpeditionState, GameData, GameSession, Job, NetworkProgress, Outpost, RouteReadout, SpeciesDef, Task,
    TilePos, TransitDirection, Unlock, WormTransit,
};
use biofoundry::objective::{CampaignObjective, Fraction};
use biofoundry::requirements::{unlock_requirement, unlock_requirement_progress};
use biofoundry::routes::{
    automatic_route_summary, charter_summary, chorus_contract_summary, circuit_contract_summary,
    compact_route_metrics, compact_route_network_summary, concord_contract_summary, convoy_contract_summary,
    encore_contract_summary, ledger_contract_lines, muster_contract_summary, relay_contract_summary,
    route_card_cell, route_column_count, route_ledger_rows, route_metrics, route_name, route_needs_attention,
    route_network_summary, route_policy_label, route_policy_summary, route_position, worm_transit_summary,
};
use biofoundry::specialists::{
    optional_specialist_button_label, optional_specialist_label, optional_support_button_label,
    optional_support_label, optional_upkeep_label,
};
use biofoundry::status::{
    inspect_status, inspection_header, local_mine_staffed_at, local_mine_worker_at, mine_staffing_label,
    outpost_archive_summary, outpost_cargo_only_return_label, outpost_expedition_hint, outpost_load_hint,
    outpost_return_label, outpost_signal_cache_summary, outpost_waypoint_summary, transit_destination,
    transit_payload_line, waste_inspection_hint, worm_shrine_status, Tone,
};
use biofoundry::top_bar::{
    compact_food_recovery_hint, compact_raid_defense_hint, condensed_food_recovery_hint,
    condensed_raid_defense_hint, engineer_status_label, population_stats, top_bar_banner,
    workforce_capacity_label, workforce_pressure_label, Emphasis,
};
use biofoundry::upgrades::{route_upgrade_buttons, RouteUpgrade};

// ---------------------------------------------------------------------------
// A colony to test against: a balance table for the tests, and a
// freshly founded warren (four goblins, a stockpile, a Mine and a Farm).

fn unlock(id: &str, counter: &str, threshold: u32) -> Unlock {
    Unlock { id: id.to_owned(), counter: counter.to_owned(), threshold }
}

fn species(id: &str, reassignable: bool, food_per_min: i64, work_mult: i64) -> SpeciesDef {
    SpeciesDef { id: id.to_owned(), name: id.to_owned(), reassignable, eats_food: true, food_per_min_milli: food_per_min, work_mult_milli: work_mult }
}

fn data() -> GameData {
    GameData {
        balance: Balance {
            outpost_charter_haul_goal: 3,
            outpost_charter_reward_ingots: 12,
            outpost_archive_haul_goal: 5,
            outpost_archive_reward_ingots: 8,
            outpost_relay_route_goal: 2,
            outpost_relay_haul_goal: 6,
            outpost_relay_reward_ingots: 20,
            outpost_convoy_route_goal: 3,
            outpost_convoy_haul_goal: 12,
            outpost_convoy_reward_ingots: 24,
            outpost_muster_route_goal: 3,
            outpost_muster_haul_goal: 9,
            outpost_muster_reward_ingots: 30,
            outpost_concord_role_goal: 4,
            outpost_concord_reward_ingots: 40,
            outpost_circuit_route_goal: 2,
            outpost_circuit_reward_ingots: 60,
            outpost_encore_haul_goal: 6,
            outpost_encore_reward_ingots: 25,
            outpost_chorus_route_goal: 3,
            outpost_chorus_reward_ingots: 80,
            outpost_chorus_ingots_per_haul: 1,
            outpost_upgrade_ingots: 10,
            outpost_crew_upgrade_ingots: 12,
            outpost_survey_upgrade_ingots: 14,
            outpost_resonator_upgrade_ingots: 16,
            outpost_deep_survey_upgrade_ingots: 18,
            outpost_signal_cache_upgrade_ingots: 20,
            outpost_waypoint_upgrade_ingots: 22,
            order_queue_size: 3,
            smith_batch_ore: 2,
            smelt_batch_ore: 1,
            smelt_batch_charcoal_milli: 1000,
            cook_batch_mushrooms: 3,
            raw_recipe_multiplier_milli: 1500,
            mine_buffer_cap_milli: 10_000,
            worm_feed_reserve_milli: 20_000,
            worm_awaken_at_milli: 100_000,
            worm_awaken_ingots: 10,
            worm_food_per_min_milli: 6_000,
            worm_food_per_offering_milli: 10_000,
            worm_ingots_per_offering: 1,
            worm_ingot_reserve: 5,
            win_food_surplus_milli: 100_000,
            win_ore_delivered: 50,
            win2_ingots: 30,
            overseer_aura_mult_milli: 1350,
            outpost_capacity: 3,
            outpost_signal_cache_ingots_per_haul: 1,
            breed_interval_milli: 60_000,
            raid_warning_milli: 60_000,
            food_warning_milli: 90_000,
            beetle_ore_cost: 6,
            salamander_ore_cost: 10,
            hobgoblin_ingot_cost: 4,
            overseer_ingot_cost: 6,
            engineer_ingot_cost: 8,
        },
        unlocks: vec![
            unlock("worm_shrine", "ingots_forged", 20),
            unlock("breeding_pit", "beetles_captured", 2),
            unlock("slime_janitor", "waste_generated", 10),
            unlock("hobgoblin", "ingots_forged", 30),
            unlock("adaptive_haulers", "knowledge", 12),
            unlock("brood_memory", "knowledge", 24),
            unlock("worm_transit", "ingots_forged", 60),
            unlock("archive_wayfinder", "outpost_archive_claims", 1),
            unlock("wormsong_harness", "outpost_muster_claims", 1),
        ],
        species: vec![
            species("goblin", true, 1000, 1000),
            SpeciesDef { name: "Hobgoblin".to_owned(), ..species("hobgoblin", true, 2000, 2000) },
            SpeciesDef { name: "Goblin Overseer".to_owned(), ..species("overseer", false, 2000, 1000) },
            SpeciesDef { name: "Goblin Engineer".to_owned(), ..species("engineer", false, 1500, 1250) },
            species("salamander", false, 1500, 1000),
            species("slime_janitor", false, 500, 1000),
            species("bat_courier", false, 500, 1000),
            SpeciesDef {
                id: "beetle".to_owned(),
                name: "Beetle".to_owned(),
                reassignable: false,
                eats_food: false,
                food_per_min_milli: 0,
                work_mult_milli: 1000,
            },
        ],
        equipment: vec![EquipmentDef { id: "iron_pickaxe".to_owned(), name: "Iron Pickaxe".to_owned(), cost_ingots: 2 }],
    }
}

fn building(kind: &str, pos: TilePos) -> Building {
    Building {
        kind: kind.to_owned(),
        pos,
        reserve_milli: 0,
        waste_milli: 0,
        ore_milli: 0,
        mushroom_milli: 0,
        charcoal_milli: 0,
        ingot_milli: 0,
        wood_milli: 0,
        orders: Vec::new(),
        connected: true,
    }
}

fn creature(species: &str, job: Job) -> Creature {
    Creature { species: species.to_owned(), job, remote: false, carrying: false, tile: TilePos::new(5, 5), task: Task::Other }
}

const STOCKPILE: TilePos = TilePos { x: 3, y: 3 };
const MINE: TilePos = TilePos { x: 6, y: 4 };
const FARM: TilePos = TilePos { x: 2, y: 6 };
const OPEN: TilePos = TilePos { x: 9, y: 9 };
const SECOND: TilePos = TilePos { x: 12, y: 9 };

fn network() -> NetworkProgress {
    NetworkProgress {
        archive: 0,
        total_expeditions: 0,
        relay_routes: 0,
        relay_hauls: 0,
        convoy_routes: 0,
        convoy_hauls: 0,
        muster_routes: 0,
        muster_hauls: 0,
        concord_roles: 0,
        concord_routes: 0,
        circuit_complete: 0,
        circuit_active: 0,
        chorus_complete: 0,
        chorus_active: 0,
        encore: 0,
    }
}

fn session() -> GameSession {
    let mut mine = building("mine", MINE);
    mine.reserve_milli = 400_000;
    GameSession {
        creatures: vec![
            creature("goblin", Job::Miner),
            creature("goblin", Job::Miner),
            creature("goblin", Job::Carrier),
            creature("goblin", Job::Cook),
        ],
        buildings: vec![building("stockpile", STOCKPILE), mine, building("farm", FARM)],
        build_sites: Vec::new(),
        outposts: Vec::new(),
        economy: Economy { food_milli: 30_000, ore_stock: 0, ingots_stock: 0, ingots_forged: 0, ore_delivered_total: 0 },
        unlocked: Vec::new(),
        won: false,
        factory_complete: false,
        worm_awake: false,
        victory_shown: false,
        factory_shown: false,
        worm_shown: false,
        worm_feeding_paused: false,
        worm_fed_milli: 0,
        worm_ingots_fed: 0,
        outpost_charter_claimed: false,
        outpost_archive_claims: 0,
        outpost_relay_claimed: false,
        outpost_convoy_claims: 0,
        outpost_muster_claims: 0,
        outpost_concord_claimed: false,
        outpost_circuit_claimed: false,
        outpost_encore_claims: 0,
        outpost_chorus_claimed: false,
        worm_transit: None,
        stockpile_pos: STOCKPILE,
        warren_capacity: 8,
        courier_deliveries: 0,
        elapsed_milli: 0,
        non_viable: false,
        beetle_carry_multiplier_milli: 1000,
        breeding_interval_milli: 60_000,
        specimens: 0,
        farm_cap_milli: 12_000,
        network: network(),
        counters: Vec::new(),
        automatic_preview: None,
        raid_active: false,
        raid_in_milli: 300_000,
        last_transit_failure: false,
        food_empty_in_milli: None,
    }
}

/// A freshly placed route: switched off, empty, with the base hold and camp.
fn route(pos: TilePos) -> Outpost {
    Outpost {
        pos,
        active: false,
        cargo_total: 0,
        crew: 0,
        crew_dispatch_limit: None,
        cargo_priority: CargoPriority::Ore,
        auto_load: false,
        auto_return_cargo: false,
        auto_resupply_food: false,
        expedition_paused: false,
        storage_upgraded: false,
        crew_upgraded: false,
        survey_upgraded: false,
        resonator_upgraded: false,
        deep_survey_upgraded: false,
        signal_cache_upgraded: false,
        waypoint_upgraded: false,
        failed: false,
        ore_scouted: 0,
        signal_cache_ingots: 0,
        chorus_ingots: 0,
        readout: RouteReadout {
            expedition: ExpeditionState::Inactive,
            route_expedition: ExpeditionState::Inactive,
            storage_capacity: 12,
            crew_capacity: 3,
            ore_per_crew: 3,
            cache_ingots_per_haul: 1,
            chorus_ingots_per_haul: 0,
            wormsong_bonus: false,
            bonus_summary: None,
            cycle_milli: 30_000,
            transit_milli: 12_000,
            loadable_payload: false,
            hold_capacity: 12,
            load_preview: CargoLoad { ore: 0, ingots: 0, food: 0 },
        },
    }
}

/// An active route whose expedition the simulation reports in `state`.
fn active_route(pos: TilePos, state: ExpeditionState) -> Outpost {
    let mut r = route(pos);
    r.active = true;
    r.readout.expedition = state;
    r.readout.route_expedition = state;
    r
}

fn counter(name: &str, value: u32) -> Counter {
    Counter { name: name.to_owned(), value }
}

/// The colony with a building of `kind` added on open floor.
fn with_building(mut s: GameSession, kind: &str, pos: TilePos) -> GameSession {
    s.buildings.push(building(kind, pos));
    s
}

/// The colony with a route built at `pos`.
fn with_route(mut s: GameSession, r: Outpost) -> GameSession {
    s.buildings.push(building("outpost", r.pos));
    s.outposts.push(r);
    s
}

fn step(id: &str) -> TutorialStepDef {
    TutorialStepDef { id: id.to_owned(), body: "Follow the glowing path.".to_owned() }
}

// ---------------------------------------------------------------------------
// Markers and field guide.

#[test]
fn locked_specialist_marker_uses_font_safe_ascii() {
    assert_eq!(LOCKED_SPECIALIST_MARKER, "[L]");
}

#[test]
fn locked_tool_marker_uses_font_safe_ascii() {
    assert_eq!(LOCKED_TOOL_MARKER, "[L]");
    assert!(!LOCKED_TOOL_MARKER.contains('🔒'));
}

#[test]
fn active_tool_marker_uses_a_font_safe_glyph() {
    assert_eq!(active_tool_marker(false), "");
    assert_eq!(active_tool_marker(true), "> ");
    assert!(!active_tool_marker(true).contains('▶'));
}

#[test]
fn field_guide_exposes_the_recent_events_view() {
    assert!(FIELD_GUIDE_INTRO.contains("Recent events"));
}

#[test]
fn active_load_confirmation_names_both_visible_choices_and_the_risk() {
    assert!(LOAD_CONFIRMATION_TEXT.contains("Load Last Save"));
    assert!(LOAD_CONFIRMATION_TEXT.contains("Keep Current"));
    assert!(LOAD_CONFIRMATION_TEXT.contains("discarded"));
}

#[test]
fn recent_event_pages_keep_newest_entries_on_the_first_page() {
    assert_eq!(event_log_page_count(0), 1);
    assert_eq!(event_log_page_count(10), 1);
    assert_eq!(event_log_page_count(11), 2);
    assert_eq!(event_log_page_bounds(25, 0), (15, 25));
    assert_eq!(event_log_page_bounds(25, 1), (5, 15));
    assert_eq!(event_log_page_bounds(25, 2), (0, 5));
    assert_eq!(event_log_page_bounds(5, 9), (0, 0));
}

#[test]
fn recovery_guide_names_enabled_controls_for_a_fresh_warren() {
    let data = data();
    let session = session();

    let body = recovery_guide_body(&session, &data);

    assert!(body.contains("tap − Miner, then + Carrier"));
    assert!(body.contains("tap − Miner, then + Guard"));
    assert!(!body.contains("tap + beside Carrier"));
    assert!(!body.contains("tap + beside Guard."));
}

#[test]
fn recovery_guide_keeps_specialists_out_of_disabled_recovery_steps() {
    let data = data();
    let mut session = session();
    session.creatures.clear();
    session.creatures.push(creature("overseer", Job::Idle));

    let body = recovery_guide_body(&session, &data);

    assert!(body.contains("free a worker, then + Carrier"));
    assert!(body.contains("free a worker, then + Guard"));
}

#[test]
fn saved_failure_offers_load_or_direct_restart() {
    let ((load_action, load_label), (restart_action, restart_label)) = colony_failure_actions(true);

    assert_eq!(load_action, UiAction::Load);
    assert_eq!(load_label, "Load Last Safe");
    assert_eq!(restart_action, UiAction::StartWarren);
    assert_eq!(restart_label, "Start New Warren");
    assert!(colony_failure_body(ColonyFailure::Silent, true).contains("tap Start New Warren"));
    assert!(colony_failure_body(ColonyFailure::GuardHandoff, true).contains("replace this checkpoint"));
}

#[test]
fn failure_without_a_save_keeps_new_warren_and_menu_choices() {
    let ((restart_action, restart_label), (menu_action, menu_label)) = colony_failure_actions(false);

    assert_eq!(restart_action, UiAction::StartWarren);
    assert_eq!(restart_label, "Start New Warren");
    assert_eq!(menu_action, UiAction::BackToMenu);
    assert_eq!(menu_label, "Return to Menu");
}

#[test]
fn active_load_confirmation_owns_world_input() {
    assert!(modal_owns_world_input(false, false, false, false, false, false, true));
    assert!(!modal_owns_world_input(false, false, false, false, false, false, false));
}

// ---------------------------------------------------------------------------
// Milestone reports and colony failure.

#[test]
fn worm_completion_summary_names_the_resources_consumed() {
    let data = data();
    let mut session = session();
    session.elapsed_milli = 1234;
    session.worm_fed_milli = data.balance.worm_awaken_at_milli;
    session.worm_ingots_fed = data.balance.worm_awaken_ingots;

    let body = worm_completion_body(&session);

    assert!(body.contains(&format!(
        "Fed on {:.0} food and {} ingots",
        data.balance.worm_awaken_at_milli / 1000,
        data.balance.worm_awaken_ingots
    )));
    assert!(body.contains("Tap Continue in Endless"));
    assert!(body.contains("tap Return to Menu"));
    assert!(!body.contains("offerings"));
}

#[test]
fn warren_victory_report_keeps_the_guard_handoff_explicit() {
    let data = data();
    let mut session = session();
    session.won = true;

    let body = warren_victory_body(&session, &data);
    assert!(body.contains("Onboarding still needs a Guard"));
    assert!(body.contains("tap − beside Miner, then + beside Guard"));
    assert_eq!(warren_victory_continue_label(&session), "Return to Warren");

    session.creatures[0].job = Job::Guard;
    let body = warren_victory_body(&session, &data);
    assert!(body.contains("Onboarding is complete"));
    assert!(body.contains("Tap Continue to Factory"));
    assert!(body.contains("tap Blacksmith in Build & Dig"));
    assert!(body.contains("tap open floor"));
    assert!(!body.contains("still needs a Guard"));
    assert_eq!(warren_victory_continue_label(&session), "Continue to Factory");
}

#[test]
fn warren_victory_report_does_not_promise_a_specialist_assignment() {
    let data = data();
    let mut session = session();
    session.won = true;
    session.creatures.clear();
    session.creatures.push(creature("overseer", Job::Idle));

    let body = warren_victory_body(&session, &data);

    assert!(body.contains("free a worker, then tap + beside Guard in Jobs"));
    assert!(!body.contains("After closing this report, tap + beside Guard in Jobs."));
}

#[test]
fn factory_completion_body_names_the_visible_worm_handoff_controls() {
    let session = session();
    let body = factory_completion_body(&session);

    assert!(body.contains("Tap Continue to Worm"));
    assert!(body.contains("tap Shrine in Build & Dig"));
    assert!(body.contains("tap open floor"));
    assert!(body.contains("tap Return to Menu"));
}

#[test]
fn colony_failure_detects_a_stuck_security_handoff() {
    let data = data();
    let mut session = session();
    session.won = true;
    session.creatures.clear();
    session.creatures.push(creature("overseer", Job::Idle));
    // The simulation judges that no worker can be moved to the Guard post.
    session.non_viable = true;

    assert_eq!(colony_failure_reason(&session, &data), Some(ColonyFailure::GuardHandoff));
}

#[test]
fn colony_failure_does_not_interrupt_an_awakened_specialist_warren() {
    let data = data();
    let mut session = session();
    session.won = true;
    session.worm_awake = true;
    session.creatures.clear();
    session.creatures.push(creature("overseer", Job::Idle));
    session.non_viable = true;

    assert_eq!(colony_failure_reason(&session, &data), None);
}

// ---------------------------------------------------------------------------
// Top bar and Jobs panel.

#[test]
fn compact_raid_hint_names_the_controls_for_a_fresh_warren() {
    let data = data();
    let session = session();

    assert_eq!(session.job_count(Job::Idle), 0);
    assert_eq!(compact_raid_defense_hint(&session, &data), "tap − Miner, then + Guard");
}

#[test]
fn compact_raid_hint_shortens_when_a_worker_is_idle_or_guarded() {
    let data = data();
    let mut session = session();

    session.creatures[0].job = Job::Idle;
    assert_eq!(compact_raid_defense_hint(&session, &data), "tap + Guard");

    session.creatures[1].job = Job::Guard;
    assert_eq!(compact_raid_defense_hint(&session, &data), "guards on watch");
}

#[test]
fn compact_raid_hint_uses_an_available_specialist_job() {
    let data = data();
    let mut session = session();
    session.creatures.clear();
    session.creatures.push(creature("overseer", Job::Idle));
    session.creatures.push(creature("goblin", Job::Smith));

    assert_eq!(compact_raid_defense_hint(&session, &data), "tap − Smith, then + Guard");
}

#[test]
fn secure_tutorial_names_the_available_guard_action() {
    let data = data();
    let session = session();

    let body = tutorial_body(&step("secure"), &session, &data);

    assert!(body.contains("tap − beside Miner, then + beside Guard in Jobs"));
    assert!(!body.contains("if Idle is 0"));
}

#[test]
fn food_tutorial_names_the_available_carrier_action() {
    let data = data();
    let session = session();

    let body = tutorial_body(&step("food"), &session, &data);

    assert!(body.contains("tap − beside Miner, then + beside Carrier in Jobs"));
    assert!(!body.contains("If Idle is 0"));
}

#[test]
fn factory_tutorial_names_the_available_smith_action() {
    let data = data();
    let session = session();

    let body = tutorial_body(&step("factory"), &session, &data);

    assert!(body.contains("tap − beside Miner, then + beside Smith in Jobs"));
    assert!(!body.contains("If Idle is 0"));
}

#[test]
fn secure_tutorial_keeps_specialist_recovery_honest() {
    let data = data();
    let mut session = session();
    session.creatures.clear();
    session.creatures.push(creature("overseer", Job::Idle));

    let body = tutorial_body(&step("secure"), &session, &data);

    assert!(body.contains("free a worker, then tap + beside Guard in Jobs"));
}

#[test]
fn compact_food_hint_fits_the_top_bar() {
    let data = data();
    let session = session();

    assert_eq!(compact_food_recovery_hint(&session, &data), "tap − Miner, then + Carrier");
}

#[test]
fn compact_raid_hint_stays_short_when_a_worker_is_free() {
    let data = data();
    let mut session = session();
    session.creatures[0].job = Job::Idle;

    assert_eq!(compact_raid_defense_hint(&session, &data), "tap + Guard");
}

#[test]
fn hints_do_not_promise_reassignment_of_a_specialist() {
    let data = data();
    let mut session = session();
    session.creatures.clear();
    session.creatures.push(creature("overseer", Job::Idle));

    assert_eq!(reassignable_job_count(&session, &data, Job::Idle), 0);
    assert_eq!(compact_raid_defense_hint(&session, &data), "free a worker, then + Guard");
    assert_eq!(compact_food_recovery_hint(&session, &data), "free a worker, then + Carrier");
}

#[test]
fn advanced_systems_wait_for_the_security_handoff() {
    let mut session = session();
    session.won = true;

    assert!(!advanced_systems_unlocked(&session));

    session.creatures[0].job = Job::Guard;
    assert!(advanced_systems_unlocked(&session));
}

#[test]
fn awakened_warrens_keep_advanced_systems_visible() {
    let mut session = session();
    session.worm_awake = true;

    assert!(advanced_systems_unlocked(&session));
}

#[test]
fn optional_specialist_buttons_explain_when_the_unique_post_is_filled() {
    assert_eq!(optional_specialist_label("slime_janitor", false), "Slime · waste");
    assert_eq!(optional_specialist_label("slime_janitor", true), "Slime · posted");
    assert_eq!(optional_specialist_label("bat_courier", false), "Bat ×8");
    assert_eq!(optional_specialist_label("bat_courier", true), "Bat · posted");
}

#[test]
fn jobs_panel_capacity_uses_local_workers_and_floor_space() {
    let data = data();
    let session = session();

    assert_eq!(
        workforce_capacity_label(&session, &data),
        format!("Idle 0 · Local {}/{}", session.local_creature_count(), session.warren_capacity)
    );
}

#[test]
fn engineer_summary_distinguishes_local_and_posted_specialists() {
    assert_eq!(engineer_status_label(0, 0), "Engineer 0 · no local bonus");
    assert_eq!(engineer_status_label(0, 1), "Engineer 0 local · 1 posted");
    assert_eq!(engineer_status_label(1, 1), "Engineer 1 local · Mine +25%");
}

// ---------------------------------------------------------------------------
// Unlock requirements.

#[test]
fn unlocks_explain_the_action_and_threshold() {
    let data = data();

    assert_eq!(unlock_requirement(&data, "worm_shrine").as_deref(), Some("forge 20 ingots"));
    assert_eq!(unlock_requirement(&data, "breeding_pit").as_deref(), Some("capture 2 beetles"));
    assert_eq!(unlock_requirement(&data, "slime_janitor").as_deref(), Some("spoil 10 food"));
}

// ---------------------------------------------------------------------------
// Workstation status on the map.

#[test]
fn unstaffed_mine_reads_no_worker_then_exhausted() {
    let data = data();
    let mut session = session();
    session.creatures.clear();

    // Nobody on it → no worker.
    assert_eq!(building_status(&session, &data, &session.buildings[1]), Some(BuildingStatus::NoWorker));

    // Dry deposit dominates.
    session.buildings[1].reserve_milli = 0;
    assert_eq!(building_status(&session, &data, &session.buildings[1]), Some(BuildingStatus::Exhausted));
}

#[test]
fn full_mine_buffer_reads_backed_up() {
    let data = data();
    let mut session = session();
    // Staff it and cap the buffer.
    session.creatures.push(creature("goblin", Job::Miner));
    session.buildings[1].ore_milli += data.balance.mine_buffer_cap_milli;
    session.creatures.last_mut().unwrap().task = Task::WorkMine(MINE);
    assert_eq!(building_status(&session, &data, &session.buildings[1]), Some(BuildingStatus::OutputFull));
}

#[test]
fn starved_blacksmith_and_kiln_read_starved() {
    let data = data();
    let mut session = with_building(session(), "blacksmith", OPEN);
    session.creatures.push(creature("goblin", Job::Smith));
    session.creatures.last_mut().unwrap().task = Task::GoSmith(OPEN);
    // No ore, no orders → starved.
    assert_eq!(
        building_status(&session, &data, session.buildings.last().unwrap()),
        Some(BuildingStatus::InputStarved)
    );
}

#[test]
fn pending_hauls_counts_waiting_goods() {
    let mut session = session();
    let before = pending_hauls(&session);
    session.buildings[1].ore_milli += 5000;
    assert!(pending_hauls(&session) > before);
}

// ---------------------------------------------------------------------------
// The inspection card.

fn shrine_session() -> GameSession {
    with_building(session(), "worm_shrine", OPEN)
}

#[test]
fn shrine_reports_food_reserve_blocker() {
    let data = data();
    let mut session = shrine_session();
    session.economy.food_milli = data.balance.worm_feed_reserve_milli;

    assert_eq!(
        inspect_status(&session, &data, session.buildings.last().unwrap()),
        ("Waiting for food reserve", Tone::Warning)
    );
}

#[test]
fn shrine_reports_ingot_reserve_blocker_after_an_offering() {
    let data = data();
    let mut session = shrine_session();
    session.economy.food_milli = data.balance.worm_feed_reserve_milli + 20_000;
    session.worm_fed_milli = data.balance.worm_food_per_offering_milli;
    session.economy.ingots_stock = data.balance.worm_ingot_reserve;

    assert_eq!(
        inspect_status(&session, &data, session.buildings.last().unwrap()),
        ("Waiting for ingot reserve", Tone::Warning)
    );
}

#[test]
fn shrine_is_working_when_reserves_can_fund_the_next_bite() {
    let data = data();
    let mut session = shrine_session();
    session.economy.food_milli = data.balance.worm_feed_reserve_milli + 10_000;

    assert_eq!(inspect_status(&session, &data, session.buildings.last().unwrap()), ("Working", Tone::Positive));
}

#[test]
fn shrine_labels_a_manual_pause_without_misattributing_it() {
    let data = data();
    let mut session = shrine_session();
    session.worm_feeding_paused = true;

    assert_eq!(
        inspect_status(&session, &data, session.buildings.last().unwrap()),
        ("Paused — reserve protected", Tone::Warning)
    );
}

#[test]
fn breeding_labels_explain_specialist_roles() {
    let data = data();

    assert_eq!(breed_label("hobgoblin", "Hobgoblin", 4, &data), "Hobgoblin · ×2 work (4)");
    assert_eq!(breed_label("overseer", "Goblin Overseer", 6, &data), "Goblin Overseer · aura +35% (6)");
    assert_eq!(breed_label("engineer", "Goblin Engineer", 8, &data), "Goblin Engineer · Mine +25% (8)");
}

#[test]
fn locked_specialists_show_their_live_unlock_progress() {
    let data = data();
    let mut session = session();
    session.economy.ingots_forged = 7;
    session.counters.push(counter("ingots_forged", 7));

    assert_eq!(breeding_unlock_hint(&session, &data, "hobgoblin").as_deref(), Some("Next: forge 30 ingots (7/30)"));
}

#[test]
fn failed_outpost_reports_a_route_failure() {
    let data = data();
    let mut r = route(OPEN);
    r.failed = true;
    let session = with_route(session(), r);

    assert_eq!(inspect_status(&session, &data, session.buildings.last().unwrap()), ("Route failed", Tone::Negative));
}

#[test]
fn in_flight_outpost_reports_directional_transit() {
    let data = data();
    let mut session = with_route(session(), active_route(OPEN, ExpeditionState::NoCrew));
    session.worm_awake = true;
    session.economy.ore_stock = 1;
    // The worm has set off toward the route with the banked ore.
    session.worm_transit = Some(WormTransit {
        outpost: OPEN,
        direction: TransitDirection::ToOutpost,
        remaining_milli: 12_000,
        ore: 1,
        ingots: 0,
        food_milli: 0,
        passengers: 0,
    });
    session.economy.ore_stock = 0;

    assert_eq!(inspect_status(&session, &data, session.buildings.last().unwrap()), ("In transit", Tone::Positive));
    assert_eq!(transit_destination(TransitDirection::ToOutpost), "outpost");
    assert_eq!(transit_destination(TransitDirection::ToShrine), "shrine");
}

#[test]
fn empty_outpost_reports_when_no_payload_is_ready_to_load() {
    let data = data();
    let mut session = session();
    session.creatures.clear();
    session.economy.ore_stock = 0;
    session.economy.ingots_stock = 0;
    session.economy.food_milli = data.balance.worm_feed_reserve_milli;

    assert!(!biofoundry::status::outpost_has_loadable_payload(&session, &data, 0, 0, 12, None));

    session.economy.food_milli += 1000;
    assert!(biofoundry::status::outpost_has_loadable_payload(&session, &data, 0, 0, 12, None));
}

#[test]
fn empty_outpost_does_not_count_remote_crew_as_ready_to_load() {
    let data = data();
    let mut session = session();
    session.economy.ore_stock = 0;
    session.economy.ingots_stock = 0;
    session.economy.food_milli = data.balance.worm_feed_reserve_milli;
    session.creatures.clear();
    let mut carrier = creature("goblin", Job::Carrier);
    carrier.tile = STOCKPILE;
    carrier.remote = true;
    session.creatures.push(carrier);

    assert!(!biofoundry::status::outpost_has_loadable_payload(&session, &data, 0, 0, 12, None));
}

#[test]
fn active_empty_outpost_reports_whether_payload_is_ready() {
    let data = data();
    let mut session = with_route(session(), active_route(OPEN, ExpeditionState::NoCrew));
    session.worm_awake = true;
    session.creatures.clear();
    session.economy.ore_stock = 0;
    session.economy.ingots_stock = 0;
    session.economy.food_milli = data.balance.worm_feed_reserve_milli;

    assert_eq!(
        inspect_status(&session, &data, session.buildings.last().unwrap()),
        ("Awaiting payload", Tone::Warning)
    );

    session.economy.ore_stock = 1;
    assert_eq!(inspect_status(&session, &data, session.buildings.last().unwrap()), ("Ready to load", Tone::Positive));
}

#[test]
fn empty_awakened_outpost_explains_the_missing_scout_crew() {
    let data = data();
    let mut session = with_route(session(), active_route(OPEN, ExpeditionState::NoCrew));
    session.worm_awake = true;

    assert_eq!(outpost_expedition_hint(&data, &session.outposts[0]).as_deref(), Some("Need scout crew"));
}

#[test]
fn active_loaded_outpost_reports_payload_ready() {
    let data = data();
    let mut r = active_route(OPEN, ExpeditionState::NoCrew);
    r.cargo_total = 2;
    let mut session = with_route(session(), r);
    session.worm_awake = true;

    assert_eq!(inspect_status(&session, &data, session.buildings.last().unwrap()), ("Payload ready", Tone::Positive));
}

#[test]
fn tests_active_loaded_outpost_reports_payload_ready() {
    let data = data();
    let mut r = active_route(OPEN, ExpeditionState::NoCrew);
    r.cargo_total = 2;
    let mut session = with_route(session(), r);
    session.worm_awake = true;

    assert_eq!(inspect_status(&session, &data, session.buildings.last().unwrap()), ("Payload ready", Tone::Positive));
}

#[test]
fn route_status_active_loaded_outpost_reports_payload_ready() {
    let data = data();
    let mut r = active_route(OPEN, ExpeditionState::NoCrew);
    r.cargo_total = 2;
    let mut session = with_route(session(), r);
    session.worm_awake = true;

    assert_eq!(inspect_status(&session, &data, session.buildings.last().unwrap()), ("Payload ready", Tone::Positive));
}

#[test]
fn loaded_route_reports_when_the_shared_worm_is_busy_elsewhere() {
    let data = data();
    let first = TilePos::new(4, 4);
    let second = TilePos::new(8, 8);
    let mut loaded = active_route(second, ExpeditionState::NoCrew);
    loaded.cargo_total = 2;
    let mut session = with_route(with_route(session(), active_route(first, ExpeditionState::NoCrew)), loaded);
    session.worm_awake = true;
    session.worm_transit = Some(WormTransit {
        outpost: first,
        direction: TransitDirection::ToShrine,
        remaining_milli: 5000,
        ore: 1,
        ingots: 0,
        food_milli: 0,
        passengers: 0,
    });

    assert_eq!(inspect_status(&session, &data, session.buildings.last().unwrap()).0, "Worm busy · payload ready");
}

#[test]
fn empty_route_reports_when_a_home_load_is_ready_but_the_worm_is_busy() {
    let data = data();
    let first = TilePos::new(4, 4);
    let second = TilePos::new(8, 8);
    let mut session = with_route(
        with_route(session(), active_route(first, ExpeditionState::NoCrew)),
        active_route(second, ExpeditionState::NoCrew),
    );
    session.economy.ore_stock = 1;
    session.worm_awake = true;
    session.worm_transit = Some(WormTransit {
        outpost: first,
        direction: TransitDirection::ToOutpost,
        remaining_milli: 5000,
        ore: 1,
        ingots: 0,
        food_milli: 0,
        passengers: 0,
    });

    assert_eq!(inspect_status(&session, &data, session.buildings.last().unwrap()).0, "Worm busy · load ready");
}

#[test]
fn inactive_loaded_outpost_reports_payload_recovery() {
    let data = data();
    let mut r = route(OPEN);
    r.cargo_total = 1;
    let session = with_route(session(), r);

    assert_eq!(
        inspect_status(&session, &data, session.buildings.last().unwrap()),
        ("Payload held · route inactive", Tone::Warning)
    );
}

#[test]
fn active_outpost_before_awakening_reports_route_state() {
    let data = data();
    let session = with_route(session(), active_route(OPEN, ExpeditionState::Inactive));

    assert_eq!(inspect_status(&session, &data, session.buildings.last().unwrap()), ("Route active", Tone::Positive));
}

#[test]
fn paused_outpost_reports_its_manual_scouting_state() {
    let data = data();
    let mut r = active_route(OPEN, ExpeditionState::Paused);
    r.crew = 1;
    r.expedition_paused = true;
    let mut session = with_route(session(), r);
    session.worm_awake = true;

    assert_eq!(inspect_status(&session, &data, session.buildings.last().unwrap()), ("Scouting paused", Tone::Warning));
}

#[test]
fn staffed_outpost_reports_food_and_hold_blockers() {
    let data = data();
    let mut r = active_route(OPEN, ExpeditionState::NeedsFood { required: 1, available: 0 });
    r.crew = 1;
    let mut session = with_route(session(), r);
    session.worm_awake = true;

    assert_eq!(inspect_status(&session, &data, session.buildings.last().unwrap()), ("Needs scout food", Tone::Warning));

    // One food and a hold filled to the brim.
    session.outposts[0].cargo_total = 12;
    session.outposts[0].readout.expedition = ExpeditionState::HoldFull;
    session.outposts[0].readout.route_expedition = ExpeditionState::HoldFull;
    assert_eq!(inspect_status(&session, &data, session.buildings.last().unwrap()), ("Outpost hold full", Tone::Negative));
}

#[test]
fn blacksmith_queue_reports_when_another_order_can_be_added() {
    let data = data();
    let mut shop = building("blacksmith", TilePos::new(0, 0));

    assert!(blacksmith_queue_available(&shop, &data));

    for _ in 0..data.balance.order_queue_size {
        shop.orders.push("iron_pickaxe".to_owned());
    }
    assert!(!blacksmith_queue_available(&shop, &data));
}

#[test]
fn blacksmith_input_hint_names_the_queued_order_and_shortfall() {
    let data = data();
    let mut shop = building("blacksmith", TilePos::new(0, 0));
    shop.orders.push("iron_pickaxe".to_owned());
    shop.ore_milli += 1000;

    assert_eq!(blacksmith_input_hint(&shop, &data), "Needs 1 ore · next Iron Pickaxe");
}

#[test]
fn smelter_input_hint_names_each_missing_material() {
    let data = data();
    let mut smelter = building("smelter", TilePos::new(0, 0));

    assert_eq!(smelter_input_hint(&smelter, &data), "Needs 1 ore + 1 charcoal");

    smelter.ore_milli += data.balance.smelt_batch_ore as i64 * 1000;
    assert_eq!(smelter_input_hint(&smelter, &data), "Needs 1 charcoal");
}

#[test]
fn kitchen_input_hints_name_the_missing_material() {
    let data = data();
    let pot = building("cook_pot", TilePos::new(0, 0));

    assert_eq!(
        cook_pot_input_hint(&pot, &data),
        format!(
            "Needs {} mushrooms",
            (data.balance.cook_batch_mushrooms as f32 * data.balance.raw_recipe_multiplier_milli as f32 / 1000.0).ceil()
                as u32
        )
    );
    assert_eq!(kiln_input_hint(), "Needs 1 wood");
}

#[test]
fn waste_hint_explains_the_available_recovery_path() {
    let data = data();
    let mut session = session();
    session.buildings[2].waste_milli = 2500;

    assert_eq!(waste_inspection_hint(&session, &data, &session.buildings[2]), "Waste 2.5 · Secure warren first");

    session.won = true;
    session.creatures.push(creature("goblin", Job::Guard));
    session.unlocked.push("slime_janitor".to_owned());
    assert_eq!(waste_inspection_hint(&session, &data, &session.buildings[2]), "Waste 2.5 · Attract Slime");

    session.creatures.push(creature("slime_janitor", Job::Janitor));
    assert_eq!(waste_inspection_hint(&session, &data, &session.buildings[2]), "Waste 2.5 · Slime Janitor cleans it");
}

#[test]
fn inspection_staffing_ignores_remote_crew_and_recognizes_assigned_crew() {
    let mut session = with_building(session(), "blacksmith", OPEN);
    session.creatures.clear();
    let mut miner = creature("goblin", Job::Miner);
    miner.task = Task::WorkMine(MINE);
    miner.remote = true;
    session.creatures.push(miner);
    let mut smith = creature("goblin", Job::Smith);
    smith.task = Task::Smithing { shop: OPEN };
    smith.remote = true;
    session.creatures.push(smith);

    assert!(!local_mine_worker_at(&session.creatures[0], MINE));
    assert!(!local_mine_staffed_at(&session.creatures[0], MINE));
    assert!(!local_smith_worker_at(&session.creatures[1], OPEN));
    assert!(!local_smith_staffed_at(&session.creatures[1], OPEN));

    session.creatures[0].remote = false;
    session.creatures[0].task = Task::GoMine(MINE);
    session.creatures[1].remote = false;
    session.creatures[1].task = Task::GoSmith(OPEN);

    assert!(!local_mine_worker_at(&session.creatures[0], MINE));
    assert!(local_mine_staffed_at(&session.creatures[0], MINE));
    assert!(local_smith_staffed_at(&session.creatures[1], OPEN));
}

#[test]
fn inspection_staffing_recognizes_an_engineer_at_a_mine() {
    let mut session = session();
    session.creatures.clear();
    let mut engineer = creature("engineer", Job::Engineer);
    engineer.task = Task::WorkMine(MINE);
    session.creatures.push(engineer);

    assert!(local_mine_worker_at(&session.creatures[0], MINE));
    assert!(local_mine_staffed_at(&session.creatures[0], MINE));
}

#[test]
fn inspection_smelter_staffing_ignores_remote_salamanders() {
    let mut session = with_building(session(), "smelter", OPEN);
    session.creatures.clear();
    let mut salamander = creature("salamander", Job::Smelter);
    salamander.task = Task::GoSmelt(OPEN);
    session.creatures.push(salamander);

    assert!(!local_smelter_worker_at(&session.creatures[0], OPEN));
    assert!(local_smelter_staffed_at(&session.creatures[0], OPEN));

    session.creatures[0].remote = true;
    assert!(!local_smelter_staffed_at(&session.creatures[0], OPEN));
}

#[test]
fn mine_staffing_label_names_specialist_neutral_states() {
    assert_eq!(mine_staffing_label(0, 2, false), "No mine worker — stopped");
    assert_eq!(mine_staffing_label(1, 2, false), "Mine staff 1/2");
    assert_eq!(mine_staffing_label(0, 2, true), "Deposit exhausted");
}

#[test]
fn outpost_return_label_names_each_payload_kind() {
    assert_eq!(outpost_return_label(6, 4), "Send 6 cargo + 4 crew to shrine");
    assert_eq!(outpost_return_label(6, 0), "Send 6 cargo to shrine");
    assert_eq!(outpost_return_label(0, 4), "Send 4 crew to shrine");
    assert_eq!(outpost_return_label(0, 0), "No cargo or crew to return");
}

#[test]
fn outpost_cargo_only_return_label_keeps_the_remote_team_explicit() {
    assert_eq!(outpost_cargo_only_return_label(6), "Send 6 cargo · keep crew");
}

#[test]
fn outpost_cargo_priority_labels_are_player_readable() {
    assert_eq!(CargoPriority::Ore.label(), "Ore first");
    assert_eq!(CargoPriority::Ingots.label(), "Ingots first");
    assert_eq!(CargoPriority::Food.label(), "Food first");
}

#[test]
fn outpost_load_hint_previews_the_selected_priority_and_reserve() {
    let data = data();
    let mut session = session();
    session.economy.ore_stock = 10;
    session.economy.ingots_stock = 10;
    session.economy.food_milli = data.balance.worm_feed_reserve_milli + 10_000;
    let mut outpost = route(TilePos::new(4, 4));
    outpost.cargo_priority = CargoPriority::Ingots;
    // Ingots first: ten ingots, then the ore that still fits.
    outpost.readout.load_preview = CargoLoad { ore: 2, ingots: 10, food: 0 };

    assert_eq!(outpost_load_hint(&session, &data, &outpost).as_deref(), Some("Load · Ore 2 · Ingots 10 · Food 0"));

    outpost.cargo_priority = CargoPriority::Food;
    // Food first: the food above the reserve, then ore.
    outpost.readout.load_preview = CargoLoad { ore: 2, ingots: 0, food: 10 };
    assert_eq!(outpost_load_hint(&session, &data, &outpost).as_deref(), Some("Load · Ore 2 · Ingots 0 · Food 10"));
}

#[test]
fn full_outpost_load_hint_explains_the_disabled_load_action() {
    let data = data();
    let mut session = session();
    let mut outpost = route(TilePos::new(4, 4));
    outpost.cargo_total = 12;
    session.economy.ore_stock = 4;

    assert_eq!(outpost_load_hint(&session, &data, &outpost).as_deref(), Some("Hold full · return to shrine"));
}

#[test]
fn upgraded_outpost_load_hint_uses_the_expanded_hold() {
    let data = data();
    let mut session = session();
    let mut outpost = route(TilePos::new(4, 4));
    outpost.storage_upgraded = true;
    outpost.readout.storage_capacity = 24;
    outpost.readout.hold_capacity = 24;
    session.economy.ore_stock = 10;
    session.economy.ingots_stock = 10;
    outpost.readout.load_preview = CargoLoad { ore: 10, ingots: 10, food: 0 };

    assert_eq!(outpost_load_hint(&session, &data, &outpost).as_deref(), Some("Load · Ore 10 · Ingots 10 · Food 0"));
}

#[test]
fn cargo_only_outpost_does_not_count_local_crew_as_loadable() {
    let data = data();
    let mut session = session();
    session.economy.ore_stock = 0;
    session.economy.ingots_stock = 0;
    session.economy.food_milli = data.balance.worm_feed_reserve_milli;
    for c in session.creatures.iter_mut() {
        c.tile = STOCKPILE;
    }

    assert!(!biofoundry::status::outpost_has_loadable_payload(&session, &data, 0, 0, 12, Some(0)));
}

#[test]
fn outpost_expedition_hint_names_remote_progress_and_blockers() {
    let data = data();
    let mut outpost = active_route(
        TilePos::new(4, 4),
        ExpeditionState::Scouting { progress_percent: 50, ore_yield: 6, food_cost: 2 },
    );
    outpost.crew = 2;
    outpost.cargo_total = 4;

    assert_eq!(outpost_expedition_hint(&data, &outpost).as_deref(), Some("Expedition 50% · +6 ore / -2 food"));

    outpost.readout.route_expedition = ExpeditionState::NeedsFood { required: 2, available: 1 };
    assert_eq!(outpost_expedition_hint(&data, &outpost).as_deref(), Some("Expedition paused · need 1 food"));

    outpost.expedition_paused = true;
    outpost.readout.route_expedition = ExpeditionState::Paused;
    assert_eq!(outpost_expedition_hint(&data, &outpost).as_deref(), Some("Expedition paused · player paused"));
}

#[test]
fn resonator_outpost_hint_exposes_the_shorter_survey_cycle() {
    let data = data();
    let mut outpost = active_route(
        TilePos::new(4, 4),
        ExpeditionState::Scouting { progress_percent: 50, ore_yield: 6, food_cost: 2 },
    );
    outpost.crew = 2;
    outpost.cargo_total = 4;
    outpost.resonator_upgraded = true;
    outpost.readout.cycle_milli = 20_000;

    assert_eq!(outpost_expedition_hint(&data, &outpost).as_deref(), Some("Expedition 50% · +6/-2 food · 20s"));
}

#[test]
fn deep_survey_outpost_hint_exposes_the_calibrated_yield() {
    let data = data();
    let mut outpost = active_route(
        TilePos::new(4, 4),
        ExpeditionState::Scouting { progress_percent: 50, ore_yield: 12, food_cost: 2 },
    );
    outpost.crew = 2;
    outpost.cargo_total = 4;
    outpost.survey_upgraded = true;
    outpost.resonator_upgraded = true;
    outpost.deep_survey_upgraded = true;
    outpost.readout.cycle_milli = 20_000;

    assert_eq!(outpost_expedition_hint(&data, &outpost).as_deref(), Some("Expedition 50% · +12/-2 food · 20s"));
}

fn in_flight() -> WormTransit {
    WormTransit {
        outpost: TilePos::new(4, 4),
        direction: TransitDirection::ToShrine,
        remaining_milli: 4000,
        ore: 2,
        ingots: 3,
        food_milli: 4000,
        passengers: 2,
    }
}

#[test]
fn tests_in_flight_payload_summary_names_cargo_and_crew() {
    assert_eq!(transit_payload_line(&in_flight()), "In flight · 9 cargo · 2 crew");
}

#[test]
fn outpost_details_in_flight_payload_summary_names_cargo_and_crew() {
    assert_eq!(transit_payload_line(&in_flight()), "In flight · 9 cargo · 2 crew");
}

#[test]
fn study_readout_explains_the_next_adaptation() {
    let data = data();
    let mut session = session();
    session.counters.push(counter("specimens", 2));
    session.counters.push(counter("knowledge", 7));

    assert_eq!(study_adaptation_line(&session, &data), "Next · gain 12 study (7/12)");
}

#[test]
fn study_readout_points_from_haulers_to_the_next_adaptation() {
    let data = data();
    let mut session = session();
    session.unlocked.push("adaptive_haulers".to_owned());
    session.beetle_carry_multiplier_milli = 1200;

    assert_eq!(study_adaptation_line(&session, &data), "Haulers +20% · next 0/24 study");
}

#[test]
fn study_readout_reports_both_adaptations_when_mastered() {
    let data = data();
    let mut session = session();
    session.counters.push(counter("knowledge", 24));
    session.unlocked.push("adaptive_haulers".to_owned());
    session.unlocked.push("brood_memory".to_owned());
    session.beetle_carry_multiplier_milli = 1200;
    session.breeding_interval_milli = 48_000;

    assert_eq!(study_adaptation_line(&session, &data), "Haulers +20% · Brood +20%");
}

// ---------------------------------------------------------------------------
// The objective card.

fn objective(session: &GameSession, data: &GameData) -> CampaignObjective {
    CampaignObjective::current(session, data)
}

/// An awakened warren with Worm Transit unlocked.
fn transit_session() -> GameSession {
    let mut s = session();
    s.worm_awake = true;
    s.unlocked.push("worm_transit".to_owned());
    s
}

#[test]
fn objective_starts_with_both_security_requirements() {
    let data = data();
    let session = session();
    let objective = objective(&session, &data);

    assert_eq!(objective.title, "Secure the warren");
    assert!(objective.progress.contains("Food"));
    assert!(objective.progress.contains("Ore"));
    assert!(!objective.complete);
}

#[test]
fn objective_moves_through_factory_and_shrine() {
    let data = data();
    let mut session = session();
    session.creatures[0].job = Job::Guard;
    session.won = true;
    let factory = objective(&session, &data);
    assert_eq!(factory.title, "Complete the Biofoundry");

    session.factory_complete = true;
    session.unlocked.push("worm_shrine".to_owned());
    let shrine = objective(&session, &data);
    assert_eq!(shrine.progress, "Worm Shrine · ready to build");

    session.buildings.push(building("worm_shrine", OPEN));
    let offerings = objective(&session, &data);
    assert_eq!(offerings.title, "Awaken the Worm");
    assert!(offerings.progress.contains("Offerings"));
}

#[test]
fn objective_keeps_the_shrine_lock_consistent_with_build_controls() {
    let data = data();
    let mut session = session();
    session.creatures[0].job = Job::Guard;
    session.won = true;
    session.factory_complete = true;

    let objective = objective(&session, &data);

    assert_eq!(objective.progress, "Worm Shrine · forge 20 ingots (0/20)");
    assert_eq!(objective.next, "Next: forge 20 ingots to unlock the Worm Shrine.");
}

#[test]
fn objective_keeps_the_guard_handoff_as_the_next_requirement() {
    let data = data();
    let mut session = session();
    session.won = true;

    let objective_now = objective(&session, &data);

    assert_eq!(objective_now.title, "Finish the security handoff");
    assert!(objective_now.progress.contains("Guard 0/1"));
    assert_eq!(objective_now.next, "Next: tap − beside Miner, then + beside Guard in Jobs.");
    assert!(!objective_now.complete);
    assert!((objective_now.ratio.num as f32 / objective_now.ratio.den as f32 - 2.0 / 3.0).abs() < f32::EPSILON);

    session.creatures[0].job = Job::Guard;
    assert_eq!(objective(&session, &data).title, "Complete the Biofoundry");
}

#[test]
fn objective_does_not_promise_a_disabled_guard_assignment() {
    let data = data();
    let mut session = session();
    session.won = true;
    session.creatures.clear();
    session.creatures.push(creature("overseer", Job::Idle));

    assert_eq!(objective(&session, &data).next, "Next: free a worker, then tap + beside Guard in Jobs.");
}

#[test]
fn objective_names_the_worker_to_free_before_assigning_a_smith() {
    let data = data();
    let mut session = with_building(session(), "blacksmith", OPEN);
    session.won = true;
    session.creatures[0].job = Job::Guard;

    assert_eq!(objective(&session, &data).next, "Next: tap − beside Miner, then + beside Smith in Jobs.");
}

#[test]
fn objective_marks_the_worm_awake_as_complete() {
    let data = data();
    let mut session = session();
    session.worm_awake = true;
    let objective = objective(&session, &data);

    assert!(objective.complete);
    assert_eq!(objective.ratio, Fraction { num: 1, den: 1 });
    assert_eq!(objective.progress, "Worm awake · Runs 0 · Hauls 0");
    assert_eq!(objective.next, "Next: tap Blacksmith in Build & Dig, then place it on open floor.");
}

#[test]
fn awakened_objective_recovers_an_exhausted_mine_before_promising_more_ingots() {
    let data = data();
    let mut session = session();
    session.worm_awake = true;
    session.buildings[1].reserve_milli = 0;

    assert_eq!(objective(&session, &data).next, "Next: tap Blacksmith in Build & Dig, then place it on open floor.");

    session.buildings.push(building("blacksmith", OPEN));

    assert_eq!(
        objective(&session, &data).next,
        "Next: tap Mine in Build & Dig, then place a new Mine on open floor."
    );
}

#[test]
fn awakened_objective_waits_for_a_blacksmith_build_site_already_in_progress() {
    let data = data();
    let mut session = session();
    session.worm_awake = true;
    session.build_sites.push(BuildSite { kind: "blacksmith".to_owned(), remaining: 7 });

    assert_eq!(objective(&session, &data).next, "Next: keep carriers delivering ore to the Blacksmith site.");
}

#[test]
fn awakened_objective_waits_for_a_replacement_mine_build_site() {
    let data = data();
    let mut session = with_building(session(), "blacksmith", OPEN);
    session.worm_awake = true;
    session.buildings[1].reserve_milli = 0;
    session.build_sites.push(BuildSite { kind: "mine".to_owned(), remaining: 8 });

    assert_eq!(objective(&session, &data).next, "Next: keep carriers delivering ore to the new Mine site.");
}

#[test]
fn awakened_objective_names_the_visible_smith_recovery() {
    let data = data();
    let mut session = with_building(session(), "blacksmith", OPEN);
    session.worm_awake = true;

    assert_eq!(objective(&session, &data).next, "Next: tap − beside Miner, then + beside Smith in Jobs.");
}

#[test]
fn awakened_objective_names_the_visible_carrier_recovery() {
    let data = data();
    let mut session = with_building(session(), "blacksmith", OPEN);
    session.worm_awake = true;
    session.creatures.clear();
    session.creatures.push(creature("goblin", Job::Smith));

    assert_eq!(objective(&session, &data).next, "Next: tap − beside Smith, then + beside Carrier in Jobs.");
}

#[test]
fn awakened_objective_shows_live_transit_progress_when_the_chain_is_viable() {
    let data = data();
    let mut session = with_building(session(), "blacksmith", OPEN);
    session.worm_awake = true;
    session.creatures[0].job = Job::Smith;
    session.economy.ingots_forged = 12;

    assert_eq!(objective(&session, &data).next, "Next: forge ingots to unlock Worm Transit (12/60).");
}

#[test]
fn completed_objective_points_into_an_unlocked_outpost_route() {
    let data = data();
    let session = transit_session();

    assert_eq!(
        objective(&session, &data).next,
        "Next: build a Worm Outpost and send cargo through the awakened route."
    );
}

#[test]
fn completed_objective_names_the_load_step_for_an_empty_active_outpost() {
    let data = data();
    let session = with_route(transit_session(), active_route(OPEN, ExpeditionState::NoCrew));

    assert_eq!(objective(&session, &data).next, "Next: tap the active Worm Outpost, then load it from the warren.");
}

#[test]
fn completed_objective_prioritizes_a_ready_outpost_over_an_empty_active_one() {
    let data = data();
    let session = with_route(transit_session(), active_route(OPEN, ExpeditionState::NoCrew));
    let mut ready = active_route(SECOND, ExpeditionState::NoCrew);
    ready.cargo_total = 4;
    let session = with_route(session, ready);

    assert_eq!(
        objective(&session, &data).next,
        "Next: tap the active Worm Outpost, then send its cargo to the shrine."
    );
}

#[test]
fn completed_objective_does_not_offer_remote_crew_as_a_new_payload() {
    let data = data();
    let mut session = with_route(transit_session(), active_route(OPEN, ExpeditionState::NoCrew));
    session.creatures.clear();
    session.economy.food_milli = data.balance.worm_feed_reserve_milli;
    let mut carrier = creature("goblin", Job::Carrier);
    carrier.tile = STOCKPILE;
    carrier.remote = true;
    session.creatures.push(carrier);

    assert_eq!(
        objective(&session, &data).next,
        "Next: keep cargo or crew ready at the warren, then load the active Worm Outpost."
    );
}

#[test]
fn completed_objective_does_not_offer_busy_crew_as_a_new_payload() {
    let data = data();
    let mut session = with_route(transit_session(), active_route(OPEN, ExpeditionState::NoCrew));
    session.creatures.clear();
    session.economy.food_milli = data.balance.worm_feed_reserve_milli;
    let mut carrier = creature("goblin", Job::Carrier);
    carrier.tile = STOCKPILE;
    carrier.carrying = true;
    session.creatures.push(carrier);

    assert_eq!(
        objective(&session, &data).next,
        "Next: keep cargo or crew ready at the warren, then load the active Worm Outpost."
    );
}

#[test]
fn completed_objective_names_the_return_step_for_a_loaded_outpost() {
    let data = data();
    let mut r = active_route(OPEN, ExpeditionState::NeedsFood { required: 1, available: 0 });
    r.cargo_total = 4;
    r.crew = 1;
    let session = with_route(transit_session(), r);

    assert_eq!(
        objective(&session, &data).next,
        "Next: tap the active Worm Outpost, then load food for its expedition."
    );
}

#[test]
fn completed_objective_names_the_resume_step_for_a_paused_outpost() {
    let data = data();
    let mut r = active_route(OPEN, ExpeditionState::Paused);
    r.crew = 1;
    r.cargo_total = 2;
    r.expedition_paused = true;
    let session = with_route(transit_session(), r);

    assert_eq!(objective(&session, &data).next, "Next: tap the active Worm Outpost, then Resume scouting.");
}

#[test]
fn completed_objective_names_the_food_grid_when_an_expedition_is_unprovisioned() {
    let data = data();
    let mut r = active_route(OPEN, ExpeditionState::NeedsFood { required: 1, available: 0 });
    r.crew = 1;
    let mut session = with_route(transit_session(), r);
    session.economy.food_milli = data.balance.worm_feed_reserve_milli;

    assert_eq!(
        objective(&session, &data).next,
        "Next: keep cooked Food above reserve, then load the Outpost expedition."
    );
}

#[test]
fn completed_objective_recovers_a_loaded_inactive_outpost() {
    let data = data();
    let mut r = route(OPEN);
    r.cargo_total = 2;
    let session = with_route(transit_session(), r);

    assert_eq!(
        objective(&session, &data).next,
        "Next: tap the loaded Worm Outpost, then tap Activate route to return its payload."
    );
}

#[test]
fn completed_objective_explains_when_an_active_outpost_has_nothing_ready() {
    let data = data();
    let mut session = with_route(transit_session(), active_route(OPEN, ExpeditionState::NoCrew));
    session.creatures.clear();
    session.economy.food_milli = data.balance.worm_feed_reserve_milli;

    assert_eq!(
        objective(&session, &data).next,
        "Next: keep cargo or crew ready at the warren, then load the active Worm Outpost."
    );
}

#[test]
fn completed_objective_names_the_wait_step_during_transit() {
    let data = data();
    let mut session = transit_session();
    session.worm_transit = Some(WormTransit {
        outpost: STOCKPILE,
        direction: TransitDirection::ToShrine,
        remaining_milli: 4000,
        ore: 2,
        ingots: 0,
        food_milli: 0,
        passengers: 0,
    });

    assert_eq!(
        objective(&session, &data).next,
        "Next: wait for the worm to reach the shrine, then plan the next run."
    );
}

#[test]
fn completed_objective_counts_successful_cargo_runs() {
    let data = data();
    let mut session = session();
    session.worm_awake = true;
    session.courier_deliveries = 3;

    assert_eq!(objective(&session, &data).progress, "Worm awake · Runs 3 · Hauls 0");
}

#[test]
fn completed_objective_sums_scouting_hauls_across_outposts() {
    let data = data();
    let mut session = session();
    session.worm_awake = true;
    session.courier_deliveries = 3;
    session.outposts = vec![route(STOCKPILE), route(TilePos::new(8, 8))];
    // Two hauls on the first route and one on the second.
    session.network.total_expeditions = 2 + 1;

    assert_eq!(objective(&session, &data).progress, "Worm awake · Runs 3 · Hauls 3");
}

#[test]
fn completed_objective_explains_failed_route_recovery() {
    let data = data();
    let mut r = route(OPEN);
    r.failed = true;
    let session = with_route(transit_session(), r);

    assert_eq!(
        objective(&session, &data).next,
        "Next: tap the failed Worm Outpost, then tap Activate route before sending cargo."
    );
}

fn scouting_route() -> Outpost {
    let mut r = active_route(OPEN, ExpeditionState::Scouting { progress_percent: 30, ore_yield: 3, food_cost: 1 });
    r.crew = 1;
    r.cargo_total = 1;
    r
}

#[test]
fn completed_objective_tracks_the_charter_across_remote_routes() {
    let data = data();
    let mut session = with_route(transit_session(), scouting_route());
    session.network.total_expeditions = data.balance.outpost_charter_haul_goal.saturating_sub(1);

    let objective = objective(&session, &data);

    assert!(objective.next.contains("Charter 2/3"));
    assert!(objective.next.contains("+12 ingots"));
}

#[test]
fn completed_objective_returns_to_route_guidance_after_charter_claim() {
    let data = data();
    let mut session = with_route(transit_session(), scouting_route());
    session.outpost_charter_claimed = true;

    let objective = objective(&session, &data);

    assert!(objective.next.contains("let the Outpost expedition finish"));
    assert!(!objective.next.contains("Charter"));
}

#[test]
fn completed_objective_guides_the_optional_wormsong_chorus() {
    let data = data();
    let mut session = session();
    session.worm_awake = true;
    session.outpost_circuit_claimed = true;
    for index in 0..3 {
        session.outposts.push(active_route(TilePos::new(4 + index * 2, 4), ExpeditionState::NoCrew));
    }
    session.network.chorus_active = 3;

    let guidance = chorus_contract_guidance(&session, &data).expect("Chorus should guide");

    assert!(guidance.contains("Wormsong Chorus"));
    assert!(guidance.contains("0/3 complete routes"));
    assert!(guidance.contains("+80 ingots"));
    assert!(guidance.contains("+1 ingot/haul"));
}

#[test]
fn claimed_chorus_returns_objective_to_the_repeatable_encore() {
    let data = data();
    let mut session = session();
    session.worm_awake = true;
    session.outpost_circuit_claimed = true;
    session.outpost_chorus_claimed = true;

    assert!(chorus_contract_guidance(&session, &data).is_none());
    assert!(encore_contract_guidance(&session, &data).is_some());
}

#[test]
fn completed_objective_guides_the_route_upgrade_ladder_when_funded() {
    let data = data();
    let mut session = with_route(transit_session(), active_route(OPEN, ExpeditionState::NoCrew));

    session.economy.ingots_stock = data.balance.outpost_upgrade_ingots;
    assert!(objective(&session, &data).next.contains("Expand hold"));

    session.outposts[0].storage_upgraded = true;
    session.economy.ingots_stock = data.balance.outpost_crew_upgrade_ingots;
    assert!(objective(&session, &data).next.contains("Expand camp"));

    session.outposts[0].crew_upgraded = true;
    session.economy.ingots_stock = data.balance.outpost_survey_upgrade_ingots;
    assert!(objective(&session, &data).next.contains("Install survey"));

    session.outposts[0].survey_upgraded = true;
    session.economy.ingots_stock = data.balance.outpost_resonator_upgrade_ingots;
    let now = objective(&session, &data);
    assert!(now.next.contains("Tune beacon"));
    assert!(now.progress.contains("Upgrades 3"));

    session.outposts[0].resonator_upgraded = true;
    session.outpost_charter_claimed = true;
    session.economy.ingots_stock = data.balance.outpost_deep_survey_upgrade_ingots;
    let now = objective(&session, &data);
    assert!(now.next.contains("Calibrate deep survey"));
    assert!(now.progress.contains("Upgrades 4"));

    session.outposts[0].deep_survey_upgraded = true;
    assert!(objective(&session, &data).progress.contains("Upgrades 5"));
}

// ---------------------------------------------------------------------------
// The route ledger.

#[test]
fn route_name_keeps_the_network_location_visible() {
    assert_eq!(route_name(1, TilePos::new(7, 9)), "Route 2 · (7, 9)");
}

#[test]
fn route_ledger_adds_a_column_before_cards_can_run_into_the_close_button() {
    assert_eq!(route_column_count(2), 3);
    assert_eq!(route_column_count(6), 3);
    assert_eq!(route_column_count(7), 4);
}

#[test]
fn route_network_summary_reports_the_whole_warren_network() {
    let data = data();
    let mut session = session();
    let first = route(TilePos::new(4, 4));
    let mut second = active_route(TilePos::new(8, 8), ExpeditionState::NeedsFood { required: 1, available: 0 });
    second.cargo_total = 5;
    second.crew = 2;
    second.ore_scouted = 9;
    session.outposts = vec![first, second];

    assert_eq!(
        route_network_summary(&session, &data),
        "Routes 2 · Active 1 · Held cargo 5 · Remote crew 2 · Ore scouted 9 · Charter 0/3 · +12 ingots · Attention 2"
    );
}

#[test]
fn route_network_summary_confirms_a_claimed_charter() {
    let data = data();
    let mut session = session();
    session.outpost_charter_claimed = true;
    session.outpost_archive_claims = 2;
    session.outposts.push(route(TilePos::new(4, 4)));

    let summary = route_network_summary(&session, &data);
    assert!(summary.contains("Charter complete"));
    assert!(summary.contains("Pages 2"));
}

#[test]
fn route_network_summary_reports_archive_progress_after_charter() {
    let data = data();
    let mut session = session();
    session.outpost_charter_claimed = true;
    session.outposts = vec![route(TilePos::new(4, 4))];
    session.network.total_expeditions = data.balance.outpost_charter_haul_goal + 2;
    session.network.archive = 2;

    let summary = route_network_summary(&session, &data);

    assert!(summary.contains("Archive 2/5"), "{summary}");
}

#[test]
fn route_network_summary_reports_cached_ingots_across_routes() {
    let data = data();
    let mut session = session();
    let mut first = route(TilePos::new(4, 4));
    first.signal_cache_upgraded = true;
    first.signal_cache_ingots = 3;
    let mut second = route(TilePos::new(8, 8));
    second.signal_cache_upgraded = true;
    second.signal_cache_ingots = 2;
    session.outposts = vec![first, second];

    let summary = route_network_summary(&session, &data);

    assert!(summary.ends_with("Attention 2 · Cache kept 5"), "{summary}");
}

#[test]
fn relay_summary_reports_live_route_and_haul_progress() {
    let data = data();
    let mut session = session();
    session.outpost_archive_claims = 1;
    session.outposts = vec![active_route(TilePos::new(4, 4), ExpeditionState::NoCrew)];
    session.network.relay_routes = 1;
    session.network.relay_hauls = 4;

    let summary = relay_contract_summary(&session, &data).expect("relay should be visible");

    assert!(summary.contains("1/2 routes"), "{summary}");
    assert!(summary.contains("4/6 hauls"), "{summary}");
    assert!(summary.contains("+20 ingots"), "{summary}");
}

#[test]
fn relay_summary_confirms_a_claimed_contract() {
    let data = data();
    let mut session = session();
    session.outpost_archive_claims = 1;
    session.outpost_relay_claimed = true;

    assert_eq!(relay_contract_summary(&session, &data).as_deref(), Some("Worm Road Relay complete · +20 ingots"));
}

#[test]
fn convoy_summary_reports_live_progress_after_relay() {
    let data = data();
    let mut session = session();
    session.outpost_relay_claimed = true;
    session.outposts = vec![active_route(TilePos::new(4, 4), ExpeditionState::NoCrew)];
    session.network.convoy_routes = 1;
    session.network.convoy_hauls = 4;

    let summary = convoy_contract_summary(&session, &data).expect("Convoy should be visible");

    assert!(summary.contains("1/3 routes"), "{summary}");
    assert!(summary.contains("4/12 hauls"), "{summary}");
    assert!(summary.contains("+24 ingots"), "{summary}");
}

#[test]
fn convoy_summary_confirms_a_claimed_contract() {
    let data = data();
    let mut session = session();
    session.outpost_relay_claimed = true;
    session.outpost_convoy_claims = 2;

    let summary = convoy_contract_summary(&session, &data).expect("Convoy should be visible");

    assert!(summary.contains("2 cleared"), "{summary}");
    assert!(summary.contains("next 0/12 hauls"), "{summary}");
}

#[test]
fn route_network_summary_counts_active_blockers_as_attention() {
    let data = data();
    let mut session = session();
    let mut r = active_route(TilePos::new(4, 4), ExpeditionState::Paused);
    r.expedition_paused = true;
    r.crew = 1;
    session.outposts.push(r);

    assert!(route_needs_attention(&session, &session.outposts[0], &data));
    assert!(route_network_summary(&session, &data).ends_with("Attention 1"));
}

#[test]
fn route_policy_label_explains_automatic_choices() {
    let mut r = route(TilePos::new(4, 4));
    assert_eq!(route_policy_label(&r), "Manual route");

    r.auto_return_cargo = true;
    r.auto_resupply_food = true;
    assert_eq!(route_policy_label(&r), "Auto cargo return · Auto food resupply");

    r.expedition_paused = true;
    assert_eq!(route_policy_label(&r), "Scouting paused");
}

#[test]
fn route_metrics_reports_remote_hold_capacity() {
    let data = data();
    let session = session();
    let mut r = route(TilePos::new(4, 4));
    r.cargo_total = 3;
    r.crew = 1;

    assert_eq!(route_metrics(&session, &data, &r), format!("Cargo 3/{} · Crew 1/{}", 12, data.balance.outpost_capacity));
}

#[test]
fn route_metrics_reports_live_scouting_progress() {
    let data = data();
    let session = session();
    let mut r = active_route(TilePos::new(4, 4), ExpeditionState::Scouting { progress_percent: 40, ore_yield: 3, food_cost: 1 });
    r.crew = 1;
    r.cargo_total = 1;

    assert_eq!(
        route_metrics(&session, &data, &r),
        format!("Cargo 1/{} · Crew 1/{} · Scout 40%", 12, data.balance.outpost_capacity)
    );
}

#[test]
fn route_metrics_reports_an_expanded_remote_camp() {
    let data = data();
    let session = session();
    let mut r = route(TilePos::new(4, 4));
    r.crew_upgraded = true;
    r.readout.crew_capacity = 6;
    r.crew = 5;

    assert_eq!(route_metrics(&session, &data, &r), format!("Cargo 0/{} · Crew 5/{}", 12, 6));
}

#[test]
fn route_metrics_reports_survey_rig_yield() {
    let data = data();
    let session = session();
    let mut r = route(TilePos::new(4, 4));
    r.survey_upgraded = true;
    r.readout.ore_per_crew = 5;

    assert_eq!(
        route_metrics(&session, &data, &r),
        format!("Cargo 0/{} · Crew 0/{} · Yield {}/scout", 12, data.balance.outpost_capacity, 5)
    );
}

#[test]
fn route_metrics_reports_resonance_beacon_cycle() {
    let data = data();
    let session = session();
    let mut r = route(TilePos::new(4, 4));
    r.survey_upgraded = true;
    r.resonator_upgraded = true;
    r.readout.ore_per_crew = 5;
    r.readout.cycle_milli = 20_000;

    assert_eq!(
        route_metrics(&session, &data, &r),
        format!("Cargo 0/{} · Crew 0/{} · Yield {}/scout · Cycle {:.0}s", 12, data.balance.outpost_capacity, 5, 20.0)
    );
}

#[test]
fn route_metrics_reports_deep_survey_yield() {
    let data = data();
    let session = session();
    let mut r = route(TilePos::new(4, 4));
    r.survey_upgraded = true;
    r.resonator_upgraded = true;
    r.deep_survey_upgraded = true;
    r.readout.ore_per_crew = 8;
    r.readout.cycle_milli = 20_000;

    assert_eq!(
        route_metrics(&session, &data, &r),
        format!("Cargo 0/{} · Crew 0/{} · Deep yield {}/scout · Cycle {:.0}s", 12, data.balance.outpost_capacity, 8, 20.0)
    );
}

#[test]
fn route_metrics_reports_signal_cache_payload() {
    let data = data();
    let session = session();
    let mut r = route(TilePos::new(4, 4));
    r.signal_cache_upgraded = true;
    r.signal_cache_ingots = 3;

    assert_eq!(
        route_metrics(&session, &data, &r),
        format!(
            "Cargo 0/{} · Crew 0/{} · Cache +{}/haul · Kept 3",
            12, data.balance.outpost_capacity, data.balance.outpost_signal_cache_ingots_per_haul
        )
    );
}

#[test]
fn compact_route_cards_keep_signal_cache_history_in_the_policy_line() {
    let data = data();
    let session = session();
    let mut r = route(TilePos::new(4, 4));
    r.signal_cache_upgraded = true;
    r.signal_cache_ingots = 3;
    r.expedition_paused = true;

    assert_eq!(
        compact_route_metrics(&session, &data, &r),
        format!("0/{} cargo · 0/{} crew", 12, data.balance.outpost_capacity)
    );
    assert_eq!(route_policy_summary(&session, &r, &data, true), "Paused · Cache +1 · Kept 3");
}

#[test]
fn route_policy_summary_reports_the_worm_road_waypoint() {
    let data = data();
    let session = session();
    let mut r = route(TilePos::new(4, 4));
    r.waypoint_upgraded = true;

    assert_eq!(route_policy_summary(&session, &r, &data, false), "Manual route · Waypoint 12s transit");
    assert_eq!(route_policy_summary(&session, &r, &data, true), "Manual route · Waypoint 12s");
}

#[test]
fn route_status_reuses_the_inspection_vocabulary() {
    let data = data();
    let mut session = with_route(session(), active_route(OPEN, ExpeditionState::NoCrew));
    session.worm_awake = true;

    assert_eq!(inspect_status(&session, &data, session.buildings.last().unwrap()).0, "Ready to load");
}

// ---------------------------------------------------------------------------
// Properties of the library on concrete colonies.

#[test]
fn event_pages_tile_the_whole_history() {
    let len = 37;
    let pages = event_log_page_count(len);
    assert_eq!(pages, 4);
    assert_eq!(event_log_page_bounds(len, 0).1, len);
    for page in 0..pages {
        let (start, end) = event_log_page_bounds(len, page);
        assert!(start < end && end - start <= 10);
        assert_eq!(event_log_page_bounds(len, page + 1).1, start);
    }
    assert_eq!(event_log_page_bounds(len, pages - 1).0, 0);
    assert_eq!(event_log_page_bounds(len, pages), (0, 0));
}

#[test]
fn trough_waste_and_inactive_outpost_are_visible_states() {
    let data = data();
    let mut session = session();
    let mut trough = building("feeding_trough", OPEN);
    trough.waste_milli = 1000;
    session.buildings.push(trough);
    let placed = session.buildings.len() - 1;
    assert_eq!(building_status(&session, &data, &session.buildings[placed]), Some(BuildingStatus::WasteOverflow));

    let session = with_route(session, route(SECOND));
    let placed = session.buildings.len() - 1;
    assert_eq!(building_status(&session, &data, &session.buildings[placed]), Some(BuildingStatus::InputStarved));
}

#[test]
fn waste_overflow_outranks_a_dry_unstaffed_mine() {
    let data = data();
    let mut session = session();
    session.creatures.clear();
    session.buildings[1].reserve_milli = 0;
    session.buildings[1].waste_milli = 100;

    assert_eq!(building_status(&session, &data, &session.buildings[1]), Some(BuildingStatus::WasteOverflow));
    assert_eq!(inspect_status(&session, &data, &session.buildings[1]), ("Waste accumulating", Tone::Warning));
}

#[test]
fn remote_miner_leaves_the_mine_unstaffed() {
    let data = data();
    let mut session = session();
    session.creatures.clear();
    let mut miner = creature("goblin", Job::Miner);
    miner.task = Task::WorkMine(MINE);
    miner.remote = true;
    session.creatures.push(miner);

    assert!(!staffed_at(&session, MINE, Job::Miner));
    assert_eq!(building_status(&session, &data, &session.buildings[1]), Some(BuildingStatus::NoWorker));

    session.creatures[0].remote = false;
    assert!(staffed_at(&session, MINE, Job::Miner));
    assert_eq!(building_status(&session, &data, &session.buildings[1]), None);
    assert_eq!(inspect_status(&session, &data, &session.buildings[1]), ("Working", Tone::Positive));
}

#[test]
fn inspection_reads_a_stopped_mine_with_the_badge_label() {
    let data = data();
    let mut session = session();
    session.creatures.clear();

    assert_eq!(inspect_status(&session, &data, &session.buildings[1]), ("No worker", Tone::Warning));
    session.buildings[1].reserve_milli = 0;
    assert_eq!(inspect_status(&session, &data, &session.buildings[1]), ("Exhausted", Tone::Negative));
}

#[test]
fn shrine_badge_names_the_same_blockers_as_the_card() {
    let data = data();
    let mut session = shrine_session();
    let shrine = session.buildings.len() - 1;

    session.economy.food_milli = data.balance.worm_feed_reserve_milli;
    assert!(shrine_waiting_for_food(&session, &data));
    assert_eq!(building_status(&session, &data, &session.buildings[shrine]), Some(BuildingStatus::ShrineNeedsFood));
    assert_eq!(worm_shrine_status(&session, &data).0, "Waiting for food reserve");

    session.economy.food_milli += 20_000;
    session.worm_fed_milli = data.balance.worm_food_per_offering_milli;
    session.economy.ingots_stock = data.balance.worm_ingot_reserve;
    assert!(shrine_waiting_for_ingots(&session, &data));
    assert_eq!(building_status(&session, &data, &session.buildings[shrine]), Some(BuildingStatus::ShrineNeedsIngots));

    session.economy.ingots_stock += 1;
    assert!(!shrine_waiting_for_ingots(&session, &data));
    assert_eq!(building_status(&session, &data, &session.buildings[shrine]), None);
    assert_eq!(worm_shrine_status(&session, &data), ("Working", Tone::Positive));

    session.worm_awake = true;
    assert_eq!(worm_shrine_status(&session, &data), ("Awakened", Tone::Positive));
}

#[test]
fn pending_hauls_count_pickups_and_open_sites() {
    let mut session = session();
    assert_eq!(pending_hauls(&session), 0);
    session.buildings[1].ore_milli = 1000;
    session.buildings[2].mushroom_milli = 999;
    session.build_sites.push(BuildSite { kind: "farm".to_owned(), remaining: 3 });
    session.build_sites.push(BuildSite { kind: "mine".to_owned(), remaining: 0 });
    assert_eq!(pending_hauls(&session), 2);
    assert!(pending_hauls(&session) <= session.buildings.len() + session.build_sites.len());
}

#[test]
fn population_counts_home_and_remote_creatures() {
    let data = data();
    let mut session = session();
    assert_eq!(population_stats(&session, &data), "POP 4/8 · IDLE 0");

    session.creatures[3].remote = true;
    session.creatures[2].job = Job::Idle;
    assert_eq!(population_stats(&session, &data), "POP 3/8 · IDLE 1 · REMOTE 1");
    assert_eq!(session.local_creature_count() + session.remote_creature_count(), session.creatures.len());
}

#[test]
fn specialists_are_never_counted_as_movable() {
    let data = data();
    let mut session = session();
    session.creatures.push(creature("overseer", Job::Miner));
    session.creatures.push(creature("hobgoblin", Job::Miner));

    assert_eq!(session.job_count(Job::Miner), 4);
    assert_eq!(reassignable_job_count(&session, &data, Job::Miner), 3);

    session.creatures[0].remote = true;
    assert_eq!(reassignable_job_count(&session, &data, Job::Miner), 2);
}

#[test]
fn assignment_hint_skips_jobs_without_a_movable_worker() {
    let data = data();
    let mut session = session();
    session.creatures.clear();
    session.creatures.push(creature("overseer", Job::Miner));
    session.creatures.push(creature("goblin", Job::Cook));

    assert_eq!(
        job_assignment_action_hint(&session, &data, Job::Guard, &[Job::Miner, Job::Carrier, Job::Cook]),
        "tap − beside Cook, then + beside Guard in Jobs"
    );
    assert_eq!(
        job_assignment_action_hint(&session, &data, Job::Guard, &[Job::Miner, Job::Carrier]),
        "free a worker, then tap + beside Guard in Jobs"
    );
    session.creatures.push(creature("goblin", Job::Idle));
    assert_eq!(
        job_assignment_action_hint(&session, &data, Job::Guard, &[Job::Miner]),
        "tap + beside Guard in Jobs"
    );
    assert_eq!(security_handoff_action_hint(&session, &data), "tap + beside Guard in Jobs");
}

#[test]
fn claimed_contracts_stop_guiding_and_fall_through_to_the_encore() {
    let data = data();
    let mut session = session();
    session.worm_awake = true;
    session.outpost_archive_claims = 1;
    assert!(relay_contract_guidance(&session, &data).is_some());
    session.outpost_relay_claimed = true;
    assert!(relay_contract_guidance(&session, &data).is_none());
    assert!(convoy_contract_guidance(&session, &data).is_some());

    session.outpost_circuit_claimed = true;
    session.outpost_chorus_claimed = true;
    session.outpost_charter_claimed = true;
    session.network.encore = 2;
    session.outpost_convoy_claims = 0;
    assert_eq!(
        charter_guidance(&session, &data).as_deref(),
        Some("Next: keep a complete Wormsong crew scouting · Encore 2/6 boosted hauls · +25 ingots.")
    );
}

#[test]
fn objective_completes_only_with_the_awakening() {
    let data = data();
    let mut session = session();
    session.won = true;
    session.factory_complete = true;
    session.creatures[0].job = Job::Guard;
    session.buildings.push(building("worm_shrine", OPEN));
    session.worm_fed_milli = data.balance.worm_awaken_at_milli;
    session.worm_ingots_fed = data.balance.worm_awaken_ingots;

    let before = objective(&session, &data);
    assert!(!before.complete);
    assert_eq!(before.title, "Awaken the Worm");
    assert_eq!(before.next, "Next: keep the Shrine running until the worm wakes.");
    assert_eq!(before.ratio, Fraction { num: 2_000_000, den: 2_000_000 });

    session.worm_awake = true;
    let after = objective(&session, &data);
    assert!(after.complete);
    assert_eq!(after.title, "Campaign complete");
    assert_eq!(after.progress, "Worm awake · Runs 0 · Hauls 0");
    assert_eq!(after.ratio, Fraction { num: 1, den: 1 });
}

#[test]
fn secure_objective_reports_both_reserves_as_a_ratio() {
    let data = data();
    let mut session = session();
    session.economy.food_milli = 50_000;
    session.economy.ore_delivered_total = 25;

    let now = objective(&session, &data);
    assert_eq!(now.progress, "Food 50/100  ·  Ore 25/50");
    assert_eq!(now.next, "Next: keep Food Grid production above Upkeep.");
    // (50/100 + 25/50) / 2 = 1/2
    assert_eq!(now.ratio.num * 2, now.ratio.den);

    session.economy.food_milli = 150_000;
    assert_eq!(objective(&session, &data).next, "Next: keep the Mine staffed and carriers hauling ore.");
    session.economy.ore_delivered_total = 80;
    let full = objective(&session, &data);
    assert_eq!(full.progress, "Food 100/100  ·  Ore 50/50");
    assert_eq!(full.next, "Next: hold both reserves until the warren is secure.");
    assert_eq!(full.ratio.num, full.ratio.den);
}

#[test]
fn network_counts_stay_within_the_route_count() {
    let data = data();
    let mut session = session();
    session.outposts.push(route(TilePos::new(1, 1)));
    session.outposts.push(active_route(TilePos::new(2, 2), ExpeditionState::Scouting { progress_percent: 5, ore_yield: 1, food_cost: 1 }));
    session.outposts.push(active_route(TilePos::new(3, 3), ExpeditionState::HoldFull));

    let (counts, charter) = compact_route_network_summary(&session, &data);
    assert_eq!(counts, "Routes 3 · Active 2 · Cargo 0 · Crew 0 · Ore 0 · Attention 2");
    assert_eq!(charter, "Charter 0/3 · +12 ingots");
}

// ---------------------------------------------------------------------------
// Exact readouts.

#[test]
fn route_name_prints_negative_tiles() {
    assert_eq!(route_name(0, TilePos::new(-3, 0)), "Route 1 · (-3, 0)");
}

#[test]
fn route_position_finds_the_first_route_on_a_tile() {
    let mut session = session();
    session.outposts.push(route(TilePos::new(1, 1)));
    session.outposts.push(route(TilePos::new(2, 2)));
    assert_eq!(route_position(&session, TilePos::new(2, 2)), Some(1));
    assert_eq!(route_position(&session, TilePos::new(3, 3)), None);
}

#[test]
fn worm_transit_summary_names_route_direction_and_time() {
    let mut session = session();
    assert_eq!(worm_transit_summary(&session), None);
    session.outposts.push(route(TilePos::new(1, 1)));
    session.outposts.push(route(OPEN));
    session.worm_transit = Some(WormTransit {
        outpost: OPEN,
        direction: TransitDirection::ToOutpost,
        remaining_milli: 12_600,
        ore: 0,
        ingots: 0,
        food_milli: 0,
        passengers: 0,
    });
    assert_eq!(worm_transit_summary(&session).as_deref(), Some("Worm in transit · Route 2 outbound · 13s remaining"));

    session.outposts.clear();
    session.worm_transit.as_mut().unwrap().direction = TransitDirection::ToShrine;
    session.worm_transit.as_mut().unwrap().remaining_milli = -5;
    assert_eq!(
        worm_transit_summary(&session).as_deref(),
        Some("Worm in transit · Route at (9, 9) returning · 0s remaining")
    );
}

#[test]
fn automatic_route_summary_reports_the_planner() {
    let data = data();
    let mut session = session();
    assert_eq!(automatic_route_summary(&session, &data), "Automatic jobs · none ready");
    session.outposts.push(route(OPEN));
    session.automatic_preview = Some(biofoundry::model::AutomaticPreview { outpost: OPEN, job_label: "Load".to_owned() });
    assert_eq!(automatic_route_summary(&session, &data), "Next automatic · Route 1 · Load");
    session.worm_transit = Some(in_flight());
    assert_eq!(automatic_route_summary(&session, &data), "Automatic jobs · waiting for Worm");
}

#[test]
fn charter_summary_covers_each_standing() {
    let mut data = data();
    let mut session = session();
    session.network.total_expeditions = 7;
    assert_eq!(charter_summary(&session, &data), "Charter 3/3 · +12 ingots");
    session.outpost_charter_claimed = true;
    session.outpost_archive_claims = 1;
    session.network.archive = 4;
    assert_eq!(charter_summary(&session, &data), "Charter complete · Archive 4/5 · Pages 1 · +8 ingots");
    data.balance.outpost_archive_haul_goal = 0;
    assert_eq!(charter_summary(&session, &data), "Charter complete");
    session.outpost_charter_claimed = false;
    data.balance.outpost_charter_haul_goal = 0;
    assert_eq!(charter_summary(&session, &data), "Charter unavailable");
}

#[test]
fn condensed_banners_name_the_next_control() {
    let data = data();
    let mut session = session();
    assert_eq!(condensed_raid_defense_hint(&session, &data), "tap −Miner→+Guard");
    assert_eq!(condensed_food_recovery_hint(&session, &data), "tap −Miner→+Carrier");
    session.creatures[0].job = Job::Idle;
    assert_eq!(condensed_raid_defense_hint(&session, &data), "tap + Guard");
    assert_eq!(condensed_food_recovery_hint(&session, &data), "tap + Carrier/Cook");
    assert_eq!(compact_food_recovery_hint(&session, &data), "tap + Carrier or Cook");
    session.creatures[1].job = Job::Guard;
    assert_eq!(condensed_raid_defense_hint(&session, &data), "guards ready");
    session.creatures.clear();
    assert_eq!(condensed_raid_defense_hint(&session, &data), "free worker→+Guard");
    assert_eq!(condensed_food_recovery_hint(&session, &data), "free worker→+Carrier");
}

#[test]
fn specialist_buttons_show_upkeep_until_posted() {
    let data = data();
    assert_eq!(optional_upkeep_label("salamander", &data), "1 charcoal/batch");
    assert_eq!(optional_upkeep_label("goblin", &data), "+1 food/min");
    assert_eq!(optional_upkeep_label("beetle", &data), "check Food Grid");
    assert_eq!(optional_upkeep_label("unknown", &data), "check Food Grid");
    assert_eq!(optional_specialist_button_label("bat_courier", false, &data), "Bat ×8\n+0 food/min");
    assert_eq!(optional_specialist_button_label("bat_courier", true, &data), "Bat · posted");
    assert_eq!(optional_specialist_label("goblin", false), "Specialist");
    assert_eq!(optional_support_label("beetle", 3, 0), "Beetle haul (3)");
    assert_eq!(optional_support_label("beetle", 3, 2), "Beetle x2 haul");
    assert_eq!(optional_support_label("salamander", 5, 0), "Salam. forge (5)");
    assert_eq!(optional_support_label("salamander", 5, 1), "Salam x1 forge");
    assert_eq!(optional_support_label("newt", 4, 0), "newt (4)");
    assert_eq!(optional_support_button_label("salamander", 5, 0, &data), "Salam. forge (5)\n1 charcoal/batch");
    assert_eq!(optional_support_button_label("beetle", 3, 2, &data), "Beetle x2 haul");
}

#[test]
fn build_panel_readouts() {
    assert_eq!(construction_progress_label(1, 0), "Build 1 site · 0 ore left");
    assert_eq!(construction_progress_label(2, 14), "Build 2 sites · 14 ore left");
    assert_eq!(resource_bank_line(7, 0), "Ore banked 7 · ingots 0");
    assert!(is_core_building("worm_shrine"));
    assert!(is_core_building("cook_pot"));
    assert!(!is_core_building("smelter"));
    assert!(requires_local_route("feeding_trough"));
    assert!(!requires_local_route("worm_shrine"));
    assert_eq!(blacksmith_recipe_rows(0), 0);
    assert_eq!(blacksmith_recipe_rows(5), 3);
    assert_eq!(blacksmith_recipe_rows(6), 3);
}

#[test]
fn colony_failure_reports_each_cause() {
    let data = data();
    let mut session = session();
    assert_eq!(colony_failure_reason(&session, &data), None);
    session.creatures.clear();
    assert_eq!(colony_failure_reason(&session, &data), Some(ColonyFailure::Silent));
    assert_eq!(colony_failure_title(ColonyFailure::Silent), "The Warren Falls Silent");
    assert_eq!(colony_failure_title(ColonyFailure::GuardHandoff), "Guard Handoff Blocked");
    assert!(colony_failure_body(ColonyFailure::Silent, false).ends_with("Start a new warren to begin again."));
    assert!(colony_failure_body(ColonyFailure::GuardHandoff, false).starts_with("No reassignable workers remain"));
}

#[test]
fn tutorial_body_keeps_other_steps_verbatim() {
    let data = data();
    let session = session();
    assert_eq!(tutorial_body(&step("dig"), &session, &data), "Follow the glowing path.");
}

#[test]
fn field_guide_explains_breeding_specialists() {
    assert!(INSPECT_HELP_BODY.contains("Breeding Pit"));
    assert!(INSPECT_HELP_BODY.contains("after onboarding"));
    assert!(INSPECT_HELP_BODY.contains("benefits"));
    assert!(INSPECT_HELP_BODY.contains("Rest Hollow"));
    assert!(INSPECT_HELP_BODY.contains("Load order"));
}

#[test]
fn field_guide_points_to_post_campaign_cargo_runs() {
    assert!(OBJECTIVE_HELP_BODY.contains("worm wakes"));
    assert!(OBJECTIVE_HELP_BODY.contains("tap Routes"));
    assert!(OBJECTIVE_HELP_BODY.contains("Outpost"));
    assert!(OBJECTIVE_HELP_BODY.contains("Archive"));
    assert!(INSPECT_HELP_BODY.contains("scout for ore"));
    assert!(INSPECT_HELP_BODY.contains("Auto-resupply · Food only"));
    assert!(INSPECT_HELP_BODY.contains("Auto-load · Cargo + crew"));
    assert!(INSPECT_HELP_BODY.contains("expand the hold and camp"));
    assert!(INSPECT_HELP_BODY.contains("install a survey rig"));
    assert!(INSPECT_HELP_BODY.contains("resonance beacon"));
    assert!(INSPECT_HELP_BODY.contains("Archive pages"));
    assert!(INSPECT_HELP_BODY.contains("Archive Wayfinder"));
    assert!(INSPECT_HELP_BODY.contains("Worm Road Relay"));
    assert!(INSPECT_HELP_BODY.contains("Signal Cache"));
    assert!(INSPECT_HELP_BODY.contains("Worm Road Waypoint"));
    assert!(OBJECTIVE_HELP_BODY.contains("first page"));
    assert!(OBJECTIVE_HELP_BODY.contains("Worm Road Relay"));
    assert!(OBJECTIVE_HELP_BODY.contains("Signal Cache"));
    assert!(OBJECTIVE_HELP_BODY.contains("Waypoint"));
}

#[test]
fn field_guide_switches_to_route_running_after_the_awakening() {
    assert_eq!(field_guide_inspect_content(false), ("Inspect & craft", INSPECT_HELP_BODY));
    assert_eq!(field_guide_inspect_content(true), ("Endless routes", ENDLESS_INSPECT_HELP_BODY));
    assert_eq!(field_guide_objective_content(false), OBJECTIVE_HELP_BODY);
    assert_eq!(field_guide_objective_content(true), ENDLESS_OBJECTIVE_HELP_BODY);
}

#[test]
fn unlock_progress_reads_the_live_counter() {
    let data = data();
    let mut session = session();
    session.counters.push(counter("beetles_captured", 1));
    assert_eq!(unlock_requirement_progress(&session, &data, "breeding_pit").as_deref(), Some("capture 2 beetles (1/2)"));
    assert_eq!(unlock_requirement(&data, "archive_wayfinder").as_deref(), Some("log 1 Archive page"));
    assert_eq!(unlock_requirement(&data, "wormsong_harness").as_deref(), Some("hold 1 Worm Road Muster"));
    assert_eq!(unlock_requirement(&data, "no_such_unlock"), None);
}

#[test]
fn shrine_requirement_follows_the_unlock() {
    let data = data();
    let mut session = session();
    session.counters.push(counter("ingots_forged", 12));
    assert_eq!(
        shrine_build_requirement(&session, &data),
        ("Worm Shrine · forge 20 ingots (12/20)".to_owned(), "Next: forge 20 ingots to unlock the Worm Shrine.".to_owned())
    );
    session.unlocked.push("worm_shrine".to_owned());
    assert_eq!(shrine_build_requirement(&session, &data).0, "Worm Shrine · ready to build");
}

#[test]
fn forge_steps_follow_the_chain() {
    let data = data();
    let mut session = session();
    session.worm_awake = true;
    assert_eq!(endless_forge_next_step(&session, &data), "Next: tap Blacksmith in Build & Dig, then place it on open floor.");
    assert!(!pending_build_site(&session, "blacksmith"));
    session.buildings.push(building("blacksmith", OPEN));
    session.buildings[1].reserve_milli = 0;
    assert_eq!(endless_forge_next_step(&session, &data), "Next: tap Mine in Build & Dig, then place a new Mine on open floor.");
    session.buildings[1].reserve_milli = 1;
    session.creatures[0].job = Job::Smith;
    session.economy.ingots_forged = 90;
    assert_eq!(endless_forge_next_step(&session, &data), "Next: forge ingots to unlock Worm Transit (60/60).");
}

#[test]
fn upgrade_step_names_the_affordable_upgrade() {
    let data = data();
    let mut session = session();
    let mut r = active_route(OPEN, ExpeditionState::NoCrew);
    assert_eq!(outpost_upgrade_next_step(&session, &data, &r), None);
    session.economy.ingots_stock = 10;
    assert_eq!(
        outpost_upgrade_next_step(&session, &data, &r).as_deref(),
        Some("Next: tap the active Worm Outpost, then Expand hold for 10 ingots.")
    );
    r.storage_upgraded = true;
    r.crew_upgraded = true;
    r.survey_upgraded = true;
    r.resonator_upgraded = true;
    session.economy.ingots_stock = 100;
    assert_eq!(outpost_upgrade_next_step(&session, &data, &r), None);
}

#[test]
fn active_outpost_step_asks_for_crew_when_runs_take_none() {
    let data = data();
    let mut r = active_route(OPEN, ExpeditionState::NoCrew);
    r.crew_dispatch_limit = Some(0);
    let mut session = with_route(transit_session(), r);
    session.creatures[0].tile = STOCKPILE;
    assert_eq!(
        active_outpost_next_step(&session, &data),
        "Next: tap Crew per run on the Outpost, then load scouts from the warren."
    );
    assert!(outpost_has_loadable_payload(&session, &data, &session.outposts[0]));
}

#[test]
fn outpost_card_lines() {
    let data = data();
    let mut session = session();
    assert_eq!(outpost_archive_summary(&session, &data), None);
    session.outpost_charter_claimed = true;
    session.outpost_archive_claims = 3;
    session.network.archive = 1;
    assert_eq!(outpost_archive_summary(&session, &data).as_deref(), Some("Archive pages 3 · Next 1/5"));

    let mut r = route(OPEN);
    assert_eq!(outpost_signal_cache_summary(&r, &data, false), None);
    r.signal_cache_upgraded = true;
    r.signal_cache_ingots = 4;
    assert_eq!(outpost_signal_cache_summary(&r, &data, false).as_deref(), Some("Signal cache · +1/haul · Kept 4"));
    assert_eq!(outpost_signal_cache_summary(&r, &data, true).as_deref(), Some("Cache +1/haul · Kept 4"));

    assert_eq!(outpost_waypoint_summary(&r, &data, true), None);
    r.waypoint_upgraded = true;
    r.readout.transit_milli = 8_400;
    assert_eq!(outpost_waypoint_summary(&r, &data, false).as_deref(), Some("Worm Road Waypoint · 8s transit"));
    assert_eq!(outpost_waypoint_summary(&r, &data, true).as_deref(), Some("Waypoint · 8s"));
}

#[test]
fn route_metrics_follow_the_worm_while_it_travels_the_route() {
    let data = data();
    let mut session = session();
    let r = route(TilePos::new(4, 4));
    session.worm_transit = Some(in_flight());
    assert_eq!(route_metrics(&session, &data, &r), "returning · 9 cargo · 2 crew");
}

#[test]
fn policy_summary_names_the_route_bonus() {
    let data = data();
    let session = session();
    let mut r = route(OPEN);
    r.auto_load = true;
    r.readout.bonus_summary = Some("Wormsong crew · +1 ore/scout".to_owned());
    assert_eq!(route_policy_summary(&session, &r, &data, false), "Auto-load route · Wormsong crew · +1 ore/scout");
    r.readout.wormsong_bonus = true;
    assert_eq!(route_policy_summary(&session, &r, &data, true), "Auto-load route · Wormsong");
    r.readout.chorus_ingots_per_haul = 2;
    assert_eq!(route_policy_summary(&session, &r, &data, true), "Auto-load route · Chorus +2/haul");
}

#[test]
fn workforce_pressure_warns_only_when_crowded_or_recovering() {
    let mut session = session();
    assert_eq!(workforce_pressure_label(&session, false, 100, 0), None);
    assert_eq!(
        workforce_pressure_label(&session, true, 87, 0).as_deref(),
        Some("Wellbeing recovering · morale 87% · work speed returns")
    );
    session.warren_capacity = 2;
    assert_eq!(
        workforce_pressure_label(&session, false, 90, 30).as_deref(),
        Some("Crowded · work −30% · morale 90% · tap Dig")
    );
    assert_eq!(
        workforce_pressure_label(&session, true, 40, 80).as_deref(),
        Some("Crowded · work −65% · morale 40% · tap Dig")
    );
    session.creatures.clear();
    assert_eq!(workforce_pressure_label(&session, true, 40, 80), None);
}

#[test]
fn inspection_buttons_keep_critical_touch_targets() {
    assert_eq!(inspection_button_metrics("material_stockpile", false, 0), (72, 76));
    assert_eq!(inspection_button_metrics("worm_shrine", true, 0), (72, 76));
    assert_eq!(inspection_button_metrics("worm_shrine", false, 0), (24, 26));
    assert_eq!(inspection_button_metrics("blacksmith", true, 5), (46, 48));
    assert_eq!(inspection_button_metrics("blacksmith", true, 4), (36, 40));
    assert_eq!(inspection_button_metrics("breeding_pit", true, 0), (36, 40));
    assert_eq!(inspection_button_metrics("breeding_pit", false, 0), (38, 42));
    assert_eq!(inspection_button_metrics("farm", true, 0), (30, 34));
}

#[test]
fn later_contract_lines_report_progress_then_completion() {
    let data = data();
    let mut session = session();
    assert_eq!(muster_contract_summary(&session, &data), None);
    session.outpost_relay_claimed = true;
    session.outpost_convoy_claims = 1;
    session.network.muster_routes = 2;
    session.network.muster_hauls = 5;
    assert_eq!(
        muster_contract_summary(&session, &data).as_deref(),
        Some("Worm Road Muster · 2/3 routes · 5/9 hauls · +30 ingots")
    );
    session.outpost_muster_claims = 1;
    assert_eq!(
        muster_contract_summary(&session, &data).as_deref(),
        Some("Worm Road Muster · 1 cleared · next 5/9 hauls · +30 ingots")
    );

    session.network.concord_roles = 3;
    session.network.concord_routes = 2;
    assert_eq!(
        concord_contract_summary(&session, &data).as_deref(),
        Some("Wormsong Concord · 3/4 roles · 2 active routes · +40 ingots")
    );
    session.outpost_concord_claimed = true;
    assert_eq!(
        concord_contract_summary(&session, &data).as_deref(),
        Some("Wormsong Concord complete · 4 roles on the road · +40 ingots")
    );

    session.network.circuit_complete = 1;
    session.network.circuit_active = 2;
    assert_eq!(
        circuit_contract_summary(&session, &data).as_deref(),
        Some("Wormsong Circuit · 1/2 complete routes · 2 active routes · +60 ingots")
    );
    assert_eq!(encore_contract_summary(&session, &data), None);
    session.outpost_circuit_claimed = true;
    assert_eq!(
        circuit_contract_summary(&session, &data).as_deref(),
        Some("Wormsong Circuit complete · 2 complete routes · +60 ingots")
    );

    session.network.encore = 4;
    assert_eq!(encore_contract_summary(&session, &data).as_deref(), Some("Wormsong Encore · 4/6 boosted hauls · +25 ingots"));
    session.outpost_encore_claims = 2;
    assert_eq!(
        encore_contract_summary(&session, &data).as_deref(),
        Some("Wormsong Encore · 2 cleared · next 4/6 boosted hauls · +25 ingots")
    );

    assert_eq!(
        chorus_contract_summary(&session, &data).as_deref(),
        Some("Wormsong Chorus · 0/3 complete routes · 0 active routes · +80 ingots")
    );
    let mut r = route(OPEN);
    r.chorus_ingots = 7;
    session.outposts.push(r);
    session.outpost_chorus_claimed = true;
    assert_eq!(
        chorus_contract_summary(&session, &data).as_deref(),
        Some("Wormsong Chorus complete · 3 complete routes · +1 ingot/haul · Kept 7")
    );
    assert!(route_network_summary(&session, &data).ends_with("Attention 1 · Chorus kept 7"));
}

#[test]
fn top_bar_banner_names_the_most_urgent_state() {
    let data = data();
    let mut session = session();
    let banner = |s: &GameSession, compact: bool| top_bar_banner(s, &data, compact, None, false, "01:20", "00:40");

    assert_eq!(banner(&session, false), ("Drag map · +/− zoom · tap Help".to_owned(), Emphasis::Quiet));
    assert_eq!(
        top_bar_banner(&session, &data, false, Some("Checkpoint not saved"), true, "", ""),
        ("Checkpoint not saved".to_owned(), Emphasis::Negative)
    );
    assert_eq!(
        top_bar_banner(&session, &data, true, None, true, "", ""),
        ("PAUSED — tap Resume".to_owned(), Emphasis::Warning)
    );

    session.raid_in_milli = 40_000;
    assert_eq!(banner(&session, false), ("RAID IN 00:40 — tap − Miner, then + Guard".to_owned(), Emphasis::Warning));
    assert_eq!(banner(&session, true), ("RAID 00:40 · tap −Miner→+Guard".to_owned(), Emphasis::Warning));

    session.food_empty_in_milli = Some(80_000);
    assert_eq!(
        banner(&session, false),
        ("FOOD IN 01:20 · RAID IN 00:40 · tap − Miner, then + Guard".to_owned(), Emphasis::Warning)
    );
    session.raid_in_milli = 300_000;
    assert_eq!(banner(&session, false), ("FOOD IN 01:20 · tap − Miner, then + Carrier".to_owned(), Emphasis::Warning));
    assert_eq!(banner(&session, true), ("FOOD 01:20 · tap −Miner→+Carrier".to_owned(), Emphasis::Warning));

    session.raid_active = true;
    assert_eq!(
        banner(&session, false),
        ("RAID — gnarls are after the larder! tap − Miner, then + Guard · FOOD IN 01:20".to_owned(), Emphasis::Negative)
    );
    session.economy.food_milli = 0;
    assert_eq!(banner(&session, true), ("RAID — tap −Miner→+Guard · FAMINE".to_owned(), Emphasis::Negative));
    session.raid_active = false;
    assert_eq!(banner(&session, false), ("FAMINE — workers are slowing down".to_owned(), Emphasis::Negative));

    session.last_transit_failure = true;
    assert_eq!(banner(&session, true), ("ROUTE FAILED — tap Outpost".to_owned(), Emphasis::Negative));
    session.worm_transit = Some(in_flight());
    assert_eq!(banner(&session, false), ("WORM TRANSIT — 4s remaining".to_owned(), Emphasis::Positive));
    assert_eq!(banner(&session, true), ("WORM TRANSIT — 4s".to_owned(), Emphasis::Positive));
}

#[test]
fn jobs_panel_rows_enable_only_the_possible_moves() {
    let data = data();
    let mut session = session();
    let rows = jobs_panel_rows(&session, &data);
    let jobs: Vec<Job> = rows.iter().map(|r| r.job).collect();
    assert_eq!(jobs, vec![Job::Miner, Job::Carrier, Job::Cook, Job::Smith, Job::Guard]);
    assert_eq!(rows[0].count, 2);
    assert!(rows[0].can_unassign);
    assert!(!rows[3].can_unassign);
    assert!(rows.iter().all(|r| !r.can_assign && !r.raid_alert));

    session.creatures[0].job = Job::Idle;
    session.raid_active = true;
    let rows = jobs_panel_rows(&session, &data);
    assert_eq!(rows[0].count, 1);
    assert!(rows.iter().all(|r| r.can_assign));
    assert!(rows[4].raid_alert && !rows[0].raid_alert);
}

#[test]
fn recruit_buttons_follow_ore_dens_and_unique_posts() {
    let data = data();
    let mut session = session();
    let labels = |b: &[biofoundry::jobs::RecruitButton]| -> Vec<(String, bool)> {
        b.iter().map(|r| (r.label.clone(), r.enabled)).collect()
    };
    assert_eq!(
        labels(&recruit_buttons(&session, &data)),
        vec![
            ("Beetle haul (6)\ncheck Food Grid".to_owned(), false),
            ("Salam. forge (10)\n1 charcoal/batch".to_owned(), false),
            ("Slime · waste\n+0 food/min".to_owned(), false),
            ("Bat ×8\n+0 food/min".to_owned(), false),
        ]
    );
    assert_eq!(
        locked_recruit_lines(&session, &data),
        vec!["Salamander → build a Smelter Den".to_owned(), "Slime → spoil 10 food (0/10)".to_owned()]
    );

    session.economy.ore_stock = 10;
    session.buildings.push(building("smelter", OPEN));
    session.unlocked.push("slime_janitor".to_owned());
    session.creatures.push(creature("beetle", Job::Carrier));
    let buttons = labels(&recruit_buttons(&session, &data));
    assert_eq!(buttons[0], ("Beetle x1 haul".to_owned(), true));
    assert_eq!(buttons[1], ("Salam. forge (10)\n1 charcoal/batch".to_owned(), true));
    assert_eq!(buttons[2], ("Slime · waste\n+0 food/min".to_owned(), true));
    assert!(locked_recruit_lines(&session, &data).is_empty());

    let mut slime = creature("slime_janitor", Job::Janitor);
    slime.remote = true;
    session.creatures.push(slime);
    assert_eq!(labels(&recruit_buttons(&session, &data))[2], ("Slime · posted".to_owned(), false));
}

#[test]
fn engineer_roster_counts_home_posted_and_routes() {
    let mut session = session();
    assert_eq!(engineer_roster_line(&session), "Engineer 0 · no local bonus · Outposts 0/0");
    let mut posted = creature("engineer", Job::Engineer);
    posted.remote = true;
    session.creatures.push(posted);
    session.outposts.push(route(OPEN));
    session.outposts.push(active_route(SECOND, ExpeditionState::NoCrew));
    assert_eq!(engineer_roster_line(&session), "Engineer 0 local · 1 posted · Outposts 1/2");
    session.creatures.push(creature("engineer", Job::Engineer));
    assert_eq!(engineer_roster_line(&session), "Engineer 1 local · Mine +25% · Outposts 1/2");
}

#[test]
fn inspection_header_adds_recovery_lines() {
    let data = data();
    let mut session = with_building(session(), "blacksmith", OPEN);
    let mut smith = creature("goblin", Job::Smith);
    smith.task = Task::GoSmith(OPEN);
    session.creatures.push(smith);
    let shop = session.buildings.len() - 1;
    assert_eq!(
        inspection_header(&session, &data, &session.buildings[shop]),
        vec![("Status · Starved".to_owned(), Tone::Warning), ("Needs 2 ore · next ingot".to_owned(), Tone::Warning)]
    );

    session.buildings[shop].connected = false;
    session.buildings[shop].waste_milli = 1500;
    assert_eq!(
        inspection_header(&session, &data, &session.buildings[shop]),
        vec![
            ("Status · Waste accumulating".to_owned(), Tone::Warning),
            ("Waste 1.5 · Secure warren first".to_owned(), Tone::Warning),
        ]
    );
    session.buildings[shop].waste_milli = 0;
    assert_eq!(
        inspection_header(&session, &data, &session.buildings[shop]),
        vec![
            ("Status · No valid route".to_owned(), Tone::Warning),
            ("Dig a tunnel to reconnect this node".to_owned(), Tone::Warning),
        ]
    );

    let mut trough = building("feeding_trough", SECOND);
    trough.waste_milli = 1000;
    assert_eq!(
        inspection_header(&session, &data, &trough),
        vec![("Status · Waste accumulating".to_owned(), Tone::Warning)]
    );
    assert_eq!(inspection_header(&session, &data, &session.buildings[0]), vec![("Status · Working".to_owned(), Tone::Positive)]);
}

#[test]
fn overlays_take_the_screen_in_order_of_urgency() {
    let data = data();
    let mut session = session();
    assert_eq!(goal_overlay(&session, &data, false), None);
    session.won = true;
    assert_eq!(goal_overlay(&session, &data, false), Some(GoalOverlay::WarrenSecured));
    let (title, body, button) = goal_report(&session, &data, GoalOverlay::WarrenSecured).unwrap();
    assert_eq!((title, button), ("Warren Secured", "Return to Warren"));
    assert!(body.contains("Onboarding still needs a Guard"));
    session.factory_complete = true;
    assert_eq!(goal_overlay(&session, &data, false), Some(GoalOverlay::FactoryComplete));
    session.worm_awake = true;
    assert_eq!(goal_overlay(&session, &data, false), Some(GoalOverlay::WormAwakened));
    let (title, _, button) = goal_report(&session, &data, GoalOverlay::WormAwakened).unwrap();
    assert_eq!((title, button), ("The Colossal Worm Awakens", "Continue in Endless"));
    assert_eq!(goal_overlay(&session, &data, true), Some(GoalOverlay::LoadConfirmation));
    assert_eq!(goal_report(&session, &data, GoalOverlay::LoadConfirmation), None);
    session.worm_awake = false;
    session.creatures.clear();
    assert_eq!(goal_overlay(&session, &data, true), Some(GoalOverlay::ColonyFailure(ColonyFailure::Silent)));
    session.victory_shown = true;
    session.factory_shown = true;
    session.creatures.push(creature("goblin", Job::Guard));
    assert_eq!(goal_overlay(&session, &data, false), None);
    let (_, body, _) = goal_report(&session, &data, GoalOverlay::FactoryComplete).unwrap();
    assert!(body.starts_with("The Biofoundry roars: 0 ingots forged"));
}

#[test]
fn route_ledger_and_legend_visibility() {
    let data = data();
    let mut session = session();
    assert!(!route_ledger_open(&session, true));
    session.outposts.push(route(OPEN));
    assert!(!route_ledger_open(&session, true));
    session.worm_awake = true;
    assert!(route_ledger_open(&session, true));
    assert!(!route_ledger_open(&session, false));

    session.creatures[0].task = Task::WorkMine(MINE);
    assert!(!status_legend_visible(&session, &data, false));
    session.creatures.clear();
    assert!(status_legend_visible(&session, &data, false));
    assert!(!status_legend_visible(&session, &data, true));
}

#[test]
fn route_ledger_grid_fills_rows_left_to_right() {
    assert_eq!(route_ledger_rows(0), 1);
    assert_eq!(route_ledger_rows(3), 1);
    assert_eq!(route_ledger_rows(4), 2);
    assert_eq!(route_ledger_rows(7), 2);
    assert_eq!(route_ledger_rows(9), 3);
    assert_eq!(route_card_cell(4, 5), (1, 1));
    assert_eq!(route_card_cell(4, 8), (0, 1));
}

#[test]
fn ledger_lists_contract_lines_then_transit() {
    let data = data();
    let mut session = session();
    assert!(ledger_contract_lines(&session, &data).is_empty());
    session.outpost_archive_claims = 1;
    session.outpost_relay_claimed = true;
    session.outposts.push(route(OPEN));
    session.worm_transit = Some(WormTransit {
        outpost: OPEN,
        direction: TransitDirection::ToShrine,
        remaining_milli: 2_000,
        ore: 0,
        ingots: 0,
        food_milli: 0,
        passengers: 0,
    });
    assert_eq!(
        ledger_contract_lines(&session, &data),
        vec![
            ("Worm Road Relay complete · +20 ingots".to_owned(), Tone::Positive),
            ("Worm Road Convoy · 0/3 routes · 0/12 hauls · +24 ingots".to_owned(), Tone::Positive),
            ("Worm in transit · Route 1 returning · 2s remaining".to_owned(), Tone::Warning),
        ]
    );
}

fn upgrade_view(session: &GameSession, data: &GameData, r: &Outpost, compact: bool) -> Vec<(RouteUpgrade, String, bool)> {
    route_upgrade_buttons(session, data, r, compact).into_iter().map(|b| (b.upgrade, b.label, b.enabled)).collect()
}

#[test]
fn upgrade_ladder_offers_each_rung_after_the_one_below() {
    let data = data();
    let mut session = session();
    let mut r = active_route(OPEN, ExpeditionState::NoCrew);
    session.economy.ingots_stock = 11;
    assert_eq!(
        upgrade_view(&session, &data, &r, false),
        vec![
            (RouteUpgrade::Hold, "Expand hold · 10 ingots".to_owned(), true),
            (RouteUpgrade::Camp, "Expand camp · 12 ingots".to_owned(), false),
        ]
    );
    assert_eq!(
        upgrade_view(&session, &data, &r, true),
        vec![(RouteUpgrade::Hold, "Hold · 10".to_owned(), true), (RouteUpgrade::Camp, "Camp · 12".to_owned(), false)]
    );

    r.storage_upgraded = true;
    r.crew_upgraded = true;
    r.survey_upgraded = true;
    r.resonator_upgraded = true;
    session.economy.ingots_stock = 100;
    assert_eq!(
        upgrade_view(&session, &data, &r, false),
        vec![(RouteUpgrade::DeepSurvey, "Deep survey · Charter required".to_owned(), false)]
    );
    session.outpost_charter_claimed = true;
    assert_eq!(
        upgrade_view(&session, &data, &r, true),
        vec![(RouteUpgrade::DeepSurvey, "Deep · 18".to_owned(), true)]
    );
    assert_eq!(
        outpost_upgrade_next_step(&session, &data, &r).as_deref(),
        Some("Next: tap the active Worm Outpost, then Calibrate deep survey for 18 ingots.")
    );

    r.deep_survey_upgraded = true;
    assert_eq!(upgrade_view(&session, &data, &r, true), vec![(RouteUpgrade::SignalCache, "Cache · Relay".to_owned(), false)]);
    r.signal_cache_upgraded = true;
    assert_eq!(
        upgrade_view(&session, &data, &r, false),
        vec![(RouteUpgrade::Waypoint, "Worm Road waypoint · Convoy required".to_owned(), false)]
    );
    session.outpost_convoy_claims = 1;
    assert_eq!(
        upgrade_view(&session, &data, &r, false),
        vec![(RouteUpgrade::Waypoint, "Install Worm Road waypoint · 22 ingots".to_owned(), true)]
    );
    r.waypoint_upgraded = true;
    assert!(upgrade_view(&session, &data, &r, false).is_empty());
}

#[test]
fn workstation_staffing_lines_tell_working_from_stationed() {
    let mut session = with_building(session(), "blacksmith", OPEN);
    assert_eq!(smith_staffing_line(&session, OPEN), ("No smith — idle", Tone::Warning));
    let mut smith = creature("goblin", Job::Smith);
    smith.task = Task::GoSmith(OPEN);
    session.creatures.push(smith);
    assert_eq!(smith_staffing_line(&session, OPEN), ("Smith stationed", Tone::Positive));
    session.creatures.last_mut().unwrap().task = Task::Crafting { shop: OPEN };
    assert_eq!(smith_staffing_line(&session, OPEN), ("Smith at work", Tone::Positive));
    session.creatures.last_mut().unwrap().remote = true;
    assert_eq!(smith_staffing_line(&session, OPEN), ("No smith — idle", Tone::Warning));

    assert_eq!(smelter_staffing_line(&session, SECOND), ("No salamander — idle", Tone::Warning));
    let mut salamander = creature("salamander", Job::Smelter);
    salamander.task = Task::Smelting { den: SECOND };
    session.creatures.push(salamander);
    assert_eq!(smelter_staffing_line(&session, SECOND), ("Salamander at work", Tone::Positive));
    session.creatures.last_mut().unwrap().task = Task::GoSmelt(SECOND);
    assert_eq!(smelter_staffing_line(&session, SECOND), ("Salamander stationed", Tone::Positive));
}

#[test]
fn shrine_card_names_what_the_offerings_wait_for() {
    let data = data();
    let mut session = shrine_session();
    session.economy.food_milli = data.balance.worm_feed_reserve_milli + 10_000;
    assert_eq!(shrine_offering_line(&session, &data), ("Offering automatically", Tone::Positive));
    session.economy.food_milli = data.balance.worm_feed_reserve_milli;
    assert_eq!(shrine_offering_line(&session, &data), ("Waiting for food reserve", Tone::Warning));
    session.worm_feeding_paused = true;
    assert_eq!(shrine_offering_line(&session, &data), ("Offerings paused — reserve protected", Tone::Warning));
    session.worm_awake = true;
    assert_eq!(shrine_offering_line(&session, &data), ("The Colossal Worm is awake", Tone::Warning));
    session.worm_feeding_paused = false;
    session.economy.food_milli += 50_000;
    assert_eq!(shrine_offering_line(&session, &data), ("The Colossal Worm is awake", Tone::Positive));
}

#[test]
fn breeding_pit_buttons_follow_unlocks_posts_and_ingots() {
    let data = data();
    let mut session = session();
    session.counters.push(counter("ingots_forged", 7));
    let view = |s: &GameSession| -> Vec<(&'static str, String, bool, Option<String>)> {
        breeding_buttons(s, &data).into_iter().map(|b| (b.species, b.label, b.enabled, b.unlock_hint)).collect()
    };
    let locked = view(&session);
    assert_eq!(
        locked[0],
        ("hobgoblin", "Hobgoblin [L]".to_owned(), false, Some("Next: forge 30 ingots (7/30)".to_owned()))
    );
    assert_eq!(locked[1], ("overseer", "Goblin Overseer [L]".to_owned(), false, None));
    assert_eq!(locked[2].0, "engineer");

    session.unlocked.push("hobgoblin".to_owned());
    session.unlocked.push("overseer".to_owned());
    session.unlocked.push("engineer".to_owned());
    session.economy.ingots_stock = 6;
    let open = view(&session);
    assert_eq!(open[0], ("hobgoblin", "Hobgoblin · ×2 work (4)".to_owned(), true, None));
    assert_eq!(open[1], ("overseer", "Goblin Overseer · aura +35% (6)".to_owned(), true, None));
    assert_eq!(open[2], ("engineer", "Goblin Engineer · Mine +25% (8)".to_owned(), false, None));

    session.creatures.push(creature("overseer", Job::Idle));
    session.creatures.push(creature("hobgoblin", Job::Miner));
    let posted = view(&session);
    assert_eq!(posted[1], ("overseer", "Goblin Overseer — posted".to_owned(), false, None));
    assert!(posted[0].2);
}

#[test]
fn event_log_view_clamps_the_page_and_enables_browsing() {
    let v = event_log_view(25, 7);
    assert_eq!((v.page, v.title.as_str(), v.start, v.end), (2, "Recent Events · 3/3", 0, 5));
    assert!(!v.can_older && v.can_newer);
    let v = event_log_view(25, 1);
    assert_eq!((v.start, v.end), (5, 15));
    assert!(v.can_older && v.can_newer);
    let v = event_log_view(0, 0);
    assert_eq!((v.page, v.title.as_str(), v.start, v.end), (0, "Recent Events · 1/1", 0, 0));
    assert!(!v.can_older && !v.can_newer);
    assert!(EMPTY_EVENT_LOG_TEXT.starts_with("No events yet"));
}

// ---------------------------------------------------------------------------
// Inspection-card readouts.

#[test]
fn mine_card_reads_buffer_and_reserve() {
    let data = data();
    let mut session = session();
    assert_eq!(mine_stock_lines(&session.buildings[1], &data), ("Buffer 0/10".to_owned(), "Reserve 400".to_owned()));
    session.buildings[1].ore_milli = 2_500;
    session.buildings[1].reserve_milli = -5;
    assert_eq!(mine_stock_lines(&session.buildings[1], &data), ("Buffer 2/10".to_owned(), "Reserve 0".to_owned()));
    session.buildings[1].ore_milli = 3_500;
    assert_eq!(mine_stock_lines(&session.buildings[1], &data).0, "Buffer 4/10");
}

#[test]
fn workstation_cards_read_their_stock() {
    let mut session = session();
    session.buildings[2].mushroom_milli = 4_600;
    assert_eq!(stock_line(&session, &session.buildings[2]), Some("Mushrooms 5/12".to_owned()));
    let mut kiln = building("kiln", OPEN);
    kiln.wood_milli = 3_000;
    kiln.charcoal_milli = 1_500;
    assert_eq!(stock_line(&session, &kiln), Some("Wood 3  Charcoal 2".to_owned()));
    let mut smelter = building("smelter", OPEN);
    smelter.ore_milli = 1_000;
    assert_eq!(stock_line(&session, &smelter), Some("Ore 1  Charcoal 0".to_owned()));
    let mut pot = building("cook_pot", OPEN);
    pot.mushroom_milli = 7_200;
    assert_eq!(stock_line(&session, &pot), Some("Mushrooms 7".to_owned()));
    assert_eq!(stock_line(&session, &session.buildings[0]), None);
}

#[test]
fn study_pen_and_breeding_pit_cards_read_their_counts() {
    let mut session = session();
    session.specimens = 3;
    assert_eq!(specimens_line(&session), "Specimens housed · 3");
    session.breeding_interval_milli = 48_000;
    assert_eq!(hatch_cycle_line(&session), "Hatch cycle 48s");
}

#[test]
fn shrine_card_reads_progress_remaining_and_draw() {
    let mut data = data();
    let mut session = session();
    session.worm_fed_milli = 40_000;
    session.worm_ingots_fed = 4;
    assert_eq!(
        shrine_progress_lines(&session, &data),
        (
            "Food 40/100 · Ingots 4/10".to_owned(),
            "Remaining 60 food · 6 ingots".to_owned(),
            "Food draw 6/min · minimum 10:00".to_owned(),
        )
    );
    session.worm_fed_milli = 120_000;
    session.worm_ingots_fed = 12;
    data.balance.worm_food_per_min_milli = 0;
    let lines = shrine_progress_lines(&session, &data);
    assert_eq!(lines.1, "Remaining 0 food · 0 ingots");
    assert_eq!(lines.2, "Food draw 0/min · minimum 00:00");
}

#[test]
fn shrine_pause_button_follows_the_offerings() {
    let mut session = session();
    assert_eq!(shrine_offering_toggle(&session), ("Pause offerings", true));
    session.worm_feeding_paused = true;
    assert_eq!(shrine_offering_toggle(&session), ("Resume offerings", true));
    session.worm_awake = true;
    assert_eq!(shrine_offering_toggle(&session).1, false);
}

#[test]
fn mine_reaching_one_ore_adds_one_pending_haul() {
    let mut session = session();
    let before = pending_hauls(&session);
    session.buildings[1].ore_milli = 1_000;
    assert_eq!(pending_hauls(&session), before + 1);
}
