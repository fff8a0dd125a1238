//! Screen-level HUD decisions and copy: which modal owns world input, why a
//! colony has failed, the milestone reports and the build-panel markers.

use vstd::prelude::*;
use crate::model::{GameData, GameSession, Job, job_count, local_count};
use crate::guidance::{assignment_hint_text, guard_sources, job_assignment_action_hint, security_handoff_action_hint};
use crate::top_bar::food_sources;
use crate::objective::factory_sources;
use crate::text::{dec, push_dec, push_whole_even, str_eq, whole_even_text};
use crate::legibility::{building_status, status_of};

verus! {

/// The marker shown beside a locked build tool (plain ASCII so every font
/// can draw it).
pub const LOCKED_TOOL_MARKER: &'static str = "[L]";

/// Why the colony can no longer continue.
#[derive(Debug, Clone, Copy, PartialEq, Eq, Structural)]
pub enum ColonyFailure {
    /// No creatures remain.
    Silent,
    /// No reassignable worker remains to staff the Guard post.
    GuardHandoff,
}

/// Whether an open modal keeps taps from reaching the world map.
pub fn modal_owns_world_input(
    victory_up: bool,
    factory_up: bool,
    worm_up: bool,
    routes_up: bool,
    colony_failure: bool,
    help_open: bool,
    confirm_load: bool,
) -> (r: bool)
    ensures
        r == (victory_up || factory_up || worm_up || routes_up || colony_failure || help_open || confirm_load),
{
    victory_up || factory_up || worm_up || routes_up || colony_failure || help_open || confirm_load
}

/// Why the colony has failed, if it has: no creatures are left, or (before
/// the worm wakes) the Guard post can no longer be staffed.
pub open spec fn failure_of(session: GameSession) -> Option<ColonyFailure> {
    if session.worm_awake {
        None
    } else if local_count(session) == 0 {
        Some(ColonyFailure::Silent)
    } else if session.non_viable {
        Some(ColonyFailure::GuardHandoff)
    } else {
        None
    }
}

/// Why the colony can no longer continue; an awakened worm ends all failure
/// checks.
pub fn colony_failure_reason(session: &GameSession, data: &GameData) -> (r: Option<ColonyFailure>)
    ensures
        r == failure_of(*session),
{
    if session.worm_awake {
        return None;
    }
    if session.local_creature_count() == 0 {
        return Some(ColonyFailure::Silent);
    }
    if session.non_viable {
        Some(ColonyFailure::GuardHandoff)
    } else {
        None
    }
}

/// The title of the colony-failure overlay.
pub fn colony_failure_title(failure: ColonyFailure) -> (s: &'static str)
    ensures
        s@ == (match failure {
            ColonyFailure::Silent => "The Warren Falls Silent"@,
            ColonyFailure::GuardHandoff => "Guard Handoff Blocked"@,
        }),
{
    match failure {
        ColonyFailure::Silent => "The Warren Falls Silent",
        ColonyFailure::GuardHandoff => "Guard Handoff Blocked",
    }
}

/// An action a HUD control asks the game to take.
#[derive(Debug, Clone, Copy, PartialEq, Eq, Structural)]
pub enum UiAction {
    /// Load the last saved warren.
    Load,
    /// Start a new warren in place of the current one.
    StartWarren,
    /// Return to the main menu.
    BackToMenu,
}

/// The two choices of the colony-failure overlay, each with its button
/// label: load the last save or start over when a save exists, otherwise
/// start over or return to the menu.
pub fn colony_failure_actions(save_exists: bool) -> (r: ((UiAction, &'static str), (UiAction, &'static str)))
    ensures
        save_exists ==> r.0.0 == UiAction::Load && r.0.1@ == "Load Last Safe"@ && r.1.0 == UiAction::StartWarren
            && r.1.1@ == "Start New Warren"@,
        !save_exists ==> r.0.0 == UiAction::StartWarren && r.0.1@ == "Start New Warren"@ && r.1.0 == UiAction::BackToMenu
            && r.1.1@ == "Return to Menu"@,
{
    if save_exists {
        ((UiAction::Load, "Load Last Safe"), (UiAction::StartWarren, "Start New Warren"))
    } else {
        ((UiAction::StartWarren, "Start New Warren"), (UiAction::BackToMenu, "Return to Menu"))
    }
}

/// The body of the colony-failure overlay.
pub open spec fn failure_body_text(failure: ColonyFailure, save_exists: bool) -> Seq<char> {
    let cause = match failure {
        ColonyFailure::Silent => "No creatures remain, so this warren cannot produce food or advance the campaign."@,
        ColonyFailure::GuardHandoff =>
            "No reassignable workers remain, so this warren cannot staff the Guard post or advance onboarding."@,
    };
    let way_out = if save_exists {
        "Load the last safe warren to recover your progress, or tap Start New Warren to replace this checkpoint."@
    } else {
        "Start a new warren to begin again."@
    };
    cause + "\n\n"@ + way_out
}

/// What went wrong and the way out: loading the last save when there is one,
/// otherwise starting over.
pub fn colony_failure_body(failure: ColonyFailure, save_exists: bool) -> (s: &'static str)
    ensures
        s@ == failure_body_text(failure, save_exists),
{
    proof {
        reveal_strlit("No creatures remain, so this warren cannot produce food or advance the campaign.\n\nLoad the last safe warren to recover your progress, or tap Start New Warren to replace this checkpoint.");
        reveal_strlit("No creatures remain, so this warren cannot produce food or advance the campaign.\n\nStart a new warren to begin again.");
        reveal_strlit("No reassignable workers remain, so this warren cannot staff the Guard post or advance onboarding.\n\nLoad the last safe warren to recover your progress, or tap Start New Warren to replace this checkpoint.");
        reveal_strlit("No reassignable workers remain, so this warren cannot staff the Guard post or advance onboarding.\n\nStart a new warren to begin again.");
        reveal_strlit("No creatures remain, so this warren cannot produce food or advance the campaign.");
        reveal_strlit("No reassignable workers remain, so this warren cannot staff the Guard post or advance onboarding.");
        reveal_strlit("Load the last safe warren to recover your progress, or tap Start New Warren to replace this checkpoint.");
        reveal_strlit("Start a new warren to begin again.");
        reveal_strlit("\n\n");
    }
    let s = match (failure, save_exists) {
        (ColonyFailure::Silent, true) => {
            "No creatures remain, so this warren cannot produce food or advance the campaign.\n\nLoad the last safe warren to recover your progress, or tap Start New Warren to replace this checkpoint."
        },
        (ColonyFailure::Silent, false) => {
            "No creatures remain, so this warren cannot produce food or advance the campaign.\n\nStart a new warren to begin again."
        },
        (ColonyFailure::GuardHandoff, true) => {
            "No reassignable workers remain, so this warren cannot staff the Guard post or advance onboarding.\n\nLoad the last safe warren to recover your progress, or tap Start New Warren to replace this checkpoint."
        },
        (ColonyFailure::GuardHandoff, false) => {
            "No reassignable workers remain, so this warren cannot staff the Guard post or advance onboarding.\n\nStart a new warren to begin again."
        },
    };
    assert(s@ =~= failure_body_text(failure, save_exists));
    s
}

/// Whole minutes of simulated time, as the reports print them.
pub open spec fn minutes_text(session: GameSession) -> Seq<char> {
    whole_even_text(session.elapsed_milli as int, 60000)
}

/// The report shown when the worm wakes.
pub open spec fn worm_body_text(session: GameSession) -> Seq<char> {
    "Fed on "@ + whole_even_text(session.worm_fed_milli as int, 1000) + " food and "@ + dec(session.worm_ingots_fed as nat)
        + " ingots, the great worm rises from the deep and coils around the warren that raised it.\n\nThe campaign is complete in "@
        + minutes_text(session)
        + " minutes. Tap Continue in Endless to keep the warren growing, or tap Return to Menu."@
}

/// The campaign-complete report: the food and ingots offered, the minutes
/// played, and the two ways on.
pub fn worm_completion_body(session: &GameSession) -> (s: String)
    ensures
        s@ == worm_body_text(*session),
{
    let mut s = "Fed on ".to_owned();
    push_whole_even(&mut s, session.worm_fed_milli as i128, 1000);
    s.append(" food and ");
    push_dec(&mut s, session.worm_ingots_fed as u64);
    s.append(" ingots, the great worm rises from the deep and coils around the warren that raised it.\n\nThe campaign is complete in ");
    push_whole_even(&mut s, session.elapsed_milli as i128, 60000);
    s.append(" minutes. Tap Continue in Endless to keep the warren growing, or tap Return to Menu.");
    s
}

/// The report shown when the warren is secured.
pub open spec fn victory_body_text(session: GameSession, data: GameData) -> Seq<char> {
    let base = "The warren thrives: the "@ + whole_even_text(data.balance.win_food_surplus_milli as int, 1000)
        + "-food surplus and "@ + dec(session.economy.ore_delivered_total as nat) + " ore delivered in "@
        + minutes_text(session) + " minutes secure the colony."@;
    if job_count(session, Job::Guard) > 0 {
        base
            + "\n\nOnboarding is complete. Tap Continue to Factory, then tap Blacksmith in Build & Dig and tap open floor to forge "@
            + dec(data.balance.win2_ingots as nat) + " ingots."@
    } else {
        base + "\n\nThe reserve gate is complete. Onboarding still needs a Guard. After closing this report, "@
            + assignment_hint_text(session, data, Job::Guard, guard_sources()) + "."@
    }
}

/// The warren-secured report: the surplus and ore that won, and either the
/// way to the Factory or, while no Guard is posted, how to post one.
pub fn warren_victory_body(session: &GameSession, data: &GameData) -> (s: String)
    ensures
        s@ == victory_body_text(*session, *data),
{
    let mut s = "The warren thrives: the ".to_owned();
    push_whole_even(&mut s, data.balance.win_food_surplus_milli as i128, 1000);
    s.append("-food surplus and ");
    push_dec(&mut s, session.economy.ore_delivered_total as u64);
    s.append(" ore delivered in ");
    push_whole_even(&mut s, session.elapsed_milli as i128, 60000);
    s.append(" minutes secure the colony.");
    if session.job_count(Job::Guard) > 0 {
        s.append("\n\nOnboarding is complete. Tap Continue to Factory, then tap Blacksmith in Build & Dig and tap open floor to forge ");
        push_dec(&mut s, data.balance.win2_ingots as u64);
        s.append(" ingots.");
    } else {
        s.append("\n\nThe reserve gate is complete. Onboarding still needs a Guard. After closing this report, ");
        let hint = security_handoff_action_hint(session, data);
        s.append(hint.as_str());
        s.append(".");
    }
    s
}

/// The continue button of the warren-secured report: on to the Factory once
/// a Guard is posted, back to the warren otherwise.
pub fn warren_victory_continue_label(session: &GameSession) -> (s: &'static str)
    ensures
        s@ == (if job_count(*session, Job::Guard) > 0 { "Continue to Factory"@ } else { "Return to Warren"@ }),
{
    if session.job_count(Job::Guard) > 0 {
        "Continue to Factory"
    } else {
        "Return to Warren"
    }
}

/// The report shown when the Biofoundry is complete.
pub open spec fn factory_body_text(session: GameSession) -> Seq<char> {
    "The Biofoundry roars: "@ + dec(session.economy.ingots_forged as nat)
        + " ingots forged by hammer and living furnace in "@ + minutes_text(session)
        + " minutes.\n\nEvery belt breathes. Tap Continue to Worm, then tap Shrine in Build & Dig and tap open floor, or tap Return to Menu."@
}

/// The factory-complete report: ingots forged, minutes played, and the way
/// on to the Worm Shrine.
pub fn factory_completion_body(session: &GameSession) -> (s: String)
    ensures
        s@ == factory_body_text(*session),
{
    let mut s = "The Biofoundry roars: ".to_owned();
    push_dec(&mut s, session.economy.ingots_forged as u64);
    s.append(" ingots forged by hammer and living furnace in ");
    push_whole_even(&mut s, session.elapsed_milli as i128, 60000);
    s.append(" minutes.\n\nEvery belt breathes. Tap Continue to Worm, then tap Shrine in Build & Dig and tap open floor, or tap Return to Menu.");
    s
}

/// The marker in front of the active build tool.
pub fn active_tool_marker(active: bool) -> (s: &'static str)
    ensures
        s@ == (if active { "> "@ } else { ""@ }),
{
    if active {
        "> "
    } else {
        ""
    }
}

/// The construction readout of the Build panel.
pub open spec fn construction_text(site_count: nat, ore_remaining: nat) -> Seq<char> {
    "Build "@ + dec(site_count) + (if site_count == 1 { " site"@ } else { " sites"@ }) + " · "@ + dec(ore_remaining)
        + " ore left"@
}

/// Open construction sites and the ore they still wait for.
pub fn construction_progress_label(site_count: usize, ore_remaining: u32) -> (s: String)
    ensures
        s@ == construction_text(site_count as nat, ore_remaining as nat),
{
    let mut s = "Build ".to_owned();
    push_dec(&mut s, site_count as u64);
    if site_count == 1 {
        s.append(" site");
    } else {
        s.append(" sites");
    }
    s.append(" · ");
    push_dec(&mut s, ore_remaining as u64);
    s.append(" ore left");
    s
}

/// The buildings the campaign always offers, before advanced systems unlock.
pub open spec fn core_building(id: Seq<char>) -> bool {
    id == "blacksmith"@ || id == "cook_pot"@ || id == "farm"@ || id == "mine"@ || id == "worm_shrine"@
}

/// Whether a building belongs to the core campaign set.
pub fn is_core_building(id: &str) -> (r: bool)
    ensures
        r == core_building(id@),
{
    str_eq(id, "blacksmith") || str_eq(id, "cook_pot") || str_eq(id, "farm") || str_eq(id, "mine") || str_eq(
        id,
        "worm_shrine",
    )
}


/// A tutorial step from the data tables.
#[derive(Debug, Clone)]
pub struct TutorialStepDef {
    pub id: String,
    pub body: String,
}

/// The body of a tutorial card.
pub open spec fn tutorial_text(step: TutorialStepDef, session: GameSession, data: GameData) -> Seq<char> {
    if step.id@ == "food"@ {
        "Read Food Grid: keep Production above Upkeep. Tap Farm, then tap open floor. Wait for Farm construction. If food pressure rises, "@
            + assignment_hint_text(session, data, Job::Carrier, food_sources()) + "."@
    } else if step.id@ == "factory"@ {
        "Tap the existing Mine to read its rate. Tap Blacksmith in Build & Dig, then tap open floor. To staff it, "@
            + assignment_hint_text(session, data, Job::Smith, factory_sources())
            + ". Tap the placed Blacksmith, then tap Iron Pickaxe; the miner equips it and the Mine speeds up."@
    } else if step.id@ == "secure"@ {
        "Deliver 50 ore and hold 100 food in Objective. Before a raid, "@
            + assignment_hint_text(session, data, Job::Guard, guard_sources())
            + ". This secures the warren and ends onboarding; next, forge 20 ingots and raise the Shrine."@
    } else {
        step.body@
    }
}

/// The body of a tutorial card; the food, factory and security steps name
/// the live Jobs-panel action.
pub fn tutorial_body(step: &TutorialStepDef, session: &GameSession, data: &GameData) -> (s: String)
    ensures
        s@ == tutorial_text(*step, *session, *data),
{
    let id = step.id.as_str();
    if str_eq(id, "food") {
        let sources = [Job::Miner, Job::Smith, Job::Guard];
        assert(sources@ =~= food_sources());
        let mut s = "Read Food Grid: keep Production above Upkeep. Tap Farm, then tap open floor. Wait for Farm construction. If food pressure rises, ".to_owned();
        let hint = job_assignment_action_hint(session, data, Job::Carrier, &sources);
        s.append(hint.as_str());
        s.append(".");
        s
    } else if str_eq(id, "factory") {
        let sources = [Job::Miner, Job::Carrier, Job::Cook, Job::Guard];
        assert(sources@ =~= factory_sources());
        let mut s = "Tap the existing Mine to read its rate. Tap Blacksmith in Build & Dig, then tap open floor. To staff it, ".to_owned();
        let hint = job_assignment_action_hint(session, data, Job::Smith, &sources);
        s.append(hint.as_str());
        s.append(". Tap the placed Blacksmith, then tap Iron Pickaxe; the miner equips it and the Mine speeds up.");
        s
    } else if str_eq(id, "secure") {
        let mut s = "Deliver 50 ore and hold 100 food in Objective. Before a raid, ".to_owned();
        let hint = security_handoff_action_hint(session, data);
        s.append(hint.as_str());
        s.append(". This secures the warren and ends onboarding; next, forge 20 ingots and raise the Shrine.");
        s
    } else {
        step.body.clone()
    }
}

/// The bank line of the Food Grid panel.
pub fn resource_bank_line(ore: u32, ingots: u32) -> (s: String)
    ensures
        s@ == "Ore banked "@ + dec(ore as nat) + " · ingots "@ + dec(ingots as nat),
{
    let mut s = "Ore banked ".to_owned();
    push_dec(&mut s, ore as u64);
    s.append(" · ingots ");
    push_dec(&mut s, ingots as u64);
    s
}

/// A full-screen overlay that takes over the HUD.
#[derive(Debug, Clone, Copy, PartialEq, Eq, Structural)]
pub enum GoalOverlay {
    ColonyFailure(ColonyFailure),
    LoadConfirmation,
    WormAwakened,
    FactoryComplete,
    WarrenSecured,
}

/// The overlay that owns the screen, most pressing first: colony failure,
/// the load confirmation, then each milestone report not yet dismissed,
/// latest milestone first.
pub open spec fn overlay_of(session: GameSession, confirm_load: bool) -> Option<GoalOverlay> {
    if failure_of(session) is Some {
        Some(GoalOverlay::ColonyFailure(failure_of(session)->0))
    } else if confirm_load {
        Some(GoalOverlay::LoadConfirmation)
    } else if session.worm_awake && !session.worm_shown {
        Some(GoalOverlay::WormAwakened)
    } else if session.factory_complete && !session.factory_shown {
        Some(GoalOverlay::FactoryComplete)
    } else if session.won && !session.victory_shown {
        Some(GoalOverlay::WarrenSecured)
    } else {
        None
    }
}

/// The overlay to show this frame, if any.
pub fn goal_overlay(session: &GameSession, data: &GameData, confirm_load: bool) -> (r: Option<GoalOverlay>)
    ensures
        r == overlay_of(*session, confirm_load),
{
    if let Some(failure) = colony_failure_reason(session, data) {
        Some(GoalOverlay::ColonyFailure(failure))
    } else if confirm_load {
        Some(GoalOverlay::LoadConfirmation)
    } else if session.worm_awake && !session.worm_shown {
        Some(GoalOverlay::WormAwakened)
    } else if session.factory_complete && !session.factory_shown {
        Some(GoalOverlay::FactoryComplete)
    } else if session.won && !session.victory_shown {
        Some(GoalOverlay::WarrenSecured)
    } else {
        None
    }
}

/// The title, body and continue button of a milestone report.
pub open spec fn report_text(session: GameSession, data: GameData, overlay: GoalOverlay) -> Option<(Seq<char>, Seq<char>, Seq<char>)> {
    match overlay {
        GoalOverlay::WormAwakened => Some(("The Colossal Worm Awakens"@, worm_body_text(session), "Continue in Endless"@)),
        GoalOverlay::FactoryComplete => Some(("Factory Complete"@, factory_body_text(session), "Continue to Worm"@)),
        GoalOverlay::WarrenSecured => Some((
            "Warren Secured"@,
            victory_body_text(session, data),
            if job_count(session, Job::Guard) > 0 { "Continue to Factory"@ } else { "Return to Warren"@ },
        )),
        _ => None,
    }
}

/// The milestone report an overlay shows: its title, body and the label of
/// the button that dismisses it. Failure and load overlays are not reports.
pub fn goal_report(session: &GameSession, data: &GameData, overlay: GoalOverlay) -> (r: Option<(&'static str, String, &'static str)>)
    ensures
        match r {
            Some(t) => report_text(*session, *data, overlay) == Some((t.0@, t.1@, t.2@)),
            None => report_text(*session, *data, overlay) is None,
        },
{
    match overlay {
        GoalOverlay::WormAwakened => Some(("The Colossal Worm Awakens", worm_completion_body(session), "Continue in Endless")),
        GoalOverlay::FactoryComplete => Some(("Factory Complete", factory_completion_body(session), "Continue to Worm")),
        GoalOverlay::WarrenSecured => Some((
            "Warren Secured",
            warren_victory_body(session, data),
            warren_victory_continue_label(session),
        )),
        _ => None,
    }
}

/// The route ledger opens over the map only once the worm is awake and some
/// route exists.
pub fn route_ledger_open(session: &GameSession, routes_open: bool) -> (r: bool)
    ensures
        r == (routes_open && session.worm_awake && session.outposts@.len() > 0),
{
    routes_open && session.worm_awake && session.outposts.len() > 0
}

/// The status legend shows while some building has a status badge, unless a
/// route card covers the legend's corner.
pub open spec fn legend_shown(session: GameSession, data: GameData, outpost_open: bool) -> bool {
    !outpost_open && exists|i: int| 0 <= i < session.buildings@.len() && #[trigger] status_of(session, data, session.buildings@[i]) is Some
}

/// Whether the status-icon legend is drawn: it teaches the in-world badges
/// exactly while some node is stalled.
pub fn status_legend_visible(session: &GameSession, data: &GameData, outpost_open: bool) -> (r: bool)
    ensures
        r == legend_shown(*session, *data, outpost_open),
{
    if outpost_open {
        return false;
    }
    let mut i: usize = 0;
    while i < session.buildings.len()
        invariant
            !outpost_open,
            i <= session.buildings@.len(),
            forall|j: int| 0 <= j < i ==> #[trigger] status_of(*session, *data, session.buildings@[j]) is None,
        decreases session.buildings@.len() - i,
    {
        if building_status(session, data, &session.buildings[i]).is_some() {
            assert(status_of(*session, *data, session.buildings@[i as int]) is Some);
            return true;
        }
        i += 1;
    }
    false
}

} // verus!
