//! The persistent campaign objective: the one milestone the player should
//! read first, its progress and the next visible action.

use vstd::prelude::*;
use crate::model::{
    GameData, GameSession, Job, Outpost, TransitDirection, job_count, is_unlocked, sum_of, lemma_sum_step,
};
use crate::guidance::{
    active_outpost_next_step, active_step_text, assignment_hint_text, endless_forge_next_step, forge_step_text,
    guard_sources, has_building, has_building_of, job_assignment_action_hint, pending_build_site, pending_site,
    security_handoff_action_hint, shrine_build_requirement, shrine_requirement_text,
};
use crate::routes::ratio;
use crate::text::{dec, push_dec, push_whole_even, whole_even_text};

verus! {

/// A fraction of a milestone that is done, as an exact ratio.
#[derive(Debug, Clone, Copy, PartialEq, Eq, Structural)]
pub struct Fraction {
    pub num: i128,
    pub den: i128,
}

/// The single campaign milestone the player should read first.
#[derive(Debug, Clone)]
pub struct CampaignObjective {
    pub title: String,
    pub progress: String,
    pub next: String,
    /// How much of the milestone is done.
    pub ratio: Fraction,
    pub complete: bool,
}

/// The readable content of an objective.
pub open spec fn objective_view(o: CampaignObjective) -> (Seq<char>, Seq<char>, Seq<char>, Fraction, bool) {
    (o.title@, o.progress@, o.next@, o.ratio, o.complete)
}

/// The number of upgrades installed on a route.
pub open spec fn upgrades_of(o: Outpost) -> nat {
    (if o.storage_upgraded { 1nat } else { 0nat }) + (if o.crew_upgraded { 1nat } else { 0nat })
        + (if o.survey_upgraded { 1nat } else { 0nat }) + (if o.resonator_upgraded { 1nat } else { 0nat })
        + (if o.deep_survey_upgraded { 1nat } else { 0nat }) + (if o.signal_cache_upgraded { 1nat } else { 0nat })
        + (if o.waypoint_upgraded { 1nat } else { 0nat })
}

/// The number of upgrades installed on a route, as a function.
pub open spec fn upgrades_fn() -> spec_fn(Outpost) -> nat {
    |o: Outpost| upgrades_of(o)
}

/// Some route holds cargo or crew while switched off.
pub open spec fn loaded_inactive(session: GameSession) -> bool {
    exists|i: int| 0 <= i < session.outposts@.len() && !(#[trigger] session.outposts@[i]).active
        && (session.outposts@[i].cargo_total > 0 || session.outposts@[i].crew > 0)
}

/// Some route's last run failed (and, with `inactive`, it is switched off).
pub open spec fn failed_route(session: GameSession, inactive: bool) -> bool {
    exists|i: int| 0 <= i < session.outposts@.len() && (#[trigger] session.outposts@[i]).failed
        && (!inactive || !session.outposts@[i].active)
}

/// Some route is switched on.
pub open spec fn any_active(session: GameSession) -> bool {
    exists|i: int| 0 <= i < session.outposts@.len() && (#[trigger] session.outposts@[i]).active
}

/// The next step once the worm is awake.
pub open spec fn endless_next_text(session: GameSession, data: GameData) -> Seq<char> {
    if !is_unlocked(session, "worm_transit"@) {
        forge_step_text(session, data)
    } else if session.worm_transit is Some {
        match session.worm_transit->0.direction {
            TransitDirection::ToOutpost => "Next: wait for the worm to reach the outpost, then inspect its cargo."@,
            TransitDirection::ToShrine => "Next: wait for the worm to reach the shrine, then plan the next run."@,
        }
    } else if !has_building(session, "outpost"@) {
        "Next: build a Worm Outpost and send cargo through the awakened route."@
    } else if loaded_inactive(session) {
        "Next: tap the loaded Worm Outpost, then tap Activate route to return its payload."@
    } else if failed_route(session, true) {
        "Next: tap the failed Worm Outpost, then tap Activate route before sending cargo."@
    } else if failed_route(session, false) {
        "Next: tap the failed Worm Outpost, then try the cargo run again."@
    } else if any_active(session) {
        active_step_text(session, data)
    } else {
        "Next: tap the Worm Outpost, then tap Activate route."@
    }
}

/// The jobs a Carrier may be drawn from while the warren is being secured.
pub open spec fn secure_sources() -> Seq<Job> {
    seq![Job::Miner, Job::Cook, Job::Smith, Job::Guard]
}

/// The jobs a Smith may be drawn from for the factory.
pub open spec fn factory_sources() -> Seq<Job> {
    seq![Job::Miner, Job::Carrier, Job::Cook, Job::Guard]
}

/// The smaller of two integers.
pub open spec fn min_int(a: int, b: int) -> int {
    if a < b { a } else { b }
}

/// The larger of two integers.
pub open spec fn max_int(a: int, b: int) -> int {
    if a > b { a } else { b }
}

/// The milestone once the worm is awake: cargo runs, scouting hauls and,
/// once any is installed, route upgrades.
pub open spec fn endless_spec(session: GameSession, data: GameData) -> (Seq<char>, Seq<char>, Seq<char>, Fraction, bool) {
    let upgrades = sum_of(session.outposts@, upgrades_fn());
    (
        "Campaign complete"@,
        "Worm awake · Runs "@ + dec(session.courier_deliveries as nat) + " · Hauls "@
            + dec(session.network.total_expeditions as nat)
            + (if upgrades > 0 { " · Upgrades "@ + dec(upgrades) } else { Seq::<char>::empty() }),
        endless_next_text(session, data),
        Fraction { num: 1, den: 1 },
        true,
    )
}

/// Food toward the surplus goal, capped at the goal.
pub open spec fn capped_food(session: GameSession, data: GameData) -> int {
    min_int(session.economy.food_milli as int, data.balance.win_food_surplus_milli as int)
}

/// Ore delivered toward the goal, capped at the goal.
pub open spec fn capped_ore(session: GameSession, data: GameData) -> nat {
    let goal = data.balance.win_ore_delivered as nat;
    if (session.economy.ore_delivered_total as nat) < goal { session.economy.ore_delivered_total as nat } else { goal }
}

/// The reserve readout shared by the first two milestones.
pub open spec fn reserves_text(session: GameSession, data: GameData) -> Seq<char> {
    "Food "@ + whole_even_text(capped_food(session, data), 1000) + "/"@
        + whole_even_text(data.balance.win_food_surplus_milli as int, 1000) + "  ·  Ore "@
        + ratio(capped_ore(session, data), data.balance.win_ore_delivered as nat)
}

/// The milestone of securing the warren.
pub open spec fn secure_spec(session: GameSession, data: GameData) -> (Seq<char>, Seq<char>, Seq<char>, Fraction, bool) {
    let food_goal = data.balance.win_food_surplus_milli as int;
    let ore_goal = data.balance.win_ore_delivered as nat;
    let food = capped_food(session, data);
    let ore = capped_ore(session, data);
    let food_den = max_int(food_goal, 1000);
    let ore_den = max_int(ore_goal as int, 1);
    (
        "Secure the warren"@,
        reserves_text(session, data),
        if food < food_goal {
            if pending_site(session, "farm"@) {
                "Next: keep carriers delivering ore to the Farm site; if Food Grid keeps falling, "@
                    + assignment_hint_text(session, data, Job::Carrier, secure_sources()) + "."@
            } else {
                "Next: keep Food Grid production above Upkeep."@
            }
        } else if ore < ore_goal {
            "Next: keep the Mine staffed and carriers hauling ore."@
        } else {
            "Next: hold both reserves until the warren is secure."@
        },
        Fraction { num: (food * ore_den + ore * food_den) as i128, den: (2 * (food_den * ore_den)) as i128 },
        false,
    )
}

/// The milestone of posting the first Guard.
pub open spec fn handoff_spec(session: GameSession, data: GameData) -> (Seq<char>, Seq<char>, Seq<char>, Fraction, bool) {
    (
        "Finish the security handoff"@,
        reserves_text(session, data) + "  ·  Guard 0/1"@,
        "Next: "@ + assignment_hint_text(session, data, Job::Guard, guard_sources()) + "."@,
        Fraction { num: 2, den: 3 },
        false,
    )
}

/// The milestone of completing the Biofoundry.
pub open spec fn factory_spec(session: GameSession, data: GameData) -> (Seq<char>, Seq<char>, Seq<char>, Fraction, bool) {
    let goal = data.balance.win2_ingots as nat;
    let forged = if (session.economy.ingots_forged as nat) < goal { session.economy.ingots_forged as nat } else { goal };
    (
        "Complete the Biofoundry"@,
        "Ingots forged "@ + ratio(forged, goal),
        if !has_building(session, "blacksmith"@) {
            "Next: tap Blacksmith in Build & Dig, then tap open floor."@
        } else if job_count(session, Job::Smith) == 0 {
            "Next: "@ + assignment_hint_text(session, data, Job::Smith, factory_sources()) + "."@
        } else {
            "Next: keep the Blacksmith supplied while it forges ingots."@
        },
        Fraction { num: forged as i128, den: max_int(goal as int, 1) as i128 },
        false,
    )
}

/// The milestone of feeding the worm awake.
pub open spec fn awaken_spec(session: GameSession, data: GameData) -> (Seq<char>, Seq<char>, Seq<char>, Fraction, bool) {
    let fed = session.worm_fed_milli as int;
    let food_goal = data.balance.worm_awaken_at_milli as int;
    let ingot_goal = data.balance.worm_awaken_ingots as nat;
    let a = max_int(food_goal, 1000);
    let n = max_int(ingot_goal as int, 1);
    (
        "Awaken the Worm"@,
        "Offerings  ·  Food "@ + whole_even_text(fed, 1000) + "/"@ + whole_even_text(food_goal, 1000)
            + "  ·  Ingots "@ + ratio(session.worm_ingots_fed as nat, ingot_goal),
        if session.worm_feeding_paused {
            "Next: tap Resume offerings in the Worm Shrine panel."@
        } else if fed < food_goal {
            "Next: keep Food Grid production above Upkeep for the offerings."@
        } else if session.worm_ingots_fed < ingot_goal {
            "Next: keep forging ingots for the remaining offerings."@
        } else {
            "Next: keep the Shrine running until the worm wakes."@
        },
        Fraction { num: (fed * n + session.worm_ingots_fed * a) as i128, den: (2 * (a * n)) as i128 },
        false,
    )
}

/// The milestone shown on the objective card, in campaign order: the
/// endless campaign once the worm is awake, then securing the warren, the
/// security handoff, the Biofoundry, building the Worm Shrine, and the
/// offerings that wake the worm.
pub open spec fn objective_spec(session: GameSession, data: GameData) -> (Seq<char>, Seq<char>, Seq<char>, Fraction, bool) {
    if session.worm_awake {
        endless_spec(session, data)
    } else if !session.won {
        secure_spec(session, data)
    } else if job_count(session, Job::Guard) == 0 {
        handoff_spec(session, data)
    } else if !session.factory_complete {
        factory_spec(session, data)
    } else if !has_building(session, "worm_shrine"@) {
        (
            "Awaken the Worm"@,
            shrine_requirement_text(session, data).0,
            shrine_requirement_text(session, data).1,
            Fraction { num: 0, den: 1 },
            false,
        )
    } else {
        awaken_spec(session, data)
    }
}

fn loaded_inactive_exec(session: &GameSession) -> (r: bool)
    ensures
        r == loaded_inactive(*session),
{
    let mut i: usize = 0;
    while i < session.outposts.len()
        invariant
            i <= session.outposts@.len(),
            forall|j: int| 0 <= j < i ==> !(!(#[trigger] session.outposts@[j]).active
                && (session.outposts@[j].cargo_total > 0 || session.outposts@[j].crew > 0)),
        decreases session.outposts@.len() - i,
    {
        let o = &session.outposts[i];
        if !o.active && (o.cargo_total > 0 || o.crew > 0) {
            return true;
        }
        i += 1;
    }
    false
}

fn failed_route_exec(session: &GameSession, inactive: bool) -> (r: bool)
    ensures
        r == failed_route(*session, inactive),
{
    let mut i: usize = 0;
    while i < session.outposts.len()
        invariant
            i <= session.outposts@.len(),
            forall|j: int| 0 <= j < i ==> !((#[trigger] session.outposts@[j]).failed
                && (!inactive || !session.outposts@[j].active)),
        decreases session.outposts@.len() - i,
    {
        let o = &session.outposts[i];
        if o.failed && (!inactive || !o.active) {
            return true;
        }
        i += 1;
    }
    false
}

fn any_active_exec(session: &GameSession) -> (r: bool)
    ensures
        r == any_active(*session),
{
    let mut i: usize = 0;
    while i < session.outposts.len()
        invariant
            i <= session.outposts@.len(),
            forall|j: int| 0 <= j < i ==> !(#[trigger] session.outposts@[j]).active,
        decreases session.outposts@.len() - i,
    {
        if session.outposts[i].active {
            return true;
        }
        i += 1;
    }
    false
}

fn upgrade_count(o: &Outpost) -> (n: u64)
    ensures
        n == upgrades_of(*o),
{
    (if o.storage_upgraded { 1u64 } else { 0 }) + (if o.crew_upgraded { 1u64 } else { 0 })
        + (if o.survey_upgraded { 1u64 } else { 0 }) + (if o.resonator_upgraded { 1u64 } else { 0 })
        + (if o.deep_survey_upgraded { 1u64 } else { 0 }) + (if o.signal_cache_upgraded { 1u64 } else { 0 })
        + (if o.waypoint_upgraded { 1u64 } else { 0 })
}

fn route_upgrades(session: &GameSession) -> (n: u64)
    requires
        sum_of(session.outposts@, upgrades_fn()) <= u32::MAX,
    ensures
        n == sum_of(session.outposts@, upgrades_fn()),
{
    let mut n: u64 = 0;
    let mut i: usize = 0;
    while i < session.outposts.len()
        invariant
            i <= session.outposts@.len(),
            n == sum_of(session.outposts@.take(i as int), upgrades_fn()),
            sum_of(session.outposts@, upgrades_fn()) <= u32::MAX,
        decreases session.outposts@.len() - i,
    {
        proof {
            lemma_sum_step(session.outposts@, i as int, upgrades_fn());
            lemma_sum_prefix_le(session.outposts@, (i + 1) as int, upgrades_fn());
        }
        n = n + upgrade_count(&session.outposts[i]);
        i += 1;
    }
    assert(session.outposts@.take(i as int) =~= session.outposts@);
    n
}

/// A prefix sums to no more than the whole.
pub proof fn lemma_sum_prefix_le(s: Seq<Outpost>, k: int, f: spec_fn(Outpost) -> nat)
    requires
        0 <= k <= s.len(),
    ensures
        sum_of(s.take(k), f) <= sum_of(s, f),
    decreases s.len() - k,
{
    if k < s.len() {
        lemma_sum_step(s, k, f);
        lemma_sum_prefix_le(s, k + 1, f);
    } else {
        assert(s.take(k) =~= s);
    }
}

fn endless_next(session: &GameSession, data: &GameData) -> (s: String)
    ensures
        s@ == endless_next_text(*session, *data),
{
    if !session.is_unlocked("worm_transit") {
        return endless_forge_next_step(session, data);
    }
    match &session.worm_transit {
        Some(t) => {
            return match t.direction {
                TransitDirection::ToOutpost => "Next: wait for the worm to reach the outpost, then inspect its cargo.".to_owned(),
                TransitDirection::ToShrine => "Next: wait for the worm to reach the shrine, then plan the next run.".to_owned(),
            };
        },
        None => {},
    }
    if !has_building_of(session, "outpost") {
        "Next: build a Worm Outpost and send cargo through the awakened route.".to_owned()
    } else if loaded_inactive_exec(session) {
        "Next: tap the loaded Worm Outpost, then tap Activate route to return its payload.".to_owned()
    } else if failed_route_exec(session, true) {
        "Next: tap the failed Worm Outpost, then tap Activate route before sending cargo.".to_owned()
    } else if failed_route_exec(session, false) {
        "Next: tap the failed Worm Outpost, then try the cargo run again.".to_owned()
    } else if any_active_exec(session) {
        active_outpost_next_step(session, data)
    } else {
        "Next: tap the Worm Outpost, then tap Activate route.".to_owned()
    }
}

fn push_reserves(s: &mut String, session: &GameSession, data: &GameData)
    ensures
        final(s)@ == old(s)@ + reserves_text(*session, *data),
{
    let ghost before = s@;
    let b = &data.balance;
    let food = if session.economy.food_milli < b.win_food_surplus_milli { session.economy.food_milli } else { b.win_food_surplus_milli };
    let ore = if session.economy.ore_delivered_total < b.win_ore_delivered { session.economy.ore_delivered_total } else { b.win_ore_delivered };
    s.append("Food ");
    push_whole_even(s, food as i128, 1000);
    s.append("/");
    push_whole_even(s, b.win_food_surplus_milli as i128, 1000);
    s.append("  ·  Ore ");
    push_dec(s, ore as u64);
    s.append("/");
    push_dec(s, b.win_ore_delivered as u64);
    assert(s@ =~= before + reserves_text(*session, *data));
}

fn endless_objective(session: &GameSession, data: &GameData) -> (o: CampaignObjective)
    requires
        sum_of(session.outposts@, upgrades_fn()) <= u32::MAX,
    ensures
        objective_view(o) == endless_spec(*session, *data),
{
    let next = endless_next(session, data);
    let mut progress = "Worm awake · Runs ".to_owned();
    push_dec(&mut progress, session.courier_deliveries as u64);
    progress.append(" · Hauls ");
    push_dec(&mut progress, session.network.total_expeditions as u64);
    let upgrades = route_upgrades(session);
    if upgrades > 0 {
        progress.append(" · Upgrades ");
        push_dec(&mut progress, upgrades);
    }
    CampaignObjective {
        title: "Campaign complete".to_owned(),
        progress,
        next,
        ratio: Fraction { num: 1, den: 1 },
        complete: true,
    }
}

fn secure_objective(session: &GameSession, data: &GameData) -> (o: CampaignObjective)
    ensures
        objective_view(o) == secure_spec(*session, *data),
{
    let b = &data.balance;
    let food_goal = b.win_food_surplus_milli;
    let ore_goal = b.win_ore_delivered;
    let food = if session.economy.food_milli < food_goal { session.economy.food_milli } else { food_goal };
    let ore = if session.economy.ore_delivered_total < ore_goal { session.economy.ore_delivered_total } else { ore_goal };
    let mut progress = String::new();
    push_reserves(&mut progress, session, data);
    let next = if food < food_goal {
        if pending_build_site(session, "farm") {
            let sources = [Job::Miner, Job::Cook, Job::Smith, Job::Guard];
            assert(sources@ =~= secure_sources());
            let mut n = "Next: keep carriers delivering ore to the Farm site; if Food Grid keeps falling, ".to_owned();
            let hint = job_assignment_action_hint(session, data, Job::Carrier, &sources);
            n.append(hint.as_str());
            n.append(".");
            n
        } else {
            "Next: keep Food Grid production above Upkeep.".to_owned()
        }
    } else if ore < ore_goal {
        "Next: keep the Mine staffed and carriers hauling ore.".to_owned()
    } else {
        "Next: hold both reserves until the warren is secure.".to_owned()
    };
    let food_den: i128 = if food_goal > 1000 { food_goal as i128 } else { 1000 };
    let ore_den: i128 = if ore_goal > 1 { ore_goal as i128 } else { 1 };
    let f = food as i128;
    let o = ore as i128;
    assert(-0x8000_0000_0000_0000 * 0xffff_ffff <= f * ore_den <= 0x7fff_ffff_ffff_ffff * 0xffff_ffff) by (nonlinear_arith)
        requires -0x8000_0000_0000_0000 <= f <= 0x7fff_ffff_ffff_ffff, 1 <= ore_den <= 0xffff_ffff;
    assert(0 <= o * food_den <= 0xffff_ffff * 0x7fff_ffff_ffff_ffff) by (nonlinear_arith)
        requires 0 <= o <= 0xffff_ffff, 1000 <= food_den <= 0x7fff_ffff_ffff_ffff;
    assert(0 < food_den * ore_den <= 0x7fff_ffff_ffff_ffff * 0xffff_ffff) by (nonlinear_arith)
        requires 1 <= ore_den <= 0xffff_ffff, 1000 <= food_den <= 0x7fff_ffff_ffff_ffff;
    CampaignObjective {
        title: "Secure the warren".to_owned(),
        progress,
        next,
        ratio: Fraction { num: f * ore_den + o * food_den, den: 2 * (food_den * ore_den) },
        complete: false,
    }
}

fn handoff_objective(session: &GameSession, data: &GameData) -> (o: CampaignObjective)
    ensures
        objective_view(o) == handoff_spec(*session, *data),
{
    let mut progress = String::new();
    push_reserves(&mut progress, session, data);
    progress.append("  ·  Guard 0/1");
    let mut next = "Next: ".to_owned();
    let hint = security_handoff_action_hint(session, data);
    next.append(hint.as_str());
    next.append(".");
    CampaignObjective {
        title: "Finish the security handoff".to_owned(),
        progress,
        next,
        ratio: Fraction { num: 2, den: 3 },
        complete: false,
    }
}

fn factory_objective(session: &GameSession, data: &GameData) -> (o: CampaignObjective)
    ensures
        objective_view(o) == factory_spec(*session, *data),
{
    let goal = data.balance.win2_ingots;
    let forged = if session.economy.ingots_forged < goal { session.economy.ingots_forged } else { goal };
    let next = if !has_building_of(session, "blacksmith") {
        "Next: tap Blacksmith in Build & Dig, then tap open floor.".to_owned()
    } else if session.job_count(Job::Smith) == 0 {
        let sources = [Job::Miner, Job::Carrier, Job::Cook, Job::Guard];
        assert(sources@ =~= factory_sources());
        let mut n = "Next: ".to_owned();
        let hint = job_assignment_action_hint(session, data, Job::Smith, &sources);
        n.append(hint.as_str());
        n.append(".");
        n
    } else {
        "Next: keep the Blacksmith supplied while it forges ingots.".to_owned()
    };
    let mut progress = "Ingots forged ".to_owned();
    push_dec(&mut progress, forged as u64);
    progress.append("/");
    push_dec(&mut progress, goal as u64);
    CampaignObjective {
        title: "Complete the Biofoundry".to_owned(),
        progress,
        next,
        ratio: Fraction { num: forged as i128, den: if goal > 1 { goal as i128 } else { 1 } },
        complete: false,
    }
}

fn awaken_objective(session: &GameSession, data: &GameData) -> (o: CampaignObjective)
    ensures
        objective_view(o) == awaken_spec(*session, *data),
{
    let fed = session.worm_fed_milli;
    let awaken = data.balance.worm_awaken_at_milli;
    let ingot_goal = data.balance.worm_awaken_ingots;
    let next = if session.worm_feeding_paused {
        "Next: tap Resume offerings in the Worm Shrine panel."
    } else if fed < awaken {
        "Next: keep Food Grid production above Upkeep for the offerings."
    } else if session.worm_ingots_fed < ingot_goal {
        "Next: keep forging ingots for the remaining offerings."
    } else {
        "Next: keep the Shrine running until the worm wakes."
    };
    let mut progress = "Offerings  ·  Food ".to_owned();
    push_whole_even(&mut progress, fed as i128, 1000);
    progress.append("/");
    push_whole_even(&mut progress, awaken as i128, 1000);
    progress.append("  ·  Ingots ");
    push_dec(&mut progress, session.worm_ingots_fed as u64);
    progress.append("/");
    push_dec(&mut progress, ingot_goal as u64);
    let a: i128 = if awaken > 1000 { awaken as i128 } else { 1000 };
    let n: i128 = if ingot_goal > 1 { ingot_goal as i128 } else { 1 };
    let f = fed as i128;
    let k = session.worm_ingots_fed as i128;
    assert(-0x8000_0000_0000_0000 * 0xffff_ffff <= f * n <= 0x7fff_ffff_ffff_ffff * 0xffff_ffff) by (nonlinear_arith)
        requires -0x8000_0000_0000_0000 <= f <= 0x7fff_ffff_ffff_ffff, 1 <= n <= 0xffff_ffff;
    assert(0 <= k * a <= 0xffff_ffff * 0x7fff_ffff_ffff_ffff) by (nonlinear_arith)
        requires 0 <= k <= 0xffff_ffff, 1000 <= a <= 0x7fff_ffff_ffff_ffff;
    assert(0 < a * n <= 0x7fff_ffff_ffff_ffff * 0xffff_ffff) by (nonlinear_arith)
        requires 1 <= n <= 0xffff_ffff, 1000 <= a <= 0x7fff_ffff_ffff_ffff;
    let next = next.to_owned();
    CampaignObjective {
        title: "Awaken the Worm".to_owned(),
        progress,
        next,
        ratio: Fraction { num: f * n + k * a, den: 2 * (a * n) },
        complete: false,
    }
}

impl CampaignObjective {
    /// Derive the current milestone without changing the colony.
    pub fn current(session: &GameSession, data: &GameData) -> (o: CampaignObjective)
        requires
            session.worm_awake ==> sum_of(session.outposts@, upgrades_fn()) <= u32::MAX,
        ensures
            objective_view(o) == objective_spec(*session, *data),
    {
        if session.worm_awake {
            return endless_objective(session, data);
        }
        if !session.won {
            return secure_objective(session, data);
        }
        if session.job_count(Job::Guard) == 0 {
            return handoff_objective(session, data);
        }
        if !session.factory_complete {
            return factory_objective(session, data);
        }
        if !has_building_of(session, "worm_shrine") {
            let (progress, next) = shrine_build_requirement(session, data);
            return CampaignObjective {
                title: "Awaken the Worm".to_owned(),
                progress,
                next,
                ratio: Fraction { num: 0, den: 1 },
                complete: false,
            };
        }
        awaken_objective(session, data)
    }
}

} // verus!
