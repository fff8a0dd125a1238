//! Campaign guidance strings and route milestone next steps.

use vstd::prelude::*;
use crate::model::{
    GameData, GameSession, Job, job_label, job_count, reassignable, find_first, find_unlock, count_where,
    counter_value, is_unlocked, lemma_count_step, lemma_find_skip, species_reassignable, Creature, Outpost,
    ExpeditionState,
};
use crate::text::{dec, push_dec, text_of};
use crate::routes::{min_cap, ratio};
use crate::requirements::{requirement_text, unlock_requirement};

verus! {

/// A local creature in `job` whose species may change jobs.
pub open spec fn movable_in(data: GameData, job: Job) -> spec_fn(Creature) -> bool {
    |c: Creature| !c.remote && c.job == job && species_reassignable(data, c.species@)
}

/// The number of local creatures in `job` that the player may move to
/// another job (specialists whose species is fixed are not counted).
pub fn reassignable_job_count(session: &GameSession, data: &GameData, job: Job) -> (n: usize)
    ensures
        n == reassignable(*session, *data, job),
{
    let ghost p = movable_in(*data, job);
    assert(p == (|c: Creature| !c.remote && c.job == job && species_reassignable(*data, c.species@)));
    let mut n: usize = 0;
    let mut i: usize = 0;
    while i < session.creatures.len()
        invariant
            p == movable_in(*data, job),
            i <= session.creatures@.len(),
            n == count_where(session.creatures@.take(i as int), p),
            n <= i,
        decreases session.creatures@.len() - i,
    {
        proof {
            lemma_count_step(session.creatures@, i as int, p);
        }
        let c = &session.creatures[i];
        if !c.remote && c.job == job && data.is_reassignable(c.species.as_str()) {
            n += 1;
        }
        i += 1;
    }
    assert(session.creatures@.take(i as int) =~= session.creatures@);
    n
}

/// The first of `sources` that holds a creature the player may move.
pub open spec fn first_free_source(session: GameSession, data: GameData, sources: Seq<Job>) -> Option<Job> {
    find_first(sources, |j: Job| reassignable(session, data, j) > 0)
}

/// The first of `sources` that holds a creature the player may move.
pub fn first_reassignable_source(session: &GameSession, data: &GameData, sources: &[Job]) -> (res: Option<Job>)
    ensures
        res == first_free_source(*session, *data, sources@),
{
    let ghost p = |j: Job| reassignable(*session, *data, j) > 0;
    let mut i: usize = 0;
    assert(sources@.skip(0) =~= sources@);
    while i < sources.len()
        invariant
            p == (|j: Job| reassignable(*session, *data, j) > 0),
            i <= sources@.len(),
            find_first(sources@, p) == find_first(sources@.skip(i as int), p),
        decreases sources@.len() - i,
    {
        proof {
            lemma_find_skip(sources@, i as int, p);
        }
        if reassignable_job_count(session, data, sources[i]) > 0 {
            return Some(sources[i]);
        }
        i += 1;
    }
    assert(sources@.skip(i as int).len() == 0);
    None
}

/// The Jobs-panel action that staffs `target`: use an idle worker, else free
/// the first source job that has a movable worker, else free any worker.
pub open spec fn assignment_hint_text(session: GameSession, data: GameData, target: Job, sources: Seq<Job>) -> Seq<char> {
    if reassignable(session, data, Job::Idle) > 0 {
        "tap + beside "@ + job_label(target) + " in Jobs"@
    } else {
        match first_free_source(session, data, sources) {
            Some(j) => "tap − beside "@ + job_label(j) + ", then + beside "@ + job_label(target) + " in Jobs"@,
            None => "free a worker, then tap + beside "@ + job_label(target) + " in Jobs"@,
        }
    }
}

/// The Jobs-panel action that puts a worker into `target`, never naming a
/// source job that has no worker the player may move.
pub fn job_assignment_action_hint(session: &GameSession, data: &GameData, target: Job, sources: &[Job]) -> (s: String)
    ensures
        s@ == assignment_hint_text(*session, *data, target, sources@),
{
    if reassignable_job_count(session, data, Job::Idle) > 0 {
        let mut s = "tap + beside ".to_owned();
        s.append(target.label());
        s.append(" in Jobs");
        return s;
    }
    match first_reassignable_source(session, data, sources) {
        Some(j) => {
            let mut s = "tap − beside ".to_owned();
            s.append(j.label());
            s.append(", then + beside ");
            s.append(target.label());
            s.append(" in Jobs");
            s
        },
        None => {
            let mut s = "free a worker, then tap + beside ".to_owned();
            s.append(target.label());
            s.append(" in Jobs");
            s
        },
    }
}

/// The jobs a Guard may be drawn from, in the order the hint tries them.
pub open spec fn guard_sources() -> Seq<Job> {
    seq![Job::Miner, Job::Carrier, Job::Cook, Job::Smith]
}

/// The Jobs-panel action that posts the first Guard.
pub fn security_handoff_action_hint(session: &GameSession, data: &GameData) -> (s: String)
    ensures
        s@ == assignment_hint_text(*session, *data, Job::Guard, guard_sources()),
{
    let sources = [Job::Miner, Job::Carrier, Job::Cook, Job::Smith];
    assert(sources@ =~= guard_sources());
    job_assignment_action_hint(session, data, Job::Guard, &sources)
}


/// Whether the colony has a building of kind `kind`.
pub open spec fn has_building(session: GameSession, kind: Seq<char>) -> bool {
    exists|i: int| 0 <= i < session.buildings@.len() && #[trigger] session.buildings@[i].kind@ == kind
}

/// Whether some Mine still has ore in its deposit.
pub open spec fn has_live_mine(session: GameSession) -> bool {
    exists|i: int|
        0 <= i < session.buildings@.len() && #[trigger] session.buildings@[i].kind@ == "mine"@
            && session.buildings@[i].reserve_milli > 0
}

/// Whether construction of kind `kind` still waits for ore.
pub open spec fn pending_site(session: GameSession, kind: Seq<char>) -> bool {
    exists|i: int|
        0 <= i < session.build_sites@.len() && #[trigger] session.build_sites@[i].kind@ == kind
            && session.build_sites@[i].remaining > 0
}

/// Whether a building of `kind` is under construction and still needs ore.
pub fn pending_build_site(session: &GameSession, kind: &str) -> (r: bool)
    ensures
        r == pending_site(*session, kind@),
{
    let mut i: usize = 0;
    while i < session.build_sites.len()
        invariant
            i <= session.build_sites@.len(),
            forall|j: int| 0 <= j < i ==> !(#[trigger] session.build_sites@[j].kind@ == kind@
                && session.build_sites@[j].remaining > 0),
        decreases session.build_sites@.len() - i,
    {
        if crate::text::str_eq(session.build_sites[i].kind.as_str(), kind) && session.build_sites[i].remaining > 0 {
            return true;
        }
        i += 1;
    }
    false
}

/// Whether the colony has a building of kind `kind`.
pub fn has_building_of(session: &GameSession, kind: &str) -> (r: bool)
    ensures
        r == has_building(*session, kind@),
{
    let mut i: usize = 0;
    while i < session.buildings.len()
        invariant
            i <= session.buildings@.len(),
            forall|j: int| 0 <= j < i ==> !(#[trigger] session.buildings@[j].kind@ == kind@),
        decreases session.buildings@.len() - i,
    {
        if crate::text::str_eq(session.buildings[i].kind.as_str(), kind) {
            return true;
        }
        i += 1;
    }
    false
}

fn live_mine_exists(session: &GameSession) -> (r: bool)
    ensures
        r == has_live_mine(*session),
{
    let mut i: usize = 0;
    while i < session.buildings.len()
        invariant
            i <= session.buildings@.len(),
            forall|j: int| 0 <= j < i ==> !(#[trigger] session.buildings@[j].kind@ == "mine"@
                && session.buildings@[j].reserve_milli > 0),
        decreases session.buildings@.len() - i,
    {
        if crate::text::str_eq(session.buildings[i].kind.as_str(), "mine") && session.buildings[i].reserve_milli > 0 {
            return true;
        }
        i += 1;
    }
    false
}

/// The jobs a Smith may be drawn from during the endless forge.
pub open spec fn smith_sources() -> Seq<Job> {
    seq![Job::Miner, Job::Carrier, Job::Cook, Job::Guard]
}

/// The jobs a Carrier may be drawn from during the endless forge.
pub open spec fn carrier_sources() -> Seq<Job> {
    seq![Job::Miner, Job::Cook, Job::Guard, Job::Smith]
}

/// The ingots Worm Transit asks for (60 when the data has no such unlock).
pub open spec fn transit_goal(data: GameData) -> nat {
    match find_unlock(data, "worm_transit"@) {
        Some(u) => u.threshold as nat,
        None => 60,
    }
}

/// The next step of the endless forge, in order: a Blacksmith, a Mine with
/// ore left, a Smith, a Carrier, then ingots toward Worm Transit.
pub open spec fn forge_step_text(session: GameSession, data: GameData) -> Seq<char> {
    if !has_building(session, "blacksmith"@) {
        if pending_site(session, "blacksmith"@) {
            "Next: keep carriers delivering ore to the Blacksmith site."@
        } else {
            "Next: tap Blacksmith in Build & Dig, then place it on open floor."@
        }
    } else if !has_live_mine(session) {
        if pending_site(session, "mine"@) {
            "Next: keep carriers delivering ore to the new Mine site."@
        } else {
            "Next: tap Mine in Build & Dig, then place a new Mine on open floor."@
        }
    } else if job_count(session, Job::Smith) == 0 {
        "Next: "@ + assignment_hint_text(session, data, Job::Smith, smith_sources()) + "."@
    } else if job_count(session, Job::Carrier) == 0 {
        "Next: "@ + assignment_hint_text(session, data, Job::Carrier, carrier_sources()) + "."@
    } else {
        "Next: forge ingots to unlock Worm Transit ("@
            + ratio(min_cap(session.economy.ingots_forged as nat, transit_goal(data)), transit_goal(data)) + ")."@
    }
}

/// The next step toward Worm Transit once the worm is awake.
pub fn endless_forge_next_step(session: &GameSession, data: &GameData) -> (s: String)
    ensures
        s@ == forge_step_text(*session, *data),
{
    if !has_building_of(session, "blacksmith") {
        if pending_build_site(session, "blacksmith") {
            return "Next: keep carriers delivering ore to the Blacksmith site.".to_owned();
        }
        return "Next: tap Blacksmith in Build & Dig, then place it on open floor.".to_owned();
    }
    if !live_mine_exists(session) {
        if pending_build_site(session, "mine") {
            return "Next: keep carriers delivering ore to the new Mine site.".to_owned();
        }
        return "Next: tap Mine in Build & Dig, then place a new Mine on open floor.".to_owned();
    }
    if session.job_count(Job::Smith) == 0 {
        let sources = [Job::Miner, Job::Carrier, Job::Cook, Job::Guard];
        assert(sources@ =~= smith_sources());
        let mut s = "Next: ".to_owned();
        let hint = job_assignment_action_hint(session, data, Job::Smith, &sources);
        s.append(hint.as_str());
        s.append(".");
        return s;
    }
    if session.job_count(Job::Carrier) == 0 {
        let sources = [Job::Miner, Job::Cook, Job::Guard, Job::Smith];
        assert(sources@ =~= carrier_sources());
        let mut s = "Next: ".to_owned();
        let hint = job_assignment_action_hint(session, data, Job::Carrier, &sources);
        s.append(hint.as_str());
        s.append(".");
        return s;
    }
    let goal: u32 = match data.unlock("worm_transit") {
        Some(u) => u.threshold,
        None => 60,
    };
    let forged = if session.economy.ingots_forged > goal { goal } else { session.economy.ingots_forged };
    let mut s = "Next: forge ingots to unlock Worm Transit (".to_owned();
    push_dec(&mut s, forged as u64);
    s.append("/");
    push_dec(&mut s, goal as u64);
    s.append(").");
    s
}

/// The objective card's progress and next step while the Worm Shrine is not
/// built yet.
pub open spec fn shrine_requirement_text(session: GameSession, data: GameData) -> (Seq<char>, Seq<char>) {
    if is_unlocked(session, "worm_shrine"@) {
        ("Worm Shrine · ready to build"@, "Next: tap Shrine in Build & Dig, then tap open floor."@)
    } else {
        match find_unlock(data, "worm_shrine"@) {
            None => ("Worm Shrine · locked"@, "Next: meet the Worm Shrine prerequisite."@),
            Some(u) => {
                let req = match requirement_text(data, "worm_shrine"@) {
                    Some(r) => r,
                    None => "meet the prerequisite"@,
                };
                (
                    "Worm Shrine · "@ + req + " ("@ + ratio(counter_value(session, u.counter@), u.threshold as nat) + ")"@,
                    "Next: "@ + req + " to unlock the Worm Shrine."@,
                )
            },
        }
    }
}

/// The Worm Shrine's build requirement: ready to build, or the unlock's
/// action with live progress.
pub fn shrine_build_requirement(session: &GameSession, data: &GameData) -> (res: (String, String))
    ensures
        (res.0@, res.1@) == shrine_requirement_text(*session, *data),
{
    if session.is_unlocked("worm_shrine") {
        return ("Worm Shrine · ready to build".to_owned(), "Next: tap Shrine in Build & Dig, then tap open floor.".to_owned());
    }
    let unlock = match data.unlock("worm_shrine") {
        Some(u) => u,
        None => return ("Worm Shrine · locked".to_owned(), "Next: meet the Worm Shrine prerequisite.".to_owned()),
    };
    let current = session.counter_value(unlock.counter.as_str());
    let req = match unlock_requirement(data, "worm_shrine") {
        Some(r) => r,
        None => "meet the prerequisite".to_owned(),
    };
    let mut progress = "Worm Shrine · ".to_owned();
    progress.append(req.as_str());
    progress.append(" (");
    push_dec(&mut progress, current as u64);
    progress.append("/");
    push_dec(&mut progress, unlock.threshold as u64);
    progress.append(")");
    let mut next = "Next: ".to_owned();
    next.append(req.as_str());
    next.append(" to unlock the Worm Shrine.");
    (progress, next)
}


/// The Relay step of the objective card.
pub open spec fn relay_guidance_text(session: GameSession, data: GameData) -> Option<Seq<char>> {
    let b = data.balance;
    if session.outpost_archive_claims == 0 || session.outpost_relay_claimed || b.outpost_relay_route_goal == 0
        || b.outpost_relay_haul_goal == 0 {
        None
    } else {
        Some("Next: run the Worm Road Relay · "@ + ratio(session.network.relay_routes as nat, b.outpost_relay_route_goal as nat)
            + " active routes · "@ + ratio(session.network.relay_hauls as nat, b.outpost_relay_haul_goal as nat)
            + " hauls · +"@ + dec(b.outpost_relay_reward_ingots as nat) + " ingots."@)
    }
}

/// The next step of the Worm Road Relay, once an Archive page is logged and
/// until the Relay is claimed.
pub fn relay_contract_guidance(session: &GameSession, data: &GameData) -> (res: Option<String>)
    ensures
        text_of(res) == relay_guidance_text(*session, *data),
{
    let b = &data.balance;
    if session.outpost_archive_claims == 0 || session.outpost_relay_claimed || b.outpost_relay_route_goal == 0
        || b.outpost_relay_haul_goal == 0 {
        return None;
    }
    let mut s = "Next: run the Worm Road Relay · ".to_owned();
    push_dec(&mut s, session.network.relay_routes as u64);
    s.append("/");
    push_dec(&mut s, b.outpost_relay_route_goal as u64);
    s.append(" active routes · ");
    push_dec(&mut s, session.network.relay_hauls as u64);
    s.append("/");
    push_dec(&mut s, b.outpost_relay_haul_goal as u64);
    s.append(" hauls · +");
    push_dec(&mut s, b.outpost_relay_reward_ingots as u64);
    s.append(" ingots.");
    Some(s)
}

/// The Convoy step of the objective card.
pub open spec fn convoy_guidance_text(session: GameSession, data: GameData) -> Option<Seq<char>> {
    let b = data.balance;
    if !session.outpost_relay_claimed || b.outpost_convoy_route_goal == 0 || b.outpost_convoy_haul_goal == 0 {
        None
    } else {
        Some("Next: run the Worm Road Convoy · "@ + ratio(session.network.convoy_routes as nat, b.outpost_convoy_route_goal as nat)
            + " active routes · "@ + ratio(session.network.convoy_hauls as nat, b.outpost_convoy_haul_goal as nat)
            + " hauls · +"@ + dec(b.outpost_convoy_reward_ingots as nat) + " ingots."@)
    }
}

/// The next step of the repeatable Worm Road Convoy once the Relay is
/// claimed.
pub fn convoy_contract_guidance(session: &GameSession, data: &GameData) -> (res: Option<String>)
    ensures
        text_of(res) == convoy_guidance_text(*session, *data),
{
    let b = &data.balance;
    if !session.outpost_relay_claimed || b.outpost_convoy_route_goal == 0 || b.outpost_convoy_haul_goal == 0 {
        return None;
    }
    let mut s = "Next: run the Worm Road Convoy · ".to_owned();
    push_dec(&mut s, session.network.convoy_routes as u64);
    s.append("/");
    push_dec(&mut s, b.outpost_convoy_route_goal as u64);
    s.append(" active routes · ");
    push_dec(&mut s, session.network.convoy_hauls as u64);
    s.append("/");
    push_dec(&mut s, b.outpost_convoy_haul_goal as u64);
    s.append(" hauls · +");
    push_dec(&mut s, b.outpost_convoy_reward_ingots as u64);
    s.append(" ingots.");
    Some(s)
}

/// The Muster step of the objective card.
pub open spec fn muster_guidance_text(session: GameSession, data: GameData) -> Option<Seq<char>> {
    let b = data.balance;
    if !session.outpost_relay_claimed || session.outpost_convoy_claims == 0 || b.outpost_muster_route_goal == 0
        || b.outpost_muster_haul_goal == 0 {
        None
    } else {
        Some("Next: run the Worm Road Muster · "@ + ratio(session.network.muster_routes as nat, b.outpost_muster_route_goal as nat)
            + " active routes · "@ + ratio(session.network.muster_hauls as nat, b.outpost_muster_haul_goal as nat)
            + " hauls · +"@ + dec(b.outpost_muster_reward_ingots as nat) + " ingots."@)
    }
}

/// The next step of the repeatable Worm Road Muster once a Convoy is
/// cleared.
pub fn muster_contract_guidance(session: &GameSession, data: &GameData) -> (res: Option<String>)
    ensures
        text_of(res) == muster_guidance_text(*session, *data),
{
    let b = &data.balance;
    if !session.outpost_relay_claimed || session.outpost_convoy_claims == 0 || b.outpost_muster_route_goal == 0
        || b.outpost_muster_haul_goal == 0 {
        return None;
    }
    let mut s = "Next: run the Worm Road Muster · ".to_owned();
    push_dec(&mut s, session.network.muster_routes as u64);
    s.append("/");
    push_dec(&mut s, b.outpost_muster_route_goal as u64);
    s.append(" active routes · ");
    push_dec(&mut s, session.network.muster_hauls as u64);
    s.append("/");
    push_dec(&mut s, b.outpost_muster_haul_goal as u64);
    s.append(" hauls · +");
    push_dec(&mut s, b.outpost_muster_reward_ingots as u64);
    s.append(" ingots.");
    Some(s)
}

/// The Concord step of the objective card.
pub open spec fn concord_guidance_text(session: GameSession, data: GameData) -> Option<Seq<char>> {
    let b = data.balance;
    if session.outpost_muster_claims == 0 || session.outpost_concord_claimed || b.outpost_concord_role_goal == 0 {
        None
    } else {
        Some("Next: station a Wormsong carrier, miner, smith, and guard on active routes · Concord "@
            + ratio(session.network.concord_roles as nat, b.outpost_concord_role_goal as nat) + " roles · "@
            + dec(session.network.concord_routes as nat) + " active routes · +"@
            + dec(b.outpost_concord_reward_ingots as nat) + " ingots."@)
    }
}

/// The next step of the Wormsong Concord once a Muster is held and until the
/// Concord is claimed.
pub fn concord_contract_guidance(session: &GameSession, data: &GameData) -> (res: Option<String>)
    ensures
        text_of(res) == concord_guidance_text(*session, *data),
{
    let b = &data.balance;
    if session.outpost_muster_claims == 0 || session.outpost_concord_claimed || b.outpost_concord_role_goal == 0 {
        return None;
    }
    let mut s = "Next: station a Wormsong carrier, miner, smith, and guard on active routes · Concord ".to_owned();
    push_dec(&mut s, session.network.concord_roles as u64);
    s.append("/");
    push_dec(&mut s, b.outpost_concord_role_goal as u64);
    s.append(" roles · ");
    push_dec(&mut s, session.network.concord_routes as u64);
    s.append(" active routes · +");
    push_dec(&mut s, b.outpost_concord_reward_ingots as u64);
    s.append(" ingots.");
    Some(s)
}

/// The Circuit step of the objective card.
pub open spec fn circuit_guidance_text(session: GameSession, data: GameData) -> Option<Seq<char>> {
    let b = data.balance;
    if !session.outpost_concord_claimed || session.outpost_circuit_claimed || b.outpost_circuit_route_goal < 2 {
        None
    } else {
        Some("Next: keep "@ + dec(b.outpost_circuit_route_goal as nat)
            + " active routes carrying complete Wormsong crews for the Wormsong Circuit · "@
            + ratio(session.network.circuit_complete as nat, b.outpost_circuit_route_goal as nat) + " complete routes · "@
            + dec(session.network.circuit_active as nat) + " active routes · +"@
            + dec(b.outpost_circuit_reward_ingots as nat) + " ingots."@)
    }
}

/// The next step of the Wormsong Circuit once the Concord is claimed and
/// until the Circuit is claimed.
pub fn circuit_contract_guidance(session: &GameSession, data: &GameData) -> (res: Option<String>)
    ensures
        text_of(res) == circuit_guidance_text(*session, *data),
{
    let b = &data.balance;
    if !session.outpost_concord_claimed || session.outpost_circuit_claimed || b.outpost_circuit_route_goal < 2 {
        return None;
    }
    let mut s = "Next: keep ".to_owned();
    push_dec(&mut s, b.outpost_circuit_route_goal as u64);
    s.append(" active routes carrying complete Wormsong crews for the Wormsong Circuit · ");
    push_dec(&mut s, session.network.circuit_complete as u64);
    s.append("/");
    push_dec(&mut s, b.outpost_circuit_route_goal as u64);
    s.append(" complete routes · ");
    push_dec(&mut s, session.network.circuit_active as u64);
    s.append(" active routes · +");
    push_dec(&mut s, b.outpost_circuit_reward_ingots as u64);
    s.append(" ingots.");
    Some(s)
}

/// The Encore step of the objective card.
pub open spec fn encore_guidance_text(session: GameSession, data: GameData) -> Option<Seq<char>> {
    let b = data.balance;
    if !session.outpost_circuit_claimed || b.outpost_encore_haul_goal == 0 {
        None
    } else {
        Some("Next: keep a complete Wormsong crew scouting · Encore "@
            + ratio(session.network.encore as nat, b.outpost_encore_haul_goal as nat) + " boosted hauls · +"@
            + dec(b.outpost_encore_reward_ingots as nat) + " ingots."@)
    }
}

/// The next step of the repeatable Wormsong Encore once the Circuit is
/// claimed.
pub fn encore_contract_guidance(session: &GameSession, data: &GameData) -> (res: Option<String>)
    ensures
        text_of(res) == encore_guidance_text(*session, *data),
{
    let b = &data.balance;
    if !session.outpost_circuit_claimed || b.outpost_encore_haul_goal == 0 {
        return None;
    }
    let mut s = "Next: keep a complete Wormsong crew scouting · Encore ".to_owned();
    push_dec(&mut s, session.network.encore as u64);
    s.append("/");
    push_dec(&mut s, b.outpost_encore_haul_goal as u64);
    s.append(" boosted hauls · +");
    push_dec(&mut s, b.outpost_encore_reward_ingots as u64);
    s.append(" ingots.");
    Some(s)
}

/// The Chorus step of the objective card.
pub open spec fn chorus_guidance_text(session: GameSession, data: GameData) -> Option<Seq<char>> {
    let b = data.balance;
    if !session.outpost_circuit_claimed || session.outpost_chorus_claimed || b.outpost_chorus_route_goal == 0 {
        None
    } else {
        Some("Next: keep "@ + dec(b.outpost_chorus_route_goal as nat)
            + " active routes carrying complete Wormsong crews for the Wormsong Chorus · "@
            + ratio(session.network.chorus_complete as nat, b.outpost_chorus_route_goal as nat) + " complete routes · "@
            + dec(session.network.chorus_active as nat) + " active routes · +"@
            + dec(b.outpost_chorus_reward_ingots as nat) + " ingots and +"@
            + dec(b.outpost_chorus_ingots_per_haul as nat) + " ingot/haul."@)
    }
}

/// The next step of the Wormsong Chorus once the Circuit is claimed and
/// until the Chorus is claimed.
pub fn chorus_contract_guidance(session: &GameSession, data: &GameData) -> (res: Option<String>)
    ensures
        text_of(res) == chorus_guidance_text(*session, *data),
{
    let b = &data.balance;
    if !session.outpost_circuit_claimed || session.outpost_chorus_claimed || b.outpost_chorus_route_goal == 0 {
        return None;
    }
    let mut s = "Next: keep ".to_owned();
    push_dec(&mut s, b.outpost_chorus_route_goal as u64);
    s.append(" active routes carrying complete Wormsong crews for the Wormsong Chorus · ");
    push_dec(&mut s, session.network.chorus_complete as u64);
    s.append("/");
    push_dec(&mut s, b.outpost_chorus_route_goal as u64);
    s.append(" complete routes · ");
    push_dec(&mut s, session.network.chorus_active as u64);
    s.append(" active routes · +");
    push_dec(&mut s, b.outpost_chorus_reward_ingots as u64);
    s.append(" ingots and +");
    push_dec(&mut s, b.outpost_chorus_ingots_per_haul as u64);
    s.append(" ingot/haul.");
    Some(s)
}

/// The first contract after the Charter that still has a step to show, in
/// the order the objective card tries them.
pub open spec fn contract_step_text(session: GameSession, data: GameData) -> Option<Seq<char>> {
    if relay_guidance_text(session, data) is Some {
        relay_guidance_text(session, data)
    } else if concord_guidance_text(session, data) is Some {
        concord_guidance_text(session, data)
    } else if circuit_guidance_text(session, data) is Some {
        circuit_guidance_text(session, data)
    } else if chorus_guidance_text(session, data) is Some {
        chorus_guidance_text(session, data)
    } else if encore_guidance_text(session, data) is Some {
        encore_guidance_text(session, data)
    } else if muster_guidance_text(session, data) is Some {
        muster_guidance_text(session, data)
    } else {
        convoy_guidance_text(session, data)
    }
}

/// The Charter and its follow-up contracts as the objective card's next step.
pub open spec fn charter_guidance_text(session: GameSession, data: GameData) -> Option<Seq<char>> {
    let b = data.balance;
    let goal = b.outpost_charter_haul_goal;
    if goal == 0 {
        None
    } else if session.outpost_charter_claimed {
        if session.outpost_archive_claims == 0 && session.network.archive == 0 {
            None
        } else if contract_step_text(session, data) is Some {
            contract_step_text(session, data)
        } else {
            Some("Next: keep scouting · Archive "@ + ratio(session.network.archive as nat, b.outpost_archive_haul_goal as nat)
                + " · +"@ + dec(b.outpost_archive_reward_ingots as nat) + " ingots."@)
        }
    } else {
        Some("Next: finish scouting · Charter "@ + ratio(min_cap(session.network.total_expeditions as nat, goal as nat), goal as nat)
            + " · +"@ + dec(b.outpost_charter_reward_ingots as nat) + " ingots."@)
    }
}

fn contract_step(session: &GameSession, data: &GameData) -> (res: Option<String>)
    ensures
        text_of(res) == contract_step_text(*session, *data),
{
    let g = relay_contract_guidance(session, data);
    if g.is_some() {
        return g;
    }
    let g = concord_contract_guidance(session, data);
    if g.is_some() {
        return g;
    }
    let g = circuit_contract_guidance(session, data);
    if g.is_some() {
        return g;
    }
    let g = chorus_contract_guidance(session, data);
    if g.is_some() {
        return g;
    }
    let g = encore_contract_guidance(session, data);
    if g.is_some() {
        return g;
    }
    let g = muster_contract_guidance(session, data);
    if g.is_some() {
        return g;
    }
    convoy_contract_guidance(session, data)
}

/// The objective card's scouting step: Charter progress, then the first
/// contract with a step to show, then Archive progress.
pub fn charter_guidance(session: &GameSession, data: &GameData) -> (res: Option<String>)
    ensures
        text_of(res) == charter_guidance_text(*session, *data),
{
    let b = &data.balance;
    let goal = b.outpost_charter_haul_goal;
    if goal == 0 {
        return None;
    }
    if session.outpost_charter_claimed {
        if session.outpost_archive_claims == 0 && session.network.archive == 0 {
            return None;
        }
        let g = contract_step(session, data);
        if g.is_some() {
            return g;
        }
        let mut s = "Next: keep scouting · Archive ".to_owned();
        push_dec(&mut s, session.network.archive as u64);
        s.append("/");
        push_dec(&mut s, b.outpost_archive_haul_goal as u64);
        s.append(" · +");
        push_dec(&mut s, b.outpost_archive_reward_ingots as u64);
        s.append(" ingots.");
        return Some(s);
    }
    let done = session.network.total_expeditions;
    let completed = if done > goal { goal } else { done };
    let mut s = "Next: finish scouting · Charter ".to_owned();
    push_dec(&mut s, completed as u64);
    s.append("/");
    push_dec(&mut s, goal as u64);
    s.append(" · +");
    push_dec(&mut s, b.outpost_charter_reward_ingots as u64);
    s.append(" ingots.");
    Some(s)
}


/// The next route upgrade the colony can afford, in the order the upgrades
/// unlock, with its button name and ingot cost.
pub open spec fn next_upgrade(session: GameSession, data: GameData, o: Outpost) -> Option<(Seq<char>, nat)> {
    let b = data.balance;
    let avail = session.economy.ingots_stock;
    if !o.storage_upgraded && avail >= b.outpost_upgrade_ingots {
        Some(("Expand hold"@, b.outpost_upgrade_ingots as nat))
    } else if o.storage_upgraded && !o.crew_upgraded && avail >= b.outpost_crew_upgrade_ingots {
        Some(("Expand camp"@, b.outpost_crew_upgrade_ingots as nat))
    } else if o.storage_upgraded && o.crew_upgraded && !o.survey_upgraded && avail >= b.outpost_survey_upgrade_ingots {
        Some(("Install survey"@, b.outpost_survey_upgrade_ingots as nat))
    } else if o.survey_upgraded && !o.resonator_upgraded && avail >= b.outpost_resonator_upgrade_ingots {
        Some(("Tune beacon"@, b.outpost_resonator_upgrade_ingots as nat))
    } else if o.resonator_upgraded && session.outpost_charter_claimed && !o.deep_survey_upgraded
        && avail >= b.outpost_deep_survey_upgrade_ingots {
        Some(("Calibrate deep survey"@, b.outpost_deep_survey_upgrade_ingots as nat))
    } else if o.deep_survey_upgraded && session.outpost_relay_claimed && !o.signal_cache_upgraded
        && avail >= b.outpost_signal_cache_upgrade_ingots {
        Some(("Install signal cache"@, b.outpost_signal_cache_upgrade_ingots as nat))
    } else if o.signal_cache_upgraded && session.outpost_convoy_claims > 0 && !o.waypoint_upgraded
        && avail >= b.outpost_waypoint_upgrade_ingots {
        Some(("Install Worm Road waypoint"@, b.outpost_waypoint_upgrade_ingots as nat))
    } else {
        None
    }
}

/// The upgrade step of the objective card.
pub open spec fn upgrade_step_text(session: GameSession, data: GameData, o: Outpost) -> Option<Seq<char>> {
    match next_upgrade(session, data, o) {
        Some((name, cost)) => Some("Next: tap the active Worm Outpost, then "@ + name + " for "@ + dec(cost) + " ingots."@),
        None => None,
    }
}

fn upgrade_choice(session: &GameSession, data: &GameData, o: &Outpost) -> (res: Option<(&'static str, u32)>)
    ensures
        match res {
            Some((name, cost)) => next_upgrade(*session, *data, *o) == Some((name@, cost as nat)),
            None => next_upgrade(*session, *data, *o) is None,
        },
{
    let b = &data.balance;
    let avail = session.economy.ingots_stock;
    if !o.storage_upgraded && avail >= b.outpost_upgrade_ingots {
        Some(("Expand hold", b.outpost_upgrade_ingots))
    } else if o.storage_upgraded && !o.crew_upgraded && avail >= b.outpost_crew_upgrade_ingots {
        Some(("Expand camp", b.outpost_crew_upgrade_ingots))
    } else if o.storage_upgraded && o.crew_upgraded && !o.survey_upgraded && avail >= b.outpost_survey_upgrade_ingots {
        Some(("Install survey", b.outpost_survey_upgrade_ingots))
    } else if o.survey_upgraded && !o.resonator_upgraded && avail >= b.outpost_resonator_upgrade_ingots {
        Some(("Tune beacon", b.outpost_resonator_upgrade_ingots))
    } else if o.resonator_upgraded && session.outpost_charter_claimed && !o.deep_survey_upgraded
        && avail >= b.outpost_deep_survey_upgrade_ingots {
        Some(("Calibrate deep survey", b.outpost_deep_survey_upgrade_ingots))
    } else if o.deep_survey_upgraded && session.outpost_relay_claimed && !o.signal_cache_upgraded
        && avail >= b.outpost_signal_cache_upgrade_ingots {
        Some(("Install signal cache", b.outpost_signal_cache_upgrade_ingots))
    } else if o.signal_cache_upgraded && session.outpost_convoy_claims > 0 && !o.waypoint_upgraded
        && avail >= b.outpost_waypoint_upgrade_ingots {
        Some(("Install Worm Road waypoint", b.outpost_waypoint_upgrade_ingots))
    } else {
        None
    }
}

/// The next affordable upgrade of a route as an objective step.
pub fn outpost_upgrade_next_step(session: &GameSession, data: &GameData, outpost: &Outpost) -> (res: Option<String>)
    ensures
        text_of(res) == upgrade_step_text(*session, *data, *outpost),
{
    match upgrade_choice(session, data, outpost) {
        Some((name, cost)) => {
            let mut s = "Next: tap the active Worm Outpost, then ".to_owned();
            s.append(name);
            s.append(" for ");
            push_dec(&mut s, cost as u64);
            s.append(" ingots.");
            Some(s)
        },
        None => None,
    }
}

/// Cooked food above the worm's protected reserve, by at least one unit.
pub open spec fn food_spare(session: GameSession, data: GameData) -> bool {
    session.economy.food_milli - data.balance.worm_feed_reserve_milli >= 1000
}

/// A local creature stands empty-handed at the stockpile, ready to board.
pub open spec fn crew_waiting(session: GameSession) -> bool {
    exists|i: int|
        0 <= i < session.creatures@.len() && !(#[trigger] session.creatures@[i]).remote
            && !session.creatures@[i].carrying && session.creatures@[i].tile == session.stockpile_pos
}

/// Whether the warren could load something onto a route: goods while its
/// hold has room, or a waiting creature while its camp has room.
pub open spec fn loadable(session: GameSession, data: GameData, o: Outpost) -> bool {
    let cargo_ready = o.readout.storage_capacity > o.cargo_total && (session.economy.ore_stock > 0
        || session.economy.ingots_stock > 0 || food_spare(session, data));
    let crew_ready = o.crew < o.readout.crew_capacity && crew_waiting(session);
    cargo_ready || crew_ready
}

fn food_spare_exec(session: &GameSession, data: &GameData) -> (r: bool)
    ensures
        r == food_spare(*session, *data),
{
    session.economy.food_milli as i128 - data.balance.worm_feed_reserve_milli as i128 >= 1000
}

/// Whether a local creature stands empty-handed at the stockpile.
pub fn crew_waiting_exec(session: &GameSession) -> (r: bool)
    ensures
        r == crew_waiting(*session),
{
    let mut i: usize = 0;
    while i < session.creatures.len()
        invariant
            i <= session.creatures@.len(),
            forall|j: int| 0 <= j < i ==> !(!(#[trigger] session.creatures@[j]).remote
                && !session.creatures@[j].carrying && session.creatures@[j].tile == session.stockpile_pos),
        decreases session.creatures@.len() - i,
    {
        let c = &session.creatures[i];
        if !c.remote && !c.carrying && c.tile == session.stockpile_pos {
            return true;
        }
        i += 1;
    }
    false
}

/// Whether the warren has cargo or crew ready to load onto `outpost`.
pub fn outpost_has_loadable_payload(session: &GameSession, data: &GameData, outpost: &Outpost) -> (r: bool)
    ensures
        r == loadable(*session, *data, *outpost),
{
    let room = outpost.readout.storage_capacity.saturating_sub(outpost.cargo_total);
    let food_ready = food_spare_exec(session, data);
    let cargo_ready = room > 0 && (session.economy.ore_stock > 0 || session.economy.ingots_stock > 0 || food_ready);
    let crew_ready = (outpost.crew as u64) < outpost.readout.crew_capacity as u64 && crew_waiting_exec(session);
    cargo_ready || crew_ready
}

/// The routes the objective card considers at each stage of picking the one
/// to talk about.
pub open spec fn focus_stage(session: GameSession, data: GameData, stage: nat) -> spec_fn(Outpost) -> bool {
    |o: Outpost| o.active && (if stage == 0 {
        o.cargo_total > 0 && o.crew == 0
    } else if stage == 1 {
        o.readout.expedition == ExpeditionState::Paused
    } else if stage == 2 {
        o.readout.expedition is NeedsFood
    } else if stage == 3 {
        loadable(session, data, o)
    } else {
        true
    })
}

/// The route the objective card talks about: an active route holding cargo
/// without crew, else one paused, else one short of food, else one the warren
/// can load, else the first active route.
pub open spec fn focus_route(session: GameSession, data: GameData) -> Option<Outpost> {
    let r = session.outposts@;
    if find_first(r, focus_stage(session, data, 0)) is Some {
        find_first(r, focus_stage(session, data, 0))
    } else if find_first(r, focus_stage(session, data, 1)) is Some {
        find_first(r, focus_stage(session, data, 1))
    } else if find_first(r, focus_stage(session, data, 2)) is Some {
        find_first(r, focus_stage(session, data, 2))
    } else if find_first(r, focus_stage(session, data, 3)) is Some {
        find_first(r, focus_stage(session, data, 3))
    } else {
        find_first(r, focus_stage(session, data, 4))
    }
}

fn in_stage(session: &GameSession, data: &GameData, o: &Outpost, stage: u8) -> (r: bool)
    ensures
        r == focus_stage(*session, *data, stage as nat)(*o),
{
    o.active && (if stage == 0 {
        o.cargo_total > 0 && o.crew == 0
    } else if stage == 1 {
        o.readout.expedition == ExpeditionState::Paused
    } else if stage == 2 {
        matches!(o.readout.expedition, ExpeditionState::NeedsFood { .. })
    } else if stage == 3 {
        outpost_has_loadable_payload(session, data, o)
    } else {
        true
    })
}

fn find_in_stage(session: &GameSession, data: &GameData, stage: u8) -> (res: Option<usize>)
    ensures
        match res {
            Some(i) => i < session.outposts@.len() && find_first(session.outposts@, focus_stage(*session, *data, stage as nat))
                == Some(session.outposts@[i as int]),
            None => find_first(session.outposts@, focus_stage(*session, *data, stage as nat)) is None,
        },
{
    let ghost p = focus_stage(*session, *data, stage as nat);
    let mut i: usize = 0;
    assert(session.outposts@.skip(0) =~= session.outposts@);
    while i < session.outposts.len()
        invariant
            p == focus_stage(*session, *data, stage as nat),
            i <= session.outposts@.len(),
            find_first(session.outposts@, p) == find_first(session.outposts@.skip(i as int), p),
        decreases session.outposts@.len() - i,
    {
        proof {
            lemma_find_skip(session.outposts@, i as int, p);
        }
        if in_stage(session, data, &session.outposts[i], stage) {
            return Some(i);
        }
        i += 1;
    }
    assert(session.outposts@.skip(i as int).len() == 0);
    None
}

fn focus_index(session: &GameSession, data: &GameData) -> (res: Option<usize>)
    ensures
        match res {
            Some(i) => i < session.outposts@.len() && focus_route(*session, *data) == Some(session.outposts@[i as int]),
            None => focus_route(*session, *data) is None,
        },
{
    let mut stage: u8 = 0;
    while stage < 5
        invariant
            stage <= 5,
            forall|k: nat| k < stage ==> find_first(session.outposts@, #[trigger] focus_stage(*session, *data, k)) is None,
        decreases 5 - stage,
    {
        match find_in_stage(session, data, stage) {
            Some(i) => {
                return Some(i);
            },
            None => {},
        }
        stage += 1;
    }
    None
}

/// The objective card's step while routes are running.
pub open spec fn active_step_text(session: GameSession, data: GameData) -> Seq<char> {
    match focus_route(session, data) {
        None => "Next: tap the Worm Outpost, then tap Activate route."@,
        Some(o) => route_step_text(session, data, o),
    }
}

/// The objective step for the focused route `o`.
pub open spec fn route_step_text(session: GameSession, data: GameData, o: Outpost) -> Seq<char> {
    let has_cargo = o.cargo_total > 0;
    let has_crew = o.crew > 0;
    if !has_cargo && !has_crew && o.crew_dispatch_limit == Some(0u32) && crew_waiting(session) {
        "Next: tap Crew per run on the Outpost, then load scouts from the warren."@
    } else if has_crew && expedition_step_text(session, data, o) is Some {
        expedition_step_text(session, data, o)->0
    } else if !has_cargo && !has_crew && upgrade_step_text(session, data, o) is Some {
        upgrade_step_text(session, data, o)->0
    } else if o.auto_load && !o.expedition_paused && session.worm_transit is None && o.readout.loadable_payload {
        "Next: let Auto-load dispatch the active Worm Outpost."@
    } else if has_cargo && has_crew {
        "Next: tap the active Worm Outpost, then return its cargo while keeping the scouts remote."@
    } else if has_cargo {
        "Next: tap the active Worm Outpost, then send its cargo to the shrine."@
    } else if has_crew {
        "Next: tap the active Worm Outpost, then send its crew to the shrine."@
    } else if loadable(session, data, o) {
        "Next: tap the active Worm Outpost, then load it from the warren."@
    } else {
        "Next: keep cargo or crew ready at the warren, then load the active Worm Outpost."@
    }
}

/// The step a staffed route's expedition state calls for, if any.
pub open spec fn expedition_step_text(session: GameSession, data: GameData, o: Outpost) -> Option<Seq<char>> {
    match o.readout.expedition {
        ExpeditionState::NeedsFood { .. } => Some(
            if o.auto_resupply_food && food_spare(session, data) {
                "Next: let Auto-resupply deliver food to the remote scouts."@
            } else if o.auto_load && o.readout.loadable_payload {
                "Next: let Auto-load refill the active Worm Outpost."@
            } else if food_spare(session, data) {
                "Next: tap the active Worm Outpost, then load food for its expedition."@
            } else {
                "Next: keep cooked Food above reserve, then load the Outpost expedition."@
            },
        ),
        ExpeditionState::Paused => Some("Next: tap the active Worm Outpost, then Resume scouting."@),
        ExpeditionState::Scouting { .. } => Some(
            match charter_guidance_text(session, data) {
                Some(g) => g,
                None => "Next: let the Outpost expedition finish, then return its ore while keeping the scouts remote."@,
            },
        ),
        ExpeditionState::HoldFull => Some(
            "Next: tap the active Worm Outpost, then return its cargo while keeping the scouts remote."@,
        ),
        _ => None,
    }
}

fn expedition_step(session: &GameSession, data: &GameData, o: &Outpost) -> (res: Option<String>)
    ensures
        text_of(res) == expedition_step_text(*session, *data, *o),
{
    match o.readout.expedition {
        ExpeditionState::NeedsFood { .. } => {
            let food = food_spare_exec(session, data);
            if o.auto_resupply_food && food {
                return Some("Next: let Auto-resupply deliver food to the remote scouts.".to_owned());
            }
            if o.auto_load && o.readout.loadable_payload {
                return Some("Next: let Auto-load refill the active Worm Outpost.".to_owned());
            }
            if food {
                return Some("Next: tap the active Worm Outpost, then load food for its expedition.".to_owned());
            }
            Some("Next: keep cooked Food above reserve, then load the Outpost expedition.".to_owned())
        },
        ExpeditionState::Paused => Some("Next: tap the active Worm Outpost, then Resume scouting.".to_owned()),
        ExpeditionState::Scouting { .. } => match charter_guidance(session, data) {
            Some(g) => Some(g),
            None => Some(
                "Next: let the Outpost expedition finish, then return its ore while keeping the scouts remote.".to_owned(),
            ),
        },
        ExpeditionState::HoldFull => Some(
            "Next: tap the active Worm Outpost, then return its cargo while keeping the scouts remote.".to_owned(),
        ),
        _ => None,
    }
}

fn route_step(session: &GameSession, data: &GameData, o: &Outpost) -> (s: String)
    ensures
        s@ == route_step_text(*session, *data, *o),
{
    let has_cargo = o.cargo_total > 0;
    let has_crew = o.crew > 0;
    if !has_cargo && !has_crew && o.crew_dispatch_limit == Some(0u32) && crew_waiting_exec(session) {
        return "Next: tap Crew per run on the Outpost, then load scouts from the warren.".to_owned();
    }
    if has_crew {
        match expedition_step(session, data, o) {
            Some(g) => return g,
            None => {},
        }
    }
    if !has_cargo && !has_crew {
        match outpost_upgrade_next_step(session, data, o) {
            Some(h) => return h,
            None => {},
        }
    }
    if o.auto_load && !o.expedition_paused && session.worm_transit.is_none() && o.readout.loadable_payload {
        return "Next: let Auto-load dispatch the active Worm Outpost.".to_owned();
    }
    if has_cargo && has_crew {
        "Next: tap the active Worm Outpost, then return its cargo while keeping the scouts remote.".to_owned()
    } else if has_cargo {
        "Next: tap the active Worm Outpost, then send its cargo to the shrine.".to_owned()
    } else if has_crew {
        "Next: tap the active Worm Outpost, then send its crew to the shrine.".to_owned()
    } else if outpost_has_loadable_payload(session, data, o) {
        "Next: tap the active Worm Outpost, then load it from the warren.".to_owned()
    } else {
        "Next: keep cargo or crew ready at the warren, then load the active Worm Outpost.".to_owned()
    }
}

/// The objective card's next step while Worm Outpost routes run: pick the
/// route that most needs the player, then name the action it calls for.
pub fn active_outpost_next_step(session: &GameSession, data: &GameData) -> (s: String)
    ensures
        s@ == active_step_text(*session, *data),
{
    match focus_index(session, data) {
        None => "Next: tap the Worm Outpost, then tap Activate route.".to_owned(),
        Some(i) => route_step(session, data, &session.outposts[i]),
    }
}

} // verus!
