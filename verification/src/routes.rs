//! Derived route summaries and labels for the Outpost ledger.

use vstd::prelude::*;
use crate::model::{
    GameData, GameSession, Outpost, TilePos, ExpeditionState, TransitDirection, WormTransit,
    count_where, sum_of, find_first_index, lemma_count_step, lemma_sum_step, lemma_find_skip,
};
use crate::status::Tone;
use crate::text::{text_of, dec, idec, milli_text, push_dec, push_idec, round_milli_exec, round_milli_u64};

verus! {

/// The ledger name of a route: its 1-based number and tile.
pub open spec fn route_name_text(index: nat, pos: TilePos) -> Seq<char> {
    "Route "@ + dec(index + 1) + " · ("@ + idec(pos.x as int) + ", "@ + idec(pos.y as int) + ")"@
}

/// The ledger name of route `index`, keeping its map location visible.
pub fn route_name(index: usize, pos: TilePos) -> (s: String)
    requires
        index < usize::MAX,
    ensures
        s@ == route_name_text(index as nat, pos),
{
    let mut s = "Route ".to_owned();
    push_dec(&mut s, (index + 1) as u64);
    s.append(" · (");
    push_idec(&mut s, pos.x as i64);
    s.append(", ");
    push_idec(&mut s, pos.y as i64);
    s.append(")");
    s
}

/// How many columns the route ledger lays its cards out in: a fourth column
/// appears before the cards can run into the close button.
pub fn route_column_count(route_count: usize) -> (n: usize)
    ensures
        n == (if route_count > 6 { 4usize } else { 3usize }),
{
    if route_count > 6 {
        4
    } else {
        3
    }
}

/// Whether a route needs the player: it is off, its last run failed, or its
/// expedition is stuck.
pub open spec fn needs_attention(o: Outpost) -> bool {
    !o.active || o.failed || match o.readout.expedition {
        ExpeditionState::NoCrew | ExpeditionState::Paused | ExpeditionState::NeedsFood { .. } | ExpeditionState::HoldFull => true,
        _ => false,
    }
}

/// Whether a route needs the player's attention.
pub fn route_needs_attention(session: &GameSession, outpost: &Outpost, data: &GameData) -> (r: bool)
    ensures
        r == needs_attention(*outpost),
{
    !outpost.active || outpost.failed || match outpost.readout.expedition {
        ExpeditionState::NoCrew | ExpeditionState::Paused | ExpeditionState::NeedsFood { .. } | ExpeditionState::HoldFull => true,
        _ => false,
    }
}

/// `x`, or `cap` when `x` is larger.
pub open spec fn min_cap(x: nat, cap: nat) -> nat {
    if x > cap { cap } else { x }
}

/// Matches routes that are switched on.
pub open spec fn is_active() -> spec_fn(Outpost) -> bool {
    |o: Outpost| o.active
}

/// Matches routes that need the player.
pub open spec fn wants_attention() -> spec_fn(Outpost) -> bool {
    |o: Outpost| needs_attention(o)
}

/// The cargo a route holds.
pub open spec fn cargo_of() -> spec_fn(Outpost) -> nat {
    |o: Outpost| o.cargo_total as nat
}

/// The scouts stationed on a route.
pub open spec fn crew_of() -> spec_fn(Outpost) -> nat {
    |o: Outpost| o.crew as nat
}

/// The ore a route has scouted.
pub open spec fn scouted_of() -> spec_fn(Outpost) -> nat {
    |o: Outpost| o.ore_scouted as nat
}

/// The ingots a route's Signal Cache has kept.
pub open spec fn cache_of() -> spec_fn(Outpost) -> nat {
    |o: Outpost| o.signal_cache_ingots as nat
}

/// The ingots the Wormsong Chorus has kept on a route.
pub open spec fn chorus_of() -> spec_fn(Outpost) -> nat {
    |o: Outpost| o.chorus_ingots as nat
}

/// Totals over the route network, each sum capped at its counter's maximum.
pub struct NetworkTotals {
    pub active: usize,
    pub held_cargo: u32,
    pub remote_crew: usize,
    pub scouted_ore: u32,
    pub cached_ingots: u32,
    pub chorus_ingots: u32,
    pub attention: usize,
}

/// The network totals the ledger reports.
pub open spec fn totals_match(t: NetworkTotals, routes: Seq<Outpost>) -> bool {
    &&& t.active == count_where(routes, is_active())
    &&& t.held_cargo == min_cap(sum_of(routes, cargo_of()), u32::MAX as nat)
    &&& t.remote_crew == min_cap(sum_of(routes, crew_of()), usize::MAX as nat)
    &&& t.scouted_ore == min_cap(sum_of(routes, scouted_of()), u32::MAX as nat)
    &&& t.cached_ingots == min_cap(sum_of(routes, cache_of()), u32::MAX as nat)
    &&& t.chorus_ingots == min_cap(sum_of(routes, chorus_of()), u32::MAX as nat)
    &&& t.attention == count_where(routes, wants_attention())
}

/// Add with the sum capped at `u32::MAX`.
fn add_capped(acc: u32, x: u32) -> (r: u32)
    ensures
        r == min_cap((acc + x) as nat, u32::MAX as nat),
{
    acc.saturating_add(x)
}

/// Count, sum and flag the routes of the network.
pub fn network_totals(session: &GameSession, data: &GameData) -> (t: NetworkTotals)
    ensures
        totals_match(t, session.outposts@),
{
    let ghost routes = session.outposts@;
    let mut t = NetworkTotals {
        active: 0,
        held_cargo: 0,
        remote_crew: 0,
        scouted_ore: 0,
        cached_ingots: 0,
        chorus_ingots: 0,
        attention: 0,
    };
    let mut i: usize = 0;
    while i < session.outposts.len()
        invariant
            routes == session.outposts@,
            i <= routes.len(),
            t.active <= i,
            t.attention <= i,
            totals_match(t, routes.take(i as int)),
        decreases routes.len() - i,
    {
        proof {
            lemma_count_step(routes, i as int, is_active());
            lemma_count_step(routes, i as int, wants_attention());
            lemma_sum_step(routes, i as int, cargo_of());
            lemma_sum_step(routes, i as int, crew_of());
            lemma_sum_step(routes, i as int, scouted_of());
            lemma_sum_step(routes, i as int, cache_of());
            lemma_sum_step(routes, i as int, chorus_of());
        }
        let o = &session.outposts[i];
        if o.active {
            t.active = t.active + 1;
        }
        t.held_cargo = add_capped(t.held_cargo, o.cargo_total);
        t.remote_crew = t.remote_crew.saturating_add(o.crew);
        t.scouted_ore = add_capped(t.scouted_ore, o.ore_scouted);
        t.cached_ingots = add_capped(t.cached_ingots, o.signal_cache_ingots);
        t.chorus_ingots = add_capped(t.chorus_ingots, o.chorus_ingots);
        if route_needs_attention(session, o, data) {
            t.attention = t.attention + 1;
        }
        i += 1;
    }
    assert(routes.take(i as int) =~= routes);
    t
}


/// The charter line of the ledger.
pub open spec fn charter_text(session: GameSession, data: GameData) -> Seq<char> {
    let goal = data.balance.outpost_charter_haul_goal;
    if session.outpost_charter_claimed {
        if data.balance.outpost_archive_haul_goal == 0 {
            "Charter complete"@
        } else {
            "Charter complete · Archive "@ + dec(session.network.archive as nat) + "/"@
                + dec(data.balance.outpost_archive_haul_goal as nat) + " · Pages "@
                + dec(session.outpost_archive_claims as nat) + " · +"@
                + dec(data.balance.outpost_archive_reward_ingots as nat) + " ingots"@
        }
    } else if goal == 0 {
        "Charter unavailable"@
    } else {
        "Charter "@ + dec(min_cap(session.network.total_expeditions as nat, goal as nat)) + "/"@ + dec(goal as nat)
            + " · +"@ + dec(data.balance.outpost_charter_reward_ingots as nat) + " ingots"@
    }
}

/// The Outpost Charter's standing: scouting progress toward the charter, or
/// the Archive pages logged after it was claimed.
pub fn charter_summary(session: &GameSession, data: &GameData) -> (s: String)
    ensures
        s@ == charter_text(*session, *data),
{
    let goal = data.balance.outpost_charter_haul_goal;
    if session.outpost_charter_claimed {
        let archive_goal = data.balance.outpost_archive_haul_goal;
        if archive_goal == 0 {
            return "Charter complete".to_owned();
        }
        let mut s = "Charter complete · Archive ".to_owned();
        push_dec(&mut s, session.network.archive as u64);
        s.append("/");
        push_dec(&mut s, archive_goal as u64);
        s.append(" · Pages ");
        push_dec(&mut s, session.outpost_archive_claims as u64);
        s.append(" · +");
        push_dec(&mut s, data.balance.outpost_archive_reward_ingots as u64);
        s.append(" ingots");
        return s;
    }
    if goal == 0 {
        return "Charter unavailable".to_owned();
    }
    let done = session.network.total_expeditions;
    let completed = if done > goal { goal } else { done };
    let mut s = "Charter ".to_owned();
    push_dec(&mut s, completed as u64);
    s.append("/");
    push_dec(&mut s, goal as u64);
    s.append(" · +");
    push_dec(&mut s, data.balance.outpost_charter_reward_ingots as u64);
    s.append(" ingots");
    s
}

/// The network summary line of the route ledger.
pub open spec fn network_text(session: GameSession, data: GameData) -> Seq<char> {
    let routes = session.outposts@;
    let cached = min_cap(sum_of(routes, cache_of()), u32::MAX as nat);
    let chorus = sum_of(routes, chorus_of());
    "Routes "@ + dec(routes.len()) + " · Active "@ + dec(count_where(routes, is_active()))
        + " · Held cargo "@ + dec(min_cap(sum_of(routes, cargo_of()), u32::MAX as nat))
        + " · Remote crew "@ + dec(min_cap(sum_of(routes, crew_of()), usize::MAX as nat))
        + " · Ore scouted "@ + dec(min_cap(sum_of(routes, scouted_of()), u32::MAX as nat))
        + " · "@ + charter_text(session, data)
        + " · Attention "@ + dec(count_where(routes, wants_attention()))
        + (if cached > 0 { " · Cache kept "@ + dec(cached) } else { Seq::<char>::empty() })
        + (if chorus > 0 { " · Chorus kept "@ + dec(chorus) } else { Seq::<char>::empty() })
}

/// The whole warren network in one line: routes, active routes, held cargo,
/// remote crew, scouted ore, charter standing, routes needing attention and
/// the ingots the Signal Cache and Chorus have kept. Cargo, crew, ore and
/// cache totals stop at the counter's maximum.
pub fn route_network_summary(session: &GameSession, data: &GameData) -> (s: String)
    requires
        sum_of(session.outposts@, chorus_of()) <= u32::MAX,
    ensures
        s@ == network_text(*session, *data),
{
    let t = network_totals(session, data);
    let mut s = "Routes ".to_owned();
    push_dec(&mut s, session.outposts.len() as u64);
    s.append(" · Active ");
    push_dec(&mut s, t.active as u64);
    s.append(" · Held cargo ");
    push_dec(&mut s, t.held_cargo as u64);
    s.append(" · Remote crew ");
    push_dec(&mut s, t.remote_crew as u64);
    s.append(" · Ore scouted ");
    push_dec(&mut s, t.scouted_ore as u64);
    s.append(" · ");
    let charter = charter_summary(session, data);
    s.append(charter.as_str());
    s.append(" · Attention ");
    push_dec(&mut s, t.attention as u64);
    if t.cached_ingots > 0 {
        s.append(" · Cache kept ");
        push_dec(&mut s, t.cached_ingots as u64);
    }
    if t.chorus_ingots > 0 {
        s.append(" · Chorus kept ");
        push_dec(&mut s, t.chorus_ingots as u64);
    }
    s
}

/// The two-line compact network summary: counts first, then the charter and
/// the ingots kept by the Signal Cache and the Chorus.
pub open spec fn compact_network_text(session: GameSession, data: GameData) -> (Seq<char>, Seq<char>) {
    let routes = session.outposts@;
    let cached = min_cap(sum_of(routes, cache_of()), u32::MAX as nat);
    let chorus = min_cap(sum_of(routes, chorus_of()), u32::MAX as nat);
    let earnings = if cached > 0 && chorus > 0 {
        "Cache "@ + dec(cached) + " · "@ + "Chorus "@ + dec(chorus)
    } else if cached > 0 {
        "Cache "@ + dec(cached)
    } else if chorus > 0 {
        "Chorus "@ + dec(chorus)
    } else {
        Seq::<char>::empty()
    };
    (
        "Routes "@ + dec(routes.len()) + " · Active "@ + dec(count_where(routes, is_active()))
            + " · Cargo "@ + dec(min_cap(sum_of(routes, cargo_of()), u32::MAX as nat))
            + " · Crew "@ + dec(min_cap(sum_of(routes, crew_of()), usize::MAX as nat))
            + " · Ore "@ + dec(min_cap(sum_of(routes, scouted_of()), u32::MAX as nat))
            + " · Attention "@ + dec(count_where(routes, wants_attention())),
        if earnings.len() > 0 { charter_text(session, data) + " · "@ + earnings } else { charter_text(session, data) },
    )
}

/// Compact network summary for the narrow route ledger.
pub fn compact_route_network_summary(session: &GameSession, data: &GameData) -> (res: (String, String))
    ensures
        (res.0@, res.1@) == compact_network_text(*session, *data),
{
    let t = network_totals(session, data);
    let mut line = "Routes ".to_owned();
    push_dec(&mut line, session.outposts.len() as u64);
    line.append(" · Active ");
    push_dec(&mut line, t.active as u64);
    line.append(" · Cargo ");
    push_dec(&mut line, t.held_cargo as u64);
    line.append(" · Crew ");
    push_dec(&mut line, t.remote_crew as u64);
    line.append(" · Ore ");
    push_dec(&mut line, t.scouted_ore as u64);
    line.append(" · Attention ");
    push_dec(&mut line, t.attention as u64);
    let mut earnings = String::new();
    if t.cached_ingots > 0 {
        earnings.append("Cache ");
        push_dec(&mut earnings, t.cached_ingots as u64);
    }
    if t.chorus_ingots > 0 {
        if t.cached_ingots > 0 {
            earnings.append(" · ");
        }
        earnings.append("Chorus ");
        push_dec(&mut earnings, t.chorus_ingots as u64);
    }
    let mut detail = charter_summary(session, data);
    if earnings.as_str().unicode_len() > 0 {
        detail.append(" · ");
        detail.append(earnings.as_str());
    }
    proof {
        let ghost routes = session.outposts@;
        assert(t.cached_ingots > 0 ==> dec(t.cached_ingots as nat).len() > 0);
        assert(t.chorus_ingots > 0 ==> ("Chorus "@ + dec(t.chorus_ingots as nat)).len() > 0);
    }
    (line, detail)
}


/// "a/b" with each side spelled in decimal.
pub open spec fn ratio(a: nat, b: nat) -> Seq<char> {
    dec(a) + "/"@ + dec(b)
}

fn push_ratio(s: &mut String, a: u64, b: u64)
    ensures
        final(s)@ == old(s)@ + ratio(a as nat, b as nat),
{
    push_dec(s, a);
    s.append("/");
    push_dec(s, b);
}

/// The Worm Road Relay line.
pub open spec fn relay_text(session: GameSession, data: GameData) -> Option<Seq<char>> {
    let b = data.balance;
    if session.outpost_archive_claims == 0 || b.outpost_relay_route_goal == 0 {
        None
    } else if session.outpost_relay_claimed {
        Some("Worm Road Relay complete · +"@ + dec(b.outpost_relay_reward_ingots as nat) + " ingots"@)
    } else {
        Some("Worm Road Relay · "@ + ratio(session.network.relay_routes as nat, b.outpost_relay_route_goal as nat)
            + " routes · "@ + ratio(session.network.relay_hauls as nat, b.outpost_relay_haul_goal as nat)
            + " hauls · +"@ + dec(b.outpost_relay_reward_ingots as nat) + " ingots"@)
    }
}

/// The Worm Road Relay's standing once the first Archive page is logged.
pub fn relay_contract_summary(session: &GameSession, data: &GameData) -> (res: Option<String>)
    ensures
        text_of(res) == relay_text(*session, *data),
{
    let b = &data.balance;
    if session.outpost_archive_claims == 0 || b.outpost_relay_route_goal == 0 {
        return None;
    }
    if session.outpost_relay_claimed {
        let mut s = "Worm Road Relay complete · +".to_owned();
        push_dec(&mut s, b.outpost_relay_reward_ingots as u64);
        s.append(" ingots");
        return Some(s);
    }
    let mut s = "Worm Road Relay · ".to_owned();
    push_ratio(&mut s, session.network.relay_routes as u64, b.outpost_relay_route_goal as u64);
    s.append(" routes · ");
    push_ratio(&mut s, session.network.relay_hauls as u64, b.outpost_relay_haul_goal as u64);
    s.append(" hauls · +");
    push_dec(&mut s, b.outpost_relay_reward_ingots as u64);
    s.append(" ingots");
    Some(s)
}

/// The Worm Road Convoy line.
pub open spec fn convoy_text(session: GameSession, data: GameData) -> Option<Seq<char>> {
    let b = data.balance;
    if !session.outpost_relay_claimed || b.outpost_convoy_route_goal == 0 || b.outpost_convoy_haul_goal == 0 {
        None
    } else if session.outpost_convoy_claims > 0 {
        Some("Worm Road Convoy · "@ + dec(session.outpost_convoy_claims as nat) + " cleared · next "@
            + ratio(session.network.convoy_hauls as nat, b.outpost_convoy_haul_goal as nat)
            + " hauls · +"@ + dec(b.outpost_convoy_reward_ingots as nat) + " ingots"@)
    } else {
        Some("Worm Road Convoy · "@ + ratio(session.network.convoy_routes as nat, b.outpost_convoy_route_goal as nat)
            + " routes · "@ + ratio(session.network.convoy_hauls as nat, b.outpost_convoy_haul_goal as nat)
            + " hauls · +"@ + dec(b.outpost_convoy_reward_ingots as nat) + " ingots"@)
    }
}

/// The repeatable Worm Road Convoy's standing once the Relay is claimed.
pub fn convoy_contract_summary(session: &GameSession, data: &GameData) -> (res: Option<String>)
    ensures
        text_of(res) == convoy_text(*session, *data),
{
    let b = &data.balance;
    if !session.outpost_relay_claimed || b.outpost_convoy_route_goal == 0 || b.outpost_convoy_haul_goal == 0 {
        return None;
    }
    if session.outpost_convoy_claims > 0 {
        let mut s = "Worm Road Convoy · ".to_owned();
        push_dec(&mut s, session.outpost_convoy_claims as u64);
        s.append(" cleared · next ");
        push_ratio(&mut s, session.network.convoy_hauls as u64, b.outpost_convoy_haul_goal as u64);
        s.append(" hauls · +");
        push_dec(&mut s, b.outpost_convoy_reward_ingots as u64);
        s.append(" ingots");
        return Some(s);
    }
    let mut s = "Worm Road Convoy · ".to_owned();
    push_ratio(&mut s, session.network.convoy_routes as u64, b.outpost_convoy_route_goal as u64);
    s.append(" routes · ");
    push_ratio(&mut s, session.network.convoy_hauls as u64, b.outpost_convoy_haul_goal as u64);
    s.append(" hauls · +");
    push_dec(&mut s, b.outpost_convoy_reward_ingots as u64);
    s.append(" ingots");
    Some(s)
}

/// The Worm Road Muster line.
pub open spec fn muster_text(session: GameSession, data: GameData) -> Option<Seq<char>> {
    let b = data.balance;
    if !session.outpost_relay_claimed || session.outpost_convoy_claims == 0 || b.outpost_muster_route_goal == 0
        || b.outpost_muster_haul_goal == 0 {
        None
    } else if session.outpost_muster_claims > 0 {
        Some("Worm Road Muster · "@ + dec(session.outpost_muster_claims as nat) + " cleared · next "@
            + ratio(session.network.muster_hauls as nat, b.outpost_muster_haul_goal as nat)
            + " hauls · +"@ + dec(b.outpost_muster_reward_ingots as nat) + " ingots"@)
    } else {
        Some("Worm Road Muster · "@ + ratio(session.network.muster_routes as nat, b.outpost_muster_route_goal as nat)
            + " routes · "@ + ratio(session.network.muster_hauls as nat, b.outpost_muster_haul_goal as nat)
            + " hauls · +"@ + dec(b.outpost_muster_reward_ingots as nat) + " ingots"@)
    }
}

/// The repeatable Worm Road Muster's standing once a Convoy is cleared.
pub fn muster_contract_summary(session: &GameSession, data: &GameData) -> (res: Option<String>)
    ensures
        text_of(res) == muster_text(*session, *data),
{
    let b = &data.balance;
    if !session.outpost_relay_claimed || session.outpost_convoy_claims == 0 || b.outpost_muster_route_goal == 0
        || b.outpost_muster_haul_goal == 0 {
        return None;
    }
    if session.outpost_muster_claims > 0 {
        let mut s = "Worm Road Muster · ".to_owned();
        push_dec(&mut s, session.outpost_muster_claims as u64);
        s.append(" cleared · next ");
        push_ratio(&mut s, session.network.muster_hauls as u64, b.outpost_muster_haul_goal as u64);
        s.append(" hauls · +");
        push_dec(&mut s, b.outpost_muster_reward_ingots as u64);
        s.append(" ingots");
        return Some(s);
    }
    let mut s = "Worm Road Muster · ".to_owned();
    push_ratio(&mut s, session.network.muster_routes as u64, b.outpost_muster_route_goal as u64);
    s.append(" routes · ");
    push_ratio(&mut s, session.network.muster_hauls as u64, b.outpost_muster_haul_goal as u64);
    s.append(" hauls · +");
    push_dec(&mut s, b.outpost_muster_reward_ingots as u64);
    s.append(" ingots");
    Some(s)
}

/// The Wormsong Concord line.
pub open spec fn concord_text(session: GameSession, data: GameData) -> Option<Seq<char>> {
    let b = data.balance;
    if session.outpost_muster_claims == 0 || b.outpost_concord_role_goal == 0 {
        None
    } else if session.outpost_concord_claimed {
        Some("Wormsong Concord complete · "@ + dec(b.outpost_concord_role_goal as nat) + " roles on the road · +"@
            + dec(b.outpost_concord_reward_ingots as nat) + " ingots"@)
    } else {
        Some("Wormsong Concord · "@ + ratio(session.network.concord_roles as nat, b.outpost_concord_role_goal as nat)
            + " roles · "@ + dec(session.network.concord_routes as nat) + " active routes · +"@
            + dec(b.outpost_concord_reward_ingots as nat) + " ingots"@)
    }
}

/// The Wormsong Concord's standing once a Muster is held.
pub fn concord_contract_summary(session: &GameSession, data: &GameData) -> (res: Option<String>)
    ensures
        text_of(res) == concord_text(*session, *data),
{
    let b = &data.balance;
    if session.outpost_muster_claims == 0 || b.outpost_concord_role_goal == 0 {
        return None;
    }
    if session.outpost_concord_claimed {
        let mut s = "Wormsong Concord complete · ".to_owned();
        push_dec(&mut s, b.outpost_concord_role_goal as u64);
        s.append(" roles on the road · +");
        push_dec(&mut s, b.outpost_concord_reward_ingots as u64);
        s.append(" ingots");
        return Some(s);
    }
    let mut s = "Wormsong Concord · ".to_owned();
    push_ratio(&mut s, session.network.concord_roles as u64, b.outpost_concord_role_goal as u64);
    s.append(" roles · ");
    push_dec(&mut s, session.network.concord_routes as u64);
    s.append(" active routes · +");
    push_dec(&mut s, b.outpost_concord_reward_ingots as u64);
    s.append(" ingots");
    Some(s)
}

/// The Wormsong Circuit line.
pub open spec fn circuit_text(session: GameSession, data: GameData) -> Option<Seq<char>> {
    let b = data.balance;
    if !session.outpost_concord_claimed || b.outpost_circuit_route_goal < 2 {
        None
    } else if session.outpost_circuit_claimed {
        Some("Wormsong Circuit complete · "@ + dec(b.outpost_circuit_route_goal as nat) + " complete routes · +"@
            + dec(b.outpost_circuit_reward_ingots as nat) + " ingots"@)
    } else {
        Some("Wormsong Circuit · "@ + ratio(session.network.circuit_complete as nat, b.outpost_circuit_route_goal as nat)
            + " complete routes · "@ + dec(session.network.circuit_active as nat) + " active routes · +"@
            + dec(b.outpost_circuit_reward_ingots as nat) + " ingots"@)
    }
}

/// The Wormsong Circuit's standing once the Concord is claimed.
pub fn circuit_contract_summary(session: &GameSession, data: &GameData) -> (res: Option<String>)
    ensures
        text_of(res) == circuit_text(*session, *data),
{
    let b = &data.balance;
    if !session.outpost_concord_claimed || b.outpost_circuit_route_goal < 2 {
        return None;
    }
    if session.outpost_circuit_claimed {
        let mut s = "Wormsong Circuit complete · ".to_owned();
        push_dec(&mut s, b.outpost_circuit_route_goal as u64);
        s.append(" complete routes · +");
        push_dec(&mut s, b.outpost_circuit_reward_ingots as u64);
        s.append(" ingots");
        return Some(s);
    }
    let mut s = "Wormsong Circuit · ".to_owned();
    push_ratio(&mut s, session.network.circuit_complete as u64, b.outpost_circuit_route_goal as u64);
    s.append(" complete routes · ");
    push_dec(&mut s, session.network.circuit_active as u64);
    s.append(" active routes · +");
    push_dec(&mut s, b.outpost_circuit_reward_ingots as u64);
    s.append(" ingots");
    Some(s)
}

/// The Wormsong Encore line.
pub open spec fn encore_text(session: GameSession, data: GameData) -> Option<Seq<char>> {
    let b = data.balance;
    if !session.outpost_circuit_claimed || b.outpost_encore_haul_goal == 0 {
        None
    } else if session.outpost_encore_claims > 0 {
        Some("Wormsong Encore · "@ + dec(session.outpost_encore_claims as nat) + " cleared · next "@
            + ratio(session.network.encore as nat, b.outpost_encore_haul_goal as nat) + " boosted hauls · +"@
            + dec(b.outpost_encore_reward_ingots as nat) + " ingots"@)
    } else {
        Some("Wormsong Encore · "@ + ratio(session.network.encore as nat, b.outpost_encore_haul_goal as nat)
            + " boosted hauls · +"@ + dec(b.outpost_encore_reward_ingots as nat) + " ingots"@)
    }
}

/// The repeatable Wormsong Encore's standing once the Circuit is claimed.
pub fn encore_contract_summary(session: &GameSession, data: &GameData) -> (res: Option<String>)
    ensures
        text_of(res) == encore_text(*session, *data),
{
    let b = &data.balance;
    if !session.outpost_circuit_claimed || b.outpost_encore_haul_goal == 0 {
        return None;
    }
    let progress = session.network.encore as u64;
    if session.outpost_encore_claims > 0 {
        let mut s = "Wormsong Encore · ".to_owned();
        push_dec(&mut s, session.outpost_encore_claims as u64);
        s.append(" cleared · next ");
        push_ratio(&mut s, progress, b.outpost_encore_haul_goal as u64);
        s.append(" boosted hauls · +");
        push_dec(&mut s, b.outpost_encore_reward_ingots as u64);
        s.append(" ingots");
        return Some(s);
    }
    let mut s = "Wormsong Encore · ".to_owned();
    push_ratio(&mut s, progress, b.outpost_encore_haul_goal as u64);
    s.append(" boosted hauls · +");
    push_dec(&mut s, b.outpost_encore_reward_ingots as u64);
    s.append(" ingots");
    Some(s)
}

/// The ingots the Chorus has kept fit the counter whenever the claimed
/// Chorus line totals them.
pub open spec fn chorus_kept_fits(session: GameSession, data: GameData) -> bool {
    session.outpost_circuit_claimed && session.outpost_chorus_claimed && data.balance.outpost_chorus_route_goal != 0
        ==> sum_of(session.outposts@, chorus_of()) <= u32::MAX
}

/// The Wormsong Chorus line.
pub open spec fn chorus_text(session: GameSession, data: GameData) -> Option<Seq<char>> {
    let b = data.balance;
    if !session.outpost_circuit_claimed || b.outpost_chorus_route_goal == 0 {
        None
    } else if session.outpost_chorus_claimed {
        Some("Wormsong Chorus complete · "@ + dec(b.outpost_chorus_route_goal as nat) + " complete routes · +"@
            + dec(b.outpost_chorus_ingots_per_haul as nat) + " ingot/haul · Kept "@
            + dec(sum_of(session.outposts@, chorus_of())))
    } else {
        Some("Wormsong Chorus · "@ + ratio(session.network.chorus_complete as nat, b.outpost_chorus_route_goal as nat)
            + " complete routes · "@ + dec(session.network.chorus_active as nat) + " active routes · +"@
            + dec(b.outpost_chorus_reward_ingots as nat) + " ingots"@)
    }
}

/// The Wormsong Chorus's standing once the Circuit is claimed: progress, or
/// the per-haul bonus and the ingots it has kept.
pub fn chorus_contract_summary(session: &GameSession, data: &GameData) -> (res: Option<String>)
    requires
        chorus_kept_fits(*session, *data),
    ensures
        text_of(res) == chorus_text(*session, *data),
{
    let b = &data.balance;
    if !session.outpost_circuit_claimed || b.outpost_chorus_route_goal == 0 {
        return None;
    }
    if session.outpost_chorus_claimed {
        let t = network_totals(session, data);
        let mut s = "Wormsong Chorus complete · ".to_owned();
        push_dec(&mut s, b.outpost_chorus_route_goal as u64);
        s.append(" complete routes · +");
        push_dec(&mut s, b.outpost_chorus_ingots_per_haul as u64);
        s.append(" ingot/haul · Kept ");
        push_dec(&mut s, t.chorus_ingots as u64);
        return Some(s);
    }
    let mut s = "Wormsong Chorus · ".to_owned();
    push_ratio(&mut s, session.network.chorus_complete as u64, b.outpost_chorus_route_goal as u64);
    s.append(" complete routes · ");
    push_dec(&mut s, session.network.chorus_active as u64);
    s.append(" active routes · +");
    push_dec(&mut s, b.outpost_chorus_reward_ingots as u64);
    s.append(" ingots");
    Some(s)
}

/// The index of the first route standing at `pos`.
pub open spec fn route_index(session: GameSession, pos: TilePos) -> Option<nat> {
    find_first_index(session.outposts@, |o: Outpost| o.pos == pos)
}

/// Position of the first route standing at `pos`.
pub fn route_position(session: &GameSession, pos: TilePos) -> (res: Option<usize>)
    ensures
        match res {
            Some(i) => route_index(*session, pos) == Some(i as nat),
            None => route_index(*session, pos) is None,
        },
        res matches Some(i) ==> i < session.outposts@.len(),
{
    let ghost p = |o: Outpost| o.pos == pos;
    let mut i: usize = 0;
    assert(session.outposts@.skip(0) =~= session.outposts@);
    while i < session.outposts.len()
        invariant
            p == (|o: Outpost| o.pos == pos),
            i <= session.outposts@.len(),
            find_first_index(session.outposts@, p) == (match find_first_index(session.outposts@.skip(i as int), p) {
                Some(k) => Some((k + i) as nat),
                None => None,
            }),
        decreases session.outposts@.len() - i,
    {
        proof {
            lemma_find_skip(session.outposts@, i as int, p);
        }
        if session.outposts[i].pos == pos {
            return Some(i);
        }
        i += 1;
    }
    assert(session.outposts@.skip(i as int).len() == 0);
    None
}

/// Which way the worm travels, as the ledger says it.
pub open spec fn direction_text(d: TransitDirection) -> Seq<char> {
    match d {
        TransitDirection::ToOutpost => "outbound"@,
        TransitDirection::ToShrine => "returning"@,
    }
}

fn direction_label(d: TransitDirection) -> (s: &'static str)
    ensures
        s@ == direction_text(d),
{
    match d {
        TransitDirection::ToOutpost => "outbound",
        TransitDirection::ToShrine => "returning",
    }
}

/// The transit line: the worm's route, direction and whole seconds left.
pub open spec fn transit_text(session: GameSession) -> Option<Seq<char>> {
    match session.worm_transit {
        None => None,
        Some(t) => {
            let route = match route_index(session, t.outpost) {
                Some(i) => "Route "@ + dec(i + 1),
                None => "Route at ("@ + idec(t.outpost.x as int) + ", "@ + idec(t.outpost.y as int) + ")"@,
            };
            let remaining: int = if t.remaining_milli > 0 { t.remaining_milli as int } else { 0 };
            Some("Worm in transit · "@ + route + " "@ + direction_text(t.direction) + " · "@ + milli_text(remaining)
                + "s remaining"@)
        },
    }
}

/// Where the worm is travelling and how long until it arrives.
pub fn worm_transit_summary(session: &GameSession) -> (res: Option<String>)
    ensures
        text_of(res) == transit_text(*session),
{
    let transit = match &session.worm_transit {
        Some(t) => t,
        None => return None,
    };
    let mut s = "Worm in transit · ".to_owned();
    match route_position(session, transit.outpost) {
        Some(i) => {
            let count = session.outposts.len();
            assert(i < count);
            s.append("Route ");
            push_dec(&mut s, (i + 1) as u64);
        },
        None => {
            s.append("Route at (");
            push_idec(&mut s, transit.outpost.x as i64);
            s.append(", ");
            push_idec(&mut s, transit.outpost.y as i64);
            s.append(")");
        },
    }
    s.append(" ");
    s.append(direction_label(transit.direction));
    s.append(" · ");
    let remaining = if transit.remaining_milli > 0 { transit.remaining_milli } else { 0 };
    push_dec(&mut s, round_milli_exec(remaining));
    s.append("s remaining");
    Some(s)
}

/// The automatic-jobs line of the ledger.
pub open spec fn automatic_text(session: GameSession) -> Seq<char> {
    if session.worm_transit is Some {
        "Automatic jobs · waiting for Worm"@
    } else {
        match session.automatic_preview {
            None => "Automatic jobs · none ready"@,
            Some(p) => "Next automatic · "@ + (match route_index(session, p.outpost) {
                Some(i) => "Route "@ + dec(i + 1),
                None => "Route"@,
            }) + " · "@ + p.job_label@,
        }
    }
}

/// The next job the automatic route planner would run.
pub fn automatic_route_summary(session: &GameSession, data: &GameData) -> (s: String)
    ensures
        s@ == automatic_text(*session),
{
    if session.worm_transit.is_some() {
        return "Automatic jobs · waiting for Worm".to_owned();
    }
    let preview = match &session.automatic_preview {
        Some(p) => p,
        None => return "Automatic jobs · none ready".to_owned(),
    };
    let mut s = "Next automatic · ".to_owned();
    match route_position(session, preview.outpost) {
        Some(i) => {
            let count = session.outposts.len();
            assert(i < count);
            s.append("Route ");
            push_dec(&mut s, (i + 1) as u64);
        },
        None => {
            s.append("Route");
        },
    }
    s.append(" · ");
    s.append(preview.job_label.as_str());
    s
}

/// Whole units of a fractional amount, as a saturating conversion to `u32`
/// (negative amounts count as none).
pub open spec fn whole_units(m: int) -> nat {
    if m <= 0 { 0 } else { min_cap((m / 1000) as nat, u32::MAX as nat) }
}

/// The worm's load on the metrics line while it travels a route.
pub open spec fn transit_metrics_text(t: WormTransit) -> Seq<char> {
    let cargo = min_cap(min_cap((t.ore + t.ingots) as nat, u32::MAX as nat) + whole_units(t.food_milli as int), u32::MAX as nat);
    direction_text(t.direction) + " · "@ + dec(cargo) + " cargo · "@ + dec(t.passengers as nat) + " crew"@
}

/// The metrics line of a route card.
pub open spec fn metrics_text(session: GameSession, o: Outpost) -> Seq<char> {
    match session.worm_transit {
        Some(t) if t.outpost == o.pos => transit_metrics_text(t),
        _ => card_metrics_text(o),
    }
}

/// The survey yield a route card shows.
pub open spec fn survey_text(o: Outpost) -> Seq<char> {
    if o.deep_survey_upgraded {
        " · Deep yield "@ + dec(o.readout.ore_per_crew as nat) + "/scout"@
    } else if o.survey_upgraded {
        " · Yield "@ + dec(o.readout.ore_per_crew as nat) + "/scout"@
    } else {
        Seq::<char>::empty()
    }
}

/// The Signal Cache earnings a route card shows.
pub open spec fn cache_text(o: Outpost) -> Seq<char> {
    if o.signal_cache_upgraded {
        " · Cache +"@ + dec(o.readout.cache_ingots_per_haul as nat) + "/haul · Kept "@ + dec(o.signal_cache_ingots as nat)
    } else {
        Seq::<char>::empty()
    }
}

/// The resonance beacon's cycle a route card shows.
pub open spec fn cycle_text(o: Outpost) -> Seq<char> {
    if o.resonator_upgraded {
        " · Cycle "@ + milli_text(o.readout.cycle_milli as int) + "s"@
    } else {
        Seq::<char>::empty()
    }
}

/// The scouting progress a route card shows.
pub open spec fn scout_text(o: Outpost) -> Seq<char> {
    match o.readout.expedition {
        ExpeditionState::Scouting { progress_percent, .. } => " · Scout "@ + dec(progress_percent as nat) + "%"@,
        _ => Seq::<char>::empty(),
    }
}

/// The metrics line of a route card while the worm is elsewhere.
pub open spec fn card_metrics_text(o: Outpost) -> Seq<char> {
    "Cargo "@ + ratio(o.cargo_total as nat, o.readout.storage_capacity as nat) + " · Crew "@
        + ratio(o.crew as nat, o.readout.crew_capacity as nat) + survey_text(o) + cache_text(o) + cycle_text(o)
        + scout_text(o)
}

fn push_survey(s: &mut String, o: &Outpost)
    ensures
        final(s)@ == old(s)@ + survey_text(*o),
{
    let ghost before = s@;
    if o.deep_survey_upgraded {
        s.append(" · Deep yield ");
        push_dec(s, o.readout.ore_per_crew as u64);
        s.append("/scout");
    } else if o.survey_upgraded {
        s.append(" · Yield ");
        push_dec(s, o.readout.ore_per_crew as u64);
        s.append("/scout");
    }
    assert(s@ =~= before + survey_text(*o));
}

fn push_cache(s: &mut String, o: &Outpost)
    ensures
        final(s)@ == old(s)@ + cache_text(*o),
{
    let ghost before = s@;
    if o.signal_cache_upgraded {
        s.append(" · Cache +");
        push_dec(s, o.readout.cache_ingots_per_haul as u64);
        s.append("/haul · Kept ");
        push_dec(s, o.signal_cache_ingots as u64);
    }
    assert(s@ =~= before + cache_text(*o));
}

fn push_cycle(s: &mut String, o: &Outpost)
    ensures
        final(s)@ == old(s)@ + cycle_text(*o),
{
    let ghost before = s@;
    if o.resonator_upgraded {
        s.append(" · Cycle ");
        push_dec(s, round_milli_u64(o.readout.cycle_milli));
        s.append("s");
    }
    assert(s@ =~= before + cycle_text(*o));
}

fn push_scout(s: &mut String, o: &Outpost)
    ensures
        final(s)@ == old(s)@ + scout_text(*o),
{
    let ghost before = s@;
    match o.readout.expedition {
        ExpeditionState::Scouting { progress_percent, .. } => {
            s.append(" · Scout ");
            push_dec(s, progress_percent as u64);
            s.append("%");
        },
        _ => {},
    }
    assert(s@ =~= before + scout_text(*o));
}

fn card_metrics(outpost: &Outpost) -> (s: String)
    ensures
        s@ == card_metrics_text(*outpost),
{
    let r = &outpost.readout;
    let mut s = "Cargo ".to_owned();
    push_ratio(&mut s, outpost.cargo_total as u64, r.storage_capacity as u64);
    s.append(" · Crew ");
    push_ratio(&mut s, outpost.crew as u64, r.crew_capacity as u64);
    push_survey(&mut s, outpost);
    push_cache(&mut s, outpost);
    push_cycle(&mut s, outpost);
    push_scout(&mut s, outpost);
    s
}

fn transit_metrics(t: &WormTransit) -> (s: String)
    ensures
        s@ == transit_metrics_text(*t),
{
    let food: u32 = if t.food_milli <= 0 {
        0
    } else if t.food_milli / 1000 > u32::MAX as i64 {
        u32::MAX
    } else {
        (t.food_milli / 1000) as u32
    };
    let cargo = t.ore.saturating_add(t.ingots).saturating_add(food);
    let mut s = direction_label(t.direction).to_owned();
    s.append(" · ");
    push_dec(&mut s, cargo as u64);
    s.append(" cargo · ");
    push_dec(&mut s, t.passengers as u64);
    s.append(" crew");
    s
}

/// The metrics line of a route card: the worm's load while it travels this
/// route, otherwise hold and camp use, upgrades and scouting progress.
pub fn route_metrics(session: &GameSession, data: &GameData, outpost: &Outpost) -> (s: String)
    ensures
        s@ == metrics_text(*session, *outpost),
{
    match &session.worm_transit {
        Some(t) => {
            if t.outpost == outpost.pos {
                return transit_metrics(t);
            }
        },
        None => {},
    }
    card_metrics(outpost)
}

/// The automation policy of a route.
pub open spec fn policy_text(o: Outpost) -> Seq<char> {
    if o.expedition_paused {
        "Scouting paused"@
    } else if o.auto_load {
        if o.auto_return_cargo {
            if o.auto_resupply_food { "Auto-load · Auto-return · Auto-resupply"@ } else { "Auto-load · Auto-return"@ }
        } else {
            if o.auto_resupply_food { "Auto-load · Auto-resupply"@ } else { "Auto-load route"@ }
        }
    } else if o.auto_return_cargo {
        if o.auto_resupply_food { "Auto cargo return · Auto food resupply"@ } else { "Auto cargo return"@ }
    } else {
        if o.auto_resupply_food { "Auto food resupply"@ } else { "Manual route"@ }
    }
}

/// The automation policy of a route; a paused expedition outranks every
/// automatic choice.
pub fn route_policy_label(outpost: &Outpost) -> (s: &'static str)
    ensures
        s@ == policy_text(*outpost),
{
    if outpost.expedition_paused {
        "Scouting paused"
    } else if outpost.auto_load {
        if outpost.auto_return_cargo {
            if outpost.auto_resupply_food { "Auto-load · Auto-return · Auto-resupply" } else { "Auto-load · Auto-return" }
        } else {
            if outpost.auto_resupply_food { "Auto-load · Auto-resupply" } else { "Auto-load route" }
        }
    } else if outpost.auto_return_cargo {
        if outpost.auto_resupply_food { "Auto cargo return · Auto food resupply" } else { "Auto cargo return" }
    } else {
        if outpost.auto_resupply_food { "Auto food resupply" } else { "Manual route" }
    }
}

/// The short automation policy used on compact cards with a Signal Cache.
pub open spec fn short_policy_text(o: Outpost) -> Seq<char> {
    if o.expedition_paused {
        "Paused"@
    } else if o.auto_load {
        if o.auto_return_cargo {
            if o.auto_resupply_food { "Auto-load + return + food"@ } else { "Auto-load + return"@ }
        } else {
            if o.auto_resupply_food { "Auto-load + food"@ } else { "Auto-load"@ }
        }
    } else if o.auto_return_cargo {
        if o.auto_resupply_food { "Auto return + food"@ } else { "Auto return"@ }
    } else {
        if o.auto_resupply_food { "Auto food"@ } else { "Manual"@ }
    }
}

fn short_policy_label(o: &Outpost) -> (s: &'static str)
    ensures
        s@ == short_policy_text(*o),
{
    if o.expedition_paused {
        "Paused"
    } else if o.auto_load {
        if o.auto_return_cargo {
            if o.auto_resupply_food { "Auto-load + return + food" } else { "Auto-load + return" }
        } else {
            if o.auto_resupply_food { "Auto-load + food" } else { "Auto-load" }
        }
    } else if o.auto_return_cargo {
        if o.auto_resupply_food { "Auto return + food" } else { "Auto return" }
    } else {
        if o.auto_resupply_food { "Auto food" } else { "Manual" }
    }
}

/// The compact metrics line of a route card.
pub open spec fn compact_metrics_text(o: Outpost) -> Seq<char> {
    ratio(o.cargo_total as nat, o.readout.storage_capacity as nat) + " cargo · "@
        + ratio(o.crew as nat, o.readout.crew_capacity as nat) + " crew"@
}

/// Hold and camp use on a compact route card.
pub fn compact_route_metrics(session: &GameSession, data: &GameData, outpost: &Outpost) -> (s: String)
    ensures
        s@ == compact_metrics_text(*outpost),
{
    let mut s = String::new();
    push_ratio(&mut s, outpost.cargo_total as u64, outpost.readout.storage_capacity as u64);
    s.append(" cargo · ");
    push_ratio(&mut s, outpost.crew as u64, outpost.readout.crew_capacity as u64);
    s.append(" crew");
    assert(s@ =~= compact_metrics_text(*outpost));
    s
}

/// The Worm Road Waypoint's transit time on a route card.
pub open spec fn waypoint_text(o: Outpost, compact: bool) -> Seq<char> {
    if o.waypoint_upgraded {
        if compact {
            " · Waypoint "@ + milli_text(o.readout.transit_milli as int) + "s"@
        } else {
            " · Waypoint "@ + milli_text(o.readout.transit_milli as int) + "s transit"@
        }
    } else {
        Seq::<char>::empty()
    }
}

/// The automation part of the policy line.
pub open spec fn policy_part_text(o: Outpost, compact: bool) -> Seq<char> {
    if !compact || !o.signal_cache_upgraded {
        policy_text(o) + waypoint_text(o, compact)
    } else {
        short_policy_text(o) + " · Cache +"@ + dec(o.readout.cache_ingots_per_haul as nat) + " · Kept "@
            + dec(o.signal_cache_ingots as nat) + waypoint_text(o, compact)
    }
}

/// The bonus a route card names after its policy, if any.
pub open spec fn bonus_text(o: Outpost, compact: bool) -> Option<Seq<char>> {
    if compact {
        if o.readout.chorus_ingots_per_haul > 0 {
            Some("Chorus +"@ + dec(o.readout.chorus_ingots_per_haul as nat) + "/haul"@)
        } else if o.readout.wormsong_bonus {
            Some("Wormsong"@)
        } else {
            None
        }
    } else {
        text_of(o.readout.bonus_summary)
    }
}

/// The policy line of a route card.
pub open spec fn policy_summary_text(o: Outpost, compact: bool) -> Seq<char> {
    match bonus_text(o, compact) {
        Some(b) => policy_part_text(o, compact) + " · "@ + b,
        None => policy_part_text(o, compact),
    }
}

fn push_waypoint(s: &mut String, o: &Outpost, compact: bool)
    ensures
        final(s)@ == old(s)@ + waypoint_text(*o, compact),
{
    let ghost before = s@;
    if o.waypoint_upgraded {
        s.append(" · Waypoint ");
        push_dec(s, round_milli_u64(o.readout.transit_milli));
        if compact {
            s.append("s");
        } else {
            s.append("s transit");
        }
    }
    assert(s@ =~= before + waypoint_text(*o, compact));
}

fn policy_part(o: &Outpost, compact: bool) -> (s: String)
    ensures
        s@ == policy_part_text(*o, compact),
{
    if !compact || !o.signal_cache_upgraded {
        let mut s = route_policy_label(o).to_owned();
        push_waypoint(&mut s, o, compact);
        s
    } else {
        let mut s = short_policy_label(o).to_owned();
        s.append(" · Cache +");
        push_dec(&mut s, o.readout.cache_ingots_per_haul as u64);
        s.append(" · Kept ");
        push_dec(&mut s, o.signal_cache_ingots as u64);
        push_waypoint(&mut s, o, compact);
        s
    }
}

fn bonus_label(o: &Outpost, compact: bool) -> (res: Option<String>)
    ensures
        text_of(res) == bonus_text(*o, compact),
{
    if compact {
        if o.readout.chorus_ingots_per_haul > 0 {
            let mut b = "Chorus +".to_owned();
            push_dec(&mut b, o.readout.chorus_ingots_per_haul as u64);
            b.append("/haul");
            Some(b)
        } else if o.readout.wormsong_bonus {
            Some("Wormsong".to_owned())
        } else {
            None
        }
    } else {
        o.readout.bonus_summary.clone()
    }
}

/// The policy line of a route card: automation, the Worm Road Waypoint's
/// transit time, Signal Cache earnings on compact cards, and any bonus.
pub fn route_policy_summary(session: &GameSession, outpost: &Outpost, data: &GameData, compact: bool) -> (s: String)
    ensures
        s@ == policy_summary_text(*outpost, compact),
{
    let mut s = policy_part(outpost, compact);
    match bonus_label(outpost, compact) {
        Some(b) => {
            s.append(" · ");
            s.append(b.as_str());
        },
        None => {},
    }
    s
}

/// How many rows of cards the route ledger needs (at least one).
pub fn route_ledger_rows(route_count: usize) -> (rows: usize)
    ensures
        rows == (if route_count == 0 {
            1
        } else {
            let cols: int = if route_count > 6 { 4 } else { 3 };
            (route_count + cols - 1) / cols
        }),
{
    let cols = route_column_count(route_count);
    if route_count == 0 {
        1
    } else {
        route_count / cols + if route_count % cols > 0 { 1 } else { 0 }
    }
}

/// The column and row of route `index`'s card in the ledger, filling rows
/// left to right.
pub fn route_card_cell(index: usize, route_count: usize) -> (cell: (usize, usize))
    ensures
        ({
            let cols: int = if route_count > 6 { 4 } else { 3 };
            cell.0 == (index as int) % cols && cell.1 == (index as int) / cols
        }),
{
    let cols = route_column_count(route_count);
    (index % cols, index / cols)
}

/// An optional ledger line in the given tone.
pub open spec fn opt_line(t: Option<Seq<char>>, tone: Tone) -> Seq<(Seq<char>, Tone)> {
    match t {
        Some(x) => seq![(x, tone)],
        None => Seq::empty(),
    }
}

/// The contract and transit lines under the ledger's summary: each
/// contract that has a line, then the worm's transit.
pub open spec fn ledger_lines(session: GameSession, data: GameData) -> Seq<(Seq<char>, Tone)> {
    opt_line(relay_text(session, data), Tone::Positive) + opt_line(convoy_text(session, data), Tone::Positive)
        + opt_line(muster_text(session, data), Tone::Positive) + opt_line(concord_text(session, data), Tone::Positive)
        + opt_line(circuit_text(session, data), Tone::Positive) + opt_line(encore_text(session, data), Tone::Positive)
        + opt_line(chorus_text(session, data), Tone::Positive) + opt_line(transit_text(session), Tone::Warning)
}

fn push_line(lines: &mut Vec<(String, Tone)>, line: Option<String>, tone: Tone)
    ensures
        final(lines)@.map_values(|l: (String, Tone)| (l.0@, l.1)) == old(lines)@.map_values(
            |l: (String, Tone)| (l.0@, l.1),
        ) + opt_line(text_of(line), tone),
{
    let ghost before = lines@.map_values(|l: (String, Tone)| (l.0@, l.1));
    match line {
        Some(s) => {
            lines.push((s, tone));
        },
        None => {},
    }
    assert(lines@.map_values(|l: (String, Tone)| (l.0@, l.1)) =~= before + opt_line(text_of(line), tone));
}

/// The ledger's contract lines and the worm's transit, in the tone each is
/// drawn in.
pub fn ledger_contract_lines(session: &GameSession, data: &GameData) -> (lines: Vec<(String, Tone)>)
    requires
        chorus_kept_fits(*session, *data),
    ensures
        lines@.map_values(|l: (String, Tone)| (l.0@, l.1)) == ledger_lines(*session, *data),
{
    let mut lines: Vec<(String, Tone)> = Vec::new();
    assert(lines@.map_values(|l: (String, Tone)| (l.0@, l.1)) =~= Seq::<(Seq<char>, Tone)>::empty());
    push_line(&mut lines, relay_contract_summary(session, data), Tone::Positive);
    push_line(&mut lines, convoy_contract_summary(session, data), Tone::Positive);
    push_line(&mut lines, muster_contract_summary(session, data), Tone::Positive);
    push_line(&mut lines, concord_contract_summary(session, data), Tone::Positive);
    push_line(&mut lines, circuit_contract_summary(session, data), Tone::Positive);
    push_line(&mut lines, encore_contract_summary(session, data), Tone::Positive);
    push_line(&mut lines, chorus_contract_summary(session, data), Tone::Positive);
    push_line(&mut lines, worm_transit_summary(session), Tone::Warning);
    assert(lines@.map_values(|l: (String, Tone)| (l.0@, l.1)) =~= ledger_lines(*session, *data));
    lines
}

} // verus!
