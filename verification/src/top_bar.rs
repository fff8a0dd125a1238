//! Compact and desktop top-bar status copy for food, raids, and workforce.

use vstd::prelude::*;
use crate::model::{GameData, GameSession, Job, job_label, job_count, local_count, remote_count, reassignable};
use crate::guidance::{first_free_source, first_reassignable_source};
use crate::text::{dec, milli_text, push_dec, round_milli_exec, text_of};
use crate::routes::min_cap;

pub use crate::guidance::reassignable_job_count;

verus! {

/// The population readout: local creatures against warren room, idle
/// workers, and remote workers once there are any.
pub open spec fn population_text(session: GameSession) -> Seq<char> {
    let base = "POP "@ + dec(local_count(session)) + "/"@ + dec(session.warren_capacity as nat) + " · IDLE "@
        + dec(job_count(session, Job::Idle));
    if remote_count(session) > 0 {
        base + " · REMOTE "@ + dec(remote_count(session))
    } else {
        base
    }
}

/// Compact population readout for the quiet top-left corner of the map HUD.
/// Local room and idle workers are the two values that most often require a
/// decision; remote workers only appear after the Warren has outposts.
pub fn population_stats(session: &GameSession, data: &GameData) -> (s: String)
    ensures
        s@ == population_text(*session),
{
    let local = session.local_creature_count();
    let capacity = session.warren_capacity;
    let idle = session.job_count(Job::Idle);
    let remote = session.remote_creature_count();
    let mut s = "POP ".to_owned();
    push_dec(&mut s, local as u64);
    s.append("/");
    push_dec(&mut s, capacity as u64);
    s.append(" · IDLE ");
    push_dec(&mut s, idle as u64);
    if remote > 0 {
        s.append(" · REMOTE ");
        push_dec(&mut s, remote as u64);
    }
    s
}

/// The jobs a Guard may be drawn from, in the order the banners try them.
pub open spec fn raid_sources() -> Seq<Job> {
    seq![Job::Miner, Job::Carrier, Job::Cook, Job::Smith]
}

/// The jobs a Carrier may be drawn from, in the order the banners try them.
pub open spec fn food_sources() -> Seq<Job> {
    seq![Job::Miner, Job::Smith, Job::Guard]
}

/// The short raid banner.
pub open spec fn compact_raid_text(session: GameSession, data: GameData) -> Seq<char> {
    if reassignable(session, data, Job::Guard) > 0 {
        "guards on watch"@
    } else if reassignable(session, data, Job::Idle) > 0 {
        "tap + Guard"@
    } else {
        match first_free_source(session, data, raid_sources()) {
            Some(j) => "tap − "@ + job_label(j) + ", then + Guard"@,
            None => "free a worker, then + Guard"@,
        }
    }
}

/// Keep a combined food/raid banner short while naming the visible Guard
/// control that resolves the incoming threat.
pub fn compact_raid_defense_hint(session: &GameSession, data: &GameData) -> (s: String)
    ensures
        s@ == compact_raid_text(*session, *data),
{
    if reassignable_job_count(session, data, Job::Guard) > 0 {
        return "guards on watch".to_owned();
    }
    if reassignable_job_count(session, data, Job::Idle) > 0 {
        return "tap + Guard".to_owned();
    }
    let sources = [Job::Miner, Job::Carrier, Job::Cook, Job::Smith];
    assert(sources@ =~= raid_sources());
    match first_reassignable_source(session, data, &sources) {
        Some(j) => {
            let mut s = "tap − ".to_owned();
            s.append(j.label());
            s.append(", then + Guard");
            s
        },
        None => "free a worker, then + Guard".to_owned(),
    }
}

/// The short food-recovery banner.
pub open spec fn compact_food_text(session: GameSession, data: GameData) -> Seq<char> {
    if reassignable(session, data, Job::Idle) > 0 {
        "tap + Carrier or Cook"@
    } else {
        match first_free_source(session, data, food_sources()) {
            Some(j) => "tap − "@ + job_label(j) + ", then + Carrier"@,
            None => "free a worker, then + Carrier"@,
        }
    }
}

/// Shorten the opening response enough to share the top bar with its buttons.
/// The full control names remain in the tutorial card beside the banner.
pub fn compact_food_recovery_hint(session: &GameSession, data: &GameData) -> (s: String)
    ensures
        s@ == compact_food_text(*session, *data),
{
    if reassignable_job_count(session, data, Job::Idle) > 0 {
        return "tap + Carrier or Cook".to_owned();
    }
    let sources = [Job::Miner, Job::Smith, Job::Guard];
    assert(sources@ =~= food_sources());
    match first_reassignable_source(session, data, &sources) {
        Some(j) => {
            let mut s = "tap − ".to_owned();
            s.append(j.label());
            s.append(", then + Carrier");
            s
        },
        None => "free a worker, then + Carrier".to_owned(),
    }
}

/// The condensed raid banner for a letterboxed canvas.
pub open spec fn condensed_raid_text(session: GameSession, data: GameData) -> Seq<char> {
    if reassignable(session, data, Job::Guard) > 0 {
        "guards ready"@
    } else if reassignable(session, data, Job::Idle) > 0 {
        "tap + Guard"@
    } else {
        match first_free_source(session, data, raid_sources()) {
            Some(j) => "tap −"@ + job_label(j) + "→+Guard"@,
            None => "free worker→+Guard"@,
        }
    }
}

/// Compress alert guidance when the fixed HUD is letterboxed into a narrow
/// browser canvas; these banners only need to identify the next visible
/// control.
pub fn condensed_raid_defense_hint(session: &GameSession, data: &GameData) -> (s: String)
    ensures
        s@ == condensed_raid_text(*session, *data),
{
    if reassignable_job_count(session, data, Job::Guard) > 0 {
        return "guards ready".to_owned();
    }
    if reassignable_job_count(session, data, Job::Idle) > 0 {
        return "tap + Guard".to_owned();
    }
    let sources = [Job::Miner, Job::Carrier, Job::Cook, Job::Smith];
    assert(sources@ =~= raid_sources());
    match first_reassignable_source(session, data, &sources) {
        Some(j) => {
            let mut s = "tap −".to_owned();
            s.append(j.label());
            s.append("→+Guard");
            s
        },
        None => "free worker→+Guard".to_owned(),
    }
}

/// The condensed food-recovery banner for a letterboxed canvas.
pub open spec fn condensed_food_text(session: GameSession, data: GameData) -> Seq<char> {
    if reassignable(session, data, Job::Idle) > 0 {
        "tap + Carrier/Cook"@
    } else {
        match first_free_source(session, data, food_sources()) {
            Some(j) => "tap −"@ + job_label(j) + "→+Carrier"@,
            None => "free worker→+Carrier"@,
        }
    }
}

/// The condensed food-recovery banner.
pub fn condensed_food_recovery_hint(session: &GameSession, data: &GameData) -> (s: String)
    ensures
        s@ == condensed_food_text(*session, *data),
{
    if reassignable_job_count(session, data, Job::Idle) > 0 {
        return "tap + Carrier/Cook".to_owned();
    }
    let sources = [Job::Miner, Job::Smith, Job::Guard];
    assert(sources@ =~= food_sources());
    match first_reassignable_source(session, data, &sources) {
        Some(j) => {
            let mut s = "tap −".to_owned();
            s.append(j.label());
            s.append("→+Carrier");
            s
        },
        None => "free worker→+Carrier".to_owned(),
    }
}

/// The Engineer readout of the Jobs panel.
pub open spec fn engineer_text(local: nat, total: nat) -> Seq<char> {
    if local > 0 {
        "Engineer "@ + dec(local) + " local · Mine +25%"@
    } else if total > 0 {
        "Engineer 0 local · "@ + dec(total) + " posted"@
    } else {
        "Engineer 0 · no local bonus"@
    }
}

/// Distinguish Engineers working in the warren (who speed up Mines) from
/// those posted on remote routes.
pub fn engineer_status_label(local: usize, total: usize) -> (s: String)
    ensures
        s@ == engineer_text(local as nat, total as nat),
{
    if local > 0 {
        let mut s = "Engineer ".to_owned();
        push_dec(&mut s, local as u64);
        s.append(" local · Mine +25%");
        s
    } else if total > 0 {
        let mut s = "Engineer 0 local · ".to_owned();
        push_dec(&mut s, total as u64);
        s.append(" posted");
        s
    } else {
        "Engineer 0 · no local bonus".to_owned()
    }
}

/// The capacity line of the Jobs panel.
pub open spec fn capacity_text(session: GameSession) -> Seq<char> {
    "Idle "@ + dec(job_count(session, Job::Idle)) + " · Local "@ + dec(local_count(session)) + "/"@
        + dec(session.warren_capacity as nat)
}

/// Idle workers and local creatures against the room the warren offers.
pub fn workforce_capacity_label(session: &GameSession, data: &GameData) -> (s: String)
    ensures
        s@ == capacity_text(*session),
{
    let mut s = "Idle ".to_owned();
    push_dec(&mut s, session.job_count(Job::Idle) as u64);
    s.append(" · Local ");
    push_dec(&mut s, session.local_creature_count() as u64);
    s.append("/");
    push_dec(&mut s, session.warren_capacity as u64);
    s
}

/// The crowding and wellbeing warning of the Jobs panel, from the local
/// creatures against the warren's room, whether any local creature's morale
/// is still recovering, the average morale in whole percent, and the work
/// penalty crowding causes in whole percent (shown at most 65).
pub open spec fn pressure_text(session: GameSession, morale_recovering: bool, morale_percent: nat, work_penalty_percent: nat) -> Option<Seq<char>> {
    let local = local_count(session);
    let capacity = session.warren_capacity as nat;
    if local == 0 || (local <= capacity && !morale_recovering) {
        None
    } else if local <= capacity {
        Some("Wellbeing recovering · morale "@ + dec(morale_percent) + "% · work speed returns"@)
    } else {
        Some("Crowded · work −"@ + dec(min_cap(work_penalty_percent, 65)) + "% · morale "@ + dec(morale_percent)
            + "% · tap Dig"@)
    }
}

/// Warn when the warren is crowded or its creatures' wellbeing is still
/// recovering; nothing while there is room and everyone is settled.
pub fn workforce_pressure_label(
    session: &GameSession,
    morale_recovering: bool,
    morale_percent: u32,
    work_penalty_percent: u32,
) -> (res: Option<String>)
    ensures
        text_of(res) == pressure_text(*session, morale_recovering, morale_percent as nat, work_penalty_percent as nat),
{
    let local = session.local_creature_count();
    let capacity = session.warren_capacity;
    if local == 0 || (local <= capacity && !morale_recovering) {
        return None;
    }
    if local <= capacity {
        let mut s = "Wellbeing recovering · morale ".to_owned();
        push_dec(&mut s, morale_percent as u64);
        s.append("% · work speed returns");
        return Some(s);
    }
    let penalty = if work_penalty_percent > 65 { 65 } else { work_penalty_percent };
    let mut s = "Crowded · work −".to_owned();
    push_dec(&mut s, penalty as u64);
    s.append("% · morale ");
    push_dec(&mut s, morale_percent as u64);
    s.append("% · tap Dig");
    Some(s)
}

/// How strongly the top bar draws its banner.
#[derive(Debug, Clone, Copy, PartialEq, Eq, Structural)]
pub enum Emphasis {
    Quiet,
    Positive,
    Warning,
    Negative,
}

/// The food store will run out within the warning window.
pub open spec fn food_running_out(session: GameSession, data: GameData) -> bool {
    session.food_empty_in_milli matches Some(t) && t <= data.balance.food_warning_milli
}

/// The next raid is within the warning window.
pub open spec fn raid_soon(session: GameSession, data: GameData) -> bool {
    session.raid_in_milli <= data.balance.raid_warning_milli
}

/// The raid banner's food suffix: famine, or the food clock when the store
/// is running out.
pub open spec fn raid_food_suffix(session: GameSession, data: GameData, compact: bool, food_clock: Seq<char>) -> Seq<char> {
    if session.economy.food_milli <= 0 {
        " · FAMINE"@
    } else if food_running_out(session, data) {
        if compact { " · FOOD "@ + food_clock } else { " · FOOD IN "@ + food_clock }
    } else {
        Seq::<char>::empty()
    }
}

/// The top bar's banner, most urgent first: an unsaved-checkpoint warning,
/// the pause, the worm in transit, a failed route, a raid under way, famine,
/// food running out (with an incoming raid), an incoming raid, and otherwise
/// the map controls. `food_clock` and `raid_clock` are the times left, as
/// the clock prints them.
pub open spec fn banner_text(
    session: GameSession,
    data: GameData,
    compact: bool,
    checkpoint_warning: Option<Seq<char>>,
    paused: bool,
    food_clock: Seq<char>,
    raid_clock: Seq<char>,
) -> (Seq<char>, Emphasis) {
    if checkpoint_warning is Some {
        (checkpoint_warning->0, Emphasis::Negative)
    } else if paused {
        (if compact { "PAUSED — tap Resume"@ } else { "PAUSED — tap Resume to continue"@ }, Emphasis::Warning)
    } else if session.worm_transit is Some {
        let t = session.worm_transit->0;
        let left = milli_text(if t.remaining_milli > 0 { t.remaining_milli as int } else { 0 });
        (
            if compact { "WORM TRANSIT — "@ + left + "s"@ } else { "WORM TRANSIT — "@ + left + "s remaining"@ },
            Emphasis::Positive,
        )
    } else if session.last_transit_failure {
        (
            if compact { "ROUTE FAILED — tap Outpost"@ } else { "WORM ROUTE FAILED — inspect the outpost"@ },
            Emphasis::Negative,
        )
    } else if session.raid_active {
        let suffix = raid_food_suffix(session, data, compact, food_clock);
        (
            if compact {
                "RAID — "@ + condensed_raid_text(session, data) + suffix
            } else {
                "RAID — gnarls are after the larder! "@ + compact_raid_text(session, data) + suffix
            },
            Emphasis::Negative,
        )
    } else if session.economy.food_milli <= 0 {
        (
            if compact { "FAMINE — workers slowing"@ } else { "FAMINE — workers are slowing down"@ },
            Emphasis::Negative,
        )
    } else if food_running_out(session, data) {
        if raid_soon(session, data) {
            (
                if compact {
                    "FOOD "@ + food_clock + " · RAID "@ + raid_clock + " · "@ + condensed_raid_text(session, data)
                } else {
                    "FOOD IN "@ + food_clock + " · RAID IN "@ + raid_clock + " · "@ + compact_raid_text(session, data)
                },
                Emphasis::Warning,
            )
        } else {
            (
                if compact {
                    "FOOD "@ + food_clock + " · "@ + condensed_food_text(session, data)
                } else {
                    "FOOD IN "@ + food_clock + " · "@ + compact_food_text(session, data)
                },
                Emphasis::Warning,
            )
        }
    } else if raid_soon(session, data) {
        (
            if compact {
                "RAID "@ + raid_clock + " · "@ + condensed_raid_text(session, data)
            } else {
                "RAID IN "@ + raid_clock + " — "@ + compact_raid_text(session, data)
            },
            Emphasis::Warning,
        )
    } else {
        ("Drag map · +/− zoom · tap Help"@, Emphasis::Quiet)
    }
}

fn food_running_out_exec(session: &GameSession, data: &GameData) -> (r: bool)
    ensures
        r == food_running_out(*session, *data),
{
    match session.food_empty_in_milli {
        Some(t) => t <= data.balance.food_warning_milli,
        None => false,
    }
}

/// The raid hint the banner names: condensed on a compact canvas.
fn raid_hint(session: &GameSession, data: &GameData, compact: bool) -> (s: String)
    ensures
        s@ == (if compact { condensed_raid_text(*session, *data) } else { compact_raid_text(*session, *data) }),
{
    if compact {
        condensed_raid_defense_hint(session, data)
    } else {
        compact_raid_defense_hint(session, data)
    }
}

/// The top bar's one-line banner and how strongly to draw it.
pub fn top_bar_banner(
    session: &GameSession,
    data: &GameData,
    compact: bool,
    checkpoint_warning: Option<&str>,
    paused: bool,
    food_clock: &str,
    raid_clock: &str,
) -> (res: (String, Emphasis))
    ensures
        (res.0@, res.1) == banner_text(
            *session,
            *data,
            compact,
            match checkpoint_warning {
                Some(w) => Some(w@),
                None => None,
            },
            paused,
            food_clock@,
            raid_clock@,
        ),
{
    if let Some(w) = checkpoint_warning {
        return (w.to_owned(), Emphasis::Negative);
    }
    if paused {
        let s = if compact { "PAUSED — tap Resume" } else { "PAUSED — tap Resume to continue" };
        return (s.to_owned(), Emphasis::Warning);
    }
    if let Some(t) = &session.worm_transit {
        let mut s = "WORM TRANSIT — ".to_owned();
        let left = if t.remaining_milli > 0 { t.remaining_milli } else { 0 };
        push_dec(&mut s, round_milli_exec(left));
        s.append(if compact { "s" } else { "s remaining" });
        return (s, Emphasis::Positive);
    }
    if session.last_transit_failure {
        let s = if compact { "ROUTE FAILED — tap Outpost" } else { "WORM ROUTE FAILED — inspect the outpost" };
        return (s.to_owned(), Emphasis::Negative);
    }
    let food_low = food_running_out_exec(session, data);
    if session.raid_active {
        let mut s = if compact { "RAID — ".to_owned() } else { "RAID — gnarls are after the larder! ".to_owned() };
        let hint = raid_hint(session, data, compact);
        s.append(hint.as_str());
        if session.economy.food_milli <= 0 {
            s.append(" · FAMINE");
        } else if food_low {
            s.append(if compact { " · FOOD " } else { " · FOOD IN " });
            s.append(food_clock);
        }
        return (s, Emphasis::Negative);
    }
    if session.economy.food_milli <= 0 {
        let s = if compact { "FAMINE — workers slowing" } else { "FAMINE — workers are slowing down" };
        return (s.to_owned(), Emphasis::Negative);
    }
    let raid_near = session.raid_in_milli <= data.balance.raid_warning_milli;
    if food_low {
        let mut s = if compact { "FOOD ".to_owned() } else { "FOOD IN ".to_owned() };
        s.append(food_clock);
        if raid_near {
            s.append(if compact { " · RAID " } else { " · RAID IN " });
            s.append(raid_clock);
            s.append(" · ");
            let hint = raid_hint(session, data, compact);
            s.append(hint.as_str());
        } else {
            s.append(" · ");
            let hint = if compact {
                condensed_food_recovery_hint(session, data)
            } else {
                compact_food_recovery_hint(session, data)
            };
            s.append(hint.as_str());
        }
        return (s, Emphasis::Warning);
    }
    if raid_near {
        let mut s = if compact { "RAID ".to_owned() } else { "RAID IN ".to_owned() };
        s.append(raid_clock);
        s.append(if compact { " · " } else { " — " });
        let hint = raid_hint(session, data, compact);
        s.append(hint.as_str());
        return (s, Emphasis::Warning);
    }
    ("Drag map · +/− zoom · tap Help".to_owned(), Emphasis::Quiet)
}

} // verus!
