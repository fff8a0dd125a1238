//! The Jobs panel: one row per assignable job with its count and which of
//! its buttons work, the support and specialist recruits, the Engineer and
//! route roster, and the recruits that are still locked.

use vstd::prelude::*;
use crate::model::{
    Creature, GameData, GameSession, Job, count_where, is_unlocked, job_count, lemma_count_step,
    reassignable,
};
use crate::guidance::{has_building, has_building_of, reassignable_job_count};
use crate::requirements::{requirement_progress_text, unlock_requirement_progress};
use crate::routes::is_active;
use crate::specialists::{
    optional_specialist_button_label, optional_support_button_label, specialist_button_text, support_button_text,
};
use crate::text::{dec, push_dec, str_eq};
use crate::top_bar::{engineer_status_label, engineer_text, raid_soon};

verus! {

/// The jobs the panel lists, top to bottom.
pub open spec fn panel_jobs() -> Seq<Job> {
    seq![Job::Miner, Job::Carrier, Job::Cook, Job::Smith, Job::Guard]
}

/// One row of the Jobs panel.
#[derive(Debug, Clone, Copy)]
pub struct JobRow {
    pub job: Job,
    /// Creatures in the job.
    pub count: usize,
    /// The − button works: the job holds a worker the player may move.
    pub can_unassign: bool,
    /// The + button works: an idle worker the player may move is waiting.
    pub can_assign: bool,
    /// The Guard row is highlighted while a raid is under way or near.
    pub raid_alert: bool,
}

/// What the row of `job` shows.
pub open spec fn row_shows(r: JobRow, session: GameSession, data: GameData, job: Job) -> bool {
    &&& r.job == job
    &&& r.count == job_count(session, job)
    &&& r.can_unassign == (reassignable(session, data, job) > 0)
    &&& r.can_assign == (reassignable(session, data, Job::Idle) > 0)
    &&& r.raid_alert == (job == Job::Guard && (session.raid_active || raid_soon(session, data)))
}

fn job_row(session: &GameSession, data: &GameData, job: Job, can_assign: bool) -> (r: JobRow)
    requires
        can_assign == (reassignable(*session, *data, Job::Idle) > 0),
    ensures
        row_shows(r, *session, *data, job),
{
    let raid = session.raid_active || session.raid_in_milli <= data.balance.raid_warning_milli;
    JobRow {
        job,
        count: session.job_count(job),
        can_unassign: reassignable_job_count(session, data, job) > 0,
        can_assign,
        raid_alert: job == Job::Guard && raid,
    }
}

/// The rows of the Jobs panel, Miner to Guard.
pub fn jobs_panel_rows(session: &GameSession, data: &GameData) -> (rows: Vec<JobRow>)
    ensures
        rows@.len() == panel_jobs().len(),
        forall|i: int| 0 <= i < rows@.len() ==> row_shows(#[trigger] rows@[i], *session, *data, panel_jobs()[i]),
{
    let can_assign = reassignable_job_count(session, data, Job::Idle) > 0;
    let mut rows: Vec<JobRow> = Vec::new();
    rows.push(job_row(session, data, Job::Miner, can_assign));
    rows.push(job_row(session, data, Job::Carrier, can_assign));
    rows.push(job_row(session, data, Job::Cook, can_assign));
    rows.push(job_row(session, data, Job::Smith, can_assign));
    rows.push(job_row(session, data, Job::Guard, can_assign));
    rows
}

/// Creatures of `species`, anywhere or (with `local_only`) in the warren.
pub open spec fn species_count(session: GameSession, species: Seq<char>, local_only: bool) -> nat {
    count_where(session.creatures@, |c: Creature| c.species@ == species && (!local_only || !c.remote))
}

fn count_species(session: &GameSession, species: &str, local_only: bool) -> (n: usize)
    ensures
        n == species_count(*session, species@, local_only),
{
    let ghost p = |c: Creature| c.species@ == species@ && (!local_only || !c.remote);
    let mut n: usize = 0;
    let mut i: usize = 0;
    while i < session.creatures.len()
        invariant
            p == (|c: Creature| c.species@ == species@ && (!local_only || !c.remote)),
            i <= session.creatures@.len(),
            n == count_where(session.creatures@.take(i as int), p),
            n <= i,
        decreases session.creatures@.len() - i,
    {
        proof {
            lemma_count_step(session.creatures@, i as int, p);
        }
        let c = &session.creatures[i];
        if str_eq(c.species.as_str(), species) && (!local_only || !c.remote) {
            n += 1;
        }
        i += 1;
    }
    assert(session.creatures@.take(i as int) =~= session.creatures@);
    n
}

/// A recruit button: its text and whether it can be pressed.
#[derive(Debug, Clone)]
pub struct RecruitButton {
    pub label: String,
    pub enabled: bool,
}

/// The recruit buttons, in panel order: Beetle and Salamander (recruited
/// for ore; a Salamander needs a Smelter Den), then the unique Slime Janitor
/// and Bat Courier posts (open once unlocked and while nobody holds them).
pub open spec fn recruits(session: GameSession, data: GameData) -> Seq<(Seq<char>, bool)> {
    let b = data.balance;
    let ore = session.economy.ore_stock;
    let janitors = species_count(session, "slime_janitor"@, false);
    let couriers = species_count(session, "bat_courier"@, false);
    seq![
        (
            support_button_text("beetle"@, b.beetle_ore_cost as nat, species_count(session, "beetle"@, true), data),
            ore >= b.beetle_ore_cost,
        ),
        (
            support_button_text("salamander"@, b.salamander_ore_cost as nat, species_count(session, "salamander"@, true), data),
            has_building(session, "smelter"@) && ore >= b.salamander_ore_cost,
        ),
        (
            specialist_button_text("slime_janitor"@, janitors > 0, data),
            is_unlocked(session, "slime_janitor"@) && janitors == 0,
        ),
        (
            specialist_button_text("bat_courier"@, couriers > 0, data),
            is_unlocked(session, "bat_courier"@) && couriers == 0,
        ),
    ]
}

/// The recruit buttons of the Jobs panel.
pub fn recruit_buttons(session: &GameSession, data: &GameData) -> (buttons: Vec<RecruitButton>)
    ensures
        buttons@.len() == recruits(*session, *data).len(),
        forall|i: int|
            0 <= i < buttons@.len() ==> (#[trigger] buttons@[i].label@, buttons@[i].enabled) == recruits(*session, *data)[i],
{
    let b = &data.balance;
    let ore = session.economy.ore_stock;
    let beetles = count_species(session, "beetle", true);
    let salamanders = count_species(session, "salamander", true);
    let janitors = count_species(session, "slime_janitor", false);
    let couriers = count_species(session, "bat_courier", false);
    let has_den = has_building_of(session, "smelter");
    let mut buttons: Vec<RecruitButton> = Vec::new();
    buttons.push(RecruitButton {
        label: optional_support_button_label("beetle", b.beetle_ore_cost, beetles, data),
        enabled: ore >= b.beetle_ore_cost,
    });
    buttons.push(RecruitButton {
        label: optional_support_button_label("salamander", b.salamander_ore_cost, salamanders, data),
        enabled: has_den && ore >= b.salamander_ore_cost,
    });
    buttons.push(RecruitButton {
        label: optional_specialist_button_label("slime_janitor", janitors > 0, data),
        enabled: session.is_unlocked("slime_janitor") && janitors == 0,
    });
    buttons.push(RecruitButton {
        label: optional_specialist_button_label("bat_courier", couriers > 0, data),
        enabled: session.is_unlocked("bat_courier") && couriers == 0,
    });
    buttons
}

/// The Engineer and route roster line.
pub open spec fn roster_text(session: GameSession) -> Seq<char> {
    engineer_text(species_count(session, "engineer"@, true), species_count(session, "engineer"@, false))
        + " · Outposts "@ + dec(count_where(session.outposts@, is_active())) + "/"@ + dec(session.outposts@.len())
}

/// Engineers at home and posted, and active routes against all routes.
pub fn engineer_roster_line(session: &GameSession) -> (s: String)
    ensures
        s@ == roster_text(*session),
{
    let local = count_species(session, "engineer", true);
    let all = count_species(session, "engineer", false);
    let mut s = engineer_status_label(local, all);
    s.append(" · Outposts ");
    let ghost p = is_active();
    let mut active: usize = 0;
    let mut i: usize = 0;
    while i < session.outposts.len()
        invariant
            p == is_active(),
            i <= session.outposts@.len(),
            active == count_where(session.outposts@.take(i as int), p),
            active <= i,
        decreases session.outposts@.len() - i,
    {
        proof {
            lemma_count_step(session.outposts@, i as int, p);
        }
        if session.outposts[i].active {
            active += 1;
        }
        i += 1;
    }
    assert(session.outposts@.take(i as int) =~= session.outposts@);
    push_dec(&mut s, active as u64);
    s.append("/");
    push_dec(&mut s, session.outposts.len() as u64);
    s
}

/// A locked recruit's line: its name and the unlock's action with progress.
pub open spec fn locked_line(session: GameSession, data: GameData, label: Seq<char>, id: Seq<char>) -> Seq<Seq<char>> {
    if !is_unlocked(session, id) && requirement_progress_text(session, data, id) is Some {
        seq![label + " → "@ + requirement_progress_text(session, data, id)->0]
    } else {
        Seq::empty()
    }
}

/// The locked recruits the panel lists: the Salamander until a Smelter Den
/// stands, then the Slime Janitor and Bat Courier until they unlock.
pub open spec fn locked_lines(session: GameSession, data: GameData) -> Seq<Seq<char>> {
    (if has_building(session, "smelter"@) { Seq::empty() } else { seq!["Salamander → build a Smelter Den"@] })
        + locked_line(session, data, "Slime"@, "slime_janitor"@) + locked_line(session, data, "Bat"@, "bat_courier"@)
}

fn push_locked(lines: &mut Vec<String>, session: &GameSession, data: &GameData, label: &str, id: &str)
    ensures
        final(lines)@.map_values(|l: String| l@) == old(lines)@.map_values(|l: String| l@)
            + locked_line(*session, *data, label@, id@),
{
    let ghost before = lines@.map_values(|l: String| l@);
    if session.is_unlocked(id) {
        assert(lines@.map_values(|l: String| l@) =~= before + locked_line(*session, *data, label@, id@));
        return;
    }
    match unlock_requirement_progress(session, data, id) {
        Some(r) => {
            let mut line = label.to_owned();
            line.append(" → ");
            line.append(r.as_str());
            lines.push(line);
            assert(lines@.map_values(|l: String| l@) =~= before + locked_line(*session, *data, label@, id@));
        },
        None => {
            assert(lines@.map_values(|l: String| l@) =~= before + locked_line(*session, *data, label@, id@));
        },
    }
}

/// The recruits that are still locked, each with what unlocks it.
pub fn locked_recruit_lines(session: &GameSession, data: &GameData) -> (lines: Vec<String>)
    ensures
        lines@.map_values(|l: String| l@) == locked_lines(*session, *data),
{
    let mut lines: Vec<String> = Vec::new();
    if !has_building_of(session, "smelter") {
        lines.push("Salamander → build a Smelter Den".to_owned());
    }
    assert(lines@.map_values(|l: String| l@) =~= (if has_building(*session, "smelter"@) {
        Seq::<Seq<char>>::empty()
    } else {
        seq!["Salamander → build a Smelter Den"@]
    }));
    push_locked(&mut lines, session, data, "Slime", "slime_janitor");
    push_locked(&mut lines, session, data, "Bat", "bat_courier");
    assert(lines@.map_values(|l: String| l@) =~= locked_lines(*session, *data));
    lines
}

} // verus!
