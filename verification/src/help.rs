//! The field guide, the recent-events pages and the load confirmation.

use vstd::prelude::*;
use crate::model::{GameData, GameSession};
use crate::text::{dec, push_dec};
use crate::top_bar::{compact_food_recovery_hint, compact_raid_defense_hint, compact_food_text, compact_raid_text};

verus! {

/// Field-guide text for inspecting and crafting before the worm wakes.
pub const INSPECT_HELP_BODY: &'static str = "Tap a building on the map to read its status and controls. Tap a Blacksmith recipe to queue equipment; after onboarding, Breeding Pit buttons show specialist costs and benefits, and a Rest Hollow lets tired workers recover. Tap a Study Pen to turn captured specimens into observation. Once the worm wakes, an Outpost crew can scout for ore: pick a Load order, switch on Auto-resupply · Food only or Auto-load · Cargo + crew, expand the hold and camp, install a survey rig, and tune a resonance beacon. Archive pages unlock the Archive Wayfinder, the Worm Road Relay, the Signal Cache and the Worm Road Waypoint.";

/// Field-guide text for the objective card before the worm wakes.
pub const OBJECTIVE_HELP_BODY: &'static str = "Read the Objective card for the current milestone. Locked gates name the exact unlock. Use the visible Jobs and Build & Dig controls it names. Once the worm wakes, tap Routes to run cargo through an Outpost; the ledger's first page tracks the Archive, the Worm Road Relay, the Signal Cache and the Waypoint contracts.";

/// Field-guide text for running routes once the worm is awake.
pub const ENDLESS_INSPECT_HELP_BODY: &'static str = "At an awakened Outpost, tap Load order and Crew per run, then Load. Pause scouting to protect food; return cargo while keeping remote crew. Tap Routes to plan multiple runs.";

/// Field-guide text for the objective card once the worm is awake.
pub const ENDLESS_OBJECTIVE_HELP_BODY: &'static str = "After the worm wakes, the Objective points to Routes, cargo, crew, upgrades, contracts, and shared-Worm dispatch order. Tap Routes to inspect the network.";

/// The introduction at the top of the field guide.
pub const FIELD_GUIDE_INTRO: &'static str = "Everything below has a visible touch or pointer control. Review Recent events when a toast has faded; use Older or Newer to browse further.";

/// The question asked before a saved Warren replaces the current run.
pub const LOAD_CONFIRMATION_TEXT: &'static str = "Load the last saved Warren? Any work since that checkpoint will be discarded.\n\nChoose Load Last Save to restore it, or Keep Current to continue this run.";

/// Recent events shown on one page of the event log.
pub const EVENTS_PER_PAGE: usize = 10;

/// How many pages the recent-events view has: always at least one.
pub open spec fn page_count(history_len: nat) -> nat {
    let pages = (history_len + 9) / 10;
    if pages == 0 { 1 } else { pages }
}

/// How many pages the recent-events view needs for `history_len` entries.
pub fn event_log_page_count(history_len: usize) -> (n: usize)
    ensures
        n == page_count(history_len as nat),
{
    let pages = history_len / EVENTS_PER_PAGE + if history_len % EVENTS_PER_PAGE > 0 { 1 } else { 0 };
    if pages == 0 { 1 } else { pages }
}

/// `a - b`, or zero when `b` is larger.
pub open spec fn sat_sub(a: nat, b: nat) -> nat {
    if a > b { (a - b) as nat } else { 0 }
}

/// The entries of page `page`, newest page first: a half-open range of the
/// history, which is stored oldest first.
pub open spec fn page_bounds(history_len: nat, page: nat) -> (nat, nat) {
    let end = sat_sub(history_len, page * 10);
    (sat_sub(end, 10), end)
}

/// The half-open range of history entries that page `page` shows; the first
/// page holds the newest entries.
pub fn event_log_page_bounds(history_len: usize, page: usize) -> (r: (usize, usize))
    ensures
        (r.0 as nat, r.1 as nat) == page_bounds(history_len as nat, page as nat),
{
    let skipped = if page > usize::MAX / EVENTS_PER_PAGE { usize::MAX } else { page * EVENTS_PER_PAGE };
    let page_end = history_len.saturating_sub(skipped);
    (page_end.saturating_sub(EVENTS_PER_PAGE), page_end)
}

/// The title and body of the field guide's inspection section.
pub open spec fn inspect_content(worm_awake: bool) -> (Seq<char>, Seq<char>) {
    if worm_awake {
        ("Endless routes"@, ENDLESS_INSPECT_HELP_BODY@)
    } else {
        ("Inspect & craft"@, INSPECT_HELP_BODY@)
    }
}

/// The field guide's inspection section: route running once the worm is
/// awake, inspecting and crafting before.
pub fn field_guide_inspect_content(worm_awake: bool) -> (r: (&'static str, &'static str))
    ensures
        (r.0@, r.1@) == inspect_content(worm_awake),
{
    if worm_awake {
        ("Endless routes", ENDLESS_INSPECT_HELP_BODY)
    } else {
        ("Inspect & craft", INSPECT_HELP_BODY)
    }
}

/// The field guide's objective section.
pub fn field_guide_objective_content(worm_awake: bool) -> (s: &'static str)
    ensures
        s@ == (if worm_awake { ENDLESS_OBJECTIVE_HELP_BODY@ } else { OBJECTIVE_HELP_BODY@ }),
{
    if worm_awake {
        ENDLESS_OBJECTIVE_HELP_BODY
    } else {
        OBJECTIVE_HELP_BODY
    }
}

/// The recovery guide: the top-bar food and raid responses in one sentence.
pub open spec fn recovery_text(session: GameSession, data: GameData) -> Seq<char> {
    "When food falls, "@ + compact_food_text(session, data) + ". Before a raid, "@ + compact_raid_text(session, data)
        + ". The warning bar names the response."@
}

/// How to recover from falling food and an incoming raid, naming the same
/// controls as the top-bar banners.
pub fn recovery_guide_body(session: &GameSession, data: &GameData) -> (s: String)
    ensures
        s@ == recovery_text(*session, *data),
{
    let mut s = "When food falls, ".to_owned();
    let food = compact_food_recovery_hint(session, data);
    s.append(food.as_str());
    s.append(". Before a raid, ");
    let raid = compact_raid_defense_hint(session, data);
    s.append(raid.as_str());
    s.append(". The warning bar names the response.");
    s
}

/// The text shown on an empty recent-events page.
pub const EMPTY_EVENT_LOG_TEXT: &'static str = "No events yet. Actions and warnings will appear here.";

/// The recent-events view of one page.
#[derive(Debug, Clone)]
pub struct EventLogView {
    /// The page shown, clamped to the last page.
    pub page: usize,
    pub title: String,
    /// The half-open range of the history the page lists, newest last.
    pub start: usize,
    pub end: usize,
    /// The Older button works: an older page exists.
    pub can_older: bool,
    /// The Newer button works: a newer page exists.
    pub can_newer: bool,
}

/// The page the view shows when asked for `page`: at most the last one.
pub open spec fn shown_page(history_len: nat, page: nat) -> nat {
    if page < page_count(history_len) { page } else { (page_count(history_len) - 1) as nat }
}

/// The recent-events view for page `page` (clamped to the last page) of a
/// history of `history_len` entries: its title, the entries it lists, and
/// which way the player can browse. A non-empty history never shows an
/// empty page.
pub fn event_log_view(history_len: usize, page: usize) -> (v: EventLogView)
    ensures
        v.page == shown_page(history_len as nat, page as nat),
        v.title@ == "Recent Events · "@ + dec(v.page as nat + 1) + "/"@ + dec(page_count(history_len as nat)),
        (v.start as nat, v.end as nat) == page_bounds(history_len as nat, v.page as nat),
        v.can_older == (v.page + 1 < page_count(history_len as nat)),
        v.can_newer == (v.page > 0),
        history_len > 0 ==> v.start < v.end,
{
    let count = event_log_page_count(history_len);
    let shown = if page < count { page } else { count - 1 };
    proof {
        if history_len > 0 {
            crate::laws::event_pages_cover_the_history(history_len as nat, shown as nat);
        }
    }
    let mut title = "Recent Events · ".to_owned();
    push_dec(&mut title, shown as u64 + 1);
    title.append("/");
    push_dec(&mut title, count as u64);
    let (start, end) = event_log_page_bounds(history_len, shown);
    EventLogView { page: shown, title, start, end, can_older: shown + 1 < count, can_newer: shown > 0 }
}

} // verus!
