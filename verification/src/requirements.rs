//! Player-facing prerequisite phrases for locked optional actions.

use vstd::prelude::*;
use crate::model::{GameData, GameSession, Unlock, find_unlock, counter_value};
use crate::text::{dec, push_dec, str_eq};

verus! {

/// The action phrase for reaching `threshold` on the counter `counter`, for
/// the counters the player can act on.
pub open spec fn requirement_phrase(counter: Seq<char>, t: nat) -> Option<Seq<char>> {
    if counter == "beetles_captured"@ {
        Some("capture "@ + dec(t) + " beetles"@)
    } else if counter == "raids_survived"@ {
        Some("survive "@ + dec(t) + " raid"@)
    } else if counter == "famines_survived"@ {
        Some("survive "@ + dec(t) + " famine"@)
    } else if counter == "specimens"@ {
        Some("house "@ + dec(t) + " specimens"@)
    } else if counter == "knowledge"@ {
        Some("gain "@ + dec(t) + " study"@)
    } else if counter == "waste_processed"@ {
        Some("process "@ + dec(t) + " waste"@)
    } else if counter == "waste_generated"@ {
        Some("spoil "@ + dec(t) + " food"@)
    } else if counter == "courier_deliveries"@ {
        Some("complete "@ + dec(t) + " courier deliveries"@)
    } else if counter == "ingots_forged"@ {
        Some("forge "@ + dec(t) + " ingots"@)
    } else if counter == "ore_delivered_total"@ {
        Some("deliver "@ + dec(t) + " ore"@)
    } else if counter == "outpost_archive_claims"@ {
        Some("log "@ + dec(t) + (if t == 1 { " Archive page"@ } else { " Archive pages"@ }))
    } else if counter == "outpost_muster_claims"@ {
        Some("hold "@ + dec(t) + (if t == 1 { " Worm Road Muster"@ } else { " Worm Road Musters"@ }))
    } else {
        None
    }
}

/// The action phrase of the unlock `id`.
pub open spec fn requirement_text(data: GameData, id: Seq<char>) -> Option<Seq<char>> {
    match find_unlock(data, id) {
        Some(u) => requirement_phrase(u.counter@, u.threshold as nat),
        None => None,
    }
}

fn phrase_for(unlock: &Unlock) -> (res: Option<String>)
    ensures
        match res {
            Some(s) => requirement_phrase(unlock.counter@, unlock.threshold as nat) == Some(s@),
            None => requirement_phrase(unlock.counter@, unlock.threshold as nat) is None,
        },
{
    let c = unlock.counter.as_str();
    let t = unlock.threshold as u64;
    let (head, tail): (&str, &str) = if str_eq(c, "beetles_captured") {
        ("capture ", " beetles")
    } else if str_eq(c, "raids_survived") {
        ("survive ", " raid")
    } else if str_eq(c, "famines_survived") {
        ("survive ", " famine")
    } else if str_eq(c, "specimens") {
        ("house ", " specimens")
    } else if str_eq(c, "knowledge") {
        ("gain ", " study")
    } else if str_eq(c, "waste_processed") {
        ("process ", " waste")
    } else if str_eq(c, "waste_generated") {
        ("spoil ", " food")
    } else if str_eq(c, "courier_deliveries") {
        ("complete ", " courier deliveries")
    } else if str_eq(c, "ingots_forged") {
        ("forge ", " ingots")
    } else if str_eq(c, "ore_delivered_total") {
        ("deliver ", " ore")
    } else if str_eq(c, "outpost_archive_claims") {
        ("log ", if t == 1 { " Archive page" } else { " Archive pages" })
    } else if str_eq(c, "outpost_muster_claims") {
        ("hold ", if t == 1 { " Worm Road Muster" } else { " Worm Road Musters" })
    } else {
        return None;
    };
    let mut s = head.to_owned();
    push_dec(&mut s, t);
    s.append(tail);
    Some(s)
}

/// Translate a data-driven unlock into a concise action the player can take;
/// `None` when the unlock is unknown or its counter has no player action.
pub fn unlock_requirement(data: &GameData, id: &str) -> (res: Option<String>)
    ensures
        match res {
            Some(s) => requirement_text(*data, id@) == Some(s@),
            None => requirement_text(*data, id@) is None,
        },
{
    match data.unlock(id) {
        Some(u) => phrase_for(u),
        None => None,
    }
}

/// The action phrase with live progress on the unlock's counter.
pub open spec fn requirement_progress_text(session: GameSession, data: GameData, id: Seq<char>) -> Option<Seq<char>> {
    match find_unlock(data, id) {
        Some(u) => match requirement_phrase(u.counter@, u.threshold as nat) {
            Some(p) => Some(p + " ("@ + dec(counter_value(session, u.counter@)) + "/"@ + dec(u.threshold as nat) + ")"@),
            None => None,
        },
        None => None,
    }
}

/// Translate a data-driven unlock into an actionable phrase with live
/// progress, read from the same counter that grants the unlock.
pub fn unlock_requirement_progress(session: &GameSession, data: &GameData, id: &str) -> (res: Option<String>)
    ensures
        match res {
            Some(s) => requirement_progress_text(*session, *data, id@) == Some(s@),
            None => requirement_progress_text(*session, *data, id@) is None,
        },
{
    let unlock = match data.unlock(id) {
        Some(u) => u,
        None => return None,
    };
    let mut s = match phrase_for(unlock) {
        Some(p) => p,
        None => return None,
    };
    let current = session.counter_value(unlock.counter.as_str());
    s.append(" (");
    push_dec(&mut s, current as u64);
    s.append("/");
    push_dec(&mut s, unlock.threshold as u64);
    s.append(")");
    Some(s)
}

} // verus!
