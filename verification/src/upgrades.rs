//! The route upgrade ladder on an Outpost card: which upgrade buttons show,
//! what they cost, which prerequisite contract they wait for, and whether
//! they can be pressed.

use vstd::prelude::*;
use crate::model::{GameData, GameSession, Outpost};
use crate::text::{dec, push_dec};

verus! {

/// A route upgrade, in the order the ladder offers them.
#[derive(Debug, Clone, Copy, PartialEq, Eq, Structural)]
pub enum RouteUpgrade {
    Hold,
    Camp,
    Survey,
    Beacon,
    DeepSurvey,
    SignalCache,
    Waypoint,
}

/// The ladder, bottom rung first.
pub open spec fn ladder() -> Seq<RouteUpgrade> {
    seq![
        RouteUpgrade::Hold,
        RouteUpgrade::Camp,
        RouteUpgrade::Survey,
        RouteUpgrade::Beacon,
        RouteUpgrade::DeepSurvey,
        RouteUpgrade::SignalCache,
        RouteUpgrade::Waypoint,
    ]
}

/// What an upgrade costs in ingots.
pub open spec fn upgrade_cost(data: GameData, u: RouteUpgrade) -> u32 {
    let b = data.balance;
    match u {
        RouteUpgrade::Hold => b.outpost_upgrade_ingots,
        RouteUpgrade::Camp => b.outpost_crew_upgrade_ingots,
        RouteUpgrade::Survey => b.outpost_survey_upgrade_ingots,
        RouteUpgrade::Beacon => b.outpost_resonator_upgrade_ingots,
        RouteUpgrade::DeepSurvey => b.outpost_deep_survey_upgrade_ingots,
        RouteUpgrade::SignalCache => b.outpost_signal_cache_upgrade_ingots,
        RouteUpgrade::Waypoint => b.outpost_waypoint_upgrade_ingots,
    }
}

/// The upgrade's button is on the card: it is not installed yet and the
/// rung below it (if the ladder has one there) is.
pub open spec fn offered(o: Outpost, u: RouteUpgrade) -> bool {
    match u {
        RouteUpgrade::Hold => !o.storage_upgraded,
        RouteUpgrade::Camp => !o.crew_upgraded,
        RouteUpgrade::Survey => o.storage_upgraded && o.crew_upgraded && !o.survey_upgraded,
        RouteUpgrade::Beacon => o.survey_upgraded && !o.resonator_upgraded,
        RouteUpgrade::DeepSurvey => o.resonator_upgraded && !o.deep_survey_upgraded,
        RouteUpgrade::SignalCache => o.deep_survey_upgraded && !o.signal_cache_upgraded,
        RouteUpgrade::Waypoint => o.signal_cache_upgraded && !o.waypoint_upgraded,
    }
}

/// The contract an upgrade waits for has been claimed (the lower rungs wait
/// for none).
pub open spec fn contract_met(session: GameSession, u: RouteUpgrade) -> bool {
    match u {
        RouteUpgrade::DeepSurvey => session.outpost_charter_claimed,
        RouteUpgrade::SignalCache => session.outpost_relay_claimed,
        RouteUpgrade::Waypoint => session.outpost_convoy_claims > 0,
        _ => true,
    }
}

/// The button text of an upgrade: its name and cost, or, while its contract
/// is unclaimed, the contract it waits for.
pub open spec fn upgrade_label(session: GameSession, data: GameData, u: RouteUpgrade, compact: bool) -> Seq<char> {
    let cost = dec(upgrade_cost(data, u) as nat);
    if compact {
        match u {
            RouteUpgrade::Hold => "Hold · "@ + cost,
            RouteUpgrade::Camp => "Camp · "@ + cost,
            RouteUpgrade::Survey => "Survey · "@ + cost,
            RouteUpgrade::Beacon => "Beacon · "@ + cost,
            RouteUpgrade::DeepSurvey => if contract_met(session, u) { "Deep · "@ + cost } else { "Deep · Charter"@ },
            RouteUpgrade::SignalCache => if contract_met(session, u) { "Cache · "@ + cost } else { "Cache · Relay"@ },
            RouteUpgrade::Waypoint => if contract_met(session, u) { "Waypoint · "@ + cost } else { "Waypoint · Convoy"@ },
        }
    } else {
        match u {
            RouteUpgrade::Hold => "Expand hold · "@ + cost + " ingots"@,
            RouteUpgrade::Camp => "Expand camp · "@ + cost + " ingots"@,
            RouteUpgrade::Survey => "Install survey · "@ + cost + " ingots"@,
            RouteUpgrade::Beacon => "Tune beacon · "@ + cost + " ingots"@,
            RouteUpgrade::DeepSurvey => if contract_met(session, u) {
                "Calibrate deep survey · "@ + cost + " ingots"@
            } else {
                "Deep survey · Charter required"@
            },
            RouteUpgrade::SignalCache => if contract_met(session, u) {
                "Install signal cache · "@ + cost + " ingots"@
            } else {
                "Signal cache · Relay required"@
            },
            RouteUpgrade::Waypoint => if contract_met(session, u) {
                "Install Worm Road waypoint · "@ + cost + " ingots"@
            } else {
                "Worm Road waypoint · Convoy required"@
            },
        }
    }
}

/// The button of upgrade `u` on the card, if it is offered: its label and
/// whether it can be pressed (contract claimed and ingots in the bank).
pub open spec fn upgrade_entry(session: GameSession, data: GameData, o: Outpost, u: RouteUpgrade, compact: bool) -> Option<(Seq<char>, bool)> {
    if offered(o, u) {
        Some((
            upgrade_label(session, data, u, compact),
            contract_met(session, u) && session.economy.ingots_stock >= upgrade_cost(data, u),
        ))
    } else {
        None
    }
}

/// The upgrade buttons of a route card, bottom rung first.
pub open spec fn upgrade_buttons_text(session: GameSession, data: GameData, o: Outpost, compact: bool) -> Seq<(RouteUpgrade, Seq<char>, bool)> {
    ladder().fold_left(
        Seq::<(RouteUpgrade, Seq<char>, bool)>::empty(),
        |acc: Seq<(RouteUpgrade, Seq<char>, bool)>, u: RouteUpgrade| match upgrade_entry(session, data, o, u, compact) {
            Some(e) => acc.push((u, e.0, e.1)),
            None => acc,
        },
    )
}

/// One upgrade button of a route card.
#[derive(Debug, Clone)]
pub struct UpgradeButton {
    pub upgrade: RouteUpgrade,
    pub label: String,
    pub enabled: bool,
}

fn cost_of(data: &GameData, u: RouteUpgrade) -> (c: u32)
    ensures
        c == upgrade_cost(*data, u),
{
    let b = &data.balance;
    match u {
        RouteUpgrade::Hold => b.outpost_upgrade_ingots,
        RouteUpgrade::Camp => b.outpost_crew_upgrade_ingots,
        RouteUpgrade::Survey => b.outpost_survey_upgrade_ingots,
        RouteUpgrade::Beacon => b.outpost_resonator_upgrade_ingots,
        RouteUpgrade::DeepSurvey => b.outpost_deep_survey_upgrade_ingots,
        RouteUpgrade::SignalCache => b.outpost_signal_cache_upgrade_ingots,
        RouteUpgrade::Waypoint => b.outpost_waypoint_upgrade_ingots,
    }
}

fn is_offered(o: &Outpost, u: RouteUpgrade) -> (r: bool)
    ensures
        r == offered(*o, u),
{
    match u {
        RouteUpgrade::Hold => !o.storage_upgraded,
        RouteUpgrade::Camp => !o.crew_upgraded,
        RouteUpgrade::Survey => o.storage_upgraded && o.crew_upgraded && !o.survey_upgraded,
        RouteUpgrade::Beacon => o.survey_upgraded && !o.resonator_upgraded,
        RouteUpgrade::DeepSurvey => o.resonator_upgraded && !o.deep_survey_upgraded,
        RouteUpgrade::SignalCache => o.deep_survey_upgraded && !o.signal_cache_upgraded,
        RouteUpgrade::Waypoint => o.signal_cache_upgraded && !o.waypoint_upgraded,
    }
}

fn is_contract_met(session: &GameSession, u: RouteUpgrade) -> (r: bool)
    ensures
        r == contract_met(*session, u),
{
    match u {
        RouteUpgrade::DeepSurvey => session.outpost_charter_claimed,
        RouteUpgrade::SignalCache => session.outpost_relay_claimed,
        RouteUpgrade::Waypoint => session.outpost_convoy_claims > 0,
        _ => true,
    }
}

fn label_of(session: &GameSession, data: &GameData, u: RouteUpgrade, compact: bool) -> (s: String)
    ensures
        s@ == upgrade_label(*session, *data, u, compact),
{
    let met = is_contract_met(session, u);
    if !met {
        let waiting = match (u, compact) {
            (RouteUpgrade::DeepSurvey, true) => "Deep · Charter",
            (RouteUpgrade::SignalCache, true) => "Cache · Relay",
            (RouteUpgrade::Waypoint, true) => "Waypoint · Convoy",
            (RouteUpgrade::DeepSurvey, false) => "Deep survey · Charter required",
            (RouteUpgrade::SignalCache, false) => "Signal cache · Relay required",
            _ => "Worm Road waypoint · Convoy required",
        };
        return waiting.to_owned();
    }
    let name = match (u, compact) {
        (RouteUpgrade::Hold, true) => "Hold · ",
        (RouteUpgrade::Camp, true) => "Camp · ",
        (RouteUpgrade::Survey, true) => "Survey · ",
        (RouteUpgrade::Beacon, true) => "Beacon · ",
        (RouteUpgrade::DeepSurvey, true) => "Deep · ",
        (RouteUpgrade::SignalCache, true) => "Cache · ",
        (RouteUpgrade::Waypoint, true) => "Waypoint · ",
        (RouteUpgrade::Hold, false) => "Expand hold · ",
        (RouteUpgrade::Camp, false) => "Expand camp · ",
        (RouteUpgrade::Survey, false) => "Install survey · ",
        (RouteUpgrade::Beacon, false) => "Tune beacon · ",
        (RouteUpgrade::DeepSurvey, false) => "Calibrate deep survey · ",
        (RouteUpgrade::SignalCache, false) => "Install signal cache · ",
        (RouteUpgrade::Waypoint, false) => "Install Worm Road waypoint · ",
    };
    let mut s = name.to_owned();
    push_dec(&mut s, cost_of(data, u) as u64);
    if !compact {
        s.append(" ingots");
    }
    s
}

fn push_entry(
    buttons: &mut Vec<UpgradeButton>,
    session: &GameSession,
    data: &GameData,
    o: &Outpost,
    u: RouteUpgrade,
    compact: bool,
)
    ensures
        final(buttons)@.map_values(|b: UpgradeButton| (b.upgrade, b.label@, b.enabled)) == (match upgrade_entry(
            *session,
            *data,
            *o,
            u,
            compact,
        ) {
            Some(e) => old(buttons)@.map_values(|b: UpgradeButton| (b.upgrade, b.label@, b.enabled)).push((u, e.0, e.1)),
            None => old(buttons)@.map_values(|b: UpgradeButton| (b.upgrade, b.label@, b.enabled)),
        }),
{
    let ghost before = buttons@.map_values(|b: UpgradeButton| (b.upgrade, b.label@, b.enabled));
    if is_offered(o, u) {
        let enabled = is_contract_met(session, u) && session.economy.ingots_stock >= cost_of(data, u);
        let label = label_of(session, data, u, compact);
        buttons.push(UpgradeButton { upgrade: u, label, enabled });
        assert(buttons@.map_values(|b: UpgradeButton| (b.upgrade, b.label@, b.enabled)) =~= before.push(
            (u, upgrade_label(*session, *data, u, compact), enabled),
        ));
    } else {
        assert(buttons@.map_values(|b: UpgradeButton| (b.upgrade, b.label@, b.enabled)) =~= before);
    }
}

/// The upgrade buttons of a route card, bottom rung first: each upgrade not
/// yet installed whose rung below is, labelled with its cost or with the
/// contract it waits for, pressable once that contract is claimed and the
/// bank holds its ingots.
pub fn route_upgrade_buttons(session: &GameSession, data: &GameData, outpost: &Outpost, compact: bool) -> (buttons: Vec<UpgradeButton>)
    ensures
        buttons@.map_values(|b: UpgradeButton| (b.upgrade, b.label@, b.enabled)) == upgrade_buttons_text(
            *session,
            *data,
            *outpost,
            compact,
        ),
{
    let mut buttons: Vec<UpgradeButton> = Vec::new();
    let rungs = [
        RouteUpgrade::Hold,
        RouteUpgrade::Camp,
        RouteUpgrade::Survey,
        RouteUpgrade::Beacon,
        RouteUpgrade::DeepSurvey,
        RouteUpgrade::SignalCache,
        RouteUpgrade::Waypoint,
    ];
    assert(rungs@ =~= ladder());
    let ghost f = |acc: Seq<(RouteUpgrade, Seq<char>, bool)>, u: RouteUpgrade| match upgrade_entry(
        *session,
        *data,
        *outpost,
        u,
        compact,
    ) {
        Some(e) => acc.push((u, e.0, e.1)),
        None => acc,
    };
    let mut i: usize = 0;
    assert(buttons@.map_values(|b: UpgradeButton| (b.upgrade, b.label@, b.enabled)) =~= ladder().take(0).fold_left(
        Seq::<(RouteUpgrade, Seq<char>, bool)>::empty(),
        f,
    ));
    while i < 7
        invariant
            i <= 7,
            rungs@ == ladder(),
            f == (|acc: Seq<(RouteUpgrade, Seq<char>, bool)>, u: RouteUpgrade| match upgrade_entry(
                *session,
                *data,
                *outpost,
                u,
                compact,
            ) {
                Some(e) => acc.push((u, e.0, e.1)),
                None => acc,
            }),
            buttons@.map_values(|b: UpgradeButton| (b.upgrade, b.label@, b.enabled)) == ladder().take(i as int).fold_left(
                Seq::<(RouteUpgrade, Seq<char>, bool)>::empty(),
                f,
            ),
        decreases 7 - i,
    {
        push_entry(&mut buttons, session, data, outpost, rungs[i], compact);
        assert(ladder().take(i as int + 1).drop_last() =~= ladder().take(i as int));
        i += 1;
    }
    assert(ladder().take(7) =~= ladder());
    buttons
}

} // verus!
