//! Compact labels for optional post-campaign support creatures.

use vstd::prelude::*;
use crate::model::{GameData, find_species};
use crate::text::{dec, milli_text, str_eq, dec_string, push_dec, round_milli_exec};

verus! {

/// The role label of an optional specialist recruit.
pub open spec fn specialist_label_text(species: Seq<char>, posted: bool) -> Seq<char> {
    if species == "slime_janitor"@ {
        if posted { "Slime · posted"@ } else { "Slime · waste"@ }
    } else if species == "bat_courier"@ {
        if posted { "Bat · posted"@ } else { "Bat ×8"@ }
    } else {
        "Specialist"@
    }
}

/// The role label of a Slime Janitor or Bat Courier button; once the unique
/// post is filled the label says so.
pub fn optional_specialist_label(species: &str, posted: bool) -> (s: &'static str)
    ensures
        s@ == specialist_label_text(species@, posted),
{
    if str_eq(species, "slime_janitor") {
        if posted { "Slime · posted" } else { "Slime · waste" }
    } else if str_eq(species, "bat_courier") {
        if posted { "Bat · posted" } else { "Bat ×8" }
    } else {
        "Specialist"
    }
}

/// The ongoing supply draw of a species.
pub open spec fn upkeep_text(species: Seq<char>, data: GameData) -> Seq<char> {
    if species == "salamander"@ {
        milli_text(
            if data.balance.smelt_batch_charcoal_milli > 0 {
                data.balance.smelt_batch_charcoal_milli as int
            } else {
                0
            },
        ) + " charcoal/batch"@
    } else {
        match find_species(data, species) {
            Some(def) if def.eats_food && def.food_per_min_milli > 0 =>
                "+"@ + milli_text(def.food_per_min_milli as int) + " food/min"@,
            _ => "check Food Grid"@,
        }
    }
}

/// The ongoing supply a recruit would draw: charcoal per batch for a
/// Salamander, food per minute for food eaters.
pub fn optional_upkeep_label(species: &str, data: &GameData) -> (s: String)
    ensures
        s@ == upkeep_text(species@, *data),
{
    if str_eq(species, "salamander") {
        let charcoal = if data.balance.smelt_batch_charcoal_milli > 0 {
            data.balance.smelt_batch_charcoal_milli
        } else {
            0
        };
        let mut s = dec_string(round_milli_exec(charcoal));
        s.append(" charcoal/batch");
        return s;
    }
    match data.species_def(species) {
        Some(def) => {
            if def.eats_food && def.food_per_min_milli > 0 {
                let mut s = "+".to_owned();
                push_dec(&mut s, round_milli_exec(def.food_per_min_milli));
                s.append(" food/min");
                return s;
            }
        },
        None => {},
    }
    "check Food Grid".to_owned()
}

/// The button text of an optional specialist: the role label and, while the
/// post is open, the upkeep on a second line.
pub open spec fn specialist_button_text(species: Seq<char>, posted: bool, data: GameData) -> Seq<char> {
    if posted {
        specialist_label_text(species, posted)
    } else {
        specialist_label_text(species, posted) + "\n"@ + upkeep_text(species, data)
    }
}

/// The button text of an optional specialist recruit.
pub fn optional_specialist_button_label(species: &str, posted: bool, data: &GameData) -> (s: String)
    ensures
        s@ == specialist_button_text(species@, posted, *data),
{
    let label = optional_specialist_label(species, posted);
    if posted {
        return label.to_owned();
    }
    let mut s = label.to_owned();
    s.append("\n");
    let upkeep = optional_upkeep_label(species, data);
    s.append(upkeep.as_str());
    s
}

/// The label of a Beetle or Salamander support action.
pub open spec fn support_label_text(species: Seq<char>, cost: nat, local_count: nat) -> Seq<char> {
    if species == "beetle"@ && local_count > 0 {
        "Beetle x"@ + dec(local_count) + " haul"@
    } else if species == "salamander"@ && local_count > 0 {
        "Salam x"@ + dec(local_count) + " forge"@
    } else if species == "beetle"@ {
        "Beetle haul ("@ + dec(cost) + ")"@
    } else if species == "salamander"@ {
        "Salam. forge ("@ + dec(cost) + ")"@
    } else {
        species + " ("@ + dec(cost) + ")"@
    }
}

/// The label of a support creature action: the benefit once some live in the
/// warren, the recruitment cost otherwise.
pub fn optional_support_label(species: &str, cost: u32, local_count: usize) -> (s: String)
    ensures
        s@ == support_label_text(species@, cost as nat, local_count as nat),
{
    let beetle = str_eq(species, "beetle");
    let salamander = str_eq(species, "salamander");
    if beetle && local_count > 0 {
        let mut s = "Beetle x".to_owned();
        push_dec(&mut s, local_count as u64);
        s.append(" haul");
        s
    } else if salamander && local_count > 0 {
        let mut s = "Salam x".to_owned();
        push_dec(&mut s, local_count as u64);
        s.append(" forge");
        s
    } else if beetle {
        let mut s = "Beetle haul (".to_owned();
        push_dec(&mut s, cost as u64);
        s.append(")");
        s
    } else if salamander {
        let mut s = "Salam. forge (".to_owned();
        push_dec(&mut s, cost as u64);
        s.append(")");
        s
    } else {
        let mut s = species.to_owned();
        s.append(" (");
        push_dec(&mut s, cost as u64);
        s.append(")");
        s
    }
}

/// The button text of a support creature action.
pub open spec fn support_button_text(species: Seq<char>, cost: nat, local_count: nat, data: GameData) -> Seq<char> {
    if local_count > 0 {
        support_label_text(species, cost, local_count)
    } else {
        support_label_text(species, cost, local_count) + "\n"@ + upkeep_text(species, data)
    }
}

/// The button text of a support creature action, with the upkeep on a second
/// line while the action recruits.
pub fn optional_support_button_label(species: &str, cost: u32, local_count: usize, data: &GameData) -> (s: String)
    ensures
        s@ == support_button_text(species@, cost as nat, local_count as nat, *data),
{
    let label = optional_support_label(species, cost, local_count);
    if local_count > 0 {
        return label;
    }
    let mut s = label;
    s.append("\n");
    let upkeep = optional_upkeep_label(species, data);
    s.append(upkeep.as_str());
    s
}

} // verus!
