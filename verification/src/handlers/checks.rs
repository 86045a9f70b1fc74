//! Checks that a request passes before an action is scheduled: a lord to act
//! for, free production lines, idle units and the materials in stock.
use vstd::prelude::*;
use vstd::string::*;
use std::collections::HashMap;
use crate::dev::dev_config::DevConfig;
use crate::text::{
    decimal, join_strings, joined, push_i64, push_u64, signed_decimal, texts, u64_list_debug,
    u64_list_debug_text,
};

verus! {

broadcast use vstd::std_specs::hash::group_hash_axioms;

/// Refusal when the player has no lord.
pub open spec fn no_lord_text() -> Seq<char> {
    "Aucun seigneur trouvé"@
}

/// Refusal when the lord could not be read.
pub open spec fn server_error_text() -> Seq<char> {
    "Erreur serveur"@
}

/// Refusal when the inventory could not be read.
pub open spec fn inventory_error_text() -> Seq<char> {
    "Erreur de chargement de l'inventaire"@
}

/// The lord that an action is scheduled for, from the lookup of the player's
/// lord: its id, or the refusal sent to the player.
pub fn lord_for_action(lookup: Result<Option<u64>, String>) -> (r: Result<u64, String>)
    ensures
        lookup matches Ok(Some(id)) ==> r == Ok::<u64, String>(id),
        lookup matches Ok(None) ==> r is Err && r->Err_0@ == no_lord_text(),
        lookup is Err ==> r is Err && r->Err_0@ == server_error_text(),
{
    match lookup {
        Ok(Some(id)) => Ok(id),
        Ok(None) => Err(String::from_str("Aucun seigneur trouvé")),
        Err(_) => Err(String::from_str("Erreur serveur")),
    }
}

/// Refusal when every production line of the building is busy.
pub open spec fn lines_busy_text(active: u64, max_lines: u64) -> Seq<char> {
    "Toutes les lignes de production sont occupées ("@ + decimal(active as nat) + "/"@
        + decimal(max_lines as nat) + ")"@
}

/// A building on the cell offers `max_lines` production lines (`None`: no
/// building, so no limit); `active` production actions already run there.
/// A new one is refused when all lines are taken.
pub fn production_line_check(max_lines: Option<u64>, active: u64) -> (r: Result<(), String>)
    ensures
        r is Ok <==> (max_lines is None || active < max_lines->0),
        r is Err ==> r->Err_0@ == lines_busy_text(active, max_lines->0),
{
    match max_lines {
        Some(m) => {
            if active >= m {
                let mut s = String::from_str("Toutes les lignes de production sont occupées (");
                push_u64(&mut s, active);
                s.append("/");
                push_u64(&mut s, m);
                s.append(")");
                Err(s)
            } else {
                Ok(())
            }
        },
        None => Ok(()),
    }
}

/// Refusal when some of the chosen units already work on another action.
pub open spec fn units_busy_text(busy: Seq<u64>) -> Seq<char> {
    "Certaines unités sont déjà occupées : "@ + u64_list_debug_text(busy)
}

/// `busy` are the chosen units that already work on an action; the request
/// is refused when there is any.
pub fn busy_units_check(busy: &Vec<u64>) -> (r: Result<(), String>)
    ensures
        r is Ok <==> busy@.len() == 0,
        r is Err ==> r->Err_0@ == units_busy_text(busy@),
{
    if busy.len() == 0 {
        Ok(())
    } else {
        let mut s = String::from_str("Certaines unités sont déjà occupées : ");
        let list = u64_list_debug(busy);
        s.append(list.as_str());
        Err(s)
    }
}

/// An item that an action consumes: its id, the quantity per unit made and its
/// display name.
pub struct MaterialNeed {
    pub item_id: i32,
    pub quantity: i32,
    pub name: String,
}

/// How many of an item the inventory holds (none when it is not listed).
pub open spec fn held(inventory: Map<i32, i32>, item_id: i32) -> int {
    if inventory.contains_key(item_id) {
        inventory[item_id] as int
    } else {
        0
    }
}

/// The amount needed of an item when `times` units are made.
pub open spec fn needed(n: MaterialNeed, times: i32) -> int {
    n.quantity * times
}

/// One entry of the list of what is missing.
pub open spec fn missing_entry(name: Seq<char>, needed: int, have: int) -> Seq<char> {
    name + " (besoin: "@ + signed_decimal(needed) + ", possédé: "@ + signed_decimal(have)
        + ")"@
}

/// The entries, in the order of `needs`, of the items held in smaller amount
/// than needed.
pub open spec fn missing_entries(needs: Seq<MaterialNeed>, times: i32, inventory: Map<
    i32,
    i32,
>) -> Seq<Seq<char>>
    decreases needs.len(),
{
    if needs.len() == 0 {
        Seq::empty()
    } else {
        let rest = missing_entries(needs.drop_last(), times, inventory);
        let n = needs.last();
        if held(inventory, n.item_id) < needed(n, times) {
            rest.push(missing_entry(n.name@, needed(n, times), held(inventory, n.item_id)))
        } else {
            rest
        }
    }
}

/// Whether every needed amount fits an `i32`, as the server computes it.
pub open spec fn needs_fit(needs: Seq<MaterialNeed>, times: i32) -> bool {
    forall|i: int|
        0 <= i < needs.len() ==> i32::MIN <= #[trigger] needed(needs[i], times) <= i32::MAX
}

/// The entries of what is missing from `inventory` to make `times` units:
/// `"<name> (besoin: <needed>, possédé: <held>)"`, in the order of `needs`.
pub fn missing_materials(needs: &Vec<MaterialNeed>, times: i32, inventory: &HashMap<i32, i32>) -> (r:
    Vec<String>)
    requires
        needs_fit(needs@, times),
    ensures
        texts(r@) == missing_entries(needs@, times, inventory@),
{
    let mut r: Vec<String> = Vec::new();
    let mut i: usize = 0;
    while i < needs.len()
        invariant
            i <= needs.len(),
            needs_fit(needs@, times),
            texts(r@) == missing_entries(needs@.subrange(0, i as int), times, inventory@),
        decreases needs.len() - i,
    {
        let n = &needs[i];
        assert(i32::MIN <= needed(needs@[i as int], times) <= i32::MAX);
        let need: i32 = n.quantity * times;
        let have: i32 = match inventory.get(&n.item_id) {
            Some(v) => *v,
            None => 0,
        };
        proof {
            let pre = needs@.subrange(0, i as int);
            let post = needs@.subrange(0, i + 1);
            assert(post.drop_last() =~= pre);
            assert(post.last() == needs@[i as int]);
            assert(have == held(inventory@, n.item_id));
        }
        if have < need {
            let mut e = n.name.clone();
            e.append(" (besoin: ");
            push_i64(&mut e, need as i64);
            e.append(", possédé: ");
            push_i64(&mut e, have as i64);
            e.append(")");
            let ghost old_r = r@;
            r.push(e);
            proof {
                assert(texts(r@) =~= texts(old_r).push(e@));
            }
        }
        i = i + 1;
    }
    assert(needs@.subrange(0, needs.len() as int) =~= needs@);
    r
}

/// Whether the materials must be checked at all: not when dev mode skips
/// resource checks, nor when nothing is needed.
pub fn materials_check_required(dev: &DevConfig, need_count: usize) -> (r: bool)
    ensures
        r == (!dev.bypass_resources && need_count > 0),
{
    !dev.skip_resource_check() && need_count > 0
}

/// Prefix of the refusal of a building whose materials are missing.
pub open spec fn building_missing_prefix() -> Seq<char> {
    "Matériaux de construction manquants : "@
}

/// Prefix of the refusal of a recipe whose ingredients are missing.
pub open spec fn recipe_missing_prefix() -> Seq<char> {
    "Ressources manquantes : "@
}

/// What the check of materials decides, from the inventory that was read
/// (or the error of reading it): refused with `prefix` and the list of what is
/// missing, or accepted.
pub open spec fn materials_verdict_text(
    needs: Seq<MaterialNeed>,
    times: i32,
    inventory: Map<i32, i32>,
    prefix: Seq<char>,
) -> Option<Seq<char>> {
    let missing = missing_entries(needs, times, inventory);
    if missing.len() == 0 {
        None
    } else {
        Some(prefix + joined(missing, ", "@))
    }
}

fn materials_verdict(
    needs: &Vec<MaterialNeed>,
    times: i32,
    inventory: Result<HashMap<i32, i32>, String>,
    prefix: &str,
) -> (r: Result<(), String>)
    requires
        needs_fit(needs@, times),
    ensures
        inventory is Err ==> r is Err && r->Err_0@ == inventory_error_text(),
        inventory matches Ok(inv) ==> match materials_verdict_text(needs@, times, inv@, prefix@) {
            None => r is Ok,
            Some(t) => r is Err && r->Err_0@ == t,
        },
{
    match inventory {
        Err(_) => Err(String::from_str("Erreur de chargement de l'inventaire")),
        Ok(inv) => {
            let missing = missing_materials(needs, times, &inv);
            if missing.len() == 0 {
                Ok(())
            } else {
                let mut s = String::from_str(prefix);
                let list = join_strings(&missing, ", ");
                s.append(list.as_str());
                proof {
                    reveal_strlit(", ");
                }
                Err(s)
            }
        },
    }
}

/// The check of a building's construction costs against the lord's inventory
/// (or the error of reading it).
pub fn check_building_materials(costs: &Vec<MaterialNeed>, inventory: Result<HashMap<i32, i32>, String>) -> (r: Result<(), String>)
    requires
        needs_fit(costs@, 1),
    ensures
        inventory is Err ==> r is Err && r->Err_0@ == inventory_error_text(),
        inventory matches Ok(inv) ==> match materials_verdict_text(
            costs@,
            1,
            inv@,
            building_missing_prefix(),
        ) {
            None => r is Ok,
            Some(t) => r is Err && r->Err_0@ == t,
        },
{
    proof {
        reveal_strlit("Matériaux de construction manquants : ");
    }
    materials_verdict(costs, 1, inventory, "Matériaux de construction manquants : ")
}

/// The check of a recipe's ingredients, for `quantity` crafts, against the
/// lord's inventory (or the error of reading it). The quantity is taken as an
/// `i32`, as the server converts it.
pub fn check_recipe_ingredients(
    ingredients: &Vec<MaterialNeed>,
    quantity: u32,
    inventory: Result<HashMap<i32, i32>, String>,
) -> (r: Result<(), String>)
    requires
        needs_fit(ingredients@, quantity as i32),
    ensures
        inventory is Err ==> r is Err && r->Err_0@ == inventory_error_text(),
        inventory matches Ok(inv) ==> match materials_verdict_text(
            ingredients@,
            quantity as i32,
            inv@,
            recipe_missing_prefix(),
        ) {
            None => r is Ok,
            Some(t) => r is Err && r->Err_0@ == t,
        },
{
    proof {
        reveal_strlit("Ressources manquantes : ");
    }
    let times: i32 = quantity as i32;
    materials_verdict(ingredients, times, inventory, "Ressources manquantes : ")
}

} // verus!
