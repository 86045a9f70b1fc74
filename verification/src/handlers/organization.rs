//! The checks of destroying a building and of dissolving an organization.
use vstd::prelude::*;
use vstd::string::*;

verus! {

/// Refusal when there is no building on the cell.
pub open spec fn no_building_text() -> Seq<char> {
    "Aucun bâtiment sur cette cellule"@
}

/// The building to destroy, from the lookup of the building on the cell: its
/// id, or the refusal when none was found (or the lookup failed).
pub fn building_to_destroy(lookup: Result<Option<i64>, String>) -> (r: Result<u64, String>)
    ensures
        lookup matches Ok(Some(id)) ==> r == Ok::<u64, String>(id as u64),
        !(lookup is Ok && lookup->Ok_0 is Some) ==> r is Err && r->Err_0@ == no_building_text(),
{
    match lookup {
        Ok(Some(id)) => Ok(id as u64),
        _ => Err(String::from_str("Aucun bâtiment sur cette cellule")),
    }
}

/// The organization that the player's lord leads, from its lookup; refused
/// with `refusal` when there is none (or the lookup failed).
fn led_organization(lookup: Result<Option<i64>, String>, refusal: &str) -> (r: Result<u64, String>)
    ensures
        lookup matches Ok(Some(id)) ==> r == Ok::<u64, String>(id as u64),
        !(lookup is Ok && lookup->Ok_0 is Some) ==> r is Err && r->Err_0@ == refusal@,
{
    match lookup {
        Ok(Some(id)) => Ok(id as u64),
        _ => Err(String::from_str(refusal)),
    }
}

/// The organization whose building is destroyed: the one the player's lord
/// leads, refused with `"Pas d'organisation"` when there is none.
pub fn destroying_organization(lookup: Result<Option<i64>, String>) -> (r: Result<u64, String>)
    ensures
        lookup matches Ok(Some(id)) ==> r == Ok::<u64, String>(id as u64),
        !(lookup is Ok && lookup->Ok_0 is Some) ==> r is Err && r->Err_0@ == "Pas d'organisation"@,
{
    led_organization(lookup, "Pas d'organisation")
}

/// The organization to dissolve: the one the player's lord leads, refused
/// with `"Pas d'organisation à dissoudre"` when there is none.
pub fn organization_to_liquidate(lookup: Result<Option<i64>, String>) -> (r: Result<u64, String>)
    ensures
        lookup matches Ok(Some(id)) ==> r == Ok::<u64, String>(id as u64),
        !(lookup is Ok && lookup->Ok_0 is Some) ==> r is Err && r->Err_0@
            == "Pas d'organisation à dissoudre"@,
{
    led_organization(lookup, "Pas d'organisation à dissoudre")
}

/// The check that the building's cell lies in the organization's territory,
/// from the owner of the cell's territory (`None`: no territory).
pub fn building_in_territory(owner: Option<i64>, org_id: u64) -> (r: Result<(), String>)
    ensures
        owner == Some(org_id as i64) ==> r is Ok,
        owner != Some(org_id as i64) ==> r is Err && r->Err_0@ == "Bâtiment hors de votre territoire"@,
{
    let own: i64 = org_id as i64;
    match owner {
        Some(o) => {
            if o == own {
                Ok(())
            } else {
                Err(String::from_str("Bâtiment hors de votre territoire"))
            }
        },
        None => Err(String::from_str("Bâtiment hors de votre territoire")),
    }
}

/// The message when the building could not be deleted.
pub fn deletion_failure(e: &str) -> (r: String)
    ensures
        r@ == "Échec: "@ + e@,
{
    let mut s = String::from_str("Échec: ");
    s.append(e);
    s
}

} // verus!
