//! The steps of founding a hamlet and of creating a lord: the checks between
//! the database reads, the timing of the founding and the names it gives.
use vstd::prelude::*;
use vstd::string::*;
use crate::dev::dev_config::{sped_up, DevConfig};
use crate::text::{decimal, push_i64, push_u64, signed_decimal};

verus! {

/// How long founding a hamlet takes (surveying and setting up camp), in seconds.
pub const FOUND_HAMLET_DURATION_SECS: u64 = 30;

/// Refusal when the player has no lord to found with.
pub open spec fn no_lord_lady_text() -> Seq<char> {
    "Vous n'avez pas de Lord/Lady"@
}

/// The lord that founds the hamlet, from the lookup of the player's lord (its
/// id), or the refusal: none, or `"Erreur: "` and the lookup error.
pub fn founding_lord(lookup: Result<Option<u64>, String>) -> (r: Result<u64, String>)
    ensures
        lookup matches Ok(Some(id)) ==> r == Ok::<u64, String>(id),
        lookup matches Ok(None) ==> r is Err && r->Err_0@ == no_lord_lady_text(),
        lookup matches Err(e) ==> r is Err && r->Err_0@ == "Erreur: "@ + e@,
{
    match lookup {
        Ok(Some(id)) => Ok(id),
        Ok(None) => Err(String::from_str("Vous n'avez pas de Lord/Lady")),
        Err(e) => {
            let mut s = String::from_str("Erreur: ");
            s.append(e.as_str());
            Err(s)
        },
    }
}

/// Refusal when the lord's cell already belongs to a territory.
pub open spec fn cell_taken_text() -> Seq<char> {
    "Cette cellule appartient déjà à un territoire"@
}

/// The check that the lord's cell is free, from the lookup of the territory
/// that owns it (`Some`: the owning organization).
pub fn founding_cell_free(owner: Result<Option<i64>, String>) -> (r: Result<(), String>)
    ensures
        owner matches Ok(None) ==> r is Ok,
        owner matches Ok(Some(_)) ==> r is Err && r->Err_0@ == cell_taken_text(),
        owner matches Err(e) ==> r is Err && r->Err_0@ == "Erreur DB: "@ + e@,
{
    match owner {
        Ok(None) => Ok(()),
        Ok(Some(_)) => Err(String::from_str("Cette cellule appartient déjà à un territoire")),
        Err(e) => {
            let mut s = String::from_str("Erreur DB: ");
            s.append(e.as_str());
            Err(s)
        },
    }
}

/// Refusal when the lord already leads organization `id`.
pub open spec fn already_leads_text(id: i64) -> Seq<char> {
    "Vous avez déjà une organisation (ID: "@ + signed_decimal(id as int) + ")"@
}

/// The check that the lord leads no organization yet, from the lookup of the
/// organization it leads.
pub fn founding_no_organization(led: Result<Option<i64>, String>) -> (r: Result<(), String>)
    ensures
        led matches Ok(None) ==> r is Ok,
        led matches Ok(Some(id)) ==> r is Err && r->Err_0@ == already_leads_text(id),
        led matches Err(e) ==> r is Err && r->Err_0@ == "Erreur DB: "@ + e@,
{
    match led {
        Ok(None) => Ok(()),
        Ok(Some(id)) => {
            let mut s = String::from_str("Vous avez déjà une organisation (ID: ");
            push_i64(&mut s, id);
            s.append(")");
            Err(s)
        },
        Err(e) => {
            let mut s = String::from_str("Erreur DB: ");
            s.append(e.as_str());
            Err(s)
        },
    }
}

/// When a founding started at `now` (seconds) runs and completes.
pub struct FoundingTiming {
    /// How long it lasts, in milliseconds, dev speed applied.
    pub duration_ms: u64,
    /// When it completes, in seconds.
    pub completion_time: u64,
    /// The id under which the client shows it.
    pub action_id: u64,
}

/// The timing of a founding started at `now`: thirty seconds, sped up in dev
/// mode; it completes after the whole seconds of that duration and is shown
/// under the id `now`.
pub fn founding_timing(dev: &DevConfig, now: u64) -> (t: FoundingTiming)
    requires
        now + FOUND_HAMLET_DURATION_SECS <= u64::MAX,
    ensures
        t.duration_ms == sped_up(dev.speed_factor, 30000),
        t.completion_time == now + t.duration_ms / 1000,
        t.action_id == now,
{
    let duration_ms = dev.apply_speed(FOUND_HAMLET_DURATION_SECS * 1000);
    assert(duration_ms <= FOUND_HAMLET_DURATION_SECS * 1000);
    let completion_time = now + duration_ms / 1000;
    FoundingTiming { duration_ms, completion_time, action_id: now }
}

/// The name of a hamlet founded by a family (`"Inconnu"` when the player's
/// family name could not be read).
pub open spec fn hamlet_name_text(family_name: Option<Seq<char>>) -> Seq<char> {
    "Hameau de "@ + match family_name {
        Some(f) => f,
        None => "Inconnu"@,
    }
}

/// The name given to a new hamlet: `"Hameau de "` and the family name.
pub fn hamlet_name(family_name: Option<String>) -> (r: String)
    ensures
        r@ == hamlet_name_text(
            match family_name {
                Some(f) => Some(f@),
                None => None,
            },
        ),
{
    let mut s = String::from_str("Hameau de ");
    match family_name {
        Some(f) => s.append(f.as_str()),
        None => s.append("Inconnu"),
    }
    s
}

/// Where a new hamlet's territory comes from.
#[derive(Clone, Copy, PartialEq, Eq, Structural, Debug)]
pub enum TerritoryClaim {
    /// The cells of the Voronoi zone with this id.
    Zone(i64),
    /// The founding cell and its neighbours.
    Neighbours,
}

/// How the territory is claimed: the whole Voronoi zone around the founding
/// cell when there is one, it is free and its cells could be computed;
/// otherwise the founding cell and its neighbours.
pub fn territory_claim(zone_at_cell: Option<i64>, zone_available: bool, zone_cells_known: bool) -> (r:
    TerritoryClaim)
    ensures
        zone_at_cell matches Some(z) ==> (zone_available && zone_cells_known ==> r
            == TerritoryClaim::Zone(z)),
        !(zone_at_cell is Some && zone_available && zone_cells_known) ==> r
            == TerritoryClaim::Neighbours,
{
    match zone_at_cell {
        Some(z) => {
            if zone_available && zone_cells_known {
                TerritoryClaim::Zone(z)
            } else {
                TerritoryClaim::Neighbours
            }
        },
        None => TerritoryClaim::Neighbours,
    }
}

/// Refusal of a second lord.
pub open spec fn lord_exists_text() -> Seq<char> {
    "Vous avez déjà un Lord/Lady"@
}

/// The check that the player has no lord yet, from the lookup of its lord.
pub fn lord_creation_allowed(lookup: Result<Option<u64>, String>) -> (r: Result<(), String>)
    ensures
        lookup matches Ok(None) ==> r is Ok,
        lookup matches Ok(Some(_)) ==> r is Err && r->Err_0@ == lord_exists_text(),
        lookup matches Err(e) ==> r is Err && r->Err_0@ == "Erreur: "@ + e@,
{
    match lookup {
        Ok(None) => Ok(()),
        Ok(Some(_)) => Err(String::from_str("Vous avez déjà un Lord/Lady")),
        Err(e) => {
            let mut s = String::from_str("Erreur: ");
            s.append(e.as_str());
            Err(s)
        },
    }
}

/// The avatar key of a new lord: `lord_<gender>_<player id>`.
pub open spec fn lord_avatar_text(gender: Seq<char>, player_id: u64) -> Seq<char> {
    "lord_"@ + gender + "_"@ + decimal(player_id as nat)
}

/// The avatar key given to a new lord.
pub fn lord_avatar(gender: &str, player_id: u64) -> (r: String)
    ensures
        r@ == lord_avatar_text(gender@, player_id),
{
    let mut s = String::from_str("lord_");
    s.append(gender);
    s.append("_");
    push_u64(&mut s, player_id);
    s
}

} // verus!
