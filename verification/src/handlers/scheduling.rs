//! How long a requested action lasts, when it completes, and what the player
//! is told when it cannot be scheduled.
use vstd::prelude::*;
use vstd::string::*;
use crate::dev::dev_config::{sped_up, DevConfig};
use crate::grid::{hex_distance, unsigned_distance, GridCell};

verus! {

/// When an action that starts at `start_time` (seconds) and lasts
/// `duration_ms` completes, in whole seconds.
pub open spec fn spec_completion_time(start_time: u64, duration_ms: u64) -> int {
    start_time + duration_ms / 1000
}

/// The completion time of an action: its start plus its duration in whole seconds.
pub fn completion_time(start_time: u64, duration_ms: u64) -> (r: u64)
    requires
        spec_completion_time(start_time, duration_ms) <= u64::MAX,
    ensures
        r == spec_completion_time(start_time, duration_ms),
{
    start_time + duration_ms / 1000
}

/// Milliseconds that a move takes per cell crossed.
pub const MOVE_MS_PER_CELL: u64 = 2000;

/// Refusal of a move onto the cell the unit stands on.
pub open spec fn already_there_text() -> Seq<char> {
    "L'unité est déjà sur cette cellule"@
}

/// The duration of a move from `from` to `to`: two seconds per cell crossed,
/// sped up in dev mode; refused when the unit is already there.
pub fn move_duration(dev: &DevConfig, from: &GridCell, to: &GridCell) -> (r: Result<u64, String>)
    ensures
        hex_distance(*from, *to) == 0 ==> r is Err && r->Err_0@ == already_there_text(),
        hex_distance(*from, *to) != 0 ==> r == Ok::<u64, String>(
            sped_up(dev.speed_factor, (hex_distance(*from, *to) * 2000) as u64),
        ),
{
    let d = unsigned_distance(from, to);
    if d == 0 {
        return Err(String::from_str("L'unité est déjà sur cette cellule"));
    }
    assert(d <= 0x3_0000_0000) by {
        assert(hex_distance(*from, *to) <= 0x3_0000_0000);
    }
    Ok(dev.apply_speed(d * MOVE_MS_PER_CELL))
}

/// The duration of an action that lasts `seconds` seconds, sped up in dev mode.
pub fn seconds_duration(dev: &DevConfig, seconds: u64) -> (r: u64)
    requires
        seconds * 1000 <= u64::MAX,
    ensures
        r == sped_up(dev.speed_factor, (seconds * 1000) as u64),
{
    dev.apply_speed(seconds * 1000)
}

/// The duration of crafting `quantity` times a recipe that takes
/// `craft_seconds` seconds, sped up in dev mode.
pub fn craft_duration(dev: &DevConfig, craft_seconds: u64, quantity: u32) -> (r: u64)
    requires
        craft_seconds * 1000 * quantity <= u64::MAX,
    ensures
        r == sped_up(dev.speed_factor, (craft_seconds * 1000 * quantity) as u64),
{
    if quantity == 0 {
        assert(craft_seconds * 1000 * quantity == 0);
        return dev.apply_speed(0);
    }
    assert(craft_seconds * 1000 <= craft_seconds * 1000 * quantity) by (nonlinear_arith)
        requires
            quantity >= 1,
    ;
    let base: u64 = craft_seconds * 1000;
    dev.apply_speed(base * quantity as u64)
}

/// Refusal of a harvest of a resource that yields nothing.
pub open spec fn no_yield_text(resource: Seq<char>) -> Seq<char> {
    "Aucun rendement de récolte défini pour ce type de ressource ("@ + resource + ")"@
}

/// The duration of a harvest, from the duration in seconds of the first yield
/// listed for the resource (`None`: it has none, and the harvest is refused;
/// `resource` is the resource type as `{:?}` prints it).
pub fn harvest_duration(dev: &DevConfig, first_yield_seconds: Option<u64>, resource: &str) -> (r:
    Result<u64, String>)
    requires
        first_yield_seconds matches Some(s) ==> s * 1000 <= u64::MAX,
    ensures
        first_yield_seconds is None ==> r is Err && r->Err_0@ == no_yield_text(resource@),
        first_yield_seconds matches Some(s) ==> r == Ok::<u64, String>(
            sped_up(dev.speed_factor, (s * 1000) as u64),
        ),
{
    match first_yield_seconds {
        None => {
            let mut s = String::from_str(
                "Aucun rendement de récolte défini pour ce type de ressource (",
            );
            s.append(resource);
            s.append(")");
            Err(s)
        },
        Some(secs) => Ok(seconds_duration(dev, secs)),
    }
}

/// Refusal of a craft of an unknown recipe.
pub open spec fn unknown_recipe_text(recipe_id: Seq<char>) -> Seq<char> {
    "Recette inconnue : "@ + recipe_id
}

/// The message for a recipe that is neither a known id nor a known slug.
pub fn unknown_recipe(recipe_id: &str) -> (r: String)
    ensures
        r@ == unknown_recipe_text(recipe_id@),
{
    let mut s = String::from_str("Recette inconnue : ");
    s.append(recipe_id);
    s
}

/// The kind of request whose action could not be stored.
#[derive(Clone, Copy, PartialEq, Eq, Structural, Debug)]
pub enum ScheduleRequest {
    MoveUnit,
    BuildBuilding,
    BuildRoad,
    HarvestResource,
    CraftResource,
    TrainUnit,
}

/// The text put before the storage error when an action cannot be scheduled.
pub open spec fn schedule_failure_prefix(kind: ScheduleRequest) -> Seq<char> {
    match kind {
        ScheduleRequest::MoveUnit => "Échec de la planification: "@,
        ScheduleRequest::BuildBuilding => "Failed to schedule action: "@,
        ScheduleRequest::BuildRoad => "Failed to schedule action: "@,
        ScheduleRequest::HarvestResource => "Erreur : "@,
        ScheduleRequest::CraftResource => "Erreur lors de la planification : "@,
        ScheduleRequest::TrainUnit => "Failed to schedule training: "@,
    }
}

/// What the player is told when the action of a request of `kind` could not be
/// stored, `error` being the storage error.
pub fn schedule_failure(kind: ScheduleRequest, error: &str) -> (r: String)
    ensures
        r@ == schedule_failure_prefix(kind) + error@,
{
    let mut s = match kind {
        ScheduleRequest::MoveUnit => String::from_str("Échec de la planification: "),
        ScheduleRequest::BuildBuilding => String::from_str("Failed to schedule action: "),
        ScheduleRequest::BuildRoad => String::from_str("Failed to schedule action: "),
        ScheduleRequest::HarvestResource => String::from_str("Erreur : "),
        ScheduleRequest::CraftResource => String::from_str("Erreur lors de la planification : "),
        ScheduleRequest::TrainUnit => String::from_str("Failed to schedule training: "),
    };
    s.append(error);
    s
}

} // verus!
