//! Crafting, harvesting, building and training as sequences of steps: the
//! checks a request goes through, in order, before its action is scheduled,
//! and what follows. The caller performs each action and reports its outcome.
use vstd::prelude::*;
use vstd::string::*;
use crate::handlers::checks::{inventory_error_text, lines_busy_text, no_lord_text, server_error_text};
use crate::handlers::scheduling::{
    no_yield_text,
    schedule_failure,
    schedule_failure_prefix,
    unknown_recipe,
    unknown_recipe_text,
    ScheduleRequest,
};
use crate::text::push_u64;

verus! {

/// What the lookup of the player's lord gave: its unit id, none, or an error.
#[derive(Clone, Copy, PartialEq, Eq, Structural, Debug)]
pub enum UnitLookup {
    Found(u64),
    Missing,
    Failed,
}

/// What checking the lord's inventory against the materials gave.
#[derive(Clone, Copy, PartialEq, Eq, Structural, Debug)]
pub enum MaterialsOutcome {
    Enough,
    /// Some are missing; the caller keeps the message that lists them.
    Missing,
    /// The inventory could not be read.
    InventoryFailed,
}

/// Why a request is refused.
#[derive(Clone, Copy, PartialEq, Eq, Structural, Debug)]
pub enum ProductionRefusal {
    UnknownRecipe,
    NoYield,
    NoLord,
    LordLookupFailed,
    InventoryFailed,
    MissingMaterials,
    LinesBusy { active: u64, max_lines: u64 },
    UnitsBusy,
    ScheduleFailed,
}

/// The message of a refusal of a request of `kind`. `detail` is, by refusal:
/// the recipe id; the resource type as `{:?}` prints it; the message listing
/// the missing materials; the message listing the busy units; the storage
/// error; it is unused for the others.
pub open spec fn production_refusal_text(
    kind: ScheduleRequest,
    refusal: ProductionRefusal,
    detail: Seq<char>,
) -> Seq<char> {
    match refusal {
        ProductionRefusal::UnknownRecipe => unknown_recipe_text(detail),
        ProductionRefusal::NoYield => no_yield_text(detail),
        ProductionRefusal::NoLord => no_lord_text(),
        ProductionRefusal::LordLookupFailed => server_error_text(),
        ProductionRefusal::InventoryFailed => inventory_error_text(),
        ProductionRefusal::MissingMaterials => detail,
        ProductionRefusal::LinesBusy { active, max_lines } => lines_busy_text(active, max_lines),
        ProductionRefusal::UnitsBusy => detail,
        ProductionRefusal::ScheduleFailed => schedule_failure_prefix(kind) + detail,
    }
}

/// The message sent to the player for a refused request.
pub fn production_refusal_message(kind: ScheduleRequest, refusal: ProductionRefusal, detail: &str) -> (s: String)
    ensures
        s@ == production_refusal_text(kind, refusal, detail@),
{
    match refusal {
        ProductionRefusal::UnknownRecipe => unknown_recipe(detail),
        ProductionRefusal::NoYield => {
            let mut s = String::from_str(
                "Aucun rendement de récolte défini pour ce type de ressource (",
            );
            s.append(detail);
            s.append(")");
            s
        },
        ProductionRefusal::NoLord => String::from_str("Aucun seigneur trouvé"),
        ProductionRefusal::LordLookupFailed => String::from_str("Erreur serveur"),
        ProductionRefusal::InventoryFailed => String::from_str("Erreur de chargement de l'inventaire"),
        ProductionRefusal::MissingMaterials | ProductionRefusal::UnitsBusy => String::from_str(detail),
        ProductionRefusal::LinesBusy { active, max_lines } => {
            let mut s = String::from_str("Toutes les lignes de production sont occupées (");
            push_u64(&mut s, active);
            s.append("/");
            push_u64(&mut s, max_lines);
            s.append(")");
            s
        },
        ProductionRefusal::ScheduleFailed => schedule_failure(kind, detail),
    }
}

/// What a request brings to its steps: whether its materials are checked
/// (`materials_check_required`: not skipped in dev mode, and some are
/// needed), whether it names units to put to work, and how long its action
/// lasts, in milliseconds, dev speed applied.
#[derive(Clone, Copy, PartialEq, Eq, Structural, Debug)]
pub struct ProductionPlan {
    pub check_materials: bool,
    pub has_units: bool,
    pub duration_ms: u64,
}

/// Crafting and harvesting first check that there is something to make (a
/// known recipe, a resource with a yield).
pub open spec fn has_precheck(kind: ScheduleRequest) -> bool {
    kind == ScheduleRequest::CraftResource || kind == ScheduleRequest::HarvestResource
}

/// Crafting, harvesting and building act for the player's lord.
pub open spec fn needs_lord(kind: ScheduleRequest) -> bool {
    kind == ScheduleRequest::CraftResource || kind == ScheduleRequest::HarvestResource || kind
        == ScheduleRequest::BuildBuilding
}

/// Crafting and building consume materials.
pub open spec fn uses_materials(kind: ScheduleRequest) -> bool {
    kind == ScheduleRequest::CraftResource || kind == ScheduleRequest::BuildBuilding
}

/// Crafting, harvesting and training take a production line of the building.
pub open spec fn uses_lines(kind: ScheduleRequest) -> bool {
    kind == ScheduleRequest::CraftResource || kind == ScheduleRequest::HarvestResource || kind
        == ScheduleRequest::TrainUnit
}

/// Crafting and harvesting put the chosen units to work.
pub open spec fn uses_units(kind: ScheduleRequest) -> bool {
    kind == ScheduleRequest::CraftResource || kind == ScheduleRequest::HarvestResource
}

/// Where a request stands.
#[derive(Clone, Copy, PartialEq, Eq, Structural, Debug)]
pub enum ProductionState {
    /// Nothing is checked yet.
    Start,
    LoadingLord,
    CheckingMaterials,
    CheckingLines,
    CheckingUnits,
    ReadingClock,
    Scheduling { completion_time: u64 },
    Assigning { action_id: u64, completion_time: u64 },
    Finished,
}

/// The outcome of the last action.
#[derive(Clone, Copy, PartialEq, Eq, Structural, Debug)]
pub enum ProductionEvent {
    /// The request was received; `known` tells whether the recipe was found
    /// (crafting) or the resource has a yield (harvesting).
    Received { known: bool },
    Lord(UnitLookup),
    Materials(MaterialsOutcome),
    /// The production lines of the building on the cell (`None`: no
    /// building, no limit) and how many production actions run there.
    Lines { max_lines: Option<u64>, active: u64 },
    /// How many of the chosen units already work on an action.
    BusyUnits(u64),
    /// The current time, in seconds since the epoch.
    Clock(u64),
    /// The action was stored under this id, or storing it failed.
    Scheduled(Option<u64>),
    /// The last action was carried out.
    Done,
}

/// What to do next.
#[derive(Clone, Copy, PartialEq, Eq, Structural, Debug)]
pub enum ProductionAction {
    Refuse(ProductionRefusal),
    LoadLord,
    /// Load the lord's inventory and compare it with the materials needed.
    CheckMaterials(u64),
    /// Read the building's production lines and the actions running there.
    CountLines,
    /// Find which of the chosen units already work.
    FindBusyUnits,
    ReadClock,
    /// Store the action, pending, from `start_time` for `duration_ms`,
    /// completing at `completion_time`.
    Schedule { start_time: u64, duration_ms: u64, completion_time: u64 },
    /// Put the chosen units to work on the action.
    AssignUnits(u64),
    /// Send the player the action's pending status.
    AnnouncePending { action_id: u64, completion_time: u64 },
    Stop,
}

/// The step after the lines check (or where it would come): the busy-units
/// check when the request puts units to work, else reading the clock.
pub open spec fn after_lines(kind: ScheduleRequest, plan: ProductionPlan) -> (
    ProductionState,
    ProductionAction,
) {
    if uses_units(kind) && plan.has_units {
        (ProductionState::CheckingUnits, ProductionAction::FindBusyUnits)
    } else {
        (ProductionState::ReadingClock, ProductionAction::ReadClock)
    }
}

/// The step after the materials check (or where it would come).
pub open spec fn after_materials(kind: ScheduleRequest, plan: ProductionPlan) -> (
    ProductionState,
    ProductionAction,
) {
    if uses_lines(kind) {
        (ProductionState::CheckingLines, ProductionAction::CountLines)
    } else {
        after_lines(kind, plan)
    }
}

/// The step once the lord is known (or where it would come).
pub open spec fn after_lord(kind: ScheduleRequest, plan: ProductionPlan, lord: u64) -> (
    ProductionState,
    ProductionAction,
) {
    if uses_materials(kind) && plan.check_materials {
        (ProductionState::CheckingMaterials, ProductionAction::CheckMaterials(lord))
    } else {
        after_materials(kind, plan)
    }
}

/// One step of a request of `kind`. The checks come in this order, each only
/// for the kinds that have it: something to make, the lord, the materials,
/// a free production line, idle units; then the action is stored and, once
/// stored, the units are put to work and the player told it is pending.
pub open spec fn spec_production_step(
    kind: ScheduleRequest,
    plan: ProductionPlan,
    s: ProductionState,
    e: ProductionEvent,
) -> (ProductionState, ProductionAction) {
    match (s, e) {
        (ProductionState::Start, ProductionEvent::Received { known }) => {
            if has_precheck(kind) && !known {
                (
                    ProductionState::Finished,
                    ProductionAction::Refuse(
                        if kind == ScheduleRequest::CraftResource {
                            ProductionRefusal::UnknownRecipe
                        } else {
                            ProductionRefusal::NoYield
                        },
                    ),
                )
            } else if needs_lord(kind) {
                (ProductionState::LoadingLord, ProductionAction::LoadLord)
            } else {
                after_lord(kind, plan, 0)
            }
        },
        (ProductionState::LoadingLord, ProductionEvent::Lord(l)) => match l {
            UnitLookup::Found(lord) => after_lord(kind, plan, lord),
            UnitLookup::Missing => (
                ProductionState::Finished,
                ProductionAction::Refuse(ProductionRefusal::NoLord),
            ),
            UnitLookup::Failed => (
                ProductionState::Finished,
                ProductionAction::Refuse(ProductionRefusal::LordLookupFailed),
            ),
        },
        (ProductionState::CheckingMaterials, ProductionEvent::Materials(m)) => match m {
            MaterialsOutcome::Enough => after_materials(kind, plan),
            MaterialsOutcome::Missing => (
                ProductionState::Finished,
                ProductionAction::Refuse(ProductionRefusal::MissingMaterials),
            ),
            MaterialsOutcome::InventoryFailed => (
                ProductionState::Finished,
                ProductionAction::Refuse(ProductionRefusal::InventoryFailed),
            ),
        },
        (ProductionState::CheckingLines, ProductionEvent::Lines { max_lines, active }) => match max_lines {
            Some(m) => {
                if active >= m {
                    (
                        ProductionState::Finished,
                        ProductionAction::Refuse(
                            ProductionRefusal::LinesBusy { active, max_lines: m },
                        ),
                    )
                } else {
                    after_lines(kind, plan)
                }
            },
            None => after_lines(kind, plan),
        },
        (ProductionState::CheckingUnits, ProductionEvent::BusyUnits(n)) => {
            if n > 0 {
                (
                    ProductionState::Finished,
                    ProductionAction::Refuse(ProductionRefusal::UnitsBusy),
                )
            } else {
                (ProductionState::ReadingClock, ProductionAction::ReadClock)
            }
        },
        (ProductionState::ReadingClock, ProductionEvent::Clock(now)) => {
            let completion_time = (now + plan.duration_ms / 1000) as u64;
            (
                ProductionState::Scheduling { completion_time },
                ProductionAction::Schedule {
                    start_time: now,
                    duration_ms: plan.duration_ms,
                    completion_time,
                },
            )
        },
        (ProductionState::Scheduling { completion_time }, ProductionEvent::Scheduled(o)) => match o {
            Some(action_id) => {
                if uses_units(kind) && plan.has_units {
                    (
                        ProductionState::Assigning { action_id, completion_time },
                        ProductionAction::AssignUnits(action_id),
                    )
                } else {
                    (
                        ProductionState::Finished,
                        ProductionAction::AnnouncePending { action_id, completion_time },
                    )
                }
            },
            None => (
                ProductionState::Finished,
                ProductionAction::Refuse(ProductionRefusal::ScheduleFailed),
            ),
        },
        (ProductionState::Assigning { action_id, completion_time }, ProductionEvent::Done) => (
            ProductionState::Finished,
            ProductionAction::AnnouncePending { action_id, completion_time },
        ),
        _ => (ProductionState::Finished, ProductionAction::Stop),
    }
}

fn next_after_lines(kind: ScheduleRequest, plan: ProductionPlan) -> (r: (
    ProductionState,
    ProductionAction,
))
    ensures
        r == after_lines(kind, plan),
{
    if (kind == ScheduleRequest::CraftResource || kind == ScheduleRequest::HarvestResource)
        && plan.has_units {
        (ProductionState::CheckingUnits, ProductionAction::FindBusyUnits)
    } else {
        (ProductionState::ReadingClock, ProductionAction::ReadClock)
    }
}

fn next_after_materials(kind: ScheduleRequest, plan: ProductionPlan) -> (r: (
    ProductionState,
    ProductionAction,
))
    ensures
        r == after_materials(kind, plan),
{
    if kind == ScheduleRequest::CraftResource || kind == ScheduleRequest::HarvestResource || kind
        == ScheduleRequest::TrainUnit {
        (ProductionState::CheckingLines, ProductionAction::CountLines)
    } else {
        next_after_lines(kind, plan)
    }
}

fn next_after_lord(kind: ScheduleRequest, plan: ProductionPlan, lord: u64) -> (r: (
    ProductionState,
    ProductionAction,
))
    ensures
        r == after_lord(kind, plan, lord),
{
    if (kind == ScheduleRequest::CraftResource || kind == ScheduleRequest::BuildBuilding)
        && plan.check_materials {
        (ProductionState::CheckingMaterials, ProductionAction::CheckMaterials(lord))
    } else {
        next_after_materials(kind, plan)
    }
}

/// One step of a crafting, harvesting, building or training request; see
/// `spec_production_step`.
pub fn production_step(kind: ScheduleRequest, plan: ProductionPlan, s: ProductionState, e: ProductionEvent) -> (r: (
    ProductionState,
    ProductionAction,
))
    requires
        e matches ProductionEvent::Clock(now) ==> now + plan.duration_ms / 1000 <= u64::MAX,
    ensures
        r == spec_production_step(kind, plan, s, e),
{
    match (s, e) {
        (ProductionState::Start, ProductionEvent::Received { known }) => {
            let prechecked = kind == ScheduleRequest::CraftResource || kind
                == ScheduleRequest::HarvestResource;
            if prechecked && !known {
                (
                    ProductionState::Finished,
                    ProductionAction::Refuse(
                        if kind == ScheduleRequest::CraftResource {
                            ProductionRefusal::UnknownRecipe
                        } else {
                            ProductionRefusal::NoYield
                        },
                    ),
                )
            } else if kind == ScheduleRequest::CraftResource || kind
                == ScheduleRequest::HarvestResource || kind == ScheduleRequest::BuildBuilding {
                (ProductionState::LoadingLord, ProductionAction::LoadLord)
            } else {
                next_after_lord(kind, plan, 0)
            }
        },
        (ProductionState::LoadingLord, ProductionEvent::Lord(l)) => match l {
            UnitLookup::Found(lord) => next_after_lord(kind, plan, lord),
            UnitLookup::Missing => (
                ProductionState::Finished,
                ProductionAction::Refuse(ProductionRefusal::NoLord),
            ),
            UnitLookup::Failed => (
                ProductionState::Finished,
                ProductionAction::Refuse(ProductionRefusal::LordLookupFailed),
            ),
        },
        (ProductionState::CheckingMaterials, ProductionEvent::Materials(m)) => match m {
            MaterialsOutcome::Enough => next_after_materials(kind, plan),
            MaterialsOutcome::Missing => (
                ProductionState::Finished,
                ProductionAction::Refuse(ProductionRefusal::MissingMaterials),
            ),
            MaterialsOutcome::InventoryFailed => (
                ProductionState::Finished,
                ProductionAction::Refuse(ProductionRefusal::InventoryFailed),
            ),
        },
        (ProductionState::CheckingLines, ProductionEvent::Lines { max_lines, active }) => match max_lines {
            Some(m) => {
                if active >= m {
                    (
                        ProductionState::Finished,
                        ProductionAction::Refuse(
                            ProductionRefusal::LinesBusy { active, max_lines: m },
                        ),
                    )
                } else {
                    next_after_lines(kind, plan)
                }
            },
            None => next_after_lines(kind, plan),
        },
        (ProductionState::CheckingUnits, ProductionEvent::BusyUnits(n)) => {
            if n > 0 {
                (
                    ProductionState::Finished,
                    ProductionAction::Refuse(ProductionRefusal::UnitsBusy),
                )
            } else {
                (ProductionState::ReadingClock, ProductionAction::ReadClock)
            }
        },
        (ProductionState::ReadingClock, ProductionEvent::Clock(now)) => {
            let completion_time = now + plan.duration_ms / 1000;
            (
                ProductionState::Scheduling { completion_time },
                ProductionAction::Schedule {
                    start_time: now,
                    duration_ms: plan.duration_ms,
                    completion_time,
                },
            )
        },
        (ProductionState::Scheduling { completion_time }, ProductionEvent::Scheduled(o)) => match o {
            Some(action_id) => {
                if (kind == ScheduleRequest::CraftResource || kind
                    == ScheduleRequest::HarvestResource) && plan.has_units {
                    (
                        ProductionState::Assigning { action_id, completion_time },
                        ProductionAction::AssignUnits(action_id),
                    )
                } else {
                    (
                        ProductionState::Finished,
                        ProductionAction::AnnouncePending { action_id, completion_time },
                    )
                }
            },
            None => (
                ProductionState::Finished,
                ProductionAction::Refuse(ProductionRefusal::ScheduleFailed),
            ),
        },
        (ProductionState::Assigning { action_id, completion_time }, ProductionEvent::Done) => (
            ProductionState::Finished,
            ProductionAction::AnnouncePending { action_id, completion_time },
        ),
        _ => (ProductionState::Finished, ProductionAction::Stop),
    }
}

/// Law: a refused request stops there, a finished one does nothing more, and
/// an action is stored only once every check has passed (from the clock
/// reading that follows them), for the request's duration, completing after
/// its whole seconds.
pub proof fn law_production_steps(
    kind: ScheduleRequest,
    plan: ProductionPlan,
    s: ProductionState,
    e: ProductionEvent,
)
    ensures
        spec_production_step(kind, plan, s, e).1 is Refuse ==> spec_production_step(
            kind,
            plan,
            s,
            e,
        ).0 == ProductionState::Finished,
        s == ProductionState::Finished ==> spec_production_step(kind, plan, s, e) == (
        ProductionState::Finished, ProductionAction::Stop),
        spec_production_step(kind, plan, s, e).1 matches ProductionAction::Schedule {
            start_time,
            duration_ms,
            completion_time,
        } ==> s == ProductionState::ReadingClock && e == ProductionEvent::Clock(start_time)
            && duration_ms == plan.duration_ms && completion_time == (start_time + plan.duration_ms
            / 1000) as u64,
{
}

/// Law: what each kind of request checks first. A craft of an unknown recipe
/// and a harvest of a resource without yield are refused; crafting,
/// harvesting and building then load the lord; training goes straight to its
/// production lines.
pub proof fn law_production_first_checks(plan: ProductionPlan, known: bool)
    ensures
        spec_production_step(ScheduleRequest::CraftResource, plan, ProductionState::Start, ProductionEvent::Received { known })
            == if known {
            (ProductionState::LoadingLord, ProductionAction::LoadLord)
        } else {
            (ProductionState::Finished, ProductionAction::Refuse(ProductionRefusal::UnknownRecipe))
        },
        spec_production_step(ScheduleRequest::HarvestResource, plan, ProductionState::Start, ProductionEvent::Received { known })
            == if known {
            (ProductionState::LoadingLord, ProductionAction::LoadLord)
        } else {
            (ProductionState::Finished, ProductionAction::Refuse(ProductionRefusal::NoYield))
        },
        spec_production_step(ScheduleRequest::BuildBuilding, plan, ProductionState::Start, ProductionEvent::Received { known })
            == (ProductionState::LoadingLord, ProductionAction::LoadLord),
        spec_production_step(ScheduleRequest::TrainUnit, plan, ProductionState::Start, ProductionEvent::Received { known })
            == (ProductionState::CheckingLines, ProductionAction::CountLines),
{
}

/// Law: once the lord is looked up. No lord, or a failed lookup, is refused.
/// With a lord, a craft or a building whose materials are checked goes to the
/// materials check (of the lord's inventory); otherwise a craft or a harvest
/// goes to the production lines and a building straight to the clock.
pub proof fn law_production_after_lord(kind: ScheduleRequest, plan: ProductionPlan, lord: u64)
    ensures
        spec_production_step(kind, plan, ProductionState::LoadingLord, ProductionEvent::Lord(UnitLookup::Missing))
            == (ProductionState::Finished, ProductionAction::Refuse(ProductionRefusal::NoLord)),
        spec_production_step(kind, plan, ProductionState::LoadingLord, ProductionEvent::Lord(UnitLookup::Failed))
            == (ProductionState::Finished, ProductionAction::Refuse(ProductionRefusal::LordLookupFailed)),
        (kind == ScheduleRequest::CraftResource || kind == ScheduleRequest::BuildBuilding)
            && plan.check_materials ==> spec_production_step(
            kind,
            plan,
            ProductionState::LoadingLord,
            ProductionEvent::Lord(UnitLookup::Found(lord)),
        ) == (ProductionState::CheckingMaterials, ProductionAction::CheckMaterials(lord)),
        (kind == ScheduleRequest::HarvestResource || (kind == ScheduleRequest::CraftResource
            && !plan.check_materials)) ==> spec_production_step(
            kind,
            plan,
            ProductionState::LoadingLord,
            ProductionEvent::Lord(UnitLookup::Found(lord)),
        ) == (ProductionState::CheckingLines, ProductionAction::CountLines),
        kind == ScheduleRequest::BuildBuilding && !plan.check_materials ==> spec_production_step(
            kind,
            plan,
            ProductionState::LoadingLord,
            ProductionEvent::Lord(UnitLookup::Found(lord)),
        ) == (ProductionState::ReadingClock, ProductionAction::ReadClock),
{
}

/// Law: the materials check. Missing materials and an unreadable inventory
/// are refused; with enough, a craft goes on to its production lines and a
/// building to the clock.
pub proof fn law_production_materials(kind: ScheduleRequest, plan: ProductionPlan)
    ensures
        spec_production_step(kind, plan, ProductionState::CheckingMaterials, ProductionEvent::Materials(MaterialsOutcome::Missing))
            == (ProductionState::Finished, ProductionAction::Refuse(ProductionRefusal::MissingMaterials)),
        spec_production_step(kind, plan, ProductionState::CheckingMaterials, ProductionEvent::Materials(MaterialsOutcome::InventoryFailed))
            == (ProductionState::Finished, ProductionAction::Refuse(ProductionRefusal::InventoryFailed)),
        spec_production_step(ScheduleRequest::CraftResource, plan, ProductionState::CheckingMaterials, ProductionEvent::Materials(MaterialsOutcome::Enough))
            == (ProductionState::CheckingLines, ProductionAction::CountLines),
        spec_production_step(ScheduleRequest::BuildBuilding, plan, ProductionState::CheckingMaterials, ProductionEvent::Materials(MaterialsOutcome::Enough))
            == (ProductionState::ReadingClock, ProductionAction::ReadClock),
{
}

/// Law: the production-line check refuses a request exactly when the building
/// has lines and all of them run (reporting the count); a request that passes
/// goes on to the busy-units check when it is a craft or a harvest with
/// chosen units, else to the clock.
pub proof fn law_production_lines(kind: ScheduleRequest, plan: ProductionPlan, max_lines: Option<u64>, active: u64)
    ensures
        (max_lines matches Some(m) && active >= m) ==> spec_production_step(
            kind,
            plan,
            ProductionState::CheckingLines,
            ProductionEvent::Lines { max_lines, active },
        ) == (
            ProductionState::Finished,
            ProductionAction::Refuse(ProductionRefusal::LinesBusy { active, max_lines: max_lines->0 }),
        ),
        !(max_lines matches Some(m) && active >= m) ==> spec_production_step(
            kind,
            plan,
            ProductionState::CheckingLines,
            ProductionEvent::Lines { max_lines, active },
        ) == if (kind == ScheduleRequest::CraftResource || kind == ScheduleRequest::HarvestResource)
            && plan.has_units {
            (ProductionState::CheckingUnits, ProductionAction::FindBusyUnits)
        } else {
            (ProductionState::ReadingClock, ProductionAction::ReadClock)
        },
{
}

/// Law: a request is refused when any chosen unit already works; only when
/// none does does it go on to the clock.
pub proof fn law_production_busy_units(kind: ScheduleRequest, plan: ProductionPlan, n: u64)
    ensures
        n > 0 ==> spec_production_step(kind, plan, ProductionState::CheckingUnits, ProductionEvent::BusyUnits(n))
            == (ProductionState::Finished, ProductionAction::Refuse(ProductionRefusal::UnitsBusy)),
        n == 0 ==> spec_production_step(kind, plan, ProductionState::CheckingUnits, ProductionEvent::BusyUnits(n))
            == (ProductionState::ReadingClock, ProductionAction::ReadClock),
{
}

/// Law: the action is stored from the clock reading, for the plan's duration,
/// completing after its whole seconds; a failed store is refused; a stored
/// craft or harvest with chosen units puts them to work before the pending
/// status is sent, other requests send it at once, with the action's id and
/// completion time.
pub proof fn law_production_scheduling(
    kind: ScheduleRequest,
    plan: ProductionPlan,
    now: u64,
    completion_time: u64,
    action_id: u64,
)
    requires
        now + plan.duration_ms / 1000 <= u64::MAX,
    ensures
        spec_production_step(kind, plan, ProductionState::ReadingClock, ProductionEvent::Clock(now)) == (
            ProductionState::Scheduling { completion_time: (now + plan.duration_ms / 1000) as u64 },
            ProductionAction::Schedule {
                start_time: now,
                duration_ms: plan.duration_ms,
                completion_time: (now + plan.duration_ms / 1000) as u64,
            },
        ),
        spec_production_step(kind, plan, ProductionState::Scheduling { completion_time }, ProductionEvent::Scheduled(None))
            == (ProductionState::Finished, ProductionAction::Refuse(ProductionRefusal::ScheduleFailed)),
        spec_production_step(kind, plan, ProductionState::Scheduling { completion_time }, ProductionEvent::Scheduled(Some(action_id)))
            == if (kind == ScheduleRequest::CraftResource || kind == ScheduleRequest::HarvestResource)
            && plan.has_units {
            (
                ProductionState::Assigning { action_id, completion_time },
                ProductionAction::AssignUnits(action_id),
            )
        } else {
            (ProductionState::Finished, ProductionAction::AnnouncePending { action_id, completion_time })
        },
        spec_production_step(kind, plan, ProductionState::Assigning { action_id, completion_time }, ProductionEvent::Done)
            == (ProductionState::Finished, ProductionAction::AnnouncePending { action_id, completion_time }),
{
}

} // verus!
