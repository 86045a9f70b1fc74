//! Founding a hamlet as a sequence of steps: each step takes what the last
//! database operation (or the clock) gave and says what to do next. The
//! caller performs the actions and reports their outcome as the next event.
use vstd::prelude::*;
use vstd::string::*;
use crate::dev::dev_config::{sped_up, DevConfig};
use crate::grid::GridCell;
use crate::handlers::hamlet::{
    already_leads_text,
    cell_taken_text,
    founding_timing,
    no_lord_lady_text,
    FOUND_HAMLET_DURATION_SECS,
};
use crate::text::push_i64;

verus! {

/// What the lookup of an optional row gave: its id, no row, or a database
/// error (whose text the caller keeps for the refusal).
#[derive(Clone, Copy, PartialEq, Eq, Structural, Debug)]
pub enum Lookup {
    Found(i64),
    Missing,
    Failed,
}

/// What the lookup of the player's lord gave.
#[derive(Clone, Copy, PartialEq, Eq, Structural, Debug)]
pub enum LordLookup {
    /// The lord's unit id and the cell it stands on.
    Found { id: u64, cell: GridCell },
    Missing,
    Failed,
}

/// Why a founding is refused.
#[derive(Clone, Copy, PartialEq, Eq, Structural, Debug)]
pub enum FoundingRefusal {
    NoLord,
    LordLookupFailed,
    CellTaken,
    CellCheckFailed,
    AlreadyLeads(i64),
    LeaderCheckFailed,
    CreationFailed,
}

/// The message of a refusal; `detail` is the text of the database error
/// behind it, where there is one.
pub open spec fn founding_refusal_text(refusal: FoundingRefusal, detail: Seq<char>) -> Seq<char> {
    match refusal {
        FoundingRefusal::NoLord => no_lord_lady_text(),
        FoundingRefusal::LordLookupFailed => "Erreur: "@ + detail,
        FoundingRefusal::CellTaken => cell_taken_text(),
        FoundingRefusal::CellCheckFailed => "Erreur DB: "@ + detail,
        FoundingRefusal::AlreadyLeads(id) => already_leads_text(id),
        FoundingRefusal::LeaderCheckFailed => "Erreur DB: "@ + detail,
        FoundingRefusal::CreationFailed => "Échec de la création: "@ + detail,
    }
}

/// The message sent to the player for a refused founding.
pub fn founding_refusal_message(refusal: FoundingRefusal, detail: &str) -> (s: String)
    ensures
        s@ == founding_refusal_text(refusal, detail@),
{
    match refusal {
        FoundingRefusal::NoLord => String::from_str("Vous n'avez pas de Lord/Lady"),
        FoundingRefusal::LordLookupFailed => {
            let mut s = String::from_str("Erreur: ");
            s.append(detail);
            s
        },
        FoundingRefusal::CellTaken => String::from_str("Cette cellule appartient déjà à un territoire"),
        FoundingRefusal::CellCheckFailed | FoundingRefusal::LeaderCheckFailed => {
            let mut s = String::from_str("Erreur DB: ");
            s.append(detail);
            s
        },
        FoundingRefusal::AlreadyLeads(id) => {
            let mut s = String::from_str("Vous avez déjà une organisation (ID: ");
            push_i64(&mut s, id);
            s.append(")");
            s
        },
        FoundingRefusal::CreationFailed => {
            let mut s = String::from_str("Échec de la création: ");
            s.append(detail);
            s
        },
    }
}

/// The founding as it stands: the lord, its cell, the id under which the
/// client shows the founding, and the new organization, as far as known.
#[derive(Clone, Copy, PartialEq, Eq, Structural, Debug)]
pub enum FoundingState {
    /// The player's lord is being looked up.
    LoadingLord,
    /// The territory owning the lord's cell is being looked up.
    CheckingCell { lord: u64, cell: GridCell },
    /// The organization the lord leads is being looked up.
    CheckingLeadership { lord: u64, cell: GridCell },
    /// The checks passed; the clock is being read.
    Starting { lord: u64, cell: GridCell },
    /// The founding runs its course.
    Running { lord: u64, cell: GridCell, action_id: u64 },
    /// The hamlet organization is being created.
    Creating { lord: u64, cell: GridCell, action_id: u64 },
    /// The id of the base camp is being read.
    NumberingCamp { lord: u64, cell: GridCell, action_id: u64, org: u64 },
    /// The base camp is being created.
    PlacingCamp { lord: u64, cell: GridCell, action_id: u64, org: u64, camp: u64 },
    /// The base camp is being marked as built.
    FinishingCamp { lord: u64, cell: GridCell, action_id: u64, org: u64 },
    /// The starting population is being stored.
    Populating { lord: u64, cell: GridCell, action_id: u64, org: u64 },
    /// The Voronoi zone around the cell is being looked up.
    FindingZone { lord: u64, cell: GridCell, action_id: u64, org: u64 },
    /// Whether that zone is free is being checked.
    CheckingZone { lord: u64, cell: GridCell, action_id: u64, org: u64, zone: i64 },
    /// The cells of that zone are being computed.
    ComputingZone { lord: u64, cell: GridCell, action_id: u64, org: u64, zone: i64 },
    /// The territory is being claimed.
    Claiming { lord: u64, cell: GridCell, action_id: u64, org: u64 },
    /// The territory's contours are being drawn and sent.
    Outlining { lord: u64, cell: GridCell, action_id: u64, org: u64 },
    /// The player is being told of the new hamlet.
    Announcing { lord: u64, cell: GridCell, action_id: u64, org: u64 },
    /// The player is being sent the hamlet's population.
    Reporting { lord: u64, cell: GridCell, action_id: u64, org: u64 },
    /// The founding is being reported complete.
    Completing,
    /// Nothing more is to be done.
    Finished,
}

/// The outcome of the last action, as reported by the caller.
#[derive(Clone, Copy, PartialEq, Eq, Structural, Debug)]
pub enum FoundingEvent {
    Lord(LordLookup),
    CellOwner(Lookup),
    LedOrganization(Lookup),
    /// The current time, in seconds since the epoch.
    Clock(u64),
    /// The organization was created with this id, or its creation failed.
    OrganizationCreated(Option<u64>),
    /// The next free building id, or `None` when it could not be read.
    NextBuildingId(Option<i64>),
    /// Whether the base camp was created.
    CampCreated(bool),
    /// The Voronoi zone holding the cell (`None` also when the lookup failed).
    ZoneAtCell(Option<i64>),
    /// Whether the zone is free (`false` also when the check failed).
    ZoneAvailable(bool),
    /// Whether the zone's cells could be computed.
    ZoneCellsComputed(bool),
    /// The last action was carried out; its outcome decides nothing.
    Done,
}

/// What to do next.
#[derive(Clone, Copy, PartialEq, Eq, Structural, Debug)]
pub enum FoundingAction {
    /// Send the refusal's message to the player and stop.
    Refuse(FoundingRefusal),
    /// Look up the territory that owns the cell.
    CheckCellOwner(GridCell),
    /// Look up the organization that the lord leads.
    CheckLeadership(u64),
    /// Read the clock.
    ReadClock,
    /// Send the player the founding's in-progress status ("Fondation du
    /// hameau", under `action_id`, done at `completion_time`, by the lord),
    /// then wait `duration_ms` milliseconds.
    AnnounceAndWait { action_id: u64, completion_time: u64, duration_ms: u64, lord: u64, cell: GridCell },
    /// Create the hamlet organization, named after the player's family
    /// (`hamlet_name`), with its headquarters on the cell and the lord as founder.
    CreateOrganization { founder: u64, headquarters: GridCell },
    /// Read the next free building id.
    NumberCamp,
    /// Create a residential base camp with this id on the cell.
    CreateCamp { id: u64, cell: GridCell },
    /// Mark the base camp as built.
    MarkCampBuilt(u64),
    /// Store the organization's population.
    SetPopulation { org: u64, population: u32 },
    /// Look up the Voronoi zone holding the cell.
    FindZone(GridCell),
    /// Check whether the zone is free.
    CheckZone(i64),
    /// Compute the zone's cells.
    ComputeZone(i64),
    /// Give the organization every cell of the zone, and the zone itself.
    ClaimZone { org: u64, zone: i64 },
    /// Give the organization the cell and its neighbours.
    ClaimNeighbours { org: u64, cell: GridCell },
    /// Draw the territory's contours, store and broadcast them per chunk.
    DrawContours(u64),
    /// Tell the player the hamlet is founded, with its claimed cells.
    AnnounceFounded { org: u64, headquarters: GridCell },
    /// Send the player the population (no named unit yet) and the capacity.
    ReportPopulation { org: u64, population: u32 },
    /// Report the founding completed to the player and broadcast it.
    Complete { action_id: u64, lord: u64, cell: GridCell },
    /// Nothing more.
    Stop,
}

/// One step of a founding: from the stage it is at and the outcome of the
/// last action, the next stage and the next action. The checks come in this
/// order: the lord, its cell's owner, the organization it leads; then the
/// founding is announced and waited for, the organization created, the camp
/// placed, the population set to the camp's housing, the territory claimed
/// (the free Voronoi zone, else the cell and its neighbours), outlined,
/// announced, and the founding reported complete.
pub open spec fn spec_founding_step(
    speed_factor: u64,
    camp_capacity: u32,
    s: FoundingState,
    e: FoundingEvent,
) -> (FoundingState, FoundingAction) {
    match (s, e) {
        (FoundingState::LoadingLord, FoundingEvent::Lord(l)) => match l {
            LordLookup::Found { id, cell } => (
                FoundingState::CheckingCell { lord: id, cell },
                FoundingAction::CheckCellOwner(cell),
            ),
            LordLookup::Missing => (
                FoundingState::Finished,
                FoundingAction::Refuse(FoundingRefusal::NoLord),
            ),
            LordLookup::Failed => (
                FoundingState::Finished,
                FoundingAction::Refuse(FoundingRefusal::LordLookupFailed),
            ),
        },
        (FoundingState::CheckingCell { lord, cell }, FoundingEvent::CellOwner(o)) => match o {
            Lookup::Missing => (
                FoundingState::CheckingLeadership { lord, cell },
                FoundingAction::CheckLeadership(lord),
            ),
            Lookup::Found(_) => (
                FoundingState::Finished,
                FoundingAction::Refuse(FoundingRefusal::CellTaken),
            ),
            Lookup::Failed => (
                FoundingState::Finished,
                FoundingAction::Refuse(FoundingRefusal::CellCheckFailed),
            ),
        },
        (FoundingState::CheckingLeadership { lord, cell }, FoundingEvent::LedOrganization(o)) => match o {
            Lookup::Missing => (FoundingState::Starting { lord, cell }, FoundingAction::ReadClock),
            Lookup::Found(id) => (
                FoundingState::Finished,
                FoundingAction::Refuse(FoundingRefusal::AlreadyLeads(id)),
            ),
            Lookup::Failed => (
                FoundingState::Finished,
                FoundingAction::Refuse(FoundingRefusal::LeaderCheckFailed),
            ),
        },
        (FoundingState::Starting { lord, cell }, FoundingEvent::Clock(now)) => {
            let duration_ms = sped_up(speed_factor, (FOUND_HAMLET_DURATION_SECS * 1000) as u64);
            (
                FoundingState::Running { lord, cell, action_id: now },
                FoundingAction::AnnounceAndWait {
                    action_id: now,
                    completion_time: (now + duration_ms / 1000) as u64,
                    duration_ms,
                    lord,
                    cell,
                },
            )
        },
        (FoundingState::Running { lord, cell, action_id }, FoundingEvent::Done) => (
            FoundingState::Creating { lord, cell, action_id },
            FoundingAction::CreateOrganization { founder: lord, headquarters: cell },
        ),
        (FoundingState::Creating { lord, cell, action_id }, FoundingEvent::OrganizationCreated(o)) => match o {
            Some(org) => (
                FoundingState::NumberingCamp { lord, cell, action_id, org },
                FoundingAction::NumberCamp,
            ),
            None => (
                FoundingState::Finished,
                FoundingAction::Refuse(FoundingRefusal::CreationFailed),
            ),
        },
        (FoundingState::NumberingCamp { lord, cell, action_id, org }, FoundingEvent::NextBuildingId(n)) => {
            let camp: u64 = match n {
                Some(id) => id as u64,
                None => 1,
            };
            (
                FoundingState::PlacingCamp { lord, cell, action_id, org, camp },
                FoundingAction::CreateCamp { id: camp, cell },
            )
        },
        (FoundingState::PlacingCamp { lord, cell, action_id, org, camp }, FoundingEvent::CampCreated(ok)) => {
            if ok {
                (
                    FoundingState::FinishingCamp { lord, cell, action_id, org },
                    FoundingAction::MarkCampBuilt(camp),
                )
            } else {
                (
                    FoundingState::Populating { lord, cell, action_id, org },
                    FoundingAction::SetPopulation { org, population: camp_capacity },
                )
            }
        },
        (FoundingState::FinishingCamp { lord, cell, action_id, org }, FoundingEvent::Done) => (
            FoundingState::Populating { lord, cell, action_id, org },
            FoundingAction::SetPopulation { org, population: camp_capacity },
        ),
        (FoundingState::Populating { lord, cell, action_id, org }, FoundingEvent::Done) => (
            FoundingState::FindingZone { lord, cell, action_id, org },
            FoundingAction::FindZone(cell),
        ),
        (FoundingState::FindingZone { lord, cell, action_id, org }, FoundingEvent::ZoneAtCell(z)) => match z {
            Some(zone) => (
                FoundingState::CheckingZone { lord, cell, action_id, org, zone },
                FoundingAction::CheckZone(zone),
            ),
            None => (
                FoundingState::Claiming { lord, cell, action_id, org },
                FoundingAction::ClaimNeighbours { org, cell },
            ),
        },
        (FoundingState::CheckingZone { lord, cell, action_id, org, zone }, FoundingEvent::ZoneAvailable(free)) => {
            if free {
                (
                    FoundingState::ComputingZone { lord, cell, action_id, org, zone },
                    FoundingAction::ComputeZone(zone),
                )
            } else {
                (
                    FoundingState::Claiming { lord, cell, action_id, org },
                    FoundingAction::ClaimNeighbours { org, cell },
                )
            }
        },
        (FoundingState::ComputingZone { lord, cell, action_id, org, zone }, FoundingEvent::ZoneCellsComputed(ok)) => {
            if ok {
                (
                    FoundingState::Claiming { lord, cell, action_id, org },
                    FoundingAction::ClaimZone { org, zone },
                )
            } else {
                (
                    FoundingState::Claiming { lord, cell, action_id, org },
                    FoundingAction::ClaimNeighbours { org, cell },
                )
            }
        },
        (FoundingState::Claiming { lord, cell, action_id, org }, FoundingEvent::Done) => (
            FoundingState::Outlining { lord, cell, action_id, org },
            FoundingAction::DrawContours(org),
        ),
        (FoundingState::Outlining { lord, cell, action_id, org }, FoundingEvent::Done) => (
            FoundingState::Announcing { lord, cell, action_id, org },
            FoundingAction::AnnounceFounded { org, headquarters: cell },
        ),
        (FoundingState::Announcing { lord, cell, action_id, org }, FoundingEvent::Done) => (
            FoundingState::Reporting { lord, cell, action_id, org },
            FoundingAction::ReportPopulation { org, population: camp_capacity },
        ),
        (FoundingState::Reporting { lord, cell, action_id, org }, FoundingEvent::Done) => (
            FoundingState::Completing,
            FoundingAction::Complete { action_id, lord, cell },
        ),
        _ => (FoundingState::Finished, FoundingAction::Stop),
    }
}

/// One step of founding a hamlet; see `spec_founding_step`. `camp_capacity`
/// is the housing of a base camp, which becomes the starting population.
pub fn founding_step(dev: &DevConfig, camp_capacity: u32, s: FoundingState, e: FoundingEvent) -> (r: (
    FoundingState,
    FoundingAction,
))
    requires
        e matches FoundingEvent::Clock(now) ==> now <= u64::MAX - FOUND_HAMLET_DURATION_SECS,
    ensures
        r == spec_founding_step(dev.speed_factor, camp_capacity, s, e),
{
    match (s, e) {
        (FoundingState::LoadingLord, FoundingEvent::Lord(l)) => match l {
            LordLookup::Found { id, cell } => (
                FoundingState::CheckingCell { lord: id, cell },
                FoundingAction::CheckCellOwner(cell),
            ),
            LordLookup::Missing => (
                FoundingState::Finished,
                FoundingAction::Refuse(FoundingRefusal::NoLord),
            ),
            LordLookup::Failed => (
                FoundingState::Finished,
                FoundingAction::Refuse(FoundingRefusal::LordLookupFailed),
            ),
        },
        (FoundingState::CheckingCell { lord, cell }, FoundingEvent::CellOwner(o)) => match o {
            Lookup::Missing => (
                FoundingState::CheckingLeadership { lord, cell },
                FoundingAction::CheckLeadership(lord),
            ),
            Lookup::Found(_) => (
                FoundingState::Finished,
                FoundingAction::Refuse(FoundingRefusal::CellTaken),
            ),
            Lookup::Failed => (
                FoundingState::Finished,
                FoundingAction::Refuse(FoundingRefusal::CellCheckFailed),
            ),
        },
        (FoundingState::CheckingLeadership { lord, cell }, FoundingEvent::LedOrganization(o)) => match o {
            Lookup::Missing => (FoundingState::Starting { lord, cell }, FoundingAction::ReadClock),
            Lookup::Found(id) => (
                FoundingState::Finished,
                FoundingAction::Refuse(FoundingRefusal::AlreadyLeads(id)),
            ),
            Lookup::Failed => (
                FoundingState::Finished,
                FoundingAction::Refuse(FoundingRefusal::LeaderCheckFailed),
            ),
        },
        (FoundingState::Starting { lord, cell }, FoundingEvent::Clock(now)) => {
            let t = founding_timing(dev, now);
            (
                FoundingState::Running { lord, cell, action_id: t.action_id },
                FoundingAction::AnnounceAndWait {
                    action_id: t.action_id,
                    completion_time: t.completion_time,
                    duration_ms: t.duration_ms,
                    lord,
                    cell,
                },
            )
        },
        (FoundingState::Running { lord, cell, action_id }, FoundingEvent::Done) => (
            FoundingState::Creating { lord, cell, action_id },
            FoundingAction::CreateOrganization { founder: lord, headquarters: cell },
        ),
        (FoundingState::Creating { lord, cell, action_id }, FoundingEvent::OrganizationCreated(o)) => match o {
            Some(org) => (
                FoundingState::NumberingCamp { lord, cell, action_id, org },
                FoundingAction::NumberCamp,
            ),
            None => (
                FoundingState::Finished,
                FoundingAction::Refuse(FoundingRefusal::CreationFailed),
            ),
        },
        (FoundingState::NumberingCamp { lord, cell, action_id, org }, FoundingEvent::NextBuildingId(n)) => {
            let camp: u64 = match n {
                Some(id) => id as u64,
                None => 1,
            };
            (
                FoundingState::PlacingCamp { lord, cell, action_id, org, camp },
                FoundingAction::CreateCamp { id: camp, cell },
            )
        },
        (FoundingState::PlacingCamp { lord, cell, action_id, org, camp }, FoundingEvent::CampCreated(ok)) => {
            if ok {
                (
                    FoundingState::FinishingCamp { lord, cell, action_id, org },
                    FoundingAction::MarkCampBuilt(camp),
                )
            } else {
                (
                    FoundingState::Populating { lord, cell, action_id, org },
                    FoundingAction::SetPopulation { org, population: camp_capacity },
                )
            }
        },
        (FoundingState::FinishingCamp { lord, cell, action_id, org }, FoundingEvent::Done) => (
            FoundingState::Populating { lord, cell, action_id, org },
            FoundingAction::SetPopulation { org, population: camp_capacity },
        ),
        (FoundingState::Populating { lord, cell, action_id, org }, FoundingEvent::Done) => (
            FoundingState::FindingZone { lord, cell, action_id, org },
            FoundingAction::FindZone(cell),
        ),
        (FoundingState::FindingZone { lord, cell, action_id, org }, FoundingEvent::ZoneAtCell(z)) => match z {
            Some(zone) => (
                FoundingState::CheckingZone { lord, cell, action_id, org, zone },
                FoundingAction::CheckZone(zone),
            ),
            None => (
                FoundingState::Claiming { lord, cell, action_id, org },
                FoundingAction::ClaimNeighbours { org, cell },
            ),
        },
        (FoundingState::CheckingZone { lord, cell, action_id, org, zone }, FoundingEvent::ZoneAvailable(free)) => {
            if free {
                (
                    FoundingState::ComputingZone { lord, cell, action_id, org, zone },
                    FoundingAction::ComputeZone(zone),
                )
            } else {
                (
                    FoundingState::Claiming { lord, cell, action_id, org },
                    FoundingAction::ClaimNeighbours { org, cell },
                )
            }
        },
        (FoundingState::ComputingZone { lord, cell, action_id, org, zone }, FoundingEvent::ZoneCellsComputed(ok)) => {
            if ok {
                (
                    FoundingState::Claiming { lord, cell, action_id, org },
                    FoundingAction::ClaimZone { org, zone },
                )
            } else {
                (
                    FoundingState::Claiming { lord, cell, action_id, org },
                    FoundingAction::ClaimNeighbours { org, cell },
                )
            }
        },
        (FoundingState::Claiming { lord, cell, action_id, org }, FoundingEvent::Done) => (
            FoundingState::Outlining { lord, cell, action_id, org },
            FoundingAction::DrawContours(org),
        ),
        (FoundingState::Outlining { lord, cell, action_id, org }, FoundingEvent::Done) => (
            FoundingState::Announcing { lord, cell, action_id, org },
            FoundingAction::AnnounceFounded { org, headquarters: cell },
        ),
        (FoundingState::Announcing { lord, cell, action_id, org }, FoundingEvent::Done) => (
            FoundingState::Reporting { lord, cell, action_id, org },
            FoundingAction::ReportPopulation { org, population: camp_capacity },
        ),
        (FoundingState::Reporting { lord, cell, action_id, org }, FoundingEvent::Done) => (
            FoundingState::Completing,
            FoundingAction::Complete { action_id, lord, cell },
        ),
        _ => (FoundingState::Finished, FoundingAction::Stop),
    }
}

/// Law: a refused founding stops there, a finished one does nothing more,
/// and the population stored and reported is the base camp's housing.
pub proof fn law_founding_steps(speed_factor: u64, camp_capacity: u32, s: FoundingState, e: FoundingEvent)
    ensures
        spec_founding_step(speed_factor, camp_capacity, s, e).1 is Refuse ==> spec_founding_step(
            speed_factor,
            camp_capacity,
            s,
            e,
        ).0 == FoundingState::Finished,
        s == FoundingState::Finished ==> spec_founding_step(speed_factor, camp_capacity, s, e) == (
        FoundingState::Finished, FoundingAction::Stop),
        spec_founding_step(speed_factor, camp_capacity, s, e).1 matches FoundingAction::SetPopulation {
            population,
            ..
        } ==> population == camp_capacity,
        spec_founding_step(speed_factor, camp_capacity, s, e).1 matches FoundingAction::ReportPopulation {
            population,
            ..
        } ==> population == camp_capacity,
{
}

/// Law: the checks of a founding, in order. A player without a lord, or whose
/// lord cannot be read, is refused; then a cell already in a territory (or a
/// failed check) is refused; then a lord already leading an organization
/// (reporting its id), or a failed check; only then is the clock read.
pub proof fn law_founding_checks(
    speed_factor: u64,
    camp_capacity: u32,
    lord: u64,
    cell: GridCell,
    l: LordLookup,
    owner: Lookup,
    led: Lookup,
)
    ensures
        spec_founding_step(speed_factor, camp_capacity, FoundingState::LoadingLord, FoundingEvent::Lord(l))
            == match l {
            LordLookup::Found { id, cell: c } => (
                FoundingState::CheckingCell { lord: id, cell: c },
                FoundingAction::CheckCellOwner(c),
            ),
            LordLookup::Missing => (FoundingState::Finished, FoundingAction::Refuse(FoundingRefusal::NoLord)),
            LordLookup::Failed => (
                FoundingState::Finished,
                FoundingAction::Refuse(FoundingRefusal::LordLookupFailed),
            ),
        },
        spec_founding_step(
            speed_factor,
            camp_capacity,
            FoundingState::CheckingCell { lord, cell },
            FoundingEvent::CellOwner(owner),
        ) == match owner {
            Lookup::Missing => (
                FoundingState::CheckingLeadership { lord, cell },
                FoundingAction::CheckLeadership(lord),
            ),
            Lookup::Found(_) => (FoundingState::Finished, FoundingAction::Refuse(FoundingRefusal::CellTaken)),
            Lookup::Failed => (
                FoundingState::Finished,
                FoundingAction::Refuse(FoundingRefusal::CellCheckFailed),
            ),
        },
        spec_founding_step(
            speed_factor,
            camp_capacity,
            FoundingState::CheckingLeadership { lord, cell },
            FoundingEvent::LedOrganization(led),
        ) == match led {
            Lookup::Missing => (FoundingState::Starting { lord, cell }, FoundingAction::ReadClock),
            Lookup::Found(id) => (
                FoundingState::Finished,
                FoundingAction::Refuse(FoundingRefusal::AlreadyLeads(id)),
            ),
            Lookup::Failed => (
                FoundingState::Finished,
                FoundingAction::Refuse(FoundingRefusal::LeaderCheckFailed),
            ),
        },
{
}

/// Law: a founding started at `now` is shown under the id `now`, lasts thirty
/// seconds (sped up in dev mode; exactly thirty at normal speed), completes
/// after the whole seconds of that, and is carried out by the lord on its
/// cell; when it has run, the organization is created with the lord as
/// founder and the cell as headquarters; a failed creation is refused.
pub proof fn law_founding_start(
    speed_factor: u64,
    camp_capacity: u32,
    lord: u64,
    cell: GridCell,
    now: u64,
    action_id: u64,
    created: Option<u64>,
)
    requires
        now <= u64::MAX - 30,
    ensures
        spec_founding_step(speed_factor, camp_capacity, FoundingState::Starting { lord, cell }, FoundingEvent::Clock(now))
            == (
            FoundingState::Running { lord, cell, action_id: now },
            FoundingAction::AnnounceAndWait {
                action_id: now,
                completion_time: (now + sped_up(speed_factor, 30000) / 1000) as u64,
                duration_ms: sped_up(speed_factor, 30000),
                lord,
                cell,
            },
        ),
        speed_factor <= 1 ==> spec_founding_step(
            speed_factor,
            camp_capacity,
            FoundingState::Starting { lord, cell },
            FoundingEvent::Clock(now),
        ).1 == (FoundingAction::AnnounceAndWait {
            action_id: now,
            completion_time: (now + 30) as u64,
            duration_ms: 30000,
            lord,
            cell,
        }),
        spec_founding_step(speed_factor, camp_capacity, FoundingState::Running { lord, cell, action_id }, FoundingEvent::Done)
            == (
            FoundingState::Creating { lord, cell, action_id },
            FoundingAction::CreateOrganization { founder: lord, headquarters: cell },
        ),
        spec_founding_step(
            speed_factor,
            camp_capacity,
            FoundingState::Creating { lord, cell, action_id },
            FoundingEvent::OrganizationCreated(created),
        ) == match created {
            Some(org) => (FoundingState::NumberingCamp { lord, cell, action_id, org }, FoundingAction::NumberCamp),
            None => (FoundingState::Finished, FoundingAction::Refuse(FoundingRefusal::CreationFailed)),
        },
{
}

/// Law: the base camp gets the next building id (1 when it cannot be read)
/// and stands on the lord's cell; a created camp is marked built; whether or
/// not it was created, the population is then set to the camp's housing.
pub proof fn law_founding_camp(
    speed_factor: u64,
    camp_capacity: u32,
    lord: u64,
    cell: GridCell,
    action_id: u64,
    org: u64,
    next: Option<i64>,
    camp: u64,
    ok: bool,
)
    ensures
        spec_founding_step(
            speed_factor,
            camp_capacity,
            FoundingState::NumberingCamp { lord, cell, action_id, org },
            FoundingEvent::NextBuildingId(next),
        ) == ({
            let id: u64 = match next {
                Some(n) => n as u64,
                None => 1,
            };
            (
                FoundingState::PlacingCamp { lord, cell, action_id, org, camp: id },
                FoundingAction::CreateCamp { id, cell },
            )
        }),
        spec_founding_step(
            speed_factor,
            camp_capacity,
            FoundingState::PlacingCamp { lord, cell, action_id, org, camp },
            FoundingEvent::CampCreated(ok),
        ) == if ok {
            (FoundingState::FinishingCamp { lord, cell, action_id, org }, FoundingAction::MarkCampBuilt(camp))
        } else {
            (
                FoundingState::Populating { lord, cell, action_id, org },
                FoundingAction::SetPopulation { org, population: camp_capacity },
            )
        },
        spec_founding_step(
            speed_factor,
            camp_capacity,
            FoundingState::FinishingCamp { lord, cell, action_id, org },
            FoundingEvent::Done,
        ) == (
            FoundingState::Populating { lord, cell, action_id, org },
            FoundingAction::SetPopulation { org, population: camp_capacity },
        ),
        spec_founding_step(
            speed_factor,
            camp_capacity,
            FoundingState::Populating { lord, cell, action_id, org },
            FoundingEvent::Done,
        ) == (FoundingState::FindingZone { lord, cell, action_id, org }, FoundingAction::FindZone(cell)),
{
}

/// Law: the territory is the Voronoi zone around the cell when there is one,
/// it is free and its cells are known; in every other case the cell and its
/// neighbours are claimed.
pub proof fn law_founding_territory(
    speed_factor: u64,
    camp_capacity: u32,
    lord: u64,
    cell: GridCell,
    action_id: u64,
    org: u64,
    zone: i64,
    z: Option<i64>,
    free: bool,
    known: bool,
)
    ensures
        spec_founding_step(
            speed_factor,
            camp_capacity,
            FoundingState::FindingZone { lord, cell, action_id, org },
            FoundingEvent::ZoneAtCell(z),
        ) == match z {
            Some(zz) => (
                FoundingState::CheckingZone { lord, cell, action_id, org, zone: zz },
                FoundingAction::CheckZone(zz),
            ),
            None => (
                FoundingState::Claiming { lord, cell, action_id, org },
                FoundingAction::ClaimNeighbours { org, cell },
            ),
        },
        spec_founding_step(
            speed_factor,
            camp_capacity,
            FoundingState::CheckingZone { lord, cell, action_id, org, zone },
            FoundingEvent::ZoneAvailable(free),
        ) == if free {
            (
                FoundingState::ComputingZone { lord, cell, action_id, org, zone },
                FoundingAction::ComputeZone(zone),
            )
        } else {
            (FoundingState::Claiming { lord, cell, action_id, org }, FoundingAction::ClaimNeighbours { org, cell })
        },
        spec_founding_step(
            speed_factor,
            camp_capacity,
            FoundingState::ComputingZone { lord, cell, action_id, org, zone },
            FoundingEvent::ZoneCellsComputed(known),
        ) == if known {
            (FoundingState::Claiming { lord, cell, action_id, org }, FoundingAction::ClaimZone { org, zone })
        } else {
            (FoundingState::Claiming { lord, cell, action_id, org }, FoundingAction::ClaimNeighbours { org, cell })
        },
{
}

/// Law: after the claim, the contours are drawn, the player told of the
/// hamlet, sent its population (the camp's housing), and the founding is
/// reported complete under its id, by the lord, on its cell.
pub proof fn law_founding_end(speed_factor: u64, camp_capacity: u32, lord: u64, cell: GridCell, action_id: u64, org: u64)
    ensures
        spec_founding_step(speed_factor, camp_capacity, FoundingState::Claiming { lord, cell, action_id, org }, FoundingEvent::Done)
            == (FoundingState::Outlining { lord, cell, action_id, org }, FoundingAction::DrawContours(org)),
        spec_founding_step(speed_factor, camp_capacity, FoundingState::Outlining { lord, cell, action_id, org }, FoundingEvent::Done)
            == (
            FoundingState::Announcing { lord, cell, action_id, org },
            FoundingAction::AnnounceFounded { org, headquarters: cell },
        ),
        spec_founding_step(speed_factor, camp_capacity, FoundingState::Announcing { lord, cell, action_id, org }, FoundingEvent::Done)
            == (
            FoundingState::Reporting { lord, cell, action_id, org },
            FoundingAction::ReportPopulation { org, population: camp_capacity },
        ),
        spec_founding_step(speed_factor, camp_capacity, FoundingState::Reporting { lord, cell, action_id, org }, FoundingEvent::Done)
            == (FoundingState::Completing, FoundingAction::Complete { action_id, lord, cell }),
{
}

} // verus!
