//! Destroying a building and liquidating an organization as sequences of
//! steps: the checks in order, their refusals, and the deletions in the
//! order they must run.
use vstd::prelude::*;
use vstd::string::*;
use crate::handlers::founding::Lookup;
use crate::handlers::organization::no_building_text;
use crate::handlers::production::UnitLookup;

verus! {

/// Why destroying a building or liquidating an organization is refused.
#[derive(Clone, Copy, PartialEq, Eq, Structural, Debug)]
pub enum OrganizationRefusal {
    NoBuilding,
    NoOrganization,
    OutsideTerritory,
    DeletionFailed,
    NothingToLiquidate,
}

/// The message of a refusal; `detail` is the deletion error, where there is one.
pub open spec fn organization_refusal_text(refusal: OrganizationRefusal, detail: Seq<char>) -> Seq<
    char,
> {
    match refusal {
        OrganizationRefusal::NoBuilding => no_building_text(),
        OrganizationRefusal::NoOrganization => "Pas d'organisation"@,
        OrganizationRefusal::OutsideTerritory => "Bâtiment hors de votre territoire"@,
        OrganizationRefusal::DeletionFailed => "Échec: "@ + detail,
        OrganizationRefusal::NothingToLiquidate => "Pas d'organisation à dissoudre"@,
    }
}

/// The message sent to the player for a refusal.
pub fn organization_refusal_message(refusal: OrganizationRefusal, detail: &str) -> (s: String)
    ensures
        s@ == organization_refusal_text(refusal, detail@),
{
    match refusal {
        OrganizationRefusal::NoBuilding => String::from_str("Aucun bâtiment sur cette cellule"),
        OrganizationRefusal::NoOrganization => String::from_str("Pas d'organisation"),
        OrganizationRefusal::OutsideTerritory => String::from_str("Bâtiment hors de votre territoire"),
        OrganizationRefusal::DeletionFailed => {
            let mut s = String::from_str("Échec: ");
            s.append(detail);
            s
        },
        OrganizationRefusal::NothingToLiquidate => String::from_str("Pas d'organisation à dissoudre"),
    }
}

/// Where the destruction of a building stands.
#[derive(Clone, Copy, PartialEq, Eq, Structural, Debug)]
pub enum DestroyState {
    FindingBuilding,
    LoadingLord { building: u64 },
    FindingOrganization { building: u64 },
    CheckingTerritory { building: u64, org: u64 },
    FreeingUnits { building: u64, org: u64 },
    Deleting { building: u64, org: u64 },
    Recounting { building: u64, org: u64 },
    Clamping { building: u64, population: i32, capacity: u32 },
    Finished,
}

/// The outcome of the last action of a destruction.
#[derive(Clone, Copy, PartialEq, Eq, Structural, Debug)]
pub enum DestroyEvent {
    /// The building on the cell.
    Building(Lookup),
    Lord(UnitLookup),
    /// The organization the lord leads.
    Organization(Lookup),
    /// The organization whose territory holds the cell (`None` also when the
    /// lookup failed).
    TerritoryOwner(Option<i64>),
    /// Whether the building was deleted.
    Deleted(bool),
    /// The organization's housing capacity and current population.
    Population { capacity: u32, current: i32 },
    Done,
}

/// What to do next in a destruction.
#[derive(Clone, Copy, PartialEq, Eq, Structural, Debug)]
pub enum DestroyAction {
    Refuse(OrganizationRefusal),
    LoadLord,
    /// Look up the organization the lord leads.
    FindOrganization(u64),
    /// Look up whose territory holds the cell.
    CheckTerritory,
    /// Take the units on the cell (not the lord) out of their slots.
    FreeUnits,
    DeleteBuilding(u64),
    /// Read the organization's housing capacity and population.
    ReadPopulation(u64),
    /// Store the organization's new population.
    SetPopulation { org: u64, population: i32 },
    /// Tell the player the building is gone, with the population and capacity.
    AnnounceDestroyed { building: u64, population: i32, capacity: u32 },
    Stop,
}

/// The population kept after a building is gone: at most the capacity.
pub open spec fn clamped(current: i32, capacity: u32) -> i32 {
    if current <= capacity as i32 {
        current
    } else {
        capacity as i32
    }
}

/// One step of destroying the building on a cell: there must be a building;
/// without a lord nothing is done; the lord must lead an organization whose
/// territory holds the cell. Then the units are freed, the building deleted,
/// and the population cut down to the remaining housing.
pub open spec fn spec_destroy_step(s: DestroyState, e: DestroyEvent) -> (DestroyState, DestroyAction) {
    match (s, e) {
        (DestroyState::FindingBuilding, DestroyEvent::Building(b)) => match b {
            Lookup::Found(id) => (
                DestroyState::LoadingLord { building: id as u64 },
                DestroyAction::LoadLord,
            ),
            _ => (DestroyState::Finished, DestroyAction::Refuse(OrganizationRefusal::NoBuilding)),
        },
        (DestroyState::LoadingLord { building }, DestroyEvent::Lord(l)) => match l {
            UnitLookup::Found(lord) => (
                DestroyState::FindingOrganization { building },
                DestroyAction::FindOrganization(lord),
            ),
            _ => (DestroyState::Finished, DestroyAction::Stop),
        },
        (DestroyState::FindingOrganization { building }, DestroyEvent::Organization(o)) => match o {
            Lookup::Found(id) => (
                DestroyState::CheckingTerritory { building, org: id as u64 },
                DestroyAction::CheckTerritory,
            ),
            _ => (
                DestroyState::Finished,
                DestroyAction::Refuse(OrganizationRefusal::NoOrganization),
            ),
        },
        (DestroyState::CheckingTerritory { building, org }, DestroyEvent::TerritoryOwner(owner)) => {
            if owner == Some(org as i64) {
                (DestroyState::FreeingUnits { building, org }, DestroyAction::FreeUnits)
            } else {
                (
                    DestroyState::Finished,
                    DestroyAction::Refuse(OrganizationRefusal::OutsideTerritory),
                )
            }
        },
        (DestroyState::FreeingUnits { building, org }, DestroyEvent::Done) => (
            DestroyState::Deleting { building, org },
            DestroyAction::DeleteBuilding(building),
        ),
        (DestroyState::Deleting { building, org }, DestroyEvent::Deleted(ok)) => {
            if ok {
                (DestroyState::Recounting { building, org }, DestroyAction::ReadPopulation(org))
            } else {
                (
                    DestroyState::Finished,
                    DestroyAction::Refuse(OrganizationRefusal::DeletionFailed),
                )
            }
        },
        (DestroyState::Recounting { building, org }, DestroyEvent::Population { capacity, current }) => {
            let population = clamped(current, capacity);
            if population != current {
                (
                    DestroyState::Clamping { building, population, capacity },
                    DestroyAction::SetPopulation { org, population },
                )
            } else {
                (
                    DestroyState::Finished,
                    DestroyAction::AnnounceDestroyed { building, population, capacity },
                )
            }
        },
        (DestroyState::Clamping { building, population, capacity }, DestroyEvent::Done) => (
            DestroyState::Finished,
            DestroyAction::AnnounceDestroyed { building, population, capacity },
        ),
        _ => (DestroyState::Finished, DestroyAction::Stop),
    }
}

/// One step of destroying a building; see `spec_destroy_step`.
pub fn destroy_step(s: DestroyState, e: DestroyEvent) -> (r: (DestroyState, DestroyAction))
    ensures
        r == spec_destroy_step(s, e),
{
    match (s, e) {
        (DestroyState::FindingBuilding, DestroyEvent::Building(b)) => match b {
            Lookup::Found(id) => (
                DestroyState::LoadingLord { building: id as u64 },
                DestroyAction::LoadLord,
            ),
            _ => (DestroyState::Finished, DestroyAction::Refuse(OrganizationRefusal::NoBuilding)),
        },
        (DestroyState::LoadingLord { building }, DestroyEvent::Lord(l)) => match l {
            UnitLookup::Found(lord) => (
                DestroyState::FindingOrganization { building },
                DestroyAction::FindOrganization(lord),
            ),
            _ => (DestroyState::Finished, DestroyAction::Stop),
        },
        (DestroyState::FindingOrganization { building }, DestroyEvent::Organization(o)) => match o {
            Lookup::Found(id) => (
                DestroyState::CheckingTerritory { building, org: id as u64 },
                DestroyAction::CheckTerritory,
            ),
            _ => (
                DestroyState::Finished,
                DestroyAction::Refuse(OrganizationRefusal::NoOrganization),
            ),
        },
        (DestroyState::CheckingTerritory { building, org }, DestroyEvent::TerritoryOwner(owner)) => {
            let inside = match owner {
                Some(o) => o == org as i64,
                None => false,
            };
            if inside {
                (DestroyState::FreeingUnits { building, org }, DestroyAction::FreeUnits)
            } else {
                (
                    DestroyState::Finished,
                    DestroyAction::Refuse(OrganizationRefusal::OutsideTerritory),
                )
            }
        },
        (DestroyState::FreeingUnits { building, org }, DestroyEvent::Done) => (
            DestroyState::Deleting { building, org },
            DestroyAction::DeleteBuilding(building),
        ),
        (DestroyState::Deleting { building, org }, DestroyEvent::Deleted(ok)) => {
            if ok {
                (DestroyState::Recounting { building, org }, DestroyAction::ReadPopulation(org))
            } else {
                (
                    DestroyState::Finished,
                    DestroyAction::Refuse(OrganizationRefusal::DeletionFailed),
                )
            }
        },
        (DestroyState::Recounting { building, org }, DestroyEvent::Population { capacity, current }) => {
            let cap: i32 = capacity as i32;
            let population = if current <= cap {
                current
            } else {
                cap
            };
            if population != current {
                (
                    DestroyState::Clamping { building, population, capacity },
                    DestroyAction::SetPopulation { org, population },
                )
            } else {
                (
                    DestroyState::Finished,
                    DestroyAction::AnnounceDestroyed { building, population, capacity },
                )
            }
        },
        (DestroyState::Clamping { building, population, capacity }, DestroyEvent::Done) => (
            DestroyState::Finished,
            DestroyAction::AnnounceDestroyed { building, population, capacity },
        ),
        _ => (DestroyState::Finished, DestroyAction::Stop),
    }
}

/// Where a liquidation stands: after the checks, the deletions run one by one.
#[derive(Clone, Copy, PartialEq, Eq, Structural, Debug)]
pub enum LiquidationState {
    LoadingLord,
    FindingOrganization { lord: u64 },
    CollectingChunks { lord: u64, org: u64 },
    DeletingBuildings { lord: u64, org: u64 },
    DeletingContours { lord: u64, org: u64 },
    DeletingTerritory { lord: u64, org: u64 },
    DeletingMemberUnits { lord: u64, org: u64 },
    DeletingMembers { lord: u64, org: u64 },
    ResettingLord { org: u64 },
    DeletingOrganization { org: u64 },
    Finished,
}

/// The outcome of the last action of a liquidation.
#[derive(Clone, Copy, PartialEq, Eq, Structural, Debug)]
pub enum LiquidationEvent {
    Lord(UnitLookup),
    /// The organization the lord leads.
    Organization(Lookup),
    Done,
}

/// What to do next in a liquidation.
#[derive(Clone, Copy, PartialEq, Eq, Structural, Debug)]
pub enum LiquidationAction {
    Refuse(OrganizationRefusal),
    FindOrganization(u64),
    /// Collect the chunks holding buildings of the territory, before it goes.
    CollectChunks(u64),
    /// Delete the player-built buildings of the territory (trees stay).
    DeleteBuildings(u64),
    DeleteContours(u64),
    DeleteTerritory(u64),
    /// Delete the member units that are not the lord.
    DeleteMemberUnits(u64),
    DeleteMembers(u64),
    /// Take the lord out of its slot.
    ResetLordSlot(u64),
    DeleteOrganization(u64),
    /// Tell the player, with the chunks collected.
    AnnounceLiquidated(u64),
    Stop,
}

/// One step of liquidating the organization the player's lord leads: without
/// a lord nothing is done; without an organization it is refused. The
/// buildings go first (they are found through the territory), then the
/// contours, the territory, the member units, the members, the lord's slot
/// and the organization.
pub open spec fn spec_liquidation_step(s: LiquidationState, e: LiquidationEvent) -> (
    LiquidationState,
    LiquidationAction,
) {
    match (s, e) {
        (LiquidationState::LoadingLord, LiquidationEvent::Lord(l)) => match l {
            UnitLookup::Found(lord) => (
                LiquidationState::FindingOrganization { lord },
                LiquidationAction::FindOrganization(lord),
            ),
            _ => (LiquidationState::Finished, LiquidationAction::Stop),
        },
        (LiquidationState::FindingOrganization { lord }, LiquidationEvent::Organization(o)) => match o {
            Lookup::Found(id) => (
                LiquidationState::CollectingChunks { lord, org: id as u64 },
                LiquidationAction::CollectChunks(id as u64),
            ),
            _ => (
                LiquidationState::Finished,
                LiquidationAction::Refuse(OrganizationRefusal::NothingToLiquidate),
            ),
        },
        (LiquidationState::CollectingChunks { lord, org }, LiquidationEvent::Done) => (
            LiquidationState::DeletingBuildings { lord, org },
            LiquidationAction::DeleteBuildings(org),
        ),
        (LiquidationState::DeletingBuildings { lord, org }, LiquidationEvent::Done) => (
            LiquidationState::DeletingContours { lord, org },
            LiquidationAction::DeleteContours(org),
        ),
        (LiquidationState::DeletingContours { lord, org }, LiquidationEvent::Done) => (
            LiquidationState::DeletingTerritory { lord, org },
            LiquidationAction::DeleteTerritory(org),
        ),
        (LiquidationState::DeletingTerritory { lord, org }, LiquidationEvent::Done) => (
            LiquidationState::DeletingMemberUnits { lord, org },
            LiquidationAction::DeleteMemberUnits(org),
        ),
        (LiquidationState::DeletingMemberUnits { lord, org }, LiquidationEvent::Done) => (
            LiquidationState::DeletingMembers { lord, org },
            LiquidationAction::DeleteMembers(org),
        ),
        (LiquidationState::DeletingMembers { lord, org }, LiquidationEvent::Done) => (
            LiquidationState::ResettingLord { org },
            LiquidationAction::ResetLordSlot(lord),
        ),
        (LiquidationState::ResettingLord { org }, LiquidationEvent::Done) => (
            LiquidationState::DeletingOrganization { org },
            LiquidationAction::DeleteOrganization(org),
        ),
        (LiquidationState::DeletingOrganization { org }, LiquidationEvent::Done) => (
            LiquidationState::Finished,
            LiquidationAction::AnnounceLiquidated(org),
        ),
        _ => (LiquidationState::Finished, LiquidationAction::Stop),
    }
}

/// One step of liquidating an organization; see `spec_liquidation_step`.
pub fn liquidation_step(s: LiquidationState, e: LiquidationEvent) -> (r: (
    LiquidationState,
    LiquidationAction,
))
    ensures
        r == spec_liquidation_step(s, e),
{
    match (s, e) {
        (LiquidationState::LoadingLord, LiquidationEvent::Lord(l)) => match l {
            UnitLookup::Found(lord) => (
                LiquidationState::FindingOrganization { lord },
                LiquidationAction::FindOrganization(lord),
            ),
            _ => (LiquidationState::Finished, LiquidationAction::Stop),
        },
        (LiquidationState::FindingOrganization { lord }, LiquidationEvent::Organization(o)) => match o {
            Lookup::Found(id) => (
                LiquidationState::CollectingChunks { lord, org: id as u64 },
                LiquidationAction::CollectChunks(id as u64),
            ),
            _ => (
                LiquidationState::Finished,
                LiquidationAction::Refuse(OrganizationRefusal::NothingToLiquidate),
            ),
        },
        (LiquidationState::CollectingChunks { lord, org }, LiquidationEvent::Done) => (
            LiquidationState::DeletingBuildings { lord, org },
            LiquidationAction::DeleteBuildings(org),
        ),
        (LiquidationState::DeletingBuildings { lord, org }, LiquidationEvent::Done) => (
            LiquidationState::DeletingContours { lord, org },
            LiquidationAction::DeleteContours(org),
        ),
        (LiquidationState::DeletingContours { lord, org }, LiquidationEvent::Done) => (
            LiquidationState::DeletingTerritory { lord, org },
            LiquidationAction::DeleteTerritory(org),
        ),
        (LiquidationState::DeletingTerritory { lord, org }, LiquidationEvent::Done) => (
            LiquidationState::DeletingMemberUnits { lord, org },
            LiquidationAction::DeleteMemberUnits(org),
        ),
        (LiquidationState::DeletingMemberUnits { lord, org }, LiquidationEvent::Done) => (
            LiquidationState::DeletingMembers { lord, org },
            LiquidationAction::DeleteMembers(org),
        ),
        (LiquidationState::DeletingMembers { lord, org }, LiquidationEvent::Done) => (
            LiquidationState::ResettingLord { org },
            LiquidationAction::ResetLordSlot(lord),
        ),
        (LiquidationState::ResettingLord { org }, LiquidationEvent::Done) => (
            LiquidationState::DeletingOrganization { org },
            LiquidationAction::DeleteOrganization(org),
        ),
        (LiquidationState::DeletingOrganization { org }, LiquidationEvent::Done) => (
            LiquidationState::Finished,
            LiquidationAction::AnnounceLiquidated(org),
        ),
        _ => (LiquidationState::Finished, LiquidationAction::Stop),
    }
}

/// Why a debug organization could not be created.
#[derive(Clone, Copy, PartialEq, Eq, Structural, Debug)]
pub enum DebugRefusal {
    LeaderFailed,
    OrganizationFailed,
}

/// The message of a failed debug creation; `detail` is the database error.
pub open spec fn debug_refusal_text(refusal: DebugRefusal, detail: Seq<char>) -> Seq<char> {
    match refusal {
        DebugRefusal::LeaderFailed => "Failed to create leader unit: "@ + detail,
        DebugRefusal::OrganizationFailed => "Failed to create org: "@ + detail,
    }
}

/// The message sent for a failed debug creation.
pub fn debug_refusal_message(refusal: DebugRefusal, detail: &str) -> (s: String)
    ensures
        s@ == debug_refusal_text(refusal, detail@),
{
    let mut s = match refusal {
        DebugRefusal::LeaderFailed => String::from_str("Failed to create leader unit: "),
        DebugRefusal::OrganizationFailed => String::from_str("Failed to create org: "),
    };
    s.append(detail);
    s
}

/// Where the debug creation of an organization stands.
#[derive(Clone, Copy, PartialEq, Eq, Structural, Debug)]
pub enum DebugOrgState {
    CreatingLeader,
    CreatingOrganization,
    FindingZone { org: u64 },
    CheckingZone { org: u64, zone: i64 },
    ComputingZone { org: u64, zone: i64 },
    ClaimingZone { org: u64 },
    ClaimingNeighbours { org: u64 },
    Outlining { org: u64 },
    Finished,
}

/// The outcome of the last action of a debug creation.
#[derive(Clone, Copy, PartialEq, Eq, Structural, Debug)]
pub enum DebugOrgEvent {
    /// The leader unit's id, or `None` when its creation failed.
    LeaderCreated(Option<u64>),
    /// The organization's id, or `None` when its creation failed.
    OrganizationCreated(Option<u64>),
    /// The Voronoi zone holding the cell (`None` also when the lookup failed).
    ZoneAtCell(Option<i64>),
    /// Whether the zone is free (`false` also when the check failed).
    ZoneAvailable(bool),
    /// Whether the zone's cells could be computed.
    ZoneCellsComputed(bool),
    /// How many cells of the zone were claimed.
    Claimed(u64),
    Done,
}

/// What to do next in a debug creation.
#[derive(Clone, Copy, PartialEq, Eq, Structural, Debug)]
pub enum DebugOrgAction {
    Refuse(DebugRefusal),
    /// Create the leader: `Leader_<name>` of family `Debug`, a male merchant
    /// with a generated portrait, on the cell, of no player.
    CreateLeader,
    /// Create the organization, headquartered on the cell, led by the unit.
    CreateOrganization(u64),
    FindZone,
    CheckZone(i64),
    ComputeZone(i64),
    /// Give the organization each cell of the zone it can, and the zone.
    ClaimZone { org: u64, zone: i64 },
    /// Give the organization the cell and its neighbours.
    ClaimNeighbours(u64),
    /// Draw the territory's contours, store and broadcast them per chunk.
    DrawContours(u64),
    /// Tell the player the organization is created.
    AnnounceCreated(u64),
    Stop,
}

/// One step of creating an organization from the debug menu: the leader
/// first, then the organization; its territory is its free Voronoi zone, or,
/// where no cell of a zone could be claimed, the cell and its neighbours.
pub open spec fn spec_debug_org_step(s: DebugOrgState, e: DebugOrgEvent) -> (
    DebugOrgState,
    DebugOrgAction,
) {
    match (s, e) {
        (DebugOrgState::CreatingLeader, DebugOrgEvent::LeaderCreated(l)) => match l {
            Some(leader) => (
                DebugOrgState::CreatingOrganization,
                DebugOrgAction::CreateOrganization(leader),
            ),
            None => (DebugOrgState::Finished, DebugOrgAction::Refuse(DebugRefusal::LeaderFailed)),
        },
        (DebugOrgState::CreatingOrganization, DebugOrgEvent::OrganizationCreated(o)) => match o {
            Some(org) => (DebugOrgState::FindingZone { org }, DebugOrgAction::FindZone),
            None => (
                DebugOrgState::Finished,
                DebugOrgAction::Refuse(DebugRefusal::OrganizationFailed),
            ),
        },
        (DebugOrgState::FindingZone { org }, DebugOrgEvent::ZoneAtCell(z)) => match z {
            Some(zone) => (DebugOrgState::CheckingZone { org, zone }, DebugOrgAction::CheckZone(zone)),
            None => (DebugOrgState::ClaimingNeighbours { org }, DebugOrgAction::ClaimNeighbours(org)),
        },
        (DebugOrgState::CheckingZone { org, zone }, DebugOrgEvent::ZoneAvailable(free)) => {
            if free {
                (DebugOrgState::ComputingZone { org, zone }, DebugOrgAction::ComputeZone(zone))
            } else {
                (DebugOrgState::ClaimingNeighbours { org }, DebugOrgAction::ClaimNeighbours(org))
            }
        },
        (DebugOrgState::ComputingZone { org, zone }, DebugOrgEvent::ZoneCellsComputed(ok)) => {
            if ok {
                (DebugOrgState::ClaimingZone { org }, DebugOrgAction::ClaimZone { org, zone })
            } else {
                (DebugOrgState::ClaimingNeighbours { org }, DebugOrgAction::ClaimNeighbours(org))
            }
        },
        (DebugOrgState::ClaimingZone { org }, DebugOrgEvent::Claimed(n)) => {
            if n == 0 {
                (DebugOrgState::ClaimingNeighbours { org }, DebugOrgAction::ClaimNeighbours(org))
            } else {
                (DebugOrgState::Outlining { org }, DebugOrgAction::DrawContours(org))
            }
        },
        (DebugOrgState::ClaimingNeighbours { org }, DebugOrgEvent::Done) => (
            DebugOrgState::Outlining { org },
            DebugOrgAction::DrawContours(org),
        ),
        (DebugOrgState::Outlining { org }, DebugOrgEvent::Done) => (
            DebugOrgState::Finished,
            DebugOrgAction::AnnounceCreated(org),
        ),
        _ => (DebugOrgState::Finished, DebugOrgAction::Stop),
    }
}

/// One step of creating an organization from the debug menu; see
/// `spec_debug_org_step`.
pub fn debug_org_step(s: DebugOrgState, e: DebugOrgEvent) -> (r: (DebugOrgState, DebugOrgAction))
    ensures
        r == spec_debug_org_step(s, e),
{
    match (s, e) {
        (DebugOrgState::CreatingLeader, DebugOrgEvent::LeaderCreated(l)) => match l {
            Some(leader) => (
                DebugOrgState::CreatingOrganization,
                DebugOrgAction::CreateOrganization(leader),
            ),
            None => (DebugOrgState::Finished, DebugOrgAction::Refuse(DebugRefusal::LeaderFailed)),
        },
        (DebugOrgState::CreatingOrganization, DebugOrgEvent::OrganizationCreated(o)) => match o {
            Some(org) => (DebugOrgState::FindingZone { org }, DebugOrgAction::FindZone),
            None => (
                DebugOrgState::Finished,
                DebugOrgAction::Refuse(DebugRefusal::OrganizationFailed),
            ),
        },
        (DebugOrgState::FindingZone { org }, DebugOrgEvent::ZoneAtCell(z)) => match z {
            Some(zone) => (DebugOrgState::CheckingZone { org, zone }, DebugOrgAction::CheckZone(zone)),
            None => (DebugOrgState::ClaimingNeighbours { org }, DebugOrgAction::ClaimNeighbours(org)),
        },
        (DebugOrgState::CheckingZone { org, zone }, DebugOrgEvent::ZoneAvailable(free)) => {
            if free {
                (DebugOrgState::ComputingZone { org, zone }, DebugOrgAction::ComputeZone(zone))
            } else {
                (DebugOrgState::ClaimingNeighbours { org }, DebugOrgAction::ClaimNeighbours(org))
            }
        },
        (DebugOrgState::ComputingZone { org, zone }, DebugOrgEvent::ZoneCellsComputed(ok)) => {
            if ok {
                (DebugOrgState::ClaimingZone { org }, DebugOrgAction::ClaimZone { org, zone })
            } else {
                (DebugOrgState::ClaimingNeighbours { org }, DebugOrgAction::ClaimNeighbours(org))
            }
        },
        (DebugOrgState::ClaimingZone { org }, DebugOrgEvent::Claimed(n)) => {
            if n == 0 {
                (DebugOrgState::ClaimingNeighbours { org }, DebugOrgAction::ClaimNeighbours(org))
            } else {
                (DebugOrgState::Outlining { org }, DebugOrgAction::DrawContours(org))
            }
        },
        (DebugOrgState::ClaimingNeighbours { org }, DebugOrgEvent::Done) => (
            DebugOrgState::Outlining { org },
            DebugOrgAction::DrawContours(org),
        ),
        (DebugOrgState::Outlining { org }, DebugOrgEvent::Done) => (
            DebugOrgState::Finished,
            DebugOrgAction::AnnounceCreated(org),
        ),
        _ => (DebugOrgState::Finished, DebugOrgAction::Stop),
    }
}

/// Law: a refused destruction stops there; once the building is gone, the
/// population announced never exceeds the remaining housing, and where the
/// population changes it is cut down to that housing; a liquidation
/// deletes the organization only after its members, and announces only
/// after the organization is gone.
pub proof fn law_organization_steps(
    ds: DestroyState,
    de: DestroyEvent,
    ls: LiquidationState,
    le: LiquidationEvent,
)
    ensures
        spec_destroy_step(ds, de).1 is Refuse ==> spec_destroy_step(ds, de).0
            == DestroyState::Finished,
        ds is Recounting ==> (spec_destroy_step(ds, de).1 matches DestroyAction::AnnounceDestroyed {
            population,
            capacity,
            ..
        } ==> population <= capacity as i32),
        spec_destroy_step(ds, de).1 matches DestroyAction::SetPopulation { population, .. }
            ==> de matches DestroyEvent::Population { capacity, current } && population
            == capacity as i32 && current > capacity as i32,
        spec_liquidation_step(ls, le).1 is DeleteOrganization ==> ls is ResettingLord,
        spec_liquidation_step(ls, le).1 is AnnounceLiquidated ==> ls is DeletingOrganization,
{
}

/// Law: the checks of a destruction. A building found on the cell leads to
/// loading the lord; no building (or a failed lookup) is refused. Without a
/// lord the destruction stops silently. An organization led by the lord leads
/// to the territory check; none is refused. The destruction goes on to free
/// the units only when the cell's territory belongs to that organization;
/// a cell of another organization's territory, or of none, is refused.
pub proof fn law_destroy_checks(building: u64, org: u64, b: Lookup, l: UnitLookup, o: Lookup, owner: Option<i64>)
    ensures
        spec_destroy_step(DestroyState::FindingBuilding, DestroyEvent::Building(b)) == match b {
            Lookup::Found(id) => (DestroyState::LoadingLord { building: id as u64 }, DestroyAction::LoadLord),
            _ => (DestroyState::Finished, DestroyAction::Refuse(OrganizationRefusal::NoBuilding)),
        },
        spec_destroy_step(DestroyState::LoadingLord { building }, DestroyEvent::Lord(l)) == match l {
            UnitLookup::Found(lord) => (
                DestroyState::FindingOrganization { building },
                DestroyAction::FindOrganization(lord),
            ),
            _ => (DestroyState::Finished, DestroyAction::Stop),
        },
        spec_destroy_step(DestroyState::FindingOrganization { building }, DestroyEvent::Organization(o))
            == match o {
            Lookup::Found(id) => (
                DestroyState::CheckingTerritory { building, org: id as u64 },
                DestroyAction::CheckTerritory,
            ),
            _ => (DestroyState::Finished, DestroyAction::Refuse(OrganizationRefusal::NoOrganization)),
        },
        owner == Some(org as i64) ==> spec_destroy_step(
            DestroyState::CheckingTerritory { building, org },
            DestroyEvent::TerritoryOwner(owner),
        ) == (DestroyState::FreeingUnits { building, org }, DestroyAction::FreeUnits),
        owner != Some(org as i64) ==> spec_destroy_step(
            DestroyState::CheckingTerritory { building, org },
            DestroyEvent::TerritoryOwner(owner),
        ) == (DestroyState::Finished, DestroyAction::Refuse(OrganizationRefusal::OutsideTerritory)),
{
}

/// Law: after the checks, the units are freed, then the building deleted (a
/// failed deletion is refused), then the population read; a population above
/// the remaining housing is set to that housing before the announcement, one
/// within it is announced as it is.
pub proof fn law_destroy_effects(building: u64, org: u64, ok: bool, capacity: u32, current: i32, population: i32)
    ensures
        spec_destroy_step(DestroyState::FreeingUnits { building, org }, DestroyEvent::Done) == (
            DestroyState::Deleting { building, org },
            DestroyAction::DeleteBuilding(building),
        ),
        spec_destroy_step(DestroyState::Deleting { building, org }, DestroyEvent::Deleted(ok)) == if ok {
            (DestroyState::Recounting { building, org }, DestroyAction::ReadPopulation(org))
        } else {
            (DestroyState::Finished, DestroyAction::Refuse(OrganizationRefusal::DeletionFailed))
        },
        current > capacity as i32 ==> spec_destroy_step(
            DestroyState::Recounting { building, org },
            DestroyEvent::Population { capacity, current },
        ) == (
            DestroyState::Clamping { building, population: capacity as i32, capacity },
            DestroyAction::SetPopulation { org, population: capacity as i32 },
        ),
        current <= capacity as i32 ==> spec_destroy_step(
            DestroyState::Recounting { building, org },
            DestroyEvent::Population { capacity, current },
        ) == (
            DestroyState::Finished,
            DestroyAction::AnnounceDestroyed { building, population: current, capacity },
        ),
        spec_destroy_step(DestroyState::Clamping { building, population, capacity }, DestroyEvent::Done)
            == (
            DestroyState::Finished,
            DestroyAction::AnnounceDestroyed { building, population, capacity },
        ),
{
}

/// Law: a liquidation without a lord stops silently; without an organization
/// it is refused; otherwise the chunks are collected and then, one step each,
/// the buildings, contours, territory, member units and members are deleted,
/// the lord's slot reset, the organization deleted and the player told.
pub proof fn law_liquidation_order(lord: u64, org: u64, l: UnitLookup, o: Lookup)
    ensures
        spec_liquidation_step(LiquidationState::LoadingLord, LiquidationEvent::Lord(l)) == match l {
            UnitLookup::Found(id) => (
                LiquidationState::FindingOrganization { lord: id },
                LiquidationAction::FindOrganization(id),
            ),
            _ => (LiquidationState::Finished, LiquidationAction::Stop),
        },
        spec_liquidation_step(LiquidationState::FindingOrganization { lord }, LiquidationEvent::Organization(o))
            == match o {
            Lookup::Found(id) => (
                LiquidationState::CollectingChunks { lord, org: id as u64 },
                LiquidationAction::CollectChunks(id as u64),
            ),
            _ => (
                LiquidationState::Finished,
                LiquidationAction::Refuse(OrganizationRefusal::NothingToLiquidate),
            ),
        },
        spec_liquidation_step(LiquidationState::CollectingChunks { lord, org }, LiquidationEvent::Done)
            == (LiquidationState::DeletingBuildings { lord, org }, LiquidationAction::DeleteBuildings(org)),
        spec_liquidation_step(LiquidationState::DeletingBuildings { lord, org }, LiquidationEvent::Done)
            == (LiquidationState::DeletingContours { lord, org }, LiquidationAction::DeleteContours(org)),
        spec_liquidation_step(LiquidationState::DeletingContours { lord, org }, LiquidationEvent::Done)
            == (LiquidationState::DeletingTerritory { lord, org }, LiquidationAction::DeleteTerritory(org)),
        spec_liquidation_step(LiquidationState::DeletingTerritory { lord, org }, LiquidationEvent::Done)
            == (
            LiquidationState::DeletingMemberUnits { lord, org },
            LiquidationAction::DeleteMemberUnits(org),
        ),
        spec_liquidation_step(LiquidationState::DeletingMemberUnits { lord, org }, LiquidationEvent::Done)
            == (LiquidationState::DeletingMembers { lord, org }, LiquidationAction::DeleteMembers(org)),
        spec_liquidation_step(LiquidationState::DeletingMembers { lord, org }, LiquidationEvent::Done)
            == (LiquidationState::ResettingLord { org }, LiquidationAction::ResetLordSlot(lord)),
        spec_liquidation_step(LiquidationState::ResettingLord { org }, LiquidationEvent::Done) == (
            LiquidationState::DeletingOrganization { org },
            LiquidationAction::DeleteOrganization(org),
        ),
        spec_liquidation_step(LiquidationState::DeletingOrganization { org }, LiquidationEvent::Done)
            == (LiquidationState::Finished, LiquidationAction::AnnounceLiquidated(org)),
{
}

/// Law: a debug organization is created after its leader (either failure is
/// refused); its territory is its Voronoi zone when the zone exists, is free,
/// its cells are known and at least one was claimed; otherwise the cell and
/// its neighbours; then the contours are drawn and the player told.
pub proof fn law_debug_org_flow(
    org: u64,
    zone: i64,
    leader: Option<u64>,
    created: Option<u64>,
    z: Option<i64>,
    free: bool,
    known: bool,
    claimed: u64,
)
    ensures
        spec_debug_org_step(DebugOrgState::CreatingLeader, DebugOrgEvent::LeaderCreated(leader)) == match leader {
            Some(u) => (DebugOrgState::CreatingOrganization, DebugOrgAction::CreateOrganization(u)),
            None => (DebugOrgState::Finished, DebugOrgAction::Refuse(DebugRefusal::LeaderFailed)),
        },
        spec_debug_org_step(DebugOrgState::CreatingOrganization, DebugOrgEvent::OrganizationCreated(created))
            == match created {
            Some(o) => (DebugOrgState::FindingZone { org: o }, DebugOrgAction::FindZone),
            None => (DebugOrgState::Finished, DebugOrgAction::Refuse(DebugRefusal::OrganizationFailed)),
        },
        spec_debug_org_step(DebugOrgState::FindingZone { org }, DebugOrgEvent::ZoneAtCell(z)) == match z {
            Some(zz) => (DebugOrgState::CheckingZone { org, zone: zz }, DebugOrgAction::CheckZone(zz)),
            None => (DebugOrgState::ClaimingNeighbours { org }, DebugOrgAction::ClaimNeighbours(org)),
        },
        spec_debug_org_step(DebugOrgState::CheckingZone { org, zone }, DebugOrgEvent::ZoneAvailable(free))
            == if free {
            (DebugOrgState::ComputingZone { org, zone }, DebugOrgAction::ComputeZone(zone))
        } else {
            (DebugOrgState::ClaimingNeighbours { org }, DebugOrgAction::ClaimNeighbours(org))
        },
        spec_debug_org_step(DebugOrgState::ComputingZone { org, zone }, DebugOrgEvent::ZoneCellsComputed(known))
            == if known {
            (DebugOrgState::ClaimingZone { org }, DebugOrgAction::ClaimZone { org, zone })
        } else {
            (DebugOrgState::ClaimingNeighbours { org }, DebugOrgAction::ClaimNeighbours(org))
        },
        spec_debug_org_step(DebugOrgState::ClaimingZone { org }, DebugOrgEvent::Claimed(claimed)) == if claimed
            == 0 {
            (DebugOrgState::ClaimingNeighbours { org }, DebugOrgAction::ClaimNeighbours(org))
        } else {
            (DebugOrgState::Outlining { org }, DebugOrgAction::DrawContours(org))
        },
        spec_debug_org_step(DebugOrgState::ClaimingNeighbours { org }, DebugOrgEvent::Done) == (
            DebugOrgState::Outlining { org },
            DebugOrgAction::DrawContours(org),
        ),
        spec_debug_org_step(DebugOrgState::Outlining { org }, DebugOrgEvent::Done) == (
            DebugOrgState::Finished,
            DebugOrgAction::AnnounceCreated(org),
        ),
{
}

} // verus!
