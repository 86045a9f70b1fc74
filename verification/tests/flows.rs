use landz_server::dev::DevConfig;
use landz_server::grid::GridCell;
use landz_server::handlers::founding::{
    founding_refusal_message, founding_step, FoundingAction, FoundingEvent, FoundingRefusal,
    FoundingState, LordLookup, Lookup,
};
use landz_server::handlers::organization_requests::{
    debug_org_step, debug_refusal_message, destroy_step, liquidation_step, organization_refusal_message,
    DebugOrgAction, DebugOrgEvent, DebugOrgState, DebugRefusal, DestroyAction, DestroyEvent,
    DestroyState, LiquidationAction, LiquidationEvent, LiquidationState, OrganizationRefusal,
};
use landz_server::handlers::production::{
    production_refusal_message, production_step, MaterialsOutcome, ProductionAction,
    ProductionEvent, ProductionPlan, ProductionRefusal, ProductionState, UnitLookup,
};
use landz_server::handlers::scheduling::ScheduleRequest;
use landz_server::road::merge::{
    merge_error_message, merge_step, ChainLink, MergeAction, MergeError, MergeEvent, MergeState,
};
use landz_server::population::tick::{tick_step, TickAction, TickEvent, TickState};
use landz_server::handlers::unit_requests::{
    lord_refusal_message, lord_step, move_refusal_message, move_step, LordAction, LordEvent,
    LordRefusal, LordState, MoveAction, MoveEvent, MoveRefusal, MoveState,
};

fn normal() -> DevConfig {
    DevConfig { dev_mode: false, speed_factor: 1, bypass_resources: false }
}

#[test]
fn a_hamlet_is_founded_step_by_step() {
    let dev = normal();
    let cell = GridCell { q: 3, r: -2 };
    let events = [
        FoundingEvent::Lord(LordLookup::Found { id: 7, cell }),
        FoundingEvent::CellOwner(Lookup::Missing),
        FoundingEvent::LedOrganization(Lookup::Missing),
        FoundingEvent::Clock(1000),
        FoundingEvent::Done,
        FoundingEvent::OrganizationCreated(Some(42)),
        FoundingEvent::NextBuildingId(Some(9)),
        FoundingEvent::CampCreated(true),
        FoundingEvent::Done,
        FoundingEvent::Done,
        FoundingEvent::ZoneAtCell(Some(5)),
        FoundingEvent::ZoneAvailable(true),
        FoundingEvent::ZoneCellsComputed(true),
        FoundingEvent::Done,
        FoundingEvent::Done,
        FoundingEvent::Done,
        FoundingEvent::Done,
    ];
    let expected = [
        FoundingAction::CheckCellOwner(cell),
        FoundingAction::CheckLeadership(7),
        FoundingAction::ReadClock,
        FoundingAction::AnnounceAndWait {
            action_id: 1000,
            completion_time: 1030,
            duration_ms: 30000,
            lord: 7,
            cell,
        },
        FoundingAction::CreateOrganization { founder: 7, headquarters: cell },
        FoundingAction::NumberCamp,
        FoundingAction::CreateCamp { id: 9, cell },
        FoundingAction::MarkCampBuilt(9),
        FoundingAction::SetPopulation { org: 42, population: 5 },
        FoundingAction::FindZone(cell),
        FoundingAction::CheckZone(5),
        FoundingAction::ComputeZone(5),
        FoundingAction::ClaimZone { org: 42, zone: 5 },
        FoundingAction::DrawContours(42),
        FoundingAction::AnnounceFounded { org: 42, headquarters: cell },
        FoundingAction::ReportPopulation { org: 42, population: 5 },
        FoundingAction::Complete { action_id: 1000, lord: 7, cell },
    ];
    let mut s = FoundingState::LoadingLord;
    for (e, want) in events.iter().zip(expected.iter()) {
        let (next, action) = founding_step(&dev, 5, s, *e);
        assert_eq!(action, *want);
        s = next;
    }
    assert_eq!(founding_step(&dev, 5, s, FoundingEvent::Done), (FoundingState::Finished, FoundingAction::Stop));
}

#[test]
fn a_founding_without_a_free_zone_claims_the_neighbours() {
    let dev = normal();
    let cell = GridCell { q: 0, r: 0 };
    let s = FoundingState::FindingZone { lord: 1, cell, action_id: 2, org: 3 };
    let (_, a) = founding_step(&dev, 5, s, FoundingEvent::ZoneAtCell(None));
    assert_eq!(a, FoundingAction::ClaimNeighbours { org: 3, cell });
    let s = FoundingState::CheckingZone { lord: 1, cell, action_id: 2, org: 3, zone: 8 };
    let (_, a) = founding_step(&dev, 5, s, FoundingEvent::ZoneAvailable(false));
    assert_eq!(a, FoundingAction::ClaimNeighbours { org: 3, cell });
    let s = FoundingState::PlacingCamp { lord: 1, cell, action_id: 2, org: 3, camp: 4 };
    let (_, a) = founding_step(&dev, 5, s, FoundingEvent::CampCreated(false));
    assert_eq!(a, FoundingAction::SetPopulation { org: 3, population: 5 });
    let s = FoundingState::NumberingCamp { lord: 1, cell, action_id: 2, org: 3 };
    let (_, a) = founding_step(&dev, 5, s, FoundingEvent::NextBuildingId(None));
    assert_eq!(a, FoundingAction::CreateCamp { id: 1, cell });
}

#[test]
fn founding_refusals_and_their_messages() {
    let dev = normal();
    let cell = GridCell { q: 1, r: 1 };
    let (s, a) = founding_step(&dev, 5, FoundingState::LoadingLord, FoundingEvent::Lord(LordLookup::Missing));
    assert_eq!((s, a), (FoundingState::Finished, FoundingAction::Refuse(FoundingRefusal::NoLord)));
    let (_, a) = founding_step(
        &dev,
        5,
        FoundingState::CheckingCell { lord: 1, cell },
        FoundingEvent::CellOwner(Lookup::Found(3)),
    );
    assert_eq!(a, FoundingAction::Refuse(FoundingRefusal::CellTaken));
    let (_, a) = founding_step(
        &dev,
        5,
        FoundingState::CheckingLeadership { lord: 1, cell },
        FoundingEvent::LedOrganization(Lookup::Found(12)),
    );
    assert_eq!(a, FoundingAction::Refuse(FoundingRefusal::AlreadyLeads(12)));
    assert_eq!(founding_refusal_message(FoundingRefusal::NoLord, ""), "Vous n'avez pas de Lord/Lady");
    assert_eq!(founding_refusal_message(FoundingRefusal::LordLookupFailed, "x"), "Erreur: x");
    assert_eq!(
        founding_refusal_message(FoundingRefusal::CellTaken, ""),
        "Cette cellule appartient déjà à un territoire"
    );
    assert_eq!(founding_refusal_message(FoundingRefusal::CellCheckFailed, "db"), "Erreur DB: db");
    assert_eq!(
        founding_refusal_message(FoundingRefusal::AlreadyLeads(12), ""),
        "Vous avez déjà une organisation (ID: 12)"
    );
    assert_eq!(
        founding_refusal_message(FoundingRefusal::CreationFailed, "dup"),
        "Échec de la création: dup"
    );
}

#[test]
fn a_founding_in_dev_mode_is_sped_up() {
    let dev = DevConfig { dev_mode: true, speed_factor: 10, bypass_resources: false };
    let cell = GridCell { q: 0, r: 0 };
    let (_, a) = founding_step(&dev, 5, FoundingState::Starting { lord: 1, cell }, FoundingEvent::Clock(50));
    assert_eq!(
        a,
        FoundingAction::AnnounceAndWait { action_id: 50, completion_time: 53, duration_ms: 3000, lord: 1, cell }
    );
}

fn run(kind: ScheduleRequest, plan: ProductionPlan, events: &[ProductionEvent]) -> Vec<ProductionAction> {
    let mut s = ProductionState::Start;
    let mut out = Vec::new();
    for e in events {
        let (next, a) = production_step(kind, plan, s, *e);
        out.push(a);
        s = next;
    }
    out
}

#[test]
fn a_craft_goes_through_every_check() {
    let plan = ProductionPlan { check_materials: true, has_units: true, duration_ms: 4000 };
    let actions = run(
        ScheduleRequest::CraftResource,
        plan,
        &[
            ProductionEvent::Received { known: true },
            ProductionEvent::Lord(UnitLookup::Found(3)),
            ProductionEvent::Materials(MaterialsOutcome::Enough),
            ProductionEvent::Lines { max_lines: Some(2), active: 1 },
            ProductionEvent::BusyUnits(0),
            ProductionEvent::Clock(100),
            ProductionEvent::Scheduled(Some(77)),
            ProductionEvent::Done,
        ],
    );
    assert_eq!(
        actions,
        vec![
            ProductionAction::LoadLord,
            ProductionAction::CheckMaterials(3),
            ProductionAction::CountLines,
            ProductionAction::FindBusyUnits,
            ProductionAction::ReadClock,
            ProductionAction::Schedule { start_time: 100, duration_ms: 4000, completion_time: 104 },
            ProductionAction::AssignUnits(77),
            ProductionAction::AnnouncePending { action_id: 77, completion_time: 104 },
        ]
    );
}

#[test]
fn a_building_checks_the_lord_and_materials_only() {
    let plan = ProductionPlan { check_materials: true, has_units: true, duration_ms: 60000 };
    let actions = run(
        ScheduleRequest::BuildBuilding,
        plan,
        &[
            ProductionEvent::Received { known: true },
            ProductionEvent::Lord(UnitLookup::Found(3)),
            ProductionEvent::Materials(MaterialsOutcome::Enough),
            ProductionEvent::Clock(10),
            ProductionEvent::Scheduled(Some(5)),
        ],
    );
    assert_eq!(
        actions,
        vec![
            ProductionAction::LoadLord,
            ProductionAction::CheckMaterials(3),
            ProductionAction::ReadClock,
            ProductionAction::Schedule { start_time: 10, duration_ms: 60000, completion_time: 70 },
            ProductionAction::AnnouncePending { action_id: 5, completion_time: 70 },
        ]
    );
}

#[test]
fn training_checks_the_lines_only() {
    let plan = ProductionPlan { check_materials: false, has_units: false, duration_ms: 1000 };
    let actions = run(
        ScheduleRequest::TrainUnit,
        plan,
        &[ProductionEvent::Received { known: true }, ProductionEvent::Lines { max_lines: Some(1), active: 1 }],
    );
    assert_eq!(
        actions,
        vec![
            ProductionAction::CountLines,
            ProductionAction::Refuse(ProductionRefusal::LinesBusy { active: 1, max_lines: 1 }),
        ]
    );
}

#[test]
fn production_refusals_and_their_messages() {
    let plan = ProductionPlan { check_materials: true, has_units: true, duration_ms: 1000 };
    assert_eq!(
        run(ScheduleRequest::CraftResource, plan, &[ProductionEvent::Received { known: false }]),
        vec![ProductionAction::Refuse(ProductionRefusal::UnknownRecipe)]
    );
    assert_eq!(
        run(ScheduleRequest::HarvestResource, plan, &[ProductionEvent::Received { known: false }]),
        vec![ProductionAction::Refuse(ProductionRefusal::NoYield)]
    );
    assert_eq!(
        run(
            ScheduleRequest::HarvestResource,
            plan,
            &[ProductionEvent::Received { known: true }, ProductionEvent::Lord(UnitLookup::Failed)]
        ),
        vec![ProductionAction::LoadLord, ProductionAction::Refuse(ProductionRefusal::LordLookupFailed)]
    );
    let k = ScheduleRequest::CraftResource;
    assert_eq!(production_refusal_message(k, ProductionRefusal::UnknownRecipe, "bread"), "Recette inconnue : bread");
    assert_eq!(
        production_refusal_message(ScheduleRequest::HarvestResource, ProductionRefusal::NoYield, "Stone"),
        "Aucun rendement de récolte défini pour ce type de ressource (Stone)"
    );
    assert_eq!(production_refusal_message(k, ProductionRefusal::NoLord, ""), "Aucun seigneur trouvé");
    assert_eq!(production_refusal_message(k, ProductionRefusal::LordLookupFailed, ""), "Erreur serveur");
    assert_eq!(
        production_refusal_message(k, ProductionRefusal::InventoryFailed, ""),
        "Erreur de chargement de l'inventaire"
    );
    assert_eq!(
        production_refusal_message(k, ProductionRefusal::LinesBusy { active: 2, max_lines: 2 }, ""),
        "Toutes les lignes de production sont occupées (2/2)"
    );
    assert_eq!(production_refusal_message(k, ProductionRefusal::UnitsBusy, "busy"), "busy");
    assert_eq!(
        production_refusal_message(k, ProductionRefusal::ScheduleFailed, "db"),
        "Erreur lors de la planification : db"
    );
    assert_eq!(
        production_refusal_message(ScheduleRequest::TrainUnit, ProductionRefusal::ScheduleFailed, "db"),
        "Failed to schedule training: db"
    );
}

#[test]
fn a_move_is_checked_and_timed() {
    let dev = normal();
    let target = GridCell { q: 2, r: 0 };
    let (s, a) = move_step(&dev, target, MoveState::LoadingUnit, MoveEvent::Unit(Some(GridCell { q: 0, r: 0 })));
    assert_eq!(a, MoveAction::CheckControl);
    let (s, a) = move_step(&dev, target, s, MoveEvent::Controls(true));
    assert_eq!(a, MoveAction::ReadClock);
    let (s, a) = move_step(&dev, target, s, MoveEvent::Clock(500));
    assert_eq!(a, MoveAction::Schedule { start_time: 500, duration_ms: 4000, completion_time: 504 });
    let (_, a) = move_step(&dev, target, s, MoveEvent::Scheduled(Some(11)));
    assert_eq!(a, MoveAction::AnnouncePending { action_id: 11, completion_time: 504 });
    let here = MoveState::CheckingControl { from: target };
    assert_eq!(move_step(&dev, target, here, MoveEvent::Controls(true)).1, MoveAction::Refuse(MoveRefusal::AlreadyThere));
    assert_eq!(move_step(&dev, target, here, MoveEvent::Controls(false)).1, MoveAction::Refuse(MoveRefusal::NotYours));
    assert_eq!(move_refusal_message(MoveRefusal::UnitNotFound, "gone"), "Unité introuvable: gone");
    assert_eq!(move_refusal_message(MoveRefusal::NotYours, ""), "Cette unité ne vous appartient pas");
    assert_eq!(move_refusal_message(MoveRefusal::AlreadyThere, ""), "L'unité est déjà sur cette cellule");
    assert_eq!(move_refusal_message(MoveRefusal::ScheduleFailed, "db"), "Échec de la planification: db");
}

#[test]
fn a_lord_is_created_once() {
    let (s, a) = lord_step(LordState::CheckingLord, LordEvent::Lord(UnitLookup::Missing));
    assert_eq!(a, LordAction::ReadFamilyName);
    let (s, a) = lord_step(s, LordEvent::FamilyName(true));
    assert_eq!(a, LordAction::CreateLord { cell: GridCell { q: 0, r: 0 }, chunk_x: 0, chunk_y: 0 });
    let (s, a) = lord_step(s, LordEvent::Created(Some(8)));
    assert_eq!(a, LordAction::RecordAndLoad(8));
    assert_eq!(lord_step(s, LordEvent::Loaded(true)).1, LordAction::AnnounceLord(8));
    assert_eq!(lord_step(s, LordEvent::Loaded(false)).1, LordAction::Refuse(LordRefusal::LoadFailed));
    assert_eq!(
        lord_step(LordState::CheckingLord, LordEvent::Lord(UnitLookup::Found(1))).1,
        LordAction::Refuse(LordRefusal::AlreadyHasLord)
    );
    assert_eq!(lord_refusal_message(LordRefusal::AlreadyHasLord, ""), "Vous avez déjà un Lord/Lady");
    assert_eq!(lord_refusal_message(LordRefusal::PlayerMissing, ""), "Joueur introuvable");
    assert_eq!(lord_refusal_message(LordRefusal::CreationFailed, "e"), "Erreur lors de la création: e");
    assert_eq!(lord_refusal_message(LordRefusal::LoadFailed, "e"), "Lord créé mais erreur au chargement: e");
}

#[test]
fn a_building_is_destroyed_and_the_population_cut() {
    let mut s = DestroyState::FindingBuilding;
    let steps = [
        (DestroyEvent::Building(Lookup::Found(4)), DestroyAction::LoadLord),
        (DestroyEvent::Lord(UnitLookup::Found(2)), DestroyAction::FindOrganization(2)),
        (DestroyEvent::Organization(Lookup::Found(6)), DestroyAction::CheckTerritory),
        (DestroyEvent::TerritoryOwner(Some(6)), DestroyAction::FreeUnits),
        (DestroyEvent::Done, DestroyAction::DeleteBuilding(4)),
        (DestroyEvent::Deleted(true), DestroyAction::ReadPopulation(6)),
        (DestroyEvent::Population { capacity: 5, current: 9 }, DestroyAction::SetPopulation { org: 6, population: 5 }),
        (DestroyEvent::Done, DestroyAction::AnnounceDestroyed { building: 4, population: 5, capacity: 5 }),
    ];
    for (e, want) in steps.iter() {
        let (next, a) = destroy_step(s, *e);
        assert_eq!(a, *want);
        s = next;
    }
    let r = DestroyState::Recounting { building: 4, org: 6 };
    assert_eq!(
        destroy_step(r, DestroyEvent::Population { capacity: 5, current: 3 }).1,
        DestroyAction::AnnounceDestroyed { building: 4, population: 3, capacity: 5 }
    );
    let t = DestroyState::CheckingTerritory { building: 4, org: 6 };
    assert_eq!(destroy_step(t, DestroyEvent::TerritoryOwner(Some(7))).1, DestroyAction::Refuse(OrganizationRefusal::OutsideTerritory));
    let l = DestroyState::LoadingLord { building: 4 };
    assert_eq!(destroy_step(l, DestroyEvent::Lord(UnitLookup::Missing)).1, DestroyAction::Stop);
    assert_eq!(organization_refusal_message(OrganizationRefusal::NoBuilding, ""), "Aucun bâtiment sur cette cellule");
    assert_eq!(organization_refusal_message(OrganizationRefusal::NoOrganization, ""), "Pas d'organisation");
    assert_eq!(organization_refusal_message(OrganizationRefusal::OutsideTerritory, ""), "Bâtiment hors de votre territoire");
    assert_eq!(organization_refusal_message(OrganizationRefusal::DeletionFailed, "fk"), "Échec: fk");
    assert_eq!(
        organization_refusal_message(OrganizationRefusal::NothingToLiquidate, ""),
        "Pas d'organisation à dissoudre"
    );
}

#[test]
fn a_liquidation_deletes_in_order() {
    let mut s = LiquidationState::LoadingLord;
    let mut actions = Vec::new();
    let mut events = vec![LiquidationEvent::Lord(UnitLookup::Found(2)), LiquidationEvent::Organization(Lookup::Found(9))];
    events.extend(std::iter::repeat(LiquidationEvent::Done).take(8));
    for e in events {
        let (next, a) = liquidation_step(s, e);
        actions.push(a);
        s = next;
    }
    assert_eq!(
        actions,
        vec![
            LiquidationAction::FindOrganization(2),
            LiquidationAction::CollectChunks(9),
            LiquidationAction::DeleteBuildings(9),
            LiquidationAction::DeleteContours(9),
            LiquidationAction::DeleteTerritory(9),
            LiquidationAction::DeleteMemberUnits(9),
            LiquidationAction::DeleteMembers(9),
            LiquidationAction::ResetLordSlot(2),
            LiquidationAction::DeleteOrganization(9),
            LiquidationAction::AnnounceLiquidated(9),
        ]
    );
    assert_eq!(
        liquidation_step(LiquidationState::FindingOrganization { lord: 2 }, LiquidationEvent::Organization(Lookup::Missing)).1,
        LiquidationAction::Refuse(OrganizationRefusal::NothingToLiquidate)
    );
}

#[test]
fn a_debug_organization_falls_back_to_the_neighbours() {
    let (s, a) = debug_org_step(DebugOrgState::CreatingLeader, DebugOrgEvent::LeaderCreated(Some(3)));
    assert_eq!(a, DebugOrgAction::CreateOrganization(3));
    let (s, a) = debug_org_step(s, DebugOrgEvent::OrganizationCreated(Some(4)));
    assert_eq!(a, DebugOrgAction::FindZone);
    let (s, a) = debug_org_step(s, DebugOrgEvent::ZoneAtCell(Some(1)));
    assert_eq!(a, DebugOrgAction::CheckZone(1));
    let (s, a) = debug_org_step(s, DebugOrgEvent::ZoneAvailable(true));
    assert_eq!(a, DebugOrgAction::ComputeZone(1));
    let (s, a) = debug_org_step(s, DebugOrgEvent::ZoneCellsComputed(true));
    assert_eq!(a, DebugOrgAction::ClaimZone { org: 4, zone: 1 });
    let (s, a) = debug_org_step(s, DebugOrgEvent::Claimed(0));
    assert_eq!(a, DebugOrgAction::ClaimNeighbours(4));
    let (s, a) = debug_org_step(s, DebugOrgEvent::Done);
    assert_eq!(a, DebugOrgAction::DrawContours(4));
    assert_eq!(debug_org_step(s, DebugOrgEvent::Done).1, DebugOrgAction::AnnounceCreated(4));
    assert_eq!(
        debug_org_step(DebugOrgState::CreatingLeader, DebugOrgEvent::LeaderCreated(None)).1,
        DebugOrgAction::Refuse(DebugRefusal::LeaderFailed)
    );
    assert_eq!(debug_refusal_message(DebugRefusal::LeaderFailed, "e"), "Failed to create leader unit: e");
    assert_eq!(debug_refusal_message(DebugRefusal::OrganizationFailed, "e"), "Failed to create org: e");
}

#[test]
fn a_population_grows_then_a_named_unit_emerges() {
    let (s, a) = tick_step(TickState::Reading, TickEvent::Counts { capacity: 30, population: 24, named: 0 });
    assert_eq!(a, TickAction::ComputeGrowth { capacity: 30, population: 24 });
    let (s, a) = tick_step(s, TickEvent::Grown(40));
    assert_eq!(a, TickAction::StorePopulation(30));
    let (s, a) = tick_step(s, TickEvent::Stored(true));
    assert_eq!(a, TickAction::ReportPopulation { population: 30, named: 0, capacity: 30, with_newcomer: false });
    let (s, a) = tick_step(s, TickEvent::Done);
    assert_eq!(a, TickAction::FindFreeSlot);
    let (s, a) = tick_step(s, TickEvent::SlotFound(true));
    assert_eq!(a, TickAction::SpawnUnit);
    let (s, a) = tick_step(s, TickEvent::Spawned(true));
    assert_eq!(a, TickAction::ReportPopulation { population: 30, named: 1, capacity: 30, with_newcomer: true });
    assert_eq!(tick_step(s, TickEvent::Done), (TickState::Finished, TickAction::AnnounceSpawn));
}

#[test]
fn a_full_or_empty_settlement_does_not_grow() {
    assert_eq!(
        tick_step(TickState::Reading, TickEvent::Counts { capacity: 0, population: 10, named: 0 }).1,
        TickAction::Stop
    );
    assert_eq!(
        tick_step(TickState::Reading, TickEvent::Counts { capacity: 30, population: 30, named: 0 }).1,
        TickAction::FindFreeSlot
    );
    assert_eq!(
        tick_step(TickState::Reading, TickEvent::Counts { capacity: 30, population: 30, named: 1 }).1,
        TickAction::Stop
    );
    assert_eq!(tick_step(TickState::Reading, TickEvent::ReadFailed).1, TickAction::Stop);
    let g = TickState::Growing { capacity: 30, population: 10, named: 0 };
    assert_eq!(tick_step(g, TickEvent::Grown(10)).1, TickAction::Stop);
}

#[test]
fn a_road_chain_is_walked_and_merged() {
    let a = GridCell { q: 0, r: 0 };
    let b = GridCell { q: 3, r: 0 };
    let c = GridCell { q: -2, r: 0 };
    let d = GridCell { q: 5, r: 0 };
    let (s, act) = merge_step(MergeState::Loading { segment: 5 }, MergeEvent::Loaded(Some(ChainLink { id: 5, start: a, end: b })));
    assert_eq!(act, MergeAction::LoadConnections);
    let (s, act) = merge_step(s, MergeEvent::Connections { at_start: 1, at_end: 1 });
    assert_eq!(act, MergeAction::FindNext { at: a });
    let (s, act) = merge_step(s, MergeEvent::Next(Some(ChainLink { id: 3, start: c, end: a })));
    assert_eq!(act, MergeAction::Take { id: 3, turned: true, in_front: true });
    let (s, act) = merge_step(s, MergeEvent::Done);
    assert_eq!(act, MergeAction::FindNext { at: c });
    let (s, act) = merge_step(s, MergeEvent::Next(None));
    assert_eq!(act, MergeAction::FindNext { at: b });
    let (s, act) = merge_step(s, MergeEvent::Next(Some(ChainLink { id: 8, start: d, end: b })));
    assert_eq!(act, MergeAction::Take { id: 8, turned: true, in_front: false });
    let (s, act) = merge_step(s, MergeEvent::Done);
    assert_eq!(act, MergeAction::FindNext { at: d });
    let (s, act) = merge_step(s, MergeEvent::Next(None));
    assert_eq!(act, MergeAction::SaveMerged);
    let (s, act) = merge_step(s, MergeEvent::Saved(Some(40)));
    assert_eq!(act, MergeAction::DeleteParts);
    let (s, act) = merge_step(s, MergeEvent::Done);
    assert_eq!(act, MergeAction::RedrawChunks);
    assert_eq!(merge_step(s, MergeEvent::Done).1, MergeAction::Merged(40));
    let lone = MergeState::CheckingEnds { segment: 5, start: a, end: b };
    assert_eq!(merge_step(lone, MergeEvent::Connections { at_start: 0, at_end: 0 }).1, MergeAction::Keep(5));
    let fwd = MergeState::WalkingForward { segment: 5, at: b, taken: 0 };
    assert_eq!(merge_step(fwd, MergeEvent::Next(None)).1, MergeAction::Keep(5));
    assert_eq!(
        merge_step(MergeState::Loading { segment: 9 }, MergeEvent::Loaded(None)).1,
        MergeAction::Fail(MergeError::NotFound(9))
    );
    assert_eq!(merge_error_message(MergeError::NotFound(9), ""), "Segment 9 not found");
    assert_eq!(merge_error_message(MergeError::LoadFailed, "x"), "Failed to load segment: x");
    assert_eq!(merge_error_message(MergeError::SaveFailed, "x"), "Failed to save merged segment: x");
}
