use landz_server::actions::manager::ActionManager;
use landz_server::actions::processor::{
    completion_effects, fail_removes_building, start_effects, ActionCache, ActionInfo, ActionTypeEnum,
};
use landz_server::actions::types::{ActionStatus, ClientMessage, ScheduledActionEnum};
use landz_server::grid::{GridCell, TerrainChunkId};

fn info(id: u64, status: ActionStatus, completion: u64, t: ActionTypeEnum) -> ActionInfo {
    ActionInfo {
        action_id: id,
        player_id: 7,
        chunk_id: TerrainChunkId { x: 0, y: 0 },
        cell: GridCell { q: id as i32, r: 0 },
        action_type: t,
        status,
        start_time: 0,
        duration_ms: 1000,
        completion_time: completion,
    }
}

#[test]
fn message_to_action() {
    let m = ActionManager::new();
    let r = m.client_message_to_action(&ClientMessage::ActionCraftResource {
        recipe_id: "bread".to_string(),
        quantity: 3,
    });
    match r {
        Ok(ScheduledActionEnum::CraftResource { recipe_id, quantity }) => {
            assert_eq!(recipe_id, "bread");
            assert_eq!(quantity, 3);
        }
        _ => panic!("expected a craft action"),
    }
    assert_eq!(
        m.client_message_to_action(&ClientMessage::Other).unwrap_err(),
        "Not an action message"
    );
}

#[test]
fn create_then_complete_action() {
    let mut m = ActionManager::new();
    let cell = GridCell { q: 1, r: 2 };
    let r = m.create_action(
        5,
        cell,
        ScheduledActionEnum::HarvestResource { resource_type: "wood".to_string() },
        100,
        5000,
        Ok(()),
        Ok(1),
    );
    assert_eq!(r, Ok(1));
    assert!(m.cell_is_busy(&cell));
    let second = m.create_action(
        5,
        cell,
        ScheduledActionEnum::HarvestResource { resource_type: "wood".to_string() },
        100,
        5000,
        Ok(()),
        Ok(2),
    );
    assert_eq!(
        second.unwrap_err(),
        "Cell GridCell { q: 1, r: 2 } already has an active action"
    );
    assert_eq!(m.process_completions(104), Vec::<u64>::new());
    assert_eq!(m.process_completions(105), vec![1]);
    assert!(!m.cell_is_busy(&cell));
    let actions = m.get_chunk_actions(&vec![cell]);
    assert_eq!(actions.len(), 1);
    assert_eq!(actions[0].status, ActionStatus::Completed);
    assert_eq!(actions[0].completion_time, 105);
}

#[test]
fn validation_error_is_returned_unchanged() {
    let mut m = ActionManager::new();
    let cell = GridCell { q: 0, r: 0 };
    let r = m.create_action(
        1,
        cell,
        ScheduledActionEnum::BuildBuilding { building_type: "farm".to_string() },
        0,
        0,
        Err("bad".to_string()),
        Ok(9),
    );
    assert_eq!(r, Err("bad".to_string()));
    assert!(!m.cell_is_busy(&cell));
}

#[test]
fn cells_to_load_are_those_not_indexed() {
    let mut m = ActionManager::new();
    let a = GridCell { q: 0, r: 0 };
    let b = GridCell { q: 3, r: 3 };
    let _ = m.create_action(
        1,
        a,
        ScheduledActionEnum::MoveUnit { unit_id: 4, target_pos: b },
        0,
        2000,
        Ok(()),
        Ok(1),
    );
    assert_eq!(m.cells_to_load(&vec![a, b]), vec![b]);
}

#[test]
fn cache_starts_and_completes_actions() {
    let mut c = ActionCache::new();
    c.add_action(info(1, ActionStatus::Pending, 10, ActionTypeEnum::MoveUnit));
    c.add_action(info(2, ActionStatus::InProgress, 5, ActionTypeEnum::BuildBuilding));
    assert_eq!(c.len(), 2);
    assert_eq!(c.pending_actions(), vec![1]);
    assert_eq!(c.start_action(1).unwrap().status, ActionStatus::InProgress);
    assert_eq!(c.due_actions(5), vec![2]);
    let done = c.process_completed(5);
    assert_eq!(done.len(), 1);
    assert_eq!(done[0].action_id, 2);
    assert!(c.get(2).is_none());
    assert!(c.due_actions(5).is_empty());
    assert_eq!(c.get(1).unwrap().status, ActionStatus::InProgress);
}

#[test]
fn failed_action_is_marked() {
    let mut c = ActionCache::new();
    c.add_action(info(3, ActionStatus::InProgress, 5, ActionTypeEnum::BuildBuilding));
    let f = c.fail_action(3).unwrap();
    assert_eq!(f.action.status, ActionStatus::Failed);
    assert!(f.delete_building);
    assert!(!fail_removes_building(&info(4, ActionStatus::InProgress, 0, ActionTypeEnum::MoveUnit)));
    assert!(c.fail_action(99).is_none());
}

#[test]
fn failing_a_pending_build_keeps_the_building() {
    let mut c = ActionCache::new();
    c.add_action(info(5, ActionStatus::Pending, 9, ActionTypeEnum::BuildBuilding));
    let f = c.fail_action(5).unwrap();
    assert_eq!(f.action.status, ActionStatus::Failed);
    assert!(!f.delete_building);
    assert_eq!(c.get(5).unwrap().status, ActionStatus::Failed);
}

#[test]
fn each_new_action_gets_a_fresh_id() {
    let mut m = ActionManager::new();
    let a = m.create_action(
        1,
        GridCell { q: 0, r: 0 },
        ScheduledActionEnum::SendMessage { receiver_id: 2, content: "hi".to_string() },
        0,
        1000,
        Ok(()),
        Ok(10),
    );
    let refused = m.create_action(
        1,
        GridCell { q: 5, r: 5 },
        ScheduledActionEnum::SendMessage { receiver_id: 2, content: "hi".to_string() },
        0,
        1000,
        Ok(()),
        Err("db down".to_string()),
    );
    let b = m.create_action(
        1,
        GridCell { q: 1, r: 0 },
        ScheduledActionEnum::SendMessage { receiver_id: 2, content: "hi".to_string() },
        0,
        1000,
        Ok(()),
        Ok(11),
    );
    assert_eq!(a, Ok(1));
    assert_eq!(refused, Err("db down".to_string()));
    assert_eq!(b, Ok(3));
    assert!(!m.cell_is_busy(&GridCell { q: 5, r: 5 }));
}

#[test]
fn a_tick_starts_pending_actions_then_completes_due_ones() {
    let mut c = ActionCache::new();
    c.add_action(info(1, ActionStatus::Pending, 5, ActionTypeEnum::BuildBuilding));
    c.add_action(info(2, ActionStatus::Pending, 50, ActionTypeEnum::MoveUnit));
    c.add_action(info(3, ActionStatus::InProgress, 60, ActionTypeEnum::MoveUnit));
    let (started, done) = c.tick(10);
    let mut started_ids: Vec<u64> = started.iter().map(|a| a.action_id).collect();
    started_ids.sort();
    assert_eq!(started_ids, vec![1, 2]);
    assert!(started.iter().all(|a| a.status == ActionStatus::InProgress));
    assert_eq!(done.len(), 1);
    assert_eq!(done[0].action_id, 1);
    assert_eq!(done[0].status, ActionStatus::Completed);
    assert!(c.get(1).is_none());
    assert_eq!(c.get(2).unwrap().status, ActionStatus::InProgress);
    assert_eq!(c.get(3).unwrap().status, ActionStatus::InProgress);
    assert!(c.pending_actions().is_empty());
}

#[test]
fn starting_and_completing_have_their_effects() {
    let b = info(1, ActionStatus::Pending, 5, ActionTypeEnum::BuildBuilding);
    let r = info(2, ActionStatus::Pending, 5, ActionTypeEnum::BuildRoad);
    let m = info(3, ActionStatus::Pending, 5, ActionTypeEnum::MoveUnit);
    assert!(start_effects(&b).create_building && !start_effects(&b).create_road);
    assert!(start_effects(&r).create_road && !start_effects(&r).create_building);
    assert!(!start_effects(&m).create_building && !start_effects(&m).create_road);
    assert!(completion_effects(&b).mark_built && !completion_effects(&b).redraw_roads);
    assert!(completion_effects(&r).redraw_roads);
    assert!(!completion_effects(&m).mark_built);
}
