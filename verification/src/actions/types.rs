//! Scheduled actions: what a player asked for, and its place in time.
use vstd::prelude::*;
use crate::grid::GridCell;

verus! {

/// Lifecycle status of a scheduled action.
#[derive(Clone, Copy, PartialEq, Eq, Structural, Debug)]
pub enum ActionStatus {
    Pending,
    InProgress,
    Completed,
    Failed,
}

/// Whether an action still occupies its cell.
pub open spec fn is_active(s: ActionStatus) -> bool {
    s == ActionStatus::Pending || s == ActionStatus::InProgress
}

/// The action a player schedules, with its own parameters.
#[derive(Clone, Debug)]
pub enum ScheduledActionEnum {
    BuildBuilding { building_type: String },
    MoveUnit { unit_id: u64, target_pos: GridCell },
    SendMessage { receiver_id: u64, content: String },
    HarvestResource { resource_type: String },
    CraftResource { recipe_id: String, quantity: u32 },
}

impl ScheduledActionEnum {
    /// A copy of the action, field for field.
    pub fn duplicate(&self) -> (r: Self)
        ensures
            r == *self,
    {
        match self {
            ScheduledActionEnum::BuildBuilding { building_type } => {
                ScheduledActionEnum::BuildBuilding { building_type: building_type.clone() }
            },
            ScheduledActionEnum::MoveUnit { unit_id, target_pos } => {
                ScheduledActionEnum::MoveUnit { unit_id: *unit_id, target_pos: *target_pos }
            },
            ScheduledActionEnum::SendMessage { receiver_id, content } => {
                ScheduledActionEnum::SendMessage { receiver_id: *receiver_id, content: content.clone() }
            },
            ScheduledActionEnum::HarvestResource { resource_type } => {
                ScheduledActionEnum::HarvestResource { resource_type: resource_type.clone() }
            },
            ScheduledActionEnum::CraftResource { recipe_id, quantity } => {
                ScheduledActionEnum::CraftResource { recipe_id: recipe_id.clone(), quantity: *quantity }
            },
        }
    }
}

/// A client message, as far as the action manager reads it.
#[derive(Clone, Debug)]
pub enum ClientMessage {
    ActionBuildBuilding { building_type: String },
    ActionMoveUnit { unit_id: u64, target_pos: GridCell },
    ActionSendMessage { receiver_id: u64, content: String },
    ActionHarvestResource { resource_type: String },
    ActionCraftResource { recipe_id: String, quantity: u32 },
    /// Any message that is not an action request (login, ping, data loads...).
    Other,
}

/// An action held by the manager's cache.
#[derive(Clone, Debug)]
pub struct ScheduledAction {
    pub id: u64,
    pub player_id: u64,
    pub grid_cell: GridCell,
    pub action: ScheduledActionEnum,
    pub start_time: u64,
    pub duration_ms: u64,
    pub completion_time: u64,
    pub status: ActionStatus,
}

impl ScheduledAction {
    /// A copy of the action, field for field.
    pub fn duplicate(&self) -> (r: Self)
        ensures
            r == *self,
    {
        ScheduledAction {
            id: self.id,
            player_id: self.player_id,
            grid_cell: self.grid_cell,
            action: self.action.duplicate(),
            start_time: self.start_time,
            duration_ms: self.duration_ms,
            completion_time: self.completion_time,
            status: self.status,
        }
    }
}

/// An entry of the completion queue: when an action is due.
#[derive(Clone, Copy, PartialEq, Eq, Structural, Debug)]
pub struct QueuedActionCompletion {
    pub completion_time: u64,
    pub action_id: u64,
}

/// The queue's order: by completion time, then by action id.
pub open spec fn queued_le(a: QueuedActionCompletion, b: QueuedActionCompletion) -> bool {
    a.completion_time < b.completion_time || (a.completion_time == b.completion_time
        && a.action_id <= b.action_id)
}

} // verus!
