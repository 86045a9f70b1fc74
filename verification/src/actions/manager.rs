//! In-memory cache of scheduled actions, indexed by id, player and cell, with a
//! completion queue ordered by due time.
use vstd::prelude::*;
use vstd::string::*;
use std::collections::HashMap;
use crate::grid::{GridCell, cell_debug, cell_debug_text};
use crate::actions::types::{
    ActionStatus, ClientMessage, QueuedActionCompletion, ScheduledAction, ScheduledActionEnum,
    is_active, queued_le,
};

verus! {

broadcast use vstd::std_specs::hash::group_hash_axioms;

/// Ids of the actions scheduled on one cell, in scheduling order.
pub struct CellActions {
    pub cell: GridCell,
    pub ids: Vec<u64>,
}

/// The action cache: actions by id, their ids by player and by cell, and the
/// queue of pending completions (earliest first).
pub struct ActionManager {
    actions: HashMap<u64, ScheduledAction>,
    player_actions: HashMap<u64, Vec<u64>>,
    cell_actions: Vec<CellActions>,
    completion_queue: Vec<QueuedActionCompletion>,
    next_action_id: u64,
}

/// `a` with its status replaced by `s`.
pub open spec fn with_status(a: ScheduledAction, s: ActionStatus) -> ScheduledAction {
    ScheduledAction {
        id: a.id,
        player_id: a.player_id,
        grid_cell: a.grid_cell,
        action: a.action,
        start_time: a.start_time,
        duration_ms: a.duration_ms,
        completion_time: a.completion_time,
        status: s,
    }
}

/// The actions that `ids` name, in order, skipping ids without an action.
pub open spec fn actions_of_ids(actions: Map<u64, ScheduledAction>, ids: Seq<u64>) -> Seq<
    ScheduledAction,
>
    decreases ids.len(),
{
    if ids.len() == 0 {
        Seq::empty()
    } else {
        let rest = actions_of_ids(actions, ids.drop_last());
        if actions.contains_key(ids.last()) {
            rest.push(actions[ids.last()])
        } else {
            rest
        }
    }
}

/// Whether the per-cell index has an entry for `c`.
pub open spec fn index_has_cell(cells: Seq<CellActions>, c: GridCell) -> bool {
    exists|i: int| 0 <= i < cells.len() && cells[i].cell == c
}

/// The ids that the per-cell index lists for `c` (none without an entry).
pub open spec fn index_ids(cells: Seq<CellActions>, c: GridCell) -> Seq<u64> {
    if index_has_cell(cells, c) {
        cells[choose|i: int| 0 <= i < cells.len() && cells[i].cell == c].ids@
    } else {
        Seq::empty()
    }
}

/// The error text for a cell that already holds an active action.
pub open spec fn busy_cell_text(c: GridCell) -> Seq<char> {
    "Cell "@ + cell_debug_text(c) + " already has an active action"@
}

impl ActionManager {
    /// Actions by id.
    pub closed spec fn actions_view(&self) -> Map<u64, ScheduledAction> {
        self.actions@
    }

    /// Pending completions, earliest first.
    pub closed spec fn queue_view(&self) -> Seq<QueuedActionCompletion> {
        self.completion_queue@
    }

    /// The id the next scheduled action receives.
    pub closed spec fn next_id(&self) -> u64 {
        self.next_action_id
    }

    /// Action ids by player, in scheduling order.
    pub closed spec fn player_view(&self) -> Map<u64, Seq<u64>> {
        self.player_actions@.map_values(|v: Vec<u64>| v@)
    }

    /// No cell has two entries in the per-cell index.
    pub closed spec fn cells_unique(&self) -> bool {
        forall|i: int, j: int|
            0 <= i < self.cell_actions@.len() && 0 <= j < self.cell_actions@.len() && i != j
                ==> #[trigger] self.cell_actions@[i].cell != #[trigger] self.cell_actions@[j].cell
    }

    /// Whether the cell has an entry in the per-cell index.
    pub closed spec fn has_cell(&self, c: GridCell) -> bool {
        index_has_cell(self.cell_actions@, c)
    }

    /// Ids of the actions scheduled on a cell, in scheduling order.
    pub closed spec fn ids_at(&self, c: GridCell) -> Seq<u64> {
        index_ids(self.cell_actions@, c)
    }

    /// Whether an action on the cell is still pending or in progress.
    pub open spec fn cell_has_active(&self, c: GridCell) -> bool {
        exists|k: int|
            0 <= k < self.ids_at(c).len() && #[trigger] self.actions_view().contains_key(
                self.ids_at(c)[k],
            ) && is_active(self.actions_view()[self.ids_at(c)[k]].status)
    }

    /// Well-formedness: the indexes agree with the actions, the queue is sorted
    /// and holds exactly the in-progress actions, and no cell holds two active
    /// actions.
    pub closed spec fn wf(&self) -> bool {
        let acts = self.actions@;
        let cells = self.cell_actions@;
        let q = self.completion_queue@;
        &&& self.next_action_id >= 1
        &&& forall|id: u64|
            #[trigger] acts.contains_key(id) ==> acts[id].id == id && 1 <= id
                < self.next_action_id
        &&& self.cells_unique()
        &&& forall|i: int, k: int|
            0 <= i < cells.len() && 0 <= k < cells[i].ids@.len() ==> acts.contains_key(
                #[trigger] cells[i].ids@[k],
            ) && acts[cells[i].ids@[k]].grid_cell == cells[i].cell
        &&& forall|id: u64|
            #[trigger] acts.contains_key(id) ==> self.has_cell(acts[id].grid_cell)
                && self.ids_at(acts[id].grid_cell).contains(id)
        &&& forall|i: int, j: int| 0 <= i < j < q.len() ==> queued_le(#[trigger] q[i], #[trigger] q[j])
        &&& forall|i: int, j: int|
            0 <= i < q.len() && 0 <= j < q.len() && i != j ==> #[trigger] q[i].action_id
                != #[trigger] q[j].action_id
        &&& forall|i: int|
            0 <= i < q.len() ==> acts.contains_key(#[trigger] q[i].action_id) && acts[q[i].action_id].status
                == ActionStatus::InProgress && acts[q[i].action_id].completion_time
                == q[i].completion_time
        &&& forall|id: u64|
            #[trigger] acts.contains_key(id) && acts[id].status == ActionStatus::InProgress
                ==> exists|i: int| 0 <= i < q.len() && #[trigger] q[i].action_id == id
        &&& forall|a: u64, b: u64|
            #[trigger] acts.contains_key(a) && #[trigger] acts.contains_key(b) && a != b
                && is_active(acts[a].status) && is_active(acts[b].status) ==> acts[a].grid_cell
                != acts[b].grid_cell
        &&& forall|p: u64, k: int|
            #[trigger] self.player_actions@.contains_key(p) && 0 <= k
                < self.player_actions@[p]@.len() ==> acts.contains_key(
                #[trigger] self.player_actions@[p]@[k],
            ) && acts[self.player_actions@[p]@[k]].player_id == p
    }

    /// An empty manager whose first action gets id 1.
    pub fn new() -> (m: ActionManager)
        ensures
            m.wf(),
            m.actions_view() == Map::<u64, ScheduledAction>::empty(),
            m.queue_view() == Seq::<QueuedActionCompletion>::empty(),
            m.player_view() == Map::<u64, Seq<u64>>::empty(),
            m.next_id() == 1,
            forall|c: GridCell| #[trigger] m.ids_at(c) == Seq::<u64>::empty(),
    {
        let m = ActionManager {
            actions: HashMap::new(),
            player_actions: HashMap::new(),
            cell_actions: Vec::new(),
            completion_queue: Vec::new(),
            next_action_id: 1,
        };
        assert(m.player_view() =~= Map::<u64, Seq<u64>>::empty());
        m
    }

    /// Turns a client message into the action it requests; any other message
    /// is refused with "Not an action message".
    pub fn client_message_to_action(&self, message: &ClientMessage) -> (r: Result<
        ScheduledActionEnum,
        String,
    >)
        ensures
            match (*message, r) {
                (ClientMessage::ActionBuildBuilding { building_type }, Ok(a)) => a
                    == ScheduledActionEnum::BuildBuilding { building_type },
                (ClientMessage::ActionMoveUnit { unit_id, target_pos }, Ok(a)) => a
                    == ScheduledActionEnum::MoveUnit { unit_id, target_pos },
                (ClientMessage::ActionSendMessage { receiver_id, content }, Ok(a)) => a
                    == ScheduledActionEnum::SendMessage { receiver_id, content },
                (ClientMessage::ActionHarvestResource { resource_type }, Ok(a)) => a
                    == ScheduledActionEnum::HarvestResource { resource_type },
                (ClientMessage::ActionCraftResource { recipe_id, quantity }, Ok(a)) => a
                    == ScheduledActionEnum::CraftResource { recipe_id, quantity },
                (ClientMessage::Other, Err(e)) => e@ == "Not an action message"@,
                _ => false,
            },
    {
        match message {
            ClientMessage::ActionBuildBuilding { building_type } => {
                Ok(ScheduledActionEnum::BuildBuilding { building_type: building_type.clone() })
            },
            ClientMessage::ActionMoveUnit { unit_id, target_pos } => {
                Ok(ScheduledActionEnum::MoveUnit { unit_id: *unit_id, target_pos: *target_pos })
            },
            ClientMessage::ActionSendMessage { receiver_id, content } => {
                Ok(
                    ScheduledActionEnum::SendMessage {
                        receiver_id: *receiver_id,
                        content: content.clone(),
                    },
                )
            },
            ClientMessage::ActionHarvestResource { resource_type } => {
                Ok(ScheduledActionEnum::HarvestResource { resource_type: resource_type.clone() })
            },
            ClientMessage::ActionCraftResource { recipe_id, quantity } => {
                Ok(
                    ScheduledActionEnum::CraftResource {
                        recipe_id: recipe_id.clone(),
                        quantity: *quantity,
                    },
                )
            },
            ClientMessage::Other => Err(String::from_str("Not an action message")),
        }
    }

    /// Position of the cell in the per-cell index.
    fn find_cell(&self, c: &GridCell) -> (r: Option<usize>)
        requires
            self.cells_unique(),
        ensures
            match r {
                Some(i) => i < self.cell_actions@.len() && self.cell_actions@[i as int].cell == *c
                    && self.has_cell(*c) && self.ids_at(*c) == self.cell_actions@[i as int].ids@,
                None => !self.has_cell(*c) && self.ids_at(*c) == Seq::<u64>::empty(),
            },
    {
        let mut i: usize = 0;
        while i < self.cell_actions.len()
            invariant
                self.cells_unique(),
                i <= self.cell_actions@.len(),
                forall|j: int| 0 <= j < i ==> self.cell_actions@[j].cell != *c,
            decreases self.cell_actions@.len() - i,
        {
            if self.cell_actions[i].cell == *c {
                proof {
                    let k = choose|k: int|
                        0 <= k < self.cell_actions@.len() && self.cell_actions@[k].cell == *c;
                    assert(k == i as int);
                }
                return Some(i);
            }
            i = i + 1;
        }
        None
    }

    /// Whether an action on the cell is still pending or in progress.
    pub fn cell_is_busy(&self, c: &GridCell) -> (b: bool)
        requires
            self.wf(),
        ensures
            b == self.cell_has_active(*c),
    {
        match self.find_cell(c) {
            None => false,
            Some(ci) => {
                let ids = &self.cell_actions[ci].ids;
                let mut k: usize = 0;
                while k < ids.len()
                    invariant
                        self.wf(),
                        ci < self.cell_actions@.len(),
                        *ids == self.cell_actions@[ci as int].ids,
                        self.ids_at(*c) == ids@,
                        k <= ids@.len(),
                        forall|j: int|
                            0 <= j < k ==> !(self.actions_view().contains_key(#[trigger] ids@[j])
                                && is_active(self.actions_view()[ids@[j]].status)),
                    decreases ids@.len() - k,
                {
                    let id = ids[k];
                    match self.actions.get(&id) {
                        Some(act) => {
                            if act.status == ActionStatus::InProgress || act.status
                                == ActionStatus::Pending {
                                return true;
                            }
                        },
                        None => {},
                    }
                    k = k + 1;
                }
                false
            },
        }
    }
}

/// Law: no cell ever holds two pending or in-progress actions at once.
pub proof fn law_one_active_action_per_cell(m: &ActionManager, a: u64, b: u64)
    requires
        m.wf(),
        m.actions_view().contains_key(a),
        m.actions_view().contains_key(b),
        a != b,
        is_active(m.actions_view()[a].status),
        is_active(m.actions_view()[b].status),
    ensures
        m.actions_view()[a].grid_cell != m.actions_view()[b].grid_cell,
{
}

/// Law: every cached action is filed under its own id, below the next id to
/// be given out, and listed under its cell.
pub proof fn law_action_ids_fresh(m: &ActionManager, id: u64)
    requires
        m.wf(),
        m.actions_view().contains_key(id),
    ensures
        m.actions_view()[id].id == id,
        1 <= id < m.next_id(),
        m.ids_at(m.actions_view()[id].grid_cell).contains(id),
{
}

/// Law: the completion queue is ordered earliest first (ties by action id),
/// and holds each action once.
pub proof fn law_queue_earliest_first(m: &ActionManager, i: int, j: int)
    requires
        m.wf(),
        0 <= i < j < m.queue_view().len(),
    ensures
        m.queue_view()[i].completion_time <= m.queue_view()[j].completion_time,
        m.queue_view()[i].completion_time == m.queue_view()[j].completion_time
            ==> m.queue_view()[i].action_id < m.queue_view()[j].action_id,
{
    assert(queued_le(m.queue_view()[i], m.queue_view()[j]));
    assert(m.queue_view()[i].action_id != m.queue_view()[j].action_id);
}

/// Law: an action is in progress exactly when the completion queue holds it,
/// under its completion time.
pub proof fn law_in_progress_is_queued(m: &ActionManager, id: u64)
    requires
        m.wf(),
        m.actions_view().contains_key(id),
    ensures
        m.actions_view()[id].status == ActionStatus::InProgress <==> (exists|i: int|
            0 <= i < m.queue_view().len() && #[trigger] m.queue_view()[i] == (QueuedActionCompletion {
                completion_time: m.actions_view()[id].completion_time,
                action_id: id,
            })),
{
    if m.actions_view()[id].status == ActionStatus::InProgress {
        let i = choose|i: int| 0 <= i < m.queue_view().len() && m.queue_view()[i].action_id == id;
        assert(m.queue_view()[i] == QueuedActionCompletion {
            completion_time: m.actions_view()[id].completion_time,
            action_id: id,
        });
    } else {
        if exists|i: int|
            0 <= i < m.queue_view().len() && #[trigger] m.queue_view()[i] == (QueuedActionCompletion {
                completion_time: m.actions_view()[id].completion_time,
                action_id: id,
            }) {
            let i = choose|i: int|
                0 <= i < m.queue_view().len() && #[trigger] m.queue_view()[i] == (QueuedActionCompletion {
                    completion_time: m.actions_view()[id].completion_time,
                    action_id: id,
                });
            assert(m.queue_view()[i].action_id == id);
        }
    }
}

/// Completing the earliest queued action and dropping it from the queue keeps
/// the manager well formed.
proof fn lemma_wf_after_pop(before: ActionManager, after: ActionManager, id: u64)
    requires
        before.wf(),
        before.completion_queue@.len() > 0,
        before.completion_queue@[0].action_id == id,
        after.completion_queue@ == before.completion_queue@.drop_first(),
        after.actions@ == before.actions@.insert(
            id,
            with_status(before.actions@[id], ActionStatus::Completed),
        ),
        after.cell_actions@ == before.cell_actions@,
        after.player_actions@ == before.player_actions@,
        after.next_action_id == before.next_action_id,
    ensures
        after.wf(),
{
    let acts = after.actions@;
    let q = after.completion_queue@;
    let q0 = before.completion_queue@;
    assert(before.actions@.contains_key(id));
    assert forall|i: int| 0 <= i < q.len() implies acts.contains_key(#[trigger] q[i].action_id)
        && acts[q[i].action_id].status == ActionStatus::InProgress
        && acts[q[i].action_id].completion_time == q[i].completion_time by {
        assert(q[i] == q0[i + 1]);
        assert(q0[i + 1].action_id != q0[0].action_id);
    }
    assert forall|k: u64|
        #[trigger] acts.contains_key(k) && acts[k].status == ActionStatus::InProgress implies exists|
        i: int,
    | 0 <= i < q.len() && #[trigger] q[i].action_id == k by {
        assert(k != id);
        let i = choose|i: int| 0 <= i < q0.len() && q0[i].action_id == k;
        assert(i != 0);
        assert(q[i - 1] == q0[i]);
    }
    assert forall|i: int, j: int| 0 <= i < j < q.len() implies queued_le(#[trigger] q[i], #[trigger] q[j]) by {
        assert(q[i] == q0[i + 1] && q[j] == q0[j + 1]);
    }
    assert forall|i: int, j: int|
        0 <= i < q.len() && 0 <= j < q.len() && i != j implies #[trigger] q[i].action_id
        != #[trigger] q[j].action_id by {
        assert(q[i] == q0[i + 1] && q[j] == q0[j + 1]);
    }
    assert forall|k: u64| #[trigger] acts.contains_key(k) implies after.has_cell(acts[k].grid_cell)
        && after.ids_at(acts[k].grid_cell).contains(k) by {
        assert(before.actions@.contains_key(k));
    }
}

impl ActionManager {
    /// Checks a request before it is written to the database: the action's own
    /// validation, then that the cell holds no pending or in-progress action.
    pub fn check_create(&self, grid_cell: &GridCell, validation: &Result<(), String>) -> (r:
        Result<(), String>)
        requires
            self.wf(),
        ensures
            match *validation {
                Err(e) => r == Err::<(), String>(e),
                Ok(_) => if self.cell_has_active(*grid_cell) {
                    r is Err && r->Err_0@ == busy_cell_text(*grid_cell)
                } else {
                    r is Ok
                },
            },
    {
        match validation {
            Err(e) => Err(e.clone()),
            Ok(_) => {
                if self.cell_is_busy(grid_cell) {
                    let mut msg = String::from_str("Cell ");
                    let text = cell_debug(grid_cell);
                    msg.append(text.as_str());
                    msg.append(" already has an active action");
                    Err(msg)
                } else {
                    Ok(())
                }
            },
        }
    }

    /// Schedules an action once the database has answered the insertion.
    ///
    /// The request is first checked as `check_create` does (and refused the
    /// same way, with nothing changed). Otherwise the action takes the next id
    /// (which is used up even if the database refused the row), completes at
    /// `current_time + duration_ms / 1000`, and on a database success enters
    /// the cache as in progress and the completion queue.
    #[verifier::rlimit(60)]
    pub fn create_action(
        &mut self,
        player_id: u64,
        grid_cell: GridCell,
        action: ScheduledActionEnum,
        current_time: u64,
        duration_ms: u64,
        validation: Result<(), String>,
        db_result: Result<u64, String>,
    ) -> (r: Result<u64, String>)
        requires
            old(self).wf(),
            old(self).next_id() < u64::MAX,
            current_time + duration_ms / 1000 <= u64::MAX,
        ensures
            final(self).wf(),
            validation is Err ==> r == Err::<u64, String>(validation->Err_0) && *final(self)
                == *old(self),
            validation is Ok && old(self).cell_has_active(grid_cell) ==> r is Err
                && r->Err_0@ == busy_cell_text(grid_cell) && *final(self) == *old(self),
            validation is Ok && !old(self).cell_has_active(grid_cell) && db_result is Err ==> {
                &&& r == Err::<u64, String>(db_result->Err_0)
                &&& final(self).next_id() == old(self).next_id() + 1
                &&& final(self).actions_view() == old(self).actions_view()
                &&& final(self).queue_view() == old(self).queue_view()
                &&& final(self).player_view() == old(self).player_view()
                &&& forall|c: GridCell| #[trigger] final(self).ids_at(c) == old(self).ids_at(c)
            },
            validation is Ok && !old(self).cell_has_active(grid_cell) && db_result is Ok ==> {
                let id = old(self).next_id();
                let a = ScheduledAction {
                    id,
                    player_id,
                    grid_cell,
                    action,
                    start_time: current_time,
                    duration_ms,
                    completion_time: (current_time + duration_ms / 1000) as u64,
                    status: ActionStatus::InProgress,
                };
                &&& r == Ok::<u64, String>(id)
                &&& final(self).next_id() == id + 1
                &&& final(self).actions_view() == old(self).actions_view().insert(id, a)
                &&& final(self).ids_at(grid_cell) == old(self).ids_at(grid_cell).push(id)
                &&& forall|c: GridCell|
                    c != grid_cell ==> #[trigger] final(self).ids_at(c) == old(self).ids_at(c)
                &&& final(self).player_view() == old(self).player_view().insert(
                    player_id,
                    if old(self).player_view().contains_key(player_id) {
                        old(self).player_view()[player_id].push(id)
                    } else {
                        seq![id]
                    },
                )
                &&& exists|pos: int|
                    0 <= pos <= old(self).queue_view().len() && final(self).queue_view() == old(
                        self,
                    ).queue_view().insert(
                        pos,
                        QueuedActionCompletion { completion_time: a.completion_time, action_id: id },
                    )
            },
    {
        match validation {
            Err(e) => {
                return Err(e);
            },
            Ok(_) => {},
        }
        if self.cell_is_busy(&grid_cell) {
            let mut msg = String::from_str("Cell ");
            let text = cell_debug(&grid_cell);
            msg.append(text.as_str());
            msg.append(" already has an active action");
            return Err(msg);
        }
        let action_id = self.next_action_id;
        self.next_action_id = self.next_action_id + 1;
        let completion_time = current_time + (duration_ms / 1000);
        match db_result {
            Err(e) => {
                proof {
                    assert forall|c: GridCell| #[trigger] self.ids_at(c) == old(self).ids_at(c) by {}
                    assert(self.player_view() == old(self).player_view());
                }
                return Err(e);
            },
            Ok(_) => {},
        }
        let ghost old_self = *old(self);
        proof {
            assert forall|i: int| 0 <= i < self.completion_queue@.len() implies (
            #[trigger] self.completion_queue@[i]).action_id < action_id by {
                assert(self.actions@.contains_key(self.completion_queue@[i].action_id));
            }
        }
        let scheduled_action = ScheduledAction {
            id: action_id,
            player_id,
            grid_cell,
            action,
            start_time: current_time,
            duration_ms,
            completion_time,
            status: ActionStatus::InProgress,
        };
        self.actions.insert(action_id, scheduled_action);
        self.push_player_action(player_id, action_id);
        let ghost mid = *self;
        assert(mid.cell_actions@ == old_self.cell_actions@);
        assert(forall|c: GridCell| #[trigger] mid.ids_at(c) == old_self.ids_at(c));
        assert(forall|c: GridCell| #[trigger] mid.has_cell(c) == old_self.has_cell(c));
        self.push_cell_action(grid_cell, action_id);
        let ghost after_cells = *self;
        let pos = self.enqueue(QueuedActionCompletion { completion_time, action_id });
        assert(self.cell_actions@ == after_cells.cell_actions@);
        assert(forall|c: GridCell| #[trigger] self.ids_at(c) == after_cells.ids_at(c));
        assert(forall|c: GridCell| #[trigger] self.has_cell(c) == after_cells.has_cell(c));
        assert(self.player_view() == after_cells.player_view());
        assert(self.ids_at(grid_cell) == old_self.ids_at(grid_cell).push(action_id));
        assert(forall|c: GridCell| c != grid_cell ==> #[trigger] self.ids_at(c) == old_self.ids_at(c));
        proof {
            let acts = self.actions@;
            let cells = self.cell_actions@;
            let q = self.completion_queue@;
            assert(self.queue_view() == old_self.queue_view().insert(
                pos as int,
                QueuedActionCompletion { completion_time, action_id },
            ));
            assert forall|id: u64| #[trigger] acts.contains_key(id) implies self.has_cell(
                acts[id].grid_cell,
            ) && self.ids_at(acts[id].grid_cell).contains(id) by {
                if id == action_id {
                    assert(self.ids_at(grid_cell)[self.ids_at(grid_cell).len() - 1] == id);
                } else {
                    let c = acts[id].grid_cell;
                    assert(old_self.actions@.contains_key(id));
                    assert(old_self.has_cell(c) && old_self.ids_at(c).contains(id));
                    let k = choose|k: int| 0 <= k < old_self.ids_at(c).len() && old_self.ids_at(c)[k] == id;
                    if c == grid_cell {
                        assert(self.ids_at(c) == old_self.ids_at(c).push(action_id));
                        assert(self.ids_at(c)[k] == id);
                    } else {
                        assert(self.ids_at(c) == old_self.ids_at(c));
                        assert(self.has_cell(c));
                        assert(self.ids_at(c)[k] == id);
                    }
                }
            }
            assert forall|i: int, k: int|
                0 <= i < cells.len() && 0 <= k < cells[i].ids@.len() implies acts.contains_key(
                #[trigger] cells[i].ids@[k],
            ) && acts[cells[i].ids@[k]].grid_cell == cells[i].cell by {
                if cells[i].cell == grid_cell && k == cells[i].ids@.len() - 1 {
                } else {
                }
            }
            assert forall|id: u64|
                #[trigger] acts.contains_key(id) && acts[id].status == ActionStatus::InProgress
                    implies exists|i: int| 0 <= i < q.len() && #[trigger] q[i].action_id == id by {
                if id == action_id {
                    assert(q[pos as int].action_id == id);
                } else {
                    assert(old_self.actions@.contains_key(id));
                    let i = choose|i: int| 0 <= i < old_self.completion_queue@.len() && old_self.completion_queue@[i].action_id == id;
                    if i < pos {
                        assert(q[i].action_id == id);
                    } else {
                        assert(q[i + 1].action_id == id);
                    }
                }
            }
            assert forall|a: u64, b: u64|
                #[trigger] acts.contains_key(a) && #[trigger] acts.contains_key(b) && a != b
                    && is_active(acts[a].status) && is_active(acts[b].status) implies acts[a].grid_cell
                    != acts[b].grid_cell by {
                if a == action_id && acts[b].grid_cell == grid_cell {
                    let k = choose|k: int| 0 <= k < old_self.ids_at(grid_cell).len() && old_self.ids_at(grid_cell)[k] == b;
                    assert(old_self.actions@.contains_key(old_self.ids_at(grid_cell)[k]));
                } else if b == action_id && acts[a].grid_cell == grid_cell {
                    let k = choose|k: int| 0 <= k < old_self.ids_at(grid_cell).len() && old_self.ids_at(grid_cell)[k] == a;
                    assert(old_self.actions@.contains_key(old_self.ids_at(grid_cell)[k]));
                }
            }
        }
        Ok(action_id)
    }

    /// Marks as completed every queued action due by `current_time`, earliest
    /// first, and returns their ids in that order. The queue loses exactly
    /// those entries; every action still in progress afterwards is due later.
    #[verifier::rlimit(40)]
    pub fn process_completions(&mut self, current_time: u64) -> (completed: Vec<u64>)
        requires
            old(self).wf(),
        ensures
            final(self).wf(),
            completed@.len() <= old(self).queue_view().len(),
            forall|i: int|
                0 <= i < completed@.len() ==> #[trigger] completed@[i] == old(
                    self,
                ).queue_view()[i].action_id && old(self).queue_view()[i].completion_time
                    <= current_time,
            completed@.len() < old(self).queue_view().len() ==> old(
                self,
            ).queue_view()[completed@.len() as int].completion_time > current_time,
            final(self).queue_view() == old(self).queue_view().skip(completed@.len() as int),
            forall|i: int, j: int|
                0 <= i <= j < old(self).queue_view().len() ==> #[trigger] old(
                    self,
                ).queue_view()[i].completion_time <= #[trigger] old(
                    self,
                ).queue_view()[j].completion_time,
            forall|i: int|
                #![trigger old(self).queue_view()[i]]
                0 <= i < old(self).queue_view().len() ==> (old(self).queue_view()[i].completion_time
                    <= current_time <==> i < completed@.len()),
            forall|i: int|
                0 <= i < final(self).queue_view().len()
                    ==> #[trigger] final(self).queue_view()[i].completion_time > current_time,
            final(self).actions_view().dom() == old(self).actions_view().dom(),
            forall|id: u64|
                #[trigger] old(self).actions_view().contains_key(id) ==> final(self).actions_view()[id]
                    == if completed@.contains(id) {
                    with_status(old(self).actions_view()[id], ActionStatus::Completed)
                } else {
                    old(self).actions_view()[id]
                },
            forall|id: u64|
                #[trigger] final(self).actions_view().contains_key(id) && final(self).actions_view()[id].status
                    == ActionStatus::InProgress ==> final(self).actions_view()[id].completion_time
                    > current_time,
            final(self).next_id() == old(self).next_id(),
            final(self).player_view() == old(self).player_view(),
            forall|c: GridCell| #[trigger] final(self).ids_at(c) == old(self).ids_at(c),
    {
        let ghost q0 = self.completion_queue@;
        let ghost a0 = self.actions@;
        let mut completed: Vec<u64> = Vec::new();
        while self.completion_queue.len() > 0 && self.completion_queue[0].completion_time
            <= current_time
            invariant
                self.wf(),
                completed@.len() <= q0.len(),
                self.completion_queue@ == q0.skip(completed@.len() as int),
                forall|i: int|
                    0 <= i < completed@.len() ==> #[trigger] completed@[i] == q0[i].action_id
                        && q0[i].completion_time <= current_time,
                self.actions@.dom() == a0.dom(),
                forall|id: u64|
                    #[trigger] a0.contains_key(id) ==> self.actions@[id] == if completed@.contains(id) {
                        with_status(a0[id], ActionStatus::Completed)
                    } else {
                        a0[id]
                    },
                self.next_action_id == old(self).next_action_id,
                self.player_actions@ == old(self).player_actions@,
                self.cell_actions@ == old(self).cell_actions@,
                forall|i: int, j: int|
                    0 <= i < j < q0.len() ==> queued_le(#[trigger] q0[i], #[trigger] q0[j]),
                forall|i: int, j: int|
                    0 <= i < q0.len() && 0 <= j < q0.len() && i != j ==> #[trigger] q0[i].action_id
                        != #[trigger] q0[j].action_id,
            decreases self.completion_queue@.len(),
        {
            let entry = self.completion_queue[0];
            let id = entry.action_id;
            let ghost n = completed@.len() as int;
            let ghost before = *self;
            let ghost prev_completed = completed@;
            assert(q0[n] == entry);
            assert(self.actions@.contains_key(id));
            match self.actions.get(&id) {
                Some(act) => {
                    let mut done = act.duplicate();
                    done.status = ActionStatus::Completed;
                    self.actions.insert(id, done);
                    completed.push(id);
                },
                None => {},
            }
            self.completion_queue.remove(0);
            proof {
                broadcast use vstd::seq_lib::group_seq_properties;

                assert(completed@ == prev_completed.push(id));
                assert(self.completion_queue@ =~= q0.skip(n + 1));
                if prev_completed.contains(id) {
                    let j = choose|j: int| 0 <= j < prev_completed.len() && prev_completed[j] == id;
                    assert(q0[j].action_id == q0[n].action_id);
                }
                assert forall|k: u64| #[trigger] a0.contains_key(k) implies self.actions@[k] == if completed@.contains(k) {
                    with_status(a0[k], ActionStatus::Completed)
                } else {
                    a0[k]
                } by {
                    if k == id {
                        assert(completed@.contains(id));
                    } else {
                        assert(completed@.contains(k) == prev_completed.contains(k));
                    }
                }
                lemma_wf_after_pop(before, *self, id);
            }
        }
        proof {
            assert forall|id: u64|
                #[trigger] self.actions@.contains_key(id) && self.actions@[id].status
                    == ActionStatus::InProgress implies self.actions@[id].completion_time
                    > current_time by {
                let i = choose|i: int| 0 <= i < self.completion_queue@.len() && self.completion_queue@[i].action_id == id;
                assert(queued_le(self.completion_queue@[0], self.completion_queue@[i]) || i == 0);
            }
            assert forall|c: GridCell| #[trigger] self.ids_at(c) == old(self).ids_at(c) by {}
            let n = completed@.len() as int;
            assert forall|i: int| #![trigger q0[i]] 0 <= i < q0.len() implies (q0[i].completion_time
                <= current_time <==> i < n) by {
                if i < n {
                    assert(completed@[i] == q0[i].action_id);
                }
                if n <= i {
                    assert(self.completion_queue@.len() == q0.len() - n);
                    assert(self.completion_queue@.len() > 0);
                    assert(self.completion_queue@[0].completion_time > current_time);
                    assert(q0[n] == self.completion_queue@[0]);
                    if n < i {
                        assert(queued_le(q0[n], q0[i]));
                    }
                }
            }
            assert forall|i: int| 0 <= i < self.completion_queue@.len() implies #[trigger] self.completion_queue@[i].completion_time > current_time by {
                assert(self.completion_queue@[i] == q0[n + i]);
            }
        }
        completed
    }

    /// The actions scheduled on the given cells, cell by cell, each cell's in
    /// scheduling order.
    pub open spec fn chunk_actions(&self, cells: Seq<GridCell>) -> Seq<ScheduledAction>
        decreases cells.len(),
    {
        if cells.len() == 0 {
            Seq::empty()
        } else {
            self.chunk_actions(cells.drop_last()) + actions_of_ids(
                self.actions_view(),
                self.ids_at(cells.last()),
            )
        }
    }

    /// Copies of the cached actions of the given cells, cell by cell.
    pub fn get_chunk_actions(&self, grid_cells: &Vec<GridCell>) -> (r: Vec<ScheduledAction>)
        requires
            self.wf(),
        ensures
            r@ == self.chunk_actions(grid_cells@),
    {
        let mut result: Vec<ScheduledAction> = Vec::new();
        let mut i: usize = 0;
        while i < grid_cells.len()
            invariant
                self.wf(),
                i <= grid_cells@.len(),
                result@ == self.chunk_actions(grid_cells@.take(i as int)),
            decreases grid_cells@.len() - i,
        {
            let ghost before = result@;
            assert(grid_cells@.take(i + 1).drop_last() =~= grid_cells@.take(i as int));
            match self.find_cell(&grid_cells[i]) {
                Some(ci) => {
                    let ids = &self.cell_actions[ci].ids;
                    let mut j: usize = 0;
                    while j < ids.len()
                        invariant
                            self.wf(),
                            ci < self.cell_actions@.len(),
                            *ids == self.cell_actions@[ci as int].ids,
                            j <= ids@.len(),
                            result@ == before + actions_of_ids(self.actions_view(), ids@.take(j as int)),
                        decreases ids@.len() - j,
                    {
                        assert(ids@.take(j + 1).drop_last() =~= ids@.take(j as int));
                        match self.actions.get(&ids[j]) {
                            Some(a) => {
                                result.push(a.duplicate());
                            },
                            None => {},
                        }
                        j = j + 1;
                    }
                    assert(ids@.take(ids@.len() as int) =~= ids@);
                },
                None => {},
            }
            i = i + 1;
        }
        assert(grid_cells@.take(grid_cells@.len() as int) =~= grid_cells@);
        result
    }

    /// The given cells that have no entry in the per-cell index yet, in order:
    /// those whose actions still have to be loaded from the database.
    pub fn cells_to_load(&self, grid_cells: &Vec<GridCell>) -> (r: Vec<GridCell>)
        requires
            self.wf(),
        ensures
            r@ == grid_cells@.filter(|c: GridCell| !self.has_cell(c)),
    {
        let mut result: Vec<GridCell> = Vec::new();
        let mut i: usize = 0;
        while i < grid_cells.len()
            invariant
                self.wf(),
                i <= grid_cells@.len(),
                result@ == grid_cells@.take(i as int).filter(|c: GridCell| !self.has_cell(c)),
            decreases grid_cells@.len() - i,
        {
            reveal_with_fuel(Seq::filter, 1);
            assert(grid_cells@.take(i + 1).drop_last() =~= grid_cells@.take(i as int));
            let c = grid_cells[i];
            match self.find_cell(&c) {
                Some(_) => {},
                None => {
                    result.push(c);
                },
            }
            i = i + 1;
        }
        assert(grid_cells@.take(grid_cells@.len() as int) =~= grid_cells@);
        result
    }

    /// Appends `id` to the player's list.
    fn push_player_action(&mut self, player_id: u64, id: u64)
        ensures
            final(self).actions@ == old(self).actions@,
            final(self).cell_actions@ == old(self).cell_actions@,
            final(self).completion_queue@ == old(self).completion_queue@,
            final(self).next_action_id == old(self).next_action_id,
            final(self).player_actions@.dom() == old(self).player_actions@.dom().insert(player_id),
            forall|p: u64|
                p != player_id && #[trigger] old(self).player_actions@.contains_key(p)
                    ==> final(self).player_actions@[p] == old(self).player_actions@[p],
            final(self).player_actions@[player_id]@ == if old(self).player_actions@.contains_key(
                player_id,
            ) {
                old(self).player_actions@[player_id]@.push(id)
            } else {
                seq![id]
            },
            final(self).player_view() == old(self).player_view().insert(
                player_id,
                if old(self).player_view().contains_key(player_id) {
                    old(self).player_view()[player_id].push(id)
                } else {
                    seq![id]
                },
            ),
    {
        let mut list: Vec<u64> = match self.player_actions.get(&player_id) {
            Some(v) => v.clone(),
            None => Vec::new(),
        };
        proof {
            if old(self).player_actions@.contains_key(player_id) {
                assert(list@ =~= old(self).player_actions@[player_id]@);
            }
        }
        list.push(id);
        self.player_actions.insert(player_id, list);
        proof {
            assert(self.player_view() =~= old(self).player_view().insert(
                player_id,
                if old(self).player_view().contains_key(player_id) {
                    old(self).player_view()[player_id].push(id)
                } else {
                    seq![id]
                },
            ));
        }
    }

    /// Appends `id` to the cell's list, creating the entry if needed.
    fn push_cell_action(&mut self, c: GridCell, id: u64)
        requires
            old(self).cells_unique(),
        ensures
            final(self).cells_unique(),
            final(self).actions@ == old(self).actions@,
            final(self).player_actions@ == old(self).player_actions@,
            final(self).completion_queue@ == old(self).completion_queue@,
            final(self).next_action_id == old(self).next_action_id,
            final(self).has_cell(c),
            final(self).ids_at(c) == old(self).ids_at(c).push(id),
            forall|d: GridCell| d != c ==> #[trigger] final(self).has_cell(d) == old(self).has_cell(d),
            forall|d: GridCell| d != c ==> #[trigger] final(self).ids_at(d) == old(self).ids_at(d),
            final(self).cell_actions@.len() >= old(self).cell_actions@.len(),
            forall|i: int|
                0 <= i < final(self).cell_actions@.len() ==> (#[trigger] final(self).cell_actions@[i]).cell
                    == c || (i < old(self).cell_actions@.len() && final(self).cell_actions@[i]
                    == old(self).cell_actions@[i]),
            forall|i: int|
                0 <= i < final(self).cell_actions@.len() && (#[trigger] final(self).cell_actions@[i]).cell
                    == c ==> final(self).cell_actions@[i].ids@ == old(self).ids_at(c).push(id),
    {
        match self.find_cell(&c) {
            Some(i) => {
                let mut ids = self.cell_actions[i].ids.clone();
                proof {
                    assert(ids@ =~= old(self).cell_actions@[i as int].ids@);
                }
                ids.push(id);
                self.cell_actions.set(i, CellActions { cell: c, ids });
                proof {
                    assert forall|j: int| 0 <= j < self.cell_actions@.len() implies #[trigger] self.cell_actions@[j].cell
                        == old(self).cell_actions@[j].cell by {}
                    assert(self.cells_unique());
                    assert forall|d: GridCell| #[trigger] self.has_cell(d) == old(self).has_cell(d) by {
                        if old(self).has_cell(d) {
                            let k = choose|k: int| 0 <= k < old(self).cell_actions@.len() && old(self).cell_actions@[k].cell == d;
                            assert(self.cell_actions@[k].cell == d);
                        }
                        if self.has_cell(d) {
                            let k = choose|k: int| 0 <= k < self.cell_actions@.len() && self.cell_actions@[k].cell == d;
                            assert(old(self).cell_actions@[k].cell == d);
                        }
                    }
                    assert forall|d: GridCell| d != c implies #[trigger] self.ids_at(d) == old(self).ids_at(d) by {
                        if self.has_cell(d) {
                            let k = choose|k: int| 0 <= k < self.cell_actions@.len() && self.cell_actions@[k].cell == d;
                            let k2 = choose|k: int| 0 <= k < old(self).cell_actions@.len() && old(self).cell_actions@[k].cell == d;
                            assert(k == k2);
                        }
                    }
                    assert(self.cell_actions@[i as int].cell == c);
                    let k = choose|k: int| 0 <= k < self.cell_actions@.len() && self.cell_actions@[k].cell == c;
                    assert(self.cell_actions@[k].cell == c);
                    assert(k == i as int);
                }
            },
            None => {
                let mut ids: Vec<u64> = Vec::new();
                ids.push(id);
                self.cell_actions.push(CellActions { cell: c, ids });
                proof {
                    let n = old(self).cell_actions@.len() as int;
                    assert(self.cell_actions@[n].cell == c);
                    assert forall|d: GridCell| d != c implies #[trigger] self.has_cell(d) == old(self).has_cell(d) by {
                        if old(self).has_cell(d) {
                            let k = choose|k: int| 0 <= k < old(self).cell_actions@.len() && old(self).cell_actions@[k].cell == d;
                            assert(self.cell_actions@[k].cell == d);
                        }
                    }
                    assert forall|d: GridCell| d != c implies #[trigger] self.ids_at(d) == old(self).ids_at(d) by {
                        if self.has_cell(d) {
                            let k = choose|k: int| 0 <= k < self.cell_actions@.len() && self.cell_actions@[k].cell == d;
                            let k2 = choose|k: int| 0 <= k < old(self).cell_actions@.len() && old(self).cell_actions@[k].cell == d;
                            assert(k == k2);
                        }
                    }
                    let k = choose|k: int| 0 <= k < self.cell_actions@.len() && self.cell_actions@[k].cell == c;
                    assert(k == n);
                    assert(self.ids_at(c) =~= seq![id]);
                    assert(old(self).ids_at(c).push(id) =~= seq![id]);
                }
            },
        }
    }

    /// Inserts an entry into the completion queue, keeping it ordered, where
    /// the entry's id exceeds every id already queued.
    fn enqueue(&mut self, e: QueuedActionCompletion) -> (pos: usize)
        requires
            forall|i: int, j: int|
                0 <= i < j < old(self).completion_queue@.len() ==> queued_le(
                    #[trigger] old(self).completion_queue@[i],
                    #[trigger] old(self).completion_queue@[j],
                ),
            forall|i: int|
                0 <= i < old(self).completion_queue@.len() ==> (
                #[trigger] old(self).completion_queue@[i]).action_id < e.action_id,
        ensures
            final(self).actions@ == old(self).actions@,
            final(self).player_actions@ == old(self).player_actions@,
            final(self).cell_actions@ == old(self).cell_actions@,
            final(self).next_action_id == old(self).next_action_id,
            forall|i: int, j: int|
                0 <= i < j < final(self).completion_queue@.len() ==> queued_le(
                    #[trigger] final(self).completion_queue@[i],
                    #[trigger] final(self).completion_queue@[j],
                ),
            final(self).completion_queue@.to_multiset() == old(self).completion_queue@.to_multiset().insert(e),
            pos <= old(self).completion_queue@.len(),
            final(self).completion_queue@ == old(self).completion_queue@.insert(pos as int, e),
    {
        let mut pos: usize = 0;
        while pos < self.completion_queue.len() && self.completion_queue[pos].completion_time
            <= e.completion_time
            invariant
                pos <= self.completion_queue@.len(),
                self.completion_queue@ == old(self).completion_queue@,
                forall|i: int| 0 <= i < pos ==> (#[trigger] self.completion_queue@[i]).completion_time
                    <= e.completion_time,
            decreases self.completion_queue@.len() - pos,
        {
            pos = pos + 1;
        }
        let ghost q0 = self.completion_queue@;
        self.completion_queue.insert(pos, e);
        proof {
            let q = self.completion_queue@;
            assert forall|i: int, j: int| 0 <= i < j < q.len() implies queued_le(
                #[trigger] q[i],
                #[trigger] q[j],
            ) by {
                if j == pos as int {
                    assert(q0[i].action_id < e.action_id);
                } else if i == pos as int {
                    assert(q[j] == q0[j - 1]);
                } else if i < pos && j > pos {
                    assert(q[j] == q0[j - 1]);
                    assert(q[i] == q0[i]);
                } else if j < pos {
                } else {
                    assert(q[i] == q0[i - 1]);
                    assert(q[j] == q0[j - 1]);
                }
            }
            vstd::seq_lib::to_multiset_insert(q0, pos as int, e);
        }
        pos
    }
}

} // verus!
