//! Cache of the active actions that the action processor ticks through:
//! pending actions start, due actions complete, failed actions are marked.
use vstd::prelude::*;
use std::collections::HashMap;
use vstd::std_specs::iter::IteratorSpec;
use crate::grid::{GridCell, TerrainChunkId};
use crate::actions::types::ActionStatus;

verus! {

broadcast use vstd::std_specs::hash::group_hash_axioms;

/// Kind of a scheduled action.
#[derive(Clone, Copy, PartialEq, Eq, Structural, Debug)]
pub enum ActionTypeEnum {
    BuildBuilding,
    BuildRoad,
    MoveUnit,
    SendMessage,
    HarvestResource,
    CraftResource,
    TrainUnit,
}

/// An action as the processor caches it.
#[derive(Clone, Copy, PartialEq, Eq, Structural, Debug)]
pub struct ActionInfo {
    pub action_id: u64,
    pub player_id: u64,
    pub chunk_id: TerrainChunkId,
    pub cell: GridCell,
    pub action_type: ActionTypeEnum,
    pub status: ActionStatus,
    pub start_time: u64,
    pub duration_ms: u64,
    pub completion_time: u64,
}

/// The processor's cache of active actions, by id.
pub struct ActionCache {
    active_actions: HashMap<u64, ActionInfo>,
}

/// `a` with its status replaced by `s`.
pub open spec fn info_with_status(a: ActionInfo, s: ActionStatus) -> ActionInfo {
    ActionInfo { status: s, ..a }
}

/// Whether an action is due to complete at `now`.
pub open spec fn is_due(a: ActionInfo, now: u64) -> bool {
    a.status == ActionStatus::InProgress && now >= a.completion_time
}

impl ActionCache {
    /// The cached actions by id.
    pub closed spec fn view_map(&self) -> Map<u64, ActionInfo> {
        self.active_actions@
    }

    /// Every action is cached under its own id.
    pub closed spec fn wf(&self) -> bool {
        forall|id: u64| #[trigger] self.active_actions@.contains_key(id) ==> self.active_actions@[id].action_id == id
    }

    /// An empty cache.
    pub fn new() -> (c: ActionCache)
        ensures
            c.wf(),
            c.view_map() == Map::<u64, ActionInfo>::empty(),
    {
        ActionCache { active_actions: HashMap::new() }
    }

    /// Number of cached actions.
    pub fn len(&self) -> (n: usize)
        ensures
            n == self.view_map().len(),
    {
        self.active_actions.len()
    }

    /// The cached action with this id.
    pub fn get(&self, action_id: u64) -> (r: Option<ActionInfo>)
        ensures
            r == (if self.view_map().contains_key(action_id) {
                Some(self.view_map()[action_id])
            } else {
                None
            }),
    {
        match self.active_actions.get(&action_id) {
            Some(a) => Some(*a),
            None => None,
        }
    }

    /// Adds (or replaces) an action under its id.
    pub fn add_action(&mut self, action_info: ActionInfo)
        requires
            old(self).wf(),
        ensures
            final(self).wf(),
            final(self).view_map() == old(self).view_map().insert(action_info.action_id, action_info),
    {
        self.active_actions.insert(action_info.action_id, action_info);
    }

    /// Loads the active actions read from the database, one after the other
    /// (a later row replaces an earlier one with the same id).
    pub fn load_active_actions(&mut self, actions: Vec<ActionInfo>)
        requires
            old(self).wf(),
        ensures
            final(self).wf(),
            final(self).view_map() == loaded(old(self).view_map(), actions@),
    {
        let mut i: usize = 0;
        while i < actions.len()
            invariant
                i <= actions@.len(),
                self.wf(),
                self.view_map() == loaded(old(self).view_map(), actions@.take(i as int)),
            decreases actions@.len() - i,
        {
            assert(actions@.take(i + 1).drop_last() =~= actions@.take(i as int));
            let a = actions[i];
            self.active_actions.insert(a.action_id, a);
            i = i + 1;
        }
        assert(actions@.take(actions@.len() as int) =~= actions@);
    }

    /// Ids of the pending actions, each once, in the cache's iteration order.
    pub fn pending_actions(&self) -> (ids: Vec<u64>)
        ensures
            ids@.no_duplicates(),
            forall|id: u64|
                ids@.contains(id) <==> self.view_map().contains_key(id) && self.view_map()[id].status
                    == ActionStatus::Pending,
    {
        self.ids_where(Selector::Pending, 0)
    }

    /// Ids of the in-progress actions due at `now`, each once.
    pub fn due_actions(&self, now: u64) -> (ids: Vec<u64>)
        ensures
            ids@.no_duplicates(),
            forall|id: u64|
                ids@.contains(id) <==> self.view_map().contains_key(id) && is_due(
                    self.view_map()[id],
                    now,
                ),
    {
        self.ids_where(Selector::Due, now)
    }

    /// Sets the status of a cached action and returns the updated action
    /// (`None`, with nothing changed, where the id is not cached).
    pub fn set_status(&mut self, action_id: u64, status: ActionStatus) -> (r: Option<ActionInfo>)
        requires
            old(self).wf(),
        ensures
            final(self).wf(),
            old(self).view_map().contains_key(action_id) ==> {
                let a = info_with_status(old(self).view_map()[action_id], status);
                &&& r == Some(a)
                &&& final(self).view_map() == old(self).view_map().insert(action_id, a)
            },
            !old(self).view_map().contains_key(action_id) ==> r is None && final(self).view_map()
                == old(self).view_map(),
    {
        match self.active_actions.get(&action_id) {
            Some(a) => {
                let updated = ActionInfo { status, ..*a };
                self.active_actions.insert(action_id, updated);
                Some(updated)
            },
            None => None,
        }
    }

    /// Starts a pending action: it becomes in progress.
    pub fn start_action(&mut self, action_id: u64) -> (r: Option<ActionInfo>)
        requires
            old(self).wf(),
        ensures
            final(self).wf(),
            old(self).view_map().contains_key(action_id) ==> {
                let a = info_with_status(old(self).view_map()[action_id], ActionStatus::InProgress);
                &&& r == Some(a)
                &&& final(self).view_map() == old(self).view_map().insert(action_id, a)
            },
            !old(self).view_map().contains_key(action_id) ==> r is None && final(self).view_map()
                == old(self).view_map(),
    {
        self.set_status(action_id, ActionStatus::InProgress)
    }

    /// Marks an action as failed. Returns the failed action, and whether its
    /// building must be deleted, decided on the action as it was before
    /// failing: only a build action that had started has a building.
    pub fn fail_action(&mut self, action_id: u64) -> (r: Option<FailedAction>)
        requires
            old(self).wf(),
        ensures
            final(self).wf(),
            old(self).view_map().contains_key(action_id) ==> {
                let before = old(self).view_map()[action_id];
                let a = info_with_status(before, ActionStatus::Failed);
                &&& r == Some(
                    FailedAction { action: a, delete_building: spec_fail_removes_building(before) },
                )
                &&& final(self).view_map() == old(self).view_map().insert(action_id, a)
            },
            !old(self).view_map().contains_key(action_id) ==> r is None && final(self).view_map()
                == old(self).view_map(),
    {
        match self.get(action_id) {
            None => None,
            Some(before) => {
                let delete_building = fail_removes_building(&before);
                match self.set_status(action_id, ActionStatus::Failed) {
                    Some(a) => Some(FailedAction { action: a, delete_building }),
                    None => None,
                }
            },
        }
    }

    /// Starts every pending action: each becomes in progress and is returned
    /// (each once); the other actions are kept as they are.
    pub fn process_pending(&mut self) -> (started: Vec<ActionInfo>)
        requires
            old(self).wf(),
        ensures
            final(self).wf(),
            forall|i: int, j: int|
                0 <= i < j < started@.len() ==> #[trigger] started@[i].action_id
                    != #[trigger] started@[j].action_id,
            forall|a: ActionInfo|
                started@.contains(a) <==> old(self).view_map().contains_key(a.action_id) && old(
                    self,
                ).view_map()[a.action_id].status == ActionStatus::Pending && a == info_with_status(
                    old(self).view_map()[a.action_id],
                    ActionStatus::InProgress,
                ),
            final(self).view_map() == after_start(old(self).view_map()),
    {
        let ghost m0 = self.active_actions@;
        let pending = self.pending_actions();
        let mut started: Vec<ActionInfo> = Vec::new();
        let mut i: usize = 0;
        while i < pending.len()
            invariant
                i <= pending@.len(),
                self.wf(),
                forall|id: u64| #[trigger] m0.contains_key(id) ==> m0[id].action_id == id,
                pending@.no_duplicates(),
                forall|id: u64|
                    pending@.contains(id) <==> m0.contains_key(id) && m0[id].status
                        == ActionStatus::Pending,
                self.active_actions@.dom() == m0.dom(),
                forall|id: u64|
                    #[trigger] m0.contains_key(id) ==> self.active_actions@[id] == if pending@.take(
                        i as int,
                    ).contains(id) {
                        info_with_status(m0[id], ActionStatus::InProgress)
                    } else {
                        m0[id]
                    },
                started@.len() == i,
                forall|k: int|
                    0 <= k < i ==> #[trigger] started@[k] == info_with_status(
                        m0[pending@[k]],
                        ActionStatus::InProgress,
                    ),
            decreases pending@.len() - i,
        {
            broadcast use vstd::seq_lib::group_seq_properties;

            let id = pending[i];
            assert(pending@.take(i + 1) == pending@.take(i as int).push(id));
            assert(!pending@.take(i as int).contains(id));
            let r = self.set_status(id, ActionStatus::InProgress);
            match r {
                Some(a) => {
                    started.push(a);
                },
                None => {},
            }
            i = i + 1;
        }
        proof {
            broadcast use vstd::seq_lib::group_seq_properties;

            assert(pending@.take(pending@.len() as int) == pending@);
            assert(self.active_actions@ =~= after_start(m0));
            assert forall|i: int, j: int| 0 <= i < j < started@.len() implies #[trigger] started@[i].action_id
                    != #[trigger] started@[j].action_id by {
                assert(pending@.contains(pending@[i]) && pending@.contains(pending@[j]));
            }
            assert forall|a: ActionInfo| started@.contains(a) <==> m0.contains_key(a.action_id)
                && m0[a.action_id].status == ActionStatus::Pending && a == info_with_status(
                m0[a.action_id],
                ActionStatus::InProgress,
            ) by {
                if started@.contains(a) {
                    let k = choose|k: int| 0 <= k < started@.len() && started@[k] == a;
                    assert(pending@.contains(pending@[k]));
                    assert(a.action_id == pending@[k]);
                }
                if m0.contains_key(a.action_id) && m0[a.action_id].status == ActionStatus::Pending
                    && a == info_with_status(m0[a.action_id], ActionStatus::InProgress) {
                    assert(pending@.contains(a.action_id));
                    let k = choose|k: int| 0 <= k < pending@.len() && pending@[k] == a.action_id;
                    assert(started@[k] == a);
                }
            }
        }
        started
    }

    /// One tick of the processor at `now`: every pending action starts, then
    /// every in-progress action due at `now` (those just started included)
    /// completes, and completed actions leave the cache. Returns the actions
    /// started and those completed.
    pub fn tick(&mut self, now: u64) -> (r: (Vec<ActionInfo>, Vec<ActionInfo>))
        requires
            old(self).wf(),
        ensures
            final(self).wf(),
            forall|a: ActionInfo|
                r.0@.contains(a) <==> old(self).view_map().contains_key(a.action_id) && old(
                    self,
                ).view_map()[a.action_id].status == ActionStatus::Pending && a == info_with_status(
                    old(self).view_map()[a.action_id],
                    ActionStatus::InProgress,
                ),
            forall|a: ActionInfo|
                r.1@.contains(a) <==> after_start(old(self).view_map()).contains_key(a.action_id)
                    && is_due(after_start(old(self).view_map())[a.action_id], now) && a
                    == info_with_status(
                    after_start(old(self).view_map())[a.action_id],
                    ActionStatus::Completed,
                ),
            final(self).view_map() == after_tick(after_start(old(self).view_map()), now),
    {
        let started = self.process_pending();
        let done = self.process_completed(now);
        (started, done)
    }

    /// One completion tick: every in-progress action due at `now` is marked
    /// completed and returned (each once), then every completed action leaves
    /// the cache.
    pub fn process_completed(&mut self, now: u64) -> (done: Vec<ActionInfo>)
        requires
            old(self).wf(),
        ensures
            final(self).wf(),
            forall|i: int, j: int|
                0 <= i < j < done@.len() ==> #[trigger] done@[i].action_id
                    != #[trigger] done@[j].action_id,
            forall|a: ActionInfo|
                done@.contains(a) <==> old(self).view_map().contains_key(a.action_id) && is_due(
                    old(self).view_map()[a.action_id],
                    now,
                ) && a == info_with_status(
                    old(self).view_map()[a.action_id],
                    ActionStatus::Completed,
                ),
            final(self).view_map() == after_tick(old(self).view_map(), now),
    {
        let ghost m0 = self.active_actions@;
        let due = self.due_actions(now);
        let mut done: Vec<ActionInfo> = Vec::new();
        let mut i: usize = 0;
        while i < due.len()
            invariant
                i <= due@.len(),
                self.wf(),
                forall|id: u64| #[trigger] m0.contains_key(id) ==> m0[id].action_id == id,
                due@.no_duplicates(),
                forall|id: u64| due@.contains(id) <==> m0.contains_key(id) && is_due(m0[id], now),
                self.active_actions@.dom() == m0.dom(),
                forall|id: u64|
                    #[trigger] m0.contains_key(id) ==> self.active_actions@[id] == if due@.take(
                        i as int,
                    ).contains(id) {
                        info_with_status(m0[id], ActionStatus::Completed)
                    } else {
                        m0[id]
                    },
                done@.len() == i,
                forall|k: int|
                    0 <= k < i ==> #[trigger] done@[k] == info_with_status(
                        m0[due@[k]],
                        ActionStatus::Completed,
                    ),
            decreases due@.len() - i,
        {
            broadcast use vstd::seq_lib::group_seq_properties;

            let id = due[i];
            assert(due@.take(i + 1) == due@.take(i as int).push(id));
            assert(!due@.take(i as int).contains(id));
            let r = self.set_status(id, ActionStatus::Completed);
            match r {
                Some(a) => {
                    done.push(a);
                },
                None => {},
            }
            i = i + 1;
        }
        assert(due@.take(due@.len() as int) == due@);
        let ghost m1 = self.active_actions@;
        let finished = self.ids_where(Selector::Completed, now);
        let mut k: usize = 0;
        while k < finished.len()
            invariant
                k <= finished@.len(),
                self.wf(),
                forall|id: u64| finished@.contains(id) <==> m1.contains_key(id) && m1[id].status == ActionStatus::Completed,
                self.active_actions@ == m1.remove_keys(finished@.take(k as int).to_set()),
            decreases finished@.len() - k,
        {
            let id = finished[k];
            self.active_actions.remove(&id);
            assert(finished@.take(k + 1).to_set() == finished@.take(k as int).to_set().insert(id)) by {
                broadcast use vstd::seq_lib::group_seq_properties;
                assert(finished@.take(k + 1) == finished@.take(k as int).push(id));
            }
            assert(self.active_actions@ =~= m1.remove_keys(finished@.take(k + 1).to_set()));
            k = k + 1;
        }
        proof {
            broadcast use vstd::seq_lib::group_seq_properties;

            assert(finished@.take(finished@.len() as int) == finished@);
            assert(self.active_actions@ =~= m0.restrict(
                m0.dom().filter(
                    |id: u64| m0[id].status != ActionStatus::Completed && !is_due(m0[id], now),
                ),
            ));
            assert forall|i: int, j: int| 0 <= i < j < done@.len() implies #[trigger] done@[i].action_id
                    != #[trigger] done@[j].action_id by {
                assert(due@.contains(due@[i]) && due@.contains(due@[j]));
            }
            assert forall|a: ActionInfo| done@.contains(a) <==> m0.contains_key(a.action_id) && is_due(
                m0[a.action_id],
                now,
            ) && a == info_with_status(m0[a.action_id], ActionStatus::Completed) by {
                if done@.contains(a) {
                    let k = choose|k: int| 0 <= k < done@.len() && done@[k] == a;
                    assert(due@.contains(due@[k]));
                    assert(a.action_id == due@[k]);
                }
                if m0.contains_key(a.action_id) && is_due(m0[a.action_id], now) && a
                    == info_with_status(m0[a.action_id], ActionStatus::Completed) {
                    assert(due@.contains(a.action_id));
                    let k = choose|k: int| 0 <= k < due@.len() && due@[k] == a.action_id;
                    assert(done@[k] == a);
                }
            }
        }
        done
    }

    /// Ids of the cached actions that the selector picks, in the cache's
    /// iteration order.
    fn ids_where(&self, sel: Selector, now: u64) -> (ids: Vec<u64>)
        ensures
            ids@.no_duplicates(),
            forall|id: u64|
                ids@.contains(id) <==> self.view_map().contains_key(id) && selected(sel, self.view_map()[id], now),
    {
        let mut ids: Vec<u64> = Vec::new();
        let ghost m = self.active_actions@;
        let ghost ks = vstd::std_specs::hash::spec_keys_iter(&self.active_actions).remaining();
        for k in it: self.active_actions.keys()
            invariant
                m == self.active_actions@,
                it.seq() == ks,
                ks.unref().to_set() == m.dom(),
                ks.no_duplicates(),
                it.index() <= ks.len(),
                forall|j: int|
                    0 <= j < it.index() ==> (ids@.contains(*#[trigger] ks[j]) <==> (m.contains_key(
                        *ks[j],
                    ) && selected(sel, m[*ks[j]], now))),
                forall|i: int|
                    0 <= i < ids@.len() ==> exists|j: int|
                        0 <= j < ks.len() && *ks[j] == #[trigger] ids@[i],
                forall|j: int| it.index() <= j < ks.len() ==> !ids@.contains(*#[trigger] ks[j]),
                ids@.no_duplicates(),
        {
            let id = *k;
            let ghost j0 = it.index();
            assert(id == *it.seq()[j0]);
            let ghost before = ids@;
            assert(!before.contains(id));
            match self.active_actions.get(&id) {
                Some(a) => {
                    let keep = match sel {
                        Selector::Pending => a.status == ActionStatus::Pending,
                        Selector::Due => a.status == ActionStatus::InProgress && now
                            >= a.completion_time,
                        Selector::Completed => a.status == ActionStatus::Completed,
                    };
                    if keep {
                        ids.push(id);
                    }
                },
                None => {},
            }
            proof {
                broadcast use vstd::seq_lib::group_seq_properties;

                assert forall|i: int| 0 <= i < ids@.len() implies exists|j: int|
                    0 <= j < ks.len() && *ks[j] == #[trigger] ids@[i] by {
                    if i < before.len() {
                        let j = choose|j: int| 0 <= j < ks.len() && *ks[j] == before[i];
                        assert(*ks[j] == ids@[i]);
                    } else {
                        assert(*ks[j0] == ids@[i]);
                    }
                }
                assert forall|j: int| j0 + 1 <= j < ks.len() implies !ids@.contains(*#[trigger] ks[j]) by {
                    assert(ks[j] != ks[j0]);
                    assert(!before.contains(*ks[j]));
                }
                assert forall|j: int| 0 <= j < j0 + 1 implies (ids@.contains(*#[trigger] ks[j]) <==> (m.contains_key(
                        *ks[j],
                    ) && selected(sel, m[*ks[j]], now))) by {
                    if j < j0 {
                        assert(ks[j] != ks[j0]);
                        assert(ids@.contains(*ks[j]) == before.contains(*ks[j]));
                    } else {
                        if ids@.len() > before.len() {
                            assert(ids@[before.len() as int] == id);
                        }
                    }
                }
            }
        }
        proof {
            assert forall|id: u64| ids@.contains(id) <==> self.view_map().contains_key(id) && selected(sel, self.view_map()[id], now) by {
                if m.contains_key(id) {
                    assert(ks.unref().to_set().contains(id));
                    let j = choose|j: int| 0 <= j < ks.len() && ks.unref()[j] == id;
                    assert(*ks[j] == id);
                }
                if ids@.contains(id) {
                    let i = choose|i: int| 0 <= i < ids@.len() && ids@[i] == id;
                    let j = choose|j: int| 0 <= j < ks.len() && *ks[j] == ids@[i];
                    assert(ids@.contains(*ks[j]));
                }
            }
        }
        ids
    }
}

/// Which cached actions a scan picks.
#[derive(Clone, Copy, PartialEq, Eq, Structural)]
pub enum Selector {
    Pending,
    Due,
    Completed,
}

/// Whether the selector picks the action at time `now`.
pub open spec fn selected(sel: Selector, a: ActionInfo, now: u64) -> bool {
    match sel {
        Selector::Pending => a.status == ActionStatus::Pending,
        Selector::Due => is_due(a, now),
        Selector::Completed => a.status == ActionStatus::Completed,
    }
}

/// What failing an action gives: the action marked failed, and whether the
/// building it was putting up must be deleted.
#[derive(Clone, Copy, PartialEq, Eq, Structural, Debug)]
pub struct FailedAction {
    pub action: ActionInfo,
    pub delete_building: bool,
}

/// Whether failing this action must delete the building under construction:
/// a build action that is no longer pending, taken before it is marked failed.
pub open spec fn spec_fail_removes_building(a: ActionInfo) -> bool {
    a.action_type == ActionTypeEnum::BuildBuilding && a.status != ActionStatus::Pending
}

/// Whether failing this action must delete the building under construction.
/// Called on the action as it stands before it is marked failed.
pub fn fail_removes_building(a: &ActionInfo) -> (r: bool)
    ensures
        r == spec_fail_removes_building(*a),
{
    a.action_type == ActionTypeEnum::BuildBuilding && a.status != ActionStatus::Pending
}

/// Law: failing a pending action deletes no building, and failing a build
/// action that is in progress deletes its building.
pub proof fn law_failed_build_deletes_building(a: ActionInfo)
    ensures
        a.status == ActionStatus::Pending ==> !spec_fail_removes_building(a),
        a.action_type == ActionTypeEnum::BuildBuilding && a.status == ActionStatus::InProgress
            ==> spec_fail_removes_building(a),
        !spec_fail_removes_building(info_with_status(a, ActionStatus::Failed)) || a.action_type
            == ActionTypeEnum::BuildBuilding,
{
}

/// The cache after every pending action started.
pub open spec fn after_start(m: Map<u64, ActionInfo>) -> Map<u64, ActionInfo> {
    Map::new(
        |id: u64| m.contains_key(id),
        |id: u64|
            if m[id].status == ActionStatus::Pending {
                info_with_status(m[id], ActionStatus::InProgress)
            } else {
                m[id]
            },
    )
}

/// Law: after a full tick no cached action is pending, completed or due, and
/// an action that was neither pending, due nor completed is kept unchanged.
pub proof fn law_tick_clears_pending(m: Map<u64, ActionInfo>, now: u64, id: u64)
    ensures
        after_tick(after_start(m), now).contains_key(id) ==> {
            let a = after_tick(after_start(m), now)[id];
            a.status != ActionStatus::Pending && a.status != ActionStatus::Completed && !is_due(a, now)
        },
        m.contains_key(id) && m[id].status != ActionStatus::Pending && m[id].status
            != ActionStatus::Completed && !is_due(m[id], now) ==> after_tick(after_start(m), now)
            .contains_key(id) && after_tick(after_start(m), now)[id] == m[id],
{
}

/// What starting an action does besides its status: a building action puts
/// up its building under construction, a road action lays its road segment.
#[derive(Clone, Copy, PartialEq, Eq, Structural, Debug)]
pub struct StartEffects {
    pub create_building: bool,
    pub create_road: bool,
}

/// The effects of starting `a`.
pub fn start_effects(a: &ActionInfo) -> (r: StartEffects)
    ensures
        r.create_building == (a.action_type == ActionTypeEnum::BuildBuilding),
        r.create_road == (a.action_type == ActionTypeEnum::BuildRoad),
{
    StartEffects {
        create_building: a.action_type == ActionTypeEnum::BuildBuilding,
        create_road: a.action_type == ActionTypeEnum::BuildRoad,
    }
}

/// What completing an action does besides its status and messages: a
/// building is marked built, the road maps of the chunk and its neighbours
/// are redrawn.
#[derive(Clone, Copy, PartialEq, Eq, Structural, Debug)]
pub struct CompletionEffects {
    pub mark_built: bool,
    pub redraw_roads: bool,
}

/// The effects of completing `a`.
pub fn completion_effects(a: &ActionInfo) -> (r: CompletionEffects)
    ensures
        r.mark_built == (a.action_type == ActionTypeEnum::BuildBuilding),
        r.redraw_roads == (a.action_type == ActionTypeEnum::BuildRoad),
{
    CompletionEffects {
        mark_built: a.action_type == ActionTypeEnum::BuildBuilding,
        redraw_roads: a.action_type == ActionTypeEnum::BuildRoad,
    }
}

/// The cache after a completion tick at `now`: completed and due actions leave.
pub open spec fn after_tick(m: Map<u64, ActionInfo>, now: u64) -> Map<u64, ActionInfo> {
    m.restrict(
        m.dom().filter(|id: u64| m[id].status != ActionStatus::Completed && !is_due(m[id], now)),
    )
}

/// Law: after a completion tick at `now`, no cached action is completed or
/// due at `now`, and every other action is kept unchanged.
pub proof fn law_tick_leaves_nothing_due(m: Map<u64, ActionInfo>, now: u64, id: u64)
    ensures
        after_tick(m, now).contains_key(id) ==> after_tick(m, now)[id].status
            != ActionStatus::Completed && !is_due(after_tick(m, now)[id], now),
        m.contains_key(id) && m[id].status != ActionStatus::Completed && !is_due(m[id], now)
            ==> after_tick(m, now).contains_key(id) && after_tick(m, now)[id] == m[id],
{
}

/// The cache after inserting the rows in order.
pub open spec fn loaded(m: Map<u64, ActionInfo>, rows: Seq<ActionInfo>) -> Map<u64, ActionInfo>
    decreases rows.len(),
{
    if rows.len() == 0 {
        m
    } else {
        loaded(m, rows.drop_last()).insert(rows.last().action_id, rows.last())
    }
}

/// Law, in terms of statuses and times: a tick at `now` starts every pending
/// action; an action in progress (or just started) whose completion time is
/// not after `now` completes and leaves the cache; one due later stays, in
/// progress; a completed or failed action that was not due is kept as it was.
pub proof fn law_tick_by_time(m: Map<u64, ActionInfo>, now: u64, id: u64)
    requires
        m.contains_key(id),
    ensures
        (m[id].status == ActionStatus::Pending || m[id].status == ActionStatus::InProgress)
            && m[id].completion_time <= now ==> !after_tick(after_start(m), now).contains_key(id),
        (m[id].status == ActionStatus::Pending || m[id].status == ActionStatus::InProgress)
            && m[id].completion_time > now ==> after_tick(after_start(m), now).contains_key(id)
            && after_tick(after_start(m), now)[id] == (ActionInfo { status: ActionStatus::InProgress, ..m[id] }),
        m[id].status == ActionStatus::Completed ==> !after_tick(after_start(m), now).contains_key(id),
        m[id].status == ActionStatus::Failed ==> after_tick(after_start(m), now).contains_key(id)
            && after_tick(after_start(m), now)[id] == m[id],
{
}

} // verus!
