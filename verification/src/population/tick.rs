//! One organization's population tick as a sequence of steps: growth up to
//! the housing capacity, then, at each threshold, the emergence of a named
//! unit in a free slot. The growth amount itself is computed by the caller.
use vstd::prelude::*;
use crate::population::rules::{
    clamp_population,
    emergence_due,
    growth_applies,
    spec_emergence_threshold,
    spec_growth_applies,
};

verus! {

/// Where an organization's tick stands.
#[derive(Clone, Copy, PartialEq, Eq, Structural, Debug)]
pub enum TickState {
    /// Capacity, population and named units are being read.
    Reading,
    Growing { capacity: u32, population: i32, named: usize },
    Storing { capacity: u32, population: i32, named: usize },
    Reporting { capacity: u32, population: i32, named: usize },
    FindingSlot { capacity: u32, population: i32, named: usize },
    Spawning { capacity: u32, population: i32, named: usize },
    Announcing { capacity: u32, population: i32, named: usize },
    Finished,
}

/// The outcome of the last action of a tick.
#[derive(Clone, Copy, PartialEq, Eq, Structural, Debug)]
pub enum TickEvent {
    /// The housing capacity, the population and the named units.
    Counts { capacity: u32, population: i32, named: usize },
    /// Reading them failed.
    ReadFailed,
    /// The grown population, before it is held to the capacity.
    Grown(i32),
    /// Whether the new population was stored.
    Stored(bool),
    /// Whether a built building of the territory has a free slot.
    SlotFound(bool),
    /// Whether the named unit was spawned there.
    Spawned(bool),
    Done,
}

/// What to do next in a tick.
#[derive(Clone, Copy, PartialEq, Eq, Structural, Debug)]
pub enum TickAction {
    /// Compute the logistic growth of `population` under `capacity`.
    ComputeGrowth { capacity: u32, population: i32 },
    StorePopulation(i32),
    /// Tell the leader's player the population, the named units and the
    /// capacity (`with_newcomer`: with the unit that just emerged).
    ReportPopulation { population: i32, named: usize, capacity: u32, with_newcomer: bool },
    /// Find the built building of the territory, fewest units first, with a free slot.
    FindFreeSlot,
    /// Spawn a named unit there, in a random free slot.
    SpawnUnit,
    /// Show the player the unit that spawned.
    AnnounceSpawn,
    Stop,
}

/// The step that checks for an emergence at `population` with `named` named units.
pub open spec fn emergence_check(capacity: u32, population: i32, named: usize) -> (
    TickState,
    TickAction,
) {
    if population >= spec_emergence_threshold(named) {
        (TickState::FindingSlot { capacity, population, named }, TickAction::FindFreeSlot)
    } else {
        (TickState::Finished, TickAction::Stop)
    }
}

/// One step of an organization's tick: a failed read ends it; the population
/// grows only below a positive capacity, is held to the capacity, and is
/// stored and reported only when it rose (a failed store ends the tick); then,
/// when the population reached 25 per named unit plus one, a named unit
/// emerges in a free slot and the player is told.
pub open spec fn spec_tick_step(s: TickState, e: TickEvent) -> (TickState, TickAction) {
    match (s, e) {
        (TickState::Reading, TickEvent::Counts { capacity, population, named }) => {
            if spec_growth_applies(capacity, population) {
                (
                    TickState::Growing { capacity, population, named },
                    TickAction::ComputeGrowth { capacity, population },
                )
            } else {
                emergence_check(capacity, population, named)
            }
        },
        (TickState::Growing { capacity, population, named }, TickEvent::Grown(raw)) => {
            let grown = if raw <= capacity as i32 {
                raw
            } else {
                capacity as i32
            };
            if grown > population {
                (
                    TickState::Storing { capacity, population: grown, named },
                    TickAction::StorePopulation(grown),
                )
            } else {
                emergence_check(capacity, population, named)
            }
        },
        (TickState::Storing { capacity, population, named }, TickEvent::Stored(ok)) => {
            if ok {
                (
                    TickState::Reporting { capacity, population, named },
                    TickAction::ReportPopulation { population, named, capacity, with_newcomer: false },
                )
            } else {
                (TickState::Finished, TickAction::Stop)
            }
        },
        (TickState::Reporting { capacity, population, named }, TickEvent::Done) => emergence_check(
            capacity,
            population,
            named,
        ),
        (TickState::FindingSlot { capacity, population, named }, TickEvent::SlotFound(found)) => {
            if found {
                (TickState::Spawning { capacity, population, named }, TickAction::SpawnUnit)
            } else {
                (TickState::Finished, TickAction::Stop)
            }
        },
        (TickState::Spawning { capacity, population, named }, TickEvent::Spawned(ok)) => {
            if ok {
                (
                    TickState::Announcing { capacity, population, named: (named + 1) as usize },
                    TickAction::ReportPopulation {
                        population,
                        named: (named + 1) as usize,
                        capacity,
                        with_newcomer: true,
                    },
                )
            } else {
                (TickState::Finished, TickAction::Stop)
            }
        },
        (TickState::Announcing { .. }, TickEvent::Done) => (
            TickState::Finished,
            TickAction::AnnounceSpawn,
        ),
        _ => (TickState::Finished, TickAction::Stop),
    }
}

fn next_emergence_check(capacity: u32, population: i32, named: usize) -> (r: (TickState, TickAction))
    requires
        i32::MIN <= spec_emergence_threshold(named) <= i32::MAX,
    ensures
        r == emergence_check(capacity, population, named),
{
    if emergence_due(population, named) {
        (TickState::FindingSlot { capacity, population, named }, TickAction::FindFreeSlot)
    } else {
        (TickState::Finished, TickAction::Stop)
    }
}

/// Whether the named-unit count of a state or event is small enough for the
/// emergence threshold to be computed (as the server does, in `i32`).
pub open spec fn named_fits(named: usize) -> bool {
    named <= 85_899_344usize
}

/// One step of an organization's tick; see `spec_tick_step`.
pub fn tick_step(s: TickState, e: TickEvent) -> (r: (TickState, TickAction))
    requires
        e matches TickEvent::Counts { named, .. } ==> named_fits(named),
        s matches TickState::Growing { named, .. } ==> named_fits(named),
        s matches TickState::Storing { named, .. } ==> named_fits(named),
        s matches TickState::Reporting { named, .. } ==> named_fits(named),
        s matches TickState::Spawning { named, .. } ==> named_fits(named),
    ensures
        r == spec_tick_step(s, e),
{
    match (s, e) {
        (TickState::Reading, TickEvent::Counts { capacity, population, named }) => {
            if growth_applies(capacity, population) {
                (
                    TickState::Growing { capacity, population, named },
                    TickAction::ComputeGrowth { capacity, population },
                )
            } else {
                next_emergence_check(capacity, population, named)
            }
        },
        (TickState::Growing { capacity, population, named }, TickEvent::Grown(raw)) => {
            let grown = clamp_population(raw, capacity);
            if grown > population {
                (
                    TickState::Storing { capacity, population: grown, named },
                    TickAction::StorePopulation(grown),
                )
            } else {
                next_emergence_check(capacity, population, named)
            }
        },
        (TickState::Storing { capacity, population, named }, TickEvent::Stored(ok)) => {
            if ok {
                (
                    TickState::Reporting { capacity, population, named },
                    TickAction::ReportPopulation { population, named, capacity, with_newcomer: false },
                )
            } else {
                (TickState::Finished, TickAction::Stop)
            }
        },
        (TickState::Reporting { capacity, population, named }, TickEvent::Done) => next_emergence_check(
            capacity,
            population,
            named,
        ),
        (TickState::FindingSlot { capacity, population, named }, TickEvent::SlotFound(found)) => {
            if found {
                (TickState::Spawning { capacity, population, named }, TickAction::SpawnUnit)
            } else {
                (TickState::Finished, TickAction::Stop)
            }
        },
        (TickState::Spawning { capacity, population, named }, TickEvent::Spawned(ok)) => {
            if ok {
                (
                    TickState::Announcing { capacity, population, named: named + 1 },
                    TickAction::ReportPopulation {
                        population,
                        named: named + 1,
                        capacity,
                        with_newcomer: true,
                    },
                )
            } else {
                (TickState::Finished, TickAction::Stop)
            }
        },
        (TickState::Announcing { .. }, TickEvent::Done) => (
            TickState::Finished,
            TickAction::AnnounceSpawn,
        ),
        _ => (TickState::Finished, TickAction::Stop),
    }
}

/// Law: a tick never stores a population above the housing capacity nor
/// below the population it started from, and a named unit is looked for
/// only at or above the threshold of 25 per named unit plus one.
pub proof fn law_tick_bounds(s: TickState, e: TickEvent)
    ensures
        spec_tick_step(s, e).1 matches TickAction::StorePopulation(p) ==> s matches TickState::Growing {
            capacity,
            population,
            ..
        } && population < p <= capacity as i32,
        spec_tick_step(s, e).0 matches TickState::FindingSlot { population, named, .. }
            ==> population >= spec_emergence_threshold(named),
{
}

/// The step that an emergence check at `population` with `named` named units
/// gives: a slot is looked for from 25 per named unit plus one.
pub open spec fn emerges_at(capacity: u32, population: i32, named: usize) -> (TickState, TickAction) {
    if population >= 25 * ((named as i32) + 1) {
        (TickState::FindingSlot { capacity, population, named }, TickAction::FindFreeSlot)
    } else {
        (TickState::Finished, TickAction::Stop)
    }
}

/// Law: a tick reads the counts (a failed read stops it); the population
/// grows only when there is housing and it is below it; otherwise, or when
/// the growth does not raise it, the tick goes straight to the emergence
/// check at the population read. A raised population, held to the capacity,
/// is stored; once stored it is reported with the named units and the
/// capacity read, then checked for emergence; a failed store stops the tick.
pub proof fn law_tick_growth(capacity: u32, population: i32, named: usize, raw: i32, ok: bool)
    ensures
        spec_tick_step(TickState::Reading, TickEvent::ReadFailed) == (TickState::Finished, TickAction::Stop),
        capacity > 0 && population < capacity as i32 ==> spec_tick_step(
            TickState::Reading,
            TickEvent::Counts { capacity, population, named },
        ) == (
            TickState::Growing { capacity, population, named },
            TickAction::ComputeGrowth { capacity, population },
        ),
        !(capacity > 0 && population < capacity as i32) ==> spec_tick_step(
            TickState::Reading,
            TickEvent::Counts { capacity, population, named },
        ) == emerges_at(capacity, population, named),
        ({
            let grown = if raw <= capacity as i32 { raw } else { capacity as i32 };
            grown > population ==> spec_tick_step(
                TickState::Growing { capacity, population, named },
                TickEvent::Grown(raw),
            ) == (
                TickState::Storing { capacity, population: grown, named },
                TickAction::StorePopulation(grown),
            )
        }),
        ({
            let grown = if raw <= capacity as i32 { raw } else { capacity as i32 };
            grown <= population ==> spec_tick_step(
                TickState::Growing { capacity, population, named },
                TickEvent::Grown(raw),
            ) == emerges_at(capacity, population, named)
        }),
        spec_tick_step(TickState::Storing { capacity, population, named }, TickEvent::Stored(ok)) == if ok {
            (
                TickState::Reporting { capacity, population, named },
                TickAction::ReportPopulation { population, named, capacity, with_newcomer: false },
            )
        } else {
            (TickState::Finished, TickAction::Stop)
        },
        spec_tick_step(TickState::Reporting { capacity, population, named }, TickEvent::Done) == emerges_at(
            capacity,
            population,
            named,
        ),
{
}

/// Law: across three steps, a tick that grows the population reports the
/// capacity it read and the population it stored, which is above the one
/// read and at most the capacity.
pub proof fn law_tick_reports_read_capacity(capacity: u32, population: i32, named: usize, raw: i32)
    requires
        capacity > 0,
        population < capacity as i32,
    ensures
        ({
            let s1 = spec_tick_step(TickState::Reading, TickEvent::Counts { capacity, population, named }).0;
            let r2 = spec_tick_step(s1, TickEvent::Grown(raw));
            r2.1 matches TickAction::StorePopulation(p) ==> {
                &&& population < p <= capacity as i32
                &&& spec_tick_step(r2.0, TickEvent::Stored(true)).1 == (TickAction::ReportPopulation {
                    population: p,
                    named,
                    capacity,
                    with_newcomer: false,
                })
            }
        }),
{
}

/// Law: an emerging named unit needs a free slot (none stops the tick) and a
/// successful spawn (a failed one stops it); the report then counts one more
/// named unit and carries the newcomer, and the spawn is shown last.
pub proof fn law_tick_emergence(capacity: u32, population: i32, named: usize, found: bool, ok: bool)
    ensures
        spec_tick_step(TickState::FindingSlot { capacity, population, named }, TickEvent::SlotFound(found))
            == if found {
            (TickState::Spawning { capacity, population, named }, TickAction::SpawnUnit)
        } else {
            (TickState::Finished, TickAction::Stop)
        },
        spec_tick_step(TickState::Spawning { capacity, population, named }, TickEvent::Spawned(ok)) == if ok {
            (
                TickState::Announcing { capacity, population, named: (named + 1) as usize },
                TickAction::ReportPopulation {
                    population,
                    named: (named + 1) as usize,
                    capacity,
                    with_newcomer: true,
                },
            )
        } else {
            (TickState::Finished, TickAction::Stop)
        },
        spec_tick_step(TickState::Announcing { capacity, population, named }, TickEvent::Done) == (
            TickState::Finished,
            TickAction::AnnounceSpawn,
        ),
{
}

} // verus!
