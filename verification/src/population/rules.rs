use vstd::prelude::*;
use crate::random::random_below;

verus! {

/// Total housing of the built buildings in a territory: the capacities of
/// those whose type is known (`None`: unknown type, which houses nobody).
pub open spec fn capacity_sum(caps: Seq<Option<u32>>) -> int
    decreases caps.len(),
{
    if caps.len() == 0 {
        0
    } else {
        capacity_sum(caps.drop_last()) + match caps.last() {
            Some(c) => c as int,
            None => 0,
        }
    }
}

proof fn lemma_capacity_sum_prefix(caps: Seq<Option<u32>>, i: int)
    requires
        0 <= i <= caps.len(),
    ensures
        0 <= capacity_sum(caps.subrange(0, i)) <= capacity_sum(caps),
    decreases caps.len() - i,
{
    if i < caps.len() {
        lemma_capacity_sum_prefix(caps, i + 1);
        assert(caps.subrange(0, i + 1).drop_last() =~= caps.subrange(0, i));
        lemma_capacity_sum_nonneg(caps.subrange(0, i));
    } else {
        assert(caps.subrange(0, i) =~= caps);
        lemma_capacity_sum_nonneg(caps);
    }
}

proof fn lemma_capacity_sum_nonneg(caps: Seq<Option<u32>>)
    ensures
        capacity_sum(caps) >= 0,
    decreases caps.len(),
{
    if caps.len() > 0 {
        lemma_capacity_sum_nonneg(caps.drop_last());
    }
}

/// The housing capacity of a territory, from the capacity of each built
/// building's type.
pub fn housing_capacity(caps: &Vec<Option<u32>>) -> (total: u32)
    requires
        capacity_sum(caps@) <= u32::MAX,
    ensures
        total == capacity_sum(caps@),
{
    let mut total: u32 = 0;
    let mut i: usize = 0;
    while i < caps.len()
        invariant
            i <= caps.len(),
            capacity_sum(caps@) <= u32::MAX,
            total == capacity_sum(caps@.subrange(0, i as int)),
        decreases caps.len() - i,
    {
        proof {
            lemma_capacity_sum_prefix(caps@, i + 1);
            assert(caps@.subrange(0, i + 1).drop_last() =~= caps@.subrange(0, i as int));
        }
        match caps[i] {
            Some(c) => {
                total = total + c;
            },
            None => {},
        }
        i = i + 1;
    }
    assert(caps@.subrange(0, caps.len() as int) =~= caps@);
    total
}

/// Whether the population grows this tick: there is housing, and the
/// population is below the capacity (taken as an `i32`, as the server does).
pub open spec fn spec_growth_applies(capacity: u32, population: i32) -> bool {
    capacity > 0 && population < capacity as i32
}

/// Whether the population of an organization grows this tick.
pub fn growth_applies(capacity: u32, population: i32) -> (r: bool)
    ensures
        r == spec_growth_applies(capacity, population),
{
    let cap: i32 = capacity as i32;
    capacity > 0 && population < cap
}

/// The population at which the next named unit emerges: 25 for each named
/// unit the organization will then have.
pub open spec fn spec_emergence_threshold(named_count: usize) -> int {
    25 * ((named_count as i32) + 1)
}

/// Whether a named unit emerges: the population reached the threshold set by
/// the named units already there.
pub fn emergence_due(population: i32, named_count: usize) -> (r: bool)
    requires
        i32::MIN <= spec_emergence_threshold(named_count) <= i32::MAX,
    ensures
        r == (population >= spec_emergence_threshold(named_count)),
{
    let n: i32 = named_count as i32;
    assert(i32::MIN <= 25 * (n + 1) <= i32::MAX);
    let threshold: i32 = 25 * (n + 1);
    population >= threshold
}

/// A built building of the territory, with the slots its type offers
/// (`None`: unknown type) and the named units already on its cell.
#[derive(Clone, Copy, PartialEq, Eq, Structural, Debug)]
pub struct SlotRow {
    pub total_slots: Option<i64>,
    pub unit_count: i64,
}

/// Whether a building still has room for a unit.
pub open spec fn has_room(row: SlotRow) -> bool {
    row.total_slots matches Some(t) && row.unit_count < t
}

/// The first building, in the order given (fewest units first), that has
/// room for a newcomer; `None` when none has.
pub fn first_row_with_free_slot(rows: &Vec<SlotRow>) -> (r: Option<usize>)
    ensures
        r matches Some(i) ==> i < rows@.len() && has_room(rows@[i as int]) && forall|j: int|
            0 <= j < i ==> !has_room(#[trigger] rows@[j]),
        r is None ==> forall|j: int| 0 <= j < rows@.len() ==> !has_room(#[trigger] rows@[j]),
{
    let mut i: usize = 0;
    while i < rows.len()
        invariant
            i <= rows.len(),
            forall|j: int| 0 <= j < i ==> !has_room(#[trigger] rows@[j]),
        decreases rows.len() - i,
    {
        let row = rows[i];
        match row.total_slots {
            Some(t) => {
                if row.unit_count < t {
                    return Some(i);
                }
            },
            None => {},
        }
        i = i + 1;
    }
    None
}

/// Inside or outside a building.
#[derive(Clone, Copy, PartialEq, Eq, Structural, Debug)]
pub enum SlotType {
    Interior,
    Exterior,
}

/// A place for a unit on a building's cell.
#[derive(Clone, Copy, PartialEq, Eq, Structural, Debug)]
pub struct SlotPosition {
    pub slot_type: SlotType,
    pub index: u32,
}

/// The slots of a building, interior ones first, each in index order.
pub open spec fn slot_candidates(interior: u32, exterior: u32) -> Seq<SlotPosition> {
    Seq::new(interior as nat, |i: int| SlotPosition { slot_type: SlotType::Interior, index: i as u32 })
        + Seq::new(
        exterior as nat,
        |i: int| SlotPosition { slot_type: SlotType::Exterior, index: i as u32 },
    )
}

/// The slots of a building that no unit occupies, in candidate order.
pub open spec fn spec_free_slots(interior: u32, exterior: u32, occupied: Seq<SlotPosition>) -> Seq<
    SlotPosition,
> {
    slot_candidates(interior, exterior).filter(|s: SlotPosition| !occupied.contains(s))
}

/// The slots of a building that no unit occupies, interior ones first, each
/// in index order. A slot is in the result exactly when it is one of the
/// building's slots and not occupied.
pub fn free_slots(interior: u32, exterior: u32, occupied: &Vec<SlotPosition>) -> (r: Vec<
    SlotPosition,
>)
    ensures
        r@ == spec_free_slots(interior, exterior, occupied@),
        forall|s: SlotPosition|
            r@.contains(s) <==> slot_candidates(interior, exterior).contains(s)
                && !occupied@.contains(s),
{
    let ghost cands = slot_candidates(interior, exterior);
    let ghost pred = |s: SlotPosition| !occupied@.contains(s);
    let mut free: Vec<SlotPosition> = Vec::new();
    let mut k: u64 = 0;
    let total: u64 = interior as u64 + exterior as u64;
    proof {
        reveal_with_fuel(Seq::filter, 1);
        assert(cands.take(0) =~= Seq::<SlotPosition>::empty());
    }
    while k < total
        invariant
            total == interior + exterior,
            cands == slot_candidates(interior, exterior),
            pred == (|s: SlotPosition| !occupied@.contains(s)),
            cands.len() == total,
            k <= total,
            free@ == cands.take(k as int).filter(pred),
        decreases total - k,
    {
        let slot = if k < interior as u64 {
            SlotPosition { slot_type: SlotType::Interior, index: k as u32 }
        } else {
            SlotPosition { slot_type: SlotType::Exterior, index: (k - interior as u64) as u32 }
        };
        assert(cands[k as int] == slot);
        let mut found = false;
        let mut m: usize = 0;
        while m < occupied.len()
            invariant
                m <= occupied.len(),
                found <==> exists|x: int| 0 <= x < m && occupied@[x] == slot,
            decreases occupied.len() - m,
        {
            if occupied[m] == slot {
                found = true;
            }
            m = m + 1;
        }
        proof {
            if found {
                assert(occupied@[choose|x: int| 0 <= x < occupied.len() && occupied@[x] == slot]
                    == slot);
                assert(occupied@.contains(slot));
            } else {
                assert(!occupied@.contains(slot));
            }
            reveal_with_fuel(Seq::filter, 1);
            assert(cands.take(k as int + 1).drop_last() =~= cands.take(k as int));
            assert(cands.take(k as int + 1).last() == slot);
        }
        if !found {
            free.push(slot);
        }
        k = k + 1;
    }
    proof {
        assert(cands.take(total as int) =~= cands);
        assert forall|s: SlotPosition|
            free@.contains(s) <==> cands.contains(s) && !occupied@.contains(s) by {
            broadcast use vstd::seq_lib::group_filter_ensures;

            if free@.contains(s) {
                cands.lemma_filter_contains_rev(pred, s);
            }
            if cands.contains(s) && !occupied@.contains(s) {
                let i = choose|i: int| 0 <= i < cands.len() && cands[i] == s;
                assert(pred(cands[i]));
            }
        }
    }
    free
}

/// The free slot that a draw picks: the one at `draw` (wrapped around the
/// list) among `free`; `None` when no slot is free.
pub fn pick_free_slot(free: &Vec<SlotPosition>, draw: usize) -> (r: Option<SlotPosition>)
    ensures
        r == (if free@.len() == 0 {
            None
        } else {
            Some(free@[(draw as int) % (free@.len() as int)])
        }),
{
    if free.len() == 0 {
        None
    } else {
        Some(free[draw % free.len()])
    }
}

/// A free slot of the building drawn at random among its free slots; `None`
/// when every slot is occupied. Which free slot comes is left to chance.
pub fn random_free_slot(interior: u32, exterior: u32, occupied: &Vec<SlotPosition>) -> (r: Option<
    SlotPosition,
>)
    ensures
        r is None <==> forall|j: int|
            0 <= j < slot_candidates(interior, exterior).len() ==> occupied@.contains(
                #[trigger] slot_candidates(interior, exterior)[j],
            ),
        r matches Some(s) ==> slot_candidates(interior, exterior).contains(s)
            && !occupied@.contains(s),
{
    let free = free_slots(interior, exterior, occupied);
    let ghost cands = slot_candidates(interior, exterior);
    if free.len() == 0 {
        proof {
            assert forall|j: int| 0 <= j < cands.len() implies occupied@.contains(
                #[trigger] cands[j],
            ) by {
                if !occupied@.contains(cands[j]) {
                    assert(cands.contains(cands[j]));
                    assert(free@.contains(cands[j]));
                }
            }
        }
        None
    } else {
        let draw = random_below(free.len());
        let r = pick_free_slot(&free, draw);
        proof {
            let s = free@[(draw as int) % (free@.len() as int)];
            assert(free@.contains(s));
            assert(cands.contains(s));
            let i = choose|i: int| 0 <= i < cands.len() && cands[i] == s;
            assert(!occupied@.contains(cands[i]));
        }
        r
    }
}

/// The name under which a slot's type is stored.
pub open spec fn slot_type_text(t: SlotType) -> Seq<char> {
    match t {
        SlotType::Interior => "interior"@,
        SlotType::Exterior => "exterior"@,
    }
}

/// The name under which a slot's type is stored: `"interior"` or `"exterior"`.
pub fn slot_type_name(t: SlotType) -> (s: &'static str)
    ensures
        s@ == slot_type_text(t),
{
    match t {
        SlotType::Interior => "interior",
        SlotType::Exterior => "exterior",
    }
}

/// The population after housing was lost: at most the new capacity (taken
/// as an `i32`, as the server does).
pub fn clamp_population(current: i32, capacity: u32) -> (r: i32)
    ensures
        r == if current <= capacity as i32 { current } else { capacity as i32 },
{
    let cap: i32 = capacity as i32;
    if current <= cap {
        current
    } else {
        cap
    }
}

} // verus!
