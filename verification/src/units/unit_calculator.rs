//! Server-side unit statistics. These calculations are authoritative: the
//! client cannot change them.
use vstd::prelude::*;
use vstd::string::*;
use vstd::hash_map::StringHashMap;

verus! {

/// Base hit points of every unit.
pub const BASE_HP: i32 = 100;

/// Hit points per point of constitution.
pub const HP_PER_CONSTITUTION: i32 = 5;

/// Rust's integer division `a / b` for `b > 0`: rounds toward zero.
pub open spec fn trunc_div(a: int, b: int) -> int {
    if a >= 0 {
        a / b
    } else {
        -((-a) / b)
    }
}

/// Stat bonuses granted by equipment, by stat name (e.g. `defense_melee`,
/// `mining_bonus`).
pub struct EquipmentBonuses {
    bonuses: StringHashMap<i32>,
}

impl View for EquipmentBonuses {
    type V = Map<Seq<char>, i32>;

    closed spec fn view(&self) -> Map<Seq<char>, i32> {
        self.bonuses@
    }
}

impl EquipmentBonuses {
    /// No bonus at all.
    pub fn new() -> (b: EquipmentBonuses)
        ensures
            b@ == Map::<Seq<char>, i32>::empty(),
    {
        EquipmentBonuses { bonuses: StringHashMap::new() }
    }

    /// Sets the bonus of a stat.
    pub fn insert(&mut self, name: String, value: i32)
        ensures
            final(self)@ == old(self)@.insert(name@, value),
    {
        self.bonuses.insert(name, value);
    }

    /// The bonus of a stat, if any.
    pub fn get(&self, name: &str) -> (r: Option<i32>)
        ensures
            r == (if self@.contains_key(name@) {
                Some(self@[name@])
            } else {
                None
            }),
    {
        match self.bonuses.get(name) {
            Some(v) => Some(*v),
            None => None,
        }
    }

    /// The bonus of a stat, 0 where there is none.
    pub fn get_or_zero(&self, name: &str) -> (r: i32)
        ensures
            r == bonus_or_zero(self@, name@),
    {
        match self.bonuses.get(name) {
            Some(v) => *v,
            None => 0,
        }
    }
}

/// The bonus of a stat, 0 where the map has none.
pub open spec fn bonus_or_zero(m: Map<Seq<char>, i32>, name: Seq<char>) -> int {
    if m.contains_key(name) {
        m[name] as int
    } else {
        0
    }
}

/// The (stat name, modifier) pairs of the equipped items, item after item.
pub open spec fn flat_modifiers(items: Seq<Vec<(String, i32)>>) -> Seq<(Seq<char>, i32)>
    decreases items.len(),
{
    if items.len() == 0 {
        Seq::empty()
    } else {
        flat_modifiers(items.drop_last()) + items.last()@.map_values(
            |p: (String, i32)| (p.0@, p.1),
        )
    }
}

/// Sum of the modifiers of stat `k` among the pairs.
pub open spec fn stat_total(pairs: Seq<(Seq<char>, i32)>, k: Seq<char>) -> int
    decreases pairs.len(),
{
    if pairs.len() == 0 {
        0
    } else {
        stat_total(pairs.drop_last(), k) + if pairs.last().0 == k {
            pairs.last().1 as int
        } else {
            0
        }
    }
}

/// Whether some pair names stat `k`.
pub open spec fn names_stat(pairs: Seq<(Seq<char>, i32)>, k: Seq<char>) -> bool {
    exists|i: int| 0 <= i < pairs.len() && pairs[i].0 == k
}

/// Every running total of every stat along the pairs fits in an `i32`.
pub open spec fn running_totals_fit(pairs: Seq<(Seq<char>, i32)>) -> bool {
    forall|n: int, k: Seq<char>|
        0 <= n <= pairs.len() ==> i32::MIN <= #[trigger] stat_total(pairs.take(n), k) <= i32::MAX
}

/// Server-side calculator for unit statistics.
pub struct UnitCalculator;

impl UnitCalculator {
    /// Maximum hit points from constitution: `100 + constitution * 5`.
    pub fn calculate_max_hp(constitution: i32) -> (hp: i32)
        requires
            i32::MIN <= constitution * HP_PER_CONSTITUTION <= i32::MAX,
            i32::MIN <= BASE_HP + constitution * HP_PER_CONSTITUTION <= i32::MAX,
        ensures
            hp == BASE_HP + constitution * HP_PER_CONSTITUTION,
    {
        BASE_HP + constitution * HP_PER_CONSTITUTION
    }

    /// Total physical defense: the equipment's `defense_physical` bonus (0 without one).
    pub fn calculate_physical_defense(equipment_bonuses: &EquipmentBonuses) -> (d: i32)
        ensures
            d == bonus_or_zero(equipment_bonuses@, "defense_physical"@),
    {
        equipment_bonuses.get_or_zero("defense_physical")
    }

    /// Defense against melee attacks: the equipment's `defense_melee` bonus
    /// plus the agility bonus.
    pub fn calculate_melee_defense(equipment_bonuses: &EquipmentBonuses, agility_bonus: i32) -> (d:
        i32)
        requires
            i32::MIN <= bonus_or_zero(equipment_bonuses@, "defense_melee"@) + agility_bonus
                <= i32::MAX,
        ensures
            d == bonus_or_zero(equipment_bonuses@, "defense_melee"@) + agility_bonus,
    {
        let base_defense = equipment_bonuses.get_or_zero("defense_melee");
        base_defense + agility_bonus
    }

    /// Defense against ranged attacks: the equipment's `defense_ranged` bonus
    /// plus twice the agility bonus (agility counts double against projectiles).
    pub fn calculate_ranged_defense(equipment_bonuses: &EquipmentBonuses, agility_bonus: i32) -> (d:
        i32)
        requires
            i32::MIN <= agility_bonus * 2 <= i32::MAX,
            i32::MIN <= bonus_or_zero(equipment_bonuses@, "defense_ranged"@) + agility_bonus * 2
                <= i32::MAX,
        ensures
            d == bonus_or_zero(equipment_bonuses@, "defense_ranged"@) + agility_bonus * 2,
    {
        let base_defense = equipment_bonuses.get_or_zero("defense_ranged");
        base_defense + (agility_bonus * 2)
    }

    /// Total inventory capacity: the unit's base capacity plus its profession's
    /// and its equipment's bonuses.
    pub fn calculate_total_inventory_capacity(
        base_inventory_capacity_kg: i32,
        profession_bonus: i32,
        equipment_bonus: i32,
    ) -> (c: i32)
        requires
            i32::MIN <= base_inventory_capacity_kg + profession_bonus <= i32::MAX,
            i32::MIN <= base_inventory_capacity_kg + profession_bonus + equipment_bonus <= i32::MAX,
        ensures
            c == base_inventory_capacity_kg + profession_bonus + equipment_bonus,
    {
        base_inventory_capacity_kg + profession_bonus + equipment_bonus
    }

    /// Stat bonus of the equipment for one stat: the sum of the modifiers that
    /// the equipped items (those found in the item catalogue) give it.
    pub fn calculate_equipment_stat_bonus(item_modifiers: &Vec<i32>) -> (b: i32)
        requires
            forall|n: int|
                0 <= n <= item_modifiers@.len() ==> i32::MIN <= #[trigger] int_sum(
                    item_modifiers@.take(n),
                ) <= i32::MAX,
        ensures
            b == int_sum(item_modifiers@),
    {
        let mut total: i32 = 0;
        let mut i: usize = 0;
        while i < item_modifiers.len()
            invariant
                i <= item_modifiers@.len(),
                total == int_sum(item_modifiers@.take(i as int)),
                forall|n: int|
                    0 <= n <= item_modifiers@.len() ==> i32::MIN <= #[trigger] int_sum(
                        item_modifiers@.take(n),
                    ) <= i32::MAX,
            decreases item_modifiers@.len() - i,
        {
            assert(item_modifiers@.take(i + 1).drop_last() == item_modifiers@.take(i as int));
            assert(i32::MIN <= int_sum(item_modifiers@.take(i + 1)) <= i32::MAX);
            total = total + item_modifiers[i];
            i = i + 1;
        }
        assert(item_modifiers@.take(item_modifiers@.len() as int) == item_modifiers@);
        total
    }

    /// All equipment bonuses by stat name: for each stat that some equipped
    /// item modifies, the sum of its modifiers over the items.
    pub fn calculate_all_equipment_bonuses(item_modifiers: &Vec<Vec<(String, i32)>>) -> (b:
        EquipmentBonuses)
        requires
            running_totals_fit(flat_modifiers(item_modifiers@)),
        ensures
            forall|k: Seq<char>|
                #[trigger] b@.contains_key(k) <==> names_stat(flat_modifiers(item_modifiers@), k),
            forall|k: Seq<char>|
                #[trigger] b@.contains_key(k) ==> b@[k] == stat_total(
                    flat_modifiers(item_modifiers@),
                    k,
                ),
    {
        let mut bonuses = EquipmentBonuses::new();
        let ghost all = flat_modifiers(item_modifiers@);
        let mut i: usize = 0;
        while i < item_modifiers.len()
            invariant
                i <= item_modifiers@.len(),
                all == flat_modifiers(item_modifiers@),
                running_totals_fit(all),
                all.take(flat_modifiers(item_modifiers@.take(i as int)).len() as int)
                    == flat_modifiers(item_modifiers@.take(i as int)),
                flat_modifiers(item_modifiers@.take(i as int)).len() <= all.len(),
                forall|k: Seq<char>|
                    #[trigger] bonuses@.contains_key(k) <==> names_stat(
                        flat_modifiers(item_modifiers@.take(i as int)),
                        k,
                    ),
                forall|k: Seq<char>|
                    #[trigger] bonuses@.contains_key(k) ==> bonuses@[k] == stat_total(
                        flat_modifiers(item_modifiers@.take(i as int)),
                        k,
                    ),
            decreases item_modifiers@.len() - i,
        {
            let item = &item_modifiers[i];
            let ghost prefix = flat_modifiers(item_modifiers@.take(i as int));
            let ghost item_pairs = item@.map_values(|p: (String, i32)| (p.0@, p.1));
            proof {
                assert(item_modifiers@.take(i + 1).drop_last() == item_modifiers@.take(i as int));
                assert(flat_modifiers(item_modifiers@.take(i + 1)) == prefix + item_pairs);
                lemma_flat_prefix(item_modifiers@, i as int + 1);
            }
            let mut j: usize = 0;
            while j < item.len()
                invariant
                    j <= item@.len(),
                    all == flat_modifiers(item_modifiers@),
                    running_totals_fit(all),
                    item_pairs == item@.map_values(|p: (String, i32)| (p.0@, p.1)),
                    all.take((prefix + item_pairs).len() as int) == prefix + item_pairs,
                    (prefix + item_pairs).len() <= all.len(),
                    forall|k: Seq<char>|
                        #[trigger] bonuses@.contains_key(k) <==> names_stat(
                            prefix + item_pairs.take(j as int),
                            k,
                        ),
                    forall|k: Seq<char>|
                        #[trigger] bonuses@.contains_key(k) ==> bonuses@[k] == stat_total(
                            prefix + item_pairs.take(j as int),
                            k,
                        ),
                decreases item@.len() - j,
            {
                let name = &item[j].0;
                let value = item[j].1;
                let ghost done = prefix + item_pairs.take(j as int);
                let ghost next = prefix + item_pairs.take(j + 1);
                proof {
                    assert(next == done.push(item_pairs[j as int]));
                    assert(next.drop_last() == done);
                    assert(item_pairs[j as int] == (name@, value));
                    assert(next == all.take(next.len() as int)) by {
                        assert(all.take(next.len() as int) == all.take(
                            (prefix + item_pairs).len() as int,
                        ).take(next.len() as int));
                        assert((prefix + item_pairs).take(next.len() as int) == next);
                    }
                    assert(i32::MIN <= stat_total(all.take(next.len() as int), name@) <= i32::MAX);
                    if !bonuses@.contains_key(name@) {
                        lemma_total_zero_when_absent(done, name@);
                    }
                }
                let current = bonuses.get_or_zero(name.as_str());
                bonuses.insert(name.clone(), current + value);
                proof {
                    assert forall|k: Seq<char>| #[trigger] bonuses@.contains_key(k) <==> names_stat(
                        next,
                        k,
                    ) by {
                        if names_stat(next, k) && k != name@ {
                            let t = choose|t: int| 0 <= t < next.len() && next[t].0 == k;
                            assert(t < done.len());
                            assert(done[t].0 == k);
                        }
                        if k == name@ {
                            assert(next[next.len() - 1].0 == k);
                        }
                        if names_stat(done, k) {
                            let t = choose|t: int| 0 <= t < done.len() && done[t].0 == k;
                            assert(next[t].0 == k);
                        }
                    }
                }
                j = j + 1;
            }
            proof {
                assert(item_pairs.take(item@.len() as int) == item_pairs);
            }
            i = i + 1;
        }
        proof {
            assert(item_modifiers@.take(item_modifiers@.len() as int) == item_modifiers@);
        }
        bonuses
    }

    /// Effective level of a skill: the learned level (0 when not learned) plus
    /// the primary stat's bonus plus the equipment's `<skill>_bonus`, then
    /// raised by the profession's percentage bonus (rounded toward zero).
    pub fn calculate_effective_skill(
        skill_level: Option<i32>,
        stat_bonus: i32,
        profession_bonus_percent: i32,
        skill_name: &str,
        equipment_bonuses: &EquipmentBonuses,
    ) -> (s: i32)
        requires
            ({
                let base = (match skill_level {
                    Some(l) => l as int,
                    None => 0,
                }) + stat_bonus + bonus_or_zero(equipment_bonuses@, skill_name@ + "_bonus"@);
                &&& i32::MIN <= base - bonus_or_zero(equipment_bonuses@, skill_name@ + "_bonus"@)
                    <= i32::MAX
                &&& i32::MIN <= base <= i32::MAX
                &&& i32::MIN <= base * profession_bonus_percent <= i32::MAX
                &&& i32::MIN <= base + trunc_div(base * profession_bonus_percent, 100) <= i32::MAX
            }),
        ensures
            ({
                let base = (match skill_level {
                    Some(l) => l as int,
                    None => 0,
                }) + stat_bonus + bonus_or_zero(equipment_bonuses@, skill_name@ + "_bonus"@);
                s == base + trunc_div(base * profession_bonus_percent, 100)
            }),
    {
        let level = match skill_level {
            Some(l) => l,
            None => 0,
        };
        let mut bonus_name = String::from_str(skill_name);
        bonus_name.append("_bonus");
        let equipment_skill_bonus = equipment_bonuses.get_or_zero(bonus_name.as_str());
        let base = level + stat_bonus + equipment_skill_bonus;
        base + (base * profession_bonus_percent / 100)
    }

    /// Hit points after a change of constitution: maximum recomputed, current
    /// hit points lowered to it if above.
    pub fn recalculate_hit_points(constitution: i32, current_hp: i32) -> (r: (i32, i32))
        requires
            i32::MIN <= constitution * HP_PER_CONSTITUTION <= i32::MAX,
            i32::MIN <= BASE_HP + constitution * HP_PER_CONSTITUTION <= i32::MAX,
        ensures
            r.0 == BASE_HP + constitution * HP_PER_CONSTITUTION,
            r.1 == if current_hp > r.0 {
                r.0
            } else {
                current_hp
            },
    {
        let max_hp = Self::calculate_max_hp(constitution);
        let hp = if current_hp > max_hp {
            max_hp
        } else {
            current_hp
        };
        (max_hp, hp)
    }

    /// Whether a unit may equip an item in a slot: the item must be
    /// equipable, fit the slot, and be held (quantity above 0) in the unit's
    /// inventory of `(item_id, quantity)` rows.
    pub fn can_equip_item(
        item_id: i32,
        is_equipable: bool,
        fits_slot: bool,
        slot_name: &str,
        inventory: &Vec<(i32, i32)>,
    ) -> (r: Result<(), String>)
        ensures
            !is_equipable ==> r is Err && r->Err_0@ == "Item is not equipable"@,
            is_equipable && !fits_slot ==> r is Err && r->Err_0@ == "Item cannot be equipped in "@
                + slot_name@ + " slot"@,
            is_equipable && fits_slot ==> (r is Ok <==> exists|i: int|
                0 <= i < inventory@.len() && #[trigger] inventory@[i].0 == item_id && inventory@[i].1
                    > 0),
            is_equipable && fits_slot && r is Err ==> r->Err_0@ == "Item not in inventory"@,
    {
        if !is_equipable {
            return Err(String::from_str("Item is not equipable"));
        }
        if !fits_slot {
            let mut msg = String::from_str("Item cannot be equipped in ");
            msg.append(slot_name);
            msg.append(" slot");
            return Err(msg);
        }
        let mut has_item = false;
        let mut i: usize = 0;
        while i < inventory.len()
            invariant
                i <= inventory@.len(),
                has_item <==> exists|k: int|
                    0 <= k < i && #[trigger] inventory@[k].0 == item_id && inventory@[k].1 > 0,
            decreases inventory@.len() - i,
        {
            if inventory[i].0 == item_id && inventory[i].1 > 0 {
                has_item = true;
            }
            i = i + 1;
        }
        if !has_item {
            return Err(String::from_str("Item not in inventory"));
        }
        Ok(())
    }
}

/// Sum of a sequence of modifiers.
pub open spec fn int_sum(s: Seq<i32>) -> int
    decreases s.len(),
{
    if s.len() == 0 {
        0
    } else {
        int_sum(s.drop_last()) + s.last() as int
    }
}

proof fn lemma_total_zero_when_absent(pairs: Seq<(Seq<char>, i32)>, k: Seq<char>)
    requires
        !names_stat(pairs, k),
    ensures
        stat_total(pairs, k) == 0,
    decreases pairs.len(),
{
    if pairs.len() > 0 {
        assert(!names_stat(pairs.drop_last(), k)) by {
            if names_stat(pairs.drop_last(), k) {
                let t = choose|t: int| 0 <= t < pairs.drop_last().len() && pairs.drop_last()[t].0 == k;
                assert(pairs[t].0 == k);
            }
        }
        lemma_total_zero_when_absent(pairs.drop_last(), k);
        assert(pairs.last().0 != k) by {
            assert(pairs[pairs.len() - 1].0 != k);
        }
    }
}

/// The modifiers of the first `n` items are a prefix of all the modifiers.
proof fn lemma_flat_prefix(items: Seq<Vec<(String, i32)>>, n: int)
    requires
        0 <= n <= items.len(),
    ensures
        flat_modifiers(items).take(flat_modifiers(items.take(n)).len() as int) == flat_modifiers(
            items.take(n),
        ),
        flat_modifiers(items.take(n)).len() <= flat_modifiers(items).len(),
    decreases items.len() - n,
{
    if n == items.len() {
        assert(items.take(n) == items);
    } else {
        lemma_flat_prefix(items, n + 1);
        assert(items.take(n + 1).drop_last() == items.take(n));
        let a = flat_modifiers(items.take(n));
        let b = flat_modifiers(items.take(n + 1));
        assert(b.take(a.len() as int) == a);
        assert(flat_modifiers(items).take(a.len() as int) == flat_modifiers(items).take(
            b.len() as int,
        ).take(a.len() as int));
    }
}

} // verus!
