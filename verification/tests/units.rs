use landz_server::units::name_generator::{load_names, names_from_text, NameGenerator};
use landz_server::units::portrait_generator::{avatar_correction, PortraitGenerator, ProfessionEnum};
use landz_server::units::unit_calculator::EquipmentBonuses;
use landz_server::units::UnitCalculator;

const MALE_VARIANT_IDS: &[&str] = &["02m", "09m", "13m", "20m", "22m", "24m"];
const FEMALE_VARIANT_IDS: &[&str] = &["01f", "03f", "08f", "10f", "17f", "24f"];

#[test]
fn test_max_hp_calculation() {
    let hp = UnitCalculator::calculate_max_hp(10);
    assert_eq!(hp, 150); // 100 + (10 * 5)

    let hp = UnitCalculator::calculate_max_hp(20);
    assert_eq!(hp, 200); // 100 + (20 * 5)
}

#[test]
fn max_hp_of_zero_constitution_is_base() {
    assert_eq!(UnitCalculator::calculate_max_hp(0), 100);
}

#[test]
fn hit_points_are_capped_by_new_maximum() {
    assert_eq!(UnitCalculator::recalculate_hit_points(10, 400), (150, 150));
    assert_eq!(UnitCalculator::recalculate_hit_points(10, 90), (150, 90));
}

#[test]
fn defenses_read_equipment_bonuses() {
    let mut b = EquipmentBonuses::new();
    b.insert("defense_physical".to_string(), 7);
    b.insert("defense_melee".to_string(), 3);
    b.insert("defense_ranged".to_string(), 4);
    assert_eq!(UnitCalculator::calculate_physical_defense(&b), 7);
    assert_eq!(UnitCalculator::calculate_melee_defense(&b, 2), 5);
    assert_eq!(UnitCalculator::calculate_ranged_defense(&b, 2), 8);
}

#[test]
fn defenses_without_equipment() {
    let b = EquipmentBonuses::new();
    assert_eq!(UnitCalculator::calculate_physical_defense(&b), 0);
    assert_eq!(UnitCalculator::calculate_melee_defense(&b, 3), 3);
    assert_eq!(UnitCalculator::calculate_ranged_defense(&b, 3), 6);
}

#[test]
fn inventory_capacity_adds_bonuses() {
    assert_eq!(UnitCalculator::calculate_total_inventory_capacity(50, 10, 5), 65);
}

#[test]
fn equipment_stat_bonus_sums_modifiers() {
    assert_eq!(UnitCalculator::calculate_equipment_stat_bonus(&vec![2, -1, 4]), 5);
    assert_eq!(UnitCalculator::calculate_equipment_stat_bonus(&vec![]), 0);
}

#[test]
fn all_equipment_bonuses_sum_per_stat() {
    let items = vec![
        vec![("strength".to_string(), 2), ("defense_physical".to_string(), 3)],
        vec![("strength".to_string(), 1)],
    ];
    let b = UnitCalculator::calculate_all_equipment_bonuses(&items);
    assert_eq!(b.get("strength"), Some(3));
    assert_eq!(b.get("defense_physical"), Some(3));
    assert_eq!(b.get("agility"), None);
}

#[test]
fn item_not_equipable_is_refused() {
    let inv = vec![(5, 1)];
    assert_eq!(
        UnitCalculator::can_equip_item(5, false, true, "head", &inv),
        Err("Item is not equipable".to_string())
    );
    assert_eq!(
        UnitCalculator::can_equip_item(5, true, false, "head", &inv),
        Err("Item cannot be equipped in head slot".to_string())
    );
    assert_eq!(UnitCalculator::can_equip_item(5, true, true, "head", &inv), Ok(()));
}

#[test]
fn test_name_generation() {
    let males = "Jean;France\nPierre;France\n";
    let females = "Marie;France\nAnne;France\n";
    let lasts = "Martin;France\nBernard;France\n";
    if let Ok(generator) = NameGenerator::load_from_files(males, females, lasts) {
        let (first, last) = generator.generate_random_name(Some(true));
        assert!(!first.is_empty());
        assert!(!last.is_empty());

        let (first, last) = generator.generate_random_name(Some(false));
        assert!(!first.is_empty());
        assert!(!last.is_empty());

        let (first, last) = generator.generate_random_name(None);
        assert!(!first.is_empty());
        assert!(!last.is_empty());
    } else {
        panic!("names should load");
    }
}

#[test]
fn names_are_trimmed_fields_before_semicolon() {
    let names = names_from_text("  Jean ;France\r\n\n;Nowhere\nPaul\n   \nLéa;X;Y");
    assert_eq!(names, vec!["Jean".to_string(), "Paul".to_string(), "Léa".to_string()]);
}

#[test]
fn names_file_without_names_is_an_error() {
    assert_eq!(
        load_names("\n ;x\n", "\"f.txt\""),
        Err("No names found in file: \"f.txt\"".to_string())
    );
    let r = NameGenerator::load_from_files("a", "", "c");
    assert_eq!(
        r.err(),
        Some("No names found in file: \"assets/data/females.txt\"".to_string())
    );
}

#[test]
fn generated_names_come_from_the_lists() {
    let g = NameGenerator::load_from_files("Jean;F", "Marie;F", "Martin;F").unwrap();
    assert_eq!(g.generate_male_first_name(), "Jean");
    assert_eq!(g.generate_female_first_name(), "Marie");
    assert_eq!(g.generate_last_name(), "Martin");
    let (f, l) = g.generate_random_name(None);
    assert!(f == "Jean" || f == "Marie");
    assert_eq!(l, "Martin");
}

#[test]
fn test_generate_male_variant() {
    let variant = PortraitGenerator::generate_random_variant_id("male");
    assert!(MALE_VARIANT_IDS.contains(&variant.as_str()));
}

#[test]
fn test_generate_female_variant() {
    let variant = PortraitGenerator::generate_random_variant_id("female");
    assert!(FEMALE_VARIANT_IDS.contains(&variant.as_str()));
}

#[test]
fn unknown_gender_gets_male_variant() {
    let variant = PortraitGenerator::generate_random_variant_id("other");
    assert!(MALE_VARIANT_IDS.contains(&variant.as_str()));
}

#[test]
fn test_generate_portrait_url() {
    let url = PortraitGenerator::generate_portrait_url("male", "02m", ProfessionEnum::Farmer);
    assert_eq!(url, "sprites/portraits/male/02m/02m_Farmer.jpg");
}

#[test]
fn portrait_file_names_of_professions() {
    let url = PortraitGenerator::generate_portrait_url("female", "01f", ProfessionEnum::Lumberjack);
    assert_eq!(url, "sprites/portraits/female/01f/01f_Woodcutter.jpg");
    let url = PortraitGenerator::generate_portrait_url("male", "09m", ProfessionEnum::Unknown);
    assert_eq!(url, "sprites/portraits/male/09m/09m_Farmer.jpg");
}

#[test]
fn test_generate_variant_and_url() {
    let (variant_id, url) =
        PortraitGenerator::generate_variant_and_url("female", ProfessionEnum::Blacksmith);
    assert!(FEMALE_VARIANT_IDS.contains(&variant_id.as_str()));
    assert!(url.contains(&variant_id));
    assert!(url.contains("Blacksmith"));
}

#[test]
fn avatar_is_corrected_only_when_wrong() {
    let right = Some("sprites/portraits/male/02m/02m_Knight.jpg".to_string());
    assert_eq!(avatar_correction("male", "02m", ProfessionEnum::Warrior, &right), None);
    let wrong = Some("old.jpg".to_string());
    assert_eq!(
        avatar_correction("male", "02m", ProfessionEnum::Warrior, &wrong),
        Some("sprites/portraits/male/02m/02m_Knight.jpg".to_string())
    );
    assert_eq!(
        avatar_correction("male", "02m", ProfessionEnum::Warrior, &None),
        Some("sprites/portraits/male/02m/02m_Knight.jpg".to_string())
    );
}
