use std::collections::HashMap;
use landz_server::dev::dev_config::DevConfig;
use landz_server::grid::GridCell;
use landz_server::handlers::checks::{
    busy_units_check, check_building_materials, check_recipe_ingredients, lord_for_action,
    materials_check_required, missing_materials, production_line_check, MaterialNeed,
};
use landz_server::handlers::hamlet::{
    founding_cell_free, founding_lord, founding_no_organization, founding_timing, hamlet_name,
    lord_avatar, lord_creation_allowed, territory_claim, TerritoryClaim,
};
use landz_server::handlers::organization::{
    building_in_territory, building_to_destroy, deletion_failure, destroying_organization,
    organization_to_liquidate,
};
use landz_server::handlers::scheduling::{
    completion_time, craft_duration, harvest_duration, move_duration, schedule_failure,
    seconds_duration, unknown_recipe, ScheduleRequest,
};
use landz_server::population::rules::{
    clamp_population, emergence_due, first_row_with_free_slot, pick_free_slot, random_free_slot, growth_applies,
    housing_capacity, slot_type_name, SlotPosition, SlotRow, SlotType,
};

fn normal() -> DevConfig {
    DevConfig { dev_mode: false, speed_factor: 1, bypass_resources: false }
}

fn need(id: i32, q: i32, name: &str) -> MaterialNeed {
    MaterialNeed { item_id: id, quantity: q, name: name.to_string() }
}

#[test]
fn lord_lookup_outcomes() {
    assert_eq!(lord_for_action(Ok(Some(3))), Ok(3));
    assert_eq!(lord_for_action(Ok(None)), Err("Aucun seigneur trouvé".to_string()));
    assert_eq!(lord_for_action(Err("db".to_string())), Err("Erreur serveur".to_string()));
}

#[test]
fn production_lines() {
    assert_eq!(production_line_check(None, 10), Ok(()));
    assert_eq!(production_line_check(Some(2), 1), Ok(()));
    assert_eq!(
        production_line_check(Some(2), 2),
        Err("Toutes les lignes de production sont occupées (2/2)".to_string())
    );
}

#[test]
fn busy_units() {
    assert_eq!(busy_units_check(&vec![]), Ok(()));
    assert_eq!(
        busy_units_check(&vec![4, 9]),
        Err("Certaines unités sont déjà occupées : [4, 9]".to_string())
    );
}

#[test]
fn missing_materials_listed_in_order() {
    let mut inv = HashMap::new();
    inv.insert(1, 5);
    inv.insert(2, 1);
    let needs = vec![need(1, 3, "Bois"), need(2, 2, "Pierre"), need(3, 1, "Fer")];
    assert_eq!(
        missing_materials(&needs, 2, &inv),
        vec![
            "Bois (besoin: 6, possédé: 5)".to_string(),
            "Pierre (besoin: 4, possédé: 1)".to_string(),
            "Fer (besoin: 2, possédé: 0)".to_string(),
        ]
    );
    assert_eq!(
        check_building_materials(&needs, Ok(inv.clone())),
        Err("Matériaux de construction manquants : Pierre (besoin: 2, possédé: 1), Fer (besoin: 1, possédé: 0)".to_string())
    );
    assert_eq!(
        check_recipe_ingredients(&vec![need(1, 2, "Bois")], 2, Ok(inv.clone())),
        Ok(())
    );
    assert_eq!(
        check_recipe_ingredients(&vec![need(1, 2, "Bois")], 3, Ok(inv)),
        Err("Ressources manquantes : Bois (besoin: 6, possédé: 5)".to_string())
    );
    assert_eq!(
        check_building_materials(&needs, Err("x".to_string())),
        Err("Erreur de chargement de l'inventaire".to_string())
    );
}

#[test]
fn materials_checked_only_when_needed() {
    assert!(materials_check_required(&normal(), 2));
    assert!(!materials_check_required(&normal(), 0));
    let d = DevConfig { dev_mode: true, speed_factor: 10, bypass_resources: true };
    assert!(!materials_check_required(&d, 2));
}

#[test]
fn durations_and_completion() {
    let a = GridCell { q: 0, r: 0 };
    let b = GridCell { q: 3, r: 0 };
    assert_eq!(move_duration(&normal(), &a, &b), Ok(6000));
    assert_eq!(
        move_duration(&normal(), &a, &a),
        Err("L'unité est déjà sur cette cellule".to_string())
    );
    let fast = DevConfig { dev_mode: true, speed_factor: 10, bypass_resources: false };
    assert_eq!(move_duration(&fast, &a, &b), Ok(600));
    assert_eq!(seconds_duration(&normal(), 30), 30000);
    assert_eq!(craft_duration(&normal(), 20, 3), 60000);
    assert_eq!(craft_duration(&normal(), 20, 0), 0);
    assert_eq!(completion_time(1000, 2999), 1002);
    assert_eq!(harvest_duration(&normal(), Some(12), "Oak"), Ok(12000));
    assert_eq!(
        harvest_duration(&normal(), None, "Oak"),
        Err("Aucun rendement de récolte défini pour ce type de ressource (Oak)".to_string())
    );
    assert_eq!(unknown_recipe("bread"), "Recette inconnue : bread");
    assert_eq!(
        schedule_failure(ScheduleRequest::MoveUnit, "db"),
        "Échec de la planification: db"
    );
    assert_eq!(
        schedule_failure(ScheduleRequest::CraftResource, "db"),
        "Erreur lors de la planification : db"
    );
}

#[test]
fn hamlet_founding_steps() {
    assert_eq!(founding_lord(Ok(Some(8))), Ok(8));
    assert_eq!(founding_lord(Ok(None)), Err("Vous n'avez pas de Lord/Lady".to_string()));
    assert_eq!(founding_lord(Err("x".to_string())), Err("Erreur: x".to_string()));
    assert_eq!(founding_cell_free(Ok(None)), Ok(()));
    assert_eq!(
        founding_cell_free(Ok(Some(2))),
        Err("Cette cellule appartient déjà à un territoire".to_string())
    );
    assert_eq!(founding_cell_free(Err("y".to_string())), Err("Erreur DB: y".to_string()));
    assert_eq!(
        founding_no_organization(Ok(Some(12))),
        Err("Vous avez déjà une organisation (ID: 12)".to_string())
    );
    let t = founding_timing(&normal(), 1000);
    assert_eq!((t.duration_ms, t.completion_time, t.action_id), (30000, 1030, 1000));
    let fast = DevConfig { dev_mode: true, speed_factor: 10, bypass_resources: false };
    let t = founding_timing(&fast, 1000);
    assert_eq!((t.duration_ms, t.completion_time), (3000, 1003));
    assert_eq!(hamlet_name(Some("Durand".to_string())), "Hameau de Durand");
    assert_eq!(hamlet_name(None), "Hameau de Inconnu");
    assert_eq!(territory_claim(Some(5), true, true), TerritoryClaim::Zone(5));
    assert_eq!(territory_claim(Some(5), false, true), TerritoryClaim::Neighbours);
    assert_eq!(territory_claim(None, true, true), TerritoryClaim::Neighbours);
    assert_eq!(lord_creation_allowed(Ok(Some(1))), Err("Vous avez déjà un Lord/Lady".to_string()));
    assert_eq!(lord_avatar("female", 17), "lord_female_17");
}

#[test]
fn destroy_and_liquidate_checks() {
    assert_eq!(building_to_destroy(Ok(Some(4))), Ok(4));
    assert_eq!(
        building_to_destroy(Ok(None)),
        Err("Aucun bâtiment sur cette cellule".to_string())
    );
    assert_eq!(destroying_organization(Ok(None)), Err("Pas d'organisation".to_string()));
    assert_eq!(
        organization_to_liquidate(Err("x".to_string())),
        Err("Pas d'organisation à dissoudre".to_string())
    );
    assert_eq!(building_in_territory(Some(3), 3), Ok(()));
    assert_eq!(
        building_in_territory(Some(4), 3),
        Err("Bâtiment hors de votre territoire".to_string())
    );
    assert_eq!(deletion_failure("x"), "Échec: x");
}

#[test]
fn population_rules() {
    assert_eq!(housing_capacity(&vec![Some(5), None, Some(10)]), 15);
    assert!(growth_applies(10, 9));
    assert!(!growth_applies(10, 10));
    assert!(!growth_applies(0, 0));
    assert!(emergence_due(25, 0));
    assert!(!emergence_due(49, 1));
    assert!(emergence_due(50, 1));
    assert_eq!(clamp_population(30, 20), 20);
    assert_eq!(clamp_population(10, 20), 10);
}

#[test]
fn free_slots() {
    let rows = vec![
        SlotRow { total_slots: None, unit_count: 0 },
        SlotRow { total_slots: Some(2), unit_count: 2 },
        SlotRow { total_slots: Some(3), unit_count: 2 },
    ];
    assert_eq!(first_row_with_free_slot(&rows), Some(2));
    assert_eq!(first_row_with_free_slot(&rows[..2].to_vec()), None);
    let occ = vec![
        SlotPosition { slot_type: SlotType::Interior, index: 0 },
        SlotPosition { slot_type: SlotType::Interior, index: 1 },
    ];
    assert_eq!(
        landz_server::population::rules::free_slots(2, 2, &occ),
        vec![
            SlotPosition { slot_type: SlotType::Exterior, index: 0 },
            SlotPosition { slot_type: SlotType::Exterior, index: 1 },
        ]
    );
    assert_eq!(
        random_free_slot(3, 0, &occ),
        Some(SlotPosition { slot_type: SlotType::Interior, index: 2 })
    );
    assert_eq!(random_free_slot(2, 0, &occ), None);
    for _ in 0..20 {
        let s = random_free_slot(2, 2, &occ).unwrap();
        assert_eq!(s.slot_type, SlotType::Exterior);
        assert!(s.index < 2);
    }
    let free = landz_server::population::rules::free_slots(2, 2, &occ);
    assert_eq!(pick_free_slot(&free, 1), Some(free[1]));
    assert_eq!(pick_free_slot(&free, 2), Some(free[0]));
    assert_eq!(pick_free_slot(&Vec::new(), 5), None);
    assert_eq!(slot_type_name(SlotType::Exterior), "exterior");
}
