use std::sync::Arc;

use colony_core::building::Building;
use colony_core::building_config::{
    BuildingConfig, BuildingConfigError, BuildingConfigJson, BuildingDefinition,
    BuildingRegistry, Prerequisite, ResourceConfig,
};
use colony_core::resources::Resources;

fn costs(minerals: &[u32]) -> Vec<Resources> {
    minerals.iter().map(|m| Resources::new(*m, 0, 0)).collect()
}

fn test_entry() -> BuildingConfig {
    BuildingConfig {
        id: "test_building".to_string(),
        name: "Test Building".to_string(),
        description: "A test building".to_string(),
        max_level: 3,
        costs: costs(&[100, 200, 300]),
        build_time: vec![2, 3, 4],
        energy_consumption: vec![10, 20, 30],
        hitpoints: vec![1000, 1500, 2000],
        production: ResourceConfig {
            minerals: vec![10, 20, 30],
            gas: vec![5, 10, 15],
            energy: vec![10, 20, 30],
        },
        storage_capacity: ResourceConfig {
            minerals: vec![100, 200, 300],
            gas: vec![50, 100, 150],
            energy: vec![0, 0, 0],
        },
        prerequisites: vec![],
    }
}

fn get_test_definition() -> Arc<BuildingDefinition> {
    let registry =
        BuildingRegistry::validate_and_build(BuildingConfigJson { buildings: vec![test_entry()] })
            .unwrap();
    registry.get("test_building").unwrap()
}

#[test]
fn test_new_unbuilt() {
    let def = get_test_definition();
    let building = Building::new_unbuilt(def);

    assert_eq!(building.level(), 0);
    assert_eq!(building.current_hp(), 0);
    assert!(!building.is_built());
    assert!(!building.is_complete());
}

#[test]
fn test_new_at_level() {
    let def = get_test_definition();
    let building = Building::new_at_level(def, 2).unwrap();

    assert_eq!(building.level(), 2);
    assert_eq!(building.current_hp(), 1500);
    assert!(building.is_built());
    assert!(building.is_complete());
}

#[test]
fn test_start_build() {
    let def = get_test_definition();
    let mut building = Building::new_unbuilt(def);

    let cost = building.start_build().expect("Should be able to start building");
    assert_eq!(cost.minerals, 100);
    assert_eq!(building.level(), 1);
    assert_eq!(building.turns_until_complete(), 2);
    assert!(!building.is_complete());
    assert!(building.is_building());
}

#[test]
fn test_construction_tick() {
    let def = get_test_definition();
    let mut building = Building::new_unbuilt(def);

    building.start_build();
    assert_eq!(building.turns_until_complete(), 2);

    let completed = building.tick();
    assert!(!completed);
    assert_eq!(building.turns_until_complete(), 1);

    let completed = building.tick();
    assert!(completed);
    assert_eq!(building.turns_until_complete(), 0);
    assert_eq!(building.current_hp(), 1000);
    assert!(building.is_complete());
}

#[test]
fn test_upgrade() {
    let def = get_test_definition();
    let mut building = Building::new_at_level(def, 1).unwrap();

    let cost = building.start_upgrade().expect("Should be able to upgrade");
    assert_eq!(cost.minerals, 200);
    assert_eq!(building.level(), 2);
    assert!(!building.is_complete());

    for _ in 0..3 {
        building.tick();
    }

    assert!(building.is_complete());
    assert_eq!(building.current_hp(), 1500);
}

#[test]
fn test_cannot_upgrade_at_max_level() {
    let def = get_test_definition();
    let mut building = Building::new_at_level(def, 3).unwrap();

    let result = building.start_upgrade();
    assert!(result.is_none());
}

#[test]
fn test_cancel_build() {
    let def = get_test_definition();
    let mut building = Building::new_unbuilt(def);

    building.start_build();
    assert!(building.is_building());

    let cancelled = building.cancel_build();
    assert!(cancelled);
    assert_eq!(building.level(), 0);
    assert!(!building.is_built());
}

#[test]
fn test_cancel_upgrade() {
    let def = get_test_definition();
    let mut building = Building::new_at_level(def, 1).unwrap();

    building.start_upgrade();
    assert_eq!(building.level(), 2);

    let cancelled = building.cancel_build();
    assert!(cancelled);
    assert_eq!(building.level(), 1);
    assert_eq!(building.current_hp(), 1000);
    assert!(building.is_complete());
}

#[test]
fn test_take_damage() {
    let def = get_test_definition();
    let mut building = Building::new_at_level(def, 1).unwrap();

    assert_eq!(building.current_hp(), 1000);

    let destroyed = building.take_damage(300);
    assert!(!destroyed);
    assert_eq!(building.current_hp(), 700);

    let destroyed = building.take_damage(800);
    assert!(destroyed);
    assert_eq!(building.current_hp(), 0);
    assert!(building.is_destroyed());
}

#[test]
fn test_repair() {
    let def = get_test_definition();
    let mut building = Building::new_at_level(def, 1).unwrap();

    building.take_damage(500);
    assert_eq!(building.current_hp(), 500);

    building.repair();
    assert_eq!(building.current_hp(), 1000);
}

#[test]
fn test_production_only_when_complete() {
    let def = get_test_definition();
    let mut building = Building::new_unbuilt(def);

    assert!(building.production().is_none());

    building.start_build();
    assert!(building.production().is_none());

    building.tick();
    building.tick();

    let production = building.production().expect("Should produce when complete");
    assert_eq!(production.minerals, 10);
}

#[test]
fn test_energy_consumption_only_when_complete() {
    let def = get_test_definition();
    let mut building = Building::new_unbuilt(def);

    assert!(building.energy_consumption().is_none());

    building.start_build();
    building.tick();
    building.tick();

    let energy = building.energy_consumption().expect("Should consume energy when complete");
    assert_eq!(energy, 10);
}

fn command_center(max_level: u8, cost_count: usize) -> BuildingConfig {
    BuildingConfig {
        id: "command_center".to_string(),
        name: "Command Center".to_string(),
        description: "Main building".to_string(),
        max_level,
        costs: costs(&[0, 100][..cost_count]),
        build_time: vec![0, 2],
        energy_consumption: vec![0, 0],
        hitpoints: vec![1000, 1500],
        production: ResourceConfig {
            minerals: vec![10, 20],
            gas: vec![5, 10],
            energy: vec![10, 20],
        },
        storage_capacity: ResourceConfig {
            minerals: vec![500, 1000],
            gas: vec![250, 500],
            energy: vec![0, 0],
        },
        prerequisites: vec![],
    }
}

#[test]
fn building_config_test_load_valid_config() {
    let registry = BuildingRegistry::validate_and_build(BuildingConfigJson {
        buildings: vec![command_center(2, 2)],
    })
    .expect("Should parse valid config");
    assert_eq!(registry.len(), 1);

    let building = registry.get("command_center").expect("Should find command center");
    assert_eq!(building.name, "Command Center");
    assert_eq!(building.max_level, 2);
}

#[test]
fn test_invalid_array_length() {
    let mut entry = command_center(2, 1);
    entry.id = "test_building".to_string();
    let result = BuildingRegistry::validate_and_build(BuildingConfigJson { buildings: vec![entry] });
    assert!(result.is_err());
    assert!(matches!(result.unwrap_err(), BuildingConfigError::InvalidArrayLength { .. }));
}

#[test]
fn test_building_definition_helper_methods() {
    let mut entry = command_center(2, 2);
    entry.id = "test".to_string();
    entry.costs = costs(&[100, 200]);
    entry.build_time = vec![1, 2];
    entry.energy_consumption = vec![10, 20];
    let registry =
        BuildingRegistry::validate_and_build(BuildingConfigJson { buildings: vec![entry] }).unwrap();
    let building = registry.get("test").unwrap();

    // Test cost_for_level
    let cost = building.cost_for_level(1).expect("Level 1 should exist");
    assert_eq!(cost.minerals, 100);

    // Test build_time_for_level
    let time = building.build_time_for_level(2).expect("Level 2 should exist");
    assert_eq!(time, 2);

    // Test energy_consumption_for_level
    let energy = building.energy_consumption_for_level(1).expect("Level 1 should exist");
    assert_eq!(energy, 10);

    // Test invalid level
    assert!(building.cost_for_level(0).is_none());
    assert!(building.cost_for_level(3).is_none());
}

fn named(id: &str, prerequisites: Vec<Prerequisite>) -> BuildingConfig {
    let mut entry = command_center(2, 2);
    entry.id = id.to_string();
    entry.prerequisites = prerequisites;
    entry
}

fn needs(id: &str, levels: Vec<u8>) -> Prerequisite {
    Prerequisite { building_id: id.to_string(), required_levels: levels }
}

#[test]
fn registry_reports_each_defect() {
    let twice = BuildingRegistry::validate_and_build(BuildingConfigJson {
        buildings: vec![named("a", vec![]), named("a", vec![])],
    });
    match twice.unwrap_err() {
        BuildingConfigError::DuplicateBuildingId { building_id } => assert_eq!(building_id, "a"),
        other => panic!("unexpected {:?}", other),
    }

    let mut short = named("a", vec![]);
    short.production.gas = vec![5];
    match BuildingRegistry::validate_and_build(BuildingConfigJson { buildings: vec![short] })
        .unwrap_err()
    {
        BuildingConfigError::InvalidArrayLength { building_id, field, expected, actual } => {
            assert_eq!(building_id, "a");
            assert_eq!(field, "production.gas");
            assert_eq!(expected, 2);
            assert_eq!(actual, 1);
        }
        other => panic!("unexpected {:?}", other),
    }

    let missing = BuildingRegistry::validate_and_build(BuildingConfigJson {
        buildings: vec![named("a", vec![needs("ghost", vec![1, 1])])],
    });
    match missing.unwrap_err() {
        BuildingConfigError::InvalidPrerequisite { building_id, prereq_id } => {
            assert_eq!(building_id, "a");
            assert_eq!(prereq_id, "ghost");
        }
        other => panic!("unexpected {:?}", other),
    }

    let levels = BuildingRegistry::validate_and_build(BuildingConfigJson {
        buildings: vec![named("a", vec![]), named("b", vec![needs("a", vec![1])])],
    });
    assert!(matches!(
        levels.unwrap_err(),
        BuildingConfigError::InvalidPrerequisiteLevels { .. }
    ));

    let high = BuildingRegistry::validate_and_build(BuildingConfigJson {
        buildings: vec![named("a", vec![]), named("b", vec![needs("a", vec![1, 3])])],
    });
    match high.unwrap_err() {
        BuildingConfigError::PrerequisiteLevelTooHigh { required_level, max_level, .. } => {
            assert_eq!(required_level, 3);
            assert_eq!(max_level, 2);
        }
        other => panic!("unexpected {:?}", other),
    }
}

#[test]
fn registry_finds_cycles_and_accepts_chains() {
    let chain = BuildingRegistry::validate_and_build(BuildingConfigJson {
        buildings: vec![
            named("a", vec![needs("b", vec![1, 1])]),
            named("b", vec![needs("c", vec![1, 2])]),
            named("c", vec![]),
            named("d", vec![needs("c", vec![1, 1]), needs("a", vec![2, 2])]),
        ],
    });
    let registry = chain.expect("a chain is no cycle");
    assert_eq!(registry.len(), 4);
    assert!(!registry.is_empty());
    assert_eq!(registry.all_buildings().len(), 4);
    assert!(registry.get("e").is_none());

    let cycle = BuildingRegistry::validate_and_build(BuildingConfigJson {
        buildings: vec![
            named("a", vec![needs("b", vec![1, 1])]),
            named("b", vec![needs("c", vec![1, 1])]),
            named("c", vec![needs("a", vec![1, 1])]),
        ],
    });
    match cycle.unwrap_err() {
        BuildingConfigError::CircularDependency { cycle } => {
            assert_eq!(cycle, "a -> b -> c -> a");
        }
        other => panic!("unexpected {:?}", other),
    }

    let own = BuildingRegistry::validate_and_build(BuildingConfigJson {
        buildings: vec![named("a", vec![needs("a", vec![1, 1])])],
    });
    let error = own.unwrap_err();
    assert_eq!(
        error.message(),
        "Circular dependency detected in building prerequisites: a -> a"
    );
}

#[test]
fn building_level_stays_within_its_kind() {
    let def = get_test_definition();
    let mut building = Building::new_unbuilt(def);
    assert!(!building.cancel_build());
    assert!(building.start_upgrade().is_none());
    assert_eq!(building.max_level(), 3);
    assert_eq!(building.id(), "test_building");
    assert_eq!(building.name(), "Test Building");
    assert_eq!(building.description(), "A test building");
    assert_eq!(building.upgrade_cost(), Some(Resources::new(100, 0, 0)));
    assert_eq!(building.max_hp(), None);
    let mut last = 0;
    for _ in 0..3 {
        if building.level() == 0 {
            building.start_build();
        } else {
            building.start_upgrade();
        }
        assert!(building.level() > last);
        last = building.level();
        while building.is_building() {
            building.tick();
            assert_eq!(building.level(), last);
        }
        assert!(building.level() <= building.max_level());
    }
    assert_eq!(building.level(), 3);
    assert!(building.start_upgrade().is_none());
    assert!(building.start_build().is_none());
    assert_eq!(building.upgrade_cost(), None);
    assert_eq!(building.storage_capacity(), Some(Resources::new(300, 150, 0)));
    assert_eq!(building.definition().max_level, 3);
    assert!(Building::new_at_level(get_test_definition(), 4).is_none());
    assert!(Building::new_at_level(get_test_definition(), 0).is_none());
}

#[test]
fn destroyed_building_contributes_nothing_until_repaired() {
    let def = get_test_definition();
    let mut building = Building::new_at_level(def, 2).unwrap();
    assert_eq!(building.production(), Some(Resources::new(20, 10, 20)));
    assert_eq!(building.energy_consumption(), Some(20));
    assert!(building.take_damage(1500));
    assert!(building.is_destroyed());
    assert_eq!(building.production(), None);
    assert_eq!(building.storage_capacity(), None);
    assert_eq!(building.energy_consumption(), None);
    assert_eq!(building.level(), 2);
    building.repair();
    assert!(!building.is_destroyed());
    assert_eq!(building.current_hp(), 1500);
    assert_eq!(building.storage_capacity(), Some(Resources::new(200, 100, 0)));
}
