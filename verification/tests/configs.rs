use colony_core::resources::Resources;
use colony_core::ship_config::{ShipConfig, ShipConfigError, ShipDefinition};
use colony_core::structure_config::{
    Prerequisity, StructureConfig, StructureConfigError, StructureDefinition,
};

fn res(minerals: u32, gas: u32, energy: u32) -> Resources {
    Resources::new(minerals, gas, energy)
}

fn structure(id: &str, name: &str, max_level: u16) -> StructureDefinition {
    StructureDefinition {
        id: id.to_string(),
        name: name.to_string(),
        description: "A structure".to_string(),
        max_level,
        costs: vec![],
        upgrade_time: vec![],
        energy_consumption: vec![],
        hitpoints: vec![],
        production: vec![],
        storage_capacity: vec![],
        prerequisites: vec![],
        shield_regen_turns: None,
    }
}

fn metal_mine(max_level: u16) -> StructureDefinition {
    let mut d = structure("metal_mine", "Metal Mine", max_level);
    let n = max_level as usize;
    d.costs = vec![res(100, 50, 0), res(200, 100, 0), res(400, 200, 0)][..n].to_vec();
    d.upgrade_time = vec![100, 200, 400][..n].to_vec();
    d.energy_consumption = vec![10, 20, 40][..n].to_vec();
    d.hitpoints = vec![1000, 2000, 4000][..n].to_vec();
    d.production = vec![res(10, 0, 0), res(20, 0, 0), res(40, 0, 0)][..n].to_vec();
    d.storage_capacity = vec![res(0, 0, 0); n];
    d
}

fn expect_mismatch(
    result: Result<StructureConfig, StructureConfigError>,
    name: &str,
    field: &str,
    expected_len: usize,
    actual_len: usize,
) {
    assert!(result.is_err());
    let err = result.unwrap_err();
    match err {
        StructureConfigError::SizeMismatchError { structure_name, field_name, expected, actual } => {
            assert_eq!(structure_name, name);
            assert_eq!(field_name, field);
            assert_eq!(expected, expected_len);
            assert_eq!(actual, actual_len);
        }
    }
}

#[test]
fn structure_config_test_load_valid_config() {
    let result = StructureConfig::from_definitions(vec![metal_mine(3)]);
    assert!(result.is_ok());
}

#[test]
fn test_costs_array_too_large() {
    let mut d = metal_mine(2);
    d.costs = vec![res(100, 50, 0), res(200, 100, 0), res(400, 200, 0)];
    expect_mismatch(StructureConfig::from_definitions(vec![d]), "Metal Mine", "costs", 2, 3);
}

#[test]
fn test_production_array_too_large() {
    let mut d = structure("gas_extractor", "Gas Extractor", 1);
    d.costs = vec![res(100, 50, 0)];
    d.upgrade_time = vec![100];
    d.energy_consumption = vec![5];
    d.hitpoints = vec![800];
    d.production = vec![res(0, 10, 0), res(0, 20, 0)];
    d.storage_capacity = vec![res(0, 0, 0)];
    expect_mismatch(
        StructureConfig::from_definitions(vec![d]),
        "Gas Extractor",
        "production",
        1,
        2,
    );
}

#[test]
fn test_prerequisite_required_levels_too_large() {
    let mut d = structure("fusion_reactor", "Fusion Reactor", 2);
    d.costs = vec![res(1000, 500, 100), res(2000, 1000, 200)];
    d.upgrade_time = vec![500, 1000];
    d.energy_consumption = vec![0, 0];
    d.hitpoints = vec![5000, 10000];
    d.production = vec![res(0, 0, 0), res(0, 0, 0)];
    d.storage_capacity = vec![res(0, 0, 0), res(0, 0, 0)];
    d.prerequisites = vec![Prerequisity {
        structure_id: "energy_plant".to_string(),
        required_levels: vec![5, 10, 15],
    }];
    expect_mismatch(
        StructureConfig::from_definitions(vec![d]),
        "Fusion Reactor",
        "prerequisity.required_levels",
        2,
        3,
    );
}

#[test]
fn test_empty_arrays_are_valid() {
    let result = StructureConfig::from_definitions(vec![structure("storage", "Storage", 5)]);
    assert!(result.is_ok());
    assert!(!result.unwrap().is_complete());
}

#[test]
fn test_upgrade_time_array_too_large() {
    let mut d = metal_mine(2);
    d.upgrade_time = vec![100, 200, 400];
    expect_mismatch(
        StructureConfig::from_definitions(vec![d]),
        "Metal Mine",
        "upgrade_time",
        2,
        3,
    );
}

#[test]
fn test_energy_consumption_array_too_large() {
    let mut d = metal_mine(2);
    d.energy_consumption = vec![10, 20, 40];
    expect_mismatch(
        StructureConfig::from_definitions(vec![d]),
        "Metal Mine",
        "energy_consumption",
        2,
        3,
    );
}

#[test]
fn structure_config_reports_the_first_defect_and_keeps_the_last_definition() {
    let mut hp = metal_mine(2);
    hp.hitpoints = vec![1, 2, 3];
    hp.storage_capacity = vec![res(0, 0, 0); 3];
    expect_mismatch(
        StructureConfig::from_definitions(vec![metal_mine(3), hp]),
        "Metal Mine",
        "storage_capacity",
        2,
        3,
    );
    let mut renamed = metal_mine(1);
    renamed.name = "Deep Mine".to_string();
    let config = StructureConfig::from_definitions(vec![metal_mine(3), renamed]).unwrap();
    assert!(config.is_complete());
    let found = config.get(&"metal_mine".to_string()).unwrap();
    assert_eq!(found.name, "Deep Mine");
    assert_eq!(found.max_level, 1);
    assert!(config.get(&"gold_mine".to_string()).is_none());
    let error = StructureConfigError::SizeMismatchError {
        structure_name: "Mine".to_string(),
        field_name: "costs".to_string(),
        expected: 2,
        actual: 3,
    };
    assert_eq!(error.message(), "Structure 'Mine': costs has 3 items but max_level is 2");
    let p = Prerequisity { structure_id: "x".to_string(), required_levels: vec![1, 2] };
    assert!(p.validate("Mine", 2).is_ok());
    assert!(p.validate("Mine", 1).is_err());
}

fn ship(id: &str, name: &str, counters: &[&str]) -> ShipDefinition {
    ShipDefinition {
        id: id.to_string(),
        name: name.to_string(),
        description: "A ship".to_string(),
        attack: 10,
        shield: 5,
        bombardment: 0,
        cost: res(100, 50, 0),
        build_time: 2,
        counters: counters.iter().map(|c| c.to_string()).collect(),
        required_shipyard_level: 1,
    }
}

#[test]
fn ship_config_test_load_valid_config() {
    let result = ShipConfig::from_definitions(vec![
        ship("interceptor", "Interceptor", &["interceptor", "ravager"]),
        ship("ravager", "Ravager", &[]),
    ]);
    assert!(result.is_ok());

    let config = result.unwrap();
    assert!(config.get(&"interceptor".to_string()).is_some());
    assert!(config.get(&"ravager".to_string()).is_some());
}

#[test]
fn test_invalid_counter_reference() {
    let result =
        ShipConfig::from_definitions(vec![ship("interceptor", "Interceptor", &["nonexistent_ship"])]);
    assert!(result.is_err());

    match result.unwrap_err() {
        ShipConfigError::InvalidCounterReference { ship_name, counter_id } => {
            assert_eq!(ship_name, "Interceptor");
            assert_eq!(counter_id, "nonexistent_ship");
        }
    }
}

#[test]
fn ship_config_names_the_first_missing_counter() {
    let result = ShipConfig::from_definitions(vec![
        ship("a", "A", &["b"]),
        ship("b", "B", &["a", "x", "y"]),
        ship("c", "C", &["z"]),
    ]);
    let error = result.unwrap_err();
    assert_eq!(error.message(), "Ship 'B' has invalid counter reference: 'x'");
    let config = ShipConfig::from_definitions(vec![
        ship("a", "A", &[]),
        ship("b", "B", &["a"]),
        ship("a", "A again", &["b"]),
    ])
    .unwrap();
    assert_eq!(config.ships.len(), 2);
    let a = config.get(&"a".to_string()).unwrap();
    assert_eq!(a.name, "A again");
    assert_eq!(config.ships[0].id, "a");
    assert!(config.get(&"c".to_string()).is_none());
}
