use colony_core::map::MapSize;
use colony_core::map_generator::{GraphGenerator, GraphGeneratorError};
use colony_core::map::StarMap;
use colony_core::names::{
    generate_random_names_from_list, NameGenerator, NameGeneratorError, PlanetNameParts,
    PlayerNameConfigError,
};

fn test_names() -> Vec<String> {
    ["Alice", "Bob", "Charlie", "Diana", "Eve"].iter().map(|s| s.to_string()).collect()
}

fn parts() -> PlanetNameParts {
    PlanetNameParts {
        prefixes: ["Crimson", "Void", "Azure", "Silent", "Iron", "Pale"]
            .iter()
            .map(|s| s.to_string())
            .collect(),
        suffixes: ["Theta", "Kepler", "Prime", "Reach", "Haven", "Drift"]
            .iter()
            .map(|s| s.to_string())
            .collect(),
    }
}

#[test]
fn player_names_test_generate_unique_names() {
    let names = generate_random_names_from_list(&test_names(), 3).unwrap();

    assert_eq!(names.len(), 3);

    // Check all names are unique
    for i in 0..names.len() {
        for j in (i + 1)..names.len() {
            assert_ne!(names[i], names[j], "Names should be unique");
        }
    }
    for name in &names {
        assert!(test_names().contains(name));
    }
}

#[test]
fn player_names_test_names_are_not_empty() {
    let names = generate_random_names_from_list(&test_names(), 1).unwrap();
    assert!(!names[0].is_empty());
}

#[test]
fn test_insufficient_names() {
    let result = generate_random_names_from_list(&test_names(), 10);
    assert!(result.is_err());

    match result.unwrap_err() {
        PlayerNameConfigError::InsufficientNames { needed, available } => {
            assert_eq!(needed, 10);
            assert_eq!(available, 5);
        }
    }
    let error = PlayerNameConfigError::InsufficientNames { needed: 10, available: 5 };
    assert_eq!(
        error.message(),
        "Not enough names in configuration. Need 10, but only 5 available"
    );
}

#[test]
fn name_generator_test_generate_unique_names() {
    let mut generator = NameGenerator::with_parts(parts());

    // Generate 10 names and verify they're all unique
    let mut generated_names = std::collections::HashSet::new();
    for _ in 0..10 {
        let name = generator.generate().unwrap();

        // Name should not be empty
        assert!(!name.is_empty());

        // Name should be unique
        assert!(generated_names.insert(name.clone()), "Generated duplicate name: {}", name);
    }
}

#[test]
fn test_generated_name_format() {
    let mut generator = NameGenerator::with_parts(parts());
    let name = generator.generate().unwrap();

    // Name should have 2-3 parts (prefix, suffix, optional roman numeral)
    let parts: Vec<&str> = name.split(' ').collect();
    assert!(
        parts.len() >= 2 && parts.len() <= 3,
        "Name '{}' has {} parts, expected 2-3",
        name,
        parts.len()
    );

    let prefix = parts[0];
    let suffix = parts[1];

    // Verify prefix and suffix are from the parts given
    assert!(generator.name_parts.prefixes.contains(&prefix.to_string()));
    assert!(generator.name_parts.suffixes.contains(&suffix.to_string()));

    // If there's a third part, it should be a Roman numeral
    if parts.len() == 3 {
        let roman = parts[2];
        assert!(
            ["I", "II", "III", "IV", "V", "VI", "VII", "VIII", "IX", "X"].contains(&roman),
            "Invalid Roman numeral: {}",
            roman
        );
    }
}

#[test]
fn test_collision_handling_with_roman_numerals() {
    let mut generator = NameGenerator::with_parts(parts());

    // Force a collision by manually inserting a base name
    let test_base =
        format!("{} {}", &generator.name_parts.prefixes[0], &generator.name_parts.suffixes[0]);
    generator.used_names.push(test_base.clone());

    // Generate a name - should get Roman numeral variant
    let name = generator.generate().unwrap();

    // If it's the same base combo, should have Roman numeral
    if name.starts_with(&test_base) {
        assert!(name.ends_with(" I"), "Expected Roman numeral I, got: {}", name);
    }
}

#[test]
fn name_variants_come_in_order_and_run_out() {
    let mut generator = NameGenerator::with_parts(parts());
    assert_eq!(generator.generate_from(0, 0), Ok("Crimson Theta".to_string()));
    let numerals = ["I", "II", "III", "IV", "V", "VI", "VII", "VIII", "IX", "X"];
    for (i, numeral) in numerals.iter().enumerate() {
        assert_eq!(NameGenerator::to_roman_numeral(i as u8 + 1), *numeral);
        assert_eq!(generator.generate_from(0, 0), Ok(format!("Crimson Theta {}", numeral)));
    }
    assert_eq!(generator.generate_from(0, 0), Err(NameGeneratorError::AllVariantsExhausted));
    assert_eq!(generator.used_names.len(), 11);
    assert_eq!(generator.generate_from(1, 2), Ok("Void Prime".to_string()));
    assert_eq!(
        NameGeneratorError::AllVariantsExhausted.message(),
        "Failed to generate unique planet name: all variants exhausted for base name"
    );
}

#[test]
fn test_graph_generator_rejects_zero_planets() {
    let name_gen = NameGenerator::with_parts(parts());
    let result = GraphGenerator::new(0, name_gen);
    assert!(result.is_err());
    assert!(matches!(result.unwrap_err(), GraphGeneratorError::InvalidPlanetCount));
}

#[test]
fn test_generate_single_planet() {
    let name_gen = NameGenerator::with_parts(parts());
    let mut graph_gen = GraphGenerator::new(1, name_gen).unwrap();

    let planets = graph_gen.generate().unwrap();
    assert_eq!(planets.len(), 1);

    // Single planet has no connections (it's the root)
    let planet = planets.iter().next().unwrap();
    assert_eq!(planet.get_connections().len(), 0);
}

#[test]
fn test_generate_tree_structure() {
    let name_gen = NameGenerator::with_parts(parts());
    let mut graph_gen = GraphGenerator::new(10, name_gen).unwrap();

    let planets = graph_gen.generate().unwrap();
    assert_eq!(planets.len(), 10);

    // Verify bidirectional edges
    for planet in planets.iter() {
        for lane in planet.get_connections() {
            let neighbor = planets
                .iter()
                .find(|p| p.id == lane.to)
                .expect(&format!("Neighbor {} not found", lane.to));
            assert!(
                neighbor
                    .get_connections()
                    .iter()
                    .any(|back| back.to == planet.id && back.distance == lane.distance),
                "Edge from {} to {} is not bidirectional",
                planet.id,
                lane.to
            );
            assert!(lane.distance >= 1 && lane.distance <= 5);
        }
    }
    let lanes: usize = planets.iter().map(|p| p.get_connections().len()).sum();
    assert_eq!(lanes, 18);
}

#[test]
fn test_all_planets_have_unique_names() {
    let name_gen = NameGenerator::with_parts(parts());
    let mut graph_gen = GraphGenerator::new(20, name_gen).unwrap();

    let planets = graph_gen.generate().unwrap();

    let mut names = std::collections::HashSet::new();
    for planet in planets.iter() {
        assert!(names.insert(planet.name.clone()), "Duplicate planet name: {}", planet.name);
    }
}

#[test]
fn generated_maps_are_charted() {
    for size in [MapSize::Small, MapSize::Medium, MapSize::Large] {
        let mut generator = NameGenerator::with_parts(parts());
        let map = StarMap::generate(size, &mut generator).unwrap();
        assert_eq!(map.planets.len() as u32, size.num_planets());
        assert_eq!(map.planet_positions.len(), map.planets.len());
        assert!(map.is_drawable());
        for planet in &map.planets {
            assert!(map.place_of(&planet.id).is_some());
            assert!(planet.get_owner().is_none());
        }
        let root = map.place_of(&map.planets[0].id).unwrap();
        assert!(root.0 >= 1 && root.0 <= 118 && root.1 >= 1 && root.1 <= 38);
    }
}
