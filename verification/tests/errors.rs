use colony_core::game::Game;
use colony_core::game_state::GameStateError;
use colony_core::map::{MapSize, StarMap};
use colony_core::map_generator::{GraphGenerator, GraphGeneratorError, MapError};
use colony_core::names::{NameGenerator, NameGeneratorError, PlanetNameParts};
use colony_core::planet::{Planet, PlanetError};
use colony_core::player::Player;
use colony_core::resources::Resources;
use colony_core::setup::GameError;
use colony_core::ship_config::{ShipConfig, ShipConfigError};
use colony_core::structure::{Structure, StructureError};
use colony_core::structure_config::{StructureConfig, StructureConfigError, StructureDefinition};

fn s(text: &str) -> String {
    text.to_string()
}

fn kind(id: &str, levels: usize) -> StructureDefinition {
    StructureDefinition {
        id: s(id),
        name: s(id),
        description: s("A structure"),
        max_level: 2,
        costs: vec![Resources::new(10, 0, 0); levels],
        upgrade_time: vec![3; levels],
        energy_consumption: vec![0; levels],
        hitpoints: vec![50; levels],
        production: vec![Resources::new(1, 1, 1); levels],
        storage_capacity: vec![Resources::new(100, 100, 100); levels],
        prerequisites: vec![],
        shield_regen_turns: None,
    }
}

fn one_name() -> NameGenerator {
    NameGenerator::with_parts(PlanetNameParts { prefixes: vec![s("Void")], suffixes: vec![s("Prime")] })
}

#[test]
fn planets_refuse_what_their_structures_cannot_do() {
    let config =
        StructureConfig::from_definitions(vec![kind("tower", 2), kind("stub", 0), kind("half", 1)]).unwrap();
    let mut planet = Planet::new(s("rock"), s("Rock"), Some(s("ann")), vec![]);
    planet.available_resources = Resources::new(100, 100, 100);

    match planet.validate_build_structure(&s("stub"), &config) {
        Err(PlanetError::StructureError(StructureError::InvalidLevel { structure_name, level, max_level })) => {
            assert_eq!(structure_name, "stub");
            assert_eq!(level, 0);
            assert_eq!(max_level, 2);
        }
        other => panic!("unexpected {:?}", other),
    }
    let error = planet.complete_build_structure(s("stub"), &config).unwrap_err();
    assert_eq!(error.message(), "Invalid level 1 for structure 'stub' (max: 2)");
    assert!(planet.get_structures().is_empty());

    let info = planet.validate_build_structure(&s("tower"), &config).unwrap();
    assert_eq!(info.cost, Resources::new(10, 0, 0));
    assert_eq!(info.turns, 3);
    planet.install(Structure::new(config.get(&s("tower")).unwrap()));
    match planet.validate_upgrade_structure(&s("tower")) {
        Err(error) => {
            assert!(matches!(error, PlanetError::AlreadyUpgrading { .. }));
            assert_eq!(error.message(), "Structure tower on planet rock is already upgrading");
        }
        Ok(_) => panic!("an upgrade was allowed during an upgrade"),
    }
    planet.complete_build_structure(s("half"), &config).unwrap();
    assert!(matches!(
        planet.complete_upgrade_structure(&s("half")),
        Err(PlanetError::StructureError(StructureError::InvalidLevel { level: 1, .. }))
    ));
    assert_eq!(planet.get_structure_level(&s("half")), 1);
    assert!(matches!(
        planet.validate_upgrade_structure(&s("half")),
        Err(PlanetError::StructureError(_))
    ));
    assert!(matches!(
        planet.complete_upgrade_structure(&s("none")),
        Err(PlanetError::StructureNotFound { .. })
    ));
    planet.available_resources = Resources::new(9, 100, 100);
    assert!(matches!(
        planet.validate_build_structure(&s("half"), &config),
        Err(PlanetError::StructureAlreadyExists { .. })
    ));
    let mut poor = Planet::new(s("dust"), s("Dust"), None, vec![]);
    poor.available_resources = Resources::new(9, 0, 0);
    assert!(matches!(
        poor.validate_build_structure(&s("tower"), &config),
        Err(PlanetError::NotEnoughResources { .. })
    ));
    assert!(matches!(
        poor.colonize(&config),
        Err(PlanetError::StructureDefinitionNotFound { .. })
    ));
}

#[test]
fn wrapped_errors_keep_their_wording() {
    let table = GameStateError::StructureConfigError(StructureConfigError::SizeMismatchError {
        structure_name: s("Mine"),
        field_name: s("hitpoints"),
        expected: 1,
        actual: 4,
    });
    assert_eq!(table.message(), "Structure 'Mine': hitpoints has 4 items but max_level is 1");
    let ships = GameStateError::ShipConfigError(ShipConfigError::InvalidCounterReference {
        ship_name: s("Lancer"),
        counter_id: s("ghost"),
    });
    assert_eq!(ships.message(), "Ship 'Lancer' has invalid counter reference: 'ghost'");
    let map = GameError::MapError(MapError::PlanetNameGeneratorError(
        NameGeneratorError::AllVariantsExhausted,
    ));
    assert_eq!(
        map.message(),
        "Failed to generate unique planet name: all variants exhausted for base name"
    );
    let state = GameError::GameStateError(GameStateError::PlayerAlreadyExists(s("Ann")));
    assert_eq!(state.message(), "Player Ann is already present");
}

#[test]
fn maps_run_out_of_names() {
    let mut generator = one_name();
    let small = StarMap::generate(MapSize::Small, &mut generator).unwrap();
    assert_eq!(small.planets.len(), 10);
    assert_eq!(small.planets[0].name, "Void Prime");
    assert_eq!(small.planets[9].name, "Void Prime IX");
    assert_eq!(small.planets[9].id, "void_prime_ix");
    let mut generator = one_name();
    assert_eq!(
        StarMap::generate(MapSize::Medium, &mut generator).err(),
        Some(MapError::PlanetNameGeneratorError(NameGeneratorError::AllVariantsExhausted))
    );
    let mut graphs = GraphGenerator::new(12, one_name()).unwrap();
    assert_eq!(
        graphs.generate().err(),
        Some(GraphGeneratorError::NameGeneratorError(NameGeneratorError::AllVariantsExhausted))
    );
    assert!(matches!(
        Game::generate_map(MapSize::Large, &mut one_name()),
        Err(GameError::MapError(_))
    ));
}

#[test]
fn a_game_without_a_capital_kind_cannot_be_set_up() {
    let map = StarMap::generate(MapSize::Small, &mut one_name()).unwrap();
    let result = Game::assemble(
        &vec![s("Ann")],
        map,
        StructureConfig::from_definitions(vec![]).unwrap(),
        ShipConfig::from_definitions(vec![]).unwrap(),
    );
    match result {
        Err(error) => {
            assert!(matches!(error, GameError::PlanetError(_)));
            assert_eq!(
                error.message(),
                "Structure definition 'planetary_capital' not found in configuration"
            );
        }
        Ok(_) => panic!("a game was set up without capitals"),
    }
}

#[test]
fn set_up_stops_at_the_first_planet_without_a_capital() {
    let mut map = StarMap::generate(MapSize::Small, &mut one_name()).unwrap();
    let mut players = vec![Player::new(s("ann"), s("Ann")), Player::new(s("bob"), s("Bob"))];
    let config = StructureConfig::from_definitions(vec![]).unwrap();
    let result = Game::assign_starting_planets(&mut map, &mut players, &config);
    assert!(matches!(
        result,
        Err(GameError::PlanetError(PlanetError::StructureDefinitionNotFound { .. }))
    ));
    assert!(players.iter().all(|p| p.planets.is_empty()));
    let taken: Vec<&Planet> = map.planets.iter().filter(|p| p.get_owner().is_some()).collect();
    assert_eq!(taken.len(), 1);
    assert_eq!(taken[0].get_owner(), &Some(s("ann")));
    assert!(taken[0].get_structures().is_empty());
    assert_eq!(map.planets.len(), 10);

    let mut nobody: Vec<Player> = Vec::new();
    assert!(Game::assign_starting_planets(&mut map, &mut nobody, &config).is_ok());
}
