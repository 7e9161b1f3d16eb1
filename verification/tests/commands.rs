use std::collections::VecDeque;

use colony_core::commands::command::{CommandEffect, CommandError};
use colony_core::commands::fleet::FleetAction;
use colony_core::commands::parser::{parse, parse_words, Command, Parseable};
use colony_core::commands::status::{StatusArgs, StatusTarget};
use colony_core::commands::build_structure::BuildArgs;
use colony_core::commands::cancel::CancelArgs;
use colony_core::console::{CommandResult, CommandSystem, ParseError, ValidationError};
use colony_core::game::Game;
use colony_core::game_configuration::GameConfiguration;
use colony_core::game_state::{GameState, GameStateError};
use colony_core::map::{MapSize, Position, StarMap};
use colony_core::names::{NameGenerator, PlanetNameParts};
use colony_core::planet::{Connection, Planet};
use colony_core::player::Player;
use colony_core::resources::Resources;
use colony_core::roster;
use colony_core::ship_config::{ShipConfig, ShipDefinition};
use colony_core::structure::Structure;
use colony_core::structure_config::{StructureConfig, StructureDefinition};
use colony_core::text::text_before;
use colony_core::utils::name_to_id;

fn s(text: &str) -> String {
    text.to_string()
}

fn res(minerals: u32, gas: u32, energy: u32) -> Resources {
    Resources::new(minerals, gas, energy)
}

fn structure_def(id: &str, name: &str, levels: usize) -> StructureDefinition {
    StructureDefinition {
        id: s(id),
        name: s(name),
        description: s("A structure"),
        max_level: levels as u16,
        costs: vec![res(10, 0, 0); levels],
        upgrade_time: vec![3; levels],
        energy_consumption: vec![0; levels],
        hitpoints: vec![50; levels],
        production: vec![res(1, 1, 1); levels],
        storage_capacity: vec![res(100, 100, 100); levels],
        prerequisites: vec![],
        shield_regen_turns: None,
    }
}

fn ship_def(id: &str, bombardment: u32, shipyard: u16) -> ShipDefinition {
    ShipDefinition {
        id: s(id),
        name: s(id),
        description: s("A ship"),
        attack: 1,
        shield: 1,
        bombardment,
        cost: res(60, 20, 0),
        build_time: 2,
        counters: vec![],
        required_shipyard_level: shipyard,
    }
}

fn state() -> GameState {
    let config = StructureConfig::from_definitions(vec![
        structure_def("planetary_capital", "Planetary Capital", 1),
        structure_def("orbital_shipyard", "Orbital Shipyard", 2),
        structure_def("defense_shield", "Defense Shield", 1),
    ])
    .unwrap();
    let ships = ShipConfig::from_definitions(vec![
        ship_def("lancer", 0, 0),
        ship_def("ravager", 25, 1),
        ship_def("ark", 0, 2),
    ])
    .unwrap();
    let lanes = |list: &[(&str, u8)]| -> Vec<Connection> {
        list.iter().map(|(to, d)| Connection { to: s(to), distance: *d }).collect()
    };
    let mut home = Planet::new(s("crimson_theta"), s("Crimson Theta"), Some(s("ann")), lanes(&[("fort", 2), ("rock", 1)]));
    home.colonize(&config).unwrap();
    let mut fort = Planet::new(s("fort"), s("Fort"), Some(s("bob")), lanes(&[("crimson_theta", 2)]));
    fort.colonize(&config).unwrap();
    let rock = Planet::new(s("rock"), s("Rock"), None, lanes(&[("crimson_theta", 1)]));
    let map = StarMap {
        planets: vec![home, fort, rock],
        planet_positions: vec![
            Position { planet_id: s("crimson_theta"), x: 10, y: 10 },
            Position { planet_id: s("fort"), x: 60, y: 20 },
            Position { planet_id: s("rock"), x: 10, y: 30 },
        ],
        size: MapSize::Small,
    };
    let mut ann = Player::new(s("ann"), s("Ann"));
    ann.planets.push(s("crimson_theta"));
    let mut bob = Player::new(s("bob"), s("Bob"));
    bob.planets.push(s("fort"));
    let order: VecDeque<String> = vec![s("ann"), s("bob")].into();
    GameState::new(vec![ann, bob], order, map, config, ships).unwrap()
}

fn run(state: &GameState, line: &str) -> Result<CommandEffect, CommandError> {
    parse(line).and_then(|command| command.execute(state))
}

fn message_of(result: Result<CommandEffect, CommandError>) -> String {
    match result {
        Ok(CommandEffect::Message { message }) => message,
        other => panic!("unexpected {:?}", other),
    }
}

fn refusal(result: Result<CommandEffect, CommandError>) -> String {
    result.unwrap_err().message()
}

#[test]
fn texts_are_ordered_by_their_characters() {
    assert!(text_before("a", "b"));
    assert!(!text_before("b", "a"));
    assert!(!text_before("a", "a"));
    assert!(text_before("a", "ab"));
    assert!(!text_before("ab", "a"));
    assert!(text_before("", "a"));
    assert!(!text_before("", ""));
    assert!(text_before("Z", "a"));
    assert!(text_before("metal_mine", "orbital_shipyard"));
    assert!(text_before("defense_shield", "defense_shielz"));
}

#[test]
fn names_become_identifiers() {
    assert_eq!(name_to_id("Crimson Theta"), "crimson_theta");
    assert_eq!(name_to_id("Void Kepler II"), "void_kepler_ii");
    assert_eq!(name_to_id("already_an_id"), "already_an_id");
    assert_eq!(name_to_id(""), "");
}

#[test]
fn lines_are_read_word_by_word() {
    assert!(matches!(parse(""), Err(CommandError::NoCommandEntered)));
    assert!(matches!(parse("  \t "), Err(CommandError::NoCommandEntered)));
    assert!(matches!(parse("map"), Ok(Command::ShowMap)));
    assert!(matches!(parse(" ships "), Ok(Command::Ships)));
    assert!(matches!(parse("fleets"), Ok(Command::Fleets)));
    assert!(matches!(parse("help"), Ok(Command::Help)));
    assert!(matches!(parse("end"), Ok(Command::EndTurn)));
    assert!(matches!(parse("end_turn now"), Ok(Command::EndTurn)));
    match parse("warp 9") {
        Err(CommandError::UnknownCommand(name)) => assert_eq!(name, "warp"),
        other => panic!("unexpected {:?}", other),
    }
    match parse("build  Crimson_Theta   metal_mine extra") {
        Ok(Command::Build(args)) => {
            assert_eq!(args.planet_name, "Crimson_Theta");
            assert_eq!(args.structure_name, "metal_mine");
        }
        other => panic!("unexpected {:?}", other),
    }
    match parse("upgrade home") {
        Err(CommandError::MissingArguments { command, expected }) => {
            assert_eq!(command, "upgrade");
            assert_eq!(expected, "upgrade <planet_name> <structure_name>");
        }
        other => panic!("unexpected {:?}", other),
    }
    match parse("build_ship home lancer") {
        Ok(Command::BuildShip(args)) => assert_eq!(args.ship_name, "lancer"),
        other => panic!("unexpected {:?}", other),
    }
    assert!(matches!(parse("cancel"), Err(CommandError::MissingArguments { .. })));
    match parse_words(vec!["fleet", "create", "Alpha", "a_1", "a_2"]) {
        Ok(Command::Fleet(args)) => match args.action {
            FleetAction::Create { name, ship_ids } => {
                assert_eq!(name, "Alpha");
                assert_eq!(ship_ids, vec![s("a_1"), s("a_2")]);
            }
            other => panic!("unexpected {:?}", other),
        },
        other => panic!("unexpected {:?}", other),
    }
    match parse("fleet move fleet_1 rock") {
        Ok(Command::Fleet(args)) => match args.action {
            FleetAction::Move { fleet_id, target_planet } => {
                assert_eq!(fleet_id, "fleet_1");
                assert_eq!(target_planet, "rock");
            }
            other => panic!("unexpected {:?}", other),
        },
        other => panic!("unexpected {:?}", other),
    }
    assert!(matches!(parse("fleet add f"), Err(CommandError::MissingArguments { .. })));
    assert!(matches!(parse("fleet"), Err(CommandError::MissingArguments { .. })));
    assert!(matches!(
        StatusArgs::parse(vec!["planet", "rock"]).unwrap().target,
        StatusTarget::Planet { .. }
    ));
    assert!(matches!(StatusArgs::parse(vec!["turn"]).unwrap().target, StatusTarget::Turn));
    assert!(matches!(StatusArgs::parse(vec!["planet"]), Err(CommandError::MissingArguments { .. })));
    assert!(matches!(StatusArgs::parse(vec!["moon"]), Err(CommandError::InvalidArgument { .. })));
    assert!(matches!(StatusArgs::parse(vec![]), Err(CommandError::MissingArguments { .. })));
    assert!(BuildArgs::parse(vec!["a"]).is_err());
    assert_eq!(CancelArgs::parse(vec!["home", "x"]).unwrap().planet_name, "home");
}

#[test]
fn building_commands_are_checked_against_the_game() {
    let mut state = state();
    match run(&state, "build Crimson_Theta Orbital_Shipyard") {
        Ok(CommandEffect::BuildStructure { planet_id, structure_id }) => {
            assert_eq!(planet_id, "crimson_theta");
            assert_eq!(structure_id, "orbital_shipyard");
        }
        other => panic!("unexpected {:?}", other),
    }
    assert_eq!(refusal(run(&state, "build nowhere mine")), "Planet nowhere does not exist");
    assert_eq!(refusal(run(&state, "build fort mine")), "Planet is not owned by fort");
    assert_eq!(refusal(run(&state, "build rock mine")), "Planet rock is not owned by anyone");
    assert_eq!(refusal(run(&state, "build crimson_theta spire")), "Structure spire does not exist");
    assert_eq!(
        refusal(run(&state, "upgrade crimson_theta orbital_shipyard")),
        "Invalid argument 'orbital_shipyard' for command 'upgrade': Structure 'orbital_shipyard' does not exist on planet 'crimson_theta'"
    );
    assert!(matches!(
        run(&state, "upgrade crimson_theta planetary_capital"),
        Ok(CommandEffect::UpgradeStructure { .. })
    ));
    assert!(matches!(run(&state, "build_ship crimson_theta lancer"), Ok(CommandEffect::BuildShip { .. })));
    assert_eq!(refusal(run(&state, "build_ship crimson_theta titan")), "Ship titan does not exist");
    assert_eq!(
        refusal(run(&state, "build_ship crimson_theta ravager")),
        "Shipyard level too low: required 1, current 0"
    );
    let yard = Structure::new_at_level(state.structure_config.get(&s("orbital_shipyard")).unwrap(), 1).unwrap();
    state.map.planets[0].install(yard);
    assert!(matches!(run(&state, "build_ship crimson_theta ravager"), Ok(CommandEffect::BuildShip { .. })));
    assert_eq!(
        refusal(run(&state, "build_ship crimson_theta ark")),
        "Shipyard level too low: required 2, current 1"
    );
    state.map.planets[0].available_resources = res(59, 20, 0);
    assert_eq!(
        refusal(run(&state, "build_ship crimson_theta ravager")),
        "Planet crimson_theta has not enough resources. Resources needed: Resources { minerals: 60, gas: 20, energy: 0 }"
    );
    assert_eq!(
        refusal(run(&state, "cancel crimson_theta")),
        "Invalid argument 'crimson_theta' for command 'cancel': No pending action on this planet"
    );
    let mut game = Game::from_state(state);
    game.apply_effect(CommandEffect::BuildStructure {
        planet_id: s("crimson_theta"),
        structure_id: s("defense_shield"),
    })
    .unwrap();
    match run(&game.game_state, "cancel Crimson_Theta") {
        Ok(CommandEffect::CancelAction { planet_id }) => assert_eq!(planet_id, "crimson_theta"),
        other => panic!("unexpected {:?}", other),
    }
    match run(&game.game_state, "end") {
        Ok(CommandEffect::EndTurn { player_name }) => assert_eq!(player_name, "Ann"),
        other => panic!("unexpected {:?}", other),
    }
}

#[test]
fn fleet_commands_are_checked_against_the_game() {
    let mut state = state();
    let a = state.players[0].add_ship(s("lancer"), s("crimson_theta"));
    let b = state.players[0].add_ship(s("lancer"), s("crimson_theta"));
    let far = state.players[0].add_ship(s("ravager"), s("fort"));
    match run(&state, "fleet create Alpha lancer_1 lancer_2") {
        Ok(CommandEffect::CreateFleet { name, ship_ids, location }) => {
            assert_eq!(name, "Alpha");
            assert_eq!(ship_ids, vec![a.clone(), b.clone()]);
            assert_eq!(location, "crimson_theta");
        }
        other => panic!("unexpected {:?}", other),
    }
    assert_eq!(
        refusal(run(&state, "fleet create Alpha lancer_1 lancer_9")),
        "Invalid argument 'lancer_9' for command 'fleet create': ship not found"
    );
    assert_eq!(
        refusal(run(&state, "fleet create Alpha lancer_1 ravager_1")),
        "Invalid argument 'ravager_1' for command 'fleet create': ship is at different location (fort)"
    );
    state.players[0].create_fleet(s("Alpha"), &vec![a.clone()], s("crimson_theta"));
    state.players[0].create_fleet(s("Hammer"), &vec![far.clone()], s("fort"));
    assert_eq!(
        refusal(run(&state, "fleet create Beta lancer_1")),
        "Invalid argument 'lancer_1' for command 'fleet create': ship is already in fleet 'fleet_1'"
    );
    assert!(matches!(run(&state, "fleet add fleet_1 lancer_2"), Ok(CommandEffect::AddToFleet { .. })));
    assert_eq!(
        refusal(run(&state, "fleet add fleet_2 lancer_2")),
        "Invalid argument 'lancer_2' for command 'fleet add': ship is at crimson_theta but fleet is at fort"
    );
    assert_eq!(
        refusal(run(&state, "fleet add fleet_9 lancer_2")),
        "Invalid argument 'fleet_9' for command 'fleet add': fleet not found"
    );
    assert!(matches!(run(&state, "fleet remove fleet_1 lancer_1"), Ok(CommandEffect::RemoveFromFleet { .. })));
    assert_eq!(
        refusal(run(&state, "fleet remove fleet_1 lancer_2")),
        "Invalid argument 'lancer_2' for command 'fleet remove': ship is not in fleet 'fleet_1'"
    );
    assert!(matches!(run(&state, "fleet disband fleet_2"), Ok(CommandEffect::DisbandFleet { .. })));
    assert!(run(&state, "fleet disband fleet_3").is_err());

    match run(&state, "fleet move fleet_1 fort") {
        Ok(CommandEffect::MoveFleet { fleet_id, target_planet, distance }) => {
            assert_eq!(fleet_id, "fleet_1");
            assert_eq!(target_planet, "fort");
            assert_eq!(distance, 2);
        }
        other => panic!("unexpected {:?}", other),
    }
    assert_eq!(refusal(run(&state, "fleet move fleet_1 nowhere")), "Planet nowhere does not exist");
    assert_eq!(
        refusal(run(&state, "fleet move fleet_1 crimson_theta")),
        "Invalid argument 'crimson_theta' for command 'fleet move': fleet is already at this planet"
    );
    assert_eq!(
        refusal(run(&state, "fleet move fleet_2 rock")),
        "Invalid argument 'rock' for command 'fleet move': no connection from fort to rock"
    );
    match run(&state, "fleet bombard fleet_2") {
        Ok(CommandEffect::BombardPlanet { fleet_id, target_planet, bombardment_power }) => {
            assert_eq!(fleet_id, "fleet_2");
            assert_eq!(target_planet, "fort");
            assert_eq!(bombardment_power, 25);
        }
        other => panic!("unexpected {:?}", other),
    }
    assert_eq!(
        refusal(run(&state, "fleet bombard fleet_1")),
        "Invalid argument 'fleet_1' for command 'fleet bombard': fleet has no bombardment capability"
    );
    assert_eq!(
        refusal(run(&state, "fleet cancel-bombard fleet_2")),
        "Invalid argument 'fleet_2' for command 'fleet cancel-bombard': fleet is not bombarding"
    );
    assert_eq!(
        refusal(run(&state, "fleet colonize fleet_2")),
        "Invalid argument 'fleet_2' for command 'fleet colonize': fleet requires an ark ship to colonize"
    );
    let ark = state.players[0].add_ship(s("ark"), s("fort"));
    state.players[0].extend_fleet(&s("fleet_2"), &vec![ark]);
    match run(&state, "fleet colonize fleet_2") {
        Ok(CommandEffect::ColonizePlanet { fleet_id, planet_id }) => {
            assert_eq!(fleet_id, "fleet_2");
            assert_eq!(planet_id, "fort");
        }
        other => panic!("unexpected {:?}", other),
    }
    let mut game = Game::from_state(state);
    game.apply_effect(CommandEffect::BombardPlanet {
        fleet_id: s("fleet_2"),
        target_planet: s("fort"),
        bombardment_power: 25,
    })
    .unwrap();
    game.apply_effect(CommandEffect::MoveFleet { fleet_id: s("fleet_1"), target_planet: s("rock"), distance: 1 })
        .unwrap();
    assert_eq!(
        refusal(run(&game.game_state, "fleet bombard fleet_2")),
        "Invalid argument 'fleet_2' for command 'fleet bombard': fleet is already bombarding"
    );
    assert_eq!(
        refusal(run(&game.game_state, "fleet move fleet_2 crimson_theta")),
        "Invalid argument 'fleet_2' for command 'fleet move': fleet is bombarding - cancel bombardment first"
    );
    assert_eq!(
        refusal(run(&game.game_state, "fleet move fleet_1 fort")),
        "Invalid argument 'fleet_1' for command 'fleet move': fleet already has a pending move"
    );
    assert!(matches!(
        run(&game.game_state, "fleet cancel-bombard fleet_2"),
        Ok(CommandEffect::CancelBombard { .. })
    ));
    assert_eq!(
        game.apply_effect(CommandEffect::CancelBombard { fleet_id: s("fleet_2") }),
        Ok(vec![s("Fleet fleet_2 ceases bombardment.")])
    );
    assert_eq!(
        game.apply_effect(CommandEffect::CancelBombard { fleet_id: s("fleet_2") }),
        Err(s("Fleet is not bombarding"))
    );
    let i = game.game_state.planet_index(&s("fort")).unwrap();
    game.game_state.map.planets[i].set_owner(s("ann"));
    assert_eq!(
        refusal(run(&game.game_state, "fleet bombard fleet_2")),
        "Invalid argument 'fleet_2' for command 'fleet bombard': cannot bombard your own planet"
    );
    assert_eq!(
        refusal(run(&game.game_state, "fleet colonize fleet_2")),
        "Invalid argument 'fleet_2' for command 'fleet colonize': you already own this planet"
    );
}

#[test]
fn status_reports_read_as_expected() {
    let mut state = state();
    assert_eq!(message_of(run(&state, "status turn")), "Current turn: 1");
    assert_eq!(
        message_of(run(&state, "status planets")),
        "=== Planets ===\nCrimson Theta (crimson_theta) - ann\nFort (fort) - bob\nRock (rock) - uncolonized\n"
    );
    assert_eq!(
        message_of(run(&state, "status player")),
        "=== Ann ===\nPlanets owned: 1\n  - Crimson Theta (crimson_theta)\n"
    );
    assert_eq!(refusal(run(&state, "status planet moon")), "Planet moon does not exist");
    assert_eq!(
        message_of(run(&state, "status planet rock")),
        "=== Rock (rock) ===\nOwner: uncolonized\n\nRESOURCES\n  Available: Resources { minerals: 0, gas: 0, energy: 0 }\n  Capacity:  Resources { minerals: 0, gas: 0, energy: 0 }\n\nSTRUCTURES\n  (none)\n\nCONNECTIONS\n  Crimson Theta (crimson_theta) - 1 turn(s)\n"
    );
    let mut yard = Structure::new(state.structure_config.get(&s("orbital_shipyard")).unwrap());
    yard.level = 1;
    state.map.planets[0].install(yard);
    let mut game = Game::from_state(state);
    game.apply_effect(CommandEffect::BuildStructure {
        planet_id: s("crimson_theta"),
        structure_id: s("defense_shield"),
    })
    .unwrap();
    assert_eq!(
        message_of(run(&game.game_state, "status planet crimson_theta")),
        "=== Crimson Theta (crimson_theta) ===\nOwner: ann\n\nRESOURCES\n  Available: Resources { minerals: 90, gas: 100, energy: 100 }\n  Capacity:  Resources { minerals: 100, gas: 100, energy: 100 }\n\nSTRUCTURES\n  Orbital Shipyard (orbital_shipyard): Lv1/2 (upgrading to Lv1, 3 turns)\n  Planetary Capital (planetary_capital): Lv1/1\n\nPENDING ACTION\n  Building defense_shield (3 turns remaining)\n\nCONNECTIONS\n  Fort (fort) - 2 turn(s)\n  Rock (rock) - 1 turn(s)\n"
    );
    assert_eq!(message_of(run(&game.game_state, "ships")), "No ships in your fleet.");
    assert_eq!(
        message_of(run(&game.game_state, "fleets")),
        "No fleets formed. Use 'fleet create <name> <ship_id>...' to create one."
    );
    let a = game.game_state.players[0].add_ship(s("lancer"), s("crimson_theta"));
    game.game_state.players[0].add_ship(s("ark"), s("deep_space"));
    game.game_state.players[0].add_ship(s("lancer"), s("crimson_theta"));
    game.game_state.players[0].create_fleet(s("Alpha"), &vec![a, s("ghost")], s("crimson_theta"));
    assert_eq!(
        message_of(run(&game.game_state, "ships")),
        "=== Your Ships ===\n\nCrimson Theta (crimson_theta):\n  - lancer_1 (lancer) [Fleet: fleet_1]\n  - lancer_2 (lancer)\n\nUnknown (deep_space):\n  - ark_1 (ark)\n\nTotal ships: 3"
    );
    assert_eq!(
        message_of(run(&game.game_state, "fleets")),
        "=== Your Fleets ===\n\nAlpha (fleet_1) at Crimson Theta (crimson_theta):\n  - lancer_1 (lancer)\n  Ships: 2\n\nTotal fleets: 1"
    );
    let help = message_of(run(&game.game_state, "help"));
    assert!(help.starts_with("=== Colony Protocol - Command Reference ==="));
    assert!(help.contains("fleet cancel-bombard <fleet_id>"));
    assert!(help.ends_with("- Only one pending action per planet allowed"));
}

#[test]
fn the_map_is_drawn_on_a_bordered_grid() {
    let mut state = state();
    let drawing = message_of(run(&state, "map"));
    let rows: Vec<Vec<char>> = drawing.lines().map(|row| row.chars().collect()).collect();
    assert_eq!(rows.len(), 40);
    assert!(rows.iter().all(|row| row.len() == 120));
    assert!(drawing.ends_with('\n'));
    assert!(rows[0].iter().all(|c| *c == '#'));
    assert!(rows[39].iter().all(|c| *c == '#'));
    assert!(rows.iter().all(|row| row[0] == '#' && row[119] == '#'));
    assert_eq!(rows[10][10], '◉');
    assert_eq!(rows[20][60], '◉');
    assert_eq!(rows[30][10], '◉');
    let label: String = rows[10][11..31].iter().collect();
    assert_eq!(label, " crimson_theta (Ann)");
    let label: String = rows[30][11..16].iter().collect();
    assert_eq!(label, " rock");
    assert_eq!(rows[20][10], '│');
    assert!(rows[15][35] == '\\' || rows[15][34] == '\\' || rows[15][36] == '\\');
    state.map.planet_positions[2].x = 120;
    assert!(!state.map.is_drawable());
    assert_eq!(
        refusal(run(&state, "map")),
        "Invalid argument '' for command 'map': a planet lies outside the drawing grid"
    );
}

#[test]
fn the_aggregate_refuses_members_that_are_present() {
    let mut state = state();
    match state.add_player(Player::new(s("ann"), s("Ann the Second"))) {
        Err(error) => {
            assert!(matches!(error, GameStateError::PlayerAlreadyExists(_)));
            assert_eq!(error.message(), "Player Ann the Second is already present");
        }
        Ok(()) => panic!("a player was admitted twice"),
    }
    assert!(state.add_player(Player::new(s("cyd"), s("Cyd"))).is_ok());
    assert_eq!(state.players.len(), 3);
    match state.add_planet(Planet::new(s("rock"), s("Rock Two"), None, vec![])) {
        Err(error) => assert_eq!(error.message(), "Planet Rock Two is already present"),
        Ok(()) => panic!("a planet was placed twice"),
    }
    assert!(state.add_planet(Planet::new(s("moon"), s("Moon"), None, vec![])).is_ok());
    assert_eq!(state.map.planets.len(), 4);
    assert_eq!(state.current_player(), "ann");
    assert_eq!(state.player_index(&s("bob")), Some(1));
    assert_eq!(state.player_index(&s("zed")), None);
}

#[test]
fn a_game_is_set_up_with_a_home_for_everyone() {
    let parts = PlanetNameParts {
        prefixes: vec![s("Crimson"), s("Void"), s("Azure"), s("Iron")],
        suffixes: vec![s("Theta"), s("Kepler"), s("Prime"), s("Reach")],
    };
    let mut generator = NameGenerator::with_parts(parts);
    let map = Game::generate_map(MapSize::Small, &mut generator).unwrap();
    let names = vec![s("Ann Lee"), s("Bob"), s("Cyd"), s("ann lee")];
    let game = Game::assemble(&names, map, state().structure_config, state().ship_config).unwrap();
    let state = &game.game_state;
    assert_eq!(state.players.len(), 3);
    assert_eq!(state.players[0].id, "ann_lee");
    assert_eq!(state.players[0].name, "ann lee");
    assert_eq!(state.turn, 1);
    assert_eq!(state.players_remaining_this_turn, 3);
    let mut order: Vec<String> = state.players_order.iter().cloned().collect();
    order.sort();
    assert_eq!(order, vec![s("ann_lee"), s("bob"), s("cyd")]);
    let mut homes = Vec::new();
    for player in &state.players {
        assert_eq!(player.planets.len(), 1);
        let home = &state.map.planets[state.planet_index(&player.planets[0]).unwrap()];
        assert_eq!(home.get_owner(), &Some(player.id.clone()));
        assert_eq!(home.get_structure_level(&s("planetary_capital")), 1);
        assert_eq!(home.available_resources, res(100, 100, 100));
        homes.push(player.planets[0].clone());
    }
    homes.sort();
    homes.dedup();
    assert_eq!(homes.len(), 3);
    assert_eq!(state.map.planets.iter().filter(|p| p.get_owner().is_some()).count(), 3);
}

#[test]
fn answers_are_read_and_judged() {
    assert_eq!(GameConfiguration::read_player_count("3"), Ok(3));
    assert_eq!(
        GameConfiguration::read_player_count("5"),
        Err(s("Invalid parameter. Colonial doctrine allows 1-4 commanders."))
    );
    assert_eq!(
        GameConfiguration::read_player_count("0"),
        Err(s("Invalid parameter. Colonial doctrine allows 1-4 commanders."))
    );
    assert_eq!(
        GameConfiguration::read_player_count("three"),
        Err(s("Invalid input format. Numerical value required."))
    );
    assert_eq!(GameConfiguration::judge_player_count(Some(1)), Ok(1));
    assert_eq!(GameConfiguration::read_ai_count("0", 2), Ok(0));
    assert_eq!(GameConfiguration::read_ai_count("4", 1), Ok(4));
    assert_eq!(
        GameConfiguration::read_ai_count("0", 1),
        Err(s("Invalid parameter. Colonial doctrine allows 0-4 AI factions."))
    );
    assert_eq!(
        GameConfiguration::read_ai_count("5", 1),
        Err(s("Invalid parameter. Colonial doctrine allows 0-4 AI factions."))
    );
    assert_eq!(
        GameConfiguration::read_ai_count("-1", 1),
        Err(s("Invalid input format. Numerical value required."))
    );
    assert_eq!(GameConfiguration::read_yes_no("Y"), Ok(true));
    assert_eq!(GameConfiguration::read_yes_no("n"), Ok(false));
    assert_eq!(
        GameConfiguration::read_yes_no("yes"),
        Err(s("Invalid response. Protocol requires affirmative (Y) or negative (N)."))
    );
    assert_eq!(GameConfiguration::read_map_size("small"), Ok(MapSize::Small));
    assert_eq!(GameConfiguration::read_map_size("medium"), Ok(MapSize::Medium));
    assert_eq!(GameConfiguration::read_map_size("large"), Ok(MapSize::Large));
    assert_eq!(
        GameConfiguration::read_map_size("Large"),
        Err(s("Unknown configuration. Valid options: small, medium, large"))
    );
    let configuration = GameConfiguration::from_answers(2, vec![s("Ann"), s("Bob")], 0, MapSize::Medium);
    assert_eq!(configuration.num_of_players, 2);
    assert_eq!(configuration.map_size.num_planets(), 20);
    assert_eq!(MapSize::Small.num_planets(), 10);
    assert_eq!(MapSize::Large.num_planets(), 30);
}

#[test]
fn the_plain_register_keeps_players_planets_and_the_turn() {
    let mut register = roster::GameState::new();
    assert_eq!(register.get_current_turn(), 0);
    assert!(register.get_player(roster::PlayerId(1)).is_none());
    register.add_player(roster::Player::new(roster::PlayerId(1), s("Ann")));
    register.add_player(roster::Player::new(roster::PlayerId(1), s("Ann again")));
    assert_eq!(register.get_player(roster::PlayerId(1)).unwrap().name, "Ann again");
    register.add_planet(roster::Planet {
        id: roster::PlanetId(7),
        owner_id: roster::PlayerId(1),
        name: s("Rock"),
    });
    assert_eq!(register.get_planet(roster::PlanetId(7)).unwrap().name, "Rock");
    assert!(register.get_planet(roster::PlanetId(8)).is_none());
    register.next_turn();
    assert_eq!(register.get_current_turn(), 1);
    assert_eq!(roster::PlayerId(12).label(), "Player12");
    assert_eq!(roster::PlanetId(0).label(), "Planet0");
    assert_eq!(ParseError::new("bad").message, "bad");
    assert_eq!(ValidationError::new("worse").message, "worse");
    assert!(CommandResult::success("done").success);
    assert!(!CommandResult::error("failed").success);
    assert_eq!(CommandResult::error("failed").message, "failed");
    let system = CommandSystem::new();
    assert_eq!(system.parse_command("  planet build c418 mine"), Some(s("planet")));
    assert_eq!(system.parse_command("   "), None);
}

#[test]
fn command_errors_read_as_text() {
    assert_eq!(CommandError::NoCommandEntered.message(), "No command was entered");
    assert_eq!(CommandError::UnknownCommand(s("warp")).message(), "Unknown command: warp");
    assert_eq!(
        CommandError::MissingArguments { command: s("cancel"), expected: s("cancel <planet_name>") }
            .message(),
        "Missing arguments for command: cancel. Expected: cancel <planet_name>"
    );
    assert_eq!(CommandError::UnknownStructure(s("spire")).message(), "Structure spire does not exist");
}

#[test]
fn a_number_is_a_plus_at_most_and_then_digits_alone() {
    let not_a_number = Err(s("Invalid input format. Numerical value required."));
    let too_many = Err(s("Invalid parameter. Colonial doctrine allows 1-4 commanders."));
    assert_eq!(GameConfiguration::read_player_count("+3"), Ok(3));
    assert_eq!(GameConfiguration::read_player_count("003"), Ok(3));
    assert_eq!(GameConfiguration::read_player_count("255"), too_many);
    assert_eq!(GameConfiguration::read_player_count("256"), not_a_number);
    assert_eq!(GameConfiguration::read_player_count(""), not_a_number);
    assert_eq!(GameConfiguration::read_player_count("+"), not_a_number);
    assert_eq!(GameConfiguration::read_player_count("++3"), not_a_number);
    assert_eq!(GameConfiguration::read_player_count("3 "), not_a_number);
    assert_eq!(GameConfiguration::read_player_count(" 3"), not_a_number);
    assert_eq!(GameConfiguration::read_player_count("-0"), not_a_number);
    assert_eq!(GameConfiguration::read_player_count("3_"), not_a_number);
}
