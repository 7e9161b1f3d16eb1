use std::collections::VecDeque;
use std::sync::Arc;

use colony_core::combat::{resolve_combat, CombatOutcome};
use colony_core::commands::command::CommandEffect;
use colony_core::effects::refund_split;
use colony_core::fleet::Fleet;
use colony_core::game::Game;
use colony_core::game_state::GameState;
use colony_core::map::{MapSize, Position, StarMap};
use colony_core::pending_action::{ActionType, PendingAction, UNBOUNDED_COOLDOWN};
use colony_core::planet::{Connection, Planet, PlanetError};
use colony_core::player::Player;
use colony_core::resources::Resources;
use colony_core::ship::Ship;
use colony_core::ship_config::{ShipConfig, ShipDefinition};
use colony_core::structure::{Structure, StructureState};
use colony_core::structure_config::{StructureConfig, StructureDefinition};

fn res(minerals: u32, gas: u32, energy: u32) -> Resources {
    Resources::new(minerals, gas, energy)
}

fn s(text: &str) -> String {
    text.to_string()
}

fn structure_def(
    id: &str,
    costs: Vec<Resources>,
    hitpoints: Vec<u32>,
    production: Vec<Resources>,
    storage: Vec<Resources>,
) -> StructureDefinition {
    let n = costs.len();
    StructureDefinition {
        id: s(id),
        name: s(id),
        description: s("A structure"),
        max_level: n as u16,
        costs,
        upgrade_time: vec![2; n],
        energy_consumption: vec![0; n],
        hitpoints,
        production,
        storage_capacity: storage,
        prerequisites: vec![],
        shield_regen_turns: None,
    }
}

fn structures() -> StructureConfig {
    let capital = structure_def(
        "planetary_capital",
        vec![res(0, 0, 0)],
        vec![1000],
        vec![res(10, 5, 2)],
        vec![res(500, 300, 100)],
    );
    let mut shield = structure_def(
        "defense_shield",
        vec![res(50, 0, 0), res(80, 0, 0)],
        vec![40, 90],
        vec![res(0, 0, 0), res(0, 0, 0)],
        vec![res(0, 0, 0), res(0, 0, 0)],
    );
    shield.shield_regen_turns = Some(2);
    let mine = structure_def(
        "metal_mine",
        vec![res(100, 50, 0), res(200, 100, 0)],
        vec![300, 600],
        vec![res(20, 0, 0), res(45, 0, 0)],
        vec![res(100, 0, 0), res(250, 0, 0)],
    );
    StructureConfig::from_definitions(vec![capital, shield, mine]).unwrap()
}

fn ship_def(id: &str, attack: u32, shield: u32, bombardment: u32, counters: &[&str]) -> ShipDefinition {
    ShipDefinition {
        id: s(id),
        name: s(id),
        description: s("A ship"),
        attack,
        shield,
        bombardment,
        cost: res(60, 20, 0),
        build_time: 2,
        counters: counters.iter().map(|c| s(c)).collect(),
        required_shipyard_level: 0,
    }
}

fn ships() -> ShipConfig {
    ShipConfig::from_definitions(vec![
        ship_def("lancer", 10, 4, 0, &[]),
        ship_def("hunter", 10, 6, 0, &["warden"]),
        ship_def("warden", 3, 15, 0, &[]),
        ship_def("ravager", 5, 15, 25, &[]),
        ship_def("ark", 0, 1, 0, &[]),
        ship_def("skiff", 5, 5, 0, &["lancer"]),
    ])
    .unwrap()
}

fn planet(id: &str, owner: Option<&str>, lanes: &[(&str, u8)]) -> Planet {
    Planet::new(
        s(id),
        id.to_uppercase(),
        owner.map(s),
        lanes.iter().map(|(to, distance)| Connection { to: s(to), distance: *distance }).collect(),
    )
}

/// Two players, `ann` and `bob`; planets `home` (ann's), `fort` (bob's) and
/// `rock` (nobody's), joined home - fort (2 turns) and home - rock (1 turn).
fn game() -> Game {
    let config = structures();
    let mut home = planet("home", Some("ann"), &[("fort", 2), ("rock", 1)]);
    home.colonize(&config).unwrap();
    let mut fort = planet("fort", Some("bob"), &[("home", 2)]);
    fort.colonize(&config).unwrap();
    let rock = planet("rock", None, &[("home", 1)]);
    let map = StarMap {
        planets: vec![home, fort, rock],
        planet_positions: vec![
            Position { planet_id: s("home"), x: 10, y: 10 },
            Position { planet_id: s("fort"), x: 60, y: 20 },
            Position { planet_id: s("rock"), x: 12, y: 30 },
        ],
        size: MapSize::Small,
    };
    let mut ann = Player::new(s("ann"), s("Ann"));
    ann.planets.push(s("home"));
    let mut bob = Player::new(s("bob"), s("Bob"));
    bob.planets.push(s("fort"));
    let order: VecDeque<String> = vec![s("ann"), s("bob")].into();
    Game::from_state(GameState::new(vec![ann, bob], order, map, config, ships()).unwrap())
}

fn give_ship(game: &mut Game, player: usize, ship_type: &str, at: &str) -> String {
    game.game_state.players[player].add_ship(s(ship_type), s(at))
}

fn end_turn(game: &mut Game) -> Vec<String> {
    let name = game.game_state.players[game.game_state.acting_index().unwrap()].name.clone();
    game.apply_effect(CommandEffect::EndTurn { player_name: name }).unwrap()
}

fn end_round(game: &mut Game) -> Vec<String> {
    let mut lines = end_turn(game);
    lines.extend(end_turn(game));
    lines
}

fn planet_of<'a>(game: &'a Game, id: &str) -> &'a Planet {
    let i = game.game_state.planet_index(&s(id)).unwrap();
    &game.game_state.map.planets[i]
}

fn send_fleet(game: &mut Game, ship_types: &[&str], target: &str, distance: u8) -> String {
    let ids: Vec<String> = ship_types.iter().map(|t| give_ship(game, 0, t, "home")).collect();
    game.apply_effect(CommandEffect::CreateFleet { name: s("Alpha"), ship_ids: ids, location: s("home") })
        .unwrap();
    let fleet_id = game.game_state.players[0].fleets.last().unwrap().id.clone();
    game.apply_effect(CommandEffect::MoveFleet {
        fleet_id: fleet_id.clone(),
        target_planet: s(target),
        distance,
    })
    .unwrap();
    fleet_id
}

#[test]
fn weaker_attacker_is_destroyed_and_disbanded() {
    let mut game = game();
    let defender = give_ship(&mut game, 1, "warden", "fort");
    send_fleet(&mut game, &["lancer"], "fort", 1);
    let lines = end_round(&mut game);
    assert!(lines.contains(&s("Battle at FORT: attacker strength 10 vs defender strength 15.")));
    assert!(lines.contains(&s("Defenders win at FORT: fleet Alpha is destroyed and disbanded.")));
    assert!(game.game_state.players[0].ships.is_empty());
    assert!(game.game_state.players[0].fleets.is_empty());
    assert!(game.game_state.players[0].pending_actions.is_empty());
    assert_eq!(game.game_state.players[1].ships.len(), 1);
    assert_eq!(game.game_state.players[1].ships[0].id, defender);
    assert_eq!(planet_of(&game, "fort").get_owner(), &Some(s("bob")));
    let outcome = resolve_combat(&vec![s("lancer")], &vec![s("warden")], &game.game_state.ship_config);
    assert_eq!(
        outcome,
        CombatOutcome { attacker_strength: 20, defender_strength: 30, attacker_wins: false }
    );
}

#[test]
fn counter_bonus_makes_a_tie_and_the_tie_goes_to_the_defender() {
    let mut game = game();
    give_ship(&mut game, 1, "warden", "fort");
    send_fleet(&mut game, &["hunter"], "fort", 1);
    let lines = end_round(&mut game);
    assert!(lines.contains(&s("Battle at FORT: attacker strength 15 vs defender strength 15.")));
    assert!(lines.contains(&s("Defenders win at FORT: fleet Alpha is destroyed and disbanded.")));
    assert!(game.game_state.players[0].ships.is_empty());
    assert!(game.game_state.players[0].fleets.is_empty());
    let config = ships();
    let outcome = resolve_combat(&vec![s("hunter")], &vec![s("warden")], &config);
    assert_eq!(
        outcome,
        CombatOutcome { attacker_strength: 30, defender_strength: 30, attacker_wins: false }
    );
    let again = resolve_combat(&vec![s("hunter")], &vec![s("warden")], &config);
    assert_eq!(outcome, again);
    let odd = resolve_combat(&vec![s("skiff")], &vec![s("lancer")], &config);
    assert_eq!(odd, CombatOutcome { attacker_strength: 15, defender_strength: 8, attacker_wins: true });
    let unknown = resolve_combat(&vec![s("ghost"), s("lancer")], &vec![], &config);
    assert_eq!(
        unknown,
        CombatOutcome { attacker_strength: 20, defender_strength: 0, attacker_wins: true }
    );
}

#[test]
fn stronger_attacker_destroys_the_defenders_and_orbits() {
    let mut game = game();
    let d1 = give_ship(&mut game, 1, "lancer", "fort");
    let d2 = give_ship(&mut game, 1, "lancer", "fort");
    let away = give_ship(&mut game, 1, "lancer", "elsewhere");
    game.game_state.players[1].create_fleet(s("Guard"), &vec![d1.clone()], s("fort"));
    game.game_state.players[1].create_fleet(s("Mixed"), &vec![d2.clone(), away.clone()], s("fort"));
    let fleet = send_fleet(&mut game, &["lancer", "lancer"], "fort", 2);
    let first = end_round(&mut game);
    assert!(!first.iter().any(|l| l.starts_with("Battle")));
    assert_eq!(game.game_state.players[0].pending_actions.len(), 1);
    assert_eq!(game.game_state.players[0].pending_actions[0].cooldown_remaining, 1);
    let lines = end_round(&mut game);
    assert!(lines.contains(&s("Battle at FORT: attacker strength 20 vs defender strength 8.")));
    assert!(lines.contains(&s(
        "Attackers win: the defenders of FORT are destroyed and fleet Alpha enters orbit."
    )));
    let bob = &game.game_state.players[1];
    assert_eq!(bob.ships.len(), 1);
    assert_eq!(bob.ships[0].id, away);
    assert_eq!(bob.fleets.len(), 1);
    assert_eq!(bob.fleets[0].name, "Mixed");
    assert_eq!(bob.fleets[0].ships, vec![away]);
    let ann = &game.game_state.players[0];
    assert_eq!(ann.fleets[0].id, fleet);
    assert_eq!(ann.fleets[0].location, "fort");
    assert!(ann.ships.iter().all(|ship| ship.location == "fort"));
    assert_eq!(planet_of(&game, "fort").get_owner(), &Some(s("bob")));
}

#[test]
fn arrival_at_unowned_own_or_undefended_planets_is_peaceful() {
    let mut game = game();
    send_fleet(&mut game, &["lancer"], "rock", 1);
    let lines = end_round(&mut game);
    assert!(lines.contains(&s("Fleet Alpha arrived at ROCK.")));
    assert_eq!(game.game_state.players[0].fleets[0].location, "rock");
    assert_eq!(planet_of(&game, "rock").get_owner(), &None);

    let mut game = self::game();
    send_fleet(&mut game, &["lancer"], "fort", 1);
    let lines = end_round(&mut game);
    assert!(lines.contains(&s("Fleet Alpha arrived at FORT unopposed.")));
    assert_eq!(game.game_state.players[0].ships[0].location, "fort");
    assert_eq!(planet_of(&game, "fort").get_owner(), &Some(s("bob")));

    let mut game = self::game();
    let fleet = send_fleet(&mut game, &["lancer"], "home", 1);
    game.apply_effect(CommandEffect::DisbandFleet { fleet_id: fleet }).unwrap();
    let lines = end_round(&mut game);
    assert!(lines.contains(&s("Fleet fleet_1 no longer exists; its flight to home is abandoned.")));
}

fn raise_shield(game: &mut Game, planet: &str) {
    let config = structures();
    let i = game.game_state.planet_index(&s(planet)).unwrap();
    let shield = Structure::new_at_level(config.get(&s("defense_shield")).unwrap(), 1).unwrap();
    game.game_state.map.planets[i].install(shield);
    game.game_state.map.planets[i].regenerate_shield();
}

#[test]
fn bombardment_wears_the_shield_down_and_then_ends() {
    let mut game = game();
    raise_shield(&mut game, "fort");
    assert_eq!(planet_of(&game, "fort").get_shield_hp(), 40);
    assert_eq!(planet_of(&game, "fort").get_max_shield_hp(), 40);
    let ship = give_ship(&mut game, 0, "ravager", "fort");
    game.apply_effect(CommandEffect::CreateFleet {
        name: s("Hammer"),
        ship_ids: vec![ship],
        location: s("fort"),
    })
    .unwrap();
    assert_eq!(game.game_state.calculate_fleet_bombardment(&s("ann"), &s("fleet_1")), 25);
    assert_eq!(game.game_state.calculate_fleet_bombardment(&s("ann"), &s("fleet_9")), 0);
    assert_eq!(game.game_state.calculate_fleet_bombardment(&s("zed"), &s("fleet_1")), 0);
    let lines = game
        .apply_effect(CommandEffect::BombardPlanet {
            fleet_id: s("fleet_1"),
            target_planet: s("fort"),
            bombardment_power: 25,
        })
        .unwrap();
    assert_eq!(lines, vec![s("Fleet fleet_1 begins bombardment of fort (25 power per round).")]);
    assert_eq!(game.game_state.players[0].pending_actions[0].cooldown_remaining, UNBOUNDED_COOLDOWN);

    let lines = end_round(&mut game);
    assert!(lines.contains(&s("Bombardment: fleet fleet_1 hits FORT for 25 damage. Shield: 15 HP")));
    assert_eq!(planet_of(&game, "fort").get_shield_hp(), 15);
    assert_eq!(game.game_state.players[0].pending_actions.len(), 1);
    assert!(game.game_state.players[0].has_pending_fleet_bombardment(&s("fleet_1")));
    assert_eq!(game.game_state.players[0].pending_actions[0].cooldown_remaining, UNBOUNDED_COOLDOWN);

    let lines = end_round(&mut game);
    assert!(lines.contains(&s("Bombardment: fleet fleet_1 hits FORT for 25 damage. Shield: 0 HP")));
    assert!(lines.contains(&s("Shield destroyed on FORT. The planet can now be colonized.")));
    assert_eq!(planet_of(&game, "fort").get_shield_hp(), 0);
    assert!(game.game_state.players[0].pending_actions.is_empty());
    assert!(!game.game_state.players[0].has_pending_fleet_bombardment(&s("fleet_1")));
    assert_eq!(game.game_state.turn, 3);
}

#[test]
fn shield_rests_only_in_quiet_rounds() {
    let mut game = game();
    raise_shield(&mut game, "fort");
    let i = game.game_state.planet_index(&s("fort")).unwrap();
    assert_eq!(game.game_state.map.planets[i].take_shield_damage(10), 0);
    assert_eq!(game.game_state.map.planets[i].take_shield_damage(50), 20);
    assert_eq!(planet_of(&game, "fort").get_shield_hp(), 0);
    end_round(&mut game);
    assert_eq!(planet_of(&game, "fort").get_shield_hp(), 0);
    end_round(&mut game);
    assert_eq!(planet_of(&game, "fort").get_shield_hp(), 40);
    game.game_state.map.planets[i].take_shield_damage(10);
    end_round(&mut game);
    assert_eq!(planet_of(&game, "fort").get_shield_hp(), 30);
    end_round(&mut game);
    assert_eq!(planet_of(&game, "fort").get_shield_hp(), 40);
    assert_eq!(planet_of(&game, "fort").get_shield_regen_turns(), Some(2));
    assert_eq!(planet_of(&game, "home").get_shield_regen_turns(), None);
    assert_eq!(planet_of(&game, "home").get_max_shield_hp(), 0);
}

#[test]
fn cancelling_refunds_what_fits_and_reports_the_rest() {
    let (refund, wasted) = refund_split(&res(100, 50, 0), &res(470, 100, 40), &res(500, 300, 100));
    assert_eq!(refund, res(30, 50, 0));
    assert_eq!(wasted, res(70, 0, 0));

    let mut game = game();
    let lines = game
        .apply_effect(CommandEffect::BuildStructure { planet_id: s("home"), structure_id: s("metal_mine") })
        .unwrap();
    assert_eq!(
        lines,
        vec![s(
            "Construction queued. Resources spent: Resources { minerals: 100, gas: 50, energy: 0 }. Turns to complete: 2"
        )]
    );
    assert_eq!(planet_of(&game, "home").available_resources, res(400, 250, 100));
    let i = game.game_state.planet_index(&s("home")).unwrap();
    game.game_state.map.planets[i].available_resources = res(470, 100, 40);
    let lines = game.apply_effect(CommandEffect::CancelAction { planet_id: s("home") }).unwrap();
    assert_eq!(
        lines,
        vec![s(
            "Action cancelled on planet HOME. Resources refunded: Resources { minerals: 30, gas: 50, energy: 0 }. Wasted (storage full): Resources { minerals: 70, gas: 0, energy: 0 }"
        )]
    );
    assert_eq!(planet_of(&game, "home").available_resources, res(500, 150, 40));
    assert!(game.game_state.players[0].pending_actions.is_empty());
}

#[test]
fn build_then_cancel_restores_the_stock() {
    let mut game = game();
    let before = planet_of(&game, "home").available_resources;
    game.apply_effect(CommandEffect::BuildStructure { planet_id: s("home"), structure_id: s("metal_mine") })
        .unwrap();
    let lines = game.apply_effect(CommandEffect::CancelAction { planet_id: s("home") }).unwrap();
    assert_eq!(
        lines,
        vec![s(
            "Action cancelled on planet HOME. Resources refunded: Resources { minerals: 100, gas: 50, energy: 0 }"
        )]
    );
    assert_eq!(planet_of(&game, "home").available_resources, before);
    assert_eq!(
        game.apply_effect(CommandEffect::CancelAction { planet_id: s("home") }),
        Err(s("Pending action must exist (validated by command)"))
    );
}

#[test]
fn one_action_per_planet() {
    let mut game = game();
    game.apply_effect(CommandEffect::BuildStructure { planet_id: s("home"), structure_id: s("metal_mine") })
        .unwrap();
    let busy = Err(s("Planet already has a pending action"));
    assert_eq!(
        game.apply_effect(CommandEffect::BuildStructure {
            planet_id: s("home"),
            structure_id: s("defense_shield")
        }),
        busy
    );
    assert_eq!(
        game.apply_effect(CommandEffect::BuildShip { planet_id: s("home"), ship_id: s("lancer") }),
        busy
    );
    assert_eq!(
        game.apply_effect(CommandEffect::UpgradeStructure {
            planet_id: s("home"),
            structure_id: s("planetary_capital")
        }),
        busy
    );
    let ship = give_ship(&mut game, 0, "ravager", "home");
    game.apply_effect(CommandEffect::CreateFleet { name: s("A"), ship_ids: vec![ship], location: s("home") })
        .unwrap();
    assert_eq!(
        game.apply_effect(CommandEffect::MoveFleet {
            fleet_id: s("fleet_1"),
            target_planet: s("rock"),
            distance: 1
        }),
        busy
    );
    assert_eq!(
        game.apply_effect(CommandEffect::BombardPlanet {
            fleet_id: s("fleet_1"),
            target_planet: s("home"),
            bombardment_power: 25
        }),
        busy
    );
    assert_eq!(game.game_state.players[0].pending_actions.len(), 1);
    assert!(game.game_state.players[0].has_pending_action_on_planet(&s("home")));
    assert!(!game.game_state.players[0].has_pending_action_on_planet(&s("fort")));
    assert!(game.game_state.players[0].find_pending_action_on_planet(&s("home")).is_some());
    let action = game.game_state.players[0].find_pending_action_on_planet_mut(&s("home")).unwrap();
    action.cooldown_remaining = 7;
    assert_eq!(game.game_state.players[0].pending_actions[0].cooldown_remaining, 7);
    assert!(game.game_state.players[0].find_pending_action_on_planet_mut(&s("fort")).is_none());
}

#[test]
fn round_closes_once_when_the_last_player_ends_the_turn() {
    let mut game = game();
    game.apply_effect(CommandEffect::BuildStructure { planet_id: s("home"), structure_id: s("metal_mine") })
        .unwrap();
    assert_eq!(planet_of(&game, "home").available_resources, res(400, 250, 100));
    let lines = end_turn(&mut game);
    assert_eq!(lines, vec![s("Ann ends their turn."), s("Bob's turn.")]);
    assert_eq!(game.game_state.turn, 1);
    assert_eq!(game.game_state.players_remaining_this_turn, 1);
    assert_eq!(game.game_state.players[0].pending_actions[0].cooldown_remaining, 2);
    assert_eq!(planet_of(&game, "home").available_resources, res(400, 250, 100));
    assert_eq!(game.game_state.current_player(), "bob");

    let lines = end_turn(&mut game);
    assert_eq!(lines, vec![s("Bob ends their turn."), s("=== Turn 2 Begins ==="), s("Ann's turn.")]);
    assert_eq!(game.game_state.turn, 2);
    assert_eq!(game.game_state.players_remaining_this_turn, 2);
    assert_eq!(game.game_state.players[0].pending_actions[0].cooldown_remaining, 1);
    assert_eq!(planet_of(&game, "home").available_resources, res(410, 255, 100));

    let lines = end_round(&mut game);
    assert_eq!(
        lines,
        vec![
            s("Ann ends their turn."),
            s("Bob's turn."),
            s("Bob ends their turn."),
            s("=== Turn 2 Processing ==="),
            s("Construction completed: metal_mine on planet HOME"),
            s("=== Turn 3 Begins ==="),
            s("Ann's turn."),
        ]
    );
    // The mine was finished before production ran: the new rate and
    // capacity already count in the same round.
    let home = planet_of(&game, "home");
    assert_eq!(home.get_structure_level(&s("metal_mine")), 1);
    assert_eq!(home.storage_capacity, res(600, 300, 100));
    assert_eq!(home.available_resources, res(440, 260, 100));
    assert!(game.game_state.players[0].pending_actions.is_empty());
}

#[test]
fn owning_every_planet_ends_the_game_before_the_next_turn_begins() {
    let mut game = game();
    for id in ["fort", "rock"] {
        let i = game.game_state.planet_index(&s(id)).unwrap();
        game.game_state.map.planets[i].set_owner(s("ann"));
    }
    assert_eq!(game.game_state.find_winner(), Some(s("ann")));
    end_turn(&mut game);
    let lines = end_turn(&mut game);
    assert_eq!(
        lines,
        vec![
            s("Bob ends their turn."),
            s("Ann owns every planet of the system. The game is over."),
        ]
    );
    assert_eq!(game.game_state.turn, 1);
    assert_eq!(game.game_state.players_remaining_this_turn, 0);
    let mut other = self::game();
    assert_eq!(other.game_state.find_winner(), None);
    other.game_state.players_order.clear();
    assert_eq!(
        other.apply_effect(CommandEffect::EndTurn { player_name: s("Ann") }),
        Err(s("Game has no players - invalid state"))
    );
}

#[test]
fn ships_are_built_and_named_by_type_and_number() {
    let mut game = game();
    let lines = game
        .apply_effect(CommandEffect::BuildShip { planet_id: s("home"), ship_id: s("lancer") })
        .unwrap();
    assert_eq!(
        lines,
        vec![s(
            "Ship construction queued: lancer. Resources spent: Resources { minerals: 60, gas: 20, energy: 0 }. Turns to complete: 2"
        )]
    );
    end_round(&mut game);
    let lines = end_round(&mut game);
    assert!(lines.contains(&s("Ship built: lancer_1 (lancer) at planet HOME")));
    let ann = &mut game.game_state.players[0];
    assert_eq!(ann.ships.len(), 1);
    assert_eq!(ann.ships[0].id, "lancer_1");
    assert_eq!(ann.ships[0].location, "home");
    assert!(!ann.ships[0].is_in_fleet());
    assert_eq!(ann.add_ship(s("lancer"), s("home")), "lancer_2");
    assert_eq!(ann.add_ship(s("ark"), s("home")), "ark_1");
    assert_eq!(ann.generate_ship_id(&s("lancer")), "lancer_3");
    for _ in 0..8 {
        ann.generate_ship_id(&s("ark"));
    }
    assert_eq!(ann.generate_ship_id(&s("ark")), "ark_10");
    assert_eq!(
        game.apply_effect(CommandEffect::BuildShip { planet_id: s("home"), ship_id: s("dreadnought") }),
        Err(s("Ship must exist (validated by command)"))
    );
    assert_eq!(
        game.apply_effect(CommandEffect::BuildShip { planet_id: s("nowhere"), ship_id: s("lancer") }),
        Err(s("Planet must exist (validated by command)"))
    );
}

#[test]
fn upgrades_are_queued_and_completed() {
    let mut game = game();
    raise_shield(&mut game, "home");
    let lines = game
        .apply_effect(CommandEffect::UpgradeStructure {
            planet_id: s("home"),
            structure_id: s("defense_shield"),
        })
        .unwrap();
    assert_eq!(
        lines,
        vec![s(
            "Upgrade queued. Resources spent: Resources { minerals: 80, gas: 0, energy: 0 }. Turns to complete: 2"
        )]
    );
    end_round(&mut game);
    let lines = end_round(&mut game);
    assert!(lines.contains(&s("Upgrade completed: defense_shield on planet HOME")));
    assert_eq!(planet_of(&game, "home").get_structure_level(&s("defense_shield")), 2);
    assert_eq!(planet_of(&game, "home").get_max_shield_hp(), 90);
    assert_eq!(
        game.apply_effect(CommandEffect::UpgradeStructure {
            planet_id: s("home"),
            structure_id: s("defense_shield")
        }),
        Err(s("Structure defense_shield on planet home has reached maximum level"))
    );
    assert_eq!(
        game.apply_effect(CommandEffect::UpgradeStructure {
            planet_id: s("home"),
            structure_id: s("metal_mine")
        }),
        Err(s("Structure metal_mine was not found on planet home"))
    );
    assert_eq!(
        game.apply_effect(CommandEffect::BuildStructure {
            planet_id: s("home"),
            structure_id: s("planetary_capital")
        }),
        Err(s("Structure planetary_capital already exists on planet home"))
    );
    assert_eq!(
        game.apply_effect(CommandEffect::BuildStructure { planet_id: s("home"), structure_id: s("spire") }),
        Err(s("Structure definition 'spire' not found in configuration"))
    );
    let i = game.game_state.planet_index(&s("home")).unwrap();
    game.game_state.map.planets[i].available_resources = res(10, 0, 0);
    assert_eq!(
        game.apply_effect(CommandEffect::BuildStructure {
            planet_id: s("home"),
            structure_id: s("metal_mine")
        }),
        Err(s(
            "Planet HOME has not enough resources. Resources needed: Resources { minerals: 100, gas: 50, energy: 0 }"
        ))
    );
}

#[test]
fn fleets_are_formed_changed_and_disbanded() {
    let mut game = game();
    let a = give_ship(&mut game, 0, "lancer", "home");
    let b = give_ship(&mut game, 0, "lancer", "home");
    let c = give_ship(&mut game, 0, "ark", "home");
    let lines = game
        .apply_effect(CommandEffect::CreateFleet {
            name: s("Alpha"),
            ship_ids: vec![a.clone(), b.clone(), a.clone(), s("ghost")],
            location: s("home"),
        })
        .unwrap();
    assert_eq!(lines, vec![s("Fleet 'Alpha' (fleet_1) created with 4 ship(s)")]);
    {
        let ann = &game.game_state.players[0];
        assert_eq!(ann.fleets[0].ships, vec![a.clone(), b.clone(), s("ghost")]);
        assert_eq!(ann.fleets[0].ship_count(), 3);
        assert_eq!(ann.ships[0].fleet_id, Some(s("fleet_1")));
        assert_eq!(ann.ships[1].fleet_id, Some(s("fleet_1")));
        assert_eq!(ann.ships[2].fleet_id, None);
    }
    let lines = game
        .apply_effect(CommandEffect::AddToFleet { fleet_id: s("fleet_1"), ship_ids: vec![c.clone()] })
        .unwrap();
    assert_eq!(lines, vec![s("Added 1 ship(s) to fleet 'Alpha'")]);
    assert_eq!(game.game_state.players[0].ships[2].fleet_id, Some(s("fleet_1")));
    let lines = game
        .apply_effect(CommandEffect::RemoveFromFleet {
            fleet_id: s("fleet_1"),
            ship_ids: vec![a.clone(), s("ghost")],
        })
        .unwrap();
    assert_eq!(lines, vec![s("Removed 2 ship(s) from fleet 'Alpha'")]);
    assert_eq!(game.game_state.players[0].fleets[0].ships, vec![b.clone(), c.clone()]);
    assert_eq!(game.game_state.players[0].ships[0].fleet_id, None);
    let lines = game.apply_effect(CommandEffect::DisbandFleet { fleet_id: s("fleet_1") }).unwrap();
    assert_eq!(lines, vec![s("Fleet 'Alpha' disbanded. 2 ship(s) are now standalone.")]);
    assert!(game.game_state.players[0].fleets.is_empty());
    assert!(game.game_state.players[0].ships.iter().all(|ship| ship.fleet_id.is_none()));
    let lines = game.apply_effect(CommandEffect::DisbandFleet { fleet_id: s("fleet_1") }).unwrap();
    assert_eq!(lines, vec![s("Fleet '' disbanded. 0 ship(s) are now standalone.")]);
    assert_eq!(
        game.apply_effect(CommandEffect::AddToFleet { fleet_id: s("fleet_7"), ship_ids: vec![a.clone()] }),
        Ok(vec![])
    );
    game.apply_effect(CommandEffect::CreateFleet { name: s("Solo"), ship_ids: vec![b.clone()], location: s("home") })
        .unwrap();
    game.apply_effect(CommandEffect::RemoveFromFleet { fleet_id: s("fleet_1"), ship_ids: vec![b] })
        .unwrap();
    assert!(game.game_state.players[0].fleets.is_empty());

    let mut fleet = Fleet::new(s("f"), s("F"), s("home"));
    assert!(fleet.is_empty());
    fleet.add_ship(s("x"));
    fleet.add_ship(s("y"));
    fleet.add_ship(s("x"));
    assert_eq!(fleet.ships, vec![s("x"), s("y")]);
    assert!(fleet.remove_ship(&s("x")));
    assert!(!fleet.remove_ship(&s("x")));
    assert_eq!(fleet.ship_count(), 1);
}

#[test]
fn colonizing_takes_an_ark_lowered_shields_and_a_foreign_planet() {
    let mut game = game();
    raise_shield(&mut game, "fort");
    let lancer = give_ship(&mut game, 0, "lancer", "fort");
    game.apply_effect(CommandEffect::CreateFleet { name: s("A"), ship_ids: vec![lancer], location: s("fort") })
        .unwrap();
    let colonize = |game: &mut Game, planet: &str| {
        game.apply_effect(CommandEffect::ColonizePlanet { fleet_id: s("fleet_1"), planet_id: s(planet) })
    };
    assert_eq!(colonize(&mut game, "fort"), Err(s("fleet requires an ark ship to colonize")));
    let ark = give_ship(&mut game, 0, "ark", "fort");
    game.apply_effect(CommandEffect::AddToFleet { fleet_id: s("fleet_1"), ship_ids: vec![ark] }).unwrap();
    assert_eq!(
        colonize(&mut game, "fort"),
        Err(s("planet shields must be destroyed first (current: 40 HP)"))
    );
    assert_eq!(colonize(&mut game, "home"), Err(s("you already own this planet")));
    assert_eq!(colonize(&mut game, "nowhere"), Err(s("Planet must exist (validated by command)")));
    let i = game.game_state.planet_index(&s("fort")).unwrap();
    game.game_state.map.planets[i].take_shield_damage(40);
    game.game_state.map.planets[i].available_resources = res(1, 1, 1);
    assert_eq!(colonize(&mut game, "fort"), Ok(vec![s("Planet FORT colonized by Ann.")]));
    let fort = planet_of(&game, "fort");
    assert_eq!(fort.get_owner(), &Some(s("ann")));
    assert_eq!(fort.available_resources, fort.storage_capacity);
    assert_eq!(fort.available_resources, res(500, 300, 100));
    assert_eq!(fort.get_structure_level(&s("planetary_capital")), 1);
    assert_eq!(game.game_state.players[0].planets, vec![s("home"), s("fort")]);
    assert!(game.game_state.players[1].planets.is_empty());

    let mut game = self::game();
    let ark = give_ship(&mut game, 0, "ark", "rock");
    game.apply_effect(CommandEffect::CreateFleet { name: s("A"), ship_ids: vec![ark], location: s("rock") })
        .unwrap();
    game.game_state.structure_config = StructureConfig::from_definitions(vec![]).unwrap();
    assert_eq!(
        game.apply_effect(CommandEffect::ColonizePlanet { fleet_id: s("fleet_1"), planet_id: s("rock") }),
        Err(s("Colonization failed: Structure definition 'planetary_capital' not found in configuration"))
    );
    assert_eq!(planet_of(&game, "rock").get_owner(), &None);
    assert!(planet_of(&game, "rock").get_structures().is_empty());
}

#[test]
fn completion_failures_are_reported_and_not_queued_again() {
    let mut game = game();
    game.apply_effect(CommandEffect::BuildStructure { planet_id: s("home"), structure_id: s("metal_mine") })
        .unwrap();
    game.game_state.structure_config = StructureConfig::from_definitions(vec![]).unwrap();
    end_round(&mut game);
    let lines = end_round(&mut game);
    assert!(lines.contains(&s(
        "Construction failed for metal_mine on planet HOME: Structure definition 'metal_mine' not found in configuration"
    )));
    assert!(game.game_state.players[0].pending_actions.is_empty());
    assert_eq!(planet_of(&game, "home").get_structure_level(&s("metal_mine")), 0);

    game.game_state.players[0].pending_actions.push(PendingAction::new(
        ActionType::UpgradeStructure(s("metal_mine")),
        s("gone"),
        0,
        Resources::zero(),
    ));
    let lines = end_round(&mut game);
    assert!(lines.contains(&s("Upgrade failed for metal_mine: planet gone not found")));
    assert!(game.game_state.players[0].pending_actions.is_empty());
}

#[test]
fn structures_and_actions_keep_their_own_rules() {
    let config = structures();
    let def: Arc<StructureDefinition> = config.get(&s("metal_mine")).unwrap();
    let mut mine = Structure::new(def.clone());
    assert_eq!(mine.level, 0);
    assert_eq!(mine.state, StructureState::Upgrading { turns_remaining: 2, target_level: 1 });
    assert_eq!(mine.energy_consumption(), 0);
    assert_eq!(mine.cost_to_upgrade().unwrap(), &res(100, 50, 0));
    mine.process_turn();
    assert_eq!(mine.level, 0);
    mine.process_turn();
    assert_eq!(mine.level, 1);
    assert_eq!(mine.hitpoints, 300);
    assert_eq!(mine.production, res(20, 0, 0));
    assert_eq!(mine.state, StructureState::Operational);
    assert!(!mine.is_max_level());
    assert_eq!(mine.get_upgrade_time(), 2);
    mine.upgrade();
    assert_eq!(mine.state, StructureState::Upgrading { turns_remaining: 2, target_level: 2 });
    mine.complete_upgrade();
    assert_eq!(mine.level, 2);
    assert_eq!(mine.storage, res(250, 0, 0));
    assert!(mine.is_max_level());
    let error = mine.cost_to_upgrade().unwrap_err();
    assert_eq!(error.message(), "Invalid level 2 for structure 'metal_mine' (max: 2)");
    assert!(Structure::new_at_level(def.clone(), 0).is_err());
    assert!(Structure::new_at_level(def, 3).is_err());

    let mut action = PendingAction::new(ActionType::BuildShip(s("ark")), s("home"), 1, res(1, 2, 3));
    assert!(!action.is_complete());
    action.tick();
    assert!(action.is_complete());
    action.tick();
    assert_eq!(action.cooldown_remaining, 0);

    let mut home = planet("home", Some("ann"), &[]);
    home.colonize(&config).unwrap();
    assert_eq!(home.available_resources, res(500, 300, 100));
    home.available_resources = res(495, 0, 0);
    home.produce_resources();
    assert_eq!(home.available_resources, res(500, 5, 2));
    home.process_turn();
    assert_eq!(home.available_resources, res(500, 10, 4));
    assert!(matches!(
        home.validate_upgrade_structure(&s("planetary_capital")),
        Err(PlanetError::MaxLevelReached { .. })
    ));
    let ship = Ship::new(s("a_1"), s("a"), s("home"));
    assert!(!ship.is_in_fleet());
}

#[test]
fn a_ship_is_not_queued_without_its_price_in_stock() {
    let mut game = game();
    let i = game.game_state.planet_index(&s("home")).unwrap();
    game.game_state.map.planets[i].available_resources = res(59, 300, 100);
    assert_eq!(
        game.apply_effect(CommandEffect::BuildShip { planet_id: s("home"), ship_id: s("lancer") }),
        Err(s(
            "Planet HOME has not enough resources. Resources needed: Resources { minerals: 60, gas: 20, energy: 0 }"
        ))
    );
    assert!(game.game_state.players[0].pending_actions.is_empty());
    assert_eq!(planet_of(&game, "home").available_resources, res(59, 300, 100));
}

#[test]
fn a_finished_shield_starts_full_and_a_lost_one_counts_its_turns() {
    let mut game = game();
    game.apply_effect(CommandEffect::BuildStructure {
        planet_id: s("home"),
        structure_id: s("defense_shield"),
    })
    .unwrap();
    end_round(&mut game);
    assert_eq!(planet_of(&game, "home").get_shield_hp(), 0);
    let lines = end_round(&mut game);
    assert!(lines.contains(&s("Construction completed: defense_shield on planet HOME")));
    assert_eq!(planet_of(&game, "home").get_shield_hp(), 40);

    let mut rock = planet("rock", Some("ann"), &[]);
    let config = structures();
    rock.complete_build_structure(s("defense_shield"), &config).unwrap();
    assert_eq!(rock.get_shield_hp(), 40);
    rock.complete_build_structure(s("metal_mine"), &config).unwrap();
    rock.take_shield_damage(40);
    rock.rest_shield();
    assert_eq!(rock.get_shield_hp(), 0);
    rock.rest_shield();
    assert_eq!(rock.get_shield_hp(), 40);
    rock.take_shield_damage(40);
    rock.complete_build_structure(s("metal_mine"), &config).unwrap();
    assert_eq!(rock.get_shield_hp(), 0);
    let top = rock.complete_upgrade_structure(&s("metal_mine"));
    assert!(top.is_ok());
    assert_eq!(rock.get_structure_level(&s("metal_mine")), 2);
    assert!(matches!(
        rock.complete_upgrade_structure(&s("metal_mine")),
        Err(PlanetError::StructureError(_))
    ));
    assert_eq!(rock.get_structure_level(&s("metal_mine")), 2);
}

#[test]
fn a_finished_mine_produces_in_the_round_that_finishes_it() {
    let mut game = game();
    let i = game.game_state.planet_index(&s("home")).unwrap();
    game.game_state.map.planets[i].available_resources = res(200, 100, 10);
    game.apply_effect(CommandEffect::BuildStructure { planet_id: s("home"), structure_id: s("metal_mine") })
        .unwrap();
    assert_eq!(planet_of(&game, "home").available_resources, res(100, 50, 10));
    end_round(&mut game);
    assert_eq!(planet_of(&game, "home").available_resources, res(110, 55, 12));
    let lines = end_round(&mut game);
    assert!(lines.contains(&s("Construction completed: metal_mine on planet HOME")));
    assert_eq!(planet_of(&game, "home").production_rate, res(30, 5, 2));
    assert_eq!(planet_of(&game, "home").storage_capacity, res(600, 300, 100));
    assert_eq!(planet_of(&game, "home").available_resources, res(140, 60, 14));
    assert_eq!(game.game_state.turn, 3);
}

#[test]
fn every_quiet_turn_counts_for_the_shield() {
    let config = structures();
    let mut rock = planet("rock", Some("ann"), &[]);
    rock.rest_shield();
    assert_eq!(rock.shield_regen_timer, 0);
    rock.complete_build_structure(s("defense_shield"), &config).unwrap();
    assert_eq!((rock.get_shield_hp(), rock.shield_regen_timer), (40, 0));
    rock.rest_shield();
    assert_eq!((rock.get_shield_hp(), rock.shield_regen_timer), (40, 1));
    rock.take_shield_damage(25);
    assert_eq!((rock.get_shield_hp(), rock.shield_regen_timer), (15, 0));
    rock.rest_shield();
    assert_eq!((rock.get_shield_hp(), rock.shield_regen_timer), (15, 1));
    rock.rest_shield();
    assert_eq!((rock.get_shield_hp(), rock.shield_regen_timer), (40, 0));
}

#[test]
fn only_operational_structures_count_in_a_planets_turn() {
    let capital = structure_def(
        "planetary_capital",
        vec![res(0, 0, 0)],
        vec![1000],
        vec![res(10, 5, 2)],
        vec![res(500, 300, 100)],
    );
    let mut reactor = structure_def(
        "reactor",
        vec![res(10, 0, 0), res(20, 0, 0)],
        vec![50, 80],
        vec![res(0, 7, 0), res(0, 9, 0)],
        vec![res(0, 40, 0), res(0, 60, 0)],
    );
    reactor.energy_consumption = vec![3, 4];
    let config = StructureConfig::from_definitions(vec![capital, reactor]).unwrap();
    let mut home = planet("home", Some("ann"), &[]);
    home.colonize(&config).unwrap();
    home.complete_build_structure(s("reactor"), &config).unwrap();
    home.available_resources = res(100, 100, 50);
    home.process_turn();
    assert_eq!(home.storage_capacity, res(500, 340, 100));
    assert_eq!(home.production_rate, res(10, 12, 2));
    assert_eq!(home.available_resources, res(110, 112, 49));

    let at = home.structures.iter().position(|s| s.name == "reactor").unwrap();
    assert_eq!(home.structures[at].energy_consumption(), 3);
    home.structures[at].upgrade();
    assert_eq!(home.structures[at].energy_consumption(), 0);
    home.available_resources = res(100, 100, 50);
    home.process_turn();
    assert_eq!(home.storage_capacity, res(500, 300, 100));
    assert_eq!(home.production_rate, res(10, 5, 2));
    assert_eq!(home.available_resources, res(110, 105, 52));

    home.structures[at].state = StructureState::Damaged;
    assert_eq!(home.structures[at].energy_consumption(), 0);
    home.available_resources = res(100, 100, 50);
    home.process_turn();
    assert_eq!(home.storage_capacity, res(500, 300, 100));
    assert_eq!(home.available_resources, res(110, 105, 52));
}
