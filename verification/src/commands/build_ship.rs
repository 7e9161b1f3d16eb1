//! The `build_ship` command.
use vstd::prelude::*;
use crate::commands::checks::checked_view;
use crate::commands::command::{CommandEffect, CommandEffectView, CommandError, CommandErrorView};
use crate::game_state::{GameState, GameStateView};
use crate::planet::structure_of;
use crate::ship_config::lookup_ship;
use crate::utils::{name_id, name_to_id};
use crate::commands::parser::Parseable;
use crate::text::owned;

verus! {

/// The arguments of `build_ship`.
#[derive(Debug)]
pub struct BuildShipArgs {
    pub planet_name: String,
    pub ship_name: String,
}

/// What a [`BuildShipArgs`] holds, with every text as its sequence of characters.
pub struct BuildShipArgsView {
    pub planet_name: Seq<char>,
    pub ship_name: Seq<char>,
}

impl DeepView for BuildShipArgs {
    type V = BuildShipArgsView;

    open spec fn deep_view(&self) -> BuildShipArgsView {
        BuildShipArgsView { planet_name: self.planet_name@, ship_name: self.ship_name@ }
    }
}

impl Parseable for BuildShipArgs {
    /// The first two words are taken; further words are ignored.
    open spec fn parsed(args: Seq<Seq<char>>) -> Result<BuildShipArgsView, CommandErrorView> {
        if args.len() < 2 {
            Err(
                CommandErrorView::MissingArguments {
                    command: "build_ship"@,
                    expected: "build_ship <planet_name> <ship_type>"@,
                },
            )
        } else {
            Ok(BuildShipArgsView { planet_name: args[0], ship_name: args[1] })
        }
    }

    fn parse(args: Vec<&str>) -> (r: Result<Self, CommandError>) {
        if args.len() < 2 {
            return Err(
                CommandError::MissingArguments {
                    command: owned("build_ship"),
                    expected: owned("build_ship <planet_name> <ship_type>"),
                },
            );
        }
        assert(args.deep_view()[0] == args[0]@);
        assert(args.deep_view()[1] == args[1]@);
        Ok(BuildShipArgs { planet_name: owned(args[0]), ship_name: owned(args[1]) })
    }
}

/// The identifier of the structure kind in which ships are built.
pub open spec fn shipyard_kind() -> Seq<char> {
    "orbital_shipyard"@
}

/// What checking a `build_ship` command against the game answers.
pub open spec fn ship_checked(g: GameStateView, a: BuildShipArgsView) -> Result<
    CommandEffectView,
    CommandErrorView,
> {
    match g.own_planet(a.planet_name) {
        Err(e) => Err(e),
        Ok(qi) => match lookup_ship(g.ship_config, name_id(a.ship_name)) {
            None => Err(CommandErrorView::UnknownShip(a.ship_name)),
            Some(def) => {
                let planet = g.map.planets[qi];
                let level = match structure_of(planet.structures, shipyard_kind()) {
                    Some(s) => s.level,
                    None => 0,
                };
                if level < def.required_shipyard_level {
                    Err(
                        CommandErrorView::ShipyardLevelTooLow {
                            required: def.required_shipyard_level,
                            current: level,
                        },
                    )
                } else if !planet.available_resources.covers(def.cost) {
                    Err(
                        CommandErrorView::NotEnoughResources {
                            planet_name: a.planet_name,
                            cost: def.cost,
                        },
                    )
                } else {
                    Ok(
                        CommandEffectView::BuildShip {
                            planet_id: name_id(a.planet_name),
                            ship_id: name_id(a.ship_name),
                        },
                    )
                }
            },
        },
    }
}

/// Checks a `build_ship` command: the planet must be the acting player's
/// own, the ship type known, the shipyard high enough and the price in stock.
pub fn execute(args: BuildShipArgs, game_state: &GameState) -> (r: Result<
    CommandEffect,
    CommandError,
>)
    requires
        game_state.players_order@.len() > 0,
    ensures
        checked_view(r) == ship_checked(game_state.deep_view(), args.deep_view()),
{
    let (qi, planet_id) = match game_state.find_own_planet(&args.planet_name) {
        Ok(found) => found,
        Err(e) => {
            return Err(e);
        },
    };
    let ship_id = name_to_id(args.ship_name.as_str());
    let ship_def = match game_state.ship_config.get(&ship_id) {
        Some(d) => d,
        None => {
            return Err(CommandError::UnknownShip(args.ship_name));
        },
    };
    assert(game_state.deep_view().map.planets[qi as int]
        == game_state.map.planets[qi as int].deep_view());
    let planet = &game_state.map.planets[qi];
    let shipyard_level = planet.get_structure_level(&owned("orbital_shipyard"));
    if shipyard_level < ship_def.required_shipyard_level {
        return Err(
            CommandError::ShipyardLevelTooLow {
                required: ship_def.required_shipyard_level,
                current: shipyard_level,
            },
        );
    }
    if !planet.available_resources.has_enough(&ship_def.cost) {
        return Err(
            CommandError::NotEnoughResources { planet_name: args.planet_name, cost: ship_def.cost },
        );
    }
    Ok(CommandEffect::BuildShip { planet_id, ship_id })
}

} // verus!
