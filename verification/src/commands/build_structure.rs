//! The `build` command.
use vstd::prelude::*;
use crate::commands::checks::checked_view;
use crate::commands::command::{CommandEffect, CommandEffectView, CommandError, CommandErrorView};
use crate::game_state::{GameState, GameStateView};
use crate::structure_config::lookup_structure;
use crate::utils::{name_id, name_to_id};
use crate::commands::parser::Parseable;
use crate::text::owned;

verus! {

/// The arguments of `build`.
#[derive(Debug)]
pub struct BuildArgs {
    pub planet_name: String,
    pub structure_name: String,
}

/// What a [`BuildArgs`] holds, with every text as its sequence of characters.
pub struct BuildArgsView {
    pub planet_name: Seq<char>,
    pub structure_name: Seq<char>,
}

impl DeepView for BuildArgs {
    type V = BuildArgsView;

    open spec fn deep_view(&self) -> BuildArgsView {
        BuildArgsView { planet_name: self.planet_name@, structure_name: self.structure_name@ }
    }
}

impl Parseable for BuildArgs {
    /// The first two words are taken; further words are ignored.
    open spec fn parsed(args: Seq<Seq<char>>) -> Result<BuildArgsView, CommandErrorView> {
        if args.len() < 2 {
            Err(
                CommandErrorView::MissingArguments {
                    command: "build"@,
                    expected: "build <planet_name> <structure_name>"@,
                },
            )
        } else {
            Ok(BuildArgsView { planet_name: args[0], structure_name: args[1] })
        }
    }

    fn parse(args: Vec<&str>) -> (r: Result<Self, CommandError>) {
        if args.len() < 2 {
            return Err(
                CommandError::MissingArguments {
                    command: owned("build"),
                    expected: owned("build <planet_name> <structure_name>"),
                },
            );
        }
        assert(args.deep_view()[0] == args[0]@);
        assert(args.deep_view()[1] == args[1]@);
        Ok(BuildArgs { planet_name: owned(args[0]), structure_name: owned(args[1]) })
    }
}

/// What checking a `build` command against the game answers.
pub open spec fn build_checked(g: GameStateView, a: BuildArgsView) -> Result<
    CommandEffectView,
    CommandErrorView,
> {
    match g.own_planet(a.planet_name) {
        Err(e) => Err(e),
        Ok(_) => if lookup_structure(g.structure_config, name_id(a.structure_name)).is_none() {
            Err(CommandErrorView::UnknownStructure(a.structure_name))
        } else {
            Ok(
                CommandEffectView::BuildStructure {
                    planet_id: name_id(a.planet_name),
                    structure_id: name_id(a.structure_name),
                },
            )
        },
    }
}

/// Checks a `build` command: the planet must exist and belong to the player
/// whose turn it is, and the structure kind must be known.
pub fn execute(args: BuildArgs, game_state: &GameState) -> (r: Result<CommandEffect, CommandError>)
    requires
        game_state.players_order@.len() > 0,
    ensures
        checked_view(r) == build_checked(game_state.deep_view(), args.deep_view()),
{
    let (qi, planet_id) = match game_state.find_own_planet(&args.planet_name) {
        Ok(found) => found,
        Err(e) => {
            return Err(e);
        },
    };
    let structure_id = name_to_id(args.structure_name.as_str());
    if game_state.structure_config.get(&structure_id).is_none() {
        return Err(CommandError::UnknownStructure(args.structure_name));
    }
    Ok(CommandEffect::BuildStructure { planet_id, structure_id })
}

} // verus!
