//! The `upgrade` command.
use vstd::prelude::*;
use vstd::string::*;
use crate::commands::checks::checked_view;
use crate::commands::command::{CommandEffect, CommandEffectView, CommandError, CommandErrorView};
use crate::game_state::{GameState, GameStateView};
use crate::planet::structure_of;
use crate::utils::{name_id, name_to_id};
use crate::commands::parser::Parseable;
use crate::text::owned;

verus! {

/// The arguments of `upgrade`.
#[derive(Debug)]
pub struct UpgradeArgs {
    pub planet_name: String,
    pub structure_name: String,
}

/// What a [`UpgradeArgs`] holds, with every text as its sequence of characters.
pub struct UpgradeArgsView {
    pub planet_name: Seq<char>,
    pub structure_name: Seq<char>,
}

impl DeepView for UpgradeArgs {
    type V = UpgradeArgsView;

    open spec fn deep_view(&self) -> UpgradeArgsView {
        UpgradeArgsView { planet_name: self.planet_name@, structure_name: self.structure_name@ }
    }
}

impl Parseable for UpgradeArgs {
    /// The first two words are taken; further words are ignored.
    open spec fn parsed(args: Seq<Seq<char>>) -> Result<UpgradeArgsView, CommandErrorView> {
        if args.len() < 2 {
            Err(
                CommandErrorView::MissingArguments {
                    command: "upgrade"@,
                    expected: "upgrade <planet_name> <structure_name>"@,
                },
            )
        } else {
            Ok(UpgradeArgsView { planet_name: args[0], structure_name: args[1] })
        }
    }

    fn parse(args: Vec<&str>) -> (r: Result<Self, CommandError>) {
        if args.len() < 2 {
            return Err(
                CommandError::MissingArguments {
                    command: owned("upgrade"),
                    expected: owned("upgrade <planet_name> <structure_name>"),
                },
            );
        }
        assert(args.deep_view()[0] == args[0]@);
        assert(args.deep_view()[1] == args[1]@);
        Ok(UpgradeArgs { planet_name: owned(args[0]), structure_name: owned(args[1]) })
    }
}

/// The wording of a line shown to the player.
pub open spec fn no_such_structure_text(structure: Seq<char>, planet: Seq<char>) -> Seq<char> {
    "Structure '"@ + structure + "' does not exist on planet '"@ + planet + "'"@
}

/// What checking an `upgrade` command against the game answers.
pub open spec fn upgrade_checked(g: GameStateView, a: UpgradeArgsView) -> Result<
    CommandEffectView,
    CommandErrorView,
> {
    match g.own_planet(a.planet_name) {
        Err(e) => Err(e),
        Ok(qi) => if structure_of(g.map.planets[qi].structures, name_id(a.structure_name)).is_none() {
            Err(
                CommandErrorView::InvalidArgument {
                    command: "upgrade"@,
                    argument: a.structure_name,
                    reason: no_such_structure_text(a.structure_name, a.planet_name),
                },
            )
        } else {
            Ok(
                CommandEffectView::UpgradeStructure {
                    planet_id: name_id(a.planet_name),
                    structure_id: name_id(a.structure_name),
                },
            )
        },
    }
}

/// Checks an `upgrade` command: the planet must exist and belong to the
/// player whose turn it is, and the structure must stand on it.
pub fn execute(args: UpgradeArgs, game_state: &GameState) -> (r: Result<CommandEffect, CommandError>)
    requires
        game_state.players_order@.len() > 0,
    ensures
        checked_view(r) == upgrade_checked(game_state.deep_view(), args.deep_view()),
{
    let (qi, planet_id) = match game_state.find_own_planet(&args.planet_name) {
        Ok(found) => found,
        Err(e) => {
            return Err(e);
        },
    };
    let structure_id = name_to_id(args.structure_name.as_str());
    assert(game_state.deep_view().map.planets[qi as int]
        == game_state.map.planets[qi as int].deep_view());
    proof {
        crate::planet::lemma_structure_list_idents(game_state.map.planets[qi as int].structures);
    }
    if crate::ids::find_by_id(&game_state.map.planets[qi].structures, &structure_id).is_none() {
        let mut reason = owned("Structure '");
        reason.append(args.structure_name.as_str());
        reason.append("' does not exist on planet '");
        reason.append(args.planet_name.as_str());
        reason.append("'");
        return Err(
            CommandError::InvalidArgument {
                command: owned("upgrade"),
                argument: args.structure_name,
                reason,
            },
        );
    }
    Ok(CommandEffect::UpgradeStructure { planet_id, structure_id })
}

} // verus!
