//! The `cancel` command.
use vstd::prelude::*;
use crate::commands::checks::checked_view;
use crate::commands::command::{CommandEffect, CommandEffectView, CommandError, CommandErrorView};
use crate::game_state::{GameState, GameStateView};
use crate::utils::{name_id};
use crate::commands::parser::Parseable;
use crate::text::owned;

verus! {

/// The arguments of `cancel`.
#[derive(Debug)]
pub struct CancelArgs {
    pub planet_name: String,
}

/// What a [`CancelArgs`] holds, with every text as its sequence of characters.
pub struct CancelArgsView {
    pub planet_name: Seq<char>,
}

impl DeepView for CancelArgs {
    type V = CancelArgsView;

    open spec fn deep_view(&self) -> CancelArgsView {
        CancelArgsView { planet_name: self.planet_name@ }
    }
}

impl Parseable for CancelArgs {
    /// The first word is taken; further words are ignored.
    open spec fn parsed(args: Seq<Seq<char>>) -> Result<CancelArgsView, CommandErrorView> {
        if args.len() == 0 {
            Err(
                CommandErrorView::MissingArguments {
                    command: "cancel"@,
                    expected: "cancel <planet_name>"@,
                },
            )
        } else {
            Ok(CancelArgsView { planet_name: args[0] })
        }
    }

    fn parse(args: Vec<&str>) -> (r: Result<Self, CommandError>) {
        if args.len() == 0 {
            return Err(
                CommandError::MissingArguments {
                    command: owned("cancel"),
                    expected: owned("cancel <planet_name>"),
                },
            );
        }
        assert(args.deep_view()[0] == args[0]@);
        Ok(CancelArgs { planet_name: owned(args[0]) })
    }
}

/// What checking a `cancel` command against the game answers.
pub open spec fn cancel_checked(g: GameStateView, a: CancelArgsView) -> Result<
    CommandEffectView,
    CommandErrorView,
> {
    match g.own_planet(a.planet_name) {
        Err(e) => Err(e),
        Ok(_) => if !g.players[g.acting()].busy_at(name_id(a.planet_name)) {
            Err(
                CommandErrorView::InvalidArgument {
                    command: "cancel"@,
                    argument: a.planet_name,
                    reason: "No pending action on this planet"@,
                },
            )
        } else {
            Ok(CommandEffectView::CancelAction { planet_id: name_id(a.planet_name) })
        },
    }
}

/// Checks a `cancel` command: the planet must be the acting player's own
/// and an action must be in flight on it.
pub fn execute(args: CancelArgs, game_state: &GameState) -> (r: Result<CommandEffect, CommandError>)
    requires
        game_state.deep_view().acting() >= 0,
    ensures
        checked_view(r) == cancel_checked(game_state.deep_view(), args.deep_view()),
{
    let (qi, planet_id) = match game_state.find_own_planet(&args.planet_name) {
        Ok(found) => found,
        Err(e) => {
            return Err(e);
        },
    };
    let pi = game_state.acting_index().unwrap();
    assert(game_state.deep_view().players[pi as int] == game_state.players[pi as int].deep_view());
    if !game_state.players[pi].has_pending_action_on_planet(&planet_id) {
        return Err(
            CommandError::InvalidArgument {
                command: owned("cancel"),
                argument: args.planet_name,
                reason: owned("No pending action on this planet"),
            },
        );
    }
    Ok(CommandEffect::CancelAction { planet_id })
}

} // verus!
