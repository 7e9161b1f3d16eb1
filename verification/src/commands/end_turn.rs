//! The `end_turn` command.
use vstd::prelude::*;
use crate::commands::checks::checked_view;
use crate::commands::command::{CommandEffect, CommandEffectView, CommandError, CommandErrorView};
use crate::game_state::GameState;

verus! {

/// Ends the turn of the player whose turn it is.
pub fn execute(game_state: &GameState) -> (r: Result<CommandEffect, CommandError>)
    requires
        game_state.deep_view().acting() >= 0,
    ensures
        checked_view(r) == Ok::<CommandEffectView, CommandErrorView>(
            CommandEffectView::EndTurn {
                player_name: game_state.deep_view().players[game_state.deep_view().acting()].name,
            },
        ),
{
    let pi = game_state.acting_index().unwrap();
    assert(game_state.deep_view().players[pi as int] == game_state.players[pi as int].deep_view());
    Ok(CommandEffect::EndTurn { player_name: game_state.players[pi].name.clone() })
}

} // verus!
