//! The `map` command.
use vstd::prelude::*;
use crate::commands::checks::checked_view;
use crate::commands::command::{CommandEffect, CommandEffectView, CommandError, CommandErrorView};
use crate::commands::fleet::invalid;
use crate::drawing::{drawing, rows_text};
use crate::game_state::{GameState, GameStateView};
use crate::map::GRID_HEIGHT;
use crate::text::owned;

verus! {

/// The wording of a line shown to the player.
pub open spec fn off_grid_text() -> Seq<char> {
    "a planet lies outside the drawing grid"@
}

/// What a request for the map of the game is answered with: the drawing
/// as text, or a refusal where a planet lies outside the grid.
pub open spec fn map_answer(g: GameStateView) -> Result<CommandEffectView, CommandErrorView> {
    if g.map.drawable() {
        Ok(
            CommandEffectView::Message {
                message: rows_text(drawing(g.map, g.players), GRID_HEIGHT as int),
            },
        )
    } else {
        Err(invalid("map"@, Seq::empty(), off_grid_text()))
    }
}

/// Draws the map of the game. A map with a planet placed outside the
/// drawing grid cannot be drawn.
pub fn execute(game_state: &GameState) -> (r: Result<CommandEffect, CommandError>)
    ensures
        checked_view(r) == map_answer(game_state.deep_view()),
{
    if !game_state.map.is_drawable() {
        let nothing = String::new();
        return Err(
            CommandError::InvalidArgument {
                command: owned("map"),
                argument: nothing,
                reason: owned("a planet lies outside the drawing grid"),
            },
        );
    }
    let map_render = game_state.map.render_full(&game_state.players);
    Ok(CommandEffect::Message { message: map_render })
}

} // verus!
