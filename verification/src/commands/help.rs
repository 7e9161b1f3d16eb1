//! The `help` command.
use vstd::prelude::*;
use crate::commands::checks::checked_view;
use crate::commands::command::{CommandEffect, CommandEffectView, CommandError, CommandErrorView};
use crate::game_state::GameState;
use crate::text::owned;

verus! {

/// The command reference.
pub const HELP_TEXT: &'static str = "=== Colony Protocol - Command Reference ===\n\nGAME COMMANDS\n  status turn              Show current turn number\n  status planets           List all planets in the system\n  status planet <id>       Show details for a specific planet\n  status player            Show your player status\n  map                      Display the star system map\n\nBUILDING\n  build <planet_id> <structure_id>    Queue structure construction\n  upgrade <planet_id> <structure_id>  Queue structure upgrade\n  build_ship <planet_id> <ship_id>    Queue ship construction\n  cancel <planet_id>                  Cancel pending action on planet\n\nSHIPS & FLEETS\n  ships                               List all your ships\n  fleets                              List all your fleets\n  fleet create <name> <ship_id>...    Create fleet from ships (same location)\n  fleet add <fleet_id> <ship_id>...   Add ships to fleet\n  fleet remove <fleet_id> <ship_id>...Remove ships from fleet\n  fleet disband <fleet_id>            Disband fleet (ships become standalone)\n  fleet move <fleet_id> <planet_id>   Send fleet along a lane\n  fleet bombard <fleet_id>            Bombard the planet the fleet is at\n  fleet cancel-bombard <fleet_id>     Stop bombarding\n  fleet colonize <fleet_id>           Colonize the planet the fleet is at\n\nTURN\n  end_turn, end            End your turn and pass to next player\n\nSYSTEM\n  help                     Show this help message\n  exit, terminate          End the game session\n\nTIPS\n  - Planet IDs are shown in parentheses, e.g. \"Kepler VII (c418)\"\n  - Ship IDs follow pattern: interceptor_1, ravager_2, etc.\n  - Fleet IDs follow pattern: fleet_1, fleet_2, etc.\n  - Only one pending action per planet allowed";

/// Answers with the command reference, whatever the state of the game.
pub fn execute(_game_state: &GameState) -> (r: Result<CommandEffect, CommandError>)
    ensures
        checked_view(r) == Ok::<CommandEffectView, CommandErrorView>(
            CommandEffectView::Message { message: HELP_TEXT@ },
        ),
{
    Ok(CommandEffect::Message { message: owned(HELP_TEXT) })
}

} // verus!
