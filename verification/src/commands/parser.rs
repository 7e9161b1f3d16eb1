//! Reading a line of input as a command.
use vstd::prelude::*;
use crate::commands::build_structure::{BuildArgs, BuildArgsView};
use crate::commands::build_ship::{BuildShipArgs, BuildShipArgsView};
use crate::commands::cancel::{CancelArgs, CancelArgsView};
use crate::commands::command::{CommandError, CommandErrorView};
use crate::commands::fleet::{FleetArgs, FleetActionView};
use crate::commands::status::{StatusArgs, StatusTargetView};
use crate::commands::upgrade::{UpgradeArgs, UpgradeArgsView};
use crate::commands::build_structure::build_checked;
use crate::commands::build_ship::ship_checked;
use crate::commands::cancel::cancel_checked;
use crate::commands::checks::checked_view;
use crate::commands::command::{CommandEffect, CommandEffectView};
use crate::commands::fleet::FleetAction;
use crate::commands::help::HELP_TEXT;
use crate::commands::upgrade::upgrade_checked;
use crate::game_state::{GameState, GameStateView};
use crate::text::{owned, split_whitespace, str_eq, words};

verus! {

/// Arguments of a command that can be read from the words after its name.
pub trait Parseable: Sized + DeepView {
    /// What reading `args` gives.
    spec fn parsed(args: Seq<Seq<char>>) -> Result<Self::V, CommandErrorView>;

    fn parse(args: Vec<&str>) -> (r: Result<Self, CommandError>)
        ensures
            args_view(r) == Self::parsed(args.deep_view()),
    ;
}

/// The view of what was read.
pub open spec fn args_view<T: DeepView>(r: Result<T, CommandError>) -> Result<
    T::V,
    CommandErrorView,
> {
    match r {
        Ok(v) => Ok(v.deep_view()),
        Err(e) => Err(e.deep_view()),
    }
}

/// A command as the player entered it.
#[derive(Debug)]
pub enum Command {
    Build(BuildArgs),
    Upgrade(UpgradeArgs),
    BuildShip(BuildShipArgs),
    Cancel(CancelArgs),
    Status(StatusArgs),
    ShowMap,
    Ships,
    Fleets,
    Fleet(FleetArgs),
    Help,
    EndTurn,
}

/// What a [`Command`] holds, with every text as its sequence of characters.
pub enum CommandView {
    Build(BuildArgsView),
    Upgrade(UpgradeArgsView),
    BuildShip(BuildShipArgsView),
    Cancel(CancelArgsView),
    Status(StatusTargetView),
    ShowMap,
    Ships,
    Fleets,
    Fleet(FleetActionView),
    Help,
    EndTurn,
}

impl DeepView for Command {
    type V = CommandView;

    open spec fn deep_view(&self) -> CommandView {
        match self {
            Command::Build(a) => CommandView::Build(a.deep_view()),
            Command::Upgrade(a) => CommandView::Upgrade(a.deep_view()),
            Command::BuildShip(a) => CommandView::BuildShip(a.deep_view()),
            Command::Cancel(a) => CommandView::Cancel(a.deep_view()),
            Command::Status(a) => CommandView::Status(a.deep_view()),
            Command::ShowMap => CommandView::ShowMap,
            Command::Ships => CommandView::Ships,
            Command::Fleets => CommandView::Fleets,
            Command::Fleet(a) => CommandView::Fleet(a.deep_view()),
            Command::Help => CommandView::Help,
            Command::EndTurn => CommandView::EndTurn,
        }
    }
}

/// Lifts the reading of a command's arguments to the command.
pub open spec fn lifted<A>(r: Result<A, CommandErrorView>, wrap: spec_fn(A) -> CommandView) -> Result<
    CommandView,
    CommandErrorView,
> {
    match r {
        Ok(a) => Ok(wrap(a)),
        Err(e) => Err(e),
    }
}

/// The command that a line made of the words `ws` stands for: the first
/// word names the command, the others are its arguments.
pub open spec fn command_of(ws: Seq<Seq<char>>) -> Result<CommandView, CommandErrorView> {
    if ws.len() == 0 {
        Err(CommandErrorView::NoCommandEntered)
    } else {
        let name = ws[0];
        let args = ws.skip(1);
        if name == "build"@ {
            lifted(BuildArgs::parsed(args), |a| CommandView::Build(a))
        } else if name == "upgrade"@ {
            lifted(UpgradeArgs::parsed(args), |a| CommandView::Upgrade(a))
        } else if name == "build_ship"@ {
            lifted(BuildShipArgs::parsed(args), |a| CommandView::BuildShip(a))
        } else if name == "cancel"@ {
            lifted(CancelArgs::parsed(args), |a| CommandView::Cancel(a))
        } else if name == "status"@ {
            lifted(StatusArgs::parsed(args), |a| CommandView::Status(a))
        } else if name == "map"@ {
            Ok(CommandView::ShowMap)
        } else if name == "ships"@ {
            Ok(CommandView::Ships)
        } else if name == "fleets"@ {
            Ok(CommandView::Fleets)
        } else if name == "fleet"@ {
            lifted(FleetArgs::parsed(args), |a| CommandView::Fleet(a))
        } else if name == "help"@ {
            Ok(CommandView::Help)
        } else if name == "end_turn"@ || name == "end"@ {
            Ok(CommandView::EndTurn)
        } else {
            Err(CommandErrorView::UnknownCommand(name))
        }
    }
}

/// Whether `r` is what checking `command` against the game answers.
pub open spec fn answers(g: GameStateView, command: CommandView, r: Result<
    CommandEffect,
    CommandError,
>) -> bool {
    match command {
        CommandView::Build(a) => checked_view(r) == build_checked(g, a),
        CommandView::Upgrade(a) => checked_view(r) == upgrade_checked(g, a),
        CommandView::BuildShip(a) => checked_view(r) == ship_checked(g, a),
        CommandView::Cancel(a) => checked_view(r) == cancel_checked(g, a),
        CommandView::Status(a) => checked_view(r) == g.status_checked(a),
        CommandView::ShowMap => checked_view(r) == crate::commands::map::map_answer(g),
        CommandView::Ships => checked_view(r) == Ok::<CommandEffectView, CommandErrorView>(
            CommandEffectView::Message { message: g.ships_text() },
        ),
        CommandView::Fleets => checked_view(r) == Ok::<CommandEffectView, CommandErrorView>(
            CommandEffectView::Message { message: g.fleets_text() },
        ),
        CommandView::Fleet(a) => checked_view(r) == g.fleet_checked(a),
        CommandView::Help => checked_view(r) == Ok::<CommandEffectView, CommandErrorView>(
            CommandEffectView::Message { message: HELP_TEXT@ },
        ),
        CommandView::EndTurn => checked_view(r) == Ok::<CommandEffectView, CommandErrorView>(
            CommandEffectView::EndTurn { player_name: g.players[g.acting()].name },
        ),
    }
}

impl Command {
    /// Whether the command can be checked: a fleet is formed out of at least one ship.
    pub open spec fn checkable(self) -> bool {
        match self {
            Command::Fleet(args) => match args.action {
                FleetAction::Create { name, ship_ids } => ship_ids.len() > 0,
                _ => true,
            },
            _ => true,
        }
    }

    /// Checks the command against the game and says what it asks the game to do.
    pub fn execute(self, game_state: &GameState) -> (r: Result<CommandEffect, CommandError>)
        requires
            game_state.deep_view().acting() >= 0,
            self.checkable(),
        ensures
            answers(game_state.deep_view(), self.deep_view(), r),
    {
        match self {
            Command::Build(args) => crate::commands::build_structure::execute(args, game_state),
            Command::Upgrade(args) => crate::commands::upgrade::execute(args, game_state),
            Command::BuildShip(args) => crate::commands::build_ship::execute(args, game_state),
            Command::Cancel(args) => crate::commands::cancel::execute(args, game_state),
            Command::Status(args) => crate::commands::status::execute(args, game_state),
            Command::ShowMap => crate::commands::map::execute(game_state),
            Command::Ships => crate::commands::ships::execute(game_state),
            Command::Fleets => crate::commands::fleets::execute(game_state),
            Command::Fleet(args) => crate::commands::fleet::execute(args, game_state),
            Command::Help => crate::commands::help::execute(game_state),
            Command::EndTurn => crate::commands::end_turn::execute(game_state),
        }
    }
}

/// Reads the words of a line as a command.
pub fn parse_words(words: Vec<&str>) -> (r: Result<Command, CommandError>)
    ensures
        args_view(r) == command_of(words.deep_view()),
{
    if words.len() == 0 {
        return Err(CommandError::NoCommandEntered);
    }
    let ghost ws = words.deep_view();
    let command_name = words[0];
    assert(ws[0] == command_name@);
    let mut command_args: Vec<&str> = Vec::new();
    let mut i: usize = 1;
    while i < words.len()
        invariant
            1 <= i <= words.len(),
            ws == words.deep_view(),
            command_args.len() == i - 1,
            forall|j: int| 0 <= j < i - 1 ==> command_args[j]@ == ws[j + 1],
        decreases words.len() - i,
    {
        assert(ws[i as int] == words[i as int]@);
        command_args.push(words[i]);
        i += 1;
    }
    assert(command_args.deep_view() =~= ws.skip(1));
    if str_eq(command_name, "build") {
        match BuildArgs::parse(command_args) {
            Ok(a) => Ok(Command::Build(a)),
            Err(e) => Err(e),
        }
    } else if str_eq(command_name, "upgrade") {
        match UpgradeArgs::parse(command_args) {
            Ok(a) => Ok(Command::Upgrade(a)),
            Err(e) => Err(e),
        }
    } else if str_eq(command_name, "build_ship") {
        match BuildShipArgs::parse(command_args) {
            Ok(a) => Ok(Command::BuildShip(a)),
            Err(e) => Err(e),
        }
    } else if str_eq(command_name, "cancel") {
        match CancelArgs::parse(command_args) {
            Ok(a) => Ok(Command::Cancel(a)),
            Err(e) => Err(e),
        }
    } else if str_eq(command_name, "status") {
        match StatusArgs::parse(command_args) {
            Ok(a) => Ok(Command::Status(a)),
            Err(e) => Err(e),
        }
    } else if str_eq(command_name, "map") {
        Ok(Command::ShowMap)
    } else if str_eq(command_name, "ships") {
        Ok(Command::Ships)
    } else if str_eq(command_name, "fleets") {
        Ok(Command::Fleets)
    } else if str_eq(command_name, "fleet") {
        match FleetArgs::parse(command_args) {
            Ok(a) => Ok(Command::Fleet(a)),
            Err(e) => Err(e),
        }
    } else if str_eq(command_name, "help") {
        Ok(Command::Help)
    } else if str_eq(command_name, "end_turn") || str_eq(command_name, "end") {
        Ok(Command::EndTurn)
    } else {
        Err(CommandError::UnknownCommand(owned(command_name)))
    }
}

/// Reads a line of input as a command. A line without words is no command.
pub fn parse(input: &str) -> (r: Result<Command, CommandError>)
    ensures
        args_view(r) == command_of(words(input@)),
{
    parse_words(split_whitespace(input))
}

} // verus!
