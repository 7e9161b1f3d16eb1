//! What a command asks the game to do, and why a command is refused.
use vstd::prelude::*;
use vstd::string::*;
use crate::planet::{push_resources, resources_text};
use crate::resources::Resources;
use crate::text::{decimal, owned, push_decimal};

verus! {

/// Why a command cannot be read or carried out.
#[derive(Debug)]
pub enum CommandError {
    NoCommandEntered,
    MissingArguments { command: String, expected: String },
    UnknownCommand(String),
    UnknownPlanet(String),
    UnknownStructure(String),
    UnknownShip(String),
    PlanetNotOwned(String),
    WrongPlanetOwner(String),
    ShipyardLevelTooLow { required: u16, current: u16 },
    NotEnoughResources { planet_name: String, cost: Resources },
    InvalidArgument { command: String, argument: String, reason: String },
}

/// What a [`CommandError`] holds, with every text as its sequence of characters.
pub enum CommandErrorView {
    NoCommandEntered,
    MissingArguments { command: Seq<char>, expected: Seq<char> },
    UnknownCommand(Seq<char>),
    UnknownPlanet(Seq<char>),
    UnknownStructure(Seq<char>),
    UnknownShip(Seq<char>),
    PlanetNotOwned(Seq<char>),
    WrongPlanetOwner(Seq<char>),
    ShipyardLevelTooLow { required: u16, current: u16 },
    NotEnoughResources { planet_name: Seq<char>, cost: Resources },
    InvalidArgument { command: Seq<char>, argument: Seq<char>, reason: Seq<char> },
}

impl DeepView for CommandError {
    type V = CommandErrorView;

    open spec fn deep_view(&self) -> CommandErrorView {
        match self {
            CommandError::NoCommandEntered => CommandErrorView::NoCommandEntered,
            CommandError::MissingArguments { command, expected } => {
                CommandErrorView::MissingArguments { command: command@, expected: expected@ }
            },
            CommandError::UnknownCommand(s) => CommandErrorView::UnknownCommand(s@),
            CommandError::UnknownPlanet(s) => CommandErrorView::UnknownPlanet(s@),
            CommandError::UnknownStructure(s) => CommandErrorView::UnknownStructure(s@),
            CommandError::UnknownShip(s) => CommandErrorView::UnknownShip(s@),
            CommandError::PlanetNotOwned(s) => CommandErrorView::PlanetNotOwned(s@),
            CommandError::WrongPlanetOwner(s) => CommandErrorView::WrongPlanetOwner(s@),
            CommandError::ShipyardLevelTooLow { required, current } => {
                CommandErrorView::ShipyardLevelTooLow { required: *required, current: *current }
            },
            CommandError::NotEnoughResources { planet_name, cost } => {
                CommandErrorView::NotEnoughResources { planet_name: planet_name@, cost: *cost }
            },
            CommandError::InvalidArgument { command, argument, reason } => {
                CommandErrorView::InvalidArgument {
                    command: command@,
                    argument: argument@,
                    reason: reason@,
                }
            },
        }
    }
}

/// How a command error reads in reports.
pub open spec fn command_error_text(e: CommandErrorView) -> Seq<char> {
    match e {
        CommandErrorView::NoCommandEntered => "No command was entered"@,
        CommandErrorView::MissingArguments { command, expected } => {
            "Missing arguments for command: "@ + command + ". Expected: "@ + expected
        },
        CommandErrorView::UnknownCommand(s) => "Unknown command: "@ + s,
        CommandErrorView::UnknownPlanet(s) => "Planet "@ + s + " does not exist"@,
        CommandErrorView::UnknownStructure(s) => "Structure "@ + s + " does not exist"@,
        CommandErrorView::UnknownShip(s) => "Ship "@ + s + " does not exist"@,
        CommandErrorView::PlanetNotOwned(s) => "Planet "@ + s + " is not owned by anyone"@,
        CommandErrorView::WrongPlanetOwner(s) => "Planet is not owned by "@ + s,
        CommandErrorView::ShipyardLevelTooLow { required, current } => {
            "Shipyard level too low: required "@ + decimal(required as nat) + ", current "@
                + decimal(current as nat)
        },
        CommandErrorView::NotEnoughResources { planet_name, cost } => "Planet "@ + planet_name
            + " has not enough resources. Resources needed: "@ + resources_text(cost),
        CommandErrorView::InvalidArgument { command, argument, reason } => "Invalid argument '"@
            + argument + "' for command '"@ + command + "': "@ + reason,
    }
}

impl CommandError {
    /// The error as one line of text.
    pub fn message(&self) -> (s: String)
        ensures
            s@ == command_error_text(self.deep_view()),
    {
        match self {
            CommandError::NoCommandEntered => owned("No command was entered"),
            CommandError::MissingArguments { command, expected } => {
                let mut s = owned("Missing arguments for command: ");
                s.append(command.as_str());
                s.append(". Expected: ");
                s.append(expected.as_str());
                s
            },
            CommandError::UnknownCommand(name) => {
                let mut s = owned("Unknown command: ");
                s.append(name.as_str());
                s
            },
            CommandError::UnknownPlanet(name) => {
                let mut s = owned("Planet ");
                s.append(name.as_str());
                s.append(" does not exist");
                s
            },
            CommandError::UnknownStructure(name) => {
                let mut s = owned("Structure ");
                s.append(name.as_str());
                s.append(" does not exist");
                s
            },
            CommandError::UnknownShip(name) => {
                let mut s = owned("Ship ");
                s.append(name.as_str());
                s.append(" does not exist");
                s
            },
            CommandError::PlanetNotOwned(name) => {
                let mut s = owned("Planet ");
                s.append(name.as_str());
                s.append(" is not owned by anyone");
                s
            },
            CommandError::WrongPlanetOwner(name) => {
                let mut s = owned("Planet is not owned by ");
                s.append(name.as_str());
                s
            },
            CommandError::ShipyardLevelTooLow { required, current } => {
                let mut s = owned("Shipyard level too low: required ");
                push_decimal(&mut s, *required as u128);
                s.append(", current ");
                push_decimal(&mut s, *current as u128);
                s
            },
            CommandError::NotEnoughResources { planet_name, cost } => {
                let mut s = owned("Planet ");
                s.append(planet_name.as_str());
                s.append(" has not enough resources. Resources needed: ");
                push_resources(&mut s, cost);
                s
            },
            CommandError::InvalidArgument { command, argument, reason } => {
                let mut s = owned("Invalid argument '");
                s.append(argument.as_str());
                s.append("' for command '");
                s.append(command.as_str());
                s.append("': ");
                s.append(reason.as_str());
                s
            },
        }
    }
}

/// What an accepted command asks the game to do.
#[derive(Debug)]
pub enum CommandEffect {
    /// Nothing changes; `message` is shown.
    Message { message: String },
    BuildStructure { planet_id: String, structure_id: String },
    UpgradeStructure { planet_id: String, structure_id: String },
    BuildShip { planet_id: String, ship_id: String },
    CancelAction { planet_id: String },
    CreateFleet { name: String, ship_ids: Vec<String>, location: String },
    AddToFleet { fleet_id: String, ship_ids: Vec<String> },
    RemoveFromFleet { fleet_id: String, ship_ids: Vec<String> },
    DisbandFleet { fleet_id: String },
    MoveFleet { fleet_id: String, target_planet: String, distance: u8 },
    BombardPlanet { fleet_id: String, target_planet: String, bombardment_power: u32 },
    CancelBombard { fleet_id: String },
    ColonizePlanet { fleet_id: String, planet_id: String },
    EndTurn { player_name: String },
}

/// What a [`CommandEffect`] holds, with every text as its sequence of characters.
pub enum CommandEffectView {
    Message { message: Seq<char> },
    BuildStructure { planet_id: Seq<char>, structure_id: Seq<char> },
    UpgradeStructure { planet_id: Seq<char>, structure_id: Seq<char> },
    BuildShip { planet_id: Seq<char>, ship_id: Seq<char> },
    CancelAction { planet_id: Seq<char> },
    CreateFleet { name: Seq<char>, ship_ids: Seq<Seq<char>>, location: Seq<char> },
    AddToFleet { fleet_id: Seq<char>, ship_ids: Seq<Seq<char>> },
    RemoveFromFleet { fleet_id: Seq<char>, ship_ids: Seq<Seq<char>> },
    DisbandFleet { fleet_id: Seq<char> },
    MoveFleet { fleet_id: Seq<char>, target_planet: Seq<char>, distance: u8 },
    BombardPlanet { fleet_id: Seq<char>, target_planet: Seq<char>, bombardment_power: u32 },
    CancelBombard { fleet_id: Seq<char> },
    ColonizePlanet { fleet_id: Seq<char>, planet_id: Seq<char> },
    EndTurn { player_name: Seq<char> },
}

impl DeepView for CommandEffect {
    type V = CommandEffectView;

    open spec fn deep_view(&self) -> CommandEffectView {
        match self {
            CommandEffect::Message { message } => CommandEffectView::Message { message: message@ },
            CommandEffect::BuildStructure { planet_id, structure_id } => {
                CommandEffectView::BuildStructure {
                    planet_id: planet_id@,
                    structure_id: structure_id@,
                }
            },
            CommandEffect::UpgradeStructure { planet_id, structure_id } => {
                CommandEffectView::UpgradeStructure {
                    planet_id: planet_id@,
                    structure_id: structure_id@,
                }
            },
            CommandEffect::BuildShip { planet_id, ship_id } => {
                CommandEffectView::BuildShip { planet_id: planet_id@, ship_id: ship_id@ }
            },
            CommandEffect::CancelAction { planet_id } => {
                CommandEffectView::CancelAction { planet_id: planet_id@ }
            },
            CommandEffect::CreateFleet { name, ship_ids, location } => {
                CommandEffectView::CreateFleet {
                    name: name@,
                    ship_ids: ship_ids.deep_view(),
                    location: location@,
                }
            },
            CommandEffect::AddToFleet { fleet_id, ship_ids } => {
                CommandEffectView::AddToFleet { fleet_id: fleet_id@, ship_ids: ship_ids.deep_view() }
            },
            CommandEffect::RemoveFromFleet { fleet_id, ship_ids } => {
                CommandEffectView::RemoveFromFleet {
                    fleet_id: fleet_id@,
                    ship_ids: ship_ids.deep_view(),
                }
            },
            CommandEffect::DisbandFleet { fleet_id } => {
                CommandEffectView::DisbandFleet { fleet_id: fleet_id@ }
            },
            CommandEffect::MoveFleet { fleet_id, target_planet, distance } => {
                CommandEffectView::MoveFleet {
                    fleet_id: fleet_id@,
                    target_planet: target_planet@,
                    distance: *distance,
                }
            },
            CommandEffect::BombardPlanet { fleet_id, target_planet, bombardment_power } => {
                CommandEffectView::BombardPlanet {
                    fleet_id: fleet_id@,
                    target_planet: target_planet@,
                    bombardment_power: *bombardment_power,
                }
            },
            CommandEffect::CancelBombard { fleet_id } => {
                CommandEffectView::CancelBombard { fleet_id: fleet_id@ }
            },
            CommandEffect::ColonizePlanet { fleet_id, planet_id } => {
                CommandEffectView::ColonizePlanet { fleet_id: fleet_id@, planet_id: planet_id@ }
            },
            CommandEffect::EndTurn { player_name } => {
                CommandEffectView::EndTurn { player_name: player_name@ }
            },
        }
    }
}

} // verus!
