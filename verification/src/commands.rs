//! Player commands: reading them and checking them against the game.
pub mod command;
pub mod parser;
pub mod build_structure;
pub mod upgrade;
pub mod build_ship;
pub mod cancel;
pub mod status;
pub mod fleet;
pub mod checks;
pub mod end_turn;
pub mod help;
pub mod fleets;
pub mod ships;
pub mod map;
