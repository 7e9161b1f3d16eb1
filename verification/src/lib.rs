//! Simulation core of a turn-based space-colonization game.
//!
//! The library advances the game one discrete turn at a time: it keeps the
//! resource ledger of every planet, drives structures through their levels,
//! schedules timed player actions and resolves fleet arrivals, bombardment
//! and colonization. Every function carries a contract that Verus proves.
//!
//! Contracts are stated over views: a record with texts in it has a twin in
//! which every text is a sequence of characters and every list a sequence,
//! and what a function does is said as a function from views to views.

// Values and helpers that everything else builds on.
pub mod resources;
pub mod text;
pub mod ids;
pub mod utils;
pub mod chance;

// The tables of ship types and structure kinds.
pub mod ship_config;
pub mod structure_config;

// The records of a game.
pub mod ship;
pub mod fleet;
pub mod pending_action;
pub mod structure;
pub mod planet;
pub mod player;
pub mod map;
pub mod drawing;
pub mod game_state;

// What commands do to a game, and how a round closes.
pub mod combat;
pub mod effects;
pub mod fleet_effects;
pub mod war_effects;
pub mod round;
pub mod arrival;
pub mod completion;
pub mod game;
pub mod laws;

// Reading commands and checking them against a game.
pub mod commands;
pub mod tokens;

// Setting a game up.
pub mod names;
pub mod map_generator;
pub mod lanes;
pub mod setup;
pub mod game_configuration;

// Buildings with a life of their own, and a plain register of players and planets.
pub mod building_config;
pub mod building;
pub mod building_registry;
pub mod roster;
pub mod console;
