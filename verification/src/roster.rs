//! A plain register of players and planets by number, with a turn counter.
use vstd::prelude::*;
use vstd::string::*;
use std::collections::HashMap;
use crate::text::{decimal, owned, push_decimal};

verus! {

/// The number of a player.
#[derive(Clone, Copy, Debug, PartialEq, Eq, Hash, Structural)]
pub struct PlayerId(pub u32);

/// The number of a planet.
#[derive(Clone, Copy, Debug, PartialEq, Eq, Hash, Structural)]
pub struct PlanetId(pub u32);

impl PlayerId {
    /// The number as a label: `Player7`.
    pub fn label(&self) -> (s: String)
        ensures
            s@ == "Player"@ + decimal(self.0 as nat),
    {
        let mut s = owned("Player");
        push_decimal(&mut s, self.0 as u128);
        s
    }
}

impl PlanetId {
    /// The number as a label: `Planet7`.
    pub fn label(&self) -> (s: String)
        ensures
            s@ == "Planet"@ + decimal(self.0 as nat),
    {
        let mut s = owned("Planet");
        push_decimal(&mut s, self.0 as u128);
        s
    }
}

/// A registered player.
#[derive(Debug)]
pub struct Player {
    pub id: PlayerId,
    pub name: String,
}

impl Player {
    pub fn new(id: PlayerId, name: String) -> (r: Self)
        ensures
            r.id == id,
            r.name == name,
    {
        Self { id, name }
    }
}

/// A registered planet.
#[derive(Debug)]
pub struct Planet {
    pub id: PlanetId,
    pub owner_id: PlayerId,
    pub name: String,
}

/// What a registered action is about.
#[derive(Clone, Copy, Debug, PartialEq, Eq, Structural)]
pub enum ActionType {
    Build,
    Research,
    Explore,
}

/// An action that takes some turns.
#[derive(Debug)]
pub struct PendingAction {
    pub action_type: ActionType,
    pub target: String,
    pub turns_remaining: u32,
    pub player_id: PlayerId,
}

/// The register.
pub struct GameState {
    pub players: HashMap<u32, Player>,
    pub planets: HashMap<u32, Planet>,
    pub pending_actions: Vec<PendingAction>,
    pub current_turn: u32,
}

/// Something that acts on the register once per turn.
pub trait TurnSystem {
    fn process(&mut self, state: &mut GameState);
}

impl GameState {
    /// An empty register at turn 0.
    pub fn new() -> (r: Self)
        ensures
            r.players@ == Map::<u32, Player>::empty(),
            r.planets@ == Map::<u32, Planet>::empty(),
            r.pending_actions@ == Seq::<PendingAction>::empty(),
            r.current_turn == 0,
    {
        Self {
            players: HashMap::new(),
            planets: HashMap::new(),
            pending_actions: Vec::new(),
            current_turn: 0,
        }
    }

    pub fn get_current_turn(&self) -> (r: u32)
        ensures
            r == self.current_turn,
    {
        self.current_turn
    }

    /// The player with the number `player_id`, where one is registered.
    pub fn get_player(&self, player_id: PlayerId) -> (r: Option<&Player>)
        ensures
            match r {
                Some(p) => self.players@.contains_key(player_id.0) && *p == self.players@[player_id.0],
                None => !self.players@.contains_key(player_id.0),
            },
    {
        self.players.get(&player_id.0)
    }

    /// The planet with the number `planet_id`, where one is registered.
    pub fn get_planet(&self, planet_id: PlanetId) -> (r: Option<&Planet>)
        ensures
            match r {
                Some(p) => self.planets@.contains_key(planet_id.0) && *p == self.planets@[planet_id.0],
                None => !self.planets@.contains_key(planet_id.0),
            },
    {
        self.planets.get(&planet_id.0)
    }

    /// Registers a player, in place of one with the same number.
    pub fn add_player(&mut self, player: Player)
        ensures
            final(self).players@ == old(self).players@.insert(player.id.0, player),
            final(self).planets == old(self).planets,
            final(self).pending_actions == old(self).pending_actions,
            final(self).current_turn == old(self).current_turn,
    {
        self.players.insert(player.id.0, player);
    }

    /// Registers a planet, in place of one with the same number.
    pub fn add_planet(&mut self, planet: Planet)
        ensures
            final(self).planets@ == old(self).planets@.insert(planet.id.0, planet),
            final(self).players == old(self).players,
            final(self).pending_actions == old(self).pending_actions,
            final(self).current_turn == old(self).current_turn,
    {
        self.planets.insert(planet.id.0, planet);
    }

    /// Moves on to the next turn.
    pub fn next_turn(&mut self)
        requires
            old(self).current_turn < u32::MAX,
        ensures
            final(self).current_turn == old(self).current_turn + 1,
            final(self).players == old(self).players,
            final(self).planets == old(self).planets,
            final(self).pending_actions == old(self).pending_actions,
    {
        self.current_turn += 1;
    }
}

} // verus!
