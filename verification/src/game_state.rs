//! The aggregate that owns every mutable entity of a game.
use vstd::prelude::*;
use vstd::string::*;
use std::collections::VecDeque;
use crate::ids::{distinct, find_by_id, index_in, lemma_index_in};
use crate::map::{StarMap, StarMapView, lemma_planet_idents};
use crate::planet::{Planet, PlanetView, planet_ids};
use crate::player::{
    Player,
    PlayerView,
    fleet_of,
    lemma_distinct_push,
    lemma_fleet_list_idents,
    lemma_ship_list_idents,
    player_ids,
    ship_of,
};
use crate::resources::sat_add;
use crate::ship::ShipView;
use crate::ship_config::{ShipConfig, ShipConfigError, ShipDefinitionView, lookup_ship};
use crate::structure_config::{StructureConfig, StructureConfigError, StructureDefinitionView};
use crate::text::owned;

verus! {

/// Why the aggregate refuses a new member.
#[derive(Debug)]
pub enum GameStateError {
    /// A player with the same identifier is present; carries the newcomer's name.
    PlayerAlreadyExists(String),
    /// A planet with the same identifier is present; carries the newcomer's name.
    PlanetAlreadyExists(String),
    StructureConfigError(StructureConfigError),
    ShipConfigError(ShipConfigError),
}

/// How a refusal reads in reports.
pub open spec fn already_present_text(kind: Seq<char>, name: Seq<char>) -> Seq<char> {
    kind + name + " is already present"@
}

/// How an error of the aggregate reads in reports.
pub open spec fn game_state_error_text(e: GameStateError) -> Seq<char> {
    match e {
        GameStateError::PlayerAlreadyExists(name) => already_present_text("Player "@, name@),
        GameStateError::PlanetAlreadyExists(name) => already_present_text("Planet "@, name@),
        GameStateError::StructureConfigError(inner) => {
            crate::structure_config::structure_config_error_text(inner.deep_view())
        },
        GameStateError::ShipConfigError(inner) => crate::ship_config::ship_config_error_text(
            inner.deep_view(),
        ),
    }
}

/// The identifiers in a rotation, front first.
pub open spec fn order_view(order: VecDeque<String>) -> Seq<Seq<char>> {
    Seq::new(order@.len(), |i: int| order@[i]@)
}

/// Everything that a running game consists of.
#[derive(Debug)]
pub struct GameState {
    pub players: Vec<Player>,
    /// The rotation of the players; the front one acts.
    pub players_order: VecDeque<String>,
    pub map: StarMap,
    pub turn: u32,
    /// How many players still have to act before the round closes.
    pub players_remaining_this_turn: usize,
    pub structure_config: StructureConfig,
    pub ship_config: ShipConfig,
}

/// What a [`GameState`] holds, with every text as its sequence of characters.
pub struct GameStateView {
    pub players: Seq<PlayerView>,
    pub players_order: Seq<Seq<char>>,
    pub map: StarMapView,
    pub turn: u32,
    pub players_remaining_this_turn: usize,
    pub structure_config: Seq<StructureDefinitionView>,
    pub ship_config: Seq<ShipDefinitionView>,
}

impl DeepView for GameState {
    type V = GameStateView;

    open spec fn deep_view(&self) -> GameStateView {
        GameStateView {
            players: self.players.deep_view(),
            players_order: order_view(self.players_order),
            map: self.map.deep_view(),
            turn: self.turn,
            players_remaining_this_turn: self.players_remaining_this_turn,
            structure_config: self.structure_config.deep_view(),
            ship_config: self.ship_config.deep_view(),
        }
    }
}

/// The identifiers of the records are the identifiers of their views.
pub proof fn lemma_player_idents(players: Vec<Player>)
    ensures
        crate::ids::idents(players@) == player_ids(players.deep_view()),
{
    assert(crate::ids::idents(players@) =~= player_ids(players.deep_view()));
}

/// What the first `n` members of a fleet bombard with together, clamped at
/// the largest `u32`. A member that does not exist, or whose type is
/// unknown, adds nothing.
pub open spec fn bombardment_sum(
    defs: Seq<ShipDefinitionView>,
    ships: Seq<ShipView>,
    members: Seq<Seq<char>>,
    n: int,
) -> u32
    decreases n,
{
    if n <= 0 {
        0
    } else {
        let rest = bombardment_sum(defs, ships, members, n - 1);
        match ship_of(ships, members[n - 1]) {
            None => rest,
            Some(s) => match lookup_ship(defs, s.ship_type) {
                None => rest,
                Some(d) => sat_add(rest, d.bombardment),
            },
        }
    }
}

/// The bombardment power of the fleet `fleet` of a player: nothing where
/// the player has no such fleet.
pub open spec fn fleet_power(p: PlayerView, fleet: Seq<char>, defs: Seq<ShipDefinitionView>) -> u32 {
    match fleet_of(p.fleets, fleet) {
        None => 0,
        Some(f) => bombardment_sum(defs, p.ships, f.ships, f.ships.len() as int),
    }
}

impl GameStateView {
    /// The position of the player `id`, or `-1`.
    pub open spec fn player_index(self, id: Seq<char>) -> int {
        index_in(player_ids(self.players), id)
    }

    /// The position of the planet `id`, or `-1`.
    pub open spec fn planet_index(self, id: Seq<char>) -> int {
        index_in(planet_ids(self.map.planets), id)
    }

    /// The position of the player whose turn it is, or `-1` where the
    /// rotation is empty or names nobody.
    pub open spec fn acting(self) -> int {
        if self.players_order.len() == 0 {
            -1
        } else {
            self.player_index(self.players_order[0])
        }
    }

    /// The state with the `i`-th player replaced.
    pub open spec fn with_player(self, i: int, p: PlayerView) -> GameStateView {
        GameStateView { players: self.players.update(i, p), ..self }
    }

    /// The state with the `i`-th planet replaced.
    pub open spec fn with_planet(self, i: int, p: PlanetView) -> GameStateView {
        GameStateView {
            map: StarMapView { planets: self.map.planets.update(i, p), ..self.map },
            ..self
        }
    }

    /// The bombardment power of the fleet `fleet` of the player `player`:
    /// nothing where either does not exist.
    pub open spec fn fleet_bombardment(self, player: Seq<char>, fleet: Seq<char>) -> u32 {
        let pi = self.player_index(player);
        if pi < 0 {
            0
        } else {
            fleet_power(self.players[pi], fleet, self.ship_config)
        }
    }

    /// Players and planets carry distinct identifiers, and every player is
    /// well formed.
    pub open spec fn wf(self) -> bool {
        &&& distinct(player_ids(self.players))
        &&& distinct(planet_ids(self.map.planets))
        &&& forall|i: int| 0 <= i < self.players.len() ==> (#[trigger] self.players[i]).wf()
    }
}

impl GameStateError {
    /// The error as one line of text.
    pub fn message(&self) -> (s: String)
        ensures
            s@ == game_state_error_text(*self),
    {
        match self {
            GameStateError::PlayerAlreadyExists(name) => {
                let mut s = owned("Player ");
                s.append(name.as_str());
                s.append(" is already present");
                s
            },
            GameStateError::PlanetAlreadyExists(name) => {
                let mut s = owned("Planet ");
                s.append(name.as_str());
                s.append(" is already present");
                s
            },
            GameStateError::StructureConfigError(e) => e.message(),
            GameStateError::ShipConfigError(e) => e.message(),
        }
    }
}

impl GameState {
    /// A game at its first turn, in which every player of the rotation has still to act.
    pub fn new(
        players: Vec<Player>,
        players_order: VecDeque<String>,
        map: StarMap,
        structure_config: StructureConfig,
        ship_config: ShipConfig,
    ) -> (r: Result<Self, GameStateError>)
        ensures
            r.is_ok(),
            r.unwrap().deep_view() == (GameStateView {
                players: players.deep_view(),
                players_order: order_view(players_order),
                map: map.deep_view(),
                turn: 1,
                players_remaining_this_turn: players_order@.len() as usize,
                structure_config: structure_config.deep_view(),
                ship_config: ship_config.deep_view(),
            }),
    {
        let player_count = players_order.len();
        Ok(
            GameState {
                players,
                players_order,
                map,
                turn: 1,
                players_remaining_this_turn: player_count,
                structure_config,
                ship_config,
            },
        )
    }

    /// The identifier of the player whose turn it is.
    pub fn current_player(&self) -> (r: &String)
        requires
            self.players_order@.len() > 0,
        ensures
            r@ == self.deep_view().players_order[0],
    {
        &self.players_order[0]
    }

    /// The position of the player `id`.
    pub fn player_index(&self, id: &String) -> (r: Option<usize>)
        ensures
            match r {
                Some(i) => i < self.players.len() && self.deep_view().player_index(id@) == i,
                None => self.deep_view().player_index(id@) == -1,
            },
    {
        proof {
            lemma_player_idents(self.players);
        }
        find_by_id(&self.players, id)
    }

    /// The position of the planet `id`.
    pub fn planet_index(&self, id: &String) -> (r: Option<usize>)
        ensures
            match r {
                Some(i) => i < self.map.planets.len() && self.deep_view().planet_index(id@) == i,
                None => self.deep_view().planet_index(id@) == -1,
            },
    {
        proof {
            lemma_planet_idents(self.map.planets);
        }
        find_by_id(&self.map.planets, id)
    }

    /// The position of the player whose turn it is.
    pub fn acting_index(&self) -> (r: Option<usize>)
        ensures
            match r {
                Some(i) => i < self.players.len() && self.deep_view().acting() == i,
                None => self.deep_view().acting() == -1,
            },
    {
        if self.players_order.len() == 0 {
            return None;
        }
        self.player_index(&self.players_order[0])
    }

    /// Admits a player unless one with the same identifier is present.
    pub fn add_player(&mut self, player: Player) -> (r: Result<(), GameStateError>)
        ensures
            match r {
                Ok(_) => old(self).deep_view().player_index(player.id@) == -1 && final(self).deep_view() == (GameStateView {
                    players: old(self).deep_view().players.push(player.deep_view()),
                    ..old(self).deep_view()
                }),
                Err(e) => old(self).deep_view().player_index(player.id@) >= 0 && final(self).deep_view() == old(self).deep_view() && match e {
                    GameStateError::PlayerAlreadyExists(name) => name@ == player.name@,
                    _ => false,
                },
            },
            old(self).deep_view().wf() && player.deep_view().wf() ==> final(self).deep_view().wf(),
    {
        let ghost before = self.players.deep_view();
        proof {
            lemma_index_in(player_ids(before), player.id@);
        }
        match self.player_index(&player.id) {
            None => {
                self.players.push(player);
                proof {
                    assert(self.players.deep_view() =~= before.push(player.deep_view()));
                    assert(player_ids(self.players.deep_view()) =~= player_ids(before).push(
                        player.id@,
                    ));
                    if distinct(player_ids(before)) {
                        lemma_distinct_push(player_ids(before), player.id@);
                    }
                }
                Ok(())
            },
            Some(_) => Err(GameStateError::PlayerAlreadyExists(player.name)),
        }
    }

    /// Puts a planet on the map unless one with the same identifier is there.
    pub fn add_planet(&mut self, planet: Planet) -> (r: Result<(), GameStateError>)
        ensures
            match r {
                Ok(_) => old(self).deep_view().planet_index(planet.id@) == -1 && final(self).deep_view() == (GameStateView {
                    map: StarMapView {
                        planets: old(self).deep_view().map.planets.push(planet.deep_view()),
                        ..old(self).deep_view().map
                    },
                    ..old(self).deep_view()
                }),
                Err(e) => old(self).deep_view().planet_index(planet.id@) >= 0 && final(self).deep_view() == old(self).deep_view() && match e {
                    GameStateError::PlanetAlreadyExists(name) => name@ == planet.name@,
                    _ => false,
                },
            },
            old(self).deep_view().wf() ==> final(self).deep_view().wf(),
    {
        let ghost before = self.map.planets.deep_view();
        proof {
            lemma_index_in(planet_ids(before), planet.id@);
        }
        match self.planet_index(&planet.id) {
            None => {
                self.map.planets.push(planet);
                proof {
                    assert(self.map.planets.deep_view() =~= before.push(planet.deep_view()));
                    assert(planet_ids(self.map.planets.deep_view()) =~= planet_ids(before).push(
                        planet.id@,
                    ));
                    if distinct(planet_ids(before)) {
                        lemma_distinct_push(planet_ids(before), planet.id@);
                    }
                }
                Ok(())
            },
            Some(_) => Err(GameStateError::PlanetAlreadyExists(planet.name)),
        }
    }

    /// The bombardment power of a fleet: the sum over its ships, clamped at
    /// the largest `u32`; nothing where the player or the fleet does not exist.
    pub fn calculate_fleet_bombardment(&self, player_id: &String, fleet_id: &String) -> (r: u32)
        ensures
            r == self.deep_view().fleet_bombardment(player_id@, fleet_id@),
    {
        match self.player_index(player_id) {
            Some(pi) => {
                assert(self.players.deep_view()[pi as int] == self.players[pi as int].deep_view());
                self.players[pi].fleet_power(fleet_id, &self.ship_config)
            },
            None => 0,
        }
    }
}

impl Player {
    /// The bombardment power of one of the player's fleets.
    #[verifier::loop_isolation(false)]
    pub fn fleet_power(&self, fleet_id: &String, ship_config: &ShipConfig) -> (r: u32)
        ensures
            r == fleet_power(self.deep_view(), fleet_id@, ship_config.deep_view()),
    {
        proof {
            lemma_fleet_list_idents(self.fleets);
            lemma_ship_list_idents(self.ships);
        }
        let fleet = match find_by_id(&self.fleets, fleet_id) {
            Some(fi) => &self.fleets[fi],
            None => {
                return 0;
            },
        };
        let ghost defs = ship_config.deep_view();
        let ghost ships = self.ships.deep_view();
        let ghost members = fleet.ships.deep_view();
        let mut total: u32 = 0;
        let mut i: usize = 0;
        while i < fleet.ships.len()
            invariant
                i <= fleet.ships.len(),
                total == bombardment_sum(defs, ships, members, i as int),
            decreases fleet.ships.len() - i,
        {
            assert(members[i as int] == fleet.ships[i as int]@);
            match find_by_id(&self.ships, &fleet.ships[i]) {
                None => {},
                Some(k) => {
                    assert(ships[k as int] == self.ships[k as int].deep_view());
                    match ship_config.get(&self.ships[k].ship_type) {
                        None => {},
                        Some(def) => {
                            total = total.saturating_add(def.bombardment);
                        },
                    }
                },
            }
            i += 1;
        }
        total
    }
}

} // verus!
