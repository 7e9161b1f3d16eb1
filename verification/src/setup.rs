//! Setting a game up: players, their order and their first planets.
use vstd::prelude::*;
use vstd::string::*;
use std::collections::VecDeque;
use crate::chance::{distinct_picks, random_below, shuffle};
use crate::game::Game;
use crate::game_state::{
    GameState,
    GameStateError,
    game_state_error_text,
    lemma_player_idents,
    order_view,
};
use crate::ids::{distinct, find_by_id, index_in, lemma_index_in};
use crate::map::{MapSize, StarMap};
use crate::map_generator::MapError;
use crate::names::{NameGenerator, extends};
use crate::planet::{
    PlanetError,
    PlanetView,
    capital_buildable,
    capital_kind,
    planet_error_text,
    planet_ids,
};
use crate::player::{Player, PlayerView, lemma_distinct_push, player_ids};
use crate::ship_config::ShipConfig;
use crate::structure_config::{StructureConfig, StructureDefinitionView};
use crate::utils::{name_id, name_to_id};

verus! {

/// Why a game cannot be set up or carried on.
#[derive(Debug)]
pub enum GameError {
    MapError(MapError),
    GameStateError(GameStateError),
    PlanetError(PlanetError),
}

/// How a set-up error reads in reports.
pub open spec fn game_error_text(e: GameError) -> Seq<char> {
    match e {
        GameError::MapError(_) => crate::names::exhausted_text(),
        GameError::GameStateError(inner) => game_state_error_text(inner),
        GameError::PlanetError(inner) => planet_error_text(inner.deep_view()),
    }
}

impl GameError {
    /// The error as one line of text.
    pub fn message(&self) -> (s: String)
        ensures
            s@ == game_error_text(*self),
    {
        match self {
            GameError::MapError(e) => e.message(),
            GameError::GameStateError(e) => e.message(),
            GameError::PlanetError(e) => e.message(),
        }
    }
}

/// The players that a list of names stands for, after the first `n` names
/// were taken: a name stands for a player whose identifier is made from it,
/// and a later name takes the place of an earlier one with the same identifier.
pub open spec fn enrolled(names: Seq<Seq<char>>, n: int) -> Seq<PlayerView>
    decreases n,
{
    if n <= 0 {
        Seq::empty()
    } else {
        let rest = enrolled(names, n - 1);
        let p = PlayerView {
            id: name_id(names[n - 1]),
            name: names[n - 1],
            planets: Seq::empty(),
            pending_actions: Seq::empty(),
            ships: Seq::empty(),
            fleets: Seq::empty(),
            ship_id_counters: Seq::empty(),
        };
        let i = index_in(player_ids(rest), p.id);
        if i >= 0 {
            rest.update(i, p)
        } else {
            rest.push(p)
        }
    }
}

/// Whether the players differ from `before` only in that the `i`-th lists
/// the planet that `picks[i]` names, behind the planets listed before.
pub open spec fn homes_listed(
    before: Seq<PlayerView>,
    after: Seq<PlayerView>,
    planets: Seq<PlanetView>,
    picks: Seq<int>,
) -> bool {
    after.len() == before.len() && forall|i: int|
        0 <= i < picks.len() && i < before.len() ==> #[trigger] after[i] == (PlayerView {
            planets: before[i].planets.push(planets[picks[i]].id),
            ..before[i]
        })
}

/// The planet once it is the first planet of `owner`: the owner's, with
/// its capital and a full stock.
pub open spec fn settled(p: PlanetView, owner: Seq<char>, defs: Seq<StructureDefinitionView>) -> PlanetView {
    (PlanetView { owner: Some(owner), ..p }).colonized(defs).0
}

/// Whether the planets differ from `before` only in that the planet that
/// `picks[i]` names is settled by the `i`-th player.
pub open spec fn homes_settled(
    before: Seq<PlanetView>,
    after: Seq<PlanetView>,
    owners: Seq<PlayerView>,
    picks: Seq<int>,
    defs: Seq<StructureDefinitionView>,
) -> bool {
    &&& after.len() == before.len()
    &&& forall|i: int|
        0 <= i < picks.len() ==> after[#[trigger] picks[i]] == settled(
            before[picks[i]],
            owners[i].id,
            defs,
        )
    &&& forall|q: int|
        0 <= q < before.len() && !picks.contains(q) ==> #[trigger] after[q] == before[q]
}

/// Whether set-up stopped at the planet at `qi`: the planet was handed to
/// `owner`, no capital could be installed on it, and `e` says why.
pub open spec fn stopped_at(
    before: Seq<PlanetView>,
    after: Seq<PlanetView>,
    qi: int,
    owner: Seq<char>,
    defs: Seq<StructureDefinitionView>,
    e: GameError,
) -> bool {
    &&& 0 <= qi < before.len()
    &&& after == before.update(qi, PlanetView { owner: Some(owner), ..before[qi] })
    &&& match e {
        GameError::PlanetError(inner) => Some(inner.deep_view()) == before[qi].build_completed(
            capital_kind(),
            defs,
        ).1,
        _ => false,
    }
}

impl Game {
    /// Grows the map of a new game.
    pub fn generate_map(map_size: MapSize, name_generator: &mut NameGenerator) -> (r: Result<
        StarMap,
        GameError,
    >)
        requires
            old(name_generator).name_parts.prefixes.len() > 0,
            old(name_generator).name_parts.suffixes.len() > 0,
        ensures
            final(name_generator).name_parts == old(name_generator).name_parts,
            extends(
                final(name_generator).used_names.deep_view(),
                old(name_generator).used_names.deep_view(),
            ),
            match r {
                Ok(map) => map.deep_view().charted() && map.size == map_size && 1
                    <= map.planets.len() <= map_size.planets() && final(name_generator).used_names.len() == old(name_generator).used_names.len() + map_size.planets()
                    && crate::lanes::grown_with(
                    map.deep_view().planets,
                    final(name_generator).used_names.deep_view().skip(
                        old(name_generator).used_names.len() as int,
                    ),
                ),
                Err(e) => e == GameError::MapError(
                    MapError::PlanetNameGeneratorError(
                        crate::names::NameGeneratorError::AllVariantsExhausted,
                    ),
                ) && final(name_generator).can_run_out(),
            },
            old(name_generator).used_names.len() + map_size.planets() <= 11 ==> r.is_ok(),
    {
        match StarMap::generate(map_size, name_generator) {
            Ok(map) => Ok(map),
            Err(e) => Err(GameError::MapError(e)),
        }
    }

    /// Gives every player a first planet of their own, picked at random
    /// among the planets that nobody was given before, and colonizes it.
    /// It fails, at the first player, exactly where there is a player and
    /// the table does not let a capital be installed; the planet picked for
    /// that player is then the player's, and nothing else has changed.
    #[verifier::loop_isolation(false)]
    pub fn assign_starting_planets(
        map: &mut StarMap,
        players: &mut Vec<Player>,
        structure_config: &StructureConfig,
    ) -> (r: Result<(), GameError>)
        requires
            old(players).len() <= old(map).planets.len(),
        ensures
            planet_ids(final(map).deep_view().planets) == planet_ids(old(map).deep_view().planets),
            final(map).planet_positions == old(map).planet_positions,
            final(map).size == old(map).size,
            player_ids(final(players).deep_view()) == player_ids(old(players).deep_view()),
            forall|i: int|
                0 <= i < final(players).len() ==> (#[trigger] final(players).deep_view()[i]).wf()
                    == old(players).deep_view()[i].wf(),
            match r {
                Ok(_) => exists|picks: Seq<int>|
                    {
                        &&& picks.len() == old(players).len()
                        &&& distinct_picks(picks, old(map).planets.len() as int)
                        &&& #[trigger] homes_listed(
                            old(players).deep_view(),
                            final(players).deep_view(),
                            final(map).deep_view().planets,
                            picks,
                        )
                        &&& homes_settled(
                            old(map).deep_view().planets,
                            final(map).deep_view().planets,
                            old(players).deep_view(),
                            picks,
                            structure_config.deep_view(),
                        )
                        &&& forall|i: int|
                            0 <= i < picks.len() ==> (#[trigger] final(map).deep_view().planets[picks[i]]).owner == Some(
                                old(players).deep_view()[i].id,
                            )
                    },
                Err(e) => final(players).deep_view() == old(players).deep_view() && exists|qi: int|
                    #[trigger] stopped_at(
                        old(map).deep_view().planets,
                        final(map).deep_view().planets,
                        qi,
                        old(players).deep_view()[0].id,
                        structure_config.deep_view(),
                        e,
                    ),
            },
            r.is_ok() <==> (old(players).len() == 0 || capital_buildable(
                structure_config.deep_view(),
            )),
    {
        let ghost players0 = players.deep_view();
        let ghost planets0 = map.deep_view().planets;
        let n_planets = map.planets.len();
        let mut available: Vec<usize> = Vec::new();
        let mut q: usize = 0;
        while q < n_planets
            invariant
                q <= n_planets,
                available.len() == q,
                forall|j: int| 0 <= j < q ==> available[j] == j,
            decreases n_planets - q,
        {
            available.push(q);
            q += 1;
        }
        let ghost mut picks: Seq<int> = Seq::empty();
        let n = players.len();
        let mut i: usize = 0;
        while i < n
            invariant
                i <= n,
                n == players.len(),
                n <= n_planets,
                n_planets == map.planets.len(),
                available.len() == n_planets - i,
                picks.len() == i,
                i > 0 ==> capital_buildable(structure_config.deep_view()),
                i == 0 ==> map.deep_view().planets == planets0,
                homes_settled(
                    planets0,
                    map.deep_view().planets,
                    players0,
                    picks,
                    structure_config.deep_view(),
                ),
                distinct_picks(picks, n_planets as int),
                forall|j: int| 0 <= j < available.len() ==> 0 <= #[trigger] available[j] < n_planets,
                forall|j: int, k: int|
                    0 <= j < k < available.len() ==> available[j] != available[k],
                forall|j: int, k: int|
                    0 <= j < available.len() && 0 <= k < picks.len() ==> available[j] != picks[k],
                planet_ids(map.deep_view().planets) == planet_ids(planets0),
                map.planet_positions == old(map).planet_positions,
                map.size == old(map).size,
                player_ids(players.deep_view()) == player_ids(players0),
                forall|j: int|
                    0 <= j < n ==> (#[trigger] players.deep_view()[j]).wf() == players0[j].wf(),
                forall|j: int| i <= j < n ==> players.deep_view()[j] == players0[j],
                forall|j: int|
                    0 <= j < i ==> #[trigger] players.deep_view()[j] == (PlayerView {
                        planets: players0[j].planets.push(planet_ids(planets0)[picks[j]]),
                        ..players0[j]
                    }),
                forall|j: int|
                    0 <= j < i ==> (#[trigger] map.deep_view().planets[picks[j]]).owner == Some(
                        players0[j].id,
                    ),
            decreases n - i,
        {
            let slot = random_below(available.len());
            let qi = available.swap_remove(slot);
            let ghost planets_now = map.deep_view().planets;
            let ghost players_now = players.deep_view();
            assert(players_now[i as int] == players[i as int].deep_view());
            assert(planets_now[qi as int] == map.planets[qi as int].deep_view());
            let owner = players[i].id.clone();
            map.planets[qi].set_owner(owner);
            let outcome = map.planets[qi].colonize(structure_config);
            proof {
                assert(map.planets.deep_view() =~= planets_now.update(
                    qi as int,
                    map.planets[qi as int].deep_view(),
                ));
                assert(planet_ids(map.deep_view().planets) =~= planet_ids(planets_now));
            }
            match outcome {
                Ok(()) => {},
                Err(e) => {
                    proof {
                        assert(players.deep_view() =~= players0);
                        assert(stopped_at(
                            planets0,
                            map.deep_view().planets,
                            qi as int,
                            players0[0].id,
                            structure_config.deep_view(),
                            GameError::PlanetError(e),
                        ));
                    }
                    return Err(GameError::PlanetError(e));
                },
            }
            let planet_id = map.planets[qi].id.clone();
            players[i].planets.push(planet_id);
            proof {
                assert(players[i as int].planets.deep_view() =~= players0[i as int].planets.push(
                    planet_ids(planets0)[qi as int],
                ));
                assert(players.deep_view() =~= players_now.update(
                    i as int,
                    PlayerView {
                        planets: players0[i as int].planets.push(planet_ids(planets0)[qi as int]),
                        ..players0[i as int]
                    },
                ));
                assert(player_ids(players.deep_view()) =~= player_ids(players0));
                let earlier = picks;
                picks = picks.push(qi as int);
                assert forall|j: int| 0 <= j < i + 1 implies (#[trigger] map.deep_view().planets[picks[j]]).owner
                    == Some(players0[j].id) by {
                    if j < i {
                        assert(planets_now[picks[j]].owner == Some(players0[j].id));
                        assert(picks[j] != qi);
                    }
                }
                let after = map.deep_view().planets;
                let defs = structure_config.deep_view();
                assert(!earlier.contains(qi as int));
                assert(planets_now[qi as int] == planets0[qi as int]);
                assert forall|j: int| 0 <= j < picks.len() implies after[#[trigger] picks[j]]
                    == settled(planets0[picks[j]], players0[j].id, defs) by {
                    if j < i {
                        assert(picks[j] == earlier[j]);
                        assert(earlier[j] != qi);
                        assert(planets_now[earlier[j]] == settled(
                            planets0[earlier[j]],
                            players0[j].id,
                            defs,
                        ));
                    }
                }
                assert forall|q: int| 0 <= q < planets0.len() && !picks.contains(q) implies #[trigger] after[q]
                    == planets0[q] by {
                    assert(picks[i as int] == qi);
                    if earlier.contains(q) {
                        let w = choose|w: int| 0 <= w < earlier.len() && earlier[w] == q;
                        assert(picks[w] == q);
                    }
                    assert(planets_now[q] == planets0[q]);
                }
            }
            i += 1;
        }
        proof {
            assert(homes_listed(players0, players.deep_view(), map.deep_view().planets, picks)) by {
                assert forall|j: int| 0 <= j < picks.len() && j < players0.len() implies #[trigger] players.deep_view()[j]
                    == (PlayerView {
                    planets: players0[j].planets.push(map.deep_view().planets[picks[j]].id),
                    ..players0[j]
                }) by {
                    assert(planet_ids(map.deep_view().planets)[picks[j]] == planet_ids(
                        planets0,
                    )[picks[j]]);
                }
            }
        }
        Ok(())
    }

    /// The players that the names stand for.
    #[verifier::loop_isolation(false)]
    pub fn enroll(player_names: &Vec<String>) -> (players: Vec<Player>)
        ensures
            players.deep_view() == enrolled(player_names.deep_view(), player_names.len() as int),
            distinct(player_ids(players.deep_view())),
            forall|i: int| 0 <= i < players.len() ==> (#[trigger] players.deep_view()[i]).wf(),
            players.len() <= player_names.len(),
            player_names.len() > 0 ==> players.len() > 0,
    {
        let ghost names = player_names.deep_view();
        let mut players: Vec<Player> = Vec::new();
        assert(players.deep_view() =~= Seq::<PlayerView>::empty());
        let mut k: usize = 0;
        while k < player_names.len()
            invariant
                k <= player_names.len(),
                players.deep_view() == enrolled(names, k as int),
                distinct(player_ids(players.deep_view())),
                forall|i: int| 0 <= i < players.len() ==> (#[trigger] players.deep_view()[i]).wf(),
                players.len() <= k,
                k > 0 ==> players.len() > 0,
            decreases player_names.len() - k,
        {
            assert(names[k as int] == player_names[k as int]@);
            let id = name_to_id(player_names[k].as_str());
            let player = Player::new(id, player_names[k].clone());
            let ghost before = players.deep_view();
            let ghost pv = player.deep_view();
            proof {
                lemma_player_idents(players);
                lemma_index_in(player_ids(before), pv.id);
            }
            match find_by_id(&players, &player.id) {
                Some(i) => {
                    players[i] = player;
                    assert(players.deep_view() =~= before.update(i as int, pv));
                    assert(player_ids(players.deep_view()) =~= player_ids(before));
                    assert forall|j: int| 0 <= j < players.len() implies (
                    #[trigger] players.deep_view()[j]).wf() by {
                        if j != i {
                            assert(before[j].wf());
                        }
                    }
                },
                None => {
                    players.push(player);
                    assert(players.deep_view() =~= before.push(pv));
                    proof {
                        assert(player_ids(players.deep_view()) =~= player_ids(before).push(pv.id));
                        lemma_distinct_push(player_ids(before), pv.id);
                        assert forall|j: int| 0 <= j < players.len() implies (
                        #[trigger] players.deep_view()[j]).wf() by {
                            if j < before.len() {
                                assert(before[j].wf());
                            }
                        }
                    }
                },
            }
            k += 1;
        }
        players
    }

    /// The identifiers of the players, in some order.
    #[verifier::loop_isolation(false)]
    pub fn draw_order(players: &Vec<Player>) -> (order: VecDeque<String>)
        ensures
            order_view(order).to_multiset() == player_ids(players.deep_view()).to_multiset(),
            order@.len() == players.len(),
    {
        let ghost ids = player_ids(players.deep_view());
        let mut list: Vec<String> = Vec::new();
        let mut i: usize = 0;
        while i < players.len()
            invariant
                i <= players.len(),
                list.len() == i,
                forall|j: int| 0 <= j < i ==> list[j]@ == ids[j],
            decreases players.len() - i,
        {
            assert(ids[i as int] == players[i as int].id@);
            list.push(players[i].id.clone());
            i += 1;
        }
        assert(list.deep_view() =~= ids);
        shuffle(&mut list);
        let ghost mixed = list.deep_view();
        proof {
            mixed.to_multiset_ensures();
            ids.to_multiset_ensures();
        }
        let mut order: VecDeque<String> = VecDeque::new();
        let mut k: usize = 0;
        while k < list.len()
            invariant
                k <= list.len(),
                list.deep_view() == mixed,
                order@.len() == k,
                forall|j: int| 0 <= j < k ==> order@[j]@ == mixed[j],
            decreases list.len() - k,
        {
            assert(mixed[k as int] == list[k as int]@);
            order.push_back(list[k].clone());
            k += 1;
        }
        assert(order_view(order) =~= mixed);
        order
    }

    /// Sets a game up: a player per name, a random order of play, and for
    /// every player a first planet, colonized and theirs. It fails exactly
    /// where there is a player and the table does not let a capital be installed.
    pub fn assemble(
        player_names: &Vec<String>,
        map: StarMap,
        structure_config: StructureConfig,
        ship_config: ShipConfig,
    ) -> (r: Result<Self, GameError>)
        requires
            player_names.len() <= map.planets.len(),
            distinct(planet_ids(map.deep_view().planets)),
        ensures
            match r {
                Ok(game) => {
                    let g = game.game_state.deep_view();
                    &&& g.wf()
                    &&& g.turn == 1
                    &&& g.players_remaining_this_turn == g.players.len()
                    &&& player_ids(g.players) == player_ids(
                        enrolled(player_names.deep_view(), player_names.len() as int),
                    )
                    &&& exists|picks: Seq<int>|
                        {
                            &&& picks.len() == g.players.len()
                            &&& distinct_picks(picks, g.map.planets.len() as int)
                            &&& #[trigger] homes_listed(
                                enrolled(player_names.deep_view(), player_names.len() as int),
                                g.players,
                                g.map.planets,
                                picks,
                            )
                            &&& homes_settled(
                                map.deep_view().planets,
                                g.map.planets,
                                g.players,
                                picks,
                                structure_config.deep_view(),
                            )
                            &&& forall|i: int|
                                0 <= i < picks.len() ==> (#[trigger] g.map.planets[picks[i]]).owner
                                    == Some(g.players[i].id)
                        }
                    &&& g.players_order.to_multiset() == player_ids(g.players).to_multiset()
                    &&& planet_ids(g.map.planets) == planet_ids(map.deep_view().planets)
                    &&& g.structure_config == structure_config.deep_view()
                    &&& g.ship_config == ship_config.deep_view()
                },
                Err(e) => e is PlanetError,
            },
            r.is_ok() <==> (player_names.len() == 0 || capital_buildable(
                structure_config.deep_view(),
            )),
    {
        let mut players = Self::enroll(player_names);
        let players_order = Self::draw_order(&players);
        let mut map = map;
        let ghost enrolled_players = players.deep_view();
        let ghost n_planets = map.planets.len() as int;
        let ghost ids_before = planet_ids(map.deep_view().planets);
        let ghost planets_before = map.deep_view().planets;
        match Self::assign_starting_planets(&mut map, &mut players, &structure_config) {
            Ok(()) => {},
            Err(e) => {
                return Err(e);
            },
        }
        let ghost now = players.deep_view();
        let ghost planets = map.deep_view().planets;
        let ghost mut homes: Seq<int> = Seq::empty();
        proof {
            assert forall|i: int| 0 <= i < players.len() implies (#[trigger] players.deep_view()[i]).wf() by {
                assert(enrolled_players[i].wf());
            }
            let picks = choose|picks: Seq<int>|
                {
                    &&& picks.len() == enrolled_players.len()
                    &&& distinct_picks(picks, n_planets)
                    &&& #[trigger] homes_listed(enrolled_players, now, planets, picks)
                    &&& homes_settled(
                        planets_before,
                        planets,
                        enrolled_players,
                        picks,
                        structure_config.deep_view(),
                    )
                    &&& forall|i: int|
                        0 <= i < picks.len() ==> (#[trigger] planets[picks[i]]).owner == Some(
                            enrolled_players[i].id,
                        )
                };
            assert(planet_ids(planets).len() == ids_before.len());
            assert(planets.len() == n_planets);
            assert forall|i: int| 0 <= i < picks.len() implies (#[trigger] planets[picks[i]]).owner
                == Some(now[i].id) by {
                assert(player_ids(now)[i] == player_ids(enrolled_players)[i]);
            }
            assert forall|i: int| 0 <= i < picks.len() implies planets[#[trigger] picks[i]]
                == settled(planets_before[picks[i]], now[i].id, structure_config.deep_view()) by {
                assert(player_ids(now)[i] == player_ids(enrolled_players)[i]);
            }
            assert(homes_settled(
                planets_before,
                planets,
                now,
                picks,
                structure_config.deep_view(),
            ));
            homes = picks;
        }
        match GameState::new(players, players_order, map, structure_config, ship_config) {
            Ok(game_state) => {
                proof {
                    let g = game_state.deep_view();
                    assert(g.players == now);
                    assert(g.map.planets == planets);
                    assert(homes.len() == g.players.len());
                    assert(homes_listed(enrolled_players, g.players, g.map.planets, homes));
                    assert(homes_settled(
                        planets_before,
                        g.map.planets,
                        g.players,
                        homes,
                        g.structure_config,
                    ));
                }
                Ok(Game { game_state })
            },
            Err(e) => Err(GameError::GameStateError(e)),
        }
    }
}

} // verus!
