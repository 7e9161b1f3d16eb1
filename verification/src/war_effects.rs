//! What the movement, bombardment and colonization commands do.
use vstd::prelude::*;
use vstd::string::*;
use crate::combat::{fleet_roster, fleet_ship_types};
use crate::effects::{Outcome, Step, busy_text, effect_matches, lemma_with_planet_wf, no_planet_text, no_player_text, one_line};
use crate::fleet::{with_member, without_member};
use crate::game_state::{GameState, GameStateView};
use crate::ids::{contains_text, distinct, find_by_id, lemma_index_in};
use crate::map::StarMapView;
use crate::pending_action::{
    ActionType,
    ActionTypeView,
    PendingAction,
    PendingActionView,
    UNBOUNDED_COOLDOWN,
    action_planets,
};
use crate::planet::{PlanetView, planet_error_text};
use crate::player::{Player, PlayerView, first_bombardment_by, fleet_of, lemma_distinct_push, lemma_distinct_remove, lemma_fleet_list_idents, player_ids};
use crate::resources::Resources;
use crate::text::{decimal, owned, push_decimal};

verus! {

/// The ship type that can found a colony.
pub open spec fn colony_ship_kind() -> Seq<char> {
    "ark"@
}

/// The wording of a line shown to the player.
pub open spec fn no_fleet_text() -> Seq<char> {
    "Fleet must exist (validated by command)"@
}

/// The wording of a line shown to the player.
pub open spec fn not_bombarding_text() -> Seq<char> {
    "Fleet is not bombarding"@
}

/// The wording of a line shown to the player.
pub open spec fn no_ark_text() -> Seq<char> {
    "fleet requires an ark ship to colonize"@
}

/// The wording of a line shown to the player.
pub open spec fn already_owned_text() -> Seq<char> {
    "you already own this planet"@
}

/// The wording of a line shown to the player.
pub open spec fn shields_up_text(shield_hp: u32) -> Seq<char> {
    "planet shields must be destroyed first (current: "@ + decimal(shield_hp as nat) + " HP)"@
}

/// The wording of a line shown to the player.
pub open spec fn colonization_failed_text(reason: Seq<char>) -> Seq<char> {
    "Colonization failed: "@ + reason
}

/// The wording of a line shown to the player.
pub open spec fn departed_text(fleet: Seq<char>, target: Seq<char>, distance: u8) -> Seq<char> {
    "Fleet "@ + fleet + " departs for "@ + target + ". Arrival in "@ + decimal(distance as nat)
        + " turn(s)."@
}

/// The wording of a line shown to the player.
pub open spec fn bombardment_begun_text(fleet: Seq<char>, target: Seq<char>, power: u32) -> Seq<
    char,
> {
    "Fleet "@ + fleet + " begins bombardment of "@ + target + " ("@ + decimal(power as nat)
        + " power per round)."@
}

/// The wording of a line shown to the player.
pub open spec fn bombardment_ceased_text(fleet: Seq<char>) -> Seq<char> {
    "Fleet "@ + fleet + " ceases bombardment."@
}

/// The wording of a line shown to the player.
pub open spec fn colonized_text(planet: Seq<char>, player: Seq<char>) -> Seq<char> {
    "Planet "@ + planet + " colonized by "@ + player + "."@
}

/// The action that carries a fleet from `from` to `target` in `distance` turns.
pub open spec fn move_action(fleet: Seq<char>, from: Seq<char>, target: Seq<char>, distance: u8) -> PendingActionView {
    PendingActionView {
        action_type: ActionTypeView::MoveFleet(fleet, target),
        planet_id: from,
        cooldown_remaining: distance as u32,
        reserved_resources: Resources::nothing(),
    }
}

/// The action by which a fleet bombards `target` until its shield is gone.
pub open spec fn bombard_action(fleet: Seq<char>, target: Seq<char>) -> PendingActionView {
    PendingActionView {
        action_type: ActionTypeView::BombardPlanet(fleet, target),
        planet_id: target,
        cooldown_remaining: UNBOUNDED_COOLDOWN,
        reserved_resources: Resources::nothing(),
    }
}

/// The players after the planet `planet` passed to the `pi`-th of them: it
/// is listed with that player and with nobody else.
pub open spec fn holdings_moved(players: Seq<PlayerView>, planet: Seq<char>, pi: int) -> Seq<
    PlayerView,
> {
    Seq::new(
        players.len(),
        |j: int|
            if j == pi {
                PlayerView { planets: with_member(players[j].planets, planet), ..players[j] }
            } else {
                PlayerView { planets: without_member(players[j].planets, planet), ..players[j] }
            },
    )
}

impl GameStateView {
    /// What a `MoveFleet` effect does.
    pub open spec fn fleet_dispatched(self, fleet: Seq<char>, target: Seq<char>, distance: u8) -> Outcome {
        let pi = self.acting();
        if pi < 0 {
            Err(no_player_text())
        } else {
            let p = self.players[pi];
            match fleet_of(p.fleets, fleet) {
                None => Err(no_fleet_text()),
                Some(f) => if p.busy_at(f.location) {
                    Err(busy_text())
                } else {
                    Ok(
                        Step {
                            state: self.with_player(
                                pi,
                                p.with_action(move_action(fleet, f.location, target, distance)),
                            ),
                            lines: seq![departed_text(fleet, target, distance)],
                        },
                    )
                },
            }
        }
    }

    /// What a `BombardPlanet` effect does.
    pub open spec fn bombardment_begun(self, fleet: Seq<char>, target: Seq<char>, power: u32) -> Outcome {
        let pi = self.acting();
        if pi < 0 {
            Err(no_player_text())
        } else {
            let p = self.players[pi];
            if p.busy_at(target) {
                Err(busy_text())
            } else {
                Ok(
                    Step {
                        state: self.with_player(pi, p.with_action(bombard_action(fleet, target))),
                        lines: seq![bombardment_begun_text(fleet, target, power)],
                    },
                )
            }
        }
    }

    /// What a `CancelBombard` effect does.
    pub open spec fn bombardment_ceased(self, fleet: Seq<char>) -> Outcome {
        let pi = self.acting();
        if pi < 0 {
            Err(no_player_text())
        } else {
            let p = self.players[pi];
            let k = first_bombardment_by(p.pending_actions, fleet, 0);
            if k >= p.pending_actions.len() {
                Err(not_bombarding_text())
            } else {
                Ok(
                    Step {
                        state: self.with_player(
                            pi,
                            PlayerView { pending_actions: p.pending_actions.remove(k), ..p },
                        ),
                        lines: seq![bombardment_ceased_text(fleet)],
                    },
                )
            }
        }
    }

    /// What a `ColonizePlanet` effect does: with a colony ship in the fleet,
    /// the shield down and the planet not yet the player's own, the planet
    /// gets its capital, a full stock and its new owner. Where the capital
    /// cannot be installed nothing changes.
    pub open spec fn planet_colonized(self, fleet: Seq<char>, planet_id: Seq<char>) -> Outcome {
        let pi = self.acting();
        if pi < 0 {
            Err(no_player_text())
        } else {
            let p = self.players[pi];
            let qi = self.planet_index(planet_id);
            match fleet_of(p.fleets, fleet) {
                None => Err(no_fleet_text()),
                Some(f) => if !fleet_roster(p.ships, f.ships, f.ships.len() as int).contains(
                    colony_ship_kind(),
                ) {
                    Err(no_ark_text())
                } else if qi < 0 {
                    Err(no_planet_text())
                } else if self.map.planets[qi].owner == Some(p.id) {
                    Err(already_owned_text())
                } else if self.map.planets[qi].shield_hp > 0 {
                    Err(shields_up_text(self.map.planets[qi].shield_hp))
                } else {
                    let planet = self.map.planets[qi];
                    let (settled, failure) = planet.colonized(self.structure_config);
                    match failure {
                        Some(e) => Err(colonization_failed_text(planet_error_text(e))),
                        None => Ok(
                            Step {
                                state: GameStateView {
                                    players: holdings_moved(self.players, planet_id, pi),
                                    map: StarMapView {
                                        planets: self.map.planets.update(
                                            qi,
                                            PlanetView { owner: Some(p.id), ..settled },
                                        ),
                                        ..self.map
                                    },
                                    ..self
                                },
                                lines: seq![colonized_text(planet.name, p.name)],
                            },
                        ),
                    }
                },
            }
        }
    }
}

/// Moving a planet between the players' lists keeps the state well formed.
pub proof fn lemma_holdings_moved_wf(g: GameStateView, planet: Seq<char>, pi: int)
    requires
        g.wf(),
    ensures
        (GameStateView { players: holdings_moved(g.players, planet, pi), ..g }).wf(),
{
    let h = GameStateView { players: holdings_moved(g.players, planet, pi), ..g };
    assert(player_ids(h.players) =~= player_ids(g.players));
    assert forall|j: int| 0 <= j < h.players.len() implies (#[trigger] h.players[j]).wf() by {
        assert(g.players[j].wf());
    }
}

impl Player {
    /// Queues `action`, to whose planet no other action is anchored.
    pub fn push_action(&mut self, action: PendingAction)
        requires
            !old(self).deep_view().busy_at(action.planet_id@),
        ensures
            final(self).deep_view() == old(self).deep_view().with_action(action.deep_view()),
            old(self).deep_view().wf() ==> final(self).deep_view().wf(),
    {
        let ghost before = self.pending_actions.deep_view();
        let ghost a = action.deep_view();
        self.pending_actions.push(action);
        proof {
            assert(self.pending_actions.deep_view() =~= before.push(a));
            assert(action_planets(before.push(a)) =~= action_planets(before).push(a.planet_id));
            if distinct(action_planets(before)) {
                lemma_distinct_push(action_planets(before), a.planet_id);
            }
        }
    }

    /// Takes the action at position `i` out of the queue.
    pub fn remove_action_at(&mut self, i: usize) -> (r: PendingAction)
        requires
            i < old(self).pending_actions.len(),
        ensures
            r.deep_view() == old(self).deep_view().pending_actions[i as int],
            final(self).pending_actions.len() == old(self).pending_actions.len() - 1,
            final(self).deep_view() == (PlayerView {
                pending_actions: old(self).deep_view().pending_actions.remove(i as int),
                ..old(self).deep_view()
            }),
            old(self).deep_view().wf() ==> final(self).deep_view().wf(),
    {
        let ghost before = self.pending_actions.deep_view();
        let a = self.pending_actions.remove(i);
        proof {
            assert(self.pending_actions.deep_view() =~= before.remove(i as int));
            assert(action_planets(before.remove(i as int)) =~= action_planets(before).remove(
                i as int,
            ));
            if distinct(action_planets(before)) {
                lemma_distinct_remove(action_planets(before), i as int);
            }
        }
        a
    }

    /// Lists `planet` among the player's planets unless it is listed.
    pub fn gain_planet(&mut self, planet: &String)
        ensures
            final(self).deep_view() == (PlayerView {
                planets: with_member(old(self).deep_view().planets, planet@),
                ..old(self).deep_view()
            }),
    {
        if !contains_text(&self.planets, planet) {
            let ghost before = self.planets.deep_view();
            self.planets.push(planet.clone());
            assert(self.planets.deep_view() =~= before.push(planet@));
        }
    }

    /// Strikes `planet` from the player's planets.
    #[verifier::loop_isolation(false)]
    pub fn lose_planet(&mut self, planet: &String)
        ensures
            final(self).deep_view() == (PlayerView {
                planets: without_member(old(self).deep_view().planets, planet@),
                ..old(self).deep_view()
            }),
    {
        let ghost before = self.planets.deep_view();
        proof {
            lemma_index_in(before, planet@);
        }
        let mut i: usize = 0;
        while i < self.planets.len()
            invariant
                i <= self.planets.len(),
                *self == *old(self),
                forall|j: int| 0 <= j < i ==> before[j] != planet@,
            decreases self.planets.len() - i,
        {
            if self.planets[i] == *planet {
                assert(before[i as int] == planet@);
                self.planets.remove(i);
                assert(self.planets.deep_view() =~= before.remove(i as int));
                return ;
            }
            i += 1;
        }
    }
}

impl GameState {
    /// Carries out a `MoveFleet` effect.
    pub fn dispatch_fleet(&mut self, fleet_id: String, target_planet: String, distance: u8) -> (r:
        Result<Vec<String>, String>)
        ensures
            effect_matches(
                old(self).deep_view(),
                final(self).deep_view(),
                r,
                old(self).deep_view().fleet_dispatched(fleet_id@, target_planet@, distance),
            ),
            old(self).deep_view().wf() ==> final(self).deep_view().wf(),
    {
        let ghost g = self.deep_view();
        let pi = match self.acting_index() {
            Some(i) => i,
            None => {
                return Err(owned("Current player must exist in game state"));
            },
        };
        assert(g.players[pi as int] == self.players[pi as int].deep_view());
        proof {
            lemma_fleet_list_idents(self.players[pi as int].fleets);
        }
        let fi = match find_by_id(&self.players[pi].fleets, &fleet_id) {
            Some(i) => i,
            None => {
                return Err(owned("Fleet must exist (validated by command)"));
            },
        };
        assert(self.players[pi as int].fleets[fi as int].deep_view()
            == g.players[pi as int].fleets[fi as int]);
        let from = self.players[pi].fleets[fi].location.clone();
        if self.players[pi].has_pending_action_on_planet(&from) {
            return Err(owned("Planet already has a pending action"));
        }
        let mut line = owned("Fleet ");
        line.append(fleet_id.as_str());
        line.append(" departs for ");
        line.append(target_planet.as_str());
        line.append(". Arrival in ");
        push_decimal(&mut line, distance as u128);
        line.append(" turn(s).");
        let action = PendingAction::new(
            ActionType::MoveFleet(fleet_id, target_planet),
            from,
            distance as u32,
            Resources::zero(),
        );
        self.players[pi].push_action(action);
        proof {
            assert(g.wf() ==> g.players[pi as int].wf());
            Self::lemma_player_replaced(
                g,
                self.players,
                pi as int,
                self.players[pi as int].deep_view(),
            );
        }
        Ok(one_line(line))
    }

    /// Carries out a `BombardPlanet` effect.
    pub fn begin_bombardment(
        &mut self,
        fleet_id: String,
        target_planet: String,
        bombardment_power: u32,
    ) -> (r: Result<Vec<String>, String>)
        ensures
            effect_matches(
                old(self).deep_view(),
                final(self).deep_view(),
                r,
                old(self).deep_view().bombardment_begun(
                    fleet_id@,
                    target_planet@,
                    bombardment_power,
                ),
            ),
            old(self).deep_view().wf() ==> final(self).deep_view().wf(),
    {
        let ghost g = self.deep_view();
        let pi = match self.acting_index() {
            Some(i) => i,
            None => {
                return Err(owned("Current player must exist in game state"));
            },
        };
        assert(g.players[pi as int] == self.players[pi as int].deep_view());
        if self.players[pi].has_pending_action_on_planet(&target_planet) {
            return Err(owned("Planet already has a pending action"));
        }
        let mut line = owned("Fleet ");
        line.append(fleet_id.as_str());
        line.append(" begins bombardment of ");
        line.append(target_planet.as_str());
        line.append(" (");
        push_decimal(&mut line, bombardment_power as u128);
        line.append(" power per round).");
        let action = PendingAction::new(
            ActionType::BombardPlanet(fleet_id, target_planet.clone()),
            target_planet,
            UNBOUNDED_COOLDOWN,
            Resources::zero(),
        );
        self.players[pi].push_action(action);
        proof {
            assert(g.wf() ==> g.players[pi as int].wf());
            Self::lemma_player_replaced(
                g,
                self.players,
                pi as int,
                self.players[pi as int].deep_view(),
            );
        }
        Ok(one_line(line))
    }

    /// Carries out a `CancelBombard` effect.
    pub fn cease_bombardment(&mut self, fleet_id: String) -> (r: Result<Vec<String>, String>)
        ensures
            effect_matches(
                old(self).deep_view(),
                final(self).deep_view(),
                r,
                old(self).deep_view().bombardment_ceased(fleet_id@),
            ),
            old(self).deep_view().wf() ==> final(self).deep_view().wf(),
    {
        let ghost g = self.deep_view();
        let pi = match self.acting_index() {
            Some(i) => i,
            None => {
                return Err(owned("Current player must exist in game state"));
            },
        };
        assert(g.players[pi as int] == self.players[pi as int].deep_view());
        let k = match self.players[pi].bombardment_index(&fleet_id) {
            Some(k) => k,
            None => {
                return Err(owned("Fleet is not bombarding"));
            },
        };
        let removed = self.players[pi].remove_action_at(k);
        let mut line = owned("Fleet ");
        line.append(fleet_id.as_str());
        line.append(" ceases bombardment.");
        proof {
            assert(g.wf() ==> g.players[pi as int].wf());
            Self::lemma_player_replaced(
                g,
                self.players,
                pi as int,
                self.players[pi as int].deep_view(),
            );
        }
        Ok(one_line(line))
    }

    /// Lists the planet `planet` with the `pi`-th player and strikes it from
    /// everybody else's list.
    #[verifier::loop_isolation(false)]
    pub fn move_holding(&mut self, planet: &String, pi: usize)
        ensures
            final(self).deep_view() == (GameStateView {
                players: holdings_moved(old(self).deep_view().players, planet@, pi as int),
                ..old(self).deep_view()
            }),
            old(self).deep_view().wf() ==> final(self).deep_view().wf(),
    {
        let ghost g = self.deep_view();
        let ghost goal = holdings_moved(g.players, planet@, pi as int);
        let n = self.players.len();
        let mut j: usize = 0;
        while j < n
            invariant
                j <= n,
                n == self.players.len(),
                self.deep_view() == (GameStateView { players: self.players.deep_view(), ..g }),
                forall|k: int| 0 <= k < j ==> self.players.deep_view()[k] == goal[k],
                forall|k: int| j <= k < n ==> self.players.deep_view()[k] == g.players[k],
            decreases n - j,
        {
            let ghost list = self.players.deep_view();
            assert(self.players[j as int].deep_view() == list[j as int]);
            if j == pi {
                self.players[j].gain_planet(planet);
            } else {
                self.players[j].lose_planet(planet);
            }
            assert(self.players.deep_view() =~= list.update(j as int, goal[j as int]));
            j += 1;
        }
        assert(self.players.deep_view() =~= goal);
        proof {
            if g.wf() {
                lemma_holdings_moved_wf(g, planet@, pi as int);
            }
        }
    }

    /// Carries out a `ColonizePlanet` effect.
    pub fn colonize_planet(&mut self, fleet_id: String, planet_id: String) -> (r: Result<
        Vec<String>,
        String,
    >)
        ensures
            effect_matches(
                old(self).deep_view(),
                final(self).deep_view(),
                r,
                old(self).deep_view().planet_colonized(fleet_id@, planet_id@),
            ),
            old(self).deep_view().wf() ==> final(self).deep_view().wf(),
    {
        let ghost g = self.deep_view();
        let pi = match self.acting_index() {
            Some(i) => i,
            None => {
                return Err(owned("Current player must exist in game state"));
            },
        };
        assert(g.players[pi as int] == self.players[pi as int].deep_view());
        proof {
            lemma_fleet_list_idents(self.players[pi as int].fleets);
        }
        let fi = match find_by_id(&self.players[pi].fleets, &fleet_id) {
            Some(i) => i,
            None => {
                return Err(owned("Fleet must exist (validated by command)"));
            },
        };
        assert(self.players[pi as int].fleets[fi as int].deep_view()
            == g.players[pi as int].fleets[fi as int]);
        let roster = fleet_ship_types(&self.players[pi].ships, &self.players[pi].fleets[fi].ships);
        let ark = owned("ark");
        if !contains_text(&roster, &ark) {
            return Err(owned("fleet requires an ark ship to colonize"));
        }
        let qi = match self.planet_index(&planet_id) {
            Some(i) => i,
            None => {
                return Err(owned("Planet must exist (validated by command)"));
            },
        };
        assert(g.map.planets[qi as int] == self.map.planets[qi as int].deep_view());
        if self.map.planets[qi].is_owned_by(&self.players[pi].id) {
            return Err(owned("you already own this planet"));
        }
        if self.map.planets[qi].shield_hp > 0 {
            let mut reason = owned("planet shields must be destroyed first (current: ");
            push_decimal(&mut reason, self.map.planets[qi].shield_hp as u128);
            reason.append(" HP)");
            return Err(reason);
        }
        match self.map.planets[qi].colonize(&self.structure_config) {
            Ok(()) => {},
            Err(e) => {
                let mut reason = owned("Colonization failed: ");
                reason.append(e.message().as_str());
                assert(self.map.planets.deep_view() =~= g.map.planets);
                return Err(reason);
            },
        }
        let owner = self.players[pi].id.clone();
        self.map.planets[qi].set_owner(owner);
        let mut line = owned("Planet ");
        line.append(self.map.planets[qi].name.as_str());
        line.append(" colonized by ");
        line.append(self.players[pi].name.as_str());
        line.append(".");
        proof {
            let settled = g.map.planets[qi as int].colonized(g.structure_config).0;
            let planet = PlanetView { owner: Some(g.players[pi as int].id), ..settled };
            assert(self.map.planets.deep_view() =~= g.map.planets.update(qi as int, planet));
            if g.wf() {
                lemma_with_planet_wf(g, qi as int, planet);
            }
        }
        self.move_holding(&planet_id, pi);
        Ok(one_line(line))
    }
}

} // verus!
