//! What happens when a round closes: bombardment, completion of the
//! actions in flight, production and the search for a winner, in that order.
use vstd::prelude::*;
use vstd::string::*;
use crate::effects::{lemma_with_planet_wf};
use crate::game_state::{GameState, GameStateView, fleet_power};
use crate::pending_action::{ActionType, ActionTypeView};
use crate::player::PlayerView;
use crate::text::{decimal, owned, push_decimal};

verus! {

/// The game in the middle of a round's closing: the state, the lines
/// reported so far and the planets that were bombarded.
pub struct Round {
    pub state: GameStateView,
    pub lines: Seq<Seq<char>>,
    pub hit: Seq<Seq<char>>,
}

/// The wording of a line shown to the player.
pub open spec fn target_missing_text(fleet: Seq<char>, target: Seq<char>) -> Seq<char> {
    "Bombardment by fleet "@ + fleet + " abandoned: planet "@ + target + " not found."@
}

/// The wording of a line shown to the player.
pub open spec fn bombarded_text(fleet: Seq<char>, planet: Seq<char>, power: u32, left: u32) -> Seq<
    char,
> {
    "Bombardment: fleet "@ + fleet + " hits "@ + planet + " for "@ + decimal(power as nat)
        + " damage. Shield: "@ + decimal(left as nat) + " HP"@
}

/// The wording of a line shown to the player.
pub open spec fn shield_destroyed_text(planet: Seq<char>) -> Seq<char> {
    "Shield destroyed on "@ + planet + ". The planet can now be colonized."@
}

/// The view of a game in the middle of a round's closing.
pub open spec fn round_of(g: GameState, lines: Vec<String>, hit: Vec<String>) -> Round {
    Round { state: g.deep_view(), lines: lines.deep_view(), hit: hit.deep_view() }
}

impl Round {
    /// The round with one more line reported.
    pub open spec fn say(self, line: Seq<char>) -> Round {
        Round { lines: self.lines.push(line), ..self }
    }

    /// One round of bombardment of `target` by the fleet `fleet` of the
    /// `pi`-th player, and whether the bombardment is over: the fleet's
    /// power comes off the shield, and a shield at zero ends it. A target
    /// that does not exist ends it too.
    pub open spec fn bombard_one(self, pi: int, fleet: Seq<char>, target: Seq<char>) -> (Round, bool) {
        let qi = self.state.planet_index(target);
        if qi < 0 {
            (self.say(target_missing_text(fleet, target)), true)
        } else {
            let power = fleet_power(self.state.players[pi], fleet, self.state.ship_config);
            let planet = self.state.map.planets[qi].shield_hit(power);
            let r = Round {
                state: self.state.with_planet(qi, planet),
                lines: self.lines.push(bombarded_text(fleet, planet.name, power, planet.shield_hp)),
                hit: self.hit.push(target),
            };
            if planet.shield_hp == 0 {
                (r.say(shield_destroyed_text(planet.name)), true)
            } else {
                (r, false)
            }
        }
    }

    /// The bombardments of the `pi`-th player from the `k`-th action on, in
    /// queue order. A bombardment that is over leaves the queue.
    pub open spec fn bombard_player_from(self, pi: int, k: int) -> Round
        decreases self.state.players[pi].pending_actions.len() - k,
    {
        let actions = self.state.players[pi].pending_actions;
        if pi < 0 || pi >= self.state.players.len() || k < 0 || k >= actions.len() {
            self
        } else {
            match actions[k].action_type {
                ActionTypeView::BombardPlanet(fleet, target) => {
                    let (r, over) = self.bombard_one(pi, fleet, target);
                    if over {
                        let p = self.state.players[pi];
                        let next = Round {
                            state: GameStateView {
                                players: self.state.players.update(
                                    pi,
                                    PlayerView { pending_actions: actions.remove(k), ..p },
                                ),
                                ..r.state
                            },
                            ..r
                        };
                        next.bombard_player_from(pi, k)
                    } else {
                        r.bombard_player_from(pi, k + 1)
                    }
                },
                _ => self.bombard_player_from(pi, k + 1),
            }
        }
    }

    /// The bombardments of all players from the `pi`-th on, in table order.
    pub open spec fn bombard_all_from(self, pi: int) -> Round
        decreases self.state.players.len() - pi,
    {
        if pi < 0 || pi >= self.state.players.len() {
            self
        } else {
            let r = self.bombard_player_from(pi, 0);
            if r.state.players.len() == self.state.players.len() {
                r.bombard_all_from(pi + 1)
            } else {
                r
            }
        }
    }
}

/// Bombardment changes neither the number of players nor who they are.
pub proof fn lemma_bombard_player_keeps_players(r: Round, pi: int, k: int)
    requires
        0 <= pi < r.state.players.len(),
    ensures
        r.bombard_player_from(pi, k).state.players.len() == r.state.players.len(),
    decreases r.state.players[pi].pending_actions.len() - k,
{
    let actions = r.state.players[pi].pending_actions;
    if 0 <= k < actions.len() {
        match actions[k].action_type {
            ActionTypeView::BombardPlanet(fleet, target) => {
                let (r2, over) = r.bombard_one(pi, fleet, target);
                if over {
                    let p = r.state.players[pi];
                    let next = Round {
                        state: GameStateView {
                            players: r.state.players.update(
                                pi,
                                PlayerView { pending_actions: actions.remove(k), ..p },
                            ),
                            ..r2.state
                        },
                        ..r2
                    };
                    lemma_bombard_player_keeps_players(next, pi, k);
                } else {
                    lemma_bombard_player_keeps_players(r2, pi, k + 1);
                }
            },
            _ => {
                lemma_bombard_player_keeps_players(r, pi, k + 1);
            },
        }
    }
}

impl GameState {
    /// Lets the fleet `fleet` of the `pi`-th player bombard `target` for one
    /// round and says whether the bombardment is over.
    pub fn bombard_one(
        &mut self,
        pi: usize,
        fleet: &String,
        target: &String,
        lines: &mut Vec<String>,
        hit: &mut Vec<String>,
    ) -> (over: bool)
        requires
            pi < old(self).players.len(),
        ensures
            (round_of(*final(self), *final(lines), *final(hit)), over) == round_of(
                *old(self),
                *old(lines),
                *old(hit),
            ).bombard_one(pi as int, fleet@, target@),
            old(self).deep_view().wf() ==> final(self).deep_view().wf(),
    {
        let ghost g = self.deep_view();
        let qi = match self.planet_index(target) {
            Some(i) => i,
            None => {
                let mut line = owned("Bombardment by fleet ");
                line.append(fleet.as_str());
                line.append(" abandoned: planet ");
                line.append(target.as_str());
                line.append(" not found.");
                let ghost before = lines.deep_view();
                lines.push(line);
                assert(lines.deep_view() =~= before.push(line@));
                return true;
            },
        };
        assert(g.players[pi as int] == self.players[pi as int].deep_view());
        assert(g.map.planets[qi as int] == self.map.planets[qi as int].deep_view());
        let power = self.players[pi].fleet_power(fleet, &self.ship_config);
        self.map.planets[qi].take_shield_damage(power);
        let left = self.map.planets[qi].shield_hp;
        let mut line = owned("Bombardment: fleet ");
        line.append(fleet.as_str());
        line.append(" hits ");
        line.append(self.map.planets[qi].name.as_str());
        line.append(" for ");
        push_decimal(&mut line, power as u128);
        line.append(" damage. Shield: ");
        push_decimal(&mut line, left as u128);
        line.append(" HP");
        let ghost before = lines.deep_view();
        lines.push(line);
        assert(lines.deep_view() =~= before.push(line@));
        let ghost marks = hit.deep_view();
        hit.push(target.clone());
        assert(hit.deep_view() =~= marks.push(target@));
        proof {
            let planet = g.map.planets[qi as int].shield_hit(power);
            assert(self.map.planets.deep_view() =~= g.map.planets.update(qi as int, planet));
            if g.wf() {
                lemma_with_planet_wf(g, qi as int, planet);
            }
        }
        if left == 0 {
            let mut line = owned("Shield destroyed on ");
            line.append(self.map.planets[qi].name.as_str());
            line.append(". The planet can now be colonized.");
            let ghost before = lines.deep_view();
            lines.push(line);
            assert(lines.deep_view() =~= before.push(line@));
            true
        } else {
            false
        }
    }

    /// The first phase of a round's closing: every bombardment in flight
    /// strikes once, player by player and in queue order.
    #[verifier::loop_isolation(false)]
    pub fn resolve_bombardments(&mut self, lines: &mut Vec<String>, hit: &mut Vec<String>)
        ensures
            round_of(*final(self), *final(lines), *final(hit)) == round_of(
                *old(self),
                *old(lines),
                *old(hit),
            ).bombard_all_from(0),
            final(self).players.len() == old(self).players.len(),
            old(self).deep_view().wf() ==> final(self).deep_view().wf(),
    {
        let ghost goal = round_of(*old(self), *old(lines), *old(hit)).bombard_all_from(0);
        let n = self.players.len();
        let mut pi: usize = 0;
        while pi < n
            invariant
                pi <= n,
                n == self.players.len(),
                round_of(*self, *lines, *hit).bombard_all_from(pi as int) == goal,
                old(self).deep_view().wf() ==> self.deep_view().wf(),
            decreases n - pi,
        {
            let ghost start = round_of(*self, *lines, *hit);
            let mut k: usize = 0;
            while k < self.players[pi].pending_actions.len()
                invariant
                    pi < n,
                    n == self.players.len(),
                    round_of(*self, *lines, *hit).bombard_player_from(pi as int, k as int)
                        == start.bombard_player_from(pi as int, 0),
                    old(self).deep_view().wf() ==> self.deep_view().wf(),
                decreases self.players[pi as int].pending_actions.len() - k,
            {
                let ghost now = round_of(*self, *lines, *hit);
                assert(now.state.players[pi as int] == self.players[pi as int].deep_view());
                assert(now.state.players[pi as int].pending_actions[k as int]
                    == self.players[pi as int].pending_actions[k as int].deep_view());
                let strike = match &self.players[pi].pending_actions[k].action_type {
                    ActionType::BombardPlanet(fleet, target) => Some((fleet.clone(), target.clone())),
                    _ => None,
                };
                match strike {
                    Some((fleet, target)) => {
                        let over = self.bombard_one(pi, &fleet, &target, lines, hit);
                        if over {
                            let ghost mid = self.deep_view();
                            assert(mid.players[pi as int] == self.players[pi as int].deep_view());
                            let gone = self.players[pi].remove_action_at(k);
                            proof {
                                assert(mid.wf() ==> mid.players[pi as int].wf());
                                Self::lemma_player_replaced(
                                    mid,
                                    self.players,
                                    pi as int,
                                    self.players[pi as int].deep_view(),
                                );
                            }
                        } else {
                            k += 1;
                        }
                    },
                    None => {
                        k += 1;
                    },
                }
            }
            proof {
                lemma_bombard_player_keeps_players(start, pi as int, 0);
            }
            pi += 1;
        }
    }
}

} // verus!
