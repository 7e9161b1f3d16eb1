//! The game itself: it carries out accepted commands and closes rounds.
use vstd::prelude::*;
use vstd::string::*;
use crate::arrival::Report;
use crate::commands::command::{CommandEffect, CommandEffectView};
use crate::completion::{report_of, say};
use crate::effects::{Outcome, Step, effect_matches, one_line};
use crate::game_state::{GameState, GameStateView, order_view};
use crate::ids::contains_text;
use crate::map::StarMapView;
use crate::planet::{PlanetView, planet_ids};
use crate::round::{Round};
use crate::text::{decimal, owned, push_decimal};

verus! {

/// The wording of a line shown to the player.
pub open spec fn no_players_text() -> Seq<char> {
    "Game has no players - invalid state"@
}

/// The wording of a line shown to the player.
pub open spec fn turn_ended_text(player: Seq<char>) -> Seq<char> {
    player + " ends their turn."@
}

/// The wording of a line shown to the player.
pub open spec fn processing_text(turn: u32) -> Seq<char> {
    "=== Turn "@ + decimal(turn as nat) + " Processing ==="@
}

/// The wording of a line shown to the player.
pub open spec fn turn_begins_text(turn: u32) -> Seq<char> {
    "=== Turn "@ + decimal(turn as nat) + " Begins ==="@
}

/// The wording of a line shown to the player.
pub open spec fn next_turn_text(player: Seq<char>) -> Seq<char> {
    player + "'s turn."@
}

/// The wording of a line shown to the player.
pub open spec fn victory_text(player: Seq<char>) -> Seq<char> {
    player + " owns every planet of the system. The game is over."@
}

/// A planet at the end of a round: an owned planet produces, and the
/// shield of a planet that was not bombarded rests.
pub open spec fn planet_round_end(p: PlanetView, hit: Seq<Seq<char>>) -> PlanetView {
    let stocked = if p.owner.is_some() {
        p.produced()
    } else {
        p
    };
    if hit.contains(p.id) {
        stocked
    } else {
        stocked.shield_rested()
    }
}

/// The player who owns every planet, where there is one and the map is not empty.
pub open spec fn sole_owner(planets: Seq<PlanetView>) -> Option<Seq<char>> {
    if planets.len() > 0 && planets[0].owner.is_some() && (forall|i: int|
        0 <= i < planets.len() ==> (#[trigger] planets[i]).owner == planets[0].owner) {
        planets[0].owner
    } else {
        None
    }
}

/// The rotation after its front went to the back.
pub open spec fn rotated(order: Seq<Seq<char>>) -> Seq<Seq<char>> {
    if order.len() == 0 {
        order
    } else {
        order.subrange(1, order.len() as int).push(order[0])
    }
}

/// `turn + 1`, or `turn` at the largest `u32`.
pub open spec fn next_turn(turn: u32) -> u32 {
    if turn == u32::MAX {
        turn
    } else {
        (turn + 1) as u32
    }
}

impl GameStateView {
    /// The state after the third phase of a round's closing.
    pub open spec fn produced_all(self, hit: Seq<Seq<char>>) -> GameStateView {
        GameStateView {
            map: StarMapView {
                planets: Seq::new(
                    self.map.planets.len(),
                    |i: int| planet_round_end(self.map.planets[i], hit),
                ),
                ..self.map
            },
            ..self
        }
    }

    /// The closing of a round: bombardment, then the actions that are due,
    /// then production, each once and in this order; and the lines reported.
    pub open spec fn round_closed(self) -> Report {
        let struck = (Round { state: self, lines: Seq::empty(), hit: Seq::empty() }).bombard_all_from(
            0,
        );
        let done = (Report { state: struck.state, lines: struck.lines }).complete_all_from(0);
        Report { state: done.state.produced_all(struck.hit), lines: done.lines }
    }

    /// The name under which the player `id` is announced: the identifier
    /// itself where no such player exists.
    pub open spec fn display_name(self, id: Seq<char>) -> Seq<char> {
        let i = self.player_index(id);
        if i >= 0 {
            self.players[i].name
        } else {
            id
        }
    }

    /// The line that announces whose turn it is; none for an empty rotation.
    pub open spec fn next_player_lines(self) -> Seq<Seq<char>> {
        if self.players_order.len() == 0 {
            Seq::empty()
        } else {
            seq![next_turn_text(self.display_name(self.players_order[0]))]
        }
    }

    /// What an `EndTurn` effect does. The acting player goes to the back of
    /// the rotation. When that was the last player of the round, the round
    /// closes: bombardment, due actions and production run once, in this
    /// order, and a winner is looked for. With a winner the game stops
    /// there; without one the next turn begins and every player has to act again.
    pub open spec fn turn_ended(self, player_name: Seq<char>) -> Outcome {
        if self.players_order.len() == 0 {
            Err(no_players_text())
        } else {
            let moved = GameStateView { players_order: rotated(self.players_order), ..self };
            let first = seq![turn_ended_text(player_name)];
            if self.players_remaining_this_turn > 1 {
                let state = GameStateView {
                    players_remaining_this_turn: (self.players_remaining_this_turn - 1) as usize,
                    ..moved
                };
                Ok(Step { state, lines: first + state.next_player_lines() })
            } else {
                let closed = (GameStateView { players_remaining_this_turn: 0, ..moved }).round_closed();
                let lines = if closed.lines.len() > 0 {
                    first.push(processing_text(self.turn)) + closed.lines
                } else {
                    first
                };
                match sole_owner(closed.state.map.planets) {
                    Some(winner) => Ok(
                        Step {
                            state: closed.state,
                            lines: lines.push(victory_text(closed.state.display_name(winner))),
                        },
                    ),
                    None => {
                        let state = GameStateView {
                            turn: next_turn(closed.state.turn),
                            players_remaining_this_turn: closed.state.players_order.len() as usize,
                            ..closed.state
                        };
                        Ok(
                            Step {
                                state,
                                lines: lines.push(turn_begins_text(state.turn))
                                    + state.next_player_lines(),
                            },
                        )
                    },
                }
            }
        }
    }

    /// What carrying out `effect` does.
    pub open spec fn applied(self, effect: CommandEffectView) -> Outcome {
        match effect {
            CommandEffectView::Message { message } => Ok(Step { state: self, lines: seq![message] }),
            CommandEffectView::BuildStructure { planet_id, structure_id } => self.build_queued(
                planet_id,
                structure_id,
            ),
            CommandEffectView::UpgradeStructure { planet_id, structure_id } => self.upgrade_queued(
                planet_id,
                structure_id,
            ),
            CommandEffectView::BuildShip { planet_id, ship_id } => self.ship_queued(
                planet_id,
                ship_id,
            ),
            CommandEffectView::CancelAction { planet_id } => self.action_cancelled(planet_id),
            CommandEffectView::CreateFleet { name, ship_ids, location } => self.fleet_created(
                name,
                ship_ids,
                location,
            ),
            CommandEffectView::AddToFleet { fleet_id, ship_ids } => self.fleet_extended(
                fleet_id,
                ship_ids,
            ),
            CommandEffectView::RemoveFromFleet { fleet_id, ship_ids } => self.fleet_reduced(
                fleet_id,
                ship_ids,
            ),
            CommandEffectView::DisbandFleet { fleet_id } => self.fleet_disbanded(fleet_id),
            CommandEffectView::MoveFleet { fleet_id, target_planet, distance } => {
                self.fleet_dispatched(fleet_id, target_planet, distance)
            },
            CommandEffectView::BombardPlanet { fleet_id, target_planet, bombardment_power } => {
                self.bombardment_begun(fleet_id, target_planet, bombardment_power)
            },
            CommandEffectView::CancelBombard { fleet_id } => self.bombardment_ceased(fleet_id),
            CommandEffectView::ColonizePlanet { fleet_id, planet_id } => self.planet_colonized(
                fleet_id,
                planet_id,
            ),
            CommandEffectView::EndTurn { player_name } => self.turn_ended(player_name),
        }
    }
}

/// The end of a round changes no planet's name.
pub proof fn lemma_produced_all_wf(g: GameStateView, hit: Seq<Seq<char>>)
    requires
        g.wf(),
    ensures
        g.produced_all(hit).wf(),
{
    let h = g.produced_all(hit);
    assert(planet_ids(h.map.planets) =~= planet_ids(g.map.planets));
    assert forall|j: int| 0 <= j < h.players.len() implies (#[trigger] h.players[j]).wf() by {
        assert(g.players[j].wf());
    }
}

/// Appends the lines of `more` to `lines`.
#[verifier::loop_isolation(false)]
pub fn say_all(lines: &mut Vec<String>, more: Vec<String>)
    ensures
        final(lines).deep_view() == old(lines).deep_view() + more.deep_view(),
{
    let ghost before = lines.deep_view();
    let ghost all = more.deep_view();
    let mut rest = more;
    let mut k: usize = 0;
    while rest.len() > 0
        invariant
            k + rest.len() == all.len(),
            all.len() == more.len(),
            forall|j: int| 0 <= j < rest.len() ==> rest[j]@ == all[k + j],
            lines.deep_view() == before + all.take(k as int),
        decreases rest.len(),
    {
        assert(rest[0]@ == all[k as int]);
        let line = rest.remove(0);
        let ghost list = lines.deep_view();
        lines.push(line);
        assert(lines.deep_view() =~= list.push(line@));
        assert(all.take(k as int + 1) =~= all.take(k as int).push(all[k as int]));
        assert(lines.deep_view() =~= before + all.take(k as int + 1));
        k += 1;
    }
    assert(all.take(k as int) =~= all);
}

impl GameState {
    /// The third phase of a round's closing: every owned planet produces,
    /// and every shield that was not struck this round rests.
    #[verifier::loop_isolation(false)]
    pub fn produce_all(&mut self, hit: &Vec<String>)
        ensures
            final(self).deep_view() == old(self).deep_view().produced_all(hit.deep_view()),
            old(self).deep_view().wf() ==> final(self).deep_view().wf(),
    {
        let ghost g = self.deep_view();
        let ghost goal = g.produced_all(hit.deep_view()).map.planets;
        let n = self.map.planets.len();
        let mut i: usize = 0;
        while i < n
            invariant
                i <= n,
                n == self.map.planets.len(),
                self.deep_view() == (GameStateView {
                    map: StarMapView { planets: self.map.planets.deep_view(), ..g.map },
                    ..g
                }),
                forall|j: int| 0 <= j < i ==> self.map.planets.deep_view()[j] == goal[j],
                forall|j: int| i <= j < n ==> self.map.planets.deep_view()[j] == g.map.planets[j],
            decreases n - i,
        {
            let ghost list = self.map.planets.deep_view();
            assert(self.map.planets[i as int].deep_view() == list[i as int]);
            if self.map.planets[i].owner.is_some() {
                self.map.planets[i].produce_resources();
            }
            let struck = contains_text(hit, &self.map.planets[i].id);
            if !struck {
                self.map.planets[i].rest_shield();
            }
            assert(self.map.planets.deep_view() =~= list.update(i as int, goal[i as int]));
            i += 1;
        }
        assert(self.map.planets.deep_view() =~= goal);
        proof {
            if g.wf() {
                lemma_produced_all_wf(g, hit.deep_view());
            }
        }
    }

    /// Closes a round and returns the lines that report it.
    pub fn close_round(&mut self) -> (lines: Vec<String>)
        ensures
            report_of(*final(self), lines) == old(self).deep_view().round_closed(),
            old(self).deep_view().wf() ==> final(self).deep_view().wf(),
    {
        let mut lines: Vec<String> = Vec::new();
        let mut hit: Vec<String> = Vec::new();
        assert(lines.deep_view() =~= Seq::<Seq<char>>::empty());
        assert(hit.deep_view() =~= Seq::<Seq<char>>::empty());
        self.resolve_bombardments(&mut lines, &mut hit);
        self.complete_due_actions(&mut lines);
        self.produce_all(&hit);
        lines
    }

    /// The player who owns every planet of the map.
    #[verifier::loop_isolation(false)]
    pub fn find_winner(&self) -> (r: Option<String>)
        ensures
            r.deep_view() == sole_owner(self.deep_view().map.planets),
    {
        let ghost planets = self.deep_view().map.planets;
        if self.map.planets.len() == 0 {
            return None;
        }
        assert(planets[0] == self.map.planets[0].deep_view());
        let first = match &self.map.planets[0].owner {
            Some(o) => o.clone(),
            None => {
                return None;
            },
        };
        let mut i: usize = 1;
        while i < self.map.planets.len()
            invariant
                1 <= i <= self.map.planets.len(),
                forall|j: int| 0 <= j < i ==> (#[trigger] planets[j]).owner == Some(first@),
            decreases self.map.planets.len() - i,
        {
            assert(planets[i as int] == self.map.planets[i as int].deep_view());
            if !self.map.planets[i].is_owned_by(&first) {
                return None;
            }
            i += 1;
        }
        Some(first)
    }

    /// The name under which the player `id` is announced.
    pub fn display_name(&self, id: &String) -> (r: String)
        ensures
            r@ == self.deep_view().display_name(id@),
    {
        match self.player_index(id) {
            Some(i) => {
                assert(self.deep_view().players[i as int] == self.players[i as int].deep_view());
                self.players[i].name.clone()
            },
            None => id.clone(),
        }
    }

    /// Adds the line that announces whose turn it is.
    pub fn announce_next(&self, lines: &mut Vec<String>)
        ensures
            final(lines).deep_view() == old(lines).deep_view() + self.deep_view().next_player_lines(),
    {
        if self.players_order.len() > 0 {
            let mut line = self.display_name(&self.players_order[0]);
            line.append("'s turn.");
            let ghost before = lines.deep_view();
            say(lines, line);
            assert(lines.deep_view() =~= before + self.deep_view().next_player_lines());
        } else {
            assert(lines.deep_view() + Seq::<Seq<char>>::empty() =~= lines.deep_view());
        }
    }

    /// Carries out an `EndTurn` effect.
    pub fn end_turn(&mut self, player_name: String) -> (r: Result<Vec<String>, String>)
        ensures
            effect_matches(
                old(self).deep_view(),
                final(self).deep_view(),
                r,
                old(self).deep_view().turn_ended(player_name@),
            ),
            old(self).deep_view().wf() ==> final(self).deep_view().wf(),
    {
        let ghost g = self.deep_view();
        let front = match self.players_order.pop_front() {
            Some(f) => f,
            None => {
                assert(order_view(self.players_order) =~= g.players_order);
                return Err(owned("Game has no players - invalid state"));
            },
        };
        self.players_order.push_back(front);
        assert(order_view(self.players_order) =~= rotated(g.players_order));
        let mut first = player_name;
        first.append(" ends their turn.");
        let mut lines = one_line(first);
        if self.players_remaining_this_turn > 1 {
            self.players_remaining_this_turn -= 1;
            self.announce_next(&mut lines);
            return Ok(lines);
        }
        self.players_remaining_this_turn = 0;
        let turn = self.turn;
        let report = self.close_round();
        if report.len() > 0 {
            let mut line = owned("=== Turn ");
            push_decimal(&mut line, turn as u128);
            line.append(" Processing ===");
            say(&mut lines, line);
            say_all(&mut lines, report);
        }
        match self.find_winner() {
            Some(winner) => {
                let mut line = self.display_name(&winner);
                line.append(" owns every planet of the system. The game is over.");
                say(&mut lines, line);
            },
            None => {
                if self.turn < u32::MAX {
                    self.turn += 1;
                }
                self.players_remaining_this_turn = self.players_order.len();
                let mut line = owned("=== Turn ");
                push_decimal(&mut line, self.turn as u128);
                line.append(" Begins ===");
                say(&mut lines, line);
                self.announce_next(&mut lines);
            },
        }
        Ok(lines)
    }
}

/// A running game.
#[derive(Debug)]
pub struct Game {
    pub game_state: GameState,
}

impl Game {
    /// A game that starts from `game_state`.
    pub fn from_state(game_state: GameState) -> (r: Self)
        ensures
            r.game_state == game_state,
    {
        Game { game_state }
    }

    /// Carries out an accepted command and returns the lines to show for
    /// it, or the reason why it could not be carried out; then nothing changed.
    pub fn apply_effect(&mut self, command_effect: CommandEffect) -> (r: Result<Vec<String>, String>)
        ensures
            effect_matches(
                old(self).game_state.deep_view(),
                final(self).game_state.deep_view(),
                r,
                old(self).game_state.deep_view().applied(command_effect.deep_view()),
            ),
            old(self).game_state.deep_view().wf() ==> final(self).game_state.deep_view().wf(),
    {
        match command_effect {
            CommandEffect::Message { message } => Ok(one_line(message)),
            CommandEffect::BuildStructure { planet_id, structure_id } => {
                self.game_state.queue_build(planet_id, structure_id)
            },
            CommandEffect::UpgradeStructure { planet_id, structure_id } => {
                self.game_state.queue_upgrade(planet_id, structure_id)
            },
            CommandEffect::BuildShip { planet_id, ship_id } => {
                self.game_state.queue_ship(planet_id, ship_id)
            },
            CommandEffect::CancelAction { planet_id } => self.game_state.cancel_action(planet_id),
            CommandEffect::CreateFleet { name, ship_ids, location } => {
                self.game_state.create_fleet(name, ship_ids, location)
            },
            CommandEffect::AddToFleet { fleet_id, ship_ids } => {
                self.game_state.add_to_fleet(fleet_id, ship_ids)
            },
            CommandEffect::RemoveFromFleet { fleet_id, ship_ids } => {
                self.game_state.remove_from_fleet(fleet_id, ship_ids)
            },
            CommandEffect::DisbandFleet { fleet_id } => self.game_state.disband_fleet(fleet_id),
            CommandEffect::MoveFleet { fleet_id, target_planet, distance } => {
                self.game_state.dispatch_fleet(fleet_id, target_planet, distance)
            },
            CommandEffect::BombardPlanet { fleet_id, target_planet, bombardment_power } => {
                self.game_state.begin_bombardment(fleet_id, target_planet, bombardment_power)
            },
            CommandEffect::CancelBombard { fleet_id } => self.game_state.cease_bombardment(fleet_id),
            CommandEffect::ColonizePlanet { fleet_id, planet_id } => {
                self.game_state.colonize_planet(fleet_id, planet_id)
            },
            CommandEffect::EndTurn { player_name } => self.game_state.end_turn(player_name),
        }
    }

    /// Closes a round for all players: bombardment, due actions and
    /// production, in this order. Returns the lines that report it.
    pub fn process_all_pending_actions(&mut self) -> (lines: Vec<String>)
        ensures
            report_of(final(self).game_state, lines) == old(
                self,
            ).game_state.deep_view().round_closed(),
            old(self).game_state.deep_view().wf() ==> final(self).game_state.deep_view().wf(),
    {
        self.game_state.close_round()
    }
}

} // verus!
