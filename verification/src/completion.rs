//! The second phase of a round's closing: cooldowns run down and the
//! actions that are due take effect.
use vstd::prelude::*;
use vstd::string::*;
use crate::arrival::Report;
use crate::effects::{lemma_with_planet_wf};
use crate::game_state::{GameState, GameStateView};
use crate::pending_action::{
    ActionType,
    ActionTypeView,
    PendingAction,
    PendingActionView,
    action_planets,
    ticked,
};
use crate::planet::{PlanetView, planet_error_text};
use crate::player::{Player, PlayerView, built_so_far, lemma_counter_idents, ship_name};
use crate::ids::find_by_id;
use crate::text::owned;

verus! {

/// The wording of a line shown to the player.
pub open spec fn site_gone_text(what: Seq<char>, subject: Seq<char>, planet: Seq<char>) -> Seq<char> {
    what + " failed for "@ + subject + ": planet "@ + planet + " not found"@
}

/// The wording of a line shown to the player.
pub open spec fn done_text(what: Seq<char>, subject: Seq<char>, planet: Seq<char>) -> Seq<char> {
    what + " completed: "@ + subject + " on planet "@ + planet
}

/// The wording of a line shown to the player.
pub open spec fn failed_text(what: Seq<char>, subject: Seq<char>, planet: Seq<char>, reason: Seq<char>) -> Seq<
    char,
> {
    what + " failed for "@ + subject + " on planet "@ + planet + ": "@ + reason
}

/// The wording of a line shown to the player.
pub open spec fn ship_built_text(ship: Seq<char>, ship_type: Seq<char>, planet: Seq<char>) -> Seq<
    char,
> {
    "Ship built: "@ + ship + " ("@ + ship_type + ") at planet "@ + planet
}

/// The wording of a line shown to the player.
pub open spec fn too_many_ships_text(ship_type: Seq<char>, planet: Seq<char>) -> Seq<char> {
    "Ship construction failed for "@ + ship_type + " on planet "@ + planet
        + ": no ship names are left"@
}

/// Whether an action takes effect now: its cooldown is at zero, and it is
/// no bombardment, which never ends by waiting.
pub open spec fn due(a: PendingActionView) -> bool {
    !a.is_bombardment() && a.cooldown_remaining == 0
}

/// The queue after one turn of waiting: every action but the bombardments
/// loses one turn of cooldown.
pub open spec fn ticked_actions(actions: Seq<PendingActionView>) -> Seq<PendingActionView> {
    Seq::new(
        actions.len(),
        |i: int|
            if actions[i].is_bombardment() {
                actions[i]
            } else {
                ticked(actions[i])
            },
    )
}

impl PlayerView {
    /// The player after the due actions from position `k` on left the
    /// queue, and those actions, in queue order, behind `done`.
    pub open spec fn sifted_from(self, done: Seq<PendingActionView>, k: int) -> (
        PlayerView,
        Seq<PendingActionView>,
    )
        decreases self.pending_actions.len() - k,
    {
        let actions = self.pending_actions;
        if k < 0 || k >= actions.len() {
            (self, done)
        } else if due(actions[k]) {
            (PlayerView { pending_actions: actions.remove(k), ..self }).sifted_from(
                done.push(actions[k]),
                k,
            )
        } else {
            self.sifted_from(done, k + 1)
        }
    }

    /// The player with every cooldown run down by one turn.
    pub open spec fn waited(self) -> PlayerView {
        PlayerView { pending_actions: ticked_actions(self.pending_actions), ..self }
    }
}

/// Sifting the queue changes no player's name.
pub proof fn lemma_sifted_id(p: PlayerView, done: Seq<PendingActionView>, k: int)
    ensures
        p.sifted_from(done, k).0.id == p.id,
    decreases p.pending_actions.len() - k,
{
    let actions = p.pending_actions;
    if 0 <= k < actions.len() {
        if due(actions[k]) {
            lemma_sifted_id(
                PlayerView { pending_actions: actions.remove(k), ..p },
                done.push(actions[k]),
                k,
            );
        } else {
            lemma_sifted_id(p, done, k + 1);
        }
    }
}

impl Report {
    /// What a completed build or upgrade does, given what the planet made of it.
    pub open spec fn construction_done(
        self,
        what: Seq<char>,
        subject: Seq<char>,
        qi: int,
        result: (PlanetView, Option<crate::planet::PlanetErrorView>),
    ) -> Report {
        let planet = self.state.map.planets[qi];
        match result.1 {
            None => Report {
                state: self.state.with_planet(qi, result.0.recalculated()),
                lines: self.lines.push(done_text(what, subject, planet.name)),
            },
            Some(e) => self.say(failed_text(what, subject, planet.name, planet_error_text(e))),
        }
    }

    /// What the due action `a` of the `pi`-th player does.
    pub open spec fn complete_one(self, pi: int, a: PendingActionView) -> Report {
        let g = self.state;
        let qi = g.planet_index(a.planet_id);
        match a.action_type {
            ActionTypeView::BuildStructure(id) => if qi < 0 {
                self.say(site_gone_text("Construction"@, id, a.planet_id))
            } else {
                self.construction_done(
                    "Construction"@,
                    id,
                    qi,
                    g.map.planets[qi].build_completed(id, g.structure_config),
                )
            },
            ActionTypeView::UpgradeStructure(id) => if qi < 0 {
                self.say(site_gone_text("Upgrade"@, id, a.planet_id))
            } else {
                self.construction_done("Upgrade"@, id, qi, g.map.planets[qi].upgrade_completed(id))
            },
            ActionTypeView::BuildShip(ship_type) => if qi < 0 {
                self.say(site_gone_text("Ship construction"@, ship_type, a.planet_id))
            } else {
                let p = g.players[pi];
                let built = built_so_far(p.ship_id_counters, ship_type);
                if built == u32::MAX {
                    self.say(too_many_ships_text(ship_type, g.map.planets[qi].name))
                } else {
                    Report {
                        state: g.with_player(pi, p.with_new_ship(ship_type, a.planet_id)),
                        lines: self.lines.push(
                            ship_built_text(
                                ship_name(ship_type, (built + 1) as u32),
                                ship_type,
                                g.map.planets[qi].name,
                            ),
                        ),
                    }
                }
            },
            ActionTypeView::MoveFleet(fleet, dest) => self.arrival(pi, fleet, dest),
            ActionTypeView::BombardPlanet(_, _) => self,
        }
    }

    /// What the due actions `done[k..]` of the `pi`-th player do, in order.
    pub open spec fn complete_list_from(self, pi: int, done: Seq<PendingActionView>, k: int) -> Report
        decreases done.len() - k,
    {
        if k < 0 || k >= done.len() {
            self
        } else {
            self.complete_one(pi, done[k]).complete_list_from(pi, done, k + 1)
        }
    }

    /// The `pi`-th player's part of the phase: the cooldowns run down, the
    /// due actions leave the queue, then each takes effect.
    pub open spec fn player_turned(self, pi: int) -> Report {
        let (p, done) = self.state.players[pi].waited().sifted_from(Seq::empty(), 0);
        (Report { state: self.state.with_player(pi, p), ..self }).complete_list_from(pi, done, 0)
    }

    /// The phase for all players from the `pi`-th on, in table order.
    pub open spec fn complete_all_from(self, pi: int) -> Report
        decreases self.state.players.len() - pi,
    {
        if pi < 0 || pi >= self.state.players.len() {
            self
        } else {
            let r = self.player_turned(pi);
            if r.state.players.len() == self.state.players.len() {
                r.complete_all_from(pi + 1)
            } else {
                r
            }
        }
    }
}

/// The view of a game and the lines reported for it.
pub open spec fn report_of(g: GameState, lines: Vec<String>) -> Report {
    Report { state: g.deep_view(), lines: lines.deep_view() }
}

/// Adds `line` to `lines`.
pub fn say(lines: &mut Vec<String>, line: String)
    ensures
        final(lines).deep_view() == old(lines).deep_view().push(line@),
{
    let ghost before = lines.deep_view();
    lines.push(line);
    assert(lines.deep_view() =~= before.push(line@));
}

impl Player {
    /// Runs every cooldown but those of bombardments down by one turn.
    #[verifier::loop_isolation(false)]
    pub fn wait_one_turn(&mut self)
        ensures
            final(self).deep_view() == old(self).deep_view().waited(),
            old(self).deep_view().wf() ==> final(self).deep_view().wf(),
    {
        let ghost before = self.deep_view();
        let ghost goal = ticked_actions(before.pending_actions);
        let n = self.pending_actions.len();
        let mut i: usize = 0;
        while i < n
            invariant
                i <= n,
                n == self.pending_actions.len(),
                self.deep_view() == (PlayerView {
                    pending_actions: self.pending_actions.deep_view(),
                    ..before
                }),
                forall|j: int| 0 <= j < i ==> self.pending_actions.deep_view()[j] == goal[j],
                forall|j: int|
                    i <= j < n ==> self.pending_actions.deep_view()[j] == before.pending_actions[j],
            decreases n - i,
        {
            let ghost list = self.pending_actions.deep_view();
            assert(self.pending_actions[i as int].deep_view() == list[i as int]);
            if !self.pending_actions[i].is_bombardment() {
                self.pending_actions[i].tick();
            }
            assert(self.pending_actions.deep_view() =~= list.update(i as int, goal[i as int]));
            i += 1;
        }
        assert(self.pending_actions.deep_view() =~= goal);
        assert(action_planets(goal) =~= action_planets(before.pending_actions));
    }

    /// Takes the due actions out of the queue and returns them in queue order.
    #[verifier::loop_isolation(false)]
    pub fn take_due_actions(&mut self) -> (done: Vec<PendingAction>)
        ensures
            (final(self).deep_view(), done.deep_view()) == old(self).deep_view().sifted_from(
                Seq::empty(),
                0,
            ),
            old(self).deep_view().wf() ==> final(self).deep_view().wf(),
    {
        let ghost before = self.deep_view();
        let ghost goal = before.sifted_from(Seq::empty(), 0);
        let mut done: Vec<PendingAction> = Vec::new();
        assert(done.deep_view() =~= Seq::<PendingActionView>::empty());
        let mut k: usize = 0;
        while k < self.pending_actions.len()
            invariant
                k <= self.pending_actions.len(),
                self.deep_view().sifted_from(done.deep_view(), k as int) == goal,
                before.wf() ==> self.deep_view().wf(),
            decreases self.pending_actions.len() - k,
        {
            assert(self.pending_actions[k as int].deep_view()
                == self.deep_view().pending_actions[k as int]);
            let a = &self.pending_actions[k];
            if !a.is_bombardment() && a.is_complete() {
                let a = self.remove_action_at(k);
                let ghost list = done.deep_view();
                done.push(a);
                assert(done.deep_view() =~= list.push(a.deep_view()));
            } else {
                k += 1;
            }
        }
        done
    }
}

impl GameState {
    /// Reports what the `qi`-th planet made of a completed build or upgrade
    /// and, where it succeeded, sums the planet's rate and capacity anew.
    fn finish_construction(
        &mut self,
        what: &str,
        subject: &String,
        qi: usize,
        result: Result<(), crate::planet::PlanetError>,
        lines: &mut Vec<String>,
        Ghost(before): Ghost<GameStateView>,
    )
        requires
            qi < old(self).map.planets.len(),
            before.map.planets.len() == old(self).map.planets.len(),
            old(self).deep_view() == before.with_planet(
                qi as int,
                old(self).deep_view().map.planets[qi as int],
            ),
            old(self).deep_view().map.planets[qi as int].name == before.map.planets[qi as int].name,
            old(self).deep_view().map.planets[qi as int].id == before.map.planets[qi as int].id,
            result.is_err() ==> old(self).deep_view().map.planets[qi as int]
                == before.map.planets[qi as int],
        ensures
            report_of(*final(self), *final(lines)) == (Report {
                state: before,
                lines: old(lines).deep_view(),
            }).construction_done(
                what@,
                subject@,
                qi as int,
                (
                    old(self).deep_view().map.planets[qi as int],
                    crate::planet::view_error(result),
                ),
            ),
            final(self).players == old(self).players,
            before.wf() ==> final(self).deep_view().wf(),
    {
        let ghost g = self.deep_view();
        assert(g.map.planets[qi as int] == self.map.planets[qi as int].deep_view());
        match result {
            Ok(()) => {
                let ghost list = self.map.planets.deep_view();
                self.map.planets[qi].recalculate_from_structures();
                assert(self.map.planets.deep_view() =~= list.update(
                    qi as int,
                    g.map.planets[qi as int].recalculated(),
                ));
                assert(list.len() == before.map.planets.len());
                let mut line = owned(what);
                line.append(" completed: ");
                line.append(subject.as_str());
                line.append(" on planet ");
                line.append(self.map.planets[qi].name.as_str());
                say(lines, line);
                proof {
                    let planet = g.map.planets[qi as int].recalculated();
                    assert(self.map.planets.deep_view() =~= before.map.planets.update(
                        qi as int,
                        planet,
                    ));
                    if before.wf() {
                        lemma_with_planet_wf(before, qi as int, planet);
                    }
                }
            },
            Err(e) => {
                let mut line = owned(what);
                line.append(" failed for ");
                line.append(subject.as_str());
                line.append(" on planet ");
                line.append(self.map.planets[qi].name.as_str());
                line.append(": ");
                line.append(e.message().as_str());
                say(lines, line);
                assert(self.map.planets.deep_view() =~= before.map.planets);
            },
        }
    }

    /// Lets the due action `action` of the `pi`-th player take effect.
    pub fn complete_one(&mut self, pi: usize, action: PendingAction, lines: &mut Vec<String>)
        requires
            pi < old(self).players.len(),
        ensures
            report_of(*final(self), *final(lines)) == report_of(
                *old(self),
                *old(lines),
            ).complete_one(pi as int, action.deep_view()),
            final(self).players.len() == old(self).players.len(),
            old(self).deep_view().wf() ==> final(self).deep_view().wf(),
    {
        let ghost g = self.deep_view();
        let site = self.planet_index(&action.planet_id);
        let PendingAction { action_type, planet_id, cooldown_remaining, reserved_resources } =
            action;
        match action_type {
            ActionType::BuildStructure(id) => {
                match site {
                    None => {
                        let mut line = owned("Construction");
                        line.append(" failed for ");
                        line.append(id.as_str());
                        line.append(": planet ");
                        line.append(planet_id.as_str());
                        line.append(" not found");
                        say(lines, line);
                    },
                    Some(qi) => {
                        assert(g.map.planets[qi as int] == self.map.planets[qi as int].deep_view());
                        let ghost list = self.map.planets.deep_view();
                        let result = self.map.planets[qi].complete_build_structure(
                            id.clone(),
                            &self.structure_config,
                        );
                        assert(self.map.planets.deep_view() =~= list.update(
                            qi as int,
                            self.map.planets[qi as int].deep_view(),
                        ));
                        self.finish_construction("Construction", &id, qi, result, lines, Ghost(g));
                    },
                }
            },
            ActionType::UpgradeStructure(id) => {
                match site {
                    None => {
                        let mut line = owned("Upgrade");
                        line.append(" failed for ");
                        line.append(id.as_str());
                        line.append(": planet ");
                        line.append(planet_id.as_str());
                        line.append(" not found");
                        say(lines, line);
                    },
                    Some(qi) => {
                        assert(g.map.planets[qi as int] == self.map.planets[qi as int].deep_view());
                        let ghost list = self.map.planets.deep_view();
                        let result = self.map.planets[qi].complete_upgrade_structure(&id);
                        assert(self.map.planets.deep_view() =~= list.update(
                            qi as int,
                            self.map.planets[qi as int].deep_view(),
                        ));
                        self.finish_construction("Upgrade", &id, qi, result, lines, Ghost(g));
                    },
                }
            },
            ActionType::BuildShip(ship_type) => {
                match site {
                    None => {
                        let mut line = owned("Ship construction");
                        line.append(" failed for ");
                        line.append(ship_type.as_str());
                        line.append(": planet ");
                        line.append(planet_id.as_str());
                        line.append(" not found");
                        say(lines, line);
                    },
                    Some(qi) => {
                        assert(g.map.planets[qi as int] == self.map.planets[qi as int].deep_view());
                        assert(g.players[pi as int] == self.players[pi as int].deep_view());
                        proof {
                            lemma_counter_idents(self.players[pi as int].ship_id_counters);
                        }
                        let exhausted = match find_by_id(
                            &self.players[pi].ship_id_counters,
                            &ship_type,
                        ) {
                            Some(ci) => {
                                assert(self.players[pi as int].ship_id_counters[ci as int].deep_view()
                                    == g.players[pi as int].ship_id_counters[ci as int]);
                                self.players[pi].ship_id_counters[ci].built == u32::MAX
                            },
                            None => false,
                        };
                        if exhausted {
                            let mut line = owned("Ship construction failed for ");
                            line.append(ship_type.as_str());
                            line.append(" on planet ");
                            line.append(self.map.planets[qi].name.as_str());
                            line.append(": no ship names are left");
                            say(lines, line);
                        } else {
                            let ship_id = self.players[pi].add_ship(ship_type.clone(), planet_id);
                            let mut line = owned("Ship built: ");
                            line.append(ship_id.as_str());
                            line.append(" (");
                            line.append(ship_type.as_str());
                            line.append(") at planet ");
                            line.append(self.map.planets[qi].name.as_str());
                            say(lines, line);
                            proof {
                                assert(g.wf() ==> g.players[pi as int].wf());
                                Self::lemma_player_replaced(
                                    g,
                                    self.players,
                                    pi as int,
                                    self.players[pi as int].deep_view(),
                                );
                            }
                        }
                    },
                }
            },
            ActionType::MoveFleet(fleet, dest) => {
                self.resolve_arrival(pi, &fleet, &dest, lines);
            },
            ActionType::BombardPlanet(_, _) => {},
        }
    }

    /// Lets the due actions `done` of the `pi`-th player take effect, in order.
    #[verifier::loop_isolation(false)]
    pub fn complete_list(&mut self, pi: usize, done: Vec<PendingAction>, lines: &mut Vec<String>)
        requires
            pi < old(self).players.len(),
        ensures
            report_of(*final(self), *final(lines)) == report_of(
                *old(self),
                *old(lines),
            ).complete_list_from(pi as int, done.deep_view(), 0),
            final(self).players.len() == old(self).players.len(),
            old(self).deep_view().wf() ==> final(self).deep_view().wf(),
    {
        let ghost todo = done.deep_view();
        let ghost goal = report_of(*old(self), *old(lines)).complete_list_from(pi as int, todo, 0);
        let mut rest = done;
        let mut k: usize = 0;
        while rest.len() > 0
            invariant
                pi < self.players.len(),
                self.players.len() == old(self).players.len(),
                k + rest.len() == todo.len(),
                todo.len() == done.len(),
                forall|j: int| 0 <= j < rest.len() ==> rest[j].deep_view() == todo[k + j],
                report_of(*self, *lines).complete_list_from(pi as int, todo, k as int) == goal,
                old(self).deep_view().wf() ==> self.deep_view().wf(),
            decreases rest.len(),
        {
            let a = rest.remove(0);
            assert(a.deep_view() == todo[k as int]);
            self.complete_one(pi, a, lines);
            k += 1;
        }
    }

    /// The `pi`-th player's part of the second phase.
    pub fn turn_player(&mut self, pi: usize, lines: &mut Vec<String>)
        requires
            pi < old(self).players.len(),
        ensures
            report_of(*final(self), *final(lines)) == report_of(
                *old(self),
                *old(lines),
            ).player_turned(pi as int),
            final(self).players.len() == old(self).players.len(),
            old(self).deep_view().wf() ==> final(self).deep_view().wf(),
    {
        let ghost start = self.deep_view();
        assert(start.players[pi as int] == self.players[pi as int].deep_view());
        self.players[pi].wait_one_turn();
        let done = self.players[pi].take_due_actions();
        proof {
            assert(start.wf() ==> start.players[pi as int].wf());
            lemma_sifted_id(start.players[pi as int].waited(), Seq::empty(), 0);
            Self::lemma_player_replaced(
                start,
                self.players,
                pi as int,
                self.players[pi as int].deep_view(),
            );
        }
        self.complete_list(pi, done, lines);
    }

    /// The second phase of a round's closing, for every player in table order.
    #[verifier::loop_isolation(false)]
    pub fn complete_due_actions(&mut self, lines: &mut Vec<String>)
        ensures
            report_of(*final(self), *final(lines)) == report_of(
                *old(self),
                *old(lines),
            ).complete_all_from(0),
            final(self).players.len() == old(self).players.len(),
            old(self).deep_view().wf() ==> final(self).deep_view().wf(),
    {
        let ghost goal = report_of(*old(self), *old(lines)).complete_all_from(0);
        let n = self.players.len();
        let mut pi: usize = 0;
        while pi < n
            invariant
                pi <= n,
                n == self.players.len(),
                report_of(*self, *lines).complete_all_from(pi as int) == goal,
                old(self).deep_view().wf() ==> self.deep_view().wf(),
            decreases n - pi,
        {
            self.turn_player(pi, lines);
            pi += 1;
        }
    }
}

} // verus!
