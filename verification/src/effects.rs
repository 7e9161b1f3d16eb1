//! What each accepted command does to the game.
use vstd::prelude::*;
use vstd::string::*;
use crate::game_state::{GameState, GameStateView};
use crate::ids::{index_in};
use crate::pending_action::{
    ActionType,
    ActionTypeView,
    PendingAction,
    PendingActionView,
    action_planets,
};
use crate::planet::{
    BuildInfo,
    PlanetView,
    planet_error_text,
    planet_ids,
    push_resources,
    resources_text,
};
use crate::player::{PlayerView, lemma_distinct_push, player_ids};
use crate::resources::Resources;
use crate::ship_config::lookup_ship;
use crate::text::{decimal, owned, push_decimal};

verus! {

/// A new state together with the lines to show for it.
pub struct Step {
    pub state: GameStateView,
    pub lines: Seq<Seq<char>>,
}

/// What an effect does: a step, or the reason why nothing happened.
pub type Outcome = Result<Step, Seq<char>>;

/// Whether what a function did and returned is what `expected` says: on
/// refusal the state is untouched.
pub open spec fn effect_matches(
    before: GameStateView,
    after: GameStateView,
    r: Result<Vec<String>, String>,
    expected: Outcome,
) -> bool {
    match expected {
        Ok(step) => r.is_ok() && after == step.state && r.unwrap().deep_view() == step.lines,
        Err(reason) => r.is_err() && r.unwrap_err()@ == reason && after == before,
    }
}

/// The wording of a line shown to the player.
pub open spec fn no_player_text() -> Seq<char> {
    "Current player must exist in game state"@
}

/// The wording of a line shown to the player.
pub open spec fn no_planet_text() -> Seq<char> {
    "Planet must exist (validated by command)"@
}

/// The wording of a line shown to the player.
pub open spec fn busy_text() -> Seq<char> {
    "Planet already has a pending action"@
}

/// The wording of a line shown to the player.
pub open spec fn no_ship_type_text() -> Seq<char> {
    "Ship must exist (validated by command)"@
}

/// The wording of a line shown to the player.
pub open spec fn no_action_text() -> Seq<char> {
    "Pending action must exist (validated by command)"@
}

/// The wording of a line shown to the player.
pub open spec fn build_queued_text(info: BuildInfo) -> Seq<char> {
    "Construction queued. Resources spent: "@ + resources_text(info.cost)
        + ". Turns to complete: "@ + decimal(info.turns as nat)
}

/// The wording of a line shown to the player.
pub open spec fn upgrade_queued_text(info: BuildInfo) -> Seq<char> {
    "Upgrade queued. Resources spent: "@ + resources_text(info.cost) + ". Turns to complete: "@
        + decimal(info.turns as nat)
}

/// The wording of a line shown to the player.
pub open spec fn ship_queued_text(ship: Seq<char>, cost: Resources, turns: u32) -> Seq<char> {
    "Ship construction queued: "@ + ship + ". Resources spent: "@ + resources_text(cost)
        + ". Turns to complete: "@ + decimal(turns as nat)
}

/// The wording of a line shown to the player.
pub open spec fn cancelled_text(planet: Seq<char>, refund: Resources, wasted: Resources) -> Seq<
    char,
> {
    if wasted == Resources::nothing() {
        "Action cancelled on planet "@ + planet + ". Resources refunded: "@ + resources_text(
            refund,
        )
    } else {
        "Action cancelled on planet "@ + planet + ". Resources refunded: "@ + resources_text(
            refund,
        ) + ". Wasted (storage full): "@ + resources_text(wasted)
    }
}

/// What of `reserved` fits into the free storage of a planet.
pub open spec fn refund_of(reserved: Resources, available: Resources, capacity: Resources) -> Resources {
    reserved.capped(capacity.minus(available))
}

/// What of `reserved` does not fit into the free storage of a planet.
pub open spec fn waste_of(reserved: Resources, available: Resources, capacity: Resources) -> Resources {
    reserved.minus(refund_of(reserved, available, capacity))
}

/// Splits what an action reserved into what the planet's free storage takes
/// back and what is lost.
pub fn refund_split(reserved: &Resources, available: &Resources, capacity: &Resources) -> (r: (
    Resources,
    Resources,
))
    ensures
        r.0 == refund_of(*reserved, *available, *capacity),
        r.1 == waste_of(*reserved, *available, *capacity),
{
    let space = capacity.sub(available);
    let refund = reserved.capped_at(&space);
    let wasted = reserved.sub(&refund);
    (refund, wasted)
}

impl PlanetView {
    /// The planet after `cost` was paid out of its stock.
    pub open spec fn spent(self, cost: Resources) -> PlanetView {
        PlanetView { available_resources: self.available_resources.minus(cost), ..self }
    }

    /// The planet after `amount` came back into its stock.
    pub open spec fn refunded(self, amount: Resources) -> PlanetView {
        PlanetView { available_resources: self.available_resources.plus(amount), ..self }
    }
}

impl PlayerView {
    /// The player with one more action in flight.
    pub open spec fn with_action(self, a: PendingActionView) -> PlayerView {
        PlayerView { pending_actions: self.pending_actions.push(a), ..self }
    }
}

impl GameStateView {
    /// The state after the `pi`-th player queued `a`, paid from the `qi`-th planet.
    pub open spec fn enqueued(self, pi: int, qi: int, a: PendingActionView) -> GameStateView {
        self.with_planet(qi, self.map.planets[qi].spent(a.reserved_resources)).with_player(
            pi,
            self.players[pi].with_action(a),
        )
    }

    /// What queueing an action that the `qi`-th planet prices with `check` does.
    pub open spec fn queue_priced(
        self,
        planet_id: Seq<char>,
        action_type: ActionTypeView,
        check: Result<BuildInfo, Seq<char>>,
        line: Seq<char>,
    ) -> Outcome {
        let pi = self.acting();
        let qi = self.planet_index(planet_id);
        match check {
            Err(reason) => Err(reason),
            Ok(info) => Ok(
                Step {
                    state: self.enqueued(
                        pi,
                        qi,
                        PendingActionView {
                            action_type,
                            planet_id,
                            cooldown_remaining: info.turns,
                            reserved_resources: info.cost,
                        },
                    ),
                    lines: seq![line],
                },
            ),
        }
    }

    /// The reason, if any, why the acting player cannot queue an action on `planet_id`.
    pub open spec fn queue_refusal(self, planet_id: Seq<char>) -> Option<Seq<char>> {
        let pi = self.acting();
        if pi < 0 {
            Some(no_player_text())
        } else if self.players[pi].busy_at(planet_id) {
            Some(busy_text())
        } else if self.planet_index(planet_id) < 0 {
            Some(no_planet_text())
        } else {
            None
        }
    }

    /// What a `BuildStructure` effect does.
    pub open spec fn build_queued(self, planet_id: Seq<char>, structure_id: Seq<char>) -> Outcome {
        match self.queue_refusal(planet_id) {
            Some(reason) => Err(reason),
            None => {
                let planet = self.map.planets[self.planet_index(planet_id)];
                match planet.build_check(structure_id, self.structure_config) {
                    Err(e) => Err(planet_error_text(e)),
                    Ok(info) => self.queue_priced(
                        planet_id,
                        ActionTypeView::BuildStructure(structure_id),
                        Ok(info),
                        build_queued_text(info),
                    ),
                }
            },
        }
    }

    /// What an `UpgradeStructure` effect does.
    pub open spec fn upgrade_queued(self, planet_id: Seq<char>, structure_id: Seq<char>) -> Outcome {
        match self.queue_refusal(planet_id) {
            Some(reason) => Err(reason),
            None => {
                let planet = self.map.planets[self.planet_index(planet_id)];
                match planet.upgrade_check(structure_id) {
                    Err(e) => Err(planet_error_text(e)),
                    Ok(info) => self.queue_priced(
                        planet_id,
                        ActionTypeView::UpgradeStructure(structure_id),
                        Ok(info),
                        upgrade_queued_text(info),
                    ),
                }
            },
        }
    }

    /// What a `BuildShip` effect does. The price is checked once more
    /// against the planet's stock before it is paid.
    pub open spec fn ship_queued(self, planet_id: Seq<char>, ship_id: Seq<char>) -> Outcome {
        let pi = self.acting();
        if pi < 0 {
            Err(no_player_text())
        } else if self.players[pi].busy_at(planet_id) {
            Err(busy_text())
        } else {
            match lookup_ship(self.ship_config, ship_id) {
                None => Err(no_ship_type_text()),
                Some(def) => if self.planet_index(planet_id) < 0 {
                    Err(no_planet_text())
                } else if !self.map.planets[self.planet_index(
                    planet_id,
                )].available_resources.covers(def.cost) {
                    Err(
                        planet_error_text(
                            crate::planet::PlanetErrorView::NotEnoughResources {
                                name: self.map.planets[self.planet_index(planet_id)].name,
                                cost: def.cost,
                            },
                        ),
                    )
                } else {
                    self.queue_priced(
                        planet_id,
                        ActionTypeView::BuildShip(ship_id),
                        Ok(BuildInfo { cost: def.cost, turns: def.build_time }),
                        ship_queued_text(ship_id, def.cost, def.build_time),
                    )
                },
            }
        }
    }

    /// What a `CancelAction` effect does: the action leaves the queue and
    /// what it reserved returns to the planet as far as the free storage
    /// takes it; the rest is lost and reported.
    pub open spec fn action_cancelled(self, planet_id: Seq<char>) -> Outcome {
        let pi = self.acting();
        if pi < 0 {
            Err(no_player_text())
        } else {
            let player = self.players[pi];
            let ai = index_in(action_planets(player.pending_actions), planet_id);
            let qi = self.planet_index(planet_id);
            if ai < 0 {
                Err(no_action_text())
            } else if qi < 0 {
                Err(no_planet_text())
            } else {
                let planet = self.map.planets[qi];
                let reserved = player.pending_actions[ai].reserved_resources;
                let refund = refund_of(reserved, planet.available_resources, planet.storage_capacity);
                let wasted = waste_of(reserved, planet.available_resources, planet.storage_capacity);
                Ok(
                    Step {
                        state: self.with_planet(qi, planet.refunded(refund)).with_player(
                            pi,
                            player.without_action_at(planet_id),
                        ),
                        lines: seq![cancelled_text(planet.name, refund, wasted)],
                    },
                )
            }
        }
    }
}

/// Replacing a player by a well-formed one of the same name keeps the state well formed.
pub proof fn lemma_with_player_wf(g: GameStateView, i: int, p: PlayerView)
    requires
        g.wf(),
        0 <= i < g.players.len(),
        p.wf(),
        p.id == g.players[i].id,
    ensures
        g.with_player(i, p).wf(),
{
    let h = g.with_player(i, p);
    assert(player_ids(h.players) =~= player_ids(g.players));
    assert forall|j: int| 0 <= j < h.players.len() implies (#[trigger] h.players[j]).wf() by {
        if j != i {
            assert(g.players[j].wf());
        }
    }
}

/// Replacing a planet by one of the same name keeps the state well formed.
pub proof fn lemma_with_planet_wf(g: GameStateView, i: int, p: PlanetView)
    requires
        g.wf(),
        0 <= i < g.map.planets.len(),
        p.id == g.map.planets[i].id,
    ensures
        g.with_planet(i, p).wf(),
{
    let h = g.with_planet(i, p);
    assert(planet_ids(h.map.planets) =~= planet_ids(g.map.planets));
    assert forall|j: int| 0 <= j < h.players.len() implies (#[trigger] h.players[j]).wf() by {
        assert(g.players[j].wf());
    }
}

/// One line as a list of lines.
pub fn one_line(line: String) -> (r: Vec<String>)
    ensures
        r.deep_view() == seq![line@],
{
    let mut v: Vec<String> = Vec::new();
    v.push(line);
    assert(v.deep_view() =~= seq![line@]);
    v
}

impl GameState {
    /// Queues `action` for the `pi`-th player and pays what it reserves out
    /// of the `qi`-th planet's stock.
    pub fn enqueue(&mut self, pi: usize, qi: usize, action: PendingAction)
        requires
            pi < old(self).players.len(),
            qi < old(self).map.planets.len(),
            !old(self).deep_view().players[pi as int].busy_at(action.planet_id@),
        ensures
            final(self).deep_view() == old(self).deep_view().enqueued(
                pi as int,
                qi as int,
                action.deep_view(),
            ),
            old(self).deep_view().wf() ==> final(self).deep_view().wf(),
    {
        let ghost g = self.deep_view();
        let ghost a = action.deep_view();
        let cost = action.reserved_resources;
        self.map.planets[qi].available_resources.sub_assign(&cost);
        self.players[pi].pending_actions.push(action);
        proof {
            let planet = g.map.planets[qi as int].spent(a.reserved_resources);
            let player = g.players[pi as int].with_action(a);
            assert(self.map.planets.deep_view() =~= g.map.planets.update(qi as int, planet));
            assert(self.players[pi as int].pending_actions.deep_view()
                =~= g.players[pi as int].pending_actions.push(a));
            assert(self.players.deep_view() =~= g.players.update(pi as int, player));
            if g.wf() {
                assert(g.players[pi as int].wf());
                assert(action_planets(player.pending_actions) =~= action_planets(
                    g.players[pi as int].pending_actions,
                ).push(a.planet_id));
                lemma_distinct_push(
                    action_planets(g.players[pi as int].pending_actions),
                    a.planet_id,
                );
                lemma_with_planet_wf(g, qi as int, planet);
                lemma_with_player_wf(g.with_planet(qi as int, planet), pi as int, player);
            }
        }
    }

    /// Checks that the acting player may queue an action on `planet_id` and
    /// finds both in the state.
    pub fn queue_site(&self, planet_id: &String) -> (r: Result<(usize, usize), String>)
        ensures
            match r {
                Ok((pi, qi)) => self.deep_view().queue_refusal(planet_id@).is_none() && pi
                    == self.deep_view().acting() && qi == self.deep_view().planet_index(
                    planet_id@,
                ) && pi < self.players.len() && qi < self.map.planets.len(),
                Err(reason) => self.deep_view().queue_refusal(planet_id@) == Some(reason@),
            },
    {
        let pi = match self.acting_index() {
            Some(i) => i,
            None => {
                return Err(owned("Current player must exist in game state"));
            },
        };
        assert(self.players.deep_view()[pi as int] == self.players[pi as int].deep_view());
        if self.players[pi].has_pending_action_on_planet(planet_id) {
            return Err(owned("Planet already has a pending action"));
        }
        match self.planet_index(planet_id) {
            Some(qi) => Ok((pi, qi)),
            None => Err(owned("Planet must exist (validated by command)")),
        }
    }

    /// Carries out a `BuildStructure` effect.
    pub fn queue_build(&mut self, planet_id: String, structure_id: String) -> (r: Result<
        Vec<String>,
        String,
    >)
        ensures
            effect_matches(
                old(self).deep_view(),
                final(self).deep_view(),
                r,
                old(self).deep_view().build_queued(planet_id@, structure_id@),
            ),
            old(self).deep_view().wf() ==> final(self).deep_view().wf(),
    {
        let (pi, qi) = match self.queue_site(&planet_id) {
            Ok(site) => site,
            Err(reason) => {
                return Err(reason);
            },
        };
        assert(self.map.planets.deep_view()[qi as int] == self.map.planets[qi as int].deep_view());
        assert(self.players.deep_view()[pi as int] == self.players[pi as int].deep_view());
        let info = match self.map.planets[qi].validate_build_structure(
            &structure_id,
            &self.structure_config,
        ) {
            Ok(info) => info,
            Err(e) => {
                return Err(e.message());
            },
        };
        let action = PendingAction::new(
            ActionType::BuildStructure(structure_id),
            planet_id,
            info.turns,
            info.cost,
        );
        self.enqueue(pi, qi, action);
        let mut line = owned("Construction queued. Resources spent: ");
        push_resources(&mut line, &info.cost);
        line.append(". Turns to complete: ");
        push_decimal(&mut line, info.turns as u128);
        Ok(one_line(line))
    }

    /// Carries out an `UpgradeStructure` effect.
    pub fn queue_upgrade(&mut self, planet_id: String, structure_id: String) -> (r: Result<
        Vec<String>,
        String,
    >)
        ensures
            effect_matches(
                old(self).deep_view(),
                final(self).deep_view(),
                r,
                old(self).deep_view().upgrade_queued(planet_id@, structure_id@),
            ),
            old(self).deep_view().wf() ==> final(self).deep_view().wf(),
    {
        let (pi, qi) = match self.queue_site(&planet_id) {
            Ok(site) => site,
            Err(reason) => {
                return Err(reason);
            },
        };
        assert(self.map.planets.deep_view()[qi as int] == self.map.planets[qi as int].deep_view());
        assert(self.players.deep_view()[pi as int] == self.players[pi as int].deep_view());
        let info = match self.map.planets[qi].validate_upgrade_structure(&structure_id) {
            Ok(info) => info,
            Err(e) => {
                return Err(e.message());
            },
        };
        let action = PendingAction::new(
            ActionType::UpgradeStructure(structure_id),
            planet_id,
            info.turns,
            info.cost,
        );
        self.enqueue(pi, qi, action);
        let mut line = owned("Upgrade queued. Resources spent: ");
        push_resources(&mut line, &info.cost);
        line.append(". Turns to complete: ");
        push_decimal(&mut line, info.turns as u128);
        Ok(one_line(line))
    }

    /// Carries out a `BuildShip` effect.
    pub fn queue_ship(&mut self, planet_id: String, ship_id: String) -> (r: Result<
        Vec<String>,
        String,
    >)
        ensures
            effect_matches(
                old(self).deep_view(),
                final(self).deep_view(),
                r,
                old(self).deep_view().ship_queued(planet_id@, ship_id@),
            ),
            old(self).deep_view().wf() ==> final(self).deep_view().wf(),
    {
        let pi = match self.acting_index() {
            Some(i) => i,
            None => {
                return Err(owned("Current player must exist in game state"));
            },
        };
        assert(self.players.deep_view()[pi as int] == self.players[pi as int].deep_view());
        if self.players[pi].has_pending_action_on_planet(&planet_id) {
            return Err(owned("Planet already has a pending action"));
        }
        let def = match self.ship_config.get(&ship_id) {
            Some(d) => d,
            None => {
                return Err(owned("Ship must exist (validated by command)"));
            },
        };
        let qi = match self.planet_index(&planet_id) {
            Some(i) => i,
            None => {
                return Err(owned("Planet must exist (validated by command)"));
            },
        };
        let build_time = def.build_time;
        let cost = def.cost;
        assert(self.map.planets.deep_view()[qi as int] == self.map.planets[qi as int].deep_view());
        if !self.map.planets[qi].available_resources.has_enough(&cost) {
            let short = crate::planet::PlanetError::NotEnoughResources {
                name: self.map.planets[qi].name.clone(),
                cost,
            };
            return Err(short.message());
        }
        let mut line = owned("Ship construction queued: ");
        line.append(ship_id.as_str());
        line.append(". Resources spent: ");
        push_resources(&mut line, &cost);
        line.append(". Turns to complete: ");
        push_decimal(&mut line, build_time as u128);
        let action = PendingAction::new(ActionType::BuildShip(ship_id), planet_id, build_time, cost);
        self.enqueue(pi, qi, action);
        Ok(one_line(line))
    }

    /// Carries out a `CancelAction` effect.
    pub fn cancel_action(&mut self, planet_id: String) -> (r: Result<Vec<String>, String>)
        ensures
            effect_matches(
                old(self).deep_view(),
                final(self).deep_view(),
                r,
                old(self).deep_view().action_cancelled(planet_id@),
            ),
            old(self).deep_view().wf() ==> final(self).deep_view().wf(),
    {
        let ghost g = self.deep_view();
        let pi = match self.acting_index() {
            Some(i) => i,
            None => {
                return Err(owned("Current player must exist in game state"));
            },
        };
        assert(g.players[pi as int] == self.players[pi as int].deep_view());
        let ai = match self.players[pi].pending_action_index(&planet_id) {
            Some(i) => i,
            None => {
                return Err(owned("Pending action must exist (validated by command)"));
            },
        };
        let qi = match self.planet_index(&planet_id) {
            Some(i) => i,
            None => {
                return Err(owned("Planet must exist (validated by command)"));
            },
        };
        assert(g.map.planets[qi as int] == self.map.planets[qi as int].deep_view());
        assert(g.players[pi as int].pending_actions[ai as int]
            == self.players[pi as int].pending_actions[ai as int].deep_view());
        let reserved = self.players[pi].pending_actions[ai].reserved_resources;
        let (refund, wasted) = refund_split(
            &reserved,
            &self.map.planets[qi].available_resources,
            &self.map.planets[qi].storage_capacity,
        );
        let removed = self.players[pi].remove_pending_action_on_planet(&planet_id);
        self.map.planets[qi].available_resources.add_assign(&refund);
        let mut line = owned("Action cancelled on planet ");
        line.append(self.map.planets[qi].name.as_str());
        line.append(". Resources refunded: ");
        push_resources(&mut line, &refund);
        if !(wasted.minerals == 0 && wasted.gas == 0 && wasted.energy == 0) {
            line.append(". Wasted (storage full): ");
            push_resources(&mut line, &wasted);
        }
        proof {
            let planet = g.map.planets[qi as int].refunded(refund);
            let player = g.players[pi as int].without_action_at(planet_id@);
            assert(self.map.planets.deep_view() =~= g.map.planets.update(qi as int, planet));
            assert(self.players.deep_view() =~= g.players.update(pi as int, player));
            if g.wf() {
                assert(g.players[pi as int].wf());
                lemma_with_planet_wf(g, qi as int, planet);
                lemma_with_player_wf(g.with_planet(qi as int, planet), pi as int, player);
            }
        }
        Ok(one_line(line))
    }
}

} // verus!
