//! Laws that relate several operations of the game.
use vstd::prelude::*;
use crate::combat::{CombatOutcome, combat_result};
use crate::effects::{refund_of, waste_of};
use crate::game::sole_owner;
use crate::game_state::GameStateView;
use crate::ids::{index_in, lemma_index_in};
use crate::pending_action::action_planets;
use crate::planet::{PlanetView, operational_storage_sum, production_sum};
use crate::player::PlayerView;
use crate::resources::Resources;
use crate::ship_config::ShipDefinitionView;
use crate::structure::{StructureView, operational_at, structure_ids};
use crate::structure_config::lookup_structure;

verus! {

/// Cancelling hands back exactly what was reserved as far as the free
/// storage takes it, and what is handed back and what is lost add up to
/// what was reserved, axis by axis. The stock grows by the refund without
/// clamping, and never passes the capacity by it.
pub proof fn lemma_refund_conserves(reserved: Resources, available: Resources, capacity: Resources)
    ensures
        ({
            let refund = refund_of(reserved, available, capacity);
            let wasted = waste_of(reserved, available, capacity);
            let free = capacity.minus(available);
            let after = available.plus(refund);
            &&& refund.minerals + wasted.minerals == reserved.minerals
            &&& refund.gas + wasted.gas == reserved.gas
            &&& refund.energy + wasted.energy == reserved.energy
            &&& refund == reserved.capped(free)
            &&& free.covers(refund)
            &&& after.minerals == available.minerals + refund.minerals
            &&& after.gas == available.gas + refund.gas
            &&& after.energy == available.energy + refund.energy
            &&& capacity.covers(available) ==> capacity.covers(after)
        }),
{
}

/// A build that is queued and cancelled with nothing in between leaves a
/// planet's stock as it was, and nothing is lost, provided that the stock
/// was within the capacity and covered the price.
pub proof fn lemma_queue_then_cancel_restores(p: PlanetView, cost: Resources)
    requires
        p.storage_capacity.covers(p.available_resources),
        p.available_resources.covers(cost),
    ensures
        ({
            let paid = p.spent(cost);
            let refund = refund_of(cost, paid.available_resources, paid.storage_capacity);
            &&& refund == cost
            &&& waste_of(cost, paid.available_resources, paid.storage_capacity)
                == Resources::nothing()
            &&& paid.refunded(refund) == p
        }),
{
}

/// Completing an upgrade on a planet never lowers a structure's level and
/// never takes it above its highest level: where the upgrade is carried
/// out, the structure of that kind stands exactly one level higher, within
/// its highest level; where it is refused, the planet is as it was.
pub proof fn lemma_upgrade_stays_within_levels(p: PlanetView, id: Seq<char>)
    ensures
        match crate::planet::structure_of(p.structures, id) {
            Some(s) => match p.upgrade_completed(id).1 {
                None => s.level < s.max_level && p.upgrade_completed(id).0 == p.with_structure(
                    s.raised_to((s.level + 1) as u16),
                ) && s.raised_to((s.level + 1) as u16).level == s.level + 1 && s.raised_to(
                    (s.level + 1) as u16,
                ).level <= s.max_level && s.raised_to((s.level + 1) as u16).max_level
                    == s.max_level,
                Some(_) => p.upgrade_completed(id).0 == p,
            },
            None => p.upgrade_completed(id).0 == p,
        },
{
}

/// After production a planet's stock is within its capacity, whatever it
/// was before.
pub proof fn lemma_production_within_capacity(p: PlanetView)
    ensures
        p.produced().storage_capacity.covers(p.produced().available_resources),
        p.produced().storage_capacity == p.storage_capacity,
{
}

/// In a well-formed player no two actions in flight are anchored to the same planet.
pub proof fn lemma_one_action_per_planet(p: PlayerView, i: int, j: int)
    requires
        p.wf(),
        0 <= i < p.pending_actions.len(),
        0 <= j < p.pending_actions.len(),
        i != j,
    ensures
        p.pending_actions[i].planet_id != p.pending_actions[j].planet_id,
{
    let keys = action_planets(p.pending_actions);
    if i < j {
        assert(keys[i] != keys[j]);
    } else {
        assert(keys[j] != keys[i]);
    }
}

/// What the closing of a round never touches: the turn, the rotation, the
/// count of players still to act, both tables, and the places and size of the map.
pub open spec fn frame_kept(before: GameStateView, after: GameStateView) -> bool {
    &&& after.turn == before.turn
    &&& after.players_order == before.players_order
    &&& after.players_remaining_this_turn == before.players_remaining_this_turn
    &&& after.structure_config == before.structure_config
    &&& after.ship_config == before.ship_config
    &&& after.map.planet_positions == before.map.planet_positions
    &&& after.map.size == before.map.size
    &&& after.players.len() == before.players.len()
    &&& after.map.planets.len() == before.map.planets.len()
}

/// The bombardments of one player keep the frame.
pub proof fn lemma_bombard_player_keeps_frame(r: crate::round::Round, pi: int, k: int)
    ensures
        frame_kept(r.state, r.bombard_player_from(pi, k).state),
    decreases r.state.players[pi].pending_actions.len() - k,
{
    let actions = r.state.players[pi].pending_actions;
    if 0 <= pi < r.state.players.len() && 0 <= k < actions.len() {
        match actions[k].action_type {
            crate::pending_action::ActionTypeView::BombardPlanet(fleet, target) => {
                lemma_index_in(crate::planet::planet_ids(r.state.map.planets), target);
                let (r2, over) = r.bombard_one(pi, fleet, target);
                if over {
                    let p = r.state.players[pi];
                    let next = crate::round::Round {
                        state: GameStateView {
                            players: r.state.players.update(
                                pi,
                                PlayerView { pending_actions: actions.remove(k), ..p },
                            ),
                            ..r2.state
                        },
                        ..r2
                    };
                    lemma_bombard_player_keeps_frame(next, pi, k);
                } else {
                    lemma_bombard_player_keeps_frame(r2, pi, k + 1);
                }
            },
            _ => {
                lemma_bombard_player_keeps_frame(r, pi, k + 1);
            },
        }
    }
}

/// The bombardments of all players keep the frame.
pub proof fn lemma_bombard_all_keeps_frame(r: crate::round::Round, pi: int)
    ensures
        frame_kept(r.state, r.bombard_all_from(pi).state),
    decreases r.state.players.len() - pi,
{
    if 0 <= pi < r.state.players.len() {
        lemma_bombard_player_keeps_frame(r, pi, 0);
        let next = r.bombard_player_from(pi, 0);
        if next.state.players.len() == r.state.players.len() {
            lemma_bombard_all_keeps_frame(next, pi + 1);
        }
    }
}

/// One due action of a player keeps the frame.
pub proof fn lemma_complete_one_keeps_frame(
    r: crate::arrival::Report,
    pi: int,
    a: crate::pending_action::PendingActionView,
)
    requires
        0 <= pi < r.state.players.len(),
    ensures
        frame_kept(r.state, r.complete_one(pi, a).state),
{
    let g = r.state;
    lemma_index_in(crate::planet::planet_ids(g.map.planets), a.planet_id);
    match a.action_type {
        crate::pending_action::ActionTypeView::MoveFleet(fleet, dest) => {
            lemma_index_in(crate::planet::planet_ids(g.map.planets), dest);
            let qi = g.planet_index(dest);
            if qi >= 0 {
                match g.map.planets[qi].owner {
                    Some(o) => {
                        lemma_index_in(crate::player::player_ids(g.players), o);
                    },
                    None => {},
                }
            }
        },
        _ => {},
    }
}

/// The due actions of one player keep the frame.
pub proof fn lemma_complete_list_keeps_frame(
    r: crate::arrival::Report,
    pi: int,
    done: Seq<crate::pending_action::PendingActionView>,
    k: int,
)
    requires
        0 <= pi < r.state.players.len(),
    ensures
        frame_kept(r.state, r.complete_list_from(pi, done, k).state),
    decreases done.len() - k,
{
    if 0 <= k < done.len() {
        lemma_complete_one_keeps_frame(r, pi, done[k]);
        lemma_complete_list_keeps_frame(r.complete_one(pi, done[k]), pi, done, k + 1);
    }
}

/// The due actions of all players keep the frame.
pub proof fn lemma_complete_all_keeps_frame(r: crate::arrival::Report, pi: int)
    ensures
        frame_kept(r.state, r.complete_all_from(pi).state),
    decreases r.state.players.len() - pi,
{
    if 0 <= pi < r.state.players.len() {
        let (p, done) = r.state.players[pi].waited().sifted_from(Seq::empty(), 0);
        let start = crate::arrival::Report { state: r.state.with_player(pi, p), ..r };
        lemma_complete_list_keeps_frame(start, pi, done, 0);
        let next = r.player_turned(pi);
        if next.state.players.len() == r.state.players.len() {
            lemma_complete_all_keeps_frame(next, pi + 1);
        }
    }
}

/// Closing a round leaves the turn, the rotation, the count of players
/// still to act and both tables as they were; it changes players and
/// planets only, and neither their number.
pub proof fn lemma_round_keeps_frame(g: GameStateView)
    ensures
        frame_kept(g, g.round_closed().state),
{
    let start = crate::round::Round { state: g, lines: Seq::empty(), hit: Seq::empty() };
    lemma_bombard_all_keeps_frame(start, 0);
    let struck = start.bombard_all_from(0);
    lemma_complete_all_keeps_frame(
        crate::arrival::Report { state: struck.state, lines: struck.lines },
        0,
    );
}

/// Production comes after the completions of the same round: what the
/// closing of a round leaves of a planet is what production, and the rest
/// of its shield, make of the planet as bombardment and the due actions
/// left it. So a structure that a round completes counts in that round's
/// production.
pub proof fn lemma_production_follows_completion(g: GameStateView, i: int)
    requires
        0 <= i < g.map.planets.len(),
    ensures
        ({
            let struck = (crate::round::Round {
                state: g,
                lines: Seq::empty(),
                hit: Seq::empty(),
            }).bombard_all_from(0);
            let done = (crate::arrival::Report {
                state: struck.state,
                lines: struck.lines,
            }).complete_all_from(0);
            g.round_closed().state.map.planets[i] == crate::game::planet_round_end(
                done.state.map.planets[i],
                struck.hit,
            )
        }),
{
    let start = crate::round::Round { state: g, lines: Seq::empty(), hit: Seq::empty() };
    lemma_bombard_all_keeps_frame(start, 0);
    let struck = start.bombard_all_from(0);
    lemma_complete_all_keeps_frame(
        crate::arrival::Report { state: struck.state, lines: struck.lines },
        0,
    );
}

/// Ending a turn closes the round exactly when the acting player was the
/// last to act: before that, nothing but the rotation and the count of
/// players still to act changes.
pub proof fn lemma_round_closes_only_at_its_end(g: GameStateView, player_name: Seq<char>)
    requires
        g.players_order.len() > 0,
        g.players_remaining_this_turn > 1,
    ensures
        match g.turn_ended(player_name) {
            Ok(step) => {
                &&& step.state.players == g.players
                &&& step.state.map == g.map
                &&& step.state.turn == g.turn
                &&& step.state.players_remaining_this_turn == g.players_remaining_this_turn - 1
            },
            Err(_) => false,
        },
{
}

/// When the last player of a round ends the turn, the round closes once:
/// the state that results is the one that bombardment, then the due
/// actions, then production make of the rotated state, whatever the number
/// of players. The rotation has moved by one player and the tables are as
/// they were. Then the owners are looked at: where somebody owns every
/// planet the game stops there, in the same turn and with nobody left to
/// act; otherwise the next turn begins and every player has to act again.
pub proof fn lemma_round_closes_once(g: GameStateView, player_name: Seq<char>)
    requires
        g.players_order.len() > 0,
        g.players_remaining_this_turn <= 1,
    ensures
        ({
            let closed = (GameStateView {
                players_order: crate::game::rotated(g.players_order),
                players_remaining_this_turn: 0,
                ..g
            }).round_closed().state;
            match g.turn_ended(player_name) {
                Ok(step) => {
                    let after = step.state;
                    &&& after.players == closed.players
                    &&& after.map == closed.map
                    &&& after.players_order == crate::game::rotated(g.players_order)
                    &&& after.structure_config == g.structure_config
                    &&& after.ship_config == g.ship_config
                    &&& sole_owner(closed.map.planets).is_some() ==> after == closed && after.turn
                        == g.turn && after.players_remaining_this_turn == 0
                    &&& sole_owner(closed.map.planets).is_none() ==> after.turn
                        == crate::game::next_turn(g.turn) && after.players_remaining_this_turn
                        == g.players_order.len() as usize
                },
                Err(_) => false,
            }
        }),
{
    lemma_round_keeps_frame(
        GameStateView {
            players_order: crate::game::rotated(g.players_order),
            players_remaining_this_turn: 0,
            ..g
        },
    );
    assert(crate::game::rotated(g.players_order).len() == g.players_order.len());
}

/// The arrival of a fleet, with or without a fight, changes no planet: in
/// particular it never changes who owns one.
pub proof fn lemma_arrival_keeps_the_map(
    r: crate::arrival::Report,
    pi: int,
    fleet: Seq<char>,
    dest: Seq<char>,
)
    ensures
        r.arrival(pi, fleet, dest).state.map == r.state.map,
{
}

/// The outcome of a fight is a function of the two rosters and the table
/// of ship types: resolving the same fight again gives the same winner and
/// the same strengths.
pub proof fn lemma_combat_is_deterministic(
    defs: Seq<ShipDefinitionView>,
    attackers: Seq<Seq<char>>,
    defenders: Seq<Seq<char>>,
    first: CombatOutcome,
    second: CombatOutcome,
)
    requires
        attackers.len() <= usize::MAX,
        defenders.len() <= usize::MAX,
        first == combat_result(defs, attackers, defenders),
        second == combat_result(defs, attackers, defenders),
    ensures
        first == second,
        first.attacker_wins == (first.attacker_strength > first.defender_strength),
{
    crate::combat::lemma_side_strength_bound(
        defs,
        attackers,
        defenders,
        true,
        attackers.len() as int,
    );
    crate::combat::lemma_side_strength_bound(
        defs,
        defenders,
        attackers,
        false,
        defenders.len() as int,
    );
}

/// What the arrival of a fleet does to the players, and what it reports,
/// is decided by the players, the table of ship types and the planet
/// arrived at: two games that agree in these see the same fight, with the
/// same winner and the same strengths, whatever else differs between them.
pub proof fn lemma_arrival_is_deterministic(
    a: crate::arrival::Report,
    b: crate::arrival::Report,
    pi: int,
    fleet: Seq<char>,
    dest: Seq<char>,
)
    requires
        a.state.players == b.state.players,
        a.state.ship_config == b.state.ship_config,
        (a.state.planet_index(dest) >= 0) == (b.state.planet_index(dest) >= 0),
        a.state.planet_index(dest) >= 0 ==> a.state.map.planets[a.state.planet_index(dest)].owner
            == b.state.map.planets[b.state.planet_index(dest)].owner
            && a.state.map.planets[a.state.planet_index(dest)].name
            == b.state.map.planets[b.state.planet_index(dest)].name,
    ensures
        a.arrival(pi, fleet, dest).state.players == b.arrival(pi, fleet, dest).state.players,
        a.arrival(pi, fleet, dest).lines.skip(a.lines.len() as int) == b.arrival(
            pi,
            fleet,
            dest,
        ).lines.skip(b.lines.len() as int),
{
    assert(a.arrival(pi, fleet, dest).lines.skip(a.lines.len() as int) =~= b.arrival(
        pi,
        fleet,
        dest,
    ).lines.skip(b.lines.len() as int));
}

/// Rate and capacity summed over the first structures depend on those alone.
pub proof fn lemma_sums_of_a_prefix(s: Seq<StructureView>, t: Seq<StructureView>, n: int)
    requires
        n <= s.len(),
        n <= t.len(),
        forall|i: int| 0 <= i < n ==> s[i] == t[i],
    ensures
        production_sum(s, n) == production_sum(t, n),
        operational_storage_sum(s, n) == operational_storage_sum(t, n),
    decreases n,
{
    if n > 0 {
        lemma_sums_of_a_prefix(s, t, n - 1);
    }
}

/// Production that follows the completion of a build counts what was
/// built. Where a build of a kind that is new to an owned planet completes,
/// the production that comes next adds to the stock what the planet's
/// structures produced before together with the first level's production
/// of the new one, capped at their storage together with its storage.
pub proof fn lemma_completed_structure_produces(
    r: crate::arrival::Report,
    pi: int,
    a: crate::pending_action::PendingActionView,
    id: Seq<char>,
    hit: Seq<Seq<char>>,
)
    requires
        a.action_type == crate::pending_action::ActionTypeView::BuildStructure(id),
        r.state.planet_index(a.planet_id) >= 0,
        r.state.map.planets[r.state.planet_index(a.planet_id)].owner.is_some(),
        r.state.map.planets[r.state.planet_index(a.planet_id)].build_completed(
            id,
            r.state.structure_config,
        ).1.is_none(),
        index_in(
            structure_ids(r.state.map.planets[r.state.planet_index(a.planet_id)].structures),
            id,
        ) < 0,
    ensures
        ({
            let qi = r.state.planet_index(a.planet_id);
            let before = r.state.map.planets[qi];
            let n = before.structures.len() as int;
            let def = lookup_structure(r.state.structure_config, id).unwrap();
            let after = r.complete_one(pi, a).state.produced_all(hit).map.planets[qi];
            let rate = production_sum(before.structures, n).plus(def.production[0]);
            let room = operational_storage_sum(before.structures, n).plus(def.storage_capacity[0]);
            &&& after.structures == before.structures.push(operational_at(def, 1))
            &&& after.production_rate == rate
            &&& after.storage_capacity == room
            &&& after.available_resources == before.available_resources.plus(rate).capped(room)
        }),
{
    let g = r.state;
    let qi = g.planet_index(a.planet_id);
    let before = g.map.planets[qi];
    let n = before.structures.len() as int;
    lemma_index_in(crate::planet::planet_ids(g.map.planets), a.planet_id);
    lemma_index_in(crate::structure_config::structure_def_ids(g.structure_config), id);
    let def = lookup_structure(g.structure_config, id).unwrap();
    assert(def.id == id);
    let built = before.structures.push(operational_at(def, 1));
    assert(crate::planet::installed(before.structures, operational_at(def, 1)) == built);
    lemma_sums_of_a_prefix(built, before.structures, n);
}

} // verus!
