//! The `ships` command: a list of the acting player's ships, by planet.
use vstd::prelude::*;
use vstd::string::*;
use crate::commands::checks::checked_view;
use crate::commands::command::{CommandEffect, CommandEffectView, CommandError, CommandErrorView};
use crate::game_state::{GameState, GameStateView};
use crate::ship::{Ship, ShipView};
use crate::text::{decimal, owned, push_decimal};

verus! {

/// How a ship's fleet reads in the list.
pub open spec fn fleet_note(fleet: Option<Seq<char>>) -> Seq<char> {
    match fleet {
        Some(f) => " [Fleet: "@ + f + "]"@,
        None => Seq::empty(),
    }
}

/// The line of one ship.
pub open spec fn ship_line(s: ShipView) -> Seq<char> {
    "  - "@ + s.id + " ("@ + s.ship_type + ")"@ + fleet_note(s.fleet_id) + "\n"@
}

/// Whether one of the first `n` ships is at `location`.
pub open spec fn seen_at(ships: Seq<ShipView>, location: Seq<char>, n: int) -> bool
    decreases n,
{
    n > 0 && (ships[n - 1].location == location || seen_at(ships, location, n - 1))
}

/// A ship seen among the first `k` is seen among the first `n`, from `k` on.
pub proof fn lemma_seen_at_grows(ships: Seq<ShipView>, location: Seq<char>, k: int, n: int)
    requires
        seen_at(ships, location, k),
        k <= n,
    ensures
        seen_at(ships, location, n),
    decreases n - k,
{
    if k < n {
        lemma_seen_at_grows(ships, location, k, n - 1);
    }
}

/// The lines of those among the first `n` ships that are at `location`.
pub open spec fn lines_at(ships: Seq<ShipView>, location: Seq<char>, n: int) -> Seq<char>
    decreases n,
{
    if n <= 0 {
        Seq::empty()
    } else if ships[n - 1].location == location {
        lines_at(ships, location, n - 1) + ship_line(ships[n - 1])
    } else {
        lines_at(ships, location, n - 1)
    }
}

impl GameStateView {
    /// The part of the list on the planet where the `i`-th ship is: its
    /// heading and all the ships there. Empty where an earlier ship is at
    /// the same planet, whose part this is then.
    pub open spec fn location_part(self, ships: Seq<ShipView>, i: int) -> Seq<char> {
        let location = ships[i].location;
        if seen_at(ships, location, i) {
            Seq::empty()
        } else {
            "\n"@ + self.planet_name(location) + " ("@ + location + "):\n"@ + lines_at(
                ships,
                location,
                ships.len() as int,
            )
        }
    }

    /// The parts for the planets of the first `n` ships, each planet once,
    /// in the order in which the ships were built.
    pub open spec fn location_parts(self, ships: Seq<ShipView>, n: int) -> Seq<char>
        decreases n,
    {
        if n <= 0 {
            "=== Your Ships ===\n"@
        } else {
            self.location_parts(ships, n - 1) + self.location_part(ships, n - 1)
        }
    }

    /// What the `ships` command shows.
    pub open spec fn ships_text(self) -> Seq<char> {
        let p = self.players[self.acting()];
        if p.ships.len() == 0 {
            "No ships in your fleet."@
        } else {
            self.location_parts(p.ships, p.ships.len() as int) + ("\nTotal ships: "@ + decimal(
                p.ships.len(),
            ))
        }
    }
}

/// The line of one ship.
pub fn format_ship(ship: &Ship) -> (s: String)
    ensures
        s@ == ship_line(ship.deep_view()),
{
    let mut s = owned("  - ");
    s.append(ship.id.as_str());
    s.append(" (");
    s.append(ship.ship_type.as_str());
    s.append(")");
    let ghost head = s@;
    match &ship.fleet_id {
        Some(f) => {
            let mut note = owned(" [Fleet: ");
            note.append(f.as_str());
            note.append("]");
            s.append(note.as_str());
        },
        None => {
            assert(head + Seq::<char>::empty() =~= head);
        },
    }
    s.append("\n");
    s
}

/// The part of the list on the planet where the `i`-th ship is.
#[verifier::loop_isolation(false)]
pub fn format_location(ships: &Vec<Ship>, i: usize, game_state: &GameState) -> (s: String)
    requires
        i < ships.len(),
    ensures
        s@ == game_state.deep_view().location_part(ships.deep_view(), i as int),
{
    let ghost list = ships.deep_view();
    let ghost g = game_state.deep_view();
    assert(list[i as int] == ships[i as int].deep_view());
    let location = &ships[i].location;
    let mut j: usize = 0;
    while j < i
        invariant
            j <= i,
            !seen_at(list, location@, j as int),
        decreases i - j,
    {
        assert(list[j as int] == ships[j as int].deep_view());
        if ships[j].location == *location {
            assert(seen_at(list, location@, j as int + 1));
            proof {
                lemma_seen_at_grows(list, location@, j as int + 1, i as int);
            }
            return String::new();
        }
        j += 1;
    }
    let mut s = owned("\n");
    match game_state.planet_index(location) {
        Some(qi) => {
            assert(g.map.planets[qi as int] == game_state.map.planets[qi as int].deep_view());
            s.append(game_state.map.planets[qi].name.as_str());
        },
        None => {
            s.append("Unknown");
        },
    }
    s.append(" (");
    s.append(location.as_str());
    s.append("):\n");
    let mut lines = String::new();
    let mut k: usize = 0;
    while k < ships.len()
        invariant
            k <= ships.len(),
            lines@ == lines_at(list, location@, k as int),
        decreases ships.len() - k,
    {
        assert(list[k as int] == ships[k as int].deep_view());
        if ships[k].location == *location {
            let one = format_ship(&ships[k]);
            lines.append(one.as_str());
        }
        k += 1;
    }
    s.append(lines.as_str());
    s
}

/// Lists the ships of the player whose turn it is, planet by planet.
#[verifier::loop_isolation(false)]
pub fn execute(game_state: &GameState) -> (r: Result<CommandEffect, CommandError>)
    requires
        game_state.deep_view().acting() >= 0,
    ensures
        checked_view(r) == Ok::<CommandEffectView, CommandErrorView>(
            CommandEffectView::Message { message: game_state.deep_view().ships_text() },
        ),
{
    let ghost g = game_state.deep_view();
    let pi = game_state.acting_index().unwrap();
    assert(g.players[pi as int] == game_state.players[pi as int].deep_view());
    let player = &game_state.players[pi];
    let ghost p = player.deep_view();
    if player.ships.len() == 0 {
        return Ok(CommandEffect::Message { message: owned("No ships in your fleet.") });
    }
    let mut msg = owned("=== Your Ships ===\n");
    let mut i: usize = 0;
    while i < player.ships.len()
        invariant
            i <= player.ships.len(),
            msg@ == g.location_parts(p.ships, i as int),
        decreases player.ships.len() - i,
    {
        let part = format_location(&player.ships, i, game_state);
        msg.append(part.as_str());
        i += 1;
    }
    let mut total = owned("\nTotal ships: ");
    push_decimal(&mut total, player.ships.len() as u128);
    msg.append(total.as_str());
    Ok(CommandEffect::Message { message: msg })
}

} // verus!
