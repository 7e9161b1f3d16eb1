//! The `fleets` command: a list of the acting player's fleets.
use vstd::prelude::*;
use vstd::string::*;
use crate::commands::checks::checked_view;
use crate::commands::command::{CommandEffect, CommandEffectView, CommandError, CommandErrorView};
use crate::fleet::{Fleet, FleetView};
use crate::game_state::{GameState, GameStateView};
use crate::ids::find_by_id;
use crate::player::{Player, lemma_ship_list_idents, ship_of};
use crate::ship::ShipView;
use crate::text::{decimal, owned, push_decimal};

verus! {

/// The wording of a line shown to the player.
pub open spec fn no_fleets_text() -> Seq<char> {
    "No fleets formed. Use 'fleet create <name> <ship_id>...' to create one."@
}

/// The line of one member of a fleet; nothing for a member that does not exist.
pub open spec fn member_line(ships: Seq<ShipView>, member: Seq<char>) -> Seq<char> {
    match ship_of(ships, member) {
        Some(s) => "  - "@ + s.id + " ("@ + s.ship_type + ")\n"@,
        None => Seq::empty(),
    }
}

/// The lines of the first `n` members of a fleet.
pub open spec fn member_lines(ships: Seq<ShipView>, members: Seq<Seq<char>>, n: int) -> Seq<char>
    decreases n,
{
    if n <= 0 {
        Seq::empty()
    } else {
        member_lines(ships, members, n - 1) + member_line(ships, members[n - 1])
    }
}

impl GameStateView {
    /// The part of the list on one fleet: where it is, its ships, their number.
    pub open spec fn fleet_part(self, ships: Seq<ShipView>, f: FleetView) -> Seq<char> {
        "\n"@ + f.name + " ("@ + f.id + ") at "@ + self.planet_name(f.location) + " ("@ + f.location
            + "):\n"@ + (if f.ships.len() == 0 {
            "  (empty)\n"@
        } else {
            member_lines(ships, f.ships, f.ships.len() as int)
        }) + ("  Ships: "@ + decimal(f.ships.len()) + "\n"@)
    }

    /// The parts on the first `n` fleets.
    pub open spec fn fleet_parts(self, ships: Seq<ShipView>, fleets: Seq<FleetView>, n: int) -> Seq<
        char,
    >
        decreases n,
    {
        if n <= 0 {
            "=== Your Fleets ===\n"@
        } else {
            self.fleet_parts(ships, fleets, n - 1) + self.fleet_part(ships, fleets[n - 1])
        }
    }

    /// What the `fleets` command shows.
    pub open spec fn fleets_text(self) -> Seq<char> {
        let p = self.players[self.acting()];
        if p.fleets.len() == 0 {
            no_fleets_text()
        } else {
            self.fleet_parts(p.ships, p.fleets, p.fleets.len() as int) + ("\nTotal fleets: "@
                + decimal(p.fleets.len()))
        }
    }
}

/// The part of the list on one fleet.
#[verifier::loop_isolation(false)]
pub fn format_fleet(fleet: &Fleet, player: &Player, game_state: &GameState) -> (s: String)
    ensures
        s@ == game_state.deep_view().fleet_part(player.deep_view().ships, fleet.deep_view()),
{
    let ghost g = game_state.deep_view();
    let ghost ships = player.deep_view().ships;
    let ghost f = fleet.deep_view();
    let mut s = owned("\n");
    s.append(fleet.name.as_str());
    s.append(" (");
    s.append(fleet.id.as_str());
    s.append(") at ");
    match game_state.planet_index(&fleet.location) {
        Some(qi) => {
            assert(g.map.planets[qi as int] == game_state.map.planets[qi as int].deep_view());
            s.append(game_state.map.planets[qi].name.as_str());
        },
        None => {
            s.append("Unknown");
        },
    }
    s.append(" (");
    s.append(fleet.location.as_str());
    s.append("):\n");
    let mut body = String::new();
    if fleet.ships.len() == 0 {
        body.append("  (empty)\n");
        assert(body@ =~= "  (empty)\n"@);
    } else {
        proof {
            lemma_ship_list_idents(player.ships);
        }
        let mut i: usize = 0;
        while i < fleet.ships.len()
            invariant
                i <= fleet.ships.len(),
                body@ == member_lines(ships, f.ships, i as int),
            decreases fleet.ships.len() - i,
        {
            assert(f.ships[i as int] == fleet.ships[i as int]@);
            let ghost before = body@;
            match find_by_id(&player.ships, &fleet.ships[i]) {
                Some(k) => {
                    assert(ships[k as int] == player.ships[k as int].deep_view());
                    let mut one = owned("  - ");
                    one.append(player.ships[k].id.as_str());
                    one.append(" (");
                    one.append(player.ships[k].ship_type.as_str());
                    one.append(")\n");
                    body.append(one.as_str());
                },
                None => {
                    assert(before + Seq::<char>::empty() =~= before);
                },
            }
            i += 1;
        }
    }
    s.append(body.as_str());
    let mut count = owned("  Ships: ");
    push_decimal(&mut count, fleet.ship_count() as u128);
    count.append("\n");
    s.append(count.as_str());
    s
}

/// Lists the fleets of the player whose turn it is.
#[verifier::loop_isolation(false)]
pub fn execute(game_state: &GameState) -> (r: Result<CommandEffect, CommandError>)
    requires
        game_state.deep_view().acting() >= 0,
    ensures
        checked_view(r) == Ok::<CommandEffectView, CommandErrorView>(
            CommandEffectView::Message { message: game_state.deep_view().fleets_text() },
        ),
{
    let ghost g = game_state.deep_view();
    let pi = game_state.acting_index().unwrap();
    assert(g.players[pi as int] == game_state.players[pi as int].deep_view());
    let player = &game_state.players[pi];
    let ghost p = player.deep_view();
    if player.fleets.len() == 0 {
        return Ok(
            CommandEffect::Message {
                message: owned(
                    "No fleets formed. Use 'fleet create <name> <ship_id>...' to create one.",
                ),
            },
        );
    }
    let mut msg = owned("=== Your Fleets ===\n");
    let mut i: usize = 0;
    while i < player.fleets.len()
        invariant
            i <= player.fleets.len(),
            msg@ == g.fleet_parts(p.ships, p.fleets, i as int),
        decreases player.fleets.len() - i,
    {
        assert(p.fleets[i as int] == player.fleets[i as int].deep_view());
        let part = format_fleet(&player.fleets[i], player, game_state);
        msg.append(part.as_str());
        i += 1;
    }
    let mut total = owned("\nTotal fleets: ");
    push_decimal(&mut total, player.fleets.len() as u128);
    msg.append(total.as_str());
    Ok(CommandEffect::Message { message: msg })
}

} // verus!
