//! The `fleet` command and its actions.
use vstd::prelude::*;
use vstd::string::*;
use crate::combat::{fleet_roster, fleet_ship_types};
use crate::commands::checks::checked_view;
use crate::commands::command::{CommandEffect, CommandEffectView, CommandError, CommandErrorView};
use crate::commands::parser::Parseable;
use crate::game_state::{GameState, GameStateView, fleet_power};
use crate::ids::{contains_text, copy_texts, find_by_id};
use crate::planet::{ConnectionView};
use crate::player::{Player, fleet_of, lemma_fleet_list_idents, lemma_ship_list_idents, ship_of};
use crate::ship::ShipView;
use crate::text::{decimal, owned, push_decimal, str_eq};
use crate::war_effects::colony_ship_kind;

verus! {

/// What a `fleet` command asks for.
#[derive(Debug)]
pub enum FleetAction {
    Create { name: String, ship_ids: Vec<String> },
    Add { fleet_id: String, ship_ids: Vec<String> },
    Remove { fleet_id: String, ship_ids: Vec<String> },
    Disband { fleet_id: String },
    Move { fleet_id: String, target_planet: String },
    Bombard { fleet_id: String },
    CancelBombard { fleet_id: String },
    Colonize { fleet_id: String },
}

/// What a [`FleetAction`] holds, with every text as its sequence of characters.
pub enum FleetActionView {
    Create { name: Seq<char>, ship_ids: Seq<Seq<char>> },
    Add { fleet_id: Seq<char>, ship_ids: Seq<Seq<char>> },
    Remove { fleet_id: Seq<char>, ship_ids: Seq<Seq<char>> },
    Disband { fleet_id: Seq<char> },
    Move { fleet_id: Seq<char>, target_planet: Seq<char> },
    Bombard { fleet_id: Seq<char> },
    CancelBombard { fleet_id: Seq<char> },
    Colonize { fleet_id: Seq<char> },
}

impl DeepView for FleetAction {
    type V = FleetActionView;

    open spec fn deep_view(&self) -> FleetActionView {
        match self {
            FleetAction::Create { name, ship_ids } => FleetActionView::Create {
                name: name@,
                ship_ids: ship_ids.deep_view(),
            },
            FleetAction::Add { fleet_id, ship_ids } => FleetActionView::Add {
                fleet_id: fleet_id@,
                ship_ids: ship_ids.deep_view(),
            },
            FleetAction::Remove { fleet_id, ship_ids } => FleetActionView::Remove {
                fleet_id: fleet_id@,
                ship_ids: ship_ids.deep_view(),
            },
            FleetAction::Disband { fleet_id } => FleetActionView::Disband { fleet_id: fleet_id@ },
            FleetAction::Move { fleet_id, target_planet } => FleetActionView::Move {
                fleet_id: fleet_id@,
                target_planet: target_planet@,
            },
            FleetAction::Bombard { fleet_id } => FleetActionView::Bombard { fleet_id: fleet_id@ },
            FleetAction::CancelBombard { fleet_id } => FleetActionView::CancelBombard {
                fleet_id: fleet_id@,
            },
            FleetAction::Colonize { fleet_id } => FleetActionView::Colonize { fleet_id: fleet_id@ },
        }
    }
}

/// The arguments of `fleet`.
#[derive(Debug)]
pub struct FleetArgs {
    pub action: FleetAction,
}

impl DeepView for FleetArgs {
    type V = FleetActionView;

    open spec fn deep_view(&self) -> FleetActionView {
        self.action.deep_view()
    }
}

/// The error for a `fleet` action that lacks arguments.
pub open spec fn fleet_missing(command: Seq<char>, expected: Seq<char>) -> Result<
    FleetActionView,
    CommandErrorView,
> {
    Err(CommandErrorView::MissingArguments { command, expected })
}

/// The wording of a line shown to the player.
pub open spec fn fleet_actions_text() -> Seq<char> {
    "valid actions are: create, add, remove, disband, move, bombard, cancel-bombard, colonize"@
}

impl Parseable for FleetArgs {
    /// The first word names the action; what follows are its arguments, of
    /// which those beyond the action's needs are ignored.
    open spec fn parsed(args: Seq<Seq<char>>) -> Result<FleetActionView, CommandErrorView> {
        if args.len() == 0 {
            fleet_missing("fleet"@, "fleet <create|add|remove|disband|move> ..."@)
        } else if args[0] == "create"@ {
            if args.len() < 3 {
                fleet_missing("fleet create"@, "fleet create <name> <ship_id> [ship_id...]"@)
            } else {
                Ok(FleetActionView::Create { name: args[1], ship_ids: args.skip(2) })
            }
        } else if args[0] == "add"@ {
            if args.len() < 3 {
                fleet_missing("fleet add"@, "fleet add <fleet_id> <ship_id> [ship_id...]"@)
            } else {
                Ok(FleetActionView::Add { fleet_id: args[1], ship_ids: args.skip(2) })
            }
        } else if args[0] == "remove"@ {
            if args.len() < 3 {
                fleet_missing("fleet remove"@, "fleet remove <fleet_id> <ship_id> [ship_id...]"@)
            } else {
                Ok(FleetActionView::Remove { fleet_id: args[1], ship_ids: args.skip(2) })
            }
        } else if args[0] == "disband"@ {
            if args.len() < 2 {
                fleet_missing("fleet disband"@, "fleet disband <fleet_id>"@)
            } else {
                Ok(FleetActionView::Disband { fleet_id: args[1] })
            }
        } else if args[0] == "move"@ {
            if args.len() < 3 {
                fleet_missing("fleet move"@, "fleet move <fleet_id> <target_planet>"@)
            } else {
                Ok(FleetActionView::Move { fleet_id: args[1], target_planet: args[2] })
            }
        } else if args[0] == "bombard"@ {
            if args.len() < 2 {
                fleet_missing("fleet bombard"@, "fleet bombard <fleet_id>"@)
            } else {
                Ok(FleetActionView::Bombard { fleet_id: args[1] })
            }
        } else if args[0] == "cancel-bombard"@ {
            if args.len() < 2 {
                fleet_missing("fleet cancel-bombard"@, "fleet cancel-bombard <fleet_id>"@)
            } else {
                Ok(FleetActionView::CancelBombard { fleet_id: args[1] })
            }
        } else if args[0] == "colonize"@ {
            if args.len() < 2 {
                fleet_missing("fleet colonize"@, "fleet colonize <fleet_id>"@)
            } else {
                Ok(FleetActionView::Colonize { fleet_id: args[1] })
            }
        } else {
            Err(
                CommandErrorView::InvalidArgument {
                    command: "fleet"@,
                    argument: args[0],
                    reason: fleet_actions_text(),
                },
            )
        }
    }

    fn parse(args: Vec<&str>) -> (r: Result<Self, CommandError>) {
        if args.len() == 0 {
            return Err(missing("fleet", "fleet <create|add|remove|disband|move> ..."));
        }
        let ghost ws = args.deep_view();
        assert(ws[0] == args[0]@);
        if args.len() >= 2 {
            assert(ws[1] == args[1]@);
        }
        if args.len() >= 3 {
            assert(ws[2] == args[2]@);
        }
        let action = if str_eq(args[0], "create") {
            if args.len() < 3 {
                return Err(missing("fleet create", "fleet create <name> <ship_id> [ship_id...]"));
            }
            FleetAction::Create { name: owned(args[1]), ship_ids: words_from(&args, 2) }
        } else if str_eq(args[0], "add") {
            if args.len() < 3 {
                return Err(missing("fleet add", "fleet add <fleet_id> <ship_id> [ship_id...]"));
            }
            FleetAction::Add { fleet_id: owned(args[1]), ship_ids: words_from(&args, 2) }
        } else if str_eq(args[0], "remove") {
            if args.len() < 3 {
                return Err(
                    missing("fleet remove", "fleet remove <fleet_id> <ship_id> [ship_id...]"),
                );
            }
            FleetAction::Remove { fleet_id: owned(args[1]), ship_ids: words_from(&args, 2) }
        } else if str_eq(args[0], "disband") {
            if args.len() < 2 {
                return Err(missing("fleet disband", "fleet disband <fleet_id>"));
            }
            FleetAction::Disband { fleet_id: owned(args[1]) }
        } else if str_eq(args[0], "move") {
            if args.len() < 3 {
                return Err(missing("fleet move", "fleet move <fleet_id> <target_planet>"));
            }
            FleetAction::Move { fleet_id: owned(args[1]), target_planet: owned(args[2]) }
        } else if str_eq(args[0], "bombard") {
            if args.len() < 2 {
                return Err(missing("fleet bombard", "fleet bombard <fleet_id>"));
            }
            FleetAction::Bombard { fleet_id: owned(args[1]) }
        } else if str_eq(args[0], "cancel-bombard") {
            if args.len() < 2 {
                return Err(missing("fleet cancel-bombard", "fleet cancel-bombard <fleet_id>"));
            }
            FleetAction::CancelBombard { fleet_id: owned(args[1]) }
        } else if str_eq(args[0], "colonize") {
            if args.len() < 2 {
                return Err(missing("fleet colonize", "fleet colonize <fleet_id>"));
            }
            FleetAction::Colonize { fleet_id: owned(args[1]) }
        } else {
            return Err(
                CommandError::InvalidArgument {
                    command: owned("fleet"),
                    argument: owned(args[0]),
                    reason: owned(
                        "valid actions are: create, add, remove, disband, move, bombard, cancel-bombard, colonize",
                    ),
                },
            );
        };
        Ok(FleetArgs { action })
    }
}

/// The error for a command that lacks arguments.
pub fn missing(command: &str, expected: &str) -> (e: CommandError)
    ensures
        e.deep_view() == (CommandErrorView::MissingArguments {
            command: command@,
            expected: expected@,
        }),
{
    CommandError::MissingArguments { command: owned(command), expected: owned(expected) }
}

/// The words from position `from` on, as owned texts.
pub fn words_from(args: &Vec<&str>, from: usize) -> (r: Vec<String>)
    requires
        from <= args.len(),
    ensures
        r.deep_view() == args.deep_view().skip(from as int),
{
    let mut out: Vec<String> = Vec::new();
    let mut i: usize = from;
    while i < args.len()
        invariant
            from <= i <= args.len(),
            out.len() == i - from,
            forall|j: int| 0 <= j < i - from ==> out[j]@ == args[from + j]@,
        decreases args.len() - i,
    {
        out.push(owned(args[i]));
        i += 1;
    }
    assert(out.deep_view() =~= args.deep_view().skip(from as int));
    out
}

/// The error for an argument that a command cannot work with.
pub open spec fn invalid(command: Seq<char>, argument: Seq<char>, reason: Seq<char>) -> CommandErrorView {
    CommandErrorView::InvalidArgument { command, argument, reason }
}

/// The error for an argument that a command cannot work with.
pub fn invalid_argument(command: &str, argument: &String, reason: String) -> (e: CommandError)
    ensures
        e.deep_view() == invalid(command@, argument@, reason@),
{
    CommandError::InvalidArgument { command: owned(command), argument: argument.clone(), reason }
}

/// The wording of a line shown to the player.
pub open spec fn already_in_fleet_text(fleet: Seq<char>) -> Seq<char> {
    "ship is already in fleet '"@ + fleet + "'"@
}

/// The wording of a line shown to the player.
pub open spec fn elsewhere_text(location: Seq<char>) -> Seq<char> {
    "ship is at different location ("@ + location + ")"@
}

/// The wording of a line shown to the player.
pub open spec fn apart_text(ship_at: Seq<char>, fleet_at: Seq<char>) -> Seq<char> {
    "ship is at "@ + ship_at + " but fleet is at "@ + fleet_at
}

/// The wording of a line shown to the player.
pub open spec fn not_member_text(fleet: Seq<char>) -> Seq<char> {
    "ship is not in fleet '"@ + fleet + "'"@
}

/// The wording of a line shown to the player.
pub open spec fn no_lane_text(from: Seq<char>, to: Seq<char>) -> Seq<char> {
    "no connection from "@ + from + " to "@ + to
}

/// The wording of a line shown to the player.
pub open spec fn shields_first_text(shield_hp: u32) -> Seq<char> {
    "planet shields must be destroyed first (current: "@ + decimal(shield_hp as nat) + " HP)"@
}

/// Checks the ships `ids[k..]` for a new fleet: each must exist, fly alone
/// and be where the ships before it are. Answers where they all are.
pub open spec fn create_scan(
    ships: Seq<ShipView>,
    ids: Seq<Seq<char>>,
    k: int,
    location: Option<Seq<char>>,
) -> Result<Option<Seq<char>>, CommandErrorView>
    decreases ids.len() - k,
{
    if k < 0 || k >= ids.len() {
        Ok(location)
    } else {
        match ship_of(ships, ids[k]) {
            None => Err(invalid("fleet create"@, ids[k], "ship not found"@)),
            Some(s) => match s.fleet_id {
                Some(f) => Err(invalid("fleet create"@, ids[k], already_in_fleet_text(f))),
                None => match location {
                    None => create_scan(ships, ids, k + 1, Some(s.location)),
                    Some(l) => if l != s.location {
                        Err(invalid("fleet create"@, ids[k], elsewhere_text(s.location)))
                    } else {
                        create_scan(ships, ids, k + 1, location)
                    },
                },
            },
        }
    }
}

/// Checks the ships `ids[k..]` for joining a fleet at `fleet_at`: each must
/// exist, fly alone and be where the fleet is.
pub open spec fn add_scan(ships: Seq<ShipView>, ids: Seq<Seq<char>>, k: int, fleet_at: Seq<char>) -> Option<
    CommandErrorView,
>
    decreases ids.len() - k,
{
    if k < 0 || k >= ids.len() {
        None
    } else {
        match ship_of(ships, ids[k]) {
            None => Some(invalid("fleet add"@, ids[k], "ship not found"@)),
            Some(s) => match s.fleet_id {
                Some(f) => Some(invalid("fleet add"@, ids[k], already_in_fleet_text(f))),
                None => if s.location != fleet_at {
                    Some(invalid("fleet add"@, ids[k], apart_text(s.location, fleet_at)))
                } else {
                    add_scan(ships, ids, k + 1, fleet_at)
                },
            },
        }
    }
}

/// Checks that the ships `ids[k..]` are members of the fleet.
pub open spec fn remove_scan(members: Seq<Seq<char>>, ids: Seq<Seq<char>>, k: int, fleet: Seq<char>) -> Option<
    CommandErrorView,
>
    decreases ids.len() - k,
{
    if k < 0 || k >= ids.len() {
        None
    } else if !members.contains(ids[k]) {
        Some(invalid("fleet remove"@, ids[k], not_member_text(fleet)))
    } else {
        remove_scan(members, ids, k + 1, fleet)
    }
}

/// The first lane to `target` at or after position `k`; the number of lanes where there is none.
pub open spec fn first_lane(lanes: Seq<ConnectionView>, target: Seq<char>, k: int) -> int
    decreases lanes.len() - k,
{
    if k < 0 || k >= lanes.len() {
        lanes.len() as int
    } else if lanes[k].to == target {
        k
    } else {
        first_lane(lanes, target, k + 1)
    }
}

impl GameStateView {
    /// What checking `fleet create` answers.
    pub open spec fn create_checked(self, name: Seq<char>, ids: Seq<Seq<char>>) -> Result<
        CommandEffectView,
        CommandErrorView,
    > {
        match create_scan(self.players[self.acting()].ships, ids, 0, None) {
            Err(e) => Err(e),
            Ok(location) => Ok(
                CommandEffectView::CreateFleet { name, ship_ids: ids, location: location.unwrap() },
            ),
        }
    }

    /// What checking `fleet add` answers.
    pub open spec fn add_checked(self, fleet: Seq<char>, ids: Seq<Seq<char>>) -> Result<
        CommandEffectView,
        CommandErrorView,
    > {
        let p = self.players[self.acting()];
        match fleet_of(p.fleets, fleet) {
            None => Err(invalid("fleet add"@, fleet, "fleet not found"@)),
            Some(f) => match add_scan(p.ships, ids, 0, f.location) {
                Some(e) => Err(e),
                None => Ok(CommandEffectView::AddToFleet { fleet_id: fleet, ship_ids: ids }),
            },
        }
    }

    /// What checking `fleet remove` answers.
    pub open spec fn remove_checked(self, fleet: Seq<char>, ids: Seq<Seq<char>>) -> Result<
        CommandEffectView,
        CommandErrorView,
    > {
        let p = self.players[self.acting()];
        match fleet_of(p.fleets, fleet) {
            None => Err(invalid("fleet remove"@, fleet, "fleet not found"@)),
            Some(f) => match remove_scan(f.ships, ids, 0, fleet) {
                Some(e) => Err(e),
                None => Ok(CommandEffectView::RemoveFromFleet { fleet_id: fleet, ship_ids: ids }),
            },
        }
    }

    /// What checking `fleet disband` answers.
    pub open spec fn disband_checked(self, fleet: Seq<char>) -> Result<
        CommandEffectView,
        CommandErrorView,
    > {
        let p = self.players[self.acting()];
        match fleet_of(p.fleets, fleet) {
            None => Err(invalid("fleet disband"@, fleet, "fleet not found"@)),
            Some(_) => Ok(CommandEffectView::DisbandFleet { fleet_id: fleet }),
        }
    }

    /// What checking `fleet move` answers: the fleet must exist, hold ships,
    /// be neither under way nor bombarding, and a lane must lead from where
    /// it is to the target; the lane's length is the flight's duration.
    pub open spec fn move_checked(self, fleet: Seq<char>, target: Seq<char>) -> Result<
        CommandEffectView,
        CommandErrorView,
    > {
        let p = self.players[self.acting()];
        match fleet_of(p.fleets, fleet) {
            None => Err(invalid("fleet move"@, fleet, "fleet not found"@)),
            Some(f) => if f.ships.len() == 0 {
                Err(invalid("fleet move"@, fleet, "fleet has no ships"@))
            } else if p.fleet_moving(fleet) {
                Err(invalid("fleet move"@, fleet, "fleet already has a pending move"@))
            } else if p.fleet_bombarding(fleet) {
                Err(
                    invalid(
                        "fleet move"@,
                        fleet,
                        "fleet is bombarding - cancel bombardment first"@,
                    ),
                )
            } else if self.planet_index(target) < 0 {
                Err(CommandErrorView::UnknownPlanet(target))
            } else if f.location == target {
                Err(invalid("fleet move"@, target, "fleet is already at this planet"@))
            } else if self.planet_index(f.location) < 0 {
                Err(CommandErrorView::UnknownPlanet(f.location))
            } else {
                let lanes = self.map.planets[self.planet_index(f.location)].connections;
                let k = first_lane(lanes, target, 0);
                if k >= lanes.len() {
                    Err(invalid("fleet move"@, target, no_lane_text(f.location, target)))
                } else {
                    Ok(
                        CommandEffectView::MoveFleet {
                            fleet_id: fleet,
                            target_planet: target,
                            distance: lanes[k].distance,
                        },
                    )
                }
            },
        }
    }

    /// What checking `fleet bombard` answers: the fleet must exist, hold
    /// ships with bombardment power, not bombard already, and stand at a
    /// planet of another player.
    pub open spec fn bombard_checked(self, fleet: Seq<char>) -> Result<
        CommandEffectView,
        CommandErrorView,
    > {
        let p = self.players[self.acting()];
        match fleet_of(p.fleets, fleet) {
            None => Err(invalid("fleet bombard"@, fleet, "fleet not found"@)),
            Some(f) => {
                let power = fleet_power(p, fleet, self.ship_config);
                let qi = self.planet_index(f.location);
                if f.ships.len() == 0 {
                    Err(invalid("fleet bombard"@, fleet, "fleet has no ships"@))
                } else if p.fleet_bombarding(fleet) {
                    Err(invalid("fleet bombard"@, fleet, "fleet is already bombarding"@))
                } else if power == 0 {
                    Err(invalid("fleet bombard"@, fleet, "fleet has no bombardment capability"@))
                } else if qi < 0 {
                    Err(CommandErrorView::UnknownPlanet(f.location))
                } else {
                    match self.map.planets[qi].owner {
                        None => Err(
                            invalid(
                                "fleet bombard"@,
                                fleet,
                                "cannot bombard neutral planets - use colonize instead"@,
                            ),
                        ),
                        Some(o) => if o == self.players_order[0] {
                            Err(invalid("fleet bombard"@, fleet, "cannot bombard your own planet"@))
                        } else {
                            Ok(
                                CommandEffectView::BombardPlanet {
                                    fleet_id: fleet,
                                    target_planet: f.location,
                                    bombardment_power: power,
                                },
                            )
                        },
                    }
                }
            },
        }
    }

    /// What checking `fleet cancel-bombard` answers.
    pub open spec fn cancel_bombard_checked(self, fleet: Seq<char>) -> Result<
        CommandEffectView,
        CommandErrorView,
    > {
        let p = self.players[self.acting()];
        if fleet_of(p.fleets, fleet).is_none() {
            Err(invalid("fleet cancel-bombard"@, fleet, "fleet not found"@))
        } else if !p.fleet_bombarding(fleet) {
            Err(invalid("fleet cancel-bombard"@, fleet, "fleet is not bombarding"@))
        } else {
            Ok(CommandEffectView::CancelBombard { fleet_id: fleet })
        }
    }

    /// What checking `fleet colonize` answers: the fleet must exist, hold a
    /// colony ship and stand at a planet that is not the player's own and
    /// whose shield is at zero.
    pub open spec fn colonize_checked(self, fleet: Seq<char>) -> Result<
        CommandEffectView,
        CommandErrorView,
    > {
        let p = self.players[self.acting()];
        match fleet_of(p.fleets, fleet) {
            None => Err(invalid("fleet colonize"@, fleet, "fleet not found"@)),
            Some(f) => {
                let qi = self.planet_index(f.location);
                if f.ships.len() == 0 {
                    Err(invalid("fleet colonize"@, fleet, "fleet has no ships"@))
                } else if !fleet_roster(p.ships, f.ships, f.ships.len() as int).contains(
                    colony_ship_kind(),
                ) {
                    Err(
                        invalid(
                            "fleet colonize"@,
                            fleet,
                            "fleet requires an ark ship to colonize"@,
                        ),
                    )
                } else if qi < 0 {
                    Err(CommandErrorView::UnknownPlanet(f.location))
                } else if self.map.planets[qi].owner == Some(self.players_order[0]) {
                    Err(invalid("fleet colonize"@, fleet, "you already own this planet"@))
                } else if self.map.planets[qi].shield_hp > 0 {
                    Err(
                        invalid(
                            "fleet colonize"@,
                            fleet,
                            shields_first_text(self.map.planets[qi].shield_hp),
                        ),
                    )
                } else {
                    Ok(
                        CommandEffectView::ColonizePlanet {
                            fleet_id: fleet,
                            planet_id: f.location,
                        },
                    )
                }
            },
        }
    }

    /// What checking a `fleet` command answers.
    pub open spec fn fleet_checked(self, action: FleetActionView) -> Result<
        CommandEffectView,
        CommandErrorView,
    > {
        match action {
            FleetActionView::Create { name, ship_ids } => self.create_checked(name, ship_ids),
            FleetActionView::Add { fleet_id, ship_ids } => self.add_checked(fleet_id, ship_ids),
            FleetActionView::Remove { fleet_id, ship_ids } => self.remove_checked(
                fleet_id,
                ship_ids,
            ),
            FleetActionView::Disband { fleet_id } => self.disband_checked(fleet_id),
            FleetActionView::Move { fleet_id, target_planet } => self.move_checked(
                fleet_id,
                target_planet,
            ),
            FleetActionView::Bombard { fleet_id } => self.bombard_checked(fleet_id),
            FleetActionView::CancelBombard { fleet_id } => self.cancel_bombard_checked(fleet_id),
            FleetActionView::Colonize { fleet_id } => self.colonize_checked(fleet_id),
        }
    }
}

/// The acting player, who must exist.
pub fn acting_player(game_state: &GameState) -> (p: &Player)
    requires
        game_state.deep_view().acting() >= 0,
    ensures
        p.deep_view() == game_state.deep_view().players[game_state.deep_view().acting()],
{
    let pi = game_state.acting_index().unwrap();
    assert(game_state.deep_view().players[pi as int] == game_state.players[pi as int].deep_view());
    &game_state.players[pi]
}

/// The position of the fleet `fleet_id` among the player's fleets.
pub fn fleet_index(player: &Player, fleet_id: &String) -> (r: Option<usize>)
    ensures
        match r {
            Some(fi) => fi < player.fleets.len() && fleet_of(player.deep_view().fleets, fleet_id@)
                == Some(player.fleets[fi as int].deep_view()),
            None => fleet_of(player.deep_view().fleets, fleet_id@).is_none(),
        },
{
    proof {
        lemma_fleet_list_idents(player.fleets);
    }
    let r = find_by_id(&player.fleets, fleet_id);
    if let Some(fi) = r {
        assert(player.deep_view().fleets[fi as int] == player.fleets[fi as int].deep_view());
    }
    r
}

/// Checks `fleet create`.
#[verifier::loop_isolation(false)]
pub fn validate_create(name: &str, ship_ids: &Vec<String>, game_state: &GameState) -> (r: Result<
    CommandEffect,
    CommandError,
>)
    requires
        game_state.deep_view().acting() >= 0,
        ship_ids.len() > 0,
    ensures
        checked_view(r) == game_state.deep_view().create_checked(name@, ship_ids.deep_view()),
{
    let player = acting_player(game_state);
    let ghost ships = player.deep_view().ships;
    let ghost ids = ship_ids.deep_view();
    let ghost goal = create_scan(ships, ids, 0, None);
    proof {
        lemma_ship_list_idents(player.ships);
    }
    let mut location: Option<String> = None;
    let mut k: usize = 0;
    while k < ship_ids.len()
        invariant
            k <= ship_ids.len(),
            create_scan(ships, ids, k as int, location.deep_view()) == goal,
            k > 0 ==> location.is_some(),
        decreases ship_ids.len() - k,
    {
        assert(ids[k as int] == ship_ids[k as int]@);
        let ship = match find_by_id(&player.ships, &ship_ids[k]) {
            Some(j) => {
                assert(ships[j as int] == player.ships[j as int].deep_view());
                &player.ships[j]
            },
            None => {
                return Err(invalid_argument("fleet create", &ship_ids[k], owned("ship not found")));
            },
        };
        if let Some(f) = &ship.fleet_id {
            let mut reason = owned("ship is already in fleet '");
            reason.append(f.as_str());
            reason.append("'");
            return Err(invalid_argument("fleet create", &ship_ids[k], reason));
        }
        match &location {
            None => {
                location = Some(ship.location.clone());
            },
            Some(l) => {
                if *l != ship.location {
                    let mut reason = owned("ship is at different location (");
                    reason.append(ship.location.as_str());
                    reason.append(")");
                    return Err(invalid_argument("fleet create", &ship_ids[k], reason));
                }
            },
        }
        k += 1;
    }
    Ok(
        CommandEffect::CreateFleet {
            name: owned(name),
            ship_ids: copy_texts(ship_ids),
            location: location.unwrap(),
        },
    )
}

/// Checks `fleet add`.
#[verifier::loop_isolation(false)]
pub fn validate_add(fleet_id: &String, ship_ids: &Vec<String>, game_state: &GameState) -> (r: Result<
    CommandEffect,
    CommandError,
>)
    requires
        game_state.deep_view().acting() >= 0,
    ensures
        checked_view(r) == game_state.deep_view().add_checked(fleet_id@, ship_ids.deep_view()),
{
    let player = acting_player(game_state);
    let fleet = match fleet_index(player, fleet_id) {
        Some(fi) => &player.fleets[fi],
        None => {
            return Err(invalid_argument("fleet add", fleet_id, owned("fleet not found")));
        },
    };
    let ghost ships = player.deep_view().ships;
    let ghost ids = ship_ids.deep_view();
    let ghost goal = add_scan(ships, ids, 0, fleet.location@);
    proof {
        lemma_ship_list_idents(player.ships);
    }
    let mut k: usize = 0;
    while k < ship_ids.len()
        invariant
            k <= ship_ids.len(),
            add_scan(ships, ids, k as int, fleet.location@) == goal,
        decreases ship_ids.len() - k,
    {
        assert(ids[k as int] == ship_ids[k as int]@);
        let ship = match find_by_id(&player.ships, &ship_ids[k]) {
            Some(j) => {
                assert(ships[j as int] == player.ships[j as int].deep_view());
                &player.ships[j]
            },
            None => {
                return Err(invalid_argument("fleet add", &ship_ids[k], owned("ship not found")));
            },
        };
        if let Some(f) = &ship.fleet_id {
            let mut reason = owned("ship is already in fleet '");
            reason.append(f.as_str());
            reason.append("'");
            return Err(invalid_argument("fleet add", &ship_ids[k], reason));
        }
        if ship.location != fleet.location {
            let mut reason = owned("ship is at ");
            reason.append(ship.location.as_str());
            reason.append(" but fleet is at ");
            reason.append(fleet.location.as_str());
            return Err(invalid_argument("fleet add", &ship_ids[k], reason));
        }
        k += 1;
    }
    Ok(CommandEffect::AddToFleet { fleet_id: fleet_id.clone(), ship_ids: copy_texts(ship_ids) })
}

/// Checks `fleet remove`.
#[verifier::loop_isolation(false)]
pub fn validate_remove(fleet_id: &String, ship_ids: &Vec<String>, game_state: &GameState) -> (r:
    Result<CommandEffect, CommandError>)
    requires
        game_state.deep_view().acting() >= 0,
    ensures
        checked_view(r) == game_state.deep_view().remove_checked(fleet_id@, ship_ids.deep_view()),
{
    let player = acting_player(game_state);
    let fleet = match fleet_index(player, fleet_id) {
        Some(fi) => &player.fleets[fi],
        None => {
            return Err(invalid_argument("fleet remove", fleet_id, owned("fleet not found")));
        },
    };
    let ghost ids = ship_ids.deep_view();
    let ghost goal = remove_scan(fleet.ships.deep_view(), ids, 0, fleet_id@);
    let mut k: usize = 0;
    while k < ship_ids.len()
        invariant
            k <= ship_ids.len(),
            remove_scan(fleet.ships.deep_view(), ids, k as int, fleet_id@) == goal,
        decreases ship_ids.len() - k,
    {
        assert(ids[k as int] == ship_ids[k as int]@);
        if !contains_text(&fleet.ships, &ship_ids[k]) {
            let mut reason = owned("ship is not in fleet '");
            reason.append(fleet_id.as_str());
            reason.append("'");
            return Err(invalid_argument("fleet remove", &ship_ids[k], reason));
        }
        k += 1;
    }
    Ok(
        CommandEffect::RemoveFromFleet {
            fleet_id: fleet_id.clone(),
            ship_ids: copy_texts(ship_ids),
        },
    )
}

/// Checks `fleet disband`.
pub fn validate_disband(fleet_id: &String, game_state: &GameState) -> (r: Result<
    CommandEffect,
    CommandError,
>)
    requires
        game_state.deep_view().acting() >= 0,
    ensures
        checked_view(r) == game_state.deep_view().disband_checked(fleet_id@),
{
    let player = acting_player(game_state);
    if fleet_index(player, fleet_id).is_none() {
        return Err(invalid_argument("fleet disband", fleet_id, owned("fleet not found")));
    }
    Ok(CommandEffect::DisbandFleet { fleet_id: fleet_id.clone() })
}

/// Checks `fleet move`.
#[verifier::loop_isolation(false)]
pub fn validate_move(fleet_id: &String, target_planet: &String, game_state: &GameState) -> (r:
    Result<CommandEffect, CommandError>)
    requires
        game_state.deep_view().acting() >= 0,
    ensures
        checked_view(r) == game_state.deep_view().move_checked(fleet_id@, target_planet@),
{
    let player = acting_player(game_state);
    let fleet = match fleet_index(player, fleet_id) {
        Some(fi) => &player.fleets[fi],
        None => {
            return Err(invalid_argument("fleet move", fleet_id, owned("fleet not found")));
        },
    };
    if fleet.is_empty() {
        return Err(invalid_argument("fleet move", fleet_id, owned("fleet has no ships")));
    }
    if player.has_pending_fleet_move(fleet_id) {
        return Err(
            invalid_argument("fleet move", fleet_id, owned("fleet already has a pending move")),
        );
    }
    if player.has_pending_fleet_bombardment(fleet_id) {
        return Err(
            invalid_argument(
                "fleet move",
                fleet_id,
                owned("fleet is bombarding - cancel bombardment first"),
            ),
        );
    }
    if game_state.planet_index(target_planet).is_none() {
        return Err(CommandError::UnknownPlanet(target_planet.clone()));
    }
    if fleet.location == *target_planet {
        return Err(
            invalid_argument("fleet move", target_planet, owned("fleet is already at this planet")),
        );
    }
    let li = match game_state.planet_index(&fleet.location) {
        Some(i) => i,
        None => {
            return Err(CommandError::UnknownPlanet(fleet.location.clone()));
        },
    };
    assert(game_state.deep_view().map.planets[li as int]
        == game_state.map.planets[li as int].deep_view());
    let lanes = game_state.map.planets[li].get_connections();
    let ghost lv = lanes.deep_view();
    let mut k: usize = 0;
    while k < lanes.len()
        invariant
            k <= lanes.len(),
            first_lane(lv, target_planet@, k as int) == first_lane(lv, target_planet@, 0),
        decreases lanes.len() - k,
    {
        assert(lv[k as int] == lanes[k as int].deep_view());
        if lanes[k].to == *target_planet {
            return Ok(
                CommandEffect::MoveFleet {
                    fleet_id: fleet_id.clone(),
                    target_planet: target_planet.clone(),
                    distance: lanes[k].distance,
                },
            );
        }
        k += 1;
    }
    let mut reason = owned("no connection from ");
    reason.append(fleet.location.as_str());
    reason.append(" to ");
    reason.append(target_planet.as_str());
    Err(invalid_argument("fleet move", target_planet, reason))
}

/// Checks `fleet bombard`.
pub fn validate_bombard(fleet_id: &String, game_state: &GameState) -> (r: Result<
    CommandEffect,
    CommandError,
>)
    requires
        game_state.deep_view().acting() >= 0,
    ensures
        checked_view(r) == game_state.deep_view().bombard_checked(fleet_id@),
{
    let player = acting_player(game_state);
    let fleet = match fleet_index(player, fleet_id) {
        Some(fi) => &player.fleets[fi],
        None => {
            return Err(invalid_argument("fleet bombard", fleet_id, owned("fleet not found")));
        },
    };
    if fleet.is_empty() {
        return Err(invalid_argument("fleet bombard", fleet_id, owned("fleet has no ships")));
    }
    if player.has_pending_fleet_bombardment(fleet_id) {
        return Err(
            invalid_argument("fleet bombard", fleet_id, owned("fleet is already bombarding")),
        );
    }
    let bombardment_power = player.fleet_power(fleet_id, &game_state.ship_config);
    if bombardment_power == 0 {
        return Err(
            invalid_argument(
                "fleet bombard",
                fleet_id,
                owned("fleet has no bombardment capability"),
            ),
        );
    }
    let target_planet = fleet.location.clone();
    let qi = match game_state.planet_index(&target_planet) {
        Some(i) => i,
        None => {
            return Err(CommandError::UnknownPlanet(target_planet));
        },
    };
    assert(game_state.deep_view().map.planets[qi as int]
        == game_state.map.planets[qi as int].deep_view());
    match &game_state.map.planets[qi].owner {
        None => Err(
            invalid_argument(
                "fleet bombard",
                fleet_id,
                owned("cannot bombard neutral planets - use colonize instead"),
            ),
        ),
        Some(owner) => {
            if *owner == *game_state.current_player() {
                Err(
                    invalid_argument(
                        "fleet bombard",
                        fleet_id,
                        owned("cannot bombard your own planet"),
                    ),
                )
            } else {
                Ok(
                    CommandEffect::BombardPlanet {
                        fleet_id: fleet_id.clone(),
                        target_planet,
                        bombardment_power,
                    },
                )
            }
        },
    }
}

/// Checks `fleet cancel-bombard`.
pub fn validate_cancel_bombard(fleet_id: &String, game_state: &GameState) -> (r: Result<
    CommandEffect,
    CommandError,
>)
    requires
        game_state.deep_view().acting() >= 0,
    ensures
        checked_view(r) == game_state.deep_view().cancel_bombard_checked(fleet_id@),
{
    let player = acting_player(game_state);
    if fleet_index(player, fleet_id).is_none() {
        return Err(invalid_argument("fleet cancel-bombard", fleet_id, owned("fleet not found")));
    }
    if !player.has_pending_fleet_bombardment(fleet_id) {
        return Err(
            invalid_argument("fleet cancel-bombard", fleet_id, owned("fleet is not bombarding")),
        );
    }
    Ok(CommandEffect::CancelBombard { fleet_id: fleet_id.clone() })
}

/// Checks `fleet colonize`.
pub fn validate_colonize(fleet_id: &String, game_state: &GameState) -> (r: Result<
    CommandEffect,
    CommandError,
>)
    requires
        game_state.deep_view().acting() >= 0,
    ensures
        checked_view(r) == game_state.deep_view().colonize_checked(fleet_id@),
{
    let player = acting_player(game_state);
    let fleet = match fleet_index(player, fleet_id) {
        Some(fi) => &player.fleets[fi],
        None => {
            return Err(invalid_argument("fleet colonize", fleet_id, owned("fleet not found")));
        },
    };
    if fleet.is_empty() {
        return Err(invalid_argument("fleet colonize", fleet_id, owned("fleet has no ships")));
    }
    let roster = fleet_ship_types(&player.ships, &fleet.ships);
    if !contains_text(&roster, &owned("ark")) {
        return Err(
            invalid_argument(
                "fleet colonize",
                fleet_id,
                owned("fleet requires an ark ship to colonize"),
            ),
        );
    }
    let target_planet = fleet.location.clone();
    let qi = match game_state.planet_index(&target_planet) {
        Some(i) => i,
        None => {
            return Err(CommandError::UnknownPlanet(target_planet));
        },
    };
    assert(game_state.deep_view().map.planets[qi as int]
        == game_state.map.planets[qi as int].deep_view());
    let planet = &game_state.map.planets[qi];
    if planet.is_owned_by(game_state.current_player()) {
        return Err(
            invalid_argument("fleet colonize", fleet_id, owned("you already own this planet")),
        );
    }
    if planet.get_shield_hp() > 0 {
        let mut reason = owned("planet shields must be destroyed first (current: ");
        push_decimal(&mut reason, planet.get_shield_hp() as u128);
        reason.append(" HP)");
        return Err(invalid_argument("fleet colonize", fleet_id, reason));
    }
    Ok(CommandEffect::ColonizePlanet { fleet_id: fleet_id.clone(), planet_id: target_planet })
}

/// Checks a `fleet` command against the game.
pub fn execute(args: FleetArgs, game_state: &GameState) -> (r: Result<CommandEffect, CommandError>)
    requires
        game_state.deep_view().acting() >= 0,
        match args.action {
            FleetAction::Create { name, ship_ids } => ship_ids.len() > 0,
            _ => true,
        },
    ensures
        checked_view(r) == game_state.deep_view().fleet_checked(args.deep_view()),
{
    match args.action {
        FleetAction::Create { name, ship_ids } => validate_create(
            name.as_str(),
            &ship_ids,
            game_state,
        ),
        FleetAction::Add { fleet_id, ship_ids } => validate_add(&fleet_id, &ship_ids, game_state),
        FleetAction::Remove { fleet_id, ship_ids } => validate_remove(
            &fleet_id,
            &ship_ids,
            game_state,
        ),
        FleetAction::Disband { fleet_id } => validate_disband(&fleet_id, game_state),
        FleetAction::Move { fleet_id, target_planet } => validate_move(
            &fleet_id,
            &target_planet,
            game_state,
        ),
        FleetAction::Bombard { fleet_id } => validate_bombard(&fleet_id, game_state),
        FleetAction::CancelBombard { fleet_id } => validate_cancel_bombard(&fleet_id, game_state),
        FleetAction::Colonize { fleet_id } => validate_colonize(&fleet_id, game_state),
    }
}

} // verus!
