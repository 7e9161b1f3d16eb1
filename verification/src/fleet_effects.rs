//! What the fleet commands do to the acting player.
use vstd::prelude::*;
use vstd::string::*;
use crate::effects::{Outcome, Step, effect_matches, lemma_with_player_wf, no_player_text, one_line};
use crate::fleet::{Fleet, FleetView, fleet_ids, with_member, without_member};
use crate::game_state::{GameState, GameStateView};
use crate::ids::{distinct, find_by_id, index_in, lemma_index_in};
use crate::player::{
    Player,
    PlayerView,
    fleet_of,
    lemma_distinct_push,
    lemma_distinct_remove,
    lemma_fleet_list_idents,
    lemma_ship_list_idents,
};
use crate::ship::{ShipView, ship_ids};
use crate::text::{decimal, owned, push_decimal};

verus! {

/// The ships after those named by the first `n` of `ids` were put into
/// `fleet` (or, with `None`, taken out of any fleet). A name that matches
/// no ship changes nothing.
pub open spec fn assigned(
    ships: Seq<ShipView>,
    ids: Seq<Seq<char>>,
    fleet: Option<Seq<char>>,
    n: int,
) -> Seq<ShipView>
    decreases n,
{
    if n <= 0 {
        ships
    } else {
        let rest = assigned(ships, ids, fleet, n - 1);
        let j = index_in(ship_ids(ships), ids[n - 1]);
        if j >= 0 {
            rest.update(j, ShipView { fleet_id: fleet, ..rest[j] })
        } else {
            rest
        }
    }
}

/// Assigning ships to a fleet changes no ship's name and loses no ship.
pub proof fn lemma_assigned_ids(
    ships: Seq<ShipView>,
    ids: Seq<Seq<char>>,
    fleet: Option<Seq<char>>,
    n: int,
)
    ensures
        assigned(ships, ids, fleet, n).len() == ships.len(),
        ship_ids(assigned(ships, ids, fleet, n)) == ship_ids(ships),
    decreases n,
{
    if n > 0 {
        lemma_assigned_ids(ships, ids, fleet, n - 1);
        lemma_index_in(ship_ids(ships), ids[n - 1]);
        assert(ship_ids(assigned(ships, ids, fleet, n)) =~= ship_ids(ships));
    }
}

/// The members after the first `n` of `ids` joined, one after the other.
pub open spec fn joined_members(members: Seq<Seq<char>>, ids: Seq<Seq<char>>, n: int) -> Seq<
    Seq<char>,
>
    decreases n,
{
    if n <= 0 {
        members
    } else {
        with_member(joined_members(members, ids, n - 1), ids[n - 1])
    }
}

/// The members after the first `n` of `ids` left, one after the other.
pub open spec fn left_members(members: Seq<Seq<char>>, ids: Seq<Seq<char>>, n: int) -> Seq<
    Seq<char>,
>
    decreases n,
{
    if n <= 0 {
        members
    } else {
        without_member(left_members(members, ids, n - 1), ids[n - 1])
    }
}

/// The fleets after `f` was stored: in place of the fleet of the same name, or last.
pub open spec fn with_fleet(fleets: Seq<FleetView>, f: FleetView) -> Seq<FleetView> {
    let i = index_in(fleet_ids(fleets), f.id);
    if i >= 0 {
        fleets.update(i, f)
    } else {
        fleets.push(f)
    }
}

/// The fleets without the one named `id`.
pub open spec fn without_fleet(fleets: Seq<FleetView>, id: Seq<char>) -> Seq<FleetView> {
    let i = index_in(fleet_ids(fleets), id);
    if i >= 0 {
        fleets.remove(i)
    } else {
        fleets
    }
}

/// The identifier of the `n`-th fleet that a player forms.
pub open spec fn fleet_name_for(n: nat) -> Seq<char> {
    "fleet_"@ + decimal(n)
}

/// The wording of a line shown to the player.
pub open spec fn fleet_created_text(name: Seq<char>, id: Seq<char>, n: nat) -> Seq<char> {
    "Fleet '"@ + name + "' ("@ + id + ") created with "@ + decimal(n) + " ship(s)"@
}

/// The wording of a line shown to the player.
pub open spec fn ships_added_text(n: nat, fleet_name: Seq<char>) -> Seq<char> {
    "Added "@ + decimal(n) + " ship(s) to fleet '"@ + fleet_name + "'"@
}

/// The wording of a line shown to the player.
pub open spec fn ships_removed_text(n: nat, fleet_name: Seq<char>) -> Seq<char> {
    "Removed "@ + decimal(n) + " ship(s) from fleet '"@ + fleet_name + "'"@
}

/// The wording of a line shown to the player.
pub open spec fn fleet_disbanded_text(fleet_name: Seq<char>, n: nat) -> Seq<char> {
    "Fleet '"@ + fleet_name + "' disbanded. "@ + decimal(n) + " ship(s) are now standalone."@
}

impl PlayerView {
    /// The player after a fleet named `name` was formed at `location` out of `ids`.
    pub open spec fn fleet_created(self, name: Seq<char>, ids: Seq<Seq<char>>, location: Seq<char>) -> PlayerView {
        let id = fleet_name_for((self.fleets.len() + 1) as nat);
        PlayerView {
            ships: assigned(self.ships, ids, Some(id), ids.len() as int),
            fleets: with_fleet(
                self.fleets,
                FleetView {
                    id,
                    name,
                    ships: joined_members(Seq::empty(), ids, ids.len() as int),
                    location,
                },
            ),
            ..self
        }
    }

    /// The player after `ids` joined the fleet `fleet`.
    pub open spec fn fleet_extended(self, fleet: Seq<char>, ids: Seq<Seq<char>>) -> PlayerView {
        let ships = assigned(self.ships, ids, Some(fleet), ids.len() as int);
        let fi = index_in(fleet_ids(self.fleets), fleet);
        if fi >= 0 {
            let f = self.fleets[fi];
            PlayerView {
                ships,
                fleets: self.fleets.update(
                    fi,
                    FleetView { ships: joined_members(f.ships, ids, ids.len() as int), ..f },
                ),
                ..self
            }
        } else {
            PlayerView { ships, ..self }
        }
    }

    /// The player after `ids` left the fleet `fleet`; a fleet left without
    /// ships is disbanded.
    pub open spec fn fleet_reduced(self, fleet: Seq<char>, ids: Seq<Seq<char>>) -> PlayerView {
        let ships = assigned(self.ships, ids, None, ids.len() as int);
        let fi = index_in(fleet_ids(self.fleets), fleet);
        if fi >= 0 {
            let f = self.fleets[fi];
            let members = left_members(f.ships, ids, ids.len() as int);
            if members.len() == 0 {
                PlayerView { ships, fleets: self.fleets.remove(fi), ..self }
            } else {
                PlayerView {
                    ships,
                    fleets: self.fleets.update(fi, FleetView { ships: members, ..f }),
                    ..self
                }
            }
        } else {
            PlayerView { ships, ..self }
        }
    }

    /// The player after the fleet `fleet` was disbanded: its ships fly alone.
    pub open spec fn fleet_disbanded(self, fleet: Seq<char>) -> PlayerView {
        match fleet_of(self.fleets, fleet) {
            None => self,
            Some(f) => PlayerView {
                ships: assigned(self.ships, f.ships, None, f.ships.len() as int),
                fleets: without_fleet(self.fleets, fleet),
                ..self
            },
        }
    }
}

impl GameStateView {
    /// What a `CreateFleet` effect does.
    pub open spec fn fleet_created(self, name: Seq<char>, ids: Seq<Seq<char>>, location: Seq<char>) -> Outcome {
        let pi = self.acting();
        if pi < 0 {
            Err(no_player_text())
        } else {
            let p = self.players[pi];
            Ok(
                Step {
                    state: self.with_player(pi, p.fleet_created(name, ids, location)),
                    lines: seq![
                        fleet_created_text(
                            name,
                            fleet_name_for((p.fleets.len() + 1) as nat),
                            ids.len(),
                        ),
                    ],
                },
            )
        }
    }

    /// What an `AddToFleet` effect does.
    pub open spec fn fleet_extended(self, fleet: Seq<char>, ids: Seq<Seq<char>>) -> Outcome {
        let pi = self.acting();
        if pi < 0 {
            Err(no_player_text())
        } else {
            let p = self.players[pi];
            Ok(
                Step {
                    state: self.with_player(pi, p.fleet_extended(fleet, ids)),
                    lines: match fleet_of(p.fleets, fleet) {
                        Some(f) => seq![ships_added_text(ids.len(), f.name)],
                        None => Seq::empty(),
                    },
                },
            )
        }
    }

    /// What a `RemoveFromFleet` effect does.
    pub open spec fn fleet_reduced(self, fleet: Seq<char>, ids: Seq<Seq<char>>) -> Outcome {
        let pi = self.acting();
        if pi < 0 {
            Err(no_player_text())
        } else {
            let p = self.players[pi];
            Ok(
                Step {
                    state: self.with_player(pi, p.fleet_reduced(fleet, ids)),
                    lines: match fleet_of(p.fleets, fleet) {
                        Some(f) => seq![ships_removed_text(ids.len(), f.name)],
                        None => Seq::empty(),
                    },
                },
            )
        }
    }

    /// What a `DisbandFleet` effect does.
    pub open spec fn fleet_disbanded(self, fleet: Seq<char>) -> Outcome {
        let pi = self.acting();
        if pi < 0 {
            Err(no_player_text())
        } else {
            let p = self.players[pi];
            Ok(
                Step {
                    state: self.with_player(pi, p.fleet_disbanded(fleet)),
                    lines: match fleet_of(p.fleets, fleet) {
                        Some(f) => seq![fleet_disbanded_text(f.name, f.ships.len())],
                        None => seq![fleet_disbanded_text(Seq::empty(), 0)],
                    },
                },
            )
        }
    }
}

impl Player {
    /// Puts the ships named by `ids` into `fleet`, or with `None` takes them
    /// out of any fleet.
    #[verifier::loop_isolation(false)]
    pub fn assign_ships(&mut self, ids: &Vec<String>, fleet: &Option<String>)
        ensures
            final(self).deep_view() == (PlayerView {
                ships: assigned(
                    old(self).deep_view().ships,
                    ids.deep_view(),
                    fleet.deep_view(),
                    ids.len() as int,
                ),
                ..old(self).deep_view()
            }),
            old(self).deep_view().wf() ==> final(self).deep_view().wf(),
    {
        let ghost before = self.deep_view();
        let ghost target = fleet.deep_view();
        let mut k: usize = 0;
        while k < ids.len()
            invariant
                k <= ids.len(),
                self.deep_view() == (PlayerView {
                    ships: assigned(before.ships, ids.deep_view(), target, k as int),
                    ..before
                }),
            decreases ids.len() - k,
        {
            proof {
                lemma_ship_list_idents(self.ships);
                lemma_assigned_ids(before.ships, ids.deep_view(), target, k as int);
                lemma_index_in(ship_ids(before.ships), ids.deep_view()[k as int]);
            }
            assert(ids.deep_view()[k as int] == ids[k as int]@);
            let ghost list = self.ships.deep_view();
            match find_by_id(&self.ships, &ids[k]) {
                Some(j) => {
                    self.ships[j].fleet_id = match fleet {
                        Some(f) => Some(f.clone()),
                        None => None,
                    };
                    assert(self.ships.deep_view() =~= list.update(
                        j as int,
                        ShipView { fleet_id: target, ..list[j as int] },
                    ));
                },
                None => {},
            }
            k += 1;
        }
        proof {
            lemma_assigned_ids(before.ships, ids.deep_view(), target, ids.len() as int);
        }
    }

    /// Stores `fleet`: in place of the fleet of the same name, or last.
    pub fn store_fleet(&mut self, fleet: Fleet)
        ensures
            final(self).deep_view() == (PlayerView {
                fleets: with_fleet(old(self).deep_view().fleets, fleet.deep_view()),
                ..old(self).deep_view()
            }),
            old(self).deep_view().wf() ==> final(self).deep_view().wf(),
    {
        let ghost before = self.fleets.deep_view();
        let ghost fv = fleet.deep_view();
        proof {
            lemma_fleet_list_idents(self.fleets);
            lemma_index_in(fleet_ids(before), fv.id);
        }
        match find_by_id(&self.fleets, &fleet.id) {
            Some(i) => {
                self.fleets[i] = fleet;
                assert(self.fleets.deep_view() =~= before.update(i as int, fv));
                assert(fleet_ids(self.fleets.deep_view()) =~= fleet_ids(before));
            },
            None => {
                self.fleets.push(fleet);
                assert(self.fleets.deep_view() =~= before.push(fv));
                proof {
                    assert(fleet_ids(self.fleets.deep_view()) =~= fleet_ids(before).push(fv.id));
                    if distinct(fleet_ids(before)) {
                        lemma_distinct_push(fleet_ids(before), fv.id);
                    }
                }
            },
        }
    }

    /// Takes the fleet at position `fi` out of the list.
    pub fn drop_fleet_at(&mut self, fi: usize)
        requires
            fi < old(self).fleets.len(),
        ensures
            final(self).deep_view() == (PlayerView {
                fleets: old(self).deep_view().fleets.remove(fi as int),
                ..old(self).deep_view()
            }),
            old(self).deep_view().wf() ==> final(self).deep_view().wf(),
    {
        let ghost before = self.fleets.deep_view();
        self.fleets.remove(fi);
        proof {
            assert(self.fleets.deep_view() =~= before.remove(fi as int));
            assert(fleet_ids(before.remove(fi as int)) =~= fleet_ids(before).remove(fi as int));
            if distinct(fleet_ids(before)) {
                lemma_distinct_remove(fleet_ids(before), fi as int);
            }
        }
    }

    /// Forms a fleet named `name` at `location` out of the ships `ids` and
    /// returns its identifier.
    #[verifier::loop_isolation(false)]
    pub fn create_fleet(&mut self, name: String, ids: &Vec<String>, location: String) -> (r: String)
        ensures
            r@ == fleet_name_for((old(self).fleets.len() + 1) as nat),
            final(self).deep_view() == old(self).deep_view().fleet_created(
                name@,
                ids.deep_view(),
                location@,
            ),
            old(self).deep_view().wf() ==> final(self).deep_view().wf(),
    {
        let mut fleet_id = owned("fleet_");
        push_decimal(&mut fleet_id, self.fleets.len() as u128 + 1);
        let mut fleet = Fleet::new(fleet_id.clone(), name, location);
        let ghost empty = fleet.deep_view();
        let mut k: usize = 0;
        while k < ids.len()
            invariant
                k <= ids.len(),
                *self == *old(self),
                fleet.deep_view() == (FleetView {
                    ships: joined_members(Seq::empty(), ids.deep_view(), k as int),
                    ..empty
                }),
            decreases ids.len() - k,
        {
            assert(ids.deep_view()[k as int] == ids[k as int]@);
            fleet.add_ship(ids[k].clone());
            k += 1;
        }
        self.assign_ships(ids, &Some(fleet_id.clone()));
        self.store_fleet(fleet);
        fleet_id
    }

    /// Adds the ships `ids` to the fleet `fleet_id`; the ships are marked
    /// even where no such fleet exists.
    #[verifier::loop_isolation(false)]
    pub fn extend_fleet(&mut self, fleet_id: &String, ids: &Vec<String>)
        ensures
            final(self).deep_view() == old(self).deep_view().fleet_extended(
                fleet_id@,
                ids.deep_view(),
            ),
            old(self).deep_view().wf() ==> final(self).deep_view().wf(),
    {
        let ghost before = self.deep_view();
        self.assign_ships(ids, &Some(fleet_id.clone()));
        let ghost marked = self.deep_view();
        proof {
            lemma_fleet_list_idents(self.fleets);
        }
        if let Some(fi) = find_by_id(&self.fleets, fleet_id) {
            let ghost f = before.fleets[fi as int];
            assert(self.fleets[fi as int].deep_view() == f);
            assert(before.fleets.update(fi as int, f) =~= before.fleets);
            let mut k: usize = 0;
            while k < ids.len()
                invariant
                    k <= ids.len(),
                    fi < self.fleets.len(),
                    self.deep_view() == (PlayerView {
                        fleets: before.fleets.update(
                            fi as int,
                            FleetView {
                                ships: joined_members(f.ships, ids.deep_view(), k as int),
                                ..f
                            },
                        ),
                        ..marked
                    }),
                decreases ids.len() - k,
            {
                assert(ids.deep_view()[k as int] == ids[k as int]@);
                let ghost list = self.fleets.deep_view();
                assert(self.fleets[fi as int].deep_view() == list[fi as int]);
                self.fleets[fi].add_ship(ids[k].clone());
                assert(self.fleets.deep_view() =~= list.update(
                    fi as int,
                    FleetView {
                        ships: joined_members(f.ships, ids.deep_view(), k as int + 1),
                        ..f
                    },
                ));
                assert(list.len() == before.fleets.len());
                assert(self.fleets.deep_view() =~= before.fleets.update(
                    fi as int,
                    FleetView {
                        ships: joined_members(f.ships, ids.deep_view(), k as int + 1),
                        ..f
                    },
                ));
                k += 1;
            }
            assert(fleet_ids(self.deep_view().fleets) =~= fleet_ids(before.fleets));
        }
    }

    /// Takes the ships `ids` out of the fleet `fleet_id`; the ships are
    /// unmarked even where no such fleet exists. A fleet left without ships
    /// is disbanded.
    #[verifier::loop_isolation(false)]
    pub fn reduce_fleet(&mut self, fleet_id: &String, ids: &Vec<String>)
        ensures
            final(self).deep_view() == old(self).deep_view().fleet_reduced(
                fleet_id@,
                ids.deep_view(),
            ),
            old(self).deep_view().wf() ==> final(self).deep_view().wf(),
    {
        let ghost before = self.deep_view();
        self.assign_ships(ids, &None);
        let ghost marked = self.deep_view();
        proof {
            lemma_fleet_list_idents(self.fleets);
        }
        if let Some(fi) = find_by_id(&self.fleets, fleet_id) {
            let ghost f = before.fleets[fi as int];
            assert(self.fleets[fi as int].deep_view() == f);
            assert(before.fleets.update(fi as int, f) =~= before.fleets);
            let mut k: usize = 0;
            while k < ids.len()
                invariant
                    k <= ids.len(),
                    fi < self.fleets.len(),
                    self.deep_view() == (PlayerView {
                        fleets: before.fleets.update(
                            fi as int,
                            FleetView {
                                ships: left_members(f.ships, ids.deep_view(), k as int),
                                ..f
                            },
                        ),
                        ..marked
                    }),
                decreases ids.len() - k,
            {
                assert(ids.deep_view()[k as int] == ids[k as int]@);
                let ghost list = self.fleets.deep_view();
                assert(self.fleets[fi as int].deep_view() == list[fi as int]);
                self.fleets[fi].remove_ship(&ids[k]);
                assert(self.fleets.deep_view() =~= list.update(
                    fi as int,
                    FleetView { ships: left_members(f.ships, ids.deep_view(), k as int + 1), ..f },
                ));
                assert(list.len() == before.fleets.len());
                assert(self.fleets.deep_view() =~= before.fleets.update(
                    fi as int,
                    FleetView { ships: left_members(f.ships, ids.deep_view(), k as int + 1), ..f },
                ));
                k += 1;
            }
            assert(fleet_ids(self.deep_view().fleets) =~= fleet_ids(before.fleets));
            assert(self.fleets[fi as int].deep_view() == self.deep_view().fleets[fi as int]);
            if self.fleets[fi].is_empty() {
                let ghost list = self.fleets.deep_view();
                self.drop_fleet_at(fi);
                assert(list.remove(fi as int) =~= before.fleets.remove(fi as int));
            }
        }
    }

    /// Disbands the fleet `fleet_id` and returns its name and the number of
    /// ships that it held.
    pub fn disband_fleet(&mut self, fleet_id: &String) -> (r: Option<(String, usize)>)
        ensures
            final(self).deep_view() == old(self).deep_view().fleet_disbanded(fleet_id@),
            match fleet_of(old(self).deep_view().fleets, fleet_id@) {
                Some(f) => r.is_some() && r.unwrap().0@ == f.name && r.unwrap().1 == f.ships.len(),
                None => r.is_none(),
            },
            old(self).deep_view().wf() ==> final(self).deep_view().wf(),
    {
        proof {
            lemma_fleet_list_idents(self.fleets);
        }
        match find_by_id(&self.fleets, fleet_id) {
            None => None,
            Some(fi) => {
                assert(self.fleets[fi as int].deep_view() == self.deep_view().fleets[fi as int]);
                let fleet = self.fleets[fi].clone();
                self.assign_ships(&fleet.ships, &None);
                self.drop_fleet_at(fi);
                Some((fleet.name, fleet.ships.len()))
            },
        }
    }
}

impl GameState {
    /// Lets the acting player change, by `change`'s contract, into `p`.
    pub proof fn lemma_player_replaced(before: GameStateView, players: Vec<Player>, pi: int, p: PlayerView)
        requires
            0 <= pi < players.len(),
            players.len() == before.players.len(),
            players[pi].deep_view() == p,
            forall|j: int| 0 <= j < players.len() && j != pi ==> players[j].deep_view() == before.players[j],
            p.id == before.players[pi].id,
        ensures
            players.deep_view() == before.players.update(pi, p),
            before.wf() && p.wf() ==> before.with_player(pi, p).wf(),
    {
        assert(players.deep_view() =~= before.players.update(pi, p));
        if before.wf() && p.wf() {
            lemma_with_player_wf(before, pi, p);
        }
    }

    /// Carries out a `CreateFleet` effect.
    pub fn create_fleet(&mut self, name: String, ship_ids: Vec<String>, location: String) -> (r:
        Result<Vec<String>, String>)
        ensures
            effect_matches(
                old(self).deep_view(),
                final(self).deep_view(),
                r,
                old(self).deep_view().fleet_created(name@, ship_ids.deep_view(), location@),
            ),
            old(self).deep_view().wf() ==> final(self).deep_view().wf(),
    {
        let ghost g = self.deep_view();
        let pi = match self.acting_index() {
            Some(i) => i,
            None => {
                return Err(owned("Current player must exist in game state"));
            },
        };
        assert(g.players[pi as int] == self.players[pi as int].deep_view());
        let mut line = owned("Fleet '");
        line.append(name.as_str());
        line.append("' (");
        let fleet_id = self.players[pi].create_fleet(name, &ship_ids, location);
        line.append(fleet_id.as_str());
        line.append(") created with ");
        push_decimal(&mut line, ship_ids.len() as u128);
        line.append(" ship(s)");
        proof {
            assert(g.wf() ==> g.players[pi as int].wf());
            Self::lemma_player_replaced(
                g,
                self.players,
                pi as int,
                self.players[pi as int].deep_view(),
            );
        }
        Ok(one_line(line))
    }

    /// Carries out an `AddToFleet` effect.
    pub fn add_to_fleet(&mut self, fleet_id: String, ship_ids: Vec<String>) -> (r: Result<
        Vec<String>,
        String,
    >)
        ensures
            effect_matches(
                old(self).deep_view(),
                final(self).deep_view(),
                r,
                old(self).deep_view().fleet_extended(fleet_id@, ship_ids.deep_view()),
            ),
            old(self).deep_view().wf() ==> final(self).deep_view().wf(),
    {
        let ghost g = self.deep_view();
        let pi = match self.acting_index() {
            Some(i) => i,
            None => {
                return Err(owned("Current player must exist in game state"));
            },
        };
        assert(g.players[pi as int] == self.players[pi as int].deep_view());
        proof {
            lemma_fleet_list_idents(self.players[pi as int].fleets);
        }
        let lines = match find_by_id(&self.players[pi].fleets, &fleet_id) {
            Some(fi) => {
                assert(self.players[pi as int].fleets[fi as int].deep_view()
                    == g.players[pi as int].fleets[fi as int]);
                let mut line = owned("Added ");
                push_decimal(&mut line, ship_ids.len() as u128);
                line.append(" ship(s) to fleet '");
                line.append(self.players[pi].fleets[fi].name.as_str());
                line.append("'");
                one_line(line)
            },
            None => {
                let v: Vec<String> = Vec::new();
                assert(v.deep_view() =~= Seq::<Seq<char>>::empty());
                v
            },
        };
        self.players[pi].extend_fleet(&fleet_id, &ship_ids);
        proof {
            assert(g.wf() ==> g.players[pi as int].wf());
            Self::lemma_player_replaced(
                g,
                self.players,
                pi as int,
                self.players[pi as int].deep_view(),
            );
        }
        Ok(lines)
    }

    /// Carries out a `RemoveFromFleet` effect.
    pub fn remove_from_fleet(&mut self, fleet_id: String, ship_ids: Vec<String>) -> (r: Result<
        Vec<String>,
        String,
    >)
        ensures
            effect_matches(
                old(self).deep_view(),
                final(self).deep_view(),
                r,
                old(self).deep_view().fleet_reduced(fleet_id@, ship_ids.deep_view()),
            ),
            old(self).deep_view().wf() ==> final(self).deep_view().wf(),
    {
        let ghost g = self.deep_view();
        let pi = match self.acting_index() {
            Some(i) => i,
            None => {
                return Err(owned("Current player must exist in game state"));
            },
        };
        assert(g.players[pi as int] == self.players[pi as int].deep_view());
        proof {
            lemma_fleet_list_idents(self.players[pi as int].fleets);
        }
        let lines = match find_by_id(&self.players[pi].fleets, &fleet_id) {
            Some(fi) => {
                assert(self.players[pi as int].fleets[fi as int].deep_view()
                    == g.players[pi as int].fleets[fi as int]);
                let mut line = owned("Removed ");
                push_decimal(&mut line, ship_ids.len() as u128);
                line.append(" ship(s) from fleet '");
                line.append(self.players[pi].fleets[fi].name.as_str());
                line.append("'");
                one_line(line)
            },
            None => {
                let v: Vec<String> = Vec::new();
                assert(v.deep_view() =~= Seq::<Seq<char>>::empty());
                v
            },
        };
        self.players[pi].reduce_fleet(&fleet_id, &ship_ids);
        proof {
            assert(g.wf() ==> g.players[pi as int].wf());
            Self::lemma_player_replaced(
                g,
                self.players,
                pi as int,
                self.players[pi as int].deep_view(),
            );
        }
        Ok(lines)
    }

    /// Carries out a `DisbandFleet` effect.
    pub fn disband_fleet(&mut self, fleet_id: String) -> (r: Result<Vec<String>, String>)
        ensures
            effect_matches(
                old(self).deep_view(),
                final(self).deep_view(),
                r,
                old(self).deep_view().fleet_disbanded(fleet_id@),
            ),
            old(self).deep_view().wf() ==> final(self).deep_view().wf(),
    {
        let ghost g = self.deep_view();
        let pi = match self.acting_index() {
            Some(i) => i,
            None => {
                return Err(owned("Current player must exist in game state"));
            },
        };
        assert(g.players[pi as int] == self.players[pi as int].deep_view());
        let gone = self.players[pi].disband_fleet(&fleet_id);
        let mut line = owned("Fleet '");
        let count = match gone {
            Some((name, n)) => {
                line.append(name.as_str());
                n
            },
            None => {
                assert(line@ + Seq::<char>::empty() =~= line@);
                0
            },
        };
        line.append("' disbanded. ");
        push_decimal(&mut line, count as u128);
        line.append(" ship(s) are now standalone.");
        proof {
            assert(g.wf() ==> g.players[pi as int].wf());
            Self::lemma_player_replaced(
                g,
                self.players,
                pi as int,
                self.players[pi as int].deep_view(),
            );
        }
        Ok(one_line(line))
    }
}

} // verus!
