//! Arrival of a fleet at its destination, with combat where the planet is defended.
use vstd::prelude::*;
use vstd::string::*;
use crate::combat::{
    CombatOutcome,
    combat_result,
    fleet_roster,
    fleet_ship_types,
    garrison_roster,
    push_strength,
    resolve_combat,
    ship_types_at,
    strength_text,
};
use crate::fleet::{FleetView, fleet_ids};
use crate::fleet_effects::lemma_assigned_ids;
use crate::game_state::{GameState, GameStateView};
use crate::ids::{copy_texts, distinct, find_by_id, index_in, lemma_index_in};
use crate::player::{
    Player,
    PlayerView,
    lemma_distinct_remove,
    lemma_fleet_list_idents,
    lemma_ship_list_idents,
};
use crate::ship::{ShipView, ship_ids};
use crate::text::owned;

verus! {

/// The ships after those named by the first `n` of `members` moved to `dest`.
pub open spec fn moved(ships: Seq<ShipView>, members: Seq<Seq<char>>, dest: Seq<char>, n: int) -> Seq<
    ShipView,
>
    decreases n,
{
    if n <= 0 {
        ships
    } else {
        let rest = moved(ships, members, dest, n - 1);
        let j = index_in(ship_ids(ships), members[n - 1]);
        if j >= 0 {
            rest.update(j, ShipView { location: dest, ..rest[j] })
        } else {
            rest
        }
    }
}

/// Moving ships changes no ship's name and loses no ship.
pub proof fn lemma_moved_ids(ships: Seq<ShipView>, members: Seq<Seq<char>>, dest: Seq<char>, n: int)
    ensures
        moved(ships, members, dest, n).len() == ships.len(),
        ship_ids(moved(ships, members, dest, n)) == ship_ids(ships),
    decreases n,
{
    if n > 0 {
        lemma_moved_ids(ships, members, dest, n - 1);
        lemma_index_in(ship_ids(ships), members[n - 1]);
        assert(ship_ids(moved(ships, members, dest, n)) =~= ship_ids(ships));
    }
}

/// The ships after those named by the first `n` of `members` were destroyed.
pub open spec fn scrapped(ships: Seq<ShipView>, members: Seq<Seq<char>>, n: int) -> Seq<ShipView>
    decreases n,
{
    if n <= 0 {
        ships
    } else {
        let rest = scrapped(ships, members, n - 1);
        let j = index_in(ship_ids(rest), members[n - 1]);
        if j >= 0 {
            rest.remove(j)
        } else {
            rest
        }
    }
}

/// The wording of a line shown to the player.
pub open spec fn fleet_gone_text(fleet: Seq<char>, dest: Seq<char>) -> Seq<char> {
    "Fleet "@ + fleet + " no longer exists; its flight to "@ + dest + " is abandoned."@
}

/// The wording of a line shown to the player.
pub open spec fn destination_gone_text(fleet: Seq<char>, dest: Seq<char>) -> Seq<char> {
    "Fleet "@ + fleet + " cannot arrive: planet "@ + dest + " not found."@
}

/// The wording of a line shown to the player.
pub open spec fn arrived_text(fleet: Seq<char>, planet: Seq<char>) -> Seq<char> {
    "Fleet "@ + fleet + " arrived at "@ + planet + "."@
}

/// The wording of a line shown to the player.
pub open spec fn unopposed_text(fleet: Seq<char>, planet: Seq<char>) -> Seq<char> {
    "Fleet "@ + fleet + " arrived at "@ + planet + " unopposed."@
}

/// The wording of a line shown to the player.
pub open spec fn battle_text(planet: Seq<char>, outcome: CombatOutcome) -> Seq<char> {
    "Battle at "@ + planet + ": attacker strength "@ + strength_text(outcome.attacker_strength)
        + " vs defender strength "@ + strength_text(outcome.defender_strength) + "."@
}

/// The wording of a line shown to the player.
pub open spec fn attackers_won_text(fleet: Seq<char>, planet: Seq<char>) -> Seq<char> {
    "Attackers win: the defenders of "@ + planet + " are destroyed and fleet "@ + fleet
        + " enters orbit."@
}

/// The wording of a line shown to the player.
pub open spec fn defenders_won_text(fleet: Seq<char>, planet: Seq<char>) -> Seq<char> {
    "Defenders win at "@ + planet + ": fleet "@ + fleet + " is destroyed and disbanded."@
}

impl PlayerView {
    /// The player after the fleet at position `fi` and all its ships moved to `dest`.
    pub open spec fn fleet_relocated(self, fi: int, dest: Seq<char>) -> PlayerView {
        let f = self.fleets[fi];
        PlayerView {
            ships: moved(self.ships, f.ships, dest, f.ships.len() as int),
            fleets: self.fleets.update(fi, FleetView { location: dest, ..f }),
            ..self
        }
    }

    /// The player after the fleet at position `fi` was destroyed with all its ships.
    pub open spec fn fleet_destroyed(self, fi: int) -> PlayerView {
        let f = self.fleets[fi];
        PlayerView {
            ships: scrapped(self.ships, f.ships, f.ships.len() as int),
            fleets: self.fleets.remove(fi),
            ..self
        }
    }

    /// The player after the ship at position `k` was destroyed: it leaves
    /// its fleet, and a fleet left without ships is disbanded.
    pub open spec fn ship_destroyed(self, k: int) -> PlayerView {
        let s = self.ships[k];
        let cleaned = match s.fleet_id {
            Some(f) => self.fleet_reduced(f, seq![s.id]),
            None => self,
        };
        PlayerView { ships: cleaned.ships.remove(k), ..cleaned }
    }

    /// The player after every ship at `planet`, from position `k` on, was
    /// destroyed; `left` is the number of ships still to look at.
    pub open spec fn garrison_destroyed_from(self, planet: Seq<char>, k: int, left: nat) -> PlayerView
        decreases left,
    {
        if left == 0 || k < 0 || k >= self.ships.len() {
            self
        } else if self.ships[k].location == planet {
            self.ship_destroyed(k).garrison_destroyed_from(planet, k, (left - 1) as nat)
        } else {
            self.garrison_destroyed_from(planet, k + 1, (left - 1) as nat)
        }
    }

    /// The player after every ship at `planet` was destroyed.
    pub open spec fn garrison_destroyed(self, planet: Seq<char>) -> PlayerView {
        self.garrison_destroyed_from(planet, 0, self.ships.len())
    }
}

/// A state and the lines reported for it.
pub struct Report {
    pub state: GameStateView,
    pub lines: Seq<Seq<char>>,
}

impl Report {
    /// The report with one more line.
    pub open spec fn say(self, line: Seq<char>) -> Report {
        Report { lines: self.lines.push(line), ..self }
    }

    /// What the arrival of the fleet `fleet` of the `pi`-th player at `dest`
    /// does. At an own or unowned planet, or one without defenders, the
    /// fleet and its ships take up position there. Otherwise a fight decides
    /// whether the defenders or the fleet are destroyed. Ownership of the
    /// planet never changes here.
    pub open spec fn arrival(self, pi: int, fleet: Seq<char>, dest: Seq<char>) -> Report {
        let g = self.state;
        let p = g.players[pi];
        let fi = index_in(fleet_ids(p.fleets), fleet);
        let qi = g.planet_index(dest);
        if fi < 0 {
            self.say(fleet_gone_text(fleet, dest))
        } else if qi < 0 {
            self.say(destination_gone_text(fleet, dest))
        } else {
            let f = p.fleets[fi];
            let planet = g.map.planets[qi];
            let oi = match planet.owner {
                Some(o) => g.player_index(o),
                None => -1,
            };
            if planet.owner.is_none() || oi == pi {
                Report {
                    state: g.with_player(pi, p.fleet_relocated(fi, dest)),
                    lines: self.lines.push(arrived_text(f.name, planet.name)),
                }
            } else {
                let defenders = if oi < 0 {
                    Seq::empty()
                } else {
                    garrison_roster(g.players[oi].ships, dest, g.players[oi].ships.len() as int)
                };
                if defenders.len() == 0 {
                    Report {
                        state: g.with_player(pi, p.fleet_relocated(fi, dest)),
                        lines: self.lines.push(unopposed_text(f.name, planet.name)),
                    }
                } else {
                    let attackers = fleet_roster(p.ships, f.ships, f.ships.len() as int);
                    let outcome = combat_result(g.ship_config, attackers, defenders);
                    let lines = self.lines.push(battle_text(planet.name, outcome));
                    if outcome.attacker_wins {
                        Report {
                            state: g.with_player(
                                oi,
                                g.players[oi].garrison_destroyed(dest),
                            ).with_player(pi, p.fleet_relocated(fi, dest)),
                            lines: lines.push(attackers_won_text(f.name, planet.name)),
                        }
                    } else {
                        Report {
                            state: g.with_player(pi, p.fleet_destroyed(fi)),
                            lines: lines.push(defenders_won_text(f.name, planet.name)),
                        }
                    }
                }
            }
        }
    }
}

/// Taking ships out of a fleet changes neither the list of ships' names nor the player's name.
pub proof fn lemma_fleet_reduced_ships(p: PlayerView, fleet: Seq<char>, ids: Seq<Seq<char>>)
    ensures
        p.fleet_reduced(fleet, ids).ships.len() == p.ships.len(),
        ship_ids(p.fleet_reduced(fleet, ids).ships) == ship_ids(p.ships),
        p.fleet_reduced(fleet, ids).id == p.id,
{
    lemma_assigned_ids(p.ships, ids, None, ids.len() as int);
}

/// Losing a garrison changes no player's name.
pub proof fn lemma_garrison_destroyed_id(p: PlayerView, planet: Seq<char>, k: int, left: nat)
    ensures
        p.garrison_destroyed_from(planet, k, left).id == p.id,
    decreases left,
{
    if left == 0 || k < 0 || k >= p.ships.len() {
    } else if p.ships[k].location == planet {
        let s = p.ships[k];
        match s.fleet_id {
            Some(f) => {
                lemma_fleet_reduced_ships(p, f, seq![s.id]);
            },
            None => {},
        }
        lemma_garrison_destroyed_id(p.ship_destroyed(k), planet, k, (left - 1) as nat);
    } else {
        lemma_garrison_destroyed_id(p, planet, k + 1, (left - 1) as nat);
    }
}

/// A list that holds one text.
pub fn one_text(t: &String) -> (r: Vec<String>)
    ensures
        r.deep_view() == seq![t@],
{
    let mut v: Vec<String> = Vec::new();
    v.push(t.clone());
    assert(v.deep_view() =~= seq![t@]);
    v
}

impl Player {
    /// Moves the fleet at position `fi` and all its ships to `dest`.
    #[verifier::loop_isolation(false)]
    pub fn relocate_fleet(&mut self, fi: usize, dest: &String)
        requires
            fi < old(self).fleets.len(),
        ensures
            final(self).deep_view() == old(self).deep_view().fleet_relocated(fi as int, dest@),
            old(self).deep_view().wf() ==> final(self).deep_view().wf(),
    {
        let ghost before = self.deep_view();
        let ghost f = before.fleets[fi as int];
        assert(self.fleets[fi as int].deep_view() == f);
        let members = copy_texts(&self.fleets[fi].ships);
        let mut k: usize = 0;
        while k < members.len()
            invariant
                k <= members.len(),
                fi < self.fleets.len(),
                self.fleets[fi as int].deep_view() == f,
                self.deep_view() == (PlayerView {
                    ships: moved(before.ships, f.ships, dest@, k as int),
                    ..before
                }),
            decreases members.len() - k,
        {
            proof {
                lemma_ship_list_idents(self.ships);
                lemma_moved_ids(before.ships, f.ships, dest@, k as int);
                lemma_index_in(ship_ids(before.ships), f.ships[k as int]);
            }
            assert(members.deep_view()[k as int] == members[k as int]@);
            let ghost list = self.ships.deep_view();
            match find_by_id(&self.ships, &members[k]) {
                Some(j) => {
                    self.ships[j].location = dest.clone();
                    assert(self.ships.deep_view() =~= list.update(
                        j as int,
                        ShipView { location: dest@, ..list[j as int] },
                    ));
                },
                None => {},
            }
            k += 1;
        }
        let ghost list = self.fleets.deep_view();
        self.fleets[fi].location = dest.clone();
        proof {
            assert(self.fleets.deep_view() =~= list.update(
                fi as int,
                FleetView { location: dest@, ..f },
            ));
            assert(fleet_ids(self.fleets.deep_view()) =~= fleet_ids(list));
            lemma_moved_ids(before.ships, f.ships, dest@, f.ships.len() as int);
        }
    }

    /// Destroys the fleet at position `fi` with all its ships.
    #[verifier::loop_isolation(false)]
    pub fn destroy_fleet(&mut self, fi: usize)
        requires
            fi < old(self).fleets.len(),
        ensures
            final(self).deep_view() == old(self).deep_view().fleet_destroyed(fi as int),
            old(self).deep_view().wf() ==> final(self).deep_view().wf(),
    {
        let ghost before = self.deep_view();
        let ghost f = before.fleets[fi as int];
        assert(self.fleets[fi as int].deep_view() == f);
        let members = copy_texts(&self.fleets[fi].ships);
        let mut k: usize = 0;
        while k < members.len()
            invariant
                k <= members.len(),
                fi < self.fleets.len(),
                self.deep_view() == (PlayerView {
                    ships: scrapped(before.ships, f.ships, k as int),
                    ..before
                }),
                before.wf() ==> self.deep_view().wf(),
            decreases members.len() - k,
        {
            proof {
                lemma_ship_list_idents(self.ships);
            }
            assert(members.deep_view()[k as int] == members[k as int]@);
            let ghost list = self.ships.deep_view();
            match find_by_id(&self.ships, &members[k]) {
                Some(j) => {
                    self.ships.remove(j);
                    proof {
                        assert(self.ships.deep_view() =~= list.remove(j as int));
                        assert(ship_ids(list.remove(j as int)) =~= ship_ids(list).remove(j as int));
                        if distinct(ship_ids(list)) {
                            lemma_distinct_remove(ship_ids(list), j as int);
                        }
                    }
                },
                None => {},
            }
            k += 1;
        }
        self.drop_fleet_at(fi);
    }

    /// Destroys the ship at position `k`.
    pub fn destroy_ship_at(&mut self, k: usize)
        requires
            k < old(self).ships.len(),
        ensures
            final(self).deep_view() == old(self).deep_view().ship_destroyed(k as int),
            final(self).ships.len() == old(self).ships.len() - 1,
            old(self).deep_view().wf() ==> final(self).deep_view().wf(),
    {
        let ghost before = self.deep_view();
        assert(self.ships[k as int].deep_view() == before.ships[k as int]);
        let ship_id = self.ships[k].id.clone();
        let home = match &self.ships[k].fleet_id {
            Some(f) => Some(f.clone()),
            None => None,
        };
        match home {
            Some(f) => {
                let ids = one_text(&ship_id);
                self.reduce_fleet(&f, &ids);
                proof {
                    lemma_fleet_reduced_ships(before, f@, seq![ship_id@]);
                }
            },
            None => {},
        }
        let ghost list = self.ships.deep_view();
        self.ships.remove(k);
        proof {
            assert(self.ships.deep_view() =~= list.remove(k as int));
            assert(ship_ids(list.remove(k as int)) =~= ship_ids(list).remove(k as int));
            if distinct(ship_ids(list)) {
                lemma_distinct_remove(ship_ids(list), k as int);
            }
        }
    }

    /// Destroys every ship of the player that is at `planet`.
    #[verifier::loop_isolation(false)]
    pub fn destroy_garrison(&mut self, planet: &String)
        ensures
            final(self).deep_view() == old(self).deep_view().garrison_destroyed(planet@),
            old(self).deep_view().wf() ==> final(self).deep_view().wf(),
    {
        let ghost before = self.deep_view();
        let ghost goal = before.garrison_destroyed(planet@);
        let mut k: usize = 0;
        while k < self.ships.len()
            invariant
                k <= self.ships.len(),
                self.deep_view().garrison_destroyed_from(
                    planet@,
                    k as int,
                    (self.ships.len() - k) as nat,
                ) == goal,
                before.wf() ==> self.deep_view().wf(),
            decreases self.ships.len() - k,
        {
            assert(self.ships[k as int].deep_view() == self.deep_view().ships[k as int]);
            if self.ships[k].location == *planet {
                self.destroy_ship_at(k);
            } else {
                k += 1;
            }
        }
    }
}

impl GameState {
    /// Resolves the arrival of the fleet `fleet` of the `pi`-th player at `dest`.
    pub fn resolve_arrival(&mut self, pi: usize, fleet: &String, dest: &String, lines: &mut Vec<String>)
        requires
            pi < old(self).players.len(),
        ensures
            (Report { state: final(self).deep_view(), lines: final(lines).deep_view() }) == (Report {
                state: old(self).deep_view(),
                lines: old(lines).deep_view(),
            }).arrival(pi as int, fleet@, dest@),
            final(self).players.len() == old(self).players.len(),
            old(self).deep_view().wf() ==> final(self).deep_view().wf(),
    {
        let ghost g = self.deep_view();
        let ghost said = lines.deep_view();
        assert(g.players[pi as int] == self.players[pi as int].deep_view());
        proof {
            lemma_fleet_list_idents(self.players[pi as int].fleets);
        }
        let fi = match find_by_id(&self.players[pi].fleets, fleet) {
            Some(i) => i,
            None => {
                let mut line = owned("Fleet ");
                line.append(fleet.as_str());
                line.append(" no longer exists; its flight to ");
                line.append(dest.as_str());
                line.append(" is abandoned.");
                lines.push(line);
                assert(lines.deep_view() =~= said.push(line@));
                return ;
            },
        };
        let qi = match self.planet_index(dest) {
            Some(i) => i,
            None => {
                let mut line = owned("Fleet ");
                line.append(fleet.as_str());
                line.append(" cannot arrive: planet ");
                line.append(dest.as_str());
                line.append(" not found.");
                lines.push(line);
                assert(lines.deep_view() =~= said.push(line@));
                return ;
            },
        };
        assert(g.map.planets[qi as int] == self.map.planets[qi as int].deep_view());
        assert(g.players[pi as int].fleets[fi as int]
            == self.players[pi as int].fleets[fi as int].deep_view());
        let fleet_name = self.players[pi].fleets[fi].name.clone();
        let planet_name = self.map.planets[qi].name.clone();
        let owner = match &self.map.planets[qi].owner {
            Some(o) => self.player_index(o),
            None => None,
        };
        let friendly = match &self.map.planets[qi].owner {
            None => true,
            Some(_) => match owner {
                Some(oi) => oi == pi,
                None => false,
            },
        };
        if friendly {
            self.players[pi].relocate_fleet(fi, dest);
            let mut line = owned("Fleet ");
            line.append(fleet_name.as_str());
            line.append(" arrived at ");
            line.append(planet_name.as_str());
            line.append(".");
            lines.push(line);
            proof {
                assert(lines.deep_view() =~= said.push(line@));
                assert(g.wf() ==> g.players[pi as int].wf());
                Self::lemma_player_replaced(
                    g,
                    self.players,
                    pi as int,
                    self.players[pi as int].deep_view(),
                );
            }
            return ;
        }
        let defenders = match owner {
            Some(oi) => {
                assert(g.players[oi as int] == self.players[oi as int].deep_view());
                ship_types_at(&self.players[oi].ships, dest)
            },
            None => {
                let v: Vec<String> = Vec::new();
                assert(v.deep_view() =~= Seq::<Seq<char>>::empty());
                v
            },
        };
        if defenders.len() == 0 {
            self.players[pi].relocate_fleet(fi, dest);
            let mut line = owned("Fleet ");
            line.append(fleet_name.as_str());
            line.append(" arrived at ");
            line.append(planet_name.as_str());
            line.append(" unopposed.");
            lines.push(line);
            proof {
                assert(lines.deep_view() =~= said.push(line@));
                assert(g.wf() ==> g.players[pi as int].wf());
                Self::lemma_player_replaced(
                    g,
                    self.players,
                    pi as int,
                    self.players[pi as int].deep_view(),
                );
            }
            return ;
        }
        let oi = owner.unwrap();
        let attackers = fleet_ship_types(
            &self.players[pi].ships,
            &self.players[pi].fleets[fi].ships,
        );
        let outcome = resolve_combat(&attackers, &defenders, &self.ship_config);
        let mut line = owned("Battle at ");
        line.append(planet_name.as_str());
        line.append(": attacker strength ");
        push_strength(&mut line, outcome.attacker_strength);
        line.append(" vs defender strength ");
        push_strength(&mut line, outcome.defender_strength);
        line.append(".");
        lines.push(line);
        let ghost said2 = lines.deep_view();
        assert(said2 =~= said.push(line@));
        if outcome.attacker_wins {
            self.players[oi].destroy_garrison(dest);
            proof {
                lemma_garrison_destroyed_id(
                    g.players[oi as int],
                    dest@,
                    0,
                    g.players[oi as int].ships.len(),
                );
                assert(g.wf() ==> g.players[oi as int].wf());
                Self::lemma_player_replaced(
                    g,
                    self.players,
                    oi as int,
                    self.players[oi as int].deep_view(),
                );
            }
            let ghost mid = self.deep_view();
            assert(mid.players[pi as int] == self.players[pi as int].deep_view());
            self.players[pi].relocate_fleet(fi, dest);
            let mut line = owned("Attackers win: the defenders of ");
            line.append(planet_name.as_str());
            line.append(" are destroyed and fleet ");
            line.append(fleet_name.as_str());
            line.append(" enters orbit.");
            lines.push(line);
            proof {
                assert(lines.deep_view() =~= said2.push(line@));
                assert(mid.wf() ==> mid.players[pi as int].wf());
                Self::lemma_player_replaced(
                    mid,
                    self.players,
                    pi as int,
                    self.players[pi as int].deep_view(),
                );
            }
        } else {
            self.players[pi].destroy_fleet(fi);
            let mut line = owned("Defenders win at ");
            line.append(planet_name.as_str());
            line.append(": fleet ");
            line.append(fleet_name.as_str());
            line.append(" is destroyed and disbanded.");
            lines.push(line);
            proof {
                assert(lines.deep_view() =~= said2.push(line@));
                assert(g.wf() ==> g.players[pi as int].wf());
                Self::lemma_player_replaced(
                    g,
                    self.players,
                    pi as int,
                    self.players[pi as int].deep_view(),
                );
            }
        }
    }
}

} // verus!
