//! Players: what they own and what they have in flight.
use vstd::prelude::*;
use vstd::string::*;
use crate::fleet::{Fleet, FleetView, fleet_ids};
use crate::ids::{Identified, idents, distinct, index_in, lemma_index_in, find_by_id};
use crate::pending_action::{PendingAction, PendingActionView, ActionType, ActionTypeView, action_planets};
use crate::ship::{Ship, ShipView, ship_ids};
use crate::text::{push_decimal, decimal};

verus! {

/// The identifier of a player.
pub type PlayerId = String;

/// How many ships of one type a player has built so far.
#[derive(Debug)]
pub struct ShipCounter {
    pub ship_type: String,
    pub built: u32,
}

/// What a [`ShipCounter`] holds, with every text as its sequence of characters.
pub struct ShipCounterView {
    pub ship_type: Seq<char>,
    pub built: u32,
}

impl DeepView for ShipCounter {
    type V = ShipCounterView;

    open spec fn deep_view(&self) -> ShipCounterView {
        ShipCounterView { ship_type: self.ship_type@, built: self.built }
    }
}

impl Identified for ShipCounter {
    open spec fn ident(&self) -> Seq<char> {
        self.ship_type@
    }

    fn id_ref(&self) -> (k: &String) {
        &self.ship_type
    }
}

/// The ship types of a list of counters, in order.
pub open spec fn counter_types(counters: Seq<ShipCounterView>) -> Seq<Seq<char>> {
    Seq::new(counters.len(), |i: int| counters[i].ship_type)
}

/// A player of the game.
#[derive(Debug)]
pub struct Player {
    pub id: PlayerId,
    pub name: String,
    pub planets: Vec<String>,
    /// The actions in flight, oldest first, at most one per planet.
    pub pending_actions: Vec<PendingAction>,
    pub ships: Vec<Ship>,
    pub fleets: Vec<Fleet>,
    pub ship_id_counters: Vec<ShipCounter>,
}

/// What a [`Player`] holds, with every text as its sequence of characters.
pub struct PlayerView {
    pub id: Seq<char>,
    pub name: Seq<char>,
    pub planets: Seq<Seq<char>>,
    pub pending_actions: Seq<PendingActionView>,
    pub ships: Seq<ShipView>,
    pub fleets: Seq<FleetView>,
    pub ship_id_counters: Seq<ShipCounterView>,
}

impl DeepView for Player {
    type V = PlayerView;

    open spec fn deep_view(&self) -> PlayerView {
        PlayerView {
            id: self.id@,
            name: self.name@,
            planets: self.planets.deep_view(),
            pending_actions: self.pending_actions.deep_view(),
            ships: self.ships.deep_view(),
            fleets: self.fleets.deep_view(),
            ship_id_counters: self.ship_id_counters.deep_view(),
        }
    }
}

impl Identified for Player {
    open spec fn ident(&self) -> Seq<char> {
        self.id@
    }

    fn id_ref(&self) -> (k: &String) {
        &self.id
    }
}

/// The identifiers of a list of players, in order.
pub open spec fn player_ids(players: Seq<PlayerView>) -> Seq<Seq<char>> {
    Seq::new(players.len(), |i: int| players[i].id)
}

/// The identifiers of the records are the identifiers of their views.
pub proof fn lemma_ship_list_idents(ships: Vec<Ship>)
    ensures
        idents(ships@) == ship_ids(ships.deep_view()),
{
    assert(idents(ships@) =~= ship_ids(ships.deep_view()));
}

/// The identifiers of the records are the identifiers of their views.
pub proof fn lemma_fleet_list_idents(fleets: Vec<Fleet>)
    ensures
        idents(fleets@) == fleet_ids(fleets.deep_view()),
{
    assert(idents(fleets@) =~= fleet_ids(fleets.deep_view()));
}

/// The identifiers of the records are the identifiers of their views.
pub proof fn lemma_counter_idents(counters: Vec<ShipCounter>)
    ensures
        idents(counters@) == counter_types(counters.deep_view()),
{
    assert(idents(counters@) =~= counter_types(counters.deep_view()));
}

/// The ship named `id`, where the list holds it.
pub open spec fn ship_of(ships: Seq<ShipView>, id: Seq<char>) -> Option<ShipView> {
    let i = index_in(ship_ids(ships), id);
    if i >= 0 {
        Some(ships[i])
    } else {
        None
    }
}

/// The fleet named `id`, where the list holds it.
pub open spec fn fleet_of(fleets: Seq<FleetView>, id: Seq<char>) -> Option<FleetView> {
    let i = index_in(fleet_ids(fleets), id);
    if i >= 0 {
        Some(fleets[i])
    } else {
        None
    }
}

/// The ships after `s` was stored: in place of the ship of the same name, or last.
pub open spec fn with_ship(ships: Seq<ShipView>, s: ShipView) -> Seq<ShipView> {
    let i = index_in(ship_ids(ships), s.id);
    if i >= 0 {
        ships.update(i, s)
    } else {
        ships.push(s)
    }
}

/// How many ships of `ship_type` the counters record.
pub open spec fn built_so_far(counters: Seq<ShipCounterView>, ship_type: Seq<char>) -> u32 {
    let i = index_in(counter_types(counters), ship_type);
    if i >= 0 {
        counters[i].built
    } else {
        0
    }
}

/// The counters after one more ship of `ship_type` was recorded.
pub open spec fn counted(counters: Seq<ShipCounterView>, ship_type: Seq<char>) -> Seq<
    ShipCounterView,
> {
    let i = index_in(counter_types(counters), ship_type);
    if i >= 0 {
        counters.update(
            i,
            ShipCounterView { built: (counters[i].built + 1) as u32, ..counters[i] },
        )
    } else {
        counters.push(ShipCounterView { ship_type, built: 1 })
    }
}

/// The name of the `n`-th ship of `ship_type`.
pub open spec fn ship_name(ship_type: Seq<char>, n: u32) -> Seq<char> {
    ship_type + "_"@ + decimal(n as nat)
}

/// Whether the `i`-th action is a fleet move of `fleet`.
pub open spec fn is_move_of(a: PendingActionView, fleet: Seq<char>) -> bool {
    match a.action_type {
        ActionTypeView::MoveFleet(f, _) => f == fleet,
        _ => false,
    }
}

/// Whether the action is a bombardment by `fleet`.
pub open spec fn is_bombardment_by(a: PendingActionView, fleet: Seq<char>) -> bool {
    match a.action_type {
        ActionTypeView::BombardPlanet(f, _) => f == fleet,
        _ => false,
    }
}

/// The first bombardment by `fleet` among the actions at or after `from`;
/// the number of actions where there is none.
pub open spec fn first_bombardment_by(actions: Seq<PendingActionView>, fleet: Seq<char>, from: int) -> int
    decreases actions.len() - from,
{
    if from < 0 || from >= actions.len() {
        actions.len() as int
    } else if is_bombardment_by(actions[from], fleet) {
        from
    } else {
        first_bombardment_by(actions, fleet, from + 1)
    }
}

impl PlayerView {
    /// Ships, fleets and counters carry distinct names, and no two actions
    /// in flight are anchored to the same planet.
    pub open spec fn wf(self) -> bool {
        &&& distinct(ship_ids(self.ships))
        &&& distinct(fleet_ids(self.fleets))
        &&& distinct(counter_types(self.ship_id_counters))
        &&& distinct(action_planets(self.pending_actions))
    }

    /// Whether an action in flight is anchored to `planet`.
    pub open spec fn busy_at(self, planet: Seq<char>) -> bool {
        index_in(action_planets(self.pending_actions), planet) >= 0
    }

    /// Whether `fleet` is on its way somewhere.
    pub open spec fn fleet_moving(self, fleet: Seq<char>) -> bool {
        exists|i: int|
            0 <= i < self.pending_actions.len() && is_move_of(
                #[trigger] self.pending_actions[i],
                fleet,
            )
    }

    /// Whether `fleet` is bombarding.
    pub open spec fn fleet_bombarding(self, fleet: Seq<char>) -> bool {
        first_bombardment_by(self.pending_actions, fleet, 0) < self.pending_actions.len()
    }

    /// The player after the action anchored to `planet`, if any, was taken out.
    pub open spec fn without_action_at(self, planet: Seq<char>) -> PlayerView {
        let i = index_in(action_planets(self.pending_actions), planet);
        if i >= 0 {
            PlayerView { pending_actions: self.pending_actions.remove(i), ..self }
        } else {
            self
        }
    }

    /// The player after a new ship of `ship_type` appeared at `location`.
    pub open spec fn with_new_ship(self, ship_type: Seq<char>, location: Seq<char>) -> PlayerView {
        let n = (built_so_far(self.ship_id_counters, ship_type) + 1) as u32;
        PlayerView {
            ship_id_counters: counted(self.ship_id_counters, ship_type),
            ships: with_ship(
                self.ships,
                ShipView { id: ship_name(ship_type, n), ship_type, location, fleet_id: None },
            ),
            ..self
        }
    }
}

/// Removing an entry keeps a list free of repetition.
pub proof fn lemma_distinct_remove(keys: Seq<Seq<char>>, i: int)
    requires
        distinct(keys),
        0 <= i < keys.len(),
    ensures
        distinct(keys.remove(i)),
{
    let out = keys.remove(i);
    assert forall|a: int, b: int| 0 <= a < b < out.len() implies out[a] != out[b] by {
        let a2 = if a < i { a } else { a + 1 };
        let b2 = if b < i { b } else { b + 1 };
        assert(out[a] == keys[a2]);
        assert(out[b] == keys[b2]);
    }
}

/// Appending a key that does not occur keeps a list free of repetition.
pub proof fn lemma_distinct_push(keys: Seq<Seq<char>>, k: Seq<char>)
    requires
        distinct(keys),
        index_in(keys, k) < 0,
    ensures
        distinct(keys.push(k)),
{
    lemma_index_in(keys, k);
    let out = keys.push(k);
    assert forall|a: int, b: int| 0 <= a < b < out.len() implies out[a] != out[b] by {
        if b < keys.len() {
            assert(keys[a] != keys[b]);
        } else {
            assert(keys[a] != k);
        }
    }
}

impl Player {
    /// A player who owns nothing yet.
    pub fn new(id: PlayerId, name: String) -> (r: Self)
        ensures
            r.deep_view() == (PlayerView {
                id: id@,
                name: name@,
                planets: Seq::empty(),
                pending_actions: Seq::empty(),
                ships: Seq::empty(),
                fleets: Seq::empty(),
                ship_id_counters: Seq::empty(),
            }),
            r.deep_view().wf(),
    {
        let p = Player {
            id,
            name,
            planets: Vec::new(),
            pending_actions: Vec::new(),
            ships: Vec::new(),
            fleets: Vec::new(),
            ship_id_counters: Vec::new(),
        };
        assert(p.planets.deep_view() =~= Seq::empty());
        assert(p.pending_actions.deep_view() =~= Seq::empty());
        assert(p.ships.deep_view() =~= Seq::empty());
        assert(p.fleets.deep_view() =~= Seq::empty());
        assert(p.ship_id_counters.deep_view() =~= Seq::empty());
        p
    }

    /// The position of the action anchored to `planet_id`.
    #[verifier::loop_isolation(false)]
    pub fn pending_action_index(&self, planet_id: &String) -> (r: Option<usize>)
        ensures
            match r {
                Some(i) => i < self.pending_actions.len() && index_in(
                    action_planets(self.deep_view().pending_actions),
                    planet_id@,
                ) == i,
                None => index_in(action_planets(self.deep_view().pending_actions), planet_id@)
                    == -1,
            },
    {
        let ghost keys = action_planets(self.deep_view().pending_actions);
        proof {
            lemma_index_in(keys, planet_id@);
        }
        let mut i: usize = 0;
        while i < self.pending_actions.len()
            invariant
                i <= self.pending_actions.len(),
                forall|j: int| 0 <= j < i ==> keys[j] != planet_id@,
            decreases self.pending_actions.len() - i,
        {
            if self.pending_actions[i].planet_id == *planet_id {
                assert(keys[i as int] == planet_id@);
                return Some(i);
            }
            i += 1;
        }
        None
    }

    /// Whether an action in flight is anchored to `planet_id`.
    pub fn has_pending_action_on_planet(&self, planet_id: &String) -> (r: bool)
        ensures
            r == self.deep_view().busy_at(planet_id@),
    {
        self.pending_action_index(planet_id).is_some()
    }

    /// The action anchored to `planet_id`, where there is one.
    pub fn find_pending_action_on_planet(&self, planet_id: &String) -> (r: Option<&PendingAction>)
        ensures
            ({
                let actions = self.deep_view().pending_actions;
                let i = index_in(action_planets(actions), planet_id@);
                match r {
                    Some(a) => i >= 0 && a.deep_view() == actions[i],
                    None => i == -1,
                }
            }),
    {
        match self.pending_action_index(planet_id) {
            Some(i) => Some(&self.pending_actions[i]),
            None => None,
        }
    }

    /// The action anchored to `planet_id`, for changing it in place. What is
    /// written through the reference becomes the action at the same
    /// position of the queue; nothing else changes.
    pub fn find_pending_action_on_planet_mut(&mut self, planet_id: &String) -> (r: Option<
        &mut PendingAction,
    >)
        ensures
            ({
                let actions = old(self).deep_view().pending_actions;
                let i = index_in(action_planets(actions), planet_id@);
                match r {
                    Some(a) => i >= 0 && a.deep_view() == actions[i] && final(self).pending_actions@
                        == old(self).pending_actions@.update(i, *final(a)) && final(self).id == old(
                        self,
                    ).id && final(self).name == old(self).name && final(self).planets == old(
                        self,
                    ).planets && final(self).ships == old(self).ships && final(self).fleets == old(
                        self,
                    ).fleets && final(self).ship_id_counters == old(self).ship_id_counters,
                    None => i == -1 && *final(self) == *old(self),
                }
            }),
    {
        match self.pending_action_index(planet_id) {
            Some(i) => {
                assert(self.deep_view().pending_actions[i as int]
                    == self.pending_actions[i as int].deep_view());
                Some(&mut self.pending_actions[i])
            },
            None => None,
        }
    }

    /// Takes out and returns the action anchored to `planet_id`, where there is one.
    pub fn remove_pending_action_on_planet(&mut self, planet_id: &String) -> (r: Option<
        PendingAction,
    >)
        ensures
            ({
                let actions = old(self).deep_view().pending_actions;
                let i = index_in(action_planets(actions), planet_id@);
                match r {
                    Some(a) => i >= 0 && a.deep_view() == actions[i],
                    None => i == -1,
                }
            }),
            final(self).deep_view() == old(self).deep_view().without_action_at(planet_id@),
            old(self).deep_view().wf() ==> final(self).deep_view().wf(),
    {
        let ghost before = self.deep_view().pending_actions;
        match self.pending_action_index(planet_id) {
            Some(i) => {
                let a = self.pending_actions.remove(i);
                proof {
                    assert(self.pending_actions.deep_view() =~= before.remove(i as int));
                    assert(action_planets(before.remove(i as int)) =~= action_planets(
                        before,
                    ).remove(i as int));
                    if distinct(action_planets(before)) {
                        lemma_distinct_remove(action_planets(before), i as int);
                    }
                }
                Some(a)
            },
            None => None,
        }
    }

    /// Whether `fleet_id` is on its way somewhere.
    #[verifier::loop_isolation(false)]
    pub fn has_pending_fleet_move(&self, fleet_id: &String) -> (r: bool)
        ensures
            r == self.deep_view().fleet_moving(fleet_id@),
    {
        let ghost actions = self.deep_view().pending_actions;
        let mut i: usize = 0;
        while i < self.pending_actions.len()
            invariant
                i <= self.pending_actions.len(),
                forall|j: int| 0 <= j < i ==> !is_move_of(#[trigger] actions[j], fleet_id@),
            decreases self.pending_actions.len() - i,
        {
            assert(actions[i as int] == self.pending_actions[i as int].deep_view());
            if let ActionType::MoveFleet(f, _) = &self.pending_actions[i].action_type {
                if *f == *fleet_id {
                    assert(is_move_of(actions[i as int], fleet_id@));
                    return true;
                }
            }
            i += 1;
        }
        false
    }

    /// The position of the bombardment that `fleet_id` carries out.
    #[verifier::loop_isolation(false)]
    pub fn bombardment_index(&self, fleet_id: &String) -> (r: Option<usize>)
        ensures
            ({
                let actions = self.deep_view().pending_actions;
                let k = first_bombardment_by(actions, fleet_id@, 0);
                match r {
                    Some(i) => i == k && k < actions.len(),
                    None => k == actions.len(),
                }
            }),
    {
        let ghost actions = self.deep_view().pending_actions;
        let mut i: usize = 0;
        while i < self.pending_actions.len()
            invariant
                i <= self.pending_actions.len(),
                first_bombardment_by(actions, fleet_id@, 0) == first_bombardment_by(
                    actions,
                    fleet_id@,
                    i as int,
                ),
            decreases self.pending_actions.len() - i,
        {
            assert(actions[i as int] == self.pending_actions[i as int].deep_view());
            if let ActionType::BombardPlanet(f, _) = &self.pending_actions[i].action_type {
                if *f == *fleet_id {
                    return Some(i);
                }
            }
            i += 1;
        }
        None
    }

    /// Whether `fleet_id` is bombarding.
    pub fn has_pending_fleet_bombardment(&self, fleet_id: &String) -> (r: bool)
        ensures
            r == self.deep_view().fleet_bombarding(fleet_id@),
    {
        self.bombardment_index(fleet_id).is_some()
    }

    /// The name of the next ship of `ship_type`: the type, an underscore and
    /// the running number of ships of that type, which starts at 1.
    pub fn generate_ship_id(&mut self, ship_type: &String) -> (r: String)
        requires
            built_so_far(old(self).deep_view().ship_id_counters, ship_type@) < u32::MAX,
        ensures
            r@ == ship_name(
                ship_type@,
                (built_so_far(old(self).deep_view().ship_id_counters, ship_type@) + 1) as u32,
            ),
            final(self).deep_view() == (PlayerView {
                ship_id_counters: counted(old(self).deep_view().ship_id_counters, ship_type@),
                ..old(self).deep_view()
            }),
            old(self).deep_view().wf() ==> final(self).deep_view().wf(),
    {
        let ghost before = self.ship_id_counters.deep_view();
        proof {
            lemma_counter_idents(self.ship_id_counters);
            lemma_index_in(counter_types(before), ship_type@);
        }
        let n = match find_by_id(&self.ship_id_counters, ship_type) {
            Some(i) => {
                self.ship_id_counters[i].built += 1;
                assert(self.ship_id_counters.deep_view() =~= counted(before, ship_type@));
                assert(counter_types(self.ship_id_counters.deep_view()) =~= counter_types(before));
                self.ship_id_counters[i].built
            },
            None => {
                self.ship_id_counters.push(ShipCounter { ship_type: ship_type.clone(), built: 1 });
                assert(self.ship_id_counters.deep_view() =~= counted(before, ship_type@));
                proof {
                    assert(counter_types(self.ship_id_counters.deep_view()) =~= counter_types(
                        before,
                    ).push(ship_type@));
                    if distinct(counter_types(before)) {
                        lemma_distinct_push(counter_types(before), ship_type@);
                    }
                }
                1
            },
        };
        let mut id = ship_type.clone();
        id.append("_");
        push_decimal(&mut id, n as u128);
        id
    }

    /// Creates a ship of `ship_type` at `location` and returns its name.
    pub fn add_ship(&mut self, ship_type: String, location: String) -> (r: String)
        requires
            built_so_far(old(self).deep_view().ship_id_counters, ship_type@) < u32::MAX,
        ensures
            r@ == ship_name(
                ship_type@,
                (built_so_far(old(self).deep_view().ship_id_counters, ship_type@) + 1) as u32,
            ),
            final(self).deep_view() == old(self).deep_view().with_new_ship(ship_type@, location@),
            old(self).deep_view().wf() ==> final(self).deep_view().wf(),
    {
        let ship_id = self.generate_ship_id(&ship_type);
        let ship = Ship::new(ship_id.clone(), ship_type, location);
        let ghost before = self.ships.deep_view();
        let ghost sv = ship.deep_view();
        proof {
            lemma_ship_list_idents(self.ships);
            lemma_index_in(ship_ids(before), sv.id);
        }
        match find_by_id(&self.ships, &ship.id) {
            Some(i) => {
                self.ships[i] = ship;
                assert(self.ships.deep_view() =~= before.update(i as int, sv));
                assert(ship_ids(self.ships.deep_view()) =~= ship_ids(before));
            },
            None => {
                self.ships.push(ship);
                assert(self.ships.deep_view() =~= before.push(sv));
                proof {
                    assert(ship_ids(self.ships.deep_view()) =~= ship_ids(before).push(sv.id));
                    if distinct(ship_ids(before)) {
                        lemma_distinct_push(ship_ids(before), sv.id);
                    }
                }
            },
        }
        ship_id
    }
}

} // verus!
