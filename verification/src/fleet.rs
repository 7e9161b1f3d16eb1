//! Fleets: named groups of ships that move together.
use vstd::prelude::*;
use crate::ids::{Identified, index_in, lemma_index_in, contains_text, copy_texts};
use crate::ship::{FleetId, ShipInstanceId};

verus! {

/// A named group of ships at one planet.
#[derive(Debug)]
pub struct Fleet {
    pub id: FleetId,
    pub name: String,
    pub ships: Vec<ShipInstanceId>,
    pub location: String,
}

/// What a [`Fleet`] holds, with every text as its sequence of characters.
pub struct FleetView {
    pub id: Seq<char>,
    pub name: Seq<char>,
    pub ships: Seq<Seq<char>>,
    pub location: Seq<char>,
}

impl DeepView for Fleet {
    type V = FleetView;

    open spec fn deep_view(&self) -> FleetView {
        FleetView {
            id: self.id@,
            name: self.name@,
            ships: self.ships.deep_view(),
            location: self.location@,
        }
    }
}

impl Identified for Fleet {
    open spec fn ident(&self) -> Seq<char> {
        self.id@
    }

    fn id_ref(&self) -> (k: &String) {
        &self.id
    }
}

/// The identifiers of a list of fleets, in order.
pub open spec fn fleet_ids(fleets: Seq<FleetView>) -> Seq<Seq<char>> {
    Seq::new(fleets.len(), |i: int| fleets[i].id)
}

/// The members after `ship` joined: unchanged where it already was one.
pub open spec fn with_member(ships: Seq<Seq<char>>, ship: Seq<char>) -> Seq<Seq<char>> {
    if ships.contains(ship) {
        ships
    } else {
        ships.push(ship)
    }
}

/// The members after the first entry for `ship` was taken out.
pub open spec fn without_member(ships: Seq<Seq<char>>, ship: Seq<char>) -> Seq<Seq<char>> {
    let i = index_in(ships, ship);
    if i >= 0 {
        ships.remove(i)
    } else {
        ships
    }
}

impl Fleet {
    /// A fleet without ships.
    pub fn new(id: FleetId, name: String, location: String) -> (r: Self)
        ensures
            r.deep_view() == (FleetView {
                id: id@,
                name: name@,
                ships: Seq::empty(),
                location: location@,
            }),
    {
        let f = Fleet { id, name, ships: Vec::new(), location };
        assert(f.ships.deep_view() =~= Seq::empty());
        f
    }

    /// Adds a ship to the fleet unless it is already a member.
    pub fn add_ship(&mut self, ship_id: ShipInstanceId)
        ensures
            final(self).deep_view() == (FleetView {
                ships: with_member(old(self).deep_view().ships, ship_id@),
                ..old(self).deep_view()
            }),
    {
        if !contains_text(&self.ships, &ship_id) {
            self.ships.push(ship_id);
            assert(self.ships.deep_view() =~= old(self).ships.deep_view().push(ship_id@));
        }
    }

    /// Takes a ship out of the fleet and says whether it was a member.
    #[verifier::loop_isolation(false)]
    pub fn remove_ship(&mut self, ship_id: &ShipInstanceId) -> (r: bool)
        ensures
            r == old(self).deep_view().ships.contains(ship_id@),
            final(self).deep_view() == (FleetView {
                ships: without_member(old(self).deep_view().ships, ship_id@),
                ..old(self).deep_view()
            }),
    {
        let ghost before = self.ships.deep_view();
        proof {
            lemma_index_in(before, ship_id@);
        }
        let mut i: usize = 0;
        while i < self.ships.len()
            invariant
                i <= self.ships.len(),
                *self == *old(self),
                before == self.ships.deep_view(),
                forall|j: int| 0 <= j < i ==> before[j] != ship_id@,
            decreases self.ships.len() - i,
        {
            if self.ships[i] == *ship_id {
                assert(before[i as int] == ship_id@);
                self.ships.remove(i);
                assert(self.ships.deep_view() =~= before.remove(i as int));
                return true;
            }
            i += 1;
        }
        false
    }

    pub fn is_empty(&self) -> (r: bool)
        ensures
            r == (self.deep_view().ships.len() == 0),
    {
        self.ships.len() == 0
    }

    pub fn ship_count(&self) -> (r: usize)
        ensures
            r == self.deep_view().ships.len(),
    {
        self.ships.len()
    }
}

impl Clone for Fleet {
    fn clone(&self) -> (r: Self)
        ensures
            r.deep_view() == self.deep_view(),
    {
        Fleet {
            id: self.id.clone(),
            name: self.name.clone(),
            ships: copy_texts(&self.ships),
            location: self.location.clone(),
        }
    }
}

} // verus!
