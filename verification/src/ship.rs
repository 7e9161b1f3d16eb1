//! Ship instances.
use vstd::prelude::*;
use crate::ids::Identified;

verus! {

/// The identifier of a ship.
pub type ShipInstanceId = String;

/// The identifier of a fleet.
pub type FleetId = String;

/// One ship of a player: what it is, where it is and which fleet it flies in.
#[derive(Debug)]
pub struct Ship {
    pub id: ShipInstanceId,
    pub ship_type: String,
    pub location: String,
    pub fleet_id: Option<FleetId>,
}

/// What a [`Ship`] holds, with every text as its sequence of characters.
pub struct ShipView {
    pub id: Seq<char>,
    pub ship_type: Seq<char>,
    pub location: Seq<char>,
    pub fleet_id: Option<Seq<char>>,
}

impl DeepView for Ship {
    type V = ShipView;

    open spec fn deep_view(&self) -> ShipView {
        ShipView {
            id: self.id@,
            ship_type: self.ship_type@,
            location: self.location@,
            fleet_id: match self.fleet_id {
                Some(f) => Some(f@),
                None => None,
            },
        }
    }
}

impl Identified for Ship {
    open spec fn ident(&self) -> Seq<char> {
        self.id@
    }

    fn id_ref(&self) -> (k: &String) {
        &self.id
    }
}

/// The identifiers of a list of ships, in order.
pub open spec fn ship_ids(ships: Seq<ShipView>) -> Seq<Seq<char>> {
    Seq::new(ships.len(), |i: int| ships[i].id)
}

impl Ship {
    /// A ship outside any fleet.
    pub fn new(id: ShipInstanceId, ship_type: String, location: String) -> (r: Self)
        ensures
            r.deep_view() == (ShipView {
                id: id@,
                ship_type: ship_type@,
                location: location@,
                fleet_id: None,
            }),
    {
        Ship { id, ship_type, location, fleet_id: None }
    }

    pub fn is_in_fleet(&self) -> (r: bool)
        ensures
            r == self.deep_view().fleet_id.is_some(),
    {
        self.fleet_id.is_some()
    }
}

impl Clone for Ship {
    fn clone(&self) -> (r: Self)
        ensures
            r.deep_view() == self.deep_view(),
    {
        Ship {
            id: self.id.clone(),
            ship_type: self.ship_type.clone(),
            location: self.location.clone(),
            fleet_id: match &self.fleet_id {
                Some(f) => Some(f.clone()),
                None => None,
            },
        }
    }
}

} // verus!
