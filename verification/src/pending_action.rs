//! Timed player actions waiting for their turn to complete.
use vstd::prelude::*;
use crate::resources::{Resources, sat_sub};

verus! {

/// The cooldown of an action that never completes by waiting.
pub const UNBOUNDED_COOLDOWN: u32 = 0xffff_ffff;

/// What a pending action will do once it completes.
#[derive(Debug)]
pub enum ActionType {
    BuildStructure(String),
    UpgradeStructure(String),
    BuildShip(String),
    /// A fleet on its way to a destination planet.
    MoveFleet(String, String),
    /// A fleet bombarding a target planet.
    BombardPlanet(String, String),
}

/// What a [`ActionType`] holds, with every text as its sequence of characters.
pub enum ActionTypeView {
    BuildStructure(Seq<char>),
    UpgradeStructure(Seq<char>),
    BuildShip(Seq<char>),
    MoveFleet(Seq<char>, Seq<char>),
    BombardPlanet(Seq<char>, Seq<char>),
}

impl DeepView for ActionType {
    type V = ActionTypeView;

    open spec fn deep_view(&self) -> ActionTypeView {
        match self {
            ActionType::BuildStructure(s) => ActionTypeView::BuildStructure(s@),
            ActionType::UpgradeStructure(s) => ActionTypeView::UpgradeStructure(s@),
            ActionType::BuildShip(s) => ActionTypeView::BuildShip(s@),
            ActionType::MoveFleet(f, p) => ActionTypeView::MoveFleet(f@, p@),
            ActionType::BombardPlanet(f, p) => ActionTypeView::BombardPlanet(f@, p@),
        }
    }
}

impl Clone for ActionType {
    fn clone(&self) -> (r: Self)
        ensures
            r.deep_view() == self.deep_view(),
    {
        match self {
            ActionType::BuildStructure(s) => ActionType::BuildStructure(s.clone()),
            ActionType::UpgradeStructure(s) => ActionType::UpgradeStructure(s.clone()),
            ActionType::BuildShip(s) => ActionType::BuildShip(s.clone()),
            ActionType::MoveFleet(f, p) => ActionType::MoveFleet(f.clone(), p.clone()),
            ActionType::BombardPlanet(f, p) => ActionType::BombardPlanet(f.clone(), p.clone()),
        }
    }
}

/// An action in flight: what it does, the planet it is anchored to, the turns
/// left and the resources set aside for it.
#[derive(Debug)]
pub struct PendingAction {
    pub action_type: ActionType,
    /// The building site, the planet a fleet departs from, or the target of a bombardment.
    pub planet_id: String,
    pub cooldown_remaining: u32,
    /// What was paid when the action was accepted; handed back on cancellation.
    pub reserved_resources: Resources,
}

/// What a [`PendingAction`] holds, with every text as its sequence of characters.
pub struct PendingActionView {
    pub action_type: ActionTypeView,
    pub planet_id: Seq<char>,
    pub cooldown_remaining: u32,
    pub reserved_resources: Resources,
}

impl DeepView for PendingAction {
    type V = PendingActionView;

    open spec fn deep_view(&self) -> PendingActionView {
        PendingActionView {
            action_type: self.action_type.deep_view(),
            planet_id: self.planet_id@,
            cooldown_remaining: self.cooldown_remaining,
            reserved_resources: self.reserved_resources,
        }
    }
}

/// The planets that a list of actions is anchored to, in order.
pub open spec fn action_planets(actions: Seq<PendingActionView>) -> Seq<Seq<char>> {
    Seq::new(actions.len(), |i: int| actions[i].planet_id)
}

/// An action after one turn of waiting.
pub open spec fn ticked(a: PendingActionView) -> PendingActionView {
    PendingActionView { cooldown_remaining: sat_sub(a.cooldown_remaining, 1), ..a }
}

impl PendingActionView {
    /// Whether the action is a bombardment.
    pub open spec fn is_bombardment(self) -> bool {
        self.action_type is BombardPlanet
    }
}

impl PendingAction {
    pub fn new(action_type: ActionType, planet_id: String, cooldown: u32, cost: Resources) -> (r:
        Self)
        ensures
            r.deep_view() == (PendingActionView {
                action_type: action_type.deep_view(),
                planet_id: planet_id@,
                cooldown_remaining: cooldown,
                reserved_resources: cost,
            }),
    {
        PendingAction {
            action_type,
            planet_id,
            cooldown_remaining: cooldown,
            reserved_resources: cost,
        }
    }

    /// Takes one turn off the cooldown; at zero it stays at zero.
    pub fn tick(&mut self)
        ensures
            final(self).deep_view() == ticked(old(self).deep_view()),
    {
        self.cooldown_remaining = self.cooldown_remaining.saturating_sub(1);
    }

    pub fn is_complete(&self) -> (r: bool)
        ensures
            r == (self.deep_view().cooldown_remaining == 0),
    {
        self.cooldown_remaining == 0
    }

    pub fn is_bombardment(&self) -> (r: bool)
        ensures
            r == self.deep_view().is_bombardment(),
    {
        match self.action_type {
            ActionType::BombardPlanet(_, _) => true,
            _ => false,
        }
    }
}

impl Clone for PendingAction {
    fn clone(&self) -> (r: Self)
        ensures
            r.deep_view() == self.deep_view(),
    {
        PendingAction {
            action_type: self.action_type.clone(),
            planet_id: self.planet_id.clone(),
            cooldown_remaining: self.cooldown_remaining,
            reserved_resources: self.reserved_resources,
        }
    }
}

} // verus!
