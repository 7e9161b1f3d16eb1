//! Buildings and their life: built, upgraded level by level, damaged, repaired.
use vstd::prelude::*;
use std::sync::Arc;
use crate::building_config::{BuildingDefinition, BuildingDefinitionView, at_level};
use crate::resources::Resources;

verus! {

/// One building. At level 0 it is not built. While `turns_until_complete`
/// is above zero its current level is under construction.
#[derive(Debug)]
pub struct Building {
    definition: Arc<BuildingDefinition>,
    current_level: u8,
    current_hp: u32,
    turns_until_complete: u8,
}

/// What a building is, apart from how it is stored.
pub struct BuildingView {
    pub definition: BuildingDefinitionView,
    pub current_level: u8,
    pub current_hp: u32,
    pub turns_until_complete: u8,
}

impl BuildingView {
    /// The level never exceeds the kind's highest, and only a level of at
    /// least 1 can be under construction.
    pub open spec fn wf(self) -> bool {
        self.current_level <= self.definition.max_level && (self.turns_until_complete > 0
            ==> self.current_level >= 1)
    }

    /// Whether the building stands finished.
    pub open spec fn complete(self) -> bool {
        self.turns_until_complete == 0 && self.current_level > 0
    }

    /// Whether the building stands finished without hit points.
    pub open spec fn destroyed(self) -> bool {
        self.current_level > 0 && self.current_hp == 0 && self.turns_until_complete == 0
    }

    /// Whether the building works: it stands finished and has hit points left.
    pub open spec fn operational(self) -> bool {
        self.complete() && !self.destroyed()
    }

    /// The hit points that the current level gives.
    pub open spec fn full_hp(self) -> Option<u32> {
        at_level(self.definition.hitpoints, self.definition.max_level, self.current_level)
    }

    /// What starting level `level` costs and how long it takes, where the kind lists both.
    pub open spec fn plan(self, level: int) -> Option<(Resources, u8)> {
        if 0 <= level <= 255 {
            match (
                at_level(self.definition.costs, self.definition.max_level, level as u8),
                at_level(self.definition.build_time, self.definition.max_level, level as u8),
            ) {
                (Some(cost), Some(time)) => Some((cost, time)),
                _ => None,
            }
        } else {
            None
        }
    }

    /// The building with level `level` under construction for `time` turns.
    pub open spec fn raising(self, level: u8, time: u8) -> BuildingView {
        BuildingView {
            current_level: level,
            current_hp: 0,
            turns_until_complete: time,
            ..self
        }
    }

    /// The price of the first level, where the building can be started.
    pub open spec fn build_start(self) -> Option<(Resources, u8)> {
        if self.current_level > 0 {
            None
        } else {
            self.plan(1)
        }
    }

    /// The price of the next level, where an upgrade can be started.
    pub open spec fn upgrade_start(self) -> Option<(Resources, u8)> {
        if self.current_level == 0 || self.current_level >= self.definition.max_level
            || !self.complete() {
            None
        } else {
            self.plan(self.current_level + 1)
        }
    }

    /// The building after one turn, and whether its construction completed.
    pub open spec fn ticked(self) -> (BuildingView, bool) {
        if self.turns_until_complete == 0 {
            (self, false)
        } else {
            let waited = BuildingView {
                turns_until_complete: (self.turns_until_complete - 1) as u8,
                ..self
            };
            if waited.turns_until_complete == 0 {
                match self.full_hp() {
                    Some(hp) => (BuildingView { current_hp: hp, ..waited }, true),
                    None => (waited, false),
                }
            } else {
                (waited, false)
            }
        }
    }

    /// The building after the construction under way was called off: it is
    /// back at the level below, with that level's hit points.
    pub open spec fn cancelled(self) -> BuildingView {
        if self.turns_until_complete == 0 {
            self
        } else if self.current_level == 1 {
            BuildingView { current_level: 0, current_hp: 0, turns_until_complete: 0, ..self }
        } else {
            let below = BuildingView {
                current_level: (self.current_level - 1) as u8,
                turns_until_complete: 0,
                ..self
            };
            match below.full_hp() {
                Some(hp) => BuildingView { current_hp: hp, ..below },
                None => below,
            }
        }
    }

    /// The building after `damage` hit it.
    pub open spec fn damaged(self, damage: u32) -> BuildingView {
        BuildingView {
            current_hp: if self.current_hp > damage {
                (self.current_hp - damage) as u32
            } else {
                0
            },
            ..self
        }
    }

    /// The building with the hit points of its level restored.
    pub open spec fn repaired(self) -> BuildingView {
        match self.full_hp() {
            Some(hp) => BuildingView { current_hp: hp, ..self },
            None => self,
        }
    }
}

/// One step in a building's life.
pub enum BuildingStep {
    StartBuild,
    StartUpgrade,
    Tick,
    Cancel,
    TakeDamage(u32),
    Repair,
}

/// The building after `step`.
pub open spec fn stepped(b: BuildingView, step: BuildingStep) -> BuildingView {
    match step {
        BuildingStep::StartBuild => match b.build_start() {
            Some((_, time)) => b.raising(1, time),
            None => b,
        },
        BuildingStep::StartUpgrade => match b.upgrade_start() {
            Some((_, time)) => b.raising((b.current_level + 1) as u8, time),
            None => b,
        },
        BuildingStep::Tick => b.ticked().0,
        BuildingStep::Cancel => b.cancelled(),
        BuildingStep::TakeDamage(d) => b.damaged(d),
        BuildingStep::Repair => b.repaired(),
    }
}

/// No step takes a building above its kind's highest level, and no step
/// but the cancelling of a construction under way lowers its level.
pub proof fn lemma_level_is_monotone(b: BuildingView, step: BuildingStep)
    requires
        b.wf(),
    ensures
        stepped(b, step).wf(),
        stepped(b, step).current_level <= b.definition.max_level,
        !(step is Cancel && b.turns_until_complete > 0) ==> stepped(b, step).current_level
            >= b.current_level,
        step is Cancel && b.turns_until_complete > 0 ==> stepped(b, step).current_level
            == b.current_level - 1,
{
}

impl Building {
    #[verifier::type_invariant]
    closed spec fn inv(self) -> bool {
        self.model().wf()
    }

    /// What the building is.
    pub closed spec fn model(self) -> BuildingView {
        BuildingView {
            definition: self.definition.deep_view(),
            current_level: self.current_level,
            current_hp: self.current_hp,
            turns_until_complete: self.turns_until_complete,
        }
    }

    /// A building of kind `definition` that is not built yet.
    pub fn new_unbuilt(definition: Arc<BuildingDefinition>) -> (r: Self)
        ensures
            r.model() == (BuildingView {
                definition: definition.deep_view(),
                current_level: 0,
                current_hp: 0,
                turns_until_complete: 0,
            }),
    {
        Self { definition, current_level: 0, current_hp: 0, turns_until_complete: 0 }
    }

    /// A finished building at `level` with that level's hit points, where
    /// the kind has the level and lists its hit points.
    pub fn new_at_level(definition: Arc<BuildingDefinition>, level: u8) -> (r: Option<Self>)
        ensures
            match at_level(definition.hitpoints@, definition.max_level, level) {
                Some(hp) => r.is_some() && r.unwrap().model() == (BuildingView {
                    definition: definition.deep_view(),
                    current_level: level,
                    current_hp: hp,
                    turns_until_complete: 0,
                }),
                None => r.is_none(),
            },
    {
        if level == 0 || level > definition.max_level {
            return None;
        }
        let max_hp = match definition.hitpoints_for_level(level) {
            Some(hp) => hp,
            None => {
                return None;
            },
        };
        Some(Self { definition, current_level: level, current_hp: max_hp, turns_until_complete: 0 })
    }

    /// Starts the construction of level 1 and returns its price; `None`,
    /// with nothing changed, where the building is built or its kind lists
    /// no price or time for level 1.
    pub fn start_build(&mut self) -> (r: Option<Resources>)
        ensures
            match old(self).model().build_start() {
                Some((cost, time)) => r == Some(cost) && final(self).model() == old(
                    self,
                ).model().raising(1, time),
                None => r.is_none() && final(self).model() == old(self).model(),
            },
    {
        if self.current_level > 0 {
            return None;
        }
        let cost = match self.definition.cost_for_level(1) {
            Some(c) => *c,
            None => {
                return None;
            },
        };
        let build_time = match self.definition.build_time_for_level(1) {
            Some(t) => t,
            None => {
                return None;
            },
        };
        self.current_level = 1;
        self.current_hp = 0;
        self.turns_until_complete = build_time;
        Some(cost)
    }

    /// Starts the construction of the next level and returns its price;
    /// `None`, with nothing changed, where the building is not built, is at
    /// its highest level, is under construction, or its kind lists no price
    /// or time for the next level.
    pub fn start_upgrade(&mut self) -> (r: Option<Resources>)
        ensures
            match old(self).model().upgrade_start() {
                Some((cost, time)) => r == Some(cost) && final(self).model() == old(
                    self,
                ).model().raising((old(self).model().current_level + 1) as u8, time),
                None => r.is_none() && final(self).model() == old(self).model(),
            },
    {
        if self.current_level == 0 {
            return None;
        }
        if self.current_level >= self.definition.max_level {
            return None;
        }
        if !self.is_complete() {
            return None;
        }
        let next_level = self.current_level + 1;
        let cost = match self.definition.cost_for_level(next_level) {
            Some(c) => *c,
            None => {
                return None;
            },
        };
        let build_time = match self.definition.build_time_for_level(next_level) {
            Some(t) => t,
            None => {
                return None;
            },
        };
        self.current_level = next_level;
        self.current_hp = 0;
        self.turns_until_complete = build_time;
        Some(cost)
    }

    /// Lets one turn pass and says whether the construction completed with it.
    pub fn tick(&mut self) -> (r: bool)
        ensures
            (final(self).model(), r) == old(self).model().ticked(),
    {
        proof {
            use_type_invariant(&*self);
        }
        if self.turns_until_complete > 0 {
            self.turns_until_complete -= 1;
            if self.turns_until_complete == 0 {
                if let Some(max_hp) = self.definition.hitpoints_for_level(self.current_level) {
                    self.current_hp = max_hp;
                    return true;
                }
            }
        }
        false
    }

    /// Calls off the construction under way and says whether there was one.
    pub fn cancel_build(&mut self) -> (r: bool)
        ensures
            r == (old(self).model().turns_until_complete > 0),
            final(self).model() == old(self).model().cancelled(),
    {
        proof {
            use_type_invariant(&*self);
        }
        if self.turns_until_complete == 0 {
            return false;
        }
        self.turns_until_complete = 0;
        if self.current_level == 1 {
            self.current_level = 0;
            self.current_hp = 0;
        } else {
            self.current_level -= 1;
            if let Some(max_hp) = self.definition.hitpoints_for_level(self.current_level) {
                self.current_hp = max_hp;
            }
        }
        true
    }

    /// Takes `damage` off the hit points and says whether none are left.
    pub fn take_damage(&mut self, damage: u32) -> (r: bool)
        ensures
            final(self).model() == old(self).model().damaged(damage),
            r == (final(self).model().current_hp == 0),
    {
        proof {
            use_type_invariant(&*self);
        }
        if self.current_hp > damage {
            self.current_hp -= damage;
            false
        } else {
            self.current_hp = 0;
            true
        }
    }

    /// Restores the hit points of the current level.
    pub fn repair(&mut self)
        ensures
            final(self).model() == old(self).model().repaired(),
    {
        proof {
            use_type_invariant(&*self);
        }
        if let Some(max_hp) = self.definition.hitpoints_for_level(self.current_level) {
            self.current_hp = max_hp;
        }
    }

    pub fn is_complete(&self) -> (r: bool)
        ensures
            r == self.model().complete(),
    {
        self.turns_until_complete == 0 && self.current_level > 0
    }

    pub fn is_building(&self) -> (r: bool)
        ensures
            r == (self.model().turns_until_complete > 0),
    {
        self.turns_until_complete > 0
    }

    pub fn is_built(&self) -> (r: bool)
        ensures
            r == (self.model().current_level > 0),
    {
        self.current_level > 0
    }

    /// Whether the building stands finished without hit points.
    pub fn is_destroyed(&self) -> (r: bool)
        ensures
            r == self.model().destroyed(),
    {
        self.current_level > 0 && self.current_hp == 0 && !self.is_building()
    }

    pub fn level(&self) -> (r: u8)
        ensures
            r == self.model().current_level,
            r <= self.model().definition.max_level,
            self.model().wf(),
    {
        proof {
            use_type_invariant(self);
        }
        self.current_level
    }

    pub fn current_hp(&self) -> (r: u32)
        ensures
            r == self.model().current_hp,
    {
        self.current_hp
    }

    pub fn max_hp(&self) -> (r: Option<u32>)
        ensures
            r == self.model().full_hp(),
    {
        self.definition.hitpoints_for_level(self.current_level)
    }

    /// The turns left until the construction under way completes. Every
    /// building is well formed, which this is the place to learn.
    pub fn turns_until_complete(&self) -> (r: u8)
        ensures
            r == self.model().turns_until_complete,
            self.model().wf(),
    {
        proof {
            use_type_invariant(self);
        }
        self.turns_until_complete
    }

    pub fn id(&self) -> (r: &str)
        ensures
            r@ == self.model().definition.id,
    {
        self.definition.id.as_str()
    }

    pub fn name(&self) -> (r: &str)
        ensures
            r@ == self.model().definition.name,
    {
        self.definition.name.as_str()
    }

    pub fn description(&self) -> (r: &str)
        ensures
            r@ == self.model().definition.description,
    {
        self.definition.description.as_str()
    }

    pub fn max_level(&self) -> (r: u8)
        ensures
            r == self.model().definition.max_level,
    {
        self.definition.max_level
    }

    /// What the building produces per turn; nothing unless it works.
    pub fn production(&self) -> (r: Option<Resources>)
        ensures
            r == if self.model().operational() {
                at_level(
                    self.model().definition.production,
                    self.model().definition.max_level,
                    self.model().current_level,
                )
            } else {
                None
            },
    {
        if !self.is_complete() || self.is_destroyed() {
            return None;
        }
        match self.definition.production_for_level(self.current_level) {
            Some(p) => Some(*p),
            None => None,
        }
    }

    /// What the building stores; nothing unless it works.
    pub fn storage_capacity(&self) -> (r: Option<Resources>)
        ensures
            r == if self.model().operational() {
                at_level(
                    self.model().definition.storage_capacity,
                    self.model().definition.max_level,
                    self.model().current_level,
                )
            } else {
                None
            },
    {
        if !self.is_complete() || self.is_destroyed() {
            return None;
        }
        match self.definition.storage_capacity_for_level(self.current_level) {
            Some(p) => Some(*p),
            None => None,
        }
    }

    /// The energy that the building draws per turn; nothing unless it works.
    pub fn energy_consumption(&self) -> (r: Option<u32>)
        ensures
            r == if self.model().operational() {
                at_level(
                    self.model().definition.energy_consumption,
                    self.model().definition.max_level,
                    self.model().current_level,
                )
            } else {
                None
            },
    {
        if !self.is_complete() || self.is_destroyed() {
            return None;
        }
        self.definition.energy_consumption_for_level(self.current_level)
    }

    /// The price of the next level; nothing at the highest level.
    pub fn upgrade_cost(&self) -> (r: Option<Resources>)
        ensures
            r == if self.model().current_level >= self.model().definition.max_level {
                None
            } else {
                at_level(
                    self.model().definition.costs,
                    self.model().definition.max_level,
                    (self.model().current_level + 1) as u8,
                )
            },
    {
        if self.current_level >= self.definition.max_level {
            return None;
        }
        match self.definition.cost_for_level(self.current_level + 1) {
            Some(p) => Some(*p),
            None => None,
        }
    }

    pub fn definition(&self) -> (r: &Arc<BuildingDefinition>)
        ensures
            r.deep_view() == self.model().definition,
    {
        &self.definition
    }
}

} // verus!
