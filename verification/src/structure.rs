//! Structures on a planet and their progress through levels.
use vstd::prelude::*;
use std::sync::Arc;
use crate::ids::Identified;
use crate::resources::Resources;
use crate::structure_config::{StructureDefinition, StructureDefinitionView};

verus! {

/// A level that a structure kind does not have.
#[derive(Debug)]
pub enum StructureError {
    InvalidLevel { structure_name: String, level: u16, max_level: u16 },
}

/// What a [`StructureError`] holds, with every text as its sequence of characters.
pub enum StructureErrorView {
    InvalidLevel { structure_name: Seq<char>, level: u16, max_level: u16 },
}

impl DeepView for StructureError {
    type V = StructureErrorView;

    open spec fn deep_view(&self) -> StructureErrorView {
        match self {
            StructureError::InvalidLevel { structure_name, level, max_level } => {
                StructureErrorView::InvalidLevel {
                    structure_name: structure_name@,
                    level: *level,
                    max_level: *max_level,
                }
            },
        }
    }
}

/// Where a structure stands in its life.
#[derive(Clone, Copy, Debug, PartialEq, Eq, Structural)]
pub enum StructureState {
    Operational,
    Upgrading { turns_remaining: u32, target_level: u16 },
    Damaged,
}

/// One structure on a planet. Level 0 means that it is not yet built.
#[derive(Debug)]
pub struct Structure {
    pub name: String,
    pub hitpoints: u32,
    pub level: u16,
    pub max_level: u16,
    pub production: Resources,
    pub storage: Resources,
    pub state: StructureState,
    pub structure_definition: Arc<StructureDefinition>,
}

/// What a [`Structure`] holds, with every text as its sequence of characters.
pub struct StructureView {
    pub name: Seq<char>,
    pub hitpoints: u32,
    pub level: u16,
    pub max_level: u16,
    pub production: Resources,
    pub storage: Resources,
    pub state: StructureState,
    pub definition: StructureDefinitionView,
}

impl DeepView for Structure {
    type V = StructureView;

    open spec fn deep_view(&self) -> StructureView {
        StructureView {
            name: self.name@,
            hitpoints: self.hitpoints,
            level: self.level,
            max_level: self.max_level,
            production: self.production,
            storage: self.storage,
            state: self.state,
            definition: self.structure_definition.deep_view(),
        }
    }
}

impl Identified for Structure {
    open spec fn ident(&self) -> Seq<char> {
        self.structure_definition.id@
    }

    fn id_ref(&self) -> (k: &String) {
        &self.structure_definition.id
    }
}

/// The identifiers of the kinds of a list of structures, in order.
pub open spec fn structure_ids(structures: Seq<StructureView>) -> Seq<Seq<char>> {
    Seq::new(structures.len(), |i: int| structures[i].definition.id)
}

/// A structure of kind `def` whose first level is under construction.
pub open spec fn under_construction(def: StructureDefinitionView) -> StructureView {
    StructureView {
        name: def.name,
        hitpoints: 0,
        level: 0,
        max_level: def.max_level,
        production: Resources::nothing(),
        storage: Resources::nothing(),
        state: StructureState::Upgrading { turns_remaining: def.upgrade_time[0], target_level: 1 },
        definition: def,
    }
}

/// An operational structure of kind `def` at `level`.
pub open spec fn operational_at(def: StructureDefinitionView, level: u16) -> StructureView {
    StructureView {
        name: def.name,
        hitpoints: def.hitpoints[level - 1],
        level,
        max_level: def.max_level,
        production: def.production[level - 1],
        storage: def.storage_capacity[level - 1],
        state: StructureState::Operational,
        definition: def,
    }
}

/// Whether the per-level values that a structure shows at `level` exist.
pub open spec fn has_level_values(def: StructureDefinitionView, level: int) -> bool {
    1 <= level <= def.hitpoints.len() && level <= def.production.len() && level
        <= def.storage_capacity.len()
}

impl StructureView {
    /// The structure once it stands at `level`, operational, with that level's values.
    pub open spec fn raised_to(self, level: u16) -> StructureView {
        StructureView {
            hitpoints: self.definition.hitpoints[level - 1],
            level,
            production: self.definition.production[level - 1],
            storage: self.definition.storage_capacity[level - 1],
            state: StructureState::Operational,
            ..self
        }
    }

    /// The structure after one turn: an upgrade loses one turn and, at zero, completes.
    pub open spec fn after_turn(self) -> StructureView {
        match self.state {
            StructureState::Upgrading { turns_remaining, target_level } => {
                if turns_remaining == 1 {
                    self.raised_to(target_level)
                } else {
                    StructureView {
                        state: StructureState::Upgrading {
                            turns_remaining: (turns_remaining - 1) as u32,
                            target_level,
                        },
                        ..self
                    }
                }
            },
            _ => self,
        }
    }

    /// Whether a turn can pass: a running upgrade has turns left, and one
    /// about to complete aims at a level whose values exist.
    pub open spec fn can_pass_turn(self) -> bool {
        match self.state {
            StructureState::Upgrading { turns_remaining, target_level } => turns_remaining >= 1
                && (turns_remaining == 1 ==> has_level_values(self.definition, target_level as int)),
            _ => true,
        }
    }

    /// The energy drawn per turn: nothing unless the structure is operational.
    pub open spec fn energy_draw(self) -> u32 {
        if self.state is Operational {
            self.definition.energy_consumption[self.level - 1]
        } else {
            0
        }
    }

    /// The error that names this structure's current level as invalid.
    pub open spec fn invalid_level(self) -> StructureErrorView {
        StructureErrorView::InvalidLevel {
            structure_name: self.definition.name,
            level: self.level,
            max_level: self.definition.max_level,
        }
    }
}

impl Structure {
    /// A structure whose first level is under construction.
    pub fn new(definition: Arc<StructureDefinition>) -> (r: Self)
        requires
            definition.upgrade_time.len() > 0,
        ensures
            r.deep_view() == under_construction(definition.deep_view()),
    {
        let build_time = definition.upgrade_time[0];
        Structure {
            name: definition.name.clone(),
            hitpoints: 0,
            level: 0,
            max_level: definition.max_level,
            production: Resources::default(),
            storage: Resources::default(),
            state: StructureState::Upgrading { turns_remaining: build_time, target_level: 1 },
            structure_definition: definition,
        }
    }

    /// An operational structure at `level`, or an error where the kind has no such level.
    pub fn new_at_level(definition: Arc<StructureDefinition>, level: u16) -> (r: Result<
        Self,
        StructureError,
    >)
        requires
            1 <= level <= definition.max_level ==> has_level_values(
                definition.deep_view(),
                level as int,
            ),
        ensures
            1 <= level <= definition.max_level ==> r.is_ok() && r.unwrap().deep_view()
                == operational_at(definition.deep_view(), level),
            !(1 <= level <= definition.max_level) ==> r.is_err() && r.unwrap_err().deep_view() == (
            StructureErrorView::InvalidLevel {
                structure_name: definition.name@,
                level,
                max_level: definition.max_level,
            }),
    {
        if level == 0 || level > definition.max_level {
            return Err(
                StructureError::InvalidLevel {
                    structure_name: definition.name.clone(),
                    level,
                    max_level: definition.max_level,
                },
            );
        }
        let level_idx = (level - 1) as usize;
        Ok(
            Structure {
                name: definition.name.clone(),
                hitpoints: definition.hitpoints[level_idx],
                level,
                max_level: definition.max_level,
                production: definition.production[level_idx],
                storage: definition.storage_capacity[level_idx],
                state: StructureState::Operational,
                structure_definition: definition,
            },
        )
    }

    /// The identifier of the structure's kind.
    pub fn id(&self) -> (r: &String)
        ensures
            r@ == self.deep_view().definition.id,
    {
        &self.structure_definition.id
    }

    /// The price of the next level, or an error where the kind lists none.
    pub fn cost_to_upgrade(&self) -> (r: Result<&Resources, StructureError>)
        ensures
            ({
                let s = self.deep_view();
                if s.level < s.definition.costs.len() {
                    r.is_ok() && *r.unwrap() == s.definition.costs[s.level as int]
                } else {
                    r.is_err() && r.unwrap_err().deep_view() == s.invalid_level()
                }
            }),
    {
        let idx = self.level as usize;
        if idx < self.structure_definition.costs.len() {
            Ok(&self.structure_definition.costs[idx])
        } else {
            Err(
                StructureError::InvalidLevel {
                    structure_name: self.structure_definition.name.clone(),
                    level: self.level,
                    max_level: self.structure_definition.max_level,
                },
            )
        }
    }

    /// The error that names the structure's current level as invalid.
    pub fn level_error(&self) -> (e: StructureError)
        ensures
            e.deep_view() == self.deep_view().invalid_level(),
    {
        StructureError::InvalidLevel {
            structure_name: self.structure_definition.name.clone(),
            level: self.level,
            max_level: self.structure_definition.max_level,
        }
    }

    pub fn is_max_level(&self) -> (r: bool)
        ensures
            r == (self.deep_view().level >= self.deep_view().max_level),
    {
        self.level >= self.max_level
    }

    /// The turns that raising the structure from its current level takes.
    pub fn get_upgrade_time(&self) -> (r: u32)
        requires
            self.deep_view().level < self.deep_view().definition.upgrade_time.len(),
        ensures
            r == self.deep_view().definition.upgrade_time[self.deep_view().level as int],
    {
        self.structure_definition.upgrade_time[self.level as usize]
    }

    /// Starts raising the structure by one level.
    pub fn upgrade(&mut self)
        requires
            old(self).deep_view().level < old(self).deep_view().definition.upgrade_time.len(),
            old(self).level < u16::MAX,
        ensures
            final(self).deep_view() == (StructureView {
                state: StructureState::Upgrading {
                    turns_remaining: old(self).deep_view().definition.upgrade_time[old(
                        self,
                    ).level as int],
                    target_level: (old(self).level + 1) as u16,
                },
                ..old(self).deep_view()
            }),
    {
        let upgrade_time = self.structure_definition.upgrade_time[self.level as usize];
        self.state =
        StructureState::Upgrading { turns_remaining: upgrade_time, target_level: self.level + 1 };
    }

    /// Raises the structure by one level at once and makes it operational.
    pub fn complete_upgrade(&mut self)
        requires
            old(self).level < u16::MAX,
            has_level_values(old(self).deep_view().definition, old(self).level + 1),
        ensures
            final(self).deep_view() == old(self).deep_view().raised_to(
                (old(self).level + 1) as u16,
            ),
    {
        self.level += 1;
        let level_idx = (self.level - 1) as usize;
        self.hitpoints = self.structure_definition.hitpoints[level_idx];
        self.production = self.structure_definition.production[level_idx];
        self.storage = self.structure_definition.storage_capacity[level_idx];
        self.state = StructureState::Operational;
    }

    /// Lets one turn pass over the structure.
    pub fn process_turn(&mut self)
        requires
            old(self).deep_view().can_pass_turn(),
        ensures
            final(self).deep_view() == old(self).deep_view().after_turn(),
    {
        if let StructureState::Upgrading { turns_remaining, target_level } = self.state {
            let left = turns_remaining - 1;
            if left == 0 {
                self.level = target_level;
                let level_idx = (self.level - 1) as usize;
                self.hitpoints = self.structure_definition.hitpoints[level_idx];
                self.production = self.structure_definition.production[level_idx];
                self.storage = self.structure_definition.storage_capacity[level_idx];
                self.state = StructureState::Operational;
            } else {
                self.state = StructureState::Upgrading { turns_remaining: left, target_level };
            }
        }
    }

    /// The energy that the structure draws per turn: nothing unless it is operational.
    pub fn energy_consumption(&self) -> (r: u32)
        requires
            self.state is Operational ==> 1 <= self.level
                <= self.deep_view().definition.energy_consumption.len(),
        ensures
            r == self.deep_view().energy_draw(),
    {
        match self.state {
            StructureState::Operational => self.structure_definition.energy_consumption[(self.level
                - 1) as usize],
            _ => 0,
        }
    }

    /// The turns without attack after which the shield that this structure supplies is restored.
    pub fn get_shield_regen_turns(&self) -> (r: Option<u32>)
        ensures
            r == self.deep_view().definition.shield_regen_turns,
    {
        self.structure_definition.shield_regen_turns
    }
}

} // verus!
