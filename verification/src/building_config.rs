//! Building kinds with their per-level values.
use vstd::prelude::*;
use vstd::string::*;
use std::sync::Arc;
use crate::ids::{Identified, distinct, find_by_id, idents, index_in, share};
use crate::resources::Resources;
use crate::text::{decimal, owned, push_decimal};

verus! {

/// A building that must stand, at some level, before another can be raised.
#[derive(Debug)]
pub struct Prerequisite {
    pub building_id: String,
    /// The level required of `building_id`, per level of the dependent building.
    pub required_levels: Vec<u8>,
}

/// What a [`Prerequisite`] holds, with every text as its sequence of characters.
pub struct PrerequisiteView {
    pub building_id: Seq<char>,
    pub required_levels: Seq<u8>,
}

impl DeepView for Prerequisite {
    type V = PrerequisiteView;

    open spec fn deep_view(&self) -> PrerequisiteView {
        PrerequisiteView { building_id: self.building_id@, required_levels: self.required_levels@ }
    }
}

/// One building kind. The per-level lists are indexed by level minus one.
#[derive(Debug)]
pub struct BuildingDefinition {
    pub id: String,
    pub name: String,
    pub description: String,
    pub max_level: u8,
    pub costs: Vec<Resources>,
    pub build_time: Vec<u8>,
    pub energy_consumption: Vec<u32>,
    pub hitpoints: Vec<u32>,
    pub production: Vec<Resources>,
    pub storage_capacity: Vec<Resources>,
    pub prerequisites: Vec<Prerequisite>,
}

/// What a [`BuildingDefinition`] holds, with every text as its sequence of characters.
pub struct BuildingDefinitionView {
    pub id: Seq<char>,
    pub name: Seq<char>,
    pub description: Seq<char>,
    pub max_level: u8,
    pub costs: Seq<Resources>,
    pub build_time: Seq<u8>,
    pub energy_consumption: Seq<u32>,
    pub hitpoints: Seq<u32>,
    pub production: Seq<Resources>,
    pub storage_capacity: Seq<Resources>,
    pub prerequisites: Seq<PrerequisiteView>,
}

impl DeepView for BuildingDefinition {
    type V = BuildingDefinitionView;

    open spec fn deep_view(&self) -> BuildingDefinitionView {
        BuildingDefinitionView {
            id: self.id@,
            name: self.name@,
            description: self.description@,
            max_level: self.max_level,
            costs: self.costs@,
            build_time: self.build_time@,
            energy_consumption: self.energy_consumption@,
            hitpoints: self.hitpoints@,
            production: self.production@,
            storage_capacity: self.storage_capacity@,
            prerequisites: self.prerequisites.deep_view(),
        }
    }
}

/// The entry of a per-level list for `level`: none for level 0, for a level
/// above `max_level`, or where the list is too short.
pub open spec fn at_level<T>(list: Seq<T>, max_level: u8, level: u8) -> Option<T> {
    if level == 0 || level > max_level || level > list.len() {
        None
    } else {
        Some(list[level - 1])
    }
}

impl BuildingDefinition {
    pub fn cost_for_level(&self, level: u8) -> (r: Option<&Resources>)
        ensures
            match at_level(self.costs@, self.max_level, level) {
                Some(c) => r.is_some() && *r.unwrap() == c,
                None => r.is_none(),
            },
    {
        if level == 0 || level > self.max_level || (level as usize) > self.costs.len() {
            return None;
        }
        Some(&self.costs[(level - 1) as usize])
    }

    pub fn build_time_for_level(&self, level: u8) -> (r: Option<u8>)
        ensures
            r == at_level(self.build_time@, self.max_level, level),
    {
        if level == 0 || level > self.max_level || (level as usize) > self.build_time.len() {
            return None;
        }
        Some(self.build_time[(level - 1) as usize])
    }

    pub fn energy_consumption_for_level(&self, level: u8) -> (r: Option<u32>)
        ensures
            r == at_level(self.energy_consumption@, self.max_level, level),
    {
        if level == 0 || level > self.max_level || (level as usize)
            > self.energy_consumption.len() {
            return None;
        }
        Some(self.energy_consumption[(level - 1) as usize])
    }

    pub fn hitpoints_for_level(&self, level: u8) -> (r: Option<u32>)
        ensures
            r == at_level(self.hitpoints@, self.max_level, level),
    {
        if level == 0 || level > self.max_level || (level as usize) > self.hitpoints.len() {
            return None;
        }
        Some(self.hitpoints[(level - 1) as usize])
    }

    pub fn production_for_level(&self, level: u8) -> (r: Option<&Resources>)
        ensures
            match at_level(self.production@, self.max_level, level) {
                Some(c) => r.is_some() && *r.unwrap() == c,
                None => r.is_none(),
            },
    {
        if level == 0 || level > self.max_level || (level as usize) > self.production.len() {
            return None;
        }
        Some(&self.production[(level - 1) as usize])
    }

    pub fn storage_capacity_for_level(&self, level: u8) -> (r: Option<&Resources>)
        ensures
            match at_level(self.storage_capacity@, self.max_level, level) {
                Some(c) => r.is_some() && *r.unwrap() == c,
                None => r.is_none(),
            },
    {
        if level == 0 || level > self.max_level || (level as usize)
            > self.storage_capacity.len() {
            return None;
        }
        Some(&self.storage_capacity[(level - 1) as usize])
    }
}

/// What went wrong while a table of building kinds was put together.
#[derive(Debug)]
pub enum BuildingConfigError {
    InvalidArrayLength { building_id: String, field: String, expected: usize, actual: usize },
    DuplicateBuildingId { building_id: String },
    InvalidPrerequisite { building_id: String, prereq_id: String },
    InvalidPrerequisiteLevels { building_id: String, prereq_id: String },
    PrerequisiteLevelTooHigh { building_id: String, prereq_id: String, required_level: u8, max_level: u8 },
    CircularDependency { cycle: String },
}

/// What a [`BuildingConfigError`] holds, with every text as its sequence of characters.
pub enum BuildingConfigErrorView {
    InvalidArrayLength { building_id: Seq<char>, field: Seq<char>, expected: usize, actual: usize },
    DuplicateBuildingId { building_id: Seq<char> },
    InvalidPrerequisite { building_id: Seq<char>, prereq_id: Seq<char> },
    InvalidPrerequisiteLevels { building_id: Seq<char>, prereq_id: Seq<char> },
    PrerequisiteLevelTooHigh {
        building_id: Seq<char>,
        prereq_id: Seq<char>,
        required_level: u8,
        max_level: u8,
    },
    CircularDependency { cycle: Seq<char> },
}

impl DeepView for BuildingConfigError {
    type V = BuildingConfigErrorView;

    open spec fn deep_view(&self) -> BuildingConfigErrorView {
        match self {
            BuildingConfigError::InvalidArrayLength { building_id, field, expected, actual } => {
                BuildingConfigErrorView::InvalidArrayLength {
                    building_id: building_id@,
                    field: field@,
                    expected: *expected,
                    actual: *actual,
                }
            },
            BuildingConfigError::DuplicateBuildingId { building_id } => {
                BuildingConfigErrorView::DuplicateBuildingId { building_id: building_id@ }
            },
            BuildingConfigError::InvalidPrerequisite { building_id, prereq_id } => {
                BuildingConfigErrorView::InvalidPrerequisite {
                    building_id: building_id@,
                    prereq_id: prereq_id@,
                }
            },
            BuildingConfigError::InvalidPrerequisiteLevels { building_id, prereq_id } => {
                BuildingConfigErrorView::InvalidPrerequisiteLevels {
                    building_id: building_id@,
                    prereq_id: prereq_id@,
                }
            },
            BuildingConfigError::PrerequisiteLevelTooHigh {
                building_id,
                prereq_id,
                required_level,
                max_level,
            } => BuildingConfigErrorView::PrerequisiteLevelTooHigh {
                building_id: building_id@,
                prereq_id: prereq_id@,
                required_level: *required_level,
                max_level: *max_level,
            },
            BuildingConfigError::CircularDependency { cycle } => {
                BuildingConfigErrorView::CircularDependency { cycle: cycle@ }
            },
        }
    }
}

/// How a building-table error reads in reports.
pub open spec fn building_config_error_text(e: BuildingConfigErrorView) -> Seq<char> {
    match e {
        BuildingConfigErrorView::InvalidArrayLength { building_id, field, expected, actual } => {
            "Building '"@ + building_id + "' has invalid array length: "@ + field + " has "@
                + decimal(actual as nat) + " elements but max_level is "@ + decimal(
                expected as nat,
            )
        },
        BuildingConfigErrorView::DuplicateBuildingId { building_id } => "Building '"@ + building_id
            + "' has duplicate ID in config"@,
        BuildingConfigErrorView::InvalidPrerequisite { building_id, prereq_id } => "Building '"@
            + building_id + "' has prerequisite '"@ + prereq_id + "' that doesn't exist"@,
        BuildingConfigErrorView::InvalidPrerequisiteLevels { building_id, prereq_id } => {
            "Building '"@ + building_id + "' has prerequisite '"@ + prereq_id
                + "' with invalid level requirements (length mismatch)"@
        },
        BuildingConfigErrorView::PrerequisiteLevelTooHigh {
            building_id,
            prereq_id,
            required_level,
            max_level,
        } => "Building '"@ + building_id + "' has prerequisite '"@ + prereq_id
            + "' requiring level "@ + decimal(required_level as nat)
            + " but that building's max level is "@ + decimal(max_level as nat),
        BuildingConfigErrorView::CircularDependency { cycle } => {
            "Circular dependency detected in building prerequisites: "@ + cycle
        },
    }
}

impl BuildingConfigError {
    /// The error as one line of text.
    pub fn message(&self) -> (s: String)
        ensures
            s@ == building_config_error_text(self.deep_view()),
    {
        match self {
            BuildingConfigError::InvalidArrayLength { building_id, field, expected, actual } => {
                let mut s = owned("Building '");
                s.append(building_id.as_str());
                s.append("' has invalid array length: ");
                s.append(field.as_str());
                s.append(" has ");
                push_decimal(&mut s, *actual as u128);
                s.append(" elements but max_level is ");
                push_decimal(&mut s, *expected as u128);
                s
            },
            BuildingConfigError::DuplicateBuildingId { building_id } => {
                let mut s = owned("Building '");
                s.append(building_id.as_str());
                s.append("' has duplicate ID in config");
                s
            },
            BuildingConfigError::InvalidPrerequisite { building_id, prereq_id } => {
                let mut s = owned("Building '");
                s.append(building_id.as_str());
                s.append("' has prerequisite '");
                s.append(prereq_id.as_str());
                s.append("' that doesn't exist");
                s
            },
            BuildingConfigError::InvalidPrerequisiteLevels { building_id, prereq_id } => {
                let mut s = owned("Building '");
                s.append(building_id.as_str());
                s.append("' has prerequisite '");
                s.append(prereq_id.as_str());
                s.append("' with invalid level requirements (length mismatch)");
                s
            },
            BuildingConfigError::PrerequisiteLevelTooHigh {
                building_id,
                prereq_id,
                required_level,
                max_level,
            } => {
                let mut s = owned("Building '");
                s.append(building_id.as_str());
                s.append("' has prerequisite '");
                s.append(prereq_id.as_str());
                s.append("' requiring level ");
                push_decimal(&mut s, *required_level as u128);
                s.append(" but that building's max level is ");
                push_decimal(&mut s, *max_level as u128);
                s
            },
            BuildingConfigError::CircularDependency { cycle } => {
                let mut s = owned("Circular dependency detected in building prerequisites: ");
                s.append(cycle.as_str());
                s
            },
        }
    }
}

/// The three axes of a per-level resource list, as a table file gives them.
#[derive(Debug)]
pub struct ResourceConfig {
    pub minerals: Vec<u32>,
    pub gas: Vec<u32>,
    pub energy: Vec<u32>,
}

/// One building kind as a table file gives it.
#[derive(Debug)]
pub struct BuildingConfig {
    pub id: String,
    pub name: String,
    pub description: String,
    pub max_level: u8,
    pub costs: Vec<Resources>,
    pub build_time: Vec<u8>,
    pub energy_consumption: Vec<u32>,
    pub hitpoints: Vec<u32>,
    pub production: ResourceConfig,
    pub storage_capacity: ResourceConfig,
    pub prerequisites: Vec<Prerequisite>,
}

/// What a [`BuildingConfig`] holds, with every text as its sequence of characters.
pub struct BuildingConfigView {
    pub id: Seq<char>,
    pub name: Seq<char>,
    pub description: Seq<char>,
    pub max_level: u8,
    pub costs: Seq<Resources>,
    pub build_time: Seq<u8>,
    pub energy_consumption: Seq<u32>,
    pub hitpoints: Seq<u32>,
    pub production: (Seq<u32>, Seq<u32>, Seq<u32>),
    pub storage_capacity: (Seq<u32>, Seq<u32>, Seq<u32>),
    pub prerequisites: Seq<PrerequisiteView>,
}

impl DeepView for BuildingConfig {
    type V = BuildingConfigView;

    open spec fn deep_view(&self) -> BuildingConfigView {
        BuildingConfigView {
            id: self.id@,
            name: self.name@,
            description: self.description@,
            max_level: self.max_level,
            costs: self.costs@,
            build_time: self.build_time@,
            energy_consumption: self.energy_consumption@,
            hitpoints: self.hitpoints@,
            production: (
                self.production.minerals@,
                self.production.gas@,
                self.production.energy@,
            ),
            storage_capacity: (
                self.storage_capacity.minerals@,
                self.storage_capacity.gas@,
                self.storage_capacity.energy@,
            ),
            prerequisites: self.prerequisites.deep_view(),
        }
    }
}

/// A table of building kinds as a table file gives it.
#[derive(Debug)]
pub struct BuildingConfigJson {
    pub buildings: Vec<BuildingConfig>,
}

/// The smallest of three lengths.
pub open spec fn shortest(a: int, b: int, c: int) -> int {
    if a <= b && a <= c {
        a
    } else if b <= c {
        b
    } else {
        c
    }
}

/// Three per-level lists, one per axis, as one list of ledgers; as long as the shortest of them.
pub open spec fn zipped(axes: (Seq<u32>, Seq<u32>, Seq<u32>)) -> Seq<Resources> {
    Seq::new(
        shortest(axes.0.len() as int, axes.1.len() as int, axes.2.len() as int) as nat,
        |i: int| Resources { minerals: axes.0[i], gas: axes.1[i], energy: axes.2[i] },
    )
}

/// The definition that a table entry stands for.
pub open spec fn converted(b: BuildingConfigView) -> BuildingDefinitionView {
    BuildingDefinitionView {
        id: b.id,
        name: b.name,
        description: b.description,
        max_level: b.max_level,
        costs: b.costs,
        build_time: b.build_time,
        energy_consumption: b.energy_consumption,
        hitpoints: b.hitpoints,
        production: zipped(b.production),
        storage_capacity: zipped(b.storage_capacity),
        prerequisites: b.prerequisites,
    }
}

/// The definitions that the first `n` table entries stand for.
pub open spec fn converted_all(bs: Seq<BuildingConfigView>, n: int) -> Seq<BuildingDefinitionView> {
    Seq::new(n as nat, |i: int| converted(bs[i]))
}

/// The identifiers of a table of building kinds, in order.
pub open spec fn building_ids(defs: Seq<BuildingDefinitionView>) -> Seq<Seq<char>> {
    Seq::new(defs.len(), |i: int| defs[i].id)
}

/// The first list of a table entry, in the order in which they are
/// checked, whose length is not the number of levels: its name and length.
pub open spec fn first_wrong_length(b: BuildingConfigView) -> Option<(Seq<char>, usize)> {
    let n = b.max_level as int;
    if b.costs.len() != n {
        Some(("costs"@, b.costs.len() as usize))
    } else if b.build_time.len() != n {
        Some(("build_time"@, b.build_time.len() as usize))
    } else if b.energy_consumption.len() != n {
        Some(("energy_consumption"@, b.energy_consumption.len() as usize))
    } else if b.hitpoints.len() != n {
        Some(("hitpoints"@, b.hitpoints.len() as usize))
    } else if b.production.0.len() != n {
        Some(("production.minerals"@, b.production.0.len() as usize))
    } else if b.production.1.len() != n {
        Some(("production.gas"@, b.production.1.len() as usize))
    } else if b.production.2.len() != n {
        Some(("production.energy"@, b.production.2.len() as usize))
    } else if b.storage_capacity.0.len() != n {
        Some(("storage_capacity.minerals"@, b.storage_capacity.0.len() as usize))
    } else if b.storage_capacity.1.len() != n {
        Some(("storage_capacity.gas"@, b.storage_capacity.1.len() as usize))
    } else if b.storage_capacity.2.len() != n {
        Some(("storage_capacity.energy"@, b.storage_capacity.2.len() as usize))
    } else {
        None
    }
}

/// What is wrong with the `k`-th table entry by itself or against the
/// entries before it: a repeated identifier first, then a list of the wrong length.
pub open spec fn entry_defect(bs: Seq<BuildingConfigView>, k: int) -> Option<BuildingConfigErrorView> {
    let b = bs[k];
    if index_in(building_ids(converted_all(bs, k)), b.id) >= 0 {
        Some(BuildingConfigErrorView::DuplicateBuildingId { building_id: b.id })
    } else {
        match first_wrong_length(b) {
            Some((field, actual)) => Some(
                BuildingConfigErrorView::InvalidArrayLength {
                    building_id: b.id,
                    field,
                    expected: b.max_level as usize,
                    actual,
                },
            ),
            None => None,
        }
    }
}

/// The first table entry at or after `from` with a defect; the number of
/// entries where there is none.
pub open spec fn first_bad_entry(bs: Seq<BuildingConfigView>, from: int) -> int
    decreases bs.len() - from,
{
    if from < 0 || from >= bs.len() {
        bs.len() as int
    } else if entry_defect(bs, from).is_some() {
        from
    } else {
        first_bad_entry(bs, from + 1)
    }
}

/// The first required level at or after `from` that is above `max_level`.
pub open spec fn first_high_level(levels: Seq<u8>, max_level: u8, from: int) -> int
    decreases levels.len() - from,
{
    if from < 0 || from >= levels.len() {
        levels.len() as int
    } else if levels[from] > max_level {
        from
    } else {
        first_high_level(levels, max_level, from + 1)
    }
}

/// What is wrong with one prerequisite of the building `owner`: the
/// building it names is unknown, it lists another number of required levels
/// than the owner has levels, or it requires a level that the named building lacks.
pub open spec fn prerequisite_defect(
    defs: Seq<BuildingDefinitionView>,
    owner: BuildingDefinitionView,
    p: PrerequisiteView,
) -> Option<BuildingConfigErrorView> {
    let j = index_in(building_ids(defs), p.building_id);
    if j < 0 {
        Some(
            BuildingConfigErrorView::InvalidPrerequisite {
                building_id: owner.id,
                prereq_id: p.building_id,
            },
        )
    } else if p.required_levels.len() != owner.max_level {
        Some(
            BuildingConfigErrorView::InvalidPrerequisiteLevels {
                building_id: owner.id,
                prereq_id: p.building_id,
            },
        )
    } else {
        let k = first_high_level(p.required_levels, defs[j].max_level, 0);
        if k < p.required_levels.len() {
            Some(
                BuildingConfigErrorView::PrerequisiteLevelTooHigh {
                    building_id: owner.id,
                    prereq_id: p.building_id,
                    required_level: p.required_levels[k],
                    max_level: defs[j].max_level,
                },
            )
        } else {
            None
        }
    }
}

/// The first prerequisite of `owner`, at or after `from`, with a defect.
pub open spec fn first_bad_prerequisite(
    defs: Seq<BuildingDefinitionView>,
    owner: BuildingDefinitionView,
    from: int,
) -> int
    decreases owner.prerequisites.len() - from,
{
    if from < 0 || from >= owner.prerequisites.len() {
        owner.prerequisites.len() as int
    } else if prerequisite_defect(defs, owner, owner.prerequisites[from]).is_some() {
        from
    } else {
        first_bad_prerequisite(defs, owner, from + 1)
    }
}

/// The first building, at or after `from`, one of whose prerequisites has a defect.
pub open spec fn first_bad_owner(defs: Seq<BuildingDefinitionView>, from: int) -> int
    decreases defs.len() - from,
{
    if from < 0 || from >= defs.len() {
        defs.len() as int
    } else if first_bad_prerequisite(defs, defs[from], 0) < defs[from].prerequisites.len() {
        from
    } else {
        first_bad_owner(defs, from + 1)
    }
}

/// The position of the building that the `k`-th prerequisite of the `i`-th building names.
pub open spec fn target(defs: Seq<BuildingDefinitionView>, i: int, k: int) -> int {
    index_in(building_ids(defs), defs[i].prerequisites[k].building_id)
}

/// Whether `rank` gives every building a higher number than each of its prerequisites.
pub open spec fn ranked(defs: Seq<BuildingDefinitionView>, rank: Seq<nat>) -> bool {
    rank.len() == defs.len() && forall|i: int, k: int|
        0 <= i < defs.len() && 0 <= k < defs[i].prerequisites.len() && #[trigger] target(defs, i, k)
            >= 0 ==> rank[target(defs, i, k)] < rank[i]
}

/// No building is, by a chain of prerequisites, its own prerequisite.
pub open spec fn acyclic(defs: Seq<BuildingDefinitionView>) -> bool {
    exists|rank: Seq<nat>| ranked(defs, rank)
}

/// Whether the building at position `a` has the one at position `b` as a prerequisite.
pub open spec fn linked(defs: Seq<BuildingDefinitionView>, a: int, b: int) -> bool {
    exists|k: int| 0 <= k < defs[a].prerequisites.len() && #[trigger] target(defs, a, k) == b
}

/// Whether the `m`-th building of `c` has the next one as a prerequisite.
pub open spec fn link_at(defs: Seq<BuildingDefinitionView>, c: Seq<int>, m: int) -> bool {
    linked(defs, c[m], c[m + 1])
}

/// Whether each building of `c` has the next one as a prerequisite.
pub open spec fn chain(defs: Seq<BuildingDefinitionView>, c: Seq<int>) -> bool {
    &&& forall|m: int| 0 <= m < c.len() ==> 0 <= #[trigger] c[m] < defs.len()
    &&& forall|m: int| 0 <= m < c.len() - 1 ==> #[trigger] link_at(defs, c, m)
}

/// Along a chain of prerequisites the rank falls.
pub proof fn lemma_chain_rank(defs: Seq<BuildingDefinitionView>, rank: Seq<nat>, c: Seq<int>, m: int)
    requires
        ranked(defs, rank),
        chain(defs, c),
        0 <= m < c.len(),
    ensures
        m == 0 ==> rank[c[m]] == rank[c[0]],
        m > 0 ==> rank[c[m]] < rank[c[0]],
    decreases m,
{
    if m > 0 {
        lemma_chain_rank(defs, rank, c, m - 1);
        assert(link_at(defs, c, m - 1));
        let k = choose|k: int|
            0 <= k < defs[c[m - 1]].prerequisites.len() && #[trigger] target(defs, c[m - 1], k)
                == c[m];
        assert(target(defs, c[m - 1], k) >= 0);
    }
}

/// A chain of prerequisites that comes back to its start rules out any ranking.
pub proof fn lemma_cycle_not_acyclic(defs: Seq<BuildingDefinitionView>, c: Seq<int>)
    requires
        chain(defs, c),
        c.len() >= 2,
        c[0] == c.last(),
    ensures
        !acyclic(defs),
{
    if acyclic(defs) {
        let rank = choose|rank: Seq<nat>| ranked(defs, rank);
        lemma_chain_rank(defs, rank, c, c.len() - 1);
    }
}

/// The identifiers joined by arrows, as a cycle is reported.
pub open spec fn arrow_joined(ids: Seq<Seq<char>>) -> Seq<char>
    decreases ids.len(),
{
    if ids.len() == 0 {
        Seq::empty()
    } else if ids.len() == 1 {
        ids[0]
    } else {
        arrow_joined(ids.drop_last()) + " -> "@ + ids.last()
    }
}

impl Identified for Arc<BuildingDefinition> {
    open spec fn ident(&self) -> Seq<char> {
        self.id@
    }

    fn id_ref(&self) -> (k: &String) {
        &self.id
    }
}

/// The identifiers of the records are the identifiers of their views.
pub proof fn lemma_building_idents(defs: Vec<Arc<BuildingDefinition>>)
    ensures
        idents(defs@) == building_ids(defs.deep_view()),
{
    assert(idents(defs@) =~= building_ids(defs.deep_view()));
}

/// The table of building kinds, keyed by identifier.
#[derive(Debug)]
pub struct BuildingRegistry {
    pub definitions: Vec<Arc<BuildingDefinition>>,
}

impl DeepView for BuildingRegistry {
    type V = Seq<BuildingDefinitionView>;

    open spec fn deep_view(&self) -> Seq<BuildingDefinitionView> {
        self.definitions.deep_view()
    }
}

/// One list of ledgers out of three lists of numbers.
#[verifier::loop_isolation(false)]
pub fn zip_axes(axes: &ResourceConfig) -> (r: Vec<Resources>)
    ensures
        r@ == zipped((axes.minerals@, axes.gas@, axes.energy@)),
{
    let mut out: Vec<Resources> = Vec::new();
    let mut i: usize = 0;
    while i < axes.minerals.len() && i < axes.gas.len() && i < axes.energy.len()
        invariant
            i <= axes.minerals.len(),
            i <= axes.gas.len(),
            i <= axes.energy.len(),
            out.len() == i,
            forall|j: int|
                0 <= j < i ==> out[j] == (Resources {
                    minerals: axes.minerals[j],
                    gas: axes.gas[j],
                    energy: axes.energy[j],
                }),
        decreases axes.minerals.len() - i,
    {
        out.push(Resources::new(axes.minerals[i], axes.gas[i], axes.energy[i]));
        i += 1;
    }
    assert(out@ =~= zipped((axes.minerals@, axes.gas@, axes.energy@)));
    out
}

/// A copy of a list of prerequisites.
#[verifier::loop_isolation(false)]
pub fn copy_prerequisites(list: &Vec<Prerequisite>) -> (r: Vec<Prerequisite>)
    ensures
        r.deep_view() == list.deep_view(),
{
    let mut out: Vec<Prerequisite> = Vec::new();
    let mut i: usize = 0;
    while i < list.len()
        invariant
            i <= list.len(),
            out.len() == i,
            forall|j: int| 0 <= j < i ==> out[j].deep_view() == list[j].deep_view(),
        decreases list.len() - i,
    {
        let levels = list[i].required_levels.clone();
        assert(levels@ =~= list[i as int].required_levels@);
        out.push(Prerequisite { building_id: list[i].building_id.clone(), required_levels: levels });
        i += 1;
    }
    assert(out.deep_view() =~= list.deep_view());
    out
}

impl BuildingRegistry {
    /// No identifier occurs twice in the table.
    pub open spec fn wf(&self) -> bool {
        distinct(building_ids(self.deep_view()))
    }

    /// Checks that a list has one entry per level.
    pub fn validate_array_length(building_id: &str, field: &str, expected: usize, actual: usize) -> (r:
        Result<(), BuildingConfigError>)
        ensures
            expected == actual ==> r.is_ok(),
            expected != actual ==> r.is_err() && r.unwrap_err().deep_view() == (
            BuildingConfigErrorView::InvalidArrayLength {
                building_id: building_id@,
                field: field@,
                expected,
                actual,
            }),
    {
        if expected != actual {
            return Err(
                BuildingConfigError::InvalidArrayLength {
                    building_id: owned(building_id),
                    field: owned(field),
                    expected,
                    actual,
                },
            );
        }
        Ok(())
    }

    /// Checks the lengths of all per-level lists of a table entry, in a fixed order.
    pub fn validate_lengths(entry: &BuildingConfig) -> (r: Result<(), BuildingConfigError>)
        ensures
            match first_wrong_length(entry.deep_view()) {
                Some((field, actual)) => r.is_err() && r.unwrap_err().deep_view() == (
                BuildingConfigErrorView::InvalidArrayLength {
                    building_id: entry.id@,
                    field,
                    expected: entry.max_level as usize,
                    actual,
                }),
                None => r.is_ok(),
            },
    {
        let id = entry.id.as_str();
        let n = entry.max_level as usize;
        Self::validate_array_length(id, "costs", n, entry.costs.len())?;
        Self::validate_array_length(id, "build_time", n, entry.build_time.len())?;
        Self::validate_array_length(id, "energy_consumption", n, entry.energy_consumption.len())?;
        Self::validate_array_length(id, "hitpoints", n, entry.hitpoints.len())?;
        Self::validate_array_length(id, "production.minerals", n, entry.production.minerals.len())?;
        Self::validate_array_length(id, "production.gas", n, entry.production.gas.len())?;
        Self::validate_array_length(id, "production.energy", n, entry.production.energy.len())?;
        Self::validate_array_length(
            id,
            "storage_capacity.minerals",
            n,
            entry.storage_capacity.minerals.len(),
        )?;
        Self::validate_array_length(
            id,
            "storage_capacity.gas",
            n,
            entry.storage_capacity.gas.len(),
        )?;
        Self::validate_array_length(
            id,
            "storage_capacity.energy",
            n,
            entry.storage_capacity.energy.len(),
        )?;
        Ok(())
    }

    /// The definition that a table entry stands for.
    pub fn convert_to_definition(json: &BuildingConfig) -> (r: Result<
        BuildingDefinition,
        BuildingConfigError,
    >)
        ensures
            r.is_ok(),
            r.unwrap().deep_view() == converted(json.deep_view()),
    {
        let costs = json.costs.clone();
        let build_time = json.build_time.clone();
        let energy_consumption = json.energy_consumption.clone();
        let hitpoints = json.hitpoints.clone();
        assert(costs@ =~= json.costs@);
        assert(build_time@ =~= json.build_time@);
        assert(energy_consumption@ =~= json.energy_consumption@);
        assert(hitpoints@ =~= json.hitpoints@);
        Ok(
            BuildingDefinition {
                id: json.id.clone(),
                name: json.name.clone(),
                description: json.description.clone(),
                max_level: json.max_level,
                costs,
                build_time,
                energy_consumption,
                hitpoints,
                production: zip_axes(&json.production),
                storage_capacity: zip_axes(&json.storage_capacity),
                prerequisites: copy_prerequisites(&json.prerequisites),
            },
        )
    }

    /// Checks the prerequisites of the building at position `owner`, in order.
    #[verifier::loop_isolation(false)]
    pub fn validate_prerequisites(owner: usize, definitions: &Vec<Arc<BuildingDefinition>>) -> (r:
        Result<(), BuildingConfigError>)
        requires
            owner < definitions.len(),
        ensures
            ({
                let defs = definitions.deep_view();
                let k = first_bad_prerequisite(defs, defs[owner as int], 0);
                if k < defs[owner as int].prerequisites.len() {
                    r.is_err() && Some(r.unwrap_err().deep_view()) == prerequisite_defect(
                        defs,
                        defs[owner as int],
                        defs[owner as int].prerequisites[k],
                    )
                } else {
                    r.is_ok()
                }
            }),
    {
        let ghost defs = definitions.deep_view();
        let building_def = &definitions[owner];
        let ghost me = defs[owner as int];
        assert(building_def.deep_view() == me);
        proof {
            lemma_building_idents(*definitions);
        }
        let mut i: usize = 0;
        while i < building_def.prerequisites.len()
            invariant
                i <= building_def.prerequisites.len(),
                first_bad_prerequisite(defs, me, i as int) == first_bad_prerequisite(defs, me, 0),
            decreases building_def.prerequisites.len() - i,
        {
            let prereq = &building_def.prerequisites[i];
            assert(prereq.deep_view() == me.prerequisites[i as int]);
            let j = match find_by_id(definitions, &prereq.building_id) {
                Some(j) => j,
                None => {
                    return Err(
                        BuildingConfigError::InvalidPrerequisite {
                            building_id: building_def.id.clone(),
                            prereq_id: prereq.building_id.clone(),
                        },
                    );
                },
            };
            assert(definitions[j as int].deep_view() == defs[j as int]);
            if prereq.required_levels.len() != building_def.max_level as usize {
                return Err(
                    BuildingConfigError::InvalidPrerequisiteLevels {
                        building_id: building_def.id.clone(),
                        prereq_id: prereq.building_id.clone(),
                    },
                );
            }
            let limit = definitions[j].max_level;
            let mut m: usize = 0;
            while m < prereq.required_levels.len()
                invariant
                    m <= prereq.required_levels.len(),
                    first_high_level(prereq.required_levels@, limit, m as int) == first_high_level(
                        prereq.required_levels@,
                        limit,
                        0,
                    ),
                decreases prereq.required_levels.len() - m,
            {
                if prereq.required_levels[m] > limit {
                    return Err(
                        BuildingConfigError::PrerequisiteLevelTooHigh {
                            building_id: building_def.id.clone(),
                            prereq_id: prereq.building_id.clone(),
                            required_level: prereq.required_levels[m],
                            max_level: limit,
                        },
                    );
                }
                m += 1;
            }
            i += 1;
        }
        Ok(())
    }

    /// The definition of the kind `id`, where the table holds it.
    pub fn get(&self, id: &str) -> (r: Option<Arc<BuildingDefinition>>)
        ensures
            ({
                let i = index_in(building_ids(self.deep_view()), id@);
                match r {
                    Some(d) => i >= 0 && d.deep_view() == self.deep_view()[i],
                    None => i < 0,
                }
            }),
    {
        proof {
            lemma_building_idents(self.definitions);
        }
        let key = owned(id);
        match find_by_id(&self.definitions, &key) {
            Some(i) => Some(share(&self.definitions[i])),
            None => None,
        }
    }

    /// All definitions, in table order.
    pub fn all_buildings(&self) -> (r: &Vec<Arc<BuildingDefinition>>)
        ensures
            r.deep_view() == self.deep_view(),
    {
        &self.definitions
    }

    pub fn len(&self) -> (r: usize)
        ensures
            r == self.deep_view().len(),
    {
        self.definitions.len()
    }

    pub fn is_empty(&self) -> (r: bool)
        ensures
            r == (self.deep_view().len() == 0),
    {
        self.definitions.len() == 0
    }
}

} // verus!
