//! The table of structure kinds and their per-level values.
use vstd::prelude::*;
use std::sync::Arc;
use crate::ids::{Identified, idents, distinct, index_in, lemma_index_in, find_by_id, share};
use crate::resources::Resources;
use crate::text::{owned, decimal, push_decimal};
use vstd::string::*;

verus! {

/// The identifier of a structure kind.
pub type StructureId = String;

/// What went wrong while a table of structure kinds was put together.
#[derive(Debug)]
pub enum StructureConfigError {
    /// A per-level list holds more entries than the kind has levels.
    SizeMismatchError { structure_name: String, field_name: String, expected: usize, actual: usize },
}

/// What a [`StructureConfigError`] holds, with every text as its sequence of characters.
pub enum StructureConfigErrorView {
    SizeMismatchError { structure_name: Seq<char>, field_name: Seq<char>, expected: usize, actual: usize },
}

impl DeepView for StructureConfigError {
    type V = StructureConfigErrorView;

    open spec fn deep_view(&self) -> StructureConfigErrorView {
        match self {
            StructureConfigError::SizeMismatchError {
                structure_name,
                field_name,
                expected,
                actual,
            } => StructureConfigErrorView::SizeMismatchError {
                structure_name: structure_name@,
                field_name: field_name@,
                expected: *expected,
                actual: *actual,
            },
        }
    }
}

/// How a structure-table error reads in reports.
pub open spec fn structure_config_error_text(e: StructureConfigErrorView) -> Seq<char> {
    match e {
        StructureConfigErrorView::SizeMismatchError {
            structure_name,
            field_name,
            expected,
            actual,
        } => "Structure '"@ + structure_name + "': "@ + field_name + " has "@ + decimal(
            actual as nat,
        ) + " items but max_level is "@ + decimal(expected as nat),
    }
}

impl StructureConfigError {
    /// The error as one line of text.
    pub fn message(&self) -> (s: String)
        ensures
            s@ == structure_config_error_text(self.deep_view()),
    {
        match self {
            StructureConfigError::SizeMismatchError {
                structure_name,
                field_name,
                expected,
                actual,
            } => {
                let mut s = owned("Structure '");
                s.append(structure_name.as_str());
                s.append("': ");
                s.append(field_name.as_str());
                s.append(" has ");
                push_decimal(&mut s, *actual as u128);
                s.append(" items but max_level is ");
                push_decimal(&mut s, *expected as u128);
                s
            },
        }
    }
}

/// A structure that must stand, at some level, before another can be raised.
#[derive(Debug)]
pub struct Prerequisity {
    pub structure_id: StructureId,
    /// The level required of `structure_id`, per level of the dependent structure.
    pub required_levels: Vec<u32>,
}

/// What a [`Prerequisity`] holds, with every text as its sequence of characters.
pub struct PrerequisityView {
    pub structure_id: Seq<char>,
    pub required_levels: Seq<u32>,
}

impl DeepView for Prerequisity {
    type V = PrerequisityView;

    open spec fn deep_view(&self) -> PrerequisityView {
        PrerequisityView { structure_id: self.structure_id@, required_levels: self.required_levels@ }
    }
}

/// The error for a list of `actual` entries in a kind with `expected` levels.
pub open spec fn size_mismatch(
    structure_name: Seq<char>,
    field_name: Seq<char>,
    expected: usize,
    actual: usize,
) -> StructureConfigErrorView {
    StructureConfigErrorView::SizeMismatchError { structure_name, field_name, expected, actual }
}

impl Prerequisity {
    /// Refuses a prerequisite that lists more required levels than the
    /// dependent structure has levels.
    pub fn validate(&self, structure_name: &str, max_level: usize) -> (r: Result<
        (),
        StructureConfigError,
    >)
        ensures
            self.required_levels.len() <= max_level ==> r.is_ok(),
            self.required_levels.len() > max_level ==> r.is_err() && r.unwrap_err().deep_view()
                == size_mismatch(
                structure_name@,
                "prerequisity.required_levels"@,
                max_level,
                self.required_levels.len(),
            ),
    {
        let required_levels_len = self.required_levels.len();
        if required_levels_len > max_level {
            return Err(
                StructureConfigError::SizeMismatchError {
                    structure_name: owned(structure_name),
                    field_name: owned("prerequisity.required_levels"),
                    expected: max_level,
                    actual: required_levels_len,
                },
            );
        }
        Ok(())
    }
}

/// One structure kind. The per-level lists are indexed by level minus one.
#[derive(Debug)]
pub struct StructureDefinition {
    pub id: StructureId,
    pub name: String,
    pub description: String,
    pub max_level: u16,
    pub costs: Vec<Resources>,
    pub upgrade_time: Vec<u32>,
    pub energy_consumption: Vec<u32>,
    pub hitpoints: Vec<u32>,
    pub production: Vec<Resources>,
    pub storage_capacity: Vec<Resources>,
    pub prerequisites: Vec<Prerequisity>,
    /// Turns without attack after which a shield is restored (shield kinds only).
    pub shield_regen_turns: Option<u32>,
}

/// What a [`StructureDefinition`] holds, with every text as its sequence of characters.
pub struct StructureDefinitionView {
    pub id: Seq<char>,
    pub name: Seq<char>,
    pub description: Seq<char>,
    pub max_level: u16,
    pub costs: Seq<Resources>,
    pub upgrade_time: Seq<u32>,
    pub energy_consumption: Seq<u32>,
    pub hitpoints: Seq<u32>,
    pub production: Seq<Resources>,
    pub storage_capacity: Seq<Resources>,
    pub prerequisites: Seq<PrerequisityView>,
    pub shield_regen_turns: Option<u32>,
}

impl DeepView for StructureDefinition {
    type V = StructureDefinitionView;

    open spec fn deep_view(&self) -> StructureDefinitionView {
        StructureDefinitionView {
            id: self.id@,
            name: self.name@,
            description: self.description@,
            max_level: self.max_level,
            costs: self.costs@,
            upgrade_time: self.upgrade_time@,
            energy_consumption: self.energy_consumption@,
            hitpoints: self.hitpoints@,
            production: self.production@,
            storage_capacity: self.storage_capacity@,
            prerequisites: self.prerequisites.deep_view(),
            shield_regen_turns: self.shield_regen_turns,
        }
    }
}

impl StructureDefinitionView {
    /// Every per-level list has exactly one entry per level.
    pub open spec fn complete(self) -> bool {
        &&& self.costs.len() == self.max_level
        &&& self.upgrade_time.len() == self.max_level
        &&& self.energy_consumption.len() == self.max_level
        &&& self.hitpoints.len() == self.max_level
        &&& self.production.len() == self.max_level
        &&& self.storage_capacity.len() == self.max_level
    }

    /// The first per-level list, in the order in which they are checked, that
    /// is longer than the kind has levels: its name and its length.
    pub open spec fn first_oversized(self) -> Option<(Seq<char>, usize)> {
        let max = self.max_level as int;
        if self.costs.len() > max {
            Some(("costs"@, self.costs.len() as usize))
        } else if self.production.len() > max {
            Some(("production"@, self.production.len() as usize))
        } else if self.storage_capacity.len() > max {
            Some(("storage_capacity"@, self.storage_capacity.len() as usize))
        } else if self.hitpoints.len() > max {
            Some(("hitpoints"@, self.hitpoints.len() as usize))
        } else if self.upgrade_time.len() > max {
            Some(("upgrade_time"@, self.upgrade_time.len() as usize))
        } else if self.energy_consumption.len() > max {
            Some(("energy_consumption"@, self.energy_consumption.len() as usize))
        } else {
            None
        }
    }

    /// The first prerequisite, at or after `from`, with more required levels
    /// than the kind has levels; the number of prerequisites where there is none.
    pub open spec fn first_bad_prerequisite(self, from: int) -> int
        decreases self.prerequisites.len() - from,
    {
        if from < 0 || from >= self.prerequisites.len() {
            self.prerequisites.len() as int
        } else if self.prerequisites[from].required_levels.len() > self.max_level {
            from
        } else {
            self.first_bad_prerequisite(from + 1)
        }
    }

    /// The error that validation reports for this definition, if any: an
    /// oversized list first, then an oversized prerequisite.
    pub open spec fn defect(self) -> Option<StructureConfigErrorView> {
        match self.first_oversized() {
            Some((field, size)) => Some(
                size_mismatch(self.name, field, self.max_level as usize, size),
            ),
            None => {
                let k = self.first_bad_prerequisite(0);
                if k < self.prerequisites.len() {
                    Some(
                        size_mismatch(
                            self.name,
                            "prerequisity.required_levels"@,
                            self.max_level as usize,
                            self.prerequisites[k].required_levels.len() as usize,
                        ),
                    )
                } else {
                    None
                }
            },
        }
    }
}

impl Identified for Arc<StructureDefinition> {
    open spec fn ident(&self) -> Seq<char> {
        self.id@
    }

    fn id_ref(&self) -> (k: &String) {
        &self.id
    }
}

/// The identifiers of a table of structure kinds, in order.
pub open spec fn structure_def_ids(defs: Seq<StructureDefinitionView>) -> Seq<Seq<char>> {
    Seq::new(defs.len(), |i: int| defs[i].id)
}

/// The definition of the kind `id`, where the table holds it.
pub open spec fn lookup_structure(defs: Seq<StructureDefinitionView>, id: Seq<char>) -> Option<
    StructureDefinitionView,
> {
    let i = index_in(structure_def_ids(defs), id);
    if i >= 0 {
        Some(defs[i])
    } else {
        None
    }
}

/// The table after `def` was stored: it takes the place of an entry with the
/// same identifier, or comes last.
pub open spec fn stored_structure(
    defs: Seq<StructureDefinitionView>,
    def: StructureDefinitionView,
) -> Seq<StructureDefinitionView> {
    let i = index_in(structure_def_ids(defs), def.id);
    if i >= 0 {
        defs.update(i, def)
    } else {
        defs.push(def)
    }
}

/// The table that results from storing `defs[..n]` one after the other.
pub open spec fn stored_structures(defs: Seq<StructureDefinitionView>, n: int) -> Seq<
    StructureDefinitionView,
>
    decreases n,
{
    if n <= 0 {
        Seq::empty()
    } else {
        stored_structure(stored_structures(defs, n - 1), defs[n - 1])
    }
}

/// The first definition at or after `from` that validation refuses; the
/// number of definitions where there is none.
pub open spec fn first_defective(defs: Seq<StructureDefinitionView>, from: int) -> int
    decreases defs.len() - from,
{
    if from < 0 || from >= defs.len() {
        defs.len() as int
    } else if defs[from].defect().is_some() {
        from
    } else {
        first_defective(defs, from + 1)
    }
}

/// The table of structure kinds, keyed by identifier.
#[derive(Debug)]
pub struct StructureConfig {
    pub structures: Vec<Arc<StructureDefinition>>,
}

impl DeepView for StructureConfig {
    type V = Seq<StructureDefinitionView>;

    open spec fn deep_view(&self) -> Seq<StructureDefinitionView> {
        self.structures.deep_view()
    }
}

/// The identifiers of the records are the identifiers of their views.
pub proof fn lemma_structure_idents(defs: Vec<Arc<StructureDefinition>>)
    ensures
        idents(defs@) == structure_def_ids(defs.deep_view()),
{
    assert(idents(defs@) =~= structure_def_ids(defs.deep_view()));
}

/// Every kind of the table has one entry per level in each of its lists.
pub open spec fn all_complete(defs: Seq<StructureDefinitionView>) -> bool {
    forall|i: int| 0 <= i < defs.len() ==> (#[trigger] defs[i]).complete()
}

impl StructureConfig {
    /// No identifier occurs twice in the table.
    pub open spec fn wf(&self) -> bool {
        distinct(structure_def_ids(self.deep_view()))
    }

    /// Builds the table from definitions in the order given, validating each
    /// before it is stored. A definition replaces an earlier one with the
    /// same identifier. The first defect found ends the work.
    #[verifier::loop_isolation(false)]
    pub fn from_definitions(definitions: Vec<StructureDefinition>) -> (r: Result<
        Self,
        StructureConfigError,
    >)
        ensures
            ({
                let all = definitions.deep_view();
                let k = first_defective(all, 0);
                match r {
                    Ok(config) => k == all.len() && config.deep_view() == stored_structures(
                        all,
                        all.len() as int,
                    ) && config.wf(),
                    Err(e) => k < all.len() && Some(e.deep_view()) == all[k].defect(),
                }
            }),
    {
        let ghost all = definitions.deep_view();
        let mut rest = definitions;
        let mut structures: Vec<Arc<StructureDefinition>> = Vec::new();
        let mut n: usize = 0;
        while rest.len() > 0
            invariant
                n + rest.len() == all.len(),
                all.len() == definitions.len(),
                forall|j: int| 0 <= j < rest.len() ==> rest[j].deep_view() == all[n + j],
                structures.deep_view() == stored_structures(all, n as int),
                distinct(structure_def_ids(structures.deep_view())),
                first_defective(all, 0) == first_defective(all, n as int),
            decreases rest.len(),
        {
            let d = rest.remove(0);
            assert(d.deep_view() == all[n as int]);
            match Self::validate_arrays(&d) {
                Ok(()) => {},
                Err(e) => {
                    return Err(e);
                },
            }
            match Self::validate_prerequisities(&d) {
                Ok(()) => {},
                Err(e) => {
                    return Err(e);
                },
            }
            let ghost before = structures.deep_view();
            proof {
                lemma_structure_idents(structures);
                lemma_index_in(structure_def_ids(before), d.id@);
            }
            match find_by_id(&structures, &d.id) {
                Some(i) => {
                    structures[i] = Arc::new(d);
                    assert(structures.deep_view() =~= before.update(i as int, all[n as int]));
                    assert(structure_def_ids(structures.deep_view()) =~= structure_def_ids(
                        before,
                    ));
                },
                None => {
                    structures.push(Arc::new(d));
                    assert(structures.deep_view() =~= before.push(all[n as int]));
                    assert forall|i: int, j: int|
                        0 <= i < j < structures.len() implies structure_def_ids(
                        structures.deep_view(),
                    )[i] != structure_def_ids(structures.deep_view())[j] by {
                        if j < before.len() {
                            assert(structure_def_ids(before)[i] != structure_def_ids(before)[j]);
                        } else {
                            assert(structure_def_ids(before)[i] != all[n as int].id);
                        }
                    }
                },
            }
            n += 1;
        }
        Ok(StructureConfig { structures })
    }

    /// The definition of the kind `id`, where the table holds it.
    pub fn get(&self, id: &StructureId) -> (r: Option<Arc<StructureDefinition>>)
        ensures
            r.deep_view() == lookup_structure(self.deep_view(), id@),
    {
        proof {
            lemma_structure_idents(self.structures);
        }
        match find_by_id(&self.structures, id) {
            Some(i) => Some(share(&self.structures[i])),
            None => None,
        }
    }

    /// Whether every kind has exactly one entry per level in each of its lists.
    #[verifier::loop_isolation(false)]
    pub fn is_complete(&self) -> (r: bool)
        ensures
            r == all_complete(self.deep_view()),
    {
        let mut i: usize = 0;
        while i < self.structures.len()
            invariant
                i <= self.structures.len(),
                forall|j: int| 0 <= j < i ==> (#[trigger] self.deep_view()[j]).complete(),
            decreases self.structures.len() - i,
        {
            let d = &self.structures[i];
            let max = d.max_level as usize;
            assert(d.deep_view() == self.deep_view()[i as int]);
            if d.costs.len() != max || d.upgrade_time.len() != max || d.energy_consumption.len()
                != max || d.hitpoints.len() != max || d.production.len() != max
                || d.storage_capacity.len() != max {
                assert(!self.deep_view()[i as int].complete());
                return false;
            }
            i += 1;
        }
        true
    }

    /// Refuses a definition with a per-level list longer than its number of levels.
    pub fn validate_arrays(definition: &StructureDefinition) -> (r: Result<
        (),
        StructureConfigError,
    >)
        ensures
            match definition.deep_view().first_oversized() {
                Some((field, size)) => r.is_err() && r.unwrap_err().deep_view() == size_mismatch(
                    definition.name@,
                    field,
                    definition.max_level as usize,
                    size,
                ),
                None => r.is_ok(),
            },
    {
        let max_level = definition.max_level as usize;
        let (field_name, size) = if definition.costs.len() > max_level {
            ("costs", definition.costs.len())
        } else if definition.production.len() > max_level {
            ("production", definition.production.len())
        } else if definition.storage_capacity.len() > max_level {
            ("storage_capacity", definition.storage_capacity.len())
        } else if definition.hitpoints.len() > max_level {
            ("hitpoints", definition.hitpoints.len())
        } else if definition.upgrade_time.len() > max_level {
            ("upgrade_time", definition.upgrade_time.len())
        } else if definition.energy_consumption.len() > max_level {
            ("energy_consumption", definition.energy_consumption.len())
        } else {
            return Ok(());
        };
        Err(
            StructureConfigError::SizeMismatchError {
                structure_name: definition.name.clone(),
                field_name: owned(field_name),
                expected: max_level,
                actual: size,
            },
        )
    }

    /// Refuses a definition with a prerequisite that lists more required
    /// levels than the definition has levels.
    #[verifier::loop_isolation(false)]
    pub fn validate_prerequisities(definition: &StructureDefinition) -> (r: Result<
        (),
        StructureConfigError,
    >)
        ensures
            ({
                let d = definition.deep_view();
                let k = d.first_bad_prerequisite(0);
                if k < d.prerequisites.len() {
                    r.is_err() && r.unwrap_err().deep_view() == size_mismatch(
                        d.name,
                        "prerequisity.required_levels"@,
                        d.max_level as usize,
                        d.prerequisites[k].required_levels.len() as usize,
                    )
                } else {
                    r.is_ok()
                }
            }),
    {
        let ghost d = definition.deep_view();
        let mut i: usize = 0;
        while i < definition.prerequisites.len()
            invariant
                i <= definition.prerequisites.len(),
                d.first_bad_prerequisite(0) == d.first_bad_prerequisite(i as int),
            decreases definition.prerequisites.len() - i,
        {
            assert(d.prerequisites[i as int] == definition.prerequisites[i as int].deep_view());
            match definition.prerequisites[i].validate(
                definition.name.as_str(),
                definition.max_level as usize,
            ) {
                Ok(()) => {},
                Err(e) => {
                    return Err(e);
                },
            }
            i += 1;
        }
        Ok(())
    }
}

} // verus!
