//! Planets: ownership, structures, stock of resources and shield.
use vstd::prelude::*;
use vstd::string::*;
use crate::ids::{idents, distinct, index_in, lemma_index_in, find_by_id};
use crate::resources::{Resources, sat_add, sat_sub};
use crate::structure::{
    Structure,
    StructureError,
    StructureErrorView,
    StructureState,
    StructureView,
    has_level_values,
    operational_at,
    structure_ids,
};
use crate::structure_config::{StructureConfig, StructureDefinitionView, lookup_structure};
use crate::text::{owned, push_decimal, decimal, str_eq};

verus! {

/// The identifier of a planet.
pub type PlanetId = String;

/// The identifier of the structure kind that supplies a planet's shield.
pub open spec fn shield_kind() -> Seq<char> {
    "defense_shield"@
}

/// The identifier of the structure kind installed at colonization.
pub open spec fn capital_kind() -> Seq<char> {
    "planetary_capital"@
}

/// Whether the table lets a capital be installed: it holds the capital's
/// kind, and the kind has a first level with its values.
pub open spec fn capital_buildable(defs: Seq<StructureDefinitionView>) -> bool {
    match lookup_structure(defs, capital_kind()) {
        Some(def) => def.max_level >= 1 && has_level_values(def, 1),
        None => false,
    }
}

/// What starting a build or an upgrade costs and how long it takes.
#[derive(Clone, Copy, Debug, PartialEq, Eq, Structural)]
pub struct BuildInfo {
    pub cost: Resources,
    pub turns: u32,
}

/// A lane to a neighbouring planet; `distance` is the number of turns to cross it.
#[derive(Debug)]
pub struct Connection {
    pub to: PlanetId,
    pub distance: u8,
}

/// What a [`Connection`] holds, with every text as its sequence of characters.
pub struct ConnectionView {
    pub to: Seq<char>,
    pub distance: u8,
}

impl DeepView for Connection {
    type V = ConnectionView;

    open spec fn deep_view(&self) -> ConnectionView {
        ConnectionView { to: self.to@, distance: self.distance }
    }
}

impl Clone for Connection {
    fn clone(&self) -> (r: Self)
        ensures
            r.deep_view() == self.deep_view(),
    {
        Connection { to: self.to.clone(), distance: self.distance }
    }
}

/// Why a planet refuses a build or an upgrade.
#[derive(Debug)]
pub enum PlanetError {
    StructureNotFound { structure: String, planet: PlanetId },
    AlreadyUpgrading { structure: String, planet: PlanetId },
    MaxLevelReached { structure: String, planet: PlanetId },
    NotEnoughResources { name: String, cost: Resources },
    StructureAlreadyExists { structure: String, planet: PlanetId },
    StructureDefinitionNotFound { structure: String },
    StructureError(StructureError),
}

/// What a [`PlanetError`] holds, with every text as its sequence of characters.
pub enum PlanetErrorView {
    StructureNotFound { structure: Seq<char>, planet: Seq<char> },
    AlreadyUpgrading { structure: Seq<char>, planet: Seq<char> },
    MaxLevelReached { structure: Seq<char>, planet: Seq<char> },
    NotEnoughResources { name: Seq<char>, cost: Resources },
    StructureAlreadyExists { structure: Seq<char>, planet: Seq<char> },
    StructureDefinitionNotFound { structure: Seq<char> },
    StructureError(StructureErrorView),
}

impl DeepView for PlanetError {
    type V = PlanetErrorView;

    open spec fn deep_view(&self) -> PlanetErrorView {
        match self {
            PlanetError::StructureNotFound { structure, planet } => {
                PlanetErrorView::StructureNotFound { structure: structure@, planet: planet@ }
            },
            PlanetError::AlreadyUpgrading { structure, planet } => {
                PlanetErrorView::AlreadyUpgrading { structure: structure@, planet: planet@ }
            },
            PlanetError::MaxLevelReached { structure, planet } => {
                PlanetErrorView::MaxLevelReached { structure: structure@, planet: planet@ }
            },
            PlanetError::NotEnoughResources { name, cost } => {
                PlanetErrorView::NotEnoughResources { name: name@, cost: *cost }
            },
            PlanetError::StructureAlreadyExists { structure, planet } => {
                PlanetErrorView::StructureAlreadyExists { structure: structure@, planet: planet@ }
            },
            PlanetError::StructureDefinitionNotFound { structure } => {
                PlanetErrorView::StructureDefinitionNotFound { structure: structure@ }
            },
            PlanetError::StructureError(e) => PlanetErrorView::StructureError(e.deep_view()),
        }
    }
}

/// How a ledger reads in reports.
pub open spec fn resources_text(r: Resources) -> Seq<char> {
    "Resources { minerals: "@ + decimal(r.minerals as nat) + ", gas: "@ + decimal(r.gas as nat)
        + ", energy: "@ + decimal(r.energy as nat) + " }"@
}

/// Appends the report form of a ledger to `out`.
pub fn push_resources(out: &mut String, r: &Resources)
    ensures
        final(out)@ == old(out)@ + resources_text(*r),
{
    out.append("Resources { minerals: ");
    push_decimal(out, r.minerals as u128);
    out.append(", gas: ");
    push_decimal(out, r.gas as u128);
    out.append(", energy: ");
    push_decimal(out, r.energy as u128);
    out.append(" }");
    assert(out@ =~= old(out)@ + resources_text(*r));
}

/// How a structure error reads in reports.
pub open spec fn structure_error_text(e: StructureErrorView) -> Seq<char> {
    match e {
        StructureErrorView::InvalidLevel { structure_name, level, max_level } => "Invalid level "@
            + decimal(level as nat) + " for structure '"@ + structure_name + "' (max: "@ + decimal(
            max_level as nat,
        ) + ")"@,
    }
}

/// How a planet error reads in reports.
pub open spec fn planet_error_text(e: PlanetErrorView) -> Seq<char> {
    match e {
        PlanetErrorView::StructureNotFound { structure, planet } => "Structure "@ + structure
            + " was not found on planet "@ + planet,
        PlanetErrorView::AlreadyUpgrading { structure, planet } => "Structure "@ + structure
            + " on planet "@ + planet + " is already upgrading"@,
        PlanetErrorView::MaxLevelReached { structure, planet } => "Structure "@ + structure
            + " on planet "@ + planet + " has reached maximum level"@,
        PlanetErrorView::NotEnoughResources { name, cost } => "Planet "@ + name
            + " has not enough resources. Resources needed: "@ + resources_text(cost),
        PlanetErrorView::StructureAlreadyExists { structure, planet } => "Structure "@ + structure
            + " already exists on planet "@ + planet,
        PlanetErrorView::StructureDefinitionNotFound { structure } => "Structure definition '"@
            + structure + "' not found in configuration"@,
        PlanetErrorView::StructureError(inner) => structure_error_text(inner),
    }
}

impl StructureError {
    /// The error as one line of text.
    pub fn message(&self) -> (s: String)
        ensures
            s@ == structure_error_text(self.deep_view()),
    {
        match self {
            StructureError::InvalidLevel { structure_name, level, max_level } => {
                let mut s = owned("Invalid level ");
                push_decimal(&mut s, *level as u128);
                s.append(" for structure '");
                s.append(structure_name.as_str());
                s.append("' (max: ");
                push_decimal(&mut s, *max_level as u128);
                s.append(")");
                s
            },
        }
    }
}

impl PlanetError {
    /// The error as one line of text.
    pub fn message(&self) -> (s: String)
        ensures
            s@ == planet_error_text(self.deep_view()),
    {
        match self {
            PlanetError::StructureNotFound { structure, planet } => {
                let mut s = owned("Structure ");
                s.append(structure.as_str());
                s.append(" was not found on planet ");
                s.append(planet.as_str());
                s
            },
            PlanetError::AlreadyUpgrading { structure, planet } => {
                let mut s = owned("Structure ");
                s.append(structure.as_str());
                s.append(" on planet ");
                s.append(planet.as_str());
                s.append(" is already upgrading");
                s
            },
            PlanetError::MaxLevelReached { structure, planet } => {
                let mut s = owned("Structure ");
                s.append(structure.as_str());
                s.append(" on planet ");
                s.append(planet.as_str());
                s.append(" has reached maximum level");
                s
            },
            PlanetError::NotEnoughResources { name, cost } => {
                let mut s = owned("Planet ");
                s.append(name.as_str());
                s.append(" has not enough resources. Resources needed: ");
                push_resources(&mut s, cost);
                s
            },
            PlanetError::StructureAlreadyExists { structure, planet } => {
                let mut s = owned("Structure ");
                s.append(structure.as_str());
                s.append(" already exists on planet ");
                s.append(planet.as_str());
                s
            },
            PlanetError::StructureDefinitionNotFound { structure } => {
                let mut s = owned("Structure definition '");
                s.append(structure.as_str());
                s.append("' not found in configuration");
                s
            },
            PlanetError::StructureError(inner) => inner.message(),
        }
    }
}

/// A planet of the map.
#[derive(Debug)]
pub struct Planet {
    pub id: PlanetId,
    pub name: String,
    pub connections: Vec<Connection>,
    pub owner: Option<String>,
    /// The structures that stand here, at most one per kind.
    pub structures: Vec<Structure>,
    pub production_rate: Resources,
    pub available_resources: Resources,
    pub storage_capacity: Resources,
    /// What is left of the shield.
    pub shield_hp: u32,
    /// Turns since the last attack.
    pub shield_regen_timer: u32,
}

/// What a [`Planet`] holds, with every text as its sequence of characters.
pub struct PlanetView {
    pub id: Seq<char>,
    pub name: Seq<char>,
    pub connections: Seq<ConnectionView>,
    pub owner: Option<Seq<char>>,
    pub structures: Seq<StructureView>,
    pub production_rate: Resources,
    pub available_resources: Resources,
    pub storage_capacity: Resources,
    pub shield_hp: u32,
    pub shield_regen_timer: u32,
}

impl DeepView for Planet {
    type V = PlanetView;

    open spec fn deep_view(&self) -> PlanetView {
        PlanetView {
            id: self.id@,
            name: self.name@,
            connections: self.connections.deep_view(),
            owner: match self.owner {
                Some(o) => Some(o@),
                None => None,
            },
            structures: self.structures.deep_view(),
            production_rate: self.production_rate,
            available_resources: self.available_resources,
            storage_capacity: self.storage_capacity,
            shield_hp: self.shield_hp,
            shield_regen_timer: self.shield_regen_timer,
        }
    }
}

impl crate::ids::Identified for Planet {
    open spec fn ident(&self) -> Seq<char> {
        self.id@
    }

    fn id_ref(&self) -> (k: &String) {
        &self.id
    }
}

/// The identifiers of a list of planets, in order.
pub open spec fn planet_ids(planets: Seq<PlanetView>) -> Seq<Seq<char>> {
    Seq::new(planets.len(), |i: int| planets[i].id)
}

/// The identifiers of the records are the identifiers of their views.
pub proof fn lemma_structure_list_idents(structures: Vec<Structure>)
    ensures
        idents(structures@) == structure_ids(structures.deep_view()),
{
    assert(idents(structures@) =~= structure_ids(structures.deep_view()));
}

/// The structure of kind `id` in the list, where there is one.
pub open spec fn structure_of(structures: Seq<StructureView>, id: Seq<char>) -> Option<
    StructureView,
> {
    let i = index_in(structure_ids(structures), id);
    if i >= 0 {
        Some(structures[i])
    } else {
        None
    }
}

/// The list after `s` was installed: in place of the structure of the same kind, or last.
pub open spec fn installed(structures: Seq<StructureView>, s: StructureView) -> Seq<StructureView> {
    let i = index_in(structure_ids(structures), s.definition.id);
    if i >= 0 {
        structures.update(i, s)
    } else {
        structures.push(s)
    }
}

/// The storage that the operational ones among the first `n` structures supply.
pub open spec fn operational_storage_sum(s: Seq<StructureView>, n: int) -> Resources
    decreases n,
{
    if n <= 0 {
        Resources::nothing()
    } else if s[n - 1].state is Operational {
        operational_storage_sum(s, n - 1).plus(s[n - 1].storage)
    } else {
        operational_storage_sum(s, n - 1)
    }
}

/// What the operational ones among the first `n` structures produce per turn.
pub open spec fn production_sum(s: Seq<StructureView>, n: int) -> Resources
    decreases n,
{
    if n <= 0 {
        Resources::nothing()
    } else if s[n - 1].state is Operational {
        production_sum(s, n - 1).plus(s[n - 1].production)
    } else {
        production_sum(s, n - 1)
    }
}

/// What a structure adds to the stock in a turn: its production while it
/// is operational, nothing otherwise.
pub open spec fn yield_of(s: StructureView) -> Resources {
    if s.state is Operational {
        s.production
    } else {
        Resources::nothing()
    }
}

/// The stock after the operational ones among the first `n` structures
/// drew their energy and added their production, each addition capped at `cap`.
pub open spec fn stock_after(s: Seq<StructureView>, start: Resources, cap: Resources, n: int) -> Resources
    decreases n,
{
    if n <= 0 {
        start
    } else {
        let r = stock_after(s, start, cap, n - 1);
        let drained = Resources { energy: sat_sub(r.energy, s[n - 1].energy_draw()), ..r };
        drained.plus(yield_of(s[n - 1])).capped(cap)
    }
}

/// Every structure of the list after one turn.
pub open spec fn structures_after_turn(s: Seq<StructureView>) -> Seq<StructureView> {
    Seq::new(s.len(), |i: int| s[i].after_turn())
}

impl PlanetView {
    /// The largest shield that the planet's structures supply: none without a shield structure.
    pub open spec fn max_shield(self) -> u32 {
        match structure_of(self.structures, shield_kind()) {
            Some(s) => s.hitpoints,
            None => 0,
        }
    }

    /// The turns without attack after which the shield is restored.
    pub open spec fn regen_turns(self) -> Option<u32> {
        match structure_of(self.structures, shield_kind()) {
            Some(s) => s.definition.shield_regen_turns,
            None => None,
        }
    }

    /// The planet after `damage` hit its shield.
    pub open spec fn shield_hit(self, damage: u32) -> PlanetView {
        PlanetView {
            shield_hp: sat_sub(self.shield_hp, damage),
            shield_regen_timer: 0,
            ..self
        }
    }

    /// The planet after a quiet turn passed over its shield: the turn is
    /// counted, and once the count reaches the threshold the shield stands
    /// at its maximum and the count starts anew. A planet without a shield
    /// structure counts nothing.
    pub open spec fn shield_rested(self) -> PlanetView {
        match self.regen_turns() {
            None => self,
            Some(threshold) => {
                let timer = sat_add(self.shield_regen_timer, 1);
                if timer >= threshold {
                    PlanetView { shield_hp: self.max_shield(), shield_regen_timer: 0, ..self }
                } else {
                    PlanetView { shield_regen_timer: timer, ..self }
                }
            },
        }
    }

    /// The planet with rate and capacity summed anew over its operational structures.
    pub open spec fn recalculated(self) -> PlanetView {
        PlanetView {
            production_rate: production_sum(self.structures, self.structures.len() as int),
            storage_capacity: operational_storage_sum(
                self.structures,
                self.structures.len() as int,
            ),
            ..self
        }
    }

    /// The planet after one turn of production at its rate, capped at its capacity.
    pub open spec fn produced(self) -> PlanetView {
        PlanetView {
            available_resources: self.available_resources.plus(self.production_rate).capped(
                self.storage_capacity,
            ),
            ..self
        }
    }

    /// The planet after `s` was installed on it.
    pub open spec fn with_structure(self, s: StructureView) -> PlanetView {
        PlanetView { structures: installed(self.structures, s), ..self }
    }

    /// The planet after a full turn of its own: capacity and rate summed
    /// anew over the operational structures, each of these drawing energy
    /// and producing, every structure advancing, and the shield resting.
    pub open spec fn after_turn(self) -> PlanetView {
        let n = self.structures.len() as int;
        let cap = operational_storage_sum(self.structures, n);
        PlanetView {
            storage_capacity: cap,
            production_rate: production_sum(self.structures, n),
            available_resources: stock_after(self.structures, self.available_resources, cap, n),
            structures: structures_after_turn(self.structures),
            ..self
        }.shield_rested()
    }

    /// What `validate_build_structure` answers.
    pub open spec fn build_check(
        self,
        id: Seq<char>,
        defs: Seq<StructureDefinitionView>,
    ) -> Result<BuildInfo, PlanetErrorView> {
        if structure_of(self.structures, id).is_some() {
            Err(PlanetErrorView::StructureAlreadyExists { structure: id, planet: self.id })
        } else {
            match lookup_structure(defs, id) {
                None => Err(PlanetErrorView::StructureDefinitionNotFound { structure: id }),
                Some(def) => {
                    if def.upgrade_time.len() == 0 || def.costs.len() == 0 {
                        Err(PlanetErrorView::StructureError(no_such_level(def, 0)))
                    } else if !self.available_resources.covers(def.costs[0]) {
                        Err(
                            PlanetErrorView::NotEnoughResources {
                                name: self.name,
                                cost: def.costs[0],
                            },
                        )
                    } else {
                        Ok(BuildInfo { cost: def.costs[0], turns: def.upgrade_time[0] })
                    }
                },
            }
        }
    }

    /// What `validate_upgrade_structure` answers.
    pub open spec fn upgrade_check(self, id: Seq<char>) -> Result<BuildInfo, PlanetErrorView> {
        match structure_of(self.structures, id) {
            None => Err(PlanetErrorView::StructureNotFound { structure: id, planet: self.id }),
            Some(s) => {
                if s.state is Upgrading {
                    Err(PlanetErrorView::AlreadyUpgrading { structure: id, planet: self.id })
                } else if s.level >= s.max_level {
                    Err(PlanetErrorView::MaxLevelReached { structure: id, planet: self.id })
                } else if s.level >= s.definition.costs.len() || s.level
                    >= s.definition.upgrade_time.len() {
                    Err(PlanetErrorView::StructureError(s.invalid_level()))
                } else if !self.available_resources.covers(s.definition.costs[s.level as int]) {
                    Err(
                        PlanetErrorView::NotEnoughResources {
                            name: self.name,
                            cost: s.definition.costs[s.level as int],
                        },
                    )
                } else {
                    Ok(
                        BuildInfo {
                            cost: s.definition.costs[s.level as int],
                            turns: s.definition.upgrade_time[s.level as int],
                        },
                    )
                }
            },
        }
    }

    /// The planet after a structure of kind `id` was finished on it: a new
    /// shield structure starts with its shield full.
    pub open spec fn shield_raised_by(self, id: Seq<char>) -> PlanetView {
        if id == shield_kind() {
            PlanetView { shield_hp: self.max_shield(), ..self }
        } else {
            self
        }
    }

    /// What completing a build of kind `id` does to the planet.
    pub open spec fn build_completed(self, id: Seq<char>, defs: Seq<StructureDefinitionView>) -> (
        PlanetView,
        Option<PlanetErrorView>,
    ) {
        match lookup_structure(defs, id) {
            None => (self, Some(PlanetErrorView::StructureDefinitionNotFound { structure: id })),
            Some(def) => if def.max_level >= 1 && has_level_values(def, 1) {
                (self.with_structure(operational_at(def, 1)).shield_raised_by(id), None)
            } else {
                (self, Some(PlanetErrorView::StructureError(no_such_level(def, 1))))
            },
        }
    }

    /// What completing an upgrade of the structure of kind `id` does to the
    /// planet: a structure at its highest level, or whose kind lists no
    /// values for the next level, stays as it is.
    pub open spec fn upgrade_completed(self, id: Seq<char>) -> (PlanetView, Option<PlanetErrorView>) {
        match structure_of(self.structures, id) {
            None => (
                self,
                Some(PlanetErrorView::StructureNotFound { structure: id, planet: self.id }),
            ),
            Some(s) => if s.level < s.max_level && has_level_values(s.definition, s.level + 1) {
                (self.with_structure(s.raised_to((s.level + 1) as u16)), None)
            } else {
                (self, Some(PlanetErrorView::StructureError(s.invalid_level())))
            },
        }
    }

    /// What colonizing does to the planet.
    pub open spec fn colonized(self, defs: Seq<StructureDefinitionView>) -> (
        PlanetView,
        Option<PlanetErrorView>,
    ) {
        let (p, e) = self.build_completed(capital_kind(), defs);
        if e.is_none() {
            (p.recalculated().filled(), None)
        } else {
            (self, e)
        }
    }

    /// No two structures of the planet are of the same kind.
    pub open spec fn wf(self) -> bool {
        distinct(structure_ids(self.structures))
    }
}

/// The error that names `level` as one that the kind `def` does not have.
pub open spec fn no_such_level(def: StructureDefinitionView, level: u16) -> StructureErrorView {
    StructureErrorView::InvalidLevel { structure_name: def.name, level, max_level: def.max_level }
}

/// The error of a result, if any.
pub open spec fn view_error(r: Result<(), PlanetError>) -> Option<PlanetErrorView> {
    match r {
        Ok(_) => None,
        Err(e) => Some(e.deep_view()),
    }
}

/// The view of a result.
pub open spec fn view_result<T>(r: Result<T, PlanetError>) -> Result<T, PlanetErrorView> {
    match r {
        Ok(v) => Ok(v),
        Err(e) => Err(e.deep_view()),
    }
}

impl Planet {
    /// A planet without structures, stock or shield.
    pub fn new(id: PlanetId, name: String, owner: Option<String>, connections: Vec<Connection>) -> (r:
        Self)
        ensures
            r.deep_view().id == id@,
            r.deep_view().name == name@,
            r.owner == owner,
            r.connections == connections,
            r.deep_view().structures == Seq::<StructureView>::empty(),
            r.production_rate == Resources::nothing(),
            r.available_resources == Resources::nothing(),
            r.storage_capacity == Resources::nothing(),
            r.shield_hp == 0,
            r.shield_regen_timer == 0,
    {
        let p = Planet {
            id,
            name,
            owner,
            connections,
            structures: Vec::new(),
            production_rate: Resources::default(),
            available_resources: Resources::default(),
            storage_capacity: Resources::default(),
            shield_hp: 0,
            shield_regen_timer: 0,
        };
        assert(p.structures.deep_view() =~= Seq::<StructureView>::empty());
        p
    }

    pub fn get_owner(&self) -> (r: &Option<String>)
        ensures
            *r == self.owner,
    {
        &self.owner
    }

    pub fn set_owner(&mut self, new_owner: String)
        ensures
            final(self).deep_view() == (PlanetView {
                owner: Some(new_owner@),
                ..old(self).deep_view()
            }),
    {
        self.owner = Some(new_owner);
    }

    /// Whether the planet belongs to `player`.
    pub fn is_owned_by(&self, player: &String) -> (r: bool)
        ensures
            r == (self.deep_view().owner == Some(player@)),
    {
        match &self.owner {
            Some(o) => *o == *player,
            None => false,
        }
    }

    pub fn get_connections(&self) -> (r: &Vec<Connection>)
        ensures
            *r == self.connections,
    {
        &self.connections
    }

    pub fn add_connection(&mut self, connection: Connection)
        ensures
            final(self).deep_view() == (PlanetView {
                connections: old(self).deep_view().connections.push(connection.deep_view()),
                ..old(self).deep_view()
            }),
    {
        self.connections.push(connection);
        assert(self.connections.deep_view() =~= old(self).connections.deep_view().push(
            connection.deep_view(),
        ));
    }

    /// The level of the structure of kind `structure_id`, or 0 where none stands.
    pub fn get_structure_level(&self, structure_id: &String) -> (r: u16)
        ensures
            r == match structure_of(self.deep_view().structures, structure_id@) {
                Some(s) => s.level,
                None => 0,
            },
    {
        proof {
            lemma_structure_list_idents(self.structures);
        }
        match find_by_id(&self.structures, structure_id) {
            Some(i) => self.structures[i].level,
            None => 0,
        }
    }

    pub fn get_structures(&self) -> (r: &Vec<Structure>)
        ensures
            *r == self.structures,
    {
        &self.structures
    }

    pub fn get_shield_hp(&self) -> (r: u32)
        ensures
            r == self.shield_hp,
    {
        self.shield_hp
    }

    /// The largest shield that the planet's structures supply.
    pub fn get_max_shield_hp(&self) -> (r: u32)
        ensures
            r == self.deep_view().max_shield(),
    {
        proof {
            lemma_structure_list_idents(self.structures);
        }
        let key = owned("defense_shield");
        match find_by_id(&self.structures, &key) {
            Some(i) => self.structures[i].hitpoints,
            None => 0,
        }
    }

    /// Takes `damage` off the shield, never below zero, and restarts the
    /// count of quiet turns. Returns the damage that the shield did not absorb.
    pub fn take_shield_damage(&mut self, damage: u32) -> (overflow: u32)
        ensures
            final(self).deep_view() == old(self).deep_view().shield_hit(damage),
            overflow == sat_sub(damage, old(self).shield_hp),
    {
        self.shield_regen_timer = 0;
        if damage >= self.shield_hp {
            let overflow = damage - self.shield_hp;
            self.shield_hp = 0;
            overflow
        } else {
            self.shield_hp -= damage;
            0
        }
    }

    /// Restores the shield to its maximum.
    pub fn regenerate_shield(&mut self)
        ensures
            final(self).deep_view() == (PlanetView {
                shield_hp: old(self).deep_view().max_shield(),
                ..old(self).deep_view()
            }),
    {
        self.shield_hp = self.get_max_shield_hp();
    }

    /// The turns without attack after which the shield is restored; `None` without a shield structure.
    pub fn get_shield_regen_turns(&self) -> (r: Option<u32>)
        ensures
            r == self.deep_view().regen_turns(),
    {
        proof {
            lemma_structure_list_idents(self.structures);
        }
        let key = owned("defense_shield");
        match find_by_id(&self.structures, &key) {
            Some(i) => self.structures[i].get_shield_regen_turns(),
            None => None,
        }
    }

    /// Lets a quiet turn pass over the shield.
    pub fn rest_shield(&mut self)
        ensures
            final(self).deep_view() == old(self).deep_view().shield_rested(),
    {
        if let Some(regen_turns) = self.get_shield_regen_turns() {
            self.shield_regen_timer = self.shield_regen_timer.saturating_add(1);
            if self.shield_regen_timer >= regen_turns {
                self.regenerate_shield();
                self.shield_regen_timer = 0;
            }
        }
    }

    /// Checks that a structure of kind `structure_id` can be started here and
    /// says what it costs and how long it takes. Changes nothing.
    pub fn validate_build_structure(
        &self,
        structure_id: &String,
        structure_config: &StructureConfig,
    ) -> (r: Result<BuildInfo, PlanetError>)
        ensures
            view_result(r) == self.deep_view().build_check(
                structure_id@,
                structure_config.deep_view(),
            ),
    {
        proof {
            lemma_structure_list_idents(self.structures);
        }
        if find_by_id(&self.structures, structure_id).is_some() {
            return Err(
                PlanetError::StructureAlreadyExists {
                    structure: structure_id.clone(),
                    planet: self.id.clone(),
                },
            );
        }
        let structure_definition = match structure_config.get(structure_id) {
            Some(d) => d,
            None => {
                return Err(
                    PlanetError::StructureDefinitionNotFound { structure: structure_id.clone() },
                );
            },
        };
        if structure_definition.upgrade_time.len() == 0 || structure_definition.costs.len() == 0 {
            return Err(
                PlanetError::StructureError(
                    StructureError::InvalidLevel {
                        structure_name: structure_definition.name.clone(),
                        level: 0,
                        max_level: structure_definition.max_level,
                    },
                ),
            );
        }
        let build_time = structure_definition.upgrade_time[0];
        let build_cost = structure_definition.costs[0];
        if !self.available_resources.has_enough(&build_cost) {
            return Err(PlanetError::NotEnoughResources { name: self.name.clone(), cost: build_cost });
        }
        Ok(BuildInfo { cost: build_cost, turns: build_time })
    }

    /// Installs a finished structure of kind `structure_id` at level 1. The
    /// planet stays as it is where the kind is unknown or has no first level.
    pub fn complete_build_structure(
        &mut self,
        structure_id: String,
        structure_config: &StructureConfig,
    ) -> (r: Result<(), PlanetError>)
        ensures
            (final(self).deep_view(), view_error(r)) == old(self).deep_view().build_completed(
                structure_id@,
                structure_config.deep_view(),
            ),
            old(self).deep_view().wf() ==> final(self).deep_view().wf(),
    {
        let structure_definition = match structure_config.get(&structure_id) {
            Some(d) => d,
            None => {
                return Err(PlanetError::StructureDefinitionNotFound { structure: structure_id });
            },
        };
        if structure_definition.max_level < 1 || structure_definition.hitpoints.len() < 1
            || structure_definition.production.len() < 1
            || structure_definition.storage_capacity.len() < 1 {
            return Err(
                PlanetError::StructureError(
                    StructureError::InvalidLevel {
                        structure_name: structure_definition.name.clone(),
                        level: 1,
                        max_level: structure_definition.max_level,
                    },
                ),
            );
        }
        let structure = match Structure::new_at_level(structure_definition, 1) {
            Ok(s) => s,
            Err(e) => {
                return Err(PlanetError::StructureError(e));
            },
        };
        let shield = str_eq(structure_id.as_str(), "defense_shield");
        self.install(structure);
        if shield {
            self.regenerate_shield();
        }
        Ok(())
    }

    /// Puts `structure` on the planet, in place of one of the same kind or last.
    pub fn install(&mut self, structure: Structure)
        ensures
            final(self).deep_view() == old(self).deep_view().with_structure(
                structure.deep_view(),
            ),
            old(self).deep_view().wf() ==> final(self).deep_view().wf(),
    {
        let ghost before = self.structures.deep_view();
        let ghost sv = structure.deep_view();
        proof {
            lemma_structure_list_idents(self.structures);
            lemma_index_in(structure_ids(before), sv.definition.id);
        }
        match find_by_id(&self.structures, &structure.structure_definition.id) {
            Some(i) => {
                self.structures[i] = structure;
                assert(self.structures.deep_view() =~= before.update(i as int, sv));
                assert(structure_ids(self.structures.deep_view()) =~= structure_ids(before));
            },
            None => {
                self.structures.push(structure);
                assert(self.structures.deep_view() =~= before.push(sv));
                assert(distinct(structure_ids(before)) ==> distinct(
                    structure_ids(self.structures.deep_view()),
                )) by {
                    if distinct(structure_ids(before)) {
                        assert forall|i: int, j: int|
                            0 <= i < j < self.structures.len() implies structure_ids(
                            self.structures.deep_view(),
                        )[i] != structure_ids(self.structures.deep_view())[j] by {
                            if j < before.len() {
                                assert(structure_ids(before)[i] != structure_ids(before)[j]);
                            } else {
                                assert(structure_ids(before)[i] != sv.definition.id);
                            }
                        }
                    }
                }
            },
        }
    }

    /// Checks that the structure of kind `structure_id` can be upgraded and
    /// says what that costs and how long it takes. Changes nothing.
    pub fn validate_upgrade_structure(&self, structure_id: &String) -> (r: Result<
        BuildInfo,
        PlanetError,
    >)
        ensures
            view_result(r) == self.deep_view().upgrade_check(structure_id@),
    {
        proof {
            lemma_structure_list_idents(self.structures);
        }
        let structure = match find_by_id(&self.structures, structure_id) {
            Some(i) => &self.structures[i],
            None => {
                return Err(
                    PlanetError::StructureNotFound {
                        structure: structure_id.clone(),
                        planet: self.id.clone(),
                    },
                );
            },
        };
        if let StructureState::Upgrading { .. } = structure.state {
            return Err(
                PlanetError::AlreadyUpgrading {
                    structure: structure_id.clone(),
                    planet: self.id.clone(),
                },
            );
        }
        if structure.is_max_level() {
            return Err(
                PlanetError::MaxLevelReached {
                    structure: structure_id.clone(),
                    planet: self.id.clone(),
                },
            );
        }
        if (structure.level as usize) >= structure.structure_definition.upgrade_time.len() {
            return Err(PlanetError::StructureError(structure.level_error()));
        }
        let cost_to_upgrade = match structure.cost_to_upgrade() {
            Ok(c) => *c,
            Err(e) => {
                return Err(PlanetError::StructureError(e));
            },
        };
        if !self.available_resources.has_enough(&cost_to_upgrade) {
            return Err(
                PlanetError::NotEnoughResources { name: self.name.clone(), cost: cost_to_upgrade },
            );
        }
        let upgrade_time = structure.get_upgrade_time();
        Ok(BuildInfo { cost: cost_to_upgrade, turns: upgrade_time })
    }

    /// Raises the structure of kind `structure_id` by one level. The planet
    /// stays as it is where no such structure stands or its kind has no next level.
    pub fn complete_upgrade_structure(&mut self, structure_id: &String) -> (r: Result<
        (),
        PlanetError,
    >)
        ensures
            (final(self).deep_view(), view_error(r)) == old(self).deep_view().upgrade_completed(
                structure_id@,
            ),
            old(self).deep_view().wf() ==> final(self).deep_view().wf(),
    {
        let ghost before = self.structures.deep_view();
        proof {
            lemma_structure_list_idents(self.structures);
            lemma_index_in(structure_ids(before), structure_id@);
        }
        match find_by_id(&self.structures, structure_id) {
            Some(i) => {
                let s = &self.structures[i];
                let next = s.level as usize + 1;
                if s.is_max_level() || s.structure_definition.hitpoints.len() < next
                    || s.structure_definition.production.len() < next
                    || s.structure_definition.storage_capacity.len() < next {
                    return Err(PlanetError::StructureError(s.level_error()));
                }
                self.structures[i].complete_upgrade();
                assert(self.structures.deep_view() =~= before.update(
                    i as int,
                    before[i as int].raised_to((before[i as int].level + 1) as u16),
                ));
                assert(structure_ids(self.structures.deep_view()) =~= structure_ids(before));
                Ok(())
            },
            None => Err(
                PlanetError::StructureNotFound {
                    structure: structure_id.clone(),
                    planet: self.id.clone(),
                },
            ),
        }
    }

    /// Lets one turn pass over the planet on its own: sums capacity and rate
    /// over the operational structures, lets each of these draw energy and
    /// produce, lets every structure advance, and rests the shield.
    #[verifier::loop_isolation(false)]
    pub fn process_turn(&mut self)
        requires
            forall|i: int|
                0 <= i < old(self).structures.len() ==> {
                    let s = #[trigger] old(self).deep_view().structures[i];
                    s.can_pass_turn() && (s.state is Operational ==> 1 <= s.level
                        <= s.definition.energy_consumption.len())
                },
        ensures
            final(self).deep_view() == old(self).deep_view().after_turn(),
    {
        let ghost before = self.deep_view();
        let ghost structs = before.structures;
        let n = self.structures.len();
        let mut capacity = Resources::default();
        let mut rate = Resources::default();
        let mut i: usize = 0;
        while i < n
            invariant
                i <= n,
                *self == *old(self),
                capacity == operational_storage_sum(structs, i as int),
                rate == production_sum(structs, i as int),
            decreases n - i,
        {
            let structure = &self.structures[i];
            assert(structure.deep_view() == structs[i as int]);
            if let StructureState::Operational = structure.state {
                capacity.add_assign(&structure.storage);
                rate.add_assign(&structure.production);
            }
            i += 1;
        }
        self.storage_capacity = capacity;
        self.production_rate = rate;
        let mut k: usize = 0;
        while k < n
            invariant
                k <= n,
                n == self.structures.len(),
                self.deep_view() == (PlanetView {
                    storage_capacity: capacity,
                    production_rate: rate,
                    available_resources: stock_after(
                        structs,
                        before.available_resources,
                        capacity,
                        k as int,
                    ),
                    structures: self.structures.deep_view(),
                    ..before
                }),
                forall|j: int| 0 <= j < k ==> self.structures.deep_view()[j] == structs[j].after_turn(),
                forall|j: int| k <= j < n ==> self.structures.deep_view()[j] == structs[j],
            decreases n - k,
        {
            assert(self.structures[k as int].deep_view() == structs[k as int]);
            let draw = self.structures[k].energy_consumption();
            let production = match self.structures[k].state {
                StructureState::Operational => self.structures[k].production,
                _ => Resources::default(),
            };
            self.available_resources.energy = self.available_resources.energy.saturating_sub(draw);
            self.available_resources = self.available_resources.add(&production).capped_at(
                &self.storage_capacity,
            );
            let ghost list = self.structures.deep_view();
            self.structures[k].process_turn();
            assert(self.structures.deep_view() =~= list.update(
                k as int,
                structs[k as int].after_turn(),
            ));
            k += 1;
        }
        assert(self.structures.deep_view() =~= structures_after_turn(structs));
        self.rest_shield();
    }

    /// Installs the capital and fills the stock to capacity. The planet stays
    /// as it is where the capital's kind is unknown or has no first level.
    pub fn colonize(&mut self, structure_config: &StructureConfig) -> (r: Result<(), PlanetError>)
        ensures
            (final(self).deep_view(), view_error(r)) == old(self).deep_view().colonized(
                structure_config.deep_view(),
            ),
            old(self).deep_view().wf() ==> final(self).deep_view().wf(),
    {
        let capital_id = owned("planetary_capital");
        match self.complete_build_structure(capital_id, structure_config) {
            Ok(()) => {},
            Err(e) => {
                return Err(e);
            },
        }
        self.recalculate_from_structures();
        self.available_resources = self.storage_capacity;
        Ok(())
    }

    /// Sums rate and capacity anew over the operational structures.
    #[verifier::loop_isolation(false)]
    pub fn recalculate_from_structures(&mut self)
        ensures
            final(self).deep_view() == old(self).deep_view().recalculated(),
    {
        let ghost structs = self.deep_view().structures;
        let mut rate = Resources::default();
        let mut capacity = Resources::default();
        let mut i: usize = 0;
        while i < self.structures.len()
            invariant
                i <= self.structures.len(),
                *self == *old(self),
                rate == production_sum(structs, i as int),
                capacity == operational_storage_sum(structs, i as int),
            decreases self.structures.len() - i,
        {
            let structure = &self.structures[i];
            assert(structure.deep_view() == structs[i as int]);
            if let StructureState::Operational = structure.state {
                rate.add_assign(&structure.production);
                capacity.add_assign(&structure.storage);
            }
            i += 1;
        }
        self.production_rate = rate;
        self.storage_capacity = capacity;
    }

    /// Adds one turn of production to the stock and caps it at the capacity.
    pub fn produce_resources(&mut self)
        ensures
            final(self).deep_view() == old(self).deep_view().produced(),
    {
        self.available_resources = self.available_resources.add(&self.production_rate).capped_at(
            &self.storage_capacity,
        );
    }
}

impl PlanetView {
    /// The planet with its stock filled to capacity.
    pub open spec fn filled(self) -> PlanetView {
        PlanetView { available_resources: self.storage_capacity, ..self }
    }
}

} // verus!
