//! The table of ship types.
use vstd::prelude::*;
use std::sync::Arc;
use crate::ids::{Identified, idents, distinct, index_in, lemma_index_in, find_by_id, share};
use crate::resources::Resources;
use crate::text::owned;
use vstd::string::*;

verus! {

/// The identifier of a ship type.
pub type ShipId = String;

/// What went wrong while a table of ship types was put together.
#[derive(Debug)]
pub enum ShipConfigError {
    /// A ship type names a counter target that the table does not hold.
    InvalidCounterReference { ship_name: String, counter_id: ShipId },
}

/// What a [`ShipConfigError`] holds, with every text as its sequence of characters.
pub enum ShipConfigErrorView {
    InvalidCounterReference { ship_name: Seq<char>, counter_id: Seq<char> },
}

impl DeepView for ShipConfigError {
    type V = ShipConfigErrorView;

    open spec fn deep_view(&self) -> ShipConfigErrorView {
        match self {
            ShipConfigError::InvalidCounterReference { ship_name, counter_id } => {
                ShipConfigErrorView::InvalidCounterReference {
                    ship_name: ship_name@,
                    counter_id: counter_id@,
                }
            },
        }
    }
}

/// How a ship-table error reads in reports.
pub open spec fn ship_config_error_text(e: ShipConfigErrorView) -> Seq<char> {
    match e {
        ShipConfigErrorView::InvalidCounterReference { ship_name, counter_id } => "Ship '"@
            + ship_name + "' has invalid counter reference: '"@ + counter_id + "'"@,
    }
}

impl ShipConfigError {
    /// The error as one line of text.
    pub fn message(&self) -> (s: String)
        ensures
            s@ == ship_config_error_text(self.deep_view()),
    {
        match self {
            ShipConfigError::InvalidCounterReference { ship_name, counter_id } => {
                let mut s = owned("Ship '");
                s.append(ship_name.as_str());
                s.append("' has invalid counter reference: '");
                s.append(counter_id.as_str());
                s.append("'");
                s
            },
        }
    }
}

/// One ship type: its combat values, its price and the types it counters.
#[derive(Debug)]
pub struct ShipDefinition {
    pub id: ShipId,
    pub name: String,
    pub description: String,
    pub attack: u32,
    pub shield: u32,
    pub bombardment: u32,
    pub cost: Resources,
    pub build_time: u32,
    pub counters: Vec<ShipId>,
    pub required_shipyard_level: u16,
}

/// What a [`ShipDefinition`] holds, with every text as its sequence of characters.
pub struct ShipDefinitionView {
    pub id: Seq<char>,
    pub name: Seq<char>,
    pub description: Seq<char>,
    pub attack: u32,
    pub shield: u32,
    pub bombardment: u32,
    pub cost: Resources,
    pub build_time: u32,
    pub counters: Seq<Seq<char>>,
    pub required_shipyard_level: u16,
}

impl DeepView for ShipDefinition {
    type V = ShipDefinitionView;

    open spec fn deep_view(&self) -> ShipDefinitionView {
        ShipDefinitionView {
            id: self.id@,
            name: self.name@,
            description: self.description@,
            attack: self.attack,
            shield: self.shield,
            bombardment: self.bombardment,
            cost: self.cost,
            build_time: self.build_time,
            counters: self.counters.deep_view(),
            required_shipyard_level: self.required_shipyard_level,
        }
    }
}

impl Identified for Arc<ShipDefinition> {
    open spec fn ident(&self) -> Seq<char> {
        self.id@
    }

    fn id_ref(&self) -> (k: &String) {
        &self.id
    }
}

/// The identifiers of a table of ship types, in order.
pub open spec fn ship_def_ids(defs: Seq<ShipDefinitionView>) -> Seq<Seq<char>> {
    Seq::new(defs.len(), |i: int| defs[i].id)
}

/// The definition of the ship type `id`, where the table holds it.
pub open spec fn lookup_ship(defs: Seq<ShipDefinitionView>, id: Seq<char>) -> Option<
    ShipDefinitionView,
> {
    let i = index_in(ship_def_ids(defs), id);
    if i >= 0 {
        Some(defs[i])
    } else {
        None
    }
}

/// The table after `def` was stored: it takes the place of an entry with the
/// same identifier, or comes last.
pub open spec fn stored_ship(defs: Seq<ShipDefinitionView>, def: ShipDefinitionView) -> Seq<
    ShipDefinitionView,
> {
    let i = index_in(ship_def_ids(defs), def.id);
    if i >= 0 {
        defs.update(i, def)
    } else {
        defs.push(def)
    }
}

/// The table that results from storing `defs[..n]` one after the other.
pub open spec fn stored_ships(defs: Seq<ShipDefinitionView>, n: int) -> Seq<ShipDefinitionView>
    decreases n,
{
    if n <= 0 {
        Seq::empty()
    } else {
        stored_ship(stored_ships(defs, n - 1), defs[n - 1])
    }
}

/// The first entry `(i, j)`, in table order, whose `j`-th counter target is
/// missing from the table; `i` is `defs.len()` where every target exists.
pub open spec fn first_bad_counter(defs: Seq<ShipDefinitionView>, from: int) -> (int, int)
    decreases defs.len() - from,
{
    if from < 0 || from >= defs.len() {
        (defs.len() as int, 0)
    } else {
        let j = first_missing(defs, defs[from].counters, 0);
        if j < defs[from].counters.len() {
            (from, j)
        } else {
            first_bad_counter(defs, from + 1)
        }
    }
}

/// The first position at or after `from` in `targets` that names no entry of the table.
pub open spec fn first_missing(defs: Seq<ShipDefinitionView>, targets: Seq<Seq<char>>, from: int) -> int
    decreases targets.len() - from,
{
    if from < 0 || from >= targets.len() {
        targets.len() as int
    } else if index_in(ship_def_ids(defs), targets[from]) < 0 {
        from
    } else {
        first_missing(defs, targets, from + 1)
    }
}

/// The table of ship types, keyed by identifier.
#[derive(Debug)]
pub struct ShipConfig {
    pub ships: Vec<Arc<ShipDefinition>>,
}

impl DeepView for ShipConfig {
    type V = Seq<ShipDefinitionView>;

    open spec fn deep_view(&self) -> Seq<ShipDefinitionView> {
        self.ships.deep_view()
    }
}

/// The identifiers of the records are the identifiers of their views.
pub proof fn lemma_ship_idents(ships: Vec<Arc<ShipDefinition>>)
    ensures
        idents(ships@) == ship_def_ids(ships.deep_view()),
{
    assert(idents(ships@) =~= ship_def_ids(ships.deep_view()));
}

impl ShipConfig {
    /// No identifier occurs twice in the table.
    pub open spec fn wf(&self) -> bool {
        distinct(ship_def_ids(self.deep_view()))
    }

    /// Builds the table from definitions in the order given. A definition
    /// replaces an earlier one with the same identifier. The table is refused
    /// where a ship type counters a type that is not in it.
    #[verifier::loop_isolation(false)]
    pub fn from_definitions(definitions: Vec<ShipDefinition>) -> (r: Result<Self, ShipConfigError>)
        ensures
            ({
                let table = stored_ships(definitions.deep_view(), definitions.len() as int);
                let bad = first_bad_counter(table, 0);
                match r {
                    Ok(config) => bad.0 == table.len() && config.deep_view() == table
                        && config.wf(),
                    Err(e) => bad.0 < table.len() && e.deep_view()
                        == (ShipConfigErrorView::InvalidCounterReference {
                        ship_name: table[bad.0].name,
                        counter_id: table[bad.0].counters[bad.1],
                    }),
                }
            }),
    {
        let ghost all = definitions.deep_view();
        let mut rest = definitions;
        let mut ships: Vec<Arc<ShipDefinition>> = Vec::new();
        let mut n: usize = 0;
        while rest.len() > 0
            invariant
                n + rest.len() == all.len(),
                all.len() == definitions.len(),
                forall|j: int| 0 <= j < rest.len() ==> rest[j].deep_view() == all[n + j],
                ships.deep_view() == stored_ships(all, n as int),
                distinct(ship_def_ids(ships.deep_view())),
            decreases rest.len(),
        {
            let d = rest.remove(0);
            assert(d.deep_view() == all[n as int]);
            let ghost before = ships.deep_view();
            proof {
                lemma_ship_idents(ships);
                lemma_index_in(ship_def_ids(before), d.id@);
            }
            match find_by_id(&ships, &d.id) {
                Some(i) => {
                    ships[i] = Arc::new(d);
                    assert(ships.deep_view() =~= before.update(i as int, all[n as int]));
                    assert(ship_def_ids(ships.deep_view()) =~= ship_def_ids(before));
                },
                None => {
                    ships.push(Arc::new(d));
                    assert(ships.deep_view() =~= before.push(all[n as int]));
                    assert forall|i: int, j: int|
                        0 <= i < j < ships.len() implies ship_def_ids(ships.deep_view())[i]
                        != ship_def_ids(ships.deep_view())[j] by {
                        if j < before.len() {
                            assert(ship_def_ids(before)[i] != ship_def_ids(before)[j]);
                        } else {
                            assert(ship_def_ids(before)[i] != all[n as int].id);
                        }
                    }
                },
            }
            n += 1;
        }
        match Self::validate_counters(&ships) {
            Ok(()) => Ok(ShipConfig { ships }),
            Err(e) => Err(e),
        }
    }

    /// The definition of the ship type `id`, where the table holds it.
    pub fn get(&self, id: &ShipId) -> (r: Option<Arc<ShipDefinition>>)
        ensures
            r.deep_view() == lookup_ship(self.deep_view(), id@),
    {
        proof {
            lemma_ship_idents(self.ships);
        }
        match find_by_id(&self.ships, id) {
            Some(i) => Some(share(&self.ships[i])),
            None => None,
        }
    }

    /// Checks that every counter target of every ship type is itself in the
    /// table, and names the first one that is not.
    pub fn validate_counters(ships: &Vec<Arc<ShipDefinition>>) -> (r: Result<(), ShipConfigError>)
        ensures
            ({
                let table = ships.deep_view();
                let bad = first_bad_counter(table, 0);
                match r {
                    Ok(_) => bad.0 == table.len(),
                    Err(e) => bad.0 < table.len() && bad.1 < table[bad.0].counters.len()
                        && e.deep_view() == (ShipConfigErrorView::InvalidCounterReference {
                        ship_name: table[bad.0].name,
                        counter_id: table[bad.0].counters[bad.1],
                    }),
                }
            }),
    {
        let ghost table = ships.deep_view();
        proof {
            lemma_ship_idents(*ships);
        }
        let mut i: usize = 0;
        while i < ships.len()
            invariant
                i <= ships.len(),
                table == ships.deep_view(),
                idents(ships@) == ship_def_ids(table),
                first_bad_counter(table, 0) == first_bad_counter(table, i as int),
            decreases ships.len() - i,
        {
            let ship = &ships[i];
            let ghost targets = table[i as int].counters;
            assert(ship.counters.deep_view() == targets);
            let mut j: usize = 0;
            while j < ship.counters.len()
                invariant
                    j <= ship.counters.len(),
                    i < ships.len(),
                    table == ships.deep_view(),
                    ship == ships[i as int],
                    targets == table[i as int].counters,
                    ship.counters.deep_view() == targets,
                    idents(ships@) == ship_def_ids(table),
                    first_missing(table, targets, 0) == first_missing(table, targets, j as int),
                    first_bad_counter(table, 0) == first_bad_counter(table, i as int),
                decreases ship.counters.len() - j,
            {
                let found = find_by_id(ships, &ship.counters[j]);
                assert(ship.counters[j as int]@ == targets[j as int]);
                if found.is_none() {
                    proof {
                        assert(first_missing(table, targets, j as int) == j);
                        assert(first_bad_counter(table, i as int) == (i as int, j as int));
                    }
                    let e = ShipConfigError::InvalidCounterReference {
                        ship_name: ship.name.clone(),
                        counter_id: ship.counters[j].clone(),
                    };
                    assert(table[i as int].name == ship.name@);
                    assert(e.deep_view() == (ShipConfigErrorView::InvalidCounterReference {
                        ship_name: table[i as int].name,
                        counter_id: targets[j as int],
                    }));
                    return Err(e);
                }
                j += 1;
            }
            assert(first_missing(table, targets, j as int) == targets.len());
            i += 1;
        }
        Ok(())
    }
}

} // verus!
