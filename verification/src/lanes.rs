//! The shape of a grown map: lanes that run both ways and join the planets
//! into a tree.
use vstd::prelude::*;
use crate::ids::{distinct, index_in, lemma_index_in};
use crate::map::StarMapView;
use crate::map_generator::{fresh_planet, stored_planet};
use crate::planet::{ConnectionView, PlanetView, planet_ids};
use crate::utils::name_id;

verus! {

/// The identifiers that belong to the names, in order.
pub open spec fn name_ids(names: Seq<Seq<char>>) -> Seq<Seq<char>> {
    Seq::new(names.len(), |i: int| name_id(names[i]))
}

/// Whether the `k`-th lane of the `i`-th planet leads to a planet that has
/// a lane of the same length back.
pub open spec fn lane_back(planets: Seq<PlanetView>, i: int, k: int) -> bool {
    let c = planets[i].connections[k];
    let j = index_in(planet_ids(planets), c.to);
    j >= 0 && planets[j].connections.contains(
        ConnectionView { to: planets[i].id, distance: c.distance },
    )
}

/// Whether every lane has a lane of the same length back.
pub open spec fn lanes_paired(planets: Seq<PlanetView>) -> bool {
    forall|i: int, k: int|
        0 <= i < planets.len() && 0 <= k < planets[i].connections.len() ==> #[trigger] lane_back(
            planets,
            i,
            k,
        )
}

/// The number of lanes, each direction counted.
pub open spec fn lane_count(planets: Seq<PlanetView>) -> int
    decreases planets.len(),
{
    if planets.len() == 0 {
        0
    } else {
        lane_count(planets.drop_last()) + planets.last().connections.len()
    }
}

/// Whether the first lane of the `i`-th planet leads to a planet before it.
pub open spec fn leads_back(planets: Seq<PlanetView>, i: int) -> bool {
    planets[i].connections.len() > 0 && 0 <= index_in(
        planet_ids(planets),
        planets[i].connections[0].to,
    ) < i
}

/// Whether every planet but the first is joined to a planet before it, so
/// that each can be reached from the first.
pub open spec fn rooted(planets: Seq<PlanetView>) -> bool {
    forall|i: int| 1 <= i < planets.len() ==> #[trigger] leads_back(planets, i)
}

/// Whether the planets form a tree: every lane runs both ways with one
/// length, every planet can be reached from the first, and the lanes, each
/// direction counted, number twice the planets less two.
pub open spec fn is_tree(planets: Seq<PlanetView>) -> bool {
    &&& lanes_paired(planets)
    &&& rooted(planets)
    &&& lane_count(planets) == 2 * (planets.len() - 1)
}

/// Whether the planets carry the names, one each and in order.
pub open spec fn named(planets: Seq<PlanetView>, names: Seq<Seq<char>>) -> bool {
    &&& planets.len() == names.len()
    &&& forall|i: int|
        0 <= i < planets.len() ==> (#[trigger] planets[i]).name == names[i] && planets[i].id
            == name_id(names[i])
}

/// Whether every planet is as it was made: without owner, structures or stock.
pub open spec fn untouched(planets: Seq<PlanetView>) -> bool {
    forall|i: int|
        0 <= i < planets.len() ==> #[trigger] planets[i] == fresh_planet(
            planets[i].id,
            planets[i].name,
            planets[i].connections,
        )
}

/// What holds of the planets of a map that was grown with the names
/// `names`, whatever places and parents were picked. The planets are as
/// they were made, and there are as many as the names give distinct
/// identifiers. Where no two names give one identifier, the planets carry
/// the names in order and form a tree.
pub open spec fn grown_with(planets: Seq<PlanetView>, names: Seq<Seq<char>>) -> bool {
    &&& untouched(planets)
    &&& planet_ids(planets).to_set() == name_ids(names).to_set()
    &&& planets.len() == name_ids(names).to_set().len()
    &&& distinct(name_ids(names)) ==> named(planets, names) && is_tree(planets)
}

/// In a list without repetition each key is found where it stands.
pub proof fn lemma_found_in_place(keys: Seq<Seq<char>>, j: int)
    requires
        distinct(keys),
        0 <= j < keys.len(),
    ensures
        index_in(keys, keys[j]) == j,
{
    lemma_index_in(keys, keys[j]);
}

/// Replacing one planet changes the number of lanes by the difference of
/// its own.
pub proof fn lemma_lane_count_update(planets: Seq<PlanetView>, i: int, p: PlanetView)
    requires
        0 <= i < planets.len(),
    ensures
        lane_count(planets.update(i, p)) == lane_count(planets) - planets[i].connections.len()
            + p.connections.len(),
    decreases planets.len(),
{
    if i == planets.len() - 1 {
        assert(planets.update(i, p).drop_last() =~= planets.drop_last());
    } else {
        lemma_lane_count_update(planets.drop_last(), i, p);
        assert(planets.update(i, p).drop_last() =~= planets.drop_last().update(i, p));
    }
}

/// The identifiers after a planet was placed: as before where its
/// identifier was there already, one more otherwise.
pub proof fn lemma_grown_ids(m: StarMapView, name: Seq<char>, parent: int, x: u8, y: u8)
    requires
        0 <= parent < m.planets.len(),
    ensures
        planet_ids(m.grown(name, parent, x, y).planets) == if index_in(
            planet_ids(m.planets),
            name_id(name),
        ) >= 0 {
            planet_ids(m.planets)
        } else {
            planet_ids(m.planets).push(name_id(name))
        },
        untouched(m.planets) ==> untouched(m.grown(name, parent, x, y).planets),
{
    let id = name_id(name);
    let parent_id = m.planets[parent].id;
    let from = m.place(parent_id);
    let d = crate::map_generator::lane_length(from.x, from.y, x, y);
    let pv = fresh_planet(id, name, seq![ConnectionView { to: parent_id, distance: d }]);
    let planets = stored_planet(m.planets, pv);
    lemma_index_in(planet_ids(m.planets), id);
    if index_in(planet_ids(m.planets), id) >= 0 {
        assert(planet_ids(planets) =~= planet_ids(m.planets));
    } else {
        assert(planet_ids(planets) =~= planet_ids(m.planets).push(id));
    }
    assert(planet_ids(planets)[parent] == parent_id);
    lemma_index_in(planet_ids(planets), parent_id);
    let after = m.grown(name, parent, x, y).planets;
    assert(planet_ids(after) =~= planet_ids(planets));
    if untouched(m.planets) {
        assert forall|i: int| 0 <= i < after.len() implies #[trigger] after[i] == fresh_planet(
            after[i].id,
            after[i].name,
            after[i].connections,
        ) by {
            if i < m.planets.len() {
                assert(m.planets[i] == fresh_planet(
                    m.planets[i].id,
                    m.planets[i].name,
                    m.planets[i].connections,
                ));
            }
        }
    }
}

/// A planet with a new identifier, joined to a tree, leaves a tree: it
/// comes last, with its name, and its one lane has a lane back.
pub proof fn lemma_grown_tree(
    m: StarMapView,
    names: Seq<Seq<char>>,
    name: Seq<char>,
    parent: int,
    x: u8,
    y: u8,
)
    requires
        distinct(planet_ids(m.planets)),
        named(m.planets, names),
        is_tree(m.planets),
        0 <= parent < m.planets.len(),
        index_in(planet_ids(m.planets), name_id(name)) < 0,
    ensures
        named(m.grown(name, parent, x, y).planets, names.push(name)),
        is_tree(m.grown(name, parent, x, y).planets),
{
    let id = name_id(name);
    let before = m.planets;
    let n = before.len() as int;
    let parent_id = before[parent].id;
    let from = m.place(parent_id);
    let d = crate::map_generator::lane_length(from.x, from.y, x, y);
    let pv = fresh_planet(id, name, seq![ConnectionView { to: parent_id, distance: d }]);
    let planets = before.push(pv);
    assert(stored_planet(before, pv) == planets);
    lemma_grown_ids(m, name, parent, x, y);
    lemma_index_in(planet_ids(before), id);
    crate::player::lemma_distinct_push(planet_ids(before), id);
    assert(planet_ids(planets) =~= planet_ids(before).push(id));
    lemma_found_in_place(planet_ids(planets), parent);
    let joined = PlanetView {
        connections: before[parent].connections.push(ConnectionView { to: id, distance: d }),
        ..before[parent]
    };
    let after = m.grown(name, parent, x, y).planets;
    assert(after == planets.update(parent, joined));
    let ids = planet_ids(after);
    assert(ids =~= planet_ids(before).push(id));
    assert forall|i: int| 0 <= i < after.len() implies (#[trigger] after[i]).name == names.push(
        name,
    )[i] && after[i].id == name_id(names.push(name)[i]) by {
        if i < n {
            assert(before[i].name == names[i]);
        }
    }
    assert forall|i: int, k: int|
        0 <= i < after.len() && 0 <= k < after[i].connections.len() implies #[trigger] lane_back(
        after,
        i,
        k,
    ) by {
        let c = after[i].connections[k];
        if i == n {
            lemma_found_in_place(ids, parent);
            assert(after[parent].connections[before[parent].connections.len() as int]
                == ConnectionView { to: id, distance: d });
        } else if i == parent && k == before[parent].connections.len() {
            lemma_found_in_place(ids, n);
            assert(after[n].connections[0] == ConnectionView { to: parent_id, distance: d });
        } else {
            assert(lane_back(before, i, k));
            assert(before[i].connections[k] == c);
            let j = index_in(planet_ids(before), c.to);
            lemma_index_in(planet_ids(before), c.to);
            assert(ids[j] == c.to);
            lemma_found_in_place(ids, j);
            let back = ConnectionView { to: before[i].id, distance: c.distance };
            let at = choose|at: int|
                0 <= at < before[j].connections.len() && before[j].connections[at] == back;
            assert(after[j].connections[at] == back);
        }
    }
    assert forall|i: int| 1 <= i < after.len() implies #[trigger] leads_back(after, i) by {
        if i == n {
            lemma_found_in_place(ids, parent);
        } else {
            assert(leads_back(before, i));
            let to = before[i].connections[0].to;
            assert(after[i].connections[0].to == to);
            let j = index_in(planet_ids(before), to);
            lemma_index_in(planet_ids(before), to);
            assert(ids[j] == to);
            lemma_found_in_place(ids, j);
        }
    }
    lemma_lane_count_update(planets, parent, joined);
    assert(planets.drop_last() =~= before);
}

} // verus!
