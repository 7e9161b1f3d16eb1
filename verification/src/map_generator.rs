//! Growing a map: a tree of planets joined by lanes, each planet with a
//! place on the drawing grid.
use vstd::prelude::*;
use crate::chance::random_below;
use crate::ids::{distinct, find_by_id, index_in, lemma_index_in};
use crate::map::{
    GRID_HEIGHT,
    GRID_WIDTH,
    MAX_DISTANCE,
    MapSize,
    Position,
    PositionView,
    StarMap,
    StarMapView,
    lemma_planet_idents,
    lemma_position_idents,
    position_ids,
};
use crate::lanes::{
    grown_with,
    is_tree,
    lemma_grown_ids,
    lemma_grown_tree,
    name_ids,
    named,
    untouched,
};
use crate::names::{NameGenerator, NameGeneratorError, extends, fresh_name};
use crate::planet::{Connection, ConnectionView, Planet, PlanetView, planet_ids};
use crate::player::lemma_distinct_push;
use crate::resources::Resources;
use crate::utils::{name_id, name_to_id};

verus! {

/// Why a map cannot be grown.
#[derive(Clone, Copy, Debug, PartialEq, Eq, Structural)]
pub enum MapError {
    PlanetNameGeneratorError(NameGeneratorError),
}

impl MapError {
    /// The error as one line of text.
    pub fn message(&self) -> (s: String)
        ensures
            s@ == crate::names::exhausted_text(),
    {
        match self {
            MapError::PlanetNameGeneratorError(e) => e.message(),
        }
    }
}

/// The distance between two numbers.
pub open spec fn gap(a: u8, b: u8) -> int {
    if a >= b {
        a - b
    } else {
        b - a
    }
}

/// The length, in turns, of a lane between two places: one turn per 32
/// cells of distance along the grid's axes, rounded up, at least 1 and at most 5.
pub open spec fn lane_length(px: u8, py: u8, x: u8, y: u8) -> u8 {
    let scaled = (gap(px, x) + gap(py, y) + 31) / 32;
    if scaled < 1 {
        1
    } else if scaled > MAX_DISTANCE {
        MAX_DISTANCE
    } else {
        scaled as u8
    }
}

/// A planet without owner, structures or stock.
pub open spec fn fresh_planet(id: Seq<char>, name: Seq<char>, connections: Seq<ConnectionView>) -> PlanetView {
    PlanetView {
        id,
        name,
        connections,
        owner: None,
        structures: Seq::empty(),
        production_rate: Resources::nothing(),
        available_resources: Resources::nothing(),
        storage_capacity: Resources::nothing(),
        shield_hp: 0,
        shield_regen_timer: 0,
    }
}

/// The planets after `p` was stored: in place of the planet of the same name, or last.
pub open spec fn stored_planet(planets: Seq<PlanetView>, p: PlanetView) -> Seq<PlanetView> {
    let i = index_in(planet_ids(planets), p.id);
    if i >= 0 {
        planets.update(i, p)
    } else {
        planets.push(p)
    }
}

/// The places after `p` was stored: in place of the place of the same planet, or last.
pub open spec fn stored_position(places: Seq<PositionView>, p: PositionView) -> Seq<PositionView> {
    let i = index_in(position_ids(places), p.planet_id);
    if i >= 0 {
        places.update(i, p)
    } else {
        places.push(p)
    }
}

/// Whether every lane of every planet takes between 1 and 5 turns.
pub open spec fn lanes_bounded(planets: Seq<PlanetView>) -> bool {
    forall|i: int, k: int|
        0 <= i < planets.len() && 0 <= k < planets[i].connections.len() ==> 1 <= (
        #[trigger] planets[i].connections[k]).distance <= MAX_DISTANCE
}

impl StarMapView {
    /// Planets and places carry distinct names, every planet has a place on
    /// the grid, and every lane takes between 1 and 5 turns.
    pub open spec fn charted(self) -> bool {
        &&& distinct(planet_ids(self.planets))
        &&& distinct(position_ids(self.planet_positions))
        &&& forall|i: int|
            0 <= i < self.planets.len() ==> index_in(
                position_ids(self.planet_positions),
                #[trigger] planet_ids(self.planets)[i],
            ) >= 0
        &&& self.drawable()
        &&& lanes_bounded(self.planets)
    }

    /// The place of the planet `id`.
    pub open spec fn place(self, id: Seq<char>) -> PositionView {
        self.planet_positions[index_in(position_ids(self.planet_positions), id)]
    }

    /// The map after a planet named `name` was placed at `(x, y)` and joined
    /// to the planet at position `parent` by a lane in both directions.
    pub open spec fn grown(self, name: Seq<char>, parent: int, x: u8, y: u8) -> StarMapView {
        let id = name_id(name);
        let parent_id = self.planets[parent].id;
        let from = self.place(parent_id);
        let d = lane_length(from.x, from.y, x, y);
        let planets = stored_planet(
            self.planets,
            fresh_planet(id, name, seq![ConnectionView { to: parent_id, distance: d }]),
        );
        let j = index_in(planet_ids(planets), parent_id);
        StarMapView {
            planets: planets.update(
                j,
                PlanetView {
                    connections: planets[j].connections.push(
                        ConnectionView { to: id, distance: d },
                    ),
                    ..planets[j]
                },
            ),
            planet_positions: stored_position(
                self.planet_positions,
                PositionView { planet_id: id, x, y },
            ),
            ..self
        }
    }
}

/// The length of a lane between two places.
pub fn lane_between(px: u8, py: u8, x: u8, y: u8) -> (d: u8)
    requires
        px < GRID_WIDTH,
        x < GRID_WIDTH,
        py < GRID_HEIGHT,
        y < GRID_HEIGHT,
    ensures
        d == lane_length(px, py, x, y),
        1 <= d <= MAX_DISTANCE,
{
    let norm: u8 = (GRID_HEIGHT + GRID_WIDTH) / MAX_DISTANCE;
    let dx: u8 = if px >= x {
        px - x
    } else {
        x - px
    };
    let dy: u8 = if py >= y {
        py - y
    } else {
        y - py
    };
    let distance: u8 = dx + dy;
    let scaled: u8 = (distance + norm - 1) / norm;
    if scaled < 1 {
        1
    } else if scaled > MAX_DISTANCE {
        MAX_DISTANCE
    } else {
        scaled
    }
}

impl StarMap {
    /// A map of one planet, named `name`, at `(x, y)`.
    pub fn seeded(size: MapSize, name: String, x: u8, y: u8) -> (r: Self)
        requires
            x < GRID_WIDTH,
            y < GRID_HEIGHT,
        ensures
            r.deep_view() == (StarMapView {
                planets: seq![fresh_planet(name_id(name@), name@, Seq::empty())],
                planet_positions: seq![PositionView { planet_id: name_id(name@), x, y }],
                size,
            }),
            r.deep_view().charted(),
    {
        let id = name_to_id(name.as_str());
        let lanes: Vec<Connection> = Vec::new();
        assert(lanes.deep_view() =~= Seq::<ConnectionView>::empty());
        let root = Planet::new(id.clone(), name, None, lanes);
        let mut planets: Vec<Planet> = Vec::new();
        planets.push(root);
        let mut planet_positions: Vec<Position> = Vec::new();
        planet_positions.push(Position { planet_id: id, x, y });
        let map = StarMap { planets, planet_positions, size };
        proof {
            let v = map.deep_view();
            assert(v.planets =~= seq![fresh_planet(name_id(name@), name@, Seq::empty())]);
            assert(v.planet_positions =~= seq![PositionView { planet_id: name_id(name@), x, y }]);
            lemma_index_in(position_ids(v.planet_positions), name_id(name@));
            assert(position_ids(v.planet_positions)[0] == name_id(name@));
        }
        map
    }

    /// Places a planet named `name` at `(x, y)` and joins it to the planet
    /// at position `parent` by a lane in both directions.
    pub fn attach(&mut self, name: String, parent: usize, x: u8, y: u8)
        requires
            old(self).deep_view().charted(),
            parent < old(self).planets.len(),
            x < GRID_WIDTH,
            y < GRID_HEIGHT,
        ensures
            final(self).deep_view() == old(self).deep_view().grown(name@, parent as int, x, y),
            final(self).deep_view().charted(),
            old(self).planets.len() <= final(self).planets.len() <= old(self).planets.len() + 1,
    {
        let ghost before = self.deep_view();
        let id = name_to_id(name.as_str());
        assert(before.planets[parent as int] == self.planets[parent as int].deep_view());
        let parent_id = self.planets[parent].id.clone();
        proof {
            lemma_planet_idents(self.planets);
            lemma_position_idents(self.planet_positions);
            assert(planet_ids(before.planets)[parent as int] == parent_id@);
            lemma_index_in(position_ids(before.planet_positions), parent_id@);
            lemma_index_in(planet_ids(before.planets), id@);
            lemma_index_in(position_ids(before.planet_positions), id@);
        }
        let k = find_by_id(&self.planet_positions, &parent_id).unwrap();
        assert(before.planet_positions[k as int] == self.planet_positions[k as int].deep_view());
        let d = lane_between(self.planet_positions[k].x, self.planet_positions[k].y, x, y);
        let mut lanes: Vec<Connection> = Vec::new();
        lanes.push(Connection { to: parent_id.clone(), distance: d });
        assert(lanes.deep_view() =~= seq![ConnectionView { to: parent_id@, distance: d }]);
        let planet = Planet::new(id.clone(), name, None, lanes);
        let ghost pv = fresh_planet(id@, name@, seq![ConnectionView { to: parent_id@, distance: d }]);
        assert(planet.deep_view() == pv);
        match find_by_id(&self.planets, &id) {
            Some(i) => {
                self.planets[i] = planet;
                assert(self.planets.deep_view() =~= before.planets.update(i as int, pv));
            },
            None => {
                self.planets.push(planet);
                assert(self.planets.deep_view() =~= before.planets.push(pv));
            },
        }
        let ghost planets1 = self.planets.deep_view();
        proof {
            assert(planets1 == stored_planet(before.planets, pv));
            lemma_planet_idents(self.planets);
            if index_in(planet_ids(before.planets), id@) >= 0 {
                assert(planet_ids(planets1) =~= planet_ids(before.planets));
            } else {
                assert(planet_ids(planets1) =~= planet_ids(before.planets).push(id@));
                lemma_distinct_push(planet_ids(before.planets), id@);
            }
            assert(planet_ids(planets1)[parent as int] == parent_id@);
            lemma_index_in(planet_ids(planets1), parent_id@);
        }
        let j = find_by_id(&self.planets, &parent_id).unwrap();
        assert(planets1[j as int] == self.planets[j as int].deep_view());
        self.planets[j].add_connection(Connection { to: id.clone(), distance: d });
        let ghost planets2 = self.planets.deep_view();
        proof {
            assert(planets2 =~= planets1.update(
                j as int,
                PlanetView {
                    connections: planets1[j as int].connections.push(
                        ConnectionView { to: id@, distance: d },
                    ),
                    ..planets1[j as int]
                },
            ));
            assert(planet_ids(planets2) =~= planet_ids(planets1));
        }
        let place = Position { planet_id: id, x, y };
        let ghost places0 = before.planet_positions;
        match find_by_id(&self.planet_positions, &place.planet_id) {
            Some(i) => {
                self.planet_positions[i] = place;
                assert(self.planet_positions.deep_view() =~= places0.update(
                    i as int,
                    PositionView { planet_id: id@, x, y },
                ));
                assert(position_ids(self.planet_positions.deep_view()) =~= position_ids(places0));
            },
            None => {
                self.planet_positions.push(place);
                assert(self.planet_positions.deep_view() =~= places0.push(
                    PositionView { planet_id: id@, x, y },
                ));
                proof {
                    assert(position_ids(self.planet_positions.deep_view()) =~= position_ids(
                        places0,
                    ).push(id@));
                    lemma_distinct_push(position_ids(places0), id@);
                }
            },
        }
        proof {
            let after = self.deep_view();
            let places = after.planet_positions;
            assert forall|i: int| 0 <= i < places.len() implies (#[trigger] places[i]).x
                < GRID_WIDTH && places[i].y < GRID_HEIGHT by {
                if i < places0.len() && places[i] == places0[i] {
                    assert(places0[i].x < GRID_WIDTH);
                }
            }
            assert forall|i: int| 0 <= i < after.planets.len() implies index_in(
                position_ids(places),
                #[trigger] planet_ids(after.planets)[i],
            ) >= 0 by {
                let key = planet_ids(after.planets)[i];
                lemma_index_in(position_ids(places), key);
                if key == id@ {
                    if index_in(position_ids(places0), id@) >= 0 {
                        assert(position_ids(places)[index_in(position_ids(places0), id@)] == id@);
                    } else {
                        assert(position_ids(places)[places0.len() as int] == id@);
                    }
                } else {
                    assert(i < before.planets.len());
                    assert(planet_ids(before.planets)[i] == key);
                    let at = index_in(position_ids(places0), key);
                    lemma_index_in(position_ids(places0), key);
                    assert(position_ids(places)[at] == key);
                }
            }
            assert forall|i: int, k: int|
                0 <= i < after.planets.len() && 0 <= k
                    < after.planets[i].connections.len() implies 1 <= (
            #[trigger] after.planets[i].connections[k]).distance <= MAX_DISTANCE by {
                if i == j {
                    if k < planets1[i].connections.len() {
                        if i < before.planets.len() && planets1[i] == before.planets[i] {
                            assert(1 <= before.planets[i].connections[k].distance <= MAX_DISTANCE);
                        }
                    }
                } else if i < before.planets.len() && planets1[i] == before.planets[i] {
                    assert(1 <= before.planets[i].connections[k].distance <= MAX_DISTANCE);
                }
            }
        }
    }

    /// Grows a map of `num_planets` planets: a first planet somewhere inside
    /// the grid, then planet after planet, each at a random place and joined
    /// to a random planet that is already there. Every planet takes a fresh
    /// name from the generator; the work ends without a map only where the
    /// generator, for the name it picked, has nothing left to hand out,
    /// which takes eleven names in use. A planet whose name gives the
    /// identifier of an earlier one takes its place, so there are as many
    /// planets as the names give distinct identifiers; where no two names
    /// give one identifier the planets carry the names in order and form a
    /// tree, each lane with a lane of the same length back.
    #[verifier::loop_isolation(false)]
    pub fn grow(num_planets: u32, size: MapSize, name_generator: &mut NameGenerator) -> (r: Result<
        Self,
        MapError,
    >)
        requires
            num_planets >= 1,
            old(name_generator).name_parts.prefixes.len() > 0,
            old(name_generator).name_parts.suffixes.len() > 0,
        ensures
            final(name_generator).name_parts == old(name_generator).name_parts,
            extends(
                final(name_generator).used_names.deep_view(),
                old(name_generator).used_names.deep_view(),
            ),
            distinct(old(name_generator).used_names.deep_view()) ==> distinct(
                final(name_generator).used_names.deep_view(),
            ),
            match r {
                Ok(map) => map.deep_view().charted() && map.size == size && 1 <= map.planets.len()
                    <= num_planets && (num_planets == 1 ==> map.deep_view().planets[0].connections.len()
                    == 0) && final(name_generator).used_names.len() == old(
                    name_generator,
                ).used_names.len() + num_planets && grown_with(
                    map.deep_view().planets,
                    final(name_generator).used_names.deep_view().skip(
                        old(name_generator).used_names.len() as int,
                    ),
                ),
                Err(e) => e == MapError::PlanetNameGeneratorError(
                    NameGeneratorError::AllVariantsExhausted,
                ) && final(name_generator).used_names.len() < old(name_generator).used_names.len()
                    + num_planets && final(name_generator).can_run_out(),
            },
            old(name_generator).used_names.len() + num_planets <= 11 ==> r.is_ok(),
    {
        let ghost used0 = name_generator.used_names.deep_view();
        assert(used0.len() == name_generator.used_names.len());
        let root_name = match name_generator.generate() {
            Ok(n) => n,
            Err(e) => {
                proof {
                    assert(name_generator.used_names.deep_view().subrange(0, used0.len() as int)
                        =~= used0);
                    assert(name_generator.used_names.deep_view().len()
                        == name_generator.used_names.len());
                    lemma_same_parts_run_out(*old(name_generator), *name_generator);
                }
                return Err(MapError::PlanetNameGeneratorError(e));
            },
        };
        proof {
            lemma_fresh_keeps_distinct(used0, root_name@);
            assert(used0.push(root_name@).subrange(0, used0.len() as int) =~= used0);
        }
        let x = 1 + random_below((GRID_WIDTH - 2) as usize);
        let y = 1 + random_below((GRID_HEIGHT - 2) as usize);
        let ghost mut handed: Seq<Seq<char>> = seq![root_name@];
        let mut map = Self::seeded(size, root_name, x as u8, y as u8);
        proof {
            let planets = map.deep_view().planets;
            assert(planet_ids(planets) =~= name_ids(handed));
            assert(planets.drop_last() =~= Seq::<PlanetView>::empty());
            assert(crate::lanes::lane_count(planets.drop_last()) == 0);
            assert(name_generator.used_names.deep_view() =~= used0 + handed);
        }
        let mut made: u32 = 1;
        while made < num_planets
            invariant
                handed.len() == made,
                name_generator.used_names.deep_view() == used0 + handed,
                untouched(map.deep_view().planets),
                planet_ids(map.deep_view().planets).to_set() == name_ids(handed).to_set(),
                distinct(name_ids(handed)) ==> named(map.deep_view().planets, handed) && is_tree(
                    map.deep_view().planets,
                ),
                1 <= made <= num_planets,
                map.deep_view().charted(),
                map.size == size,
                1 <= map.planets.len() <= made,
                made == 1 ==> map.deep_view().planets[0].connections.len() == 0,
                name_generator.name_parts == old(name_generator).name_parts,
                extends(name_generator.used_names.deep_view(), used0),
                name_generator.used_names.deep_view().len() == used0.len() + made,
                used0.len() == old(name_generator).used_names.len(),
                distinct(used0) ==> distinct(name_generator.used_names.deep_view()),
            decreases num_planets - made,
        {
            let ghost used = name_generator.used_names.deep_view();
            let ghost before = *name_generator;
            let name = match name_generator.generate() {
                Ok(n) => n,
                Err(e) => {
                    proof {
                        assert(name_generator.used_names.deep_view().len()
                            == name_generator.used_names.len());
                        lemma_same_parts_run_out(before, *name_generator);
                    }
                    return Err(MapError::PlanetNameGeneratorError(e));
                },
            };
            proof {
                lemma_fresh_keeps_distinct(used, name@);
                assert(used.push(name@).subrange(0, used0.len() as int) =~= used.subrange(
                    0,
                    used0.len() as int,
                ));
            }
            let parent = random_below(map.planets.len());
            let x = random_below(GRID_WIDTH as usize);
            let y = random_below(GRID_HEIGHT as usize);
            let ghost m = map.deep_view();
            proof {
                let id = name_id(name@);
                let ids = name_ids(handed);
                let more = name_ids(handed.push(name@));
                assert(more =~= ids.push(id));
                assert(name_generator.used_names.deep_view() =~= used0 + handed.push(name@));
                lemma_grown_ids(m, name@, parent as int, x as u8, y as u8);
                lemma_index_in(planet_ids(m.planets), id);
                ids.lemma_push_to_set_commute(id);
                planet_ids(m.planets).lemma_push_to_set_commute(id);
                if index_in(planet_ids(m.planets), id) >= 0 {
                    assert(planet_ids(m.planets).contains(id));
                    assert(ids.to_set().contains(id));
                    assert(ids.to_set().insert(id) =~= ids.to_set());
                    let t = choose|t: int| 0 <= t < ids.len() && ids[t] == id;
                    assert(more[t] == more[ids.len() as int]);
                } else if distinct(more) {
                    assert forall|a: int, b: int| 0 <= a < b < ids.len() implies ids[a]
                        != ids[b] by {
                        assert(more[a] != more[b]);
                    }
                    lemma_grown_tree(m, handed, name@, parent as int, x as u8, y as u8);
                }
                handed = handed.push(name@);
            }
            map.attach(name, parent, x as u8, y as u8);
            made += 1;
        }
        proof {
            let used = name_generator.used_names.deep_view();
            assert(used.len() == name_generator.used_names.len());
            assert(used.skip(used0.len() as int) =~= handed);
            let ids = planet_ids(map.deep_view().planets);
            ids.unique_seq_to_set();
        }
        Ok(map)
    }

    /// Grows a map of the given size: as many planets as the size asks for,
    /// each with a fresh name from the generator; without a map only where
    /// the generator, for the name it picked, has nothing left to hand out.
    /// Where no two names give one identifier the planets form a tree.
    pub fn generate(size: MapSize, name_generator: &mut NameGenerator) -> (r: Result<
        Self,
        MapError,
    >)
        requires
            old(name_generator).name_parts.prefixes.len() > 0,
            old(name_generator).name_parts.suffixes.len() > 0,
        ensures
            final(name_generator).name_parts == old(name_generator).name_parts,
            extends(
                final(name_generator).used_names.deep_view(),
                old(name_generator).used_names.deep_view(),
            ),
            distinct(old(name_generator).used_names.deep_view()) ==> distinct(
                final(name_generator).used_names.deep_view(),
            ),
            match r {
                Ok(map) => map.deep_view().charted() && map.size == size && 1 <= map.planets.len()
                    <= size.planets() && final(name_generator).used_names.len() == old(
                    name_generator,
                ).used_names.len() + size.planets() && grown_with(
                    map.deep_view().planets,
                    final(name_generator).used_names.deep_view().skip(
                        old(name_generator).used_names.len() as int,
                    ),
                ),
                Err(e) => e == MapError::PlanetNameGeneratorError(
                    NameGeneratorError::AllVariantsExhausted,
                ) && final(name_generator).used_names.len() < old(name_generator).used_names.len()
                    + size.planets() && final(name_generator).can_run_out(),
            },
            old(name_generator).used_names.len() + size.planets() <= 11 ==> r.is_ok(),
    {
        Self::grow(size.num_planets(), size, name_generator)
    }
}

/// A generator that can run out still can where only its names in use are
/// looked at: the parts and the names in use decide.
pub proof fn lemma_same_parts_run_out(before: NameGenerator, after: NameGenerator)
    requires
        before.can_run_out(),
        after.name_parts == before.name_parts,
        after.used_names.deep_view() == before.used_names.deep_view(),
    ensures
        after.can_run_out(),
{
    let (p, s) = choose|p: int, s: int|
        0 <= p < before.name_parts.prefixes.len() && 0 <= s < before.name_parts.suffixes.len()
            && fresh_name(before.used_names.deep_view(), #[trigger] before.base(p, s)).is_none();
    assert(after.base(p, s) == before.base(p, s));
}

/// A name that is not in use stays apart from the names in use when it joins them.
pub proof fn lemma_fresh_keeps_distinct(used: Seq<Seq<char>>, name: Seq<char>)
    requires
        !used.contains(name),
    ensures
        distinct(used) ==> distinct(used.push(name)),
{
    if distinct(used) {
        lemma_index_in(used, name);
        if index_in(used, name) >= 0 {
            assert(used.contains(used[index_in(used, name)]));
        }
        lemma_distinct_push(used, name);
    }
}

/// Why a graph of planets cannot be grown.
#[derive(Clone, Copy, Debug, PartialEq, Eq, Structural)]
pub enum GraphGeneratorError {
    InvalidPlanetCount,
    NameGeneratorError(NameGeneratorError),
}

/// Grows graphs of a fixed number of planets.
#[derive(Debug)]
pub struct GraphGenerator {
    pub num_planets: u32,
    pub name_generator: NameGenerator,
}

impl GraphGenerator {
    /// A generator of graphs of `num_planets` planets, which must be at least one.
    pub fn new(num_planets: u32, name_generator: NameGenerator) -> (r: Result<
        Self,
        GraphGeneratorError,
    >)
        ensures
            match r {
                Ok(g) => num_planets >= 1 && g.num_planets == num_planets && g.name_generator
                    == name_generator,
                Err(e) => num_planets == 0 && e == GraphGeneratorError::InvalidPlanetCount,
            },
    {
        if num_planets == 0 {
            return Err(GraphGeneratorError::InvalidPlanetCount);
        }
        Ok(GraphGenerator { num_planets, name_generator })
    }

    /// Grows a tree of planets: every planet but the first is joined, in
    /// both directions, to a planet made before it. Where two names give
    /// one identifier the later planet takes the earlier one's place.
    pub fn generate(&mut self) -> (r: Result<Vec<Planet>, GraphGeneratorError>)
        requires
            old(self).num_planets >= 1,
            old(self).name_generator.name_parts.prefixes.len() > 0,
            old(self).name_generator.name_parts.suffixes.len() > 0,
        ensures
            final(self).num_planets == old(self).num_planets,
            final(self).name_generator.name_parts == old(self).name_generator.name_parts,
            extends(
                final(self).name_generator.used_names.deep_view(),
                old(self).name_generator.used_names.deep_view(),
            ),
            match r {
                Ok(planets) => distinct(planet_ids(planets.deep_view())) && lanes_bounded(
                    planets.deep_view(),
                ) && 1 <= planets.len() <= old(self).num_planets && (old(self).num_planets == 1
                    ==> planets.deep_view()[0].connections.len() == 0) && final(self).name_generator.used_names.len()
                    == old(self).name_generator.used_names.len() + old(self).num_planets
                    && grown_with(
                    planets.deep_view(),
                    final(self).name_generator.used_names.deep_view().skip(
                        old(self).name_generator.used_names.len() as int,
                    ),
                ),
                Err(e) => e == GraphGeneratorError::NameGeneratorError(
                    NameGeneratorError::AllVariantsExhausted,
                ) && final(self).name_generator.can_run_out(),
            },
            old(self).name_generator.used_names.len() + old(self).num_planets <= 11 ==> r.is_ok(),
    {
        match StarMap::grow(self.num_planets, MapSize::Small, &mut self.name_generator) {
            Ok(map) => Ok(map.planets),
            Err(MapError::PlanetNameGeneratorError(e)) => Err(
                GraphGeneratorError::NameGeneratorError(e),
            ),
        }
    }
}

} // verus!
