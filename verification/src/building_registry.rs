//! Putting the table of building kinds together out of a table file's entries.
use vstd::prelude::*;
use vstd::string::*;
use std::sync::Arc;
use crate::building_config::{BuildingConfigError, BuildingConfigErrorView, BuildingConfigJson, BuildingDefinition, BuildingDefinitionView, BuildingRegistry, acyclic, arrow_joined, building_ids, chain, converted, converted_all, entry_defect, first_bad_entry, first_bad_owner, first_bad_prerequisite, lemma_building_idents, lemma_cycle_not_acyclic, link_at, linked, prerequisite_defect, ranked, target};
use crate::ids::{distinct, find_by_id, lemma_index_in};
use crate::player::lemma_distinct_push;

verus! {

/// Whether every prerequisite names a building of the table.
pub open spec fn resolved(defs: Seq<BuildingDefinitionView>) -> bool {
    forall|i: int, k: int|
        0 <= i < defs.len() && 0 <= k < defs[i].prerequisites.len() ==> #[trigger] target(
            defs,
            i,
            k,
        ) >= 0
}

/// Whether the buildings marked in `visited` are explored: their
/// prerequisites are marked too and rank below them.
pub open spec fn settled(defs: Seq<BuildingDefinitionView>, visited: Seq<bool>, rank: Seq<nat>) -> bool {
    &&& visited.len() == defs.len()
    &&& rank.len() == defs.len()
    &&& forall|i: int, k: int|
        0 <= i < defs.len() && visited[i] && 0 <= k < defs[i].prerequisites.len() ==> {
            let t = #[trigger] target(defs, i, k);
            0 <= t < defs.len() && visited[t] && rank[t] < rank[i]
        }
}

/// The positions of a trail as integers.
pub open spec fn trail(path: Seq<usize>) -> Seq<int> {
    Seq::new(path.len(), |m: int| path[m] as int)
}

/// The buildings that are neither explored nor on the trail.
pub open spec fn open_set(n: int, visited: Seq<bool>, path: Seq<usize>) -> Set<int> {
    Set::new(|i: int| 0 <= i < n && !visited[i] && !trail(path).contains(i))
}

/// The identifiers of the buildings of a trail.
pub open spec fn trail_ids(defs: Seq<BuildingDefinitionView>, c: Seq<int>) -> Seq<Seq<char>> {
    Seq::new(c.len(), |m: int| defs[c[m]].id)
}

/// Whether `e` reports a chain of prerequisites that comes back on itself.
pub open spec fn reports_cycle(defs: Seq<BuildingDefinitionView>, e: BuildingConfigErrorView) -> bool {
    match e {
        BuildingConfigErrorView::CircularDependency { cycle } => exists|c: Seq<int>|
            #![trigger chain(defs, c)]
            chain(defs, c) && c.len() >= 2 && c.drop_last().contains(c.last()) && cycle
                == arrow_joined(trail_ids(defs, c)),
        _ => false,
    }
}

/// A chain that meets itself rules out any ranking.
pub proof fn lemma_report_not_acyclic(defs: Seq<BuildingDefinitionView>, c: Seq<int>)
    requires
        chain(defs, c),
        c.len() >= 2,
        c.drop_last().contains(c.last()),
    ensures
        !acyclic(defs),
{
    let m = choose|m: int| 0 <= m < c.drop_last().len() && c.drop_last()[m] == c.last();
    let tail = c.subrange(m, c.len() as int);
    assert forall|x: int| 0 <= x < tail.len() - 1 implies #[trigger] link_at(defs, tail, x) by {
        assert(link_at(defs, c, m + x));
    }
    assert forall|x: int| 0 <= x < tail.len() implies 0 <= #[trigger] tail[x] < defs.len() by {
        assert(0 <= c[m + x] < defs.len());
    }
    lemma_cycle_not_acyclic(defs, tail);
}

/// Putting an open building on the trail leaves fewer open buildings, whatever else becomes explored.
pub proof fn lemma_open_set_shrinks(
    n: int,
    visited: Seq<bool>,
    path: Seq<usize>,
    current: usize,
    visited2: Seq<bool>,
)
    requires
        0 <= current < n,
        visited.len() == n,
        visited2.len() == n,
        !visited[current as int],
        !trail(path).contains(current as int),
        forall|i: int| 0 <= i < n && visited[i] ==> visited2[i],
    ensures
        open_set(n, visited2, path.push(current)).len() < open_set(n, visited, path).len(),
        open_set(n, visited, path).finite(),
{
    let big = open_set(n, visited, path);
    let small = open_set(n, visited2, path.push(current));
    vstd::set_lib::lemma_int_range(0, n);
    let range = vstd::set_lib::set_int_range(0, n);
    assert(big.subset_of(range));
    vstd::set_lib::lemma_len_subset(big, range);
    assert(big.contains(current as int));
    assert forall|i: int| small.contains(i) implies big.remove(current as int).contains(i) by {
        assert(trail(path.push(current))[path.len() as int] == current as int);
        if i == current as int {
            assert(trail(path.push(current)).contains(i));
        }
        if trail(path).contains(i) {
            let m = choose|m: int| 0 <= m < trail(path).len() && trail(path)[m] == i;
            assert(trail(path.push(current))[m] == i);
        }
    }
    assert(small.subset_of(big.remove(current as int)));
    vstd::set_lib::lemma_len_subset(small, big.remove(current as int));
}

impl BuildingRegistry {
    /// The trail and the building that closes it, joined by arrows.
    #[verifier::loop_isolation(false)]
    pub fn describe_cycle(definitions: &Vec<Arc<BuildingDefinition>>, path: &Vec<usize>, current: usize) -> (r:
        String)
        requires
            current < definitions.len(),
            forall|m: int| 0 <= m < path.len() ==> path[m] < definitions.len(),
        ensures
            r@ == arrow_joined(
                trail_ids(definitions.deep_view(), trail(path@.push(current))),
            ),
    {
        let ghost defs = definitions.deep_view();
        let ghost all = trail_ids(defs, trail(path@.push(current)));
        let mut text = String::new();
        let mut m: usize = 0;
        while m < path.len()
            invariant
                m <= path.len(),
                text@ == arrow_joined(all.take(m as int)),
            decreases path.len() - m,
        {
            assert(definitions[path[m as int] as int].deep_view() == defs[path[m as int] as int]);
            let ghost before = text@;
            if m > 0 {
                text.append(" -> ");
            }
            text.append(definitions[path[m]].id.as_str());
            proof {
                let now = all.take(m as int + 1);
                assert(now.drop_last() =~= all.take(m as int));
                assert(now.last() == defs[path[m as int] as int].id);
                if m == 0 {
                    assert(before =~= Seq::<char>::empty());
                    assert(text@ =~= now[0]);
                }
            }
            m += 1;
        }
        assert(definitions[current as int].deep_view() == defs[current as int]);
        if path.len() > 0 {
            text.append(" -> ");
        }
        text.append(definitions[current].id.as_str());
        proof {
            assert(all.drop_last() =~= all.take(path.len() as int));
            assert(all.last() == defs[current as int].id);
            if path.len() == 0 {
                assert(text@ =~= all[0]);
            }
            assert(all.take(all.len() as int) =~= all);
        }
        text
    }

    /// Explores the prerequisites of the building at position `current`,
    /// depth first. `path` is the trail that led here, `visited` marks the
    /// buildings that are explored. Meeting a building of the trail again
    /// reports a cycle.
    #[verifier::loop_isolation(false)]
    fn detect_cycle(
        current: usize,
        definitions: &Vec<Arc<BuildingDefinition>>,
        visited: &mut Vec<bool>,
        path: &mut Vec<usize>,
        Ghost(rank): Ghost<Seq<nat>>,
    ) -> (r: (Result<(), BuildingConfigError>, Ghost<Seq<nat>>))
        requires
            current < definitions.len(),
            resolved(definitions.deep_view()),
            settled(definitions.deep_view(), old(visited)@, rank),
            chain(definitions.deep_view(), trail(old(path)@)),
            old(path).len() > 0 ==> linked(
                definitions.deep_view(),
                old(path)[old(path).len() - 1] as int,
                current as int,
            ),
        ensures
            match r.0 {
                Ok(_) => {
                    &&& settled(definitions.deep_view(), final(visited)@, r.1@)
                    &&& final(visited)[current as int]
                    &&& final(path)@ == old(path)@
                    &&& forall|i: int|
                        #![trigger old(visited)[i]]
                        0 <= i < definitions.len() && old(visited)[i] ==> final(visited)[i] && r.1@[i]
                            == rank[i]
                    &&& forall|i: int|
                        0 <= i < definitions.len() && trail(old(path)@).contains(i) && !old(
                            visited,
                        )[i] ==> !final(visited)[i]
                },
                Err(e) => reports_cycle(definitions.deep_view(), e.deep_view()),
            },
        decreases open_set(definitions.len() as int, old(visited)@, old(path)@).len(),
    {
        let ghost defs = definitions.deep_view();
        let ghost n = definitions.len() as int;
        let ghost visited0 = visited@;
        let ghost path0 = path@;
        let mut m: usize = 0;
        while m < path.len()
            invariant
                m <= path.len(),
                path@ == path0,
                visited@ == visited0,
                forall|x: int| 0 <= x < m ==> path0[x] != current,
            decreases path.len() - m,
        {
            if path[m] == current {
                assert forall|x: int| 0 <= x < path.len() implies path[x] < definitions.len() by {
                    assert(0 <= trail(path0)[x] < defs.len());
                }
                let cycle = Self::describe_cycle(definitions, path, current);
                proof {
                    let c = trail(path0.push(current));
                    assert forall|x: int| 0 <= x < c.len() implies 0 <= #[trigger] c[x]
                        < defs.len() by {
                        if x < path0.len() {
                            assert(0 <= trail(path0)[x] < defs.len());
                        }
                    }
                    assert forall|x: int| 0 <= x < c.len() - 1 implies #[trigger] link_at(
                        defs,
                        c,
                        x,
                    ) by {
                        if x < path0.len() - 1 {
                            assert(link_at(defs, trail(path0), x));
                        }
                    }
                    assert(c.drop_last()[m as int] == c.last());
                    assert(chain(defs, c));
                }
                return (Err(BuildingConfigError::CircularDependency { cycle }), Ghost(rank));
            }
            m += 1;
        }
        if visited[current] {
            return (Ok(()), Ghost(rank));
        }
        proof {
            assert(!trail(path0).contains(current as int)) by {
                if trail(path0).contains(current as int) {
                    let x = choose|x: int| 0 <= x < trail(path0).len() && trail(path0)[x] == current as int;
                    assert(path0[x] == current);
                }
            }
        }
        path.push(current);
        proof {
            let c = trail(path@);
            assert forall|x: int| 0 <= x < c.len() implies 0 <= #[trigger] c[x] < defs.len() by {
                if x < path0.len() {
                    assert(0 <= trail(path0)[x] < defs.len());
                }
            }
            assert forall|x: int| 0 <= x < c.len() - 1 implies #[trigger] link_at(defs, c, x) by {
                if x < path0.len() - 1 {
                    assert(link_at(defs, trail(path0), x));
                }
            }
            lemma_building_idents(*definitions);
        }
        let def = &definitions[current];
        assert(def.deep_view() == defs[current as int]);
        let ghost mut ranks = rank;
        let ghost mut bound: nat = 0;
        let mut k: usize = 0;
        while k < def.prerequisites.len()
            invariant
                k <= def.prerequisites.len(),
                path@ == path0.push(current),
                visited.len() == n,
                settled(defs, visited@, ranks),
                !visited[current as int],
                forall|i: int| 0 <= i < n && visited0[i] ==> visited[i] && ranks[i] == rank[i],
                forall|i: int|
                    0 <= i < n && trail(path0.push(current)).contains(i) && !visited0[i]
                        ==> !visited[i],
                forall|x: int|
                    0 <= x < k ==> {
                        let t = #[trigger] target(defs, current as int, x);
                        0 <= t < n && visited[t] && ranks[t] <= bound
                    },
            decreases def.prerequisites.len() - k,
        {
            assert(def.prerequisites[k as int].deep_view() == defs[current as int].prerequisites[k as int]);
            assert(target(defs, current as int, k as int) >= 0);
            proof {
                lemma_index_in(building_ids(defs), defs[current as int].prerequisites[k as int].building_id);
            }
            let child = find_by_id(definitions, &def.prerequisites[k].building_id).unwrap();
            let ghost before = visited@;
            let ghost before_ranks = ranks;
            proof {
                lemma_open_set_shrinks(n, visited0, path0, current, before);
                assert(target(defs, current as int, k as int) == child);
            }
            let (res, next) = Self::detect_cycle(child, definitions, visited, path, Ghost(ranks));
            match res {
                Ok(()) => {},
                Err(e) => {
                    return (Err(e), Ghost(rank));
                },
            }
            proof {
                ranks = next@;
                if ranks[child as int] > bound {
                    bound = ranks[child as int];
                }
                assert(trail(path0.push(current))[path0.len() as int] == current as int);
                assert(trail(path0.push(current)).contains(current as int));
            }
            k += 1;
        }
        path.pop();
        assert(path@ =~= path0);
        proof {
            assert forall|i: int|
                0 <= i < n && trail(path0).contains(i) && !visited0[i] implies !visited[i] && i
                != current by {
                let x = choose|x: int| 0 <= x < trail(path0).len() && trail(path0)[x] == i;
                assert(trail(path0.push(current))[x] == i);
            }
        }
        visited[current] = true;
        proof {
            ranks = ranks.update(current as int, bound + 1);
        }
        (Ok(()), Ghost(ranks))
    }
}

/// Where no prerequisite of a building has a defect, each names a building of the table.
pub proof fn lemma_no_bad_prerequisite(
    defs: Seq<BuildingDefinitionView>,
    owner: BuildingDefinitionView,
    from: int,
)
    requires
        0 <= from <= owner.prerequisites.len(),
        first_bad_prerequisite(defs, owner, from) >= owner.prerequisites.len(),
    ensures
        forall|k: int|
            from <= k < owner.prerequisites.len() ==> prerequisite_defect(
                defs,
                owner,
                #[trigger] owner.prerequisites[k],
            ).is_none(),
    decreases owner.prerequisites.len() - from,
{
    if from < owner.prerequisites.len() {
        lemma_no_bad_prerequisite(defs, owner, from + 1);
    }
}

/// Where no building has a prerequisite with a defect, every prerequisite
/// names a building of the table.
pub proof fn lemma_no_bad_owner(defs: Seq<BuildingDefinitionView>, from: int)
    requires
        0 <= from <= defs.len(),
        first_bad_owner(defs, from) == defs.len(),
    ensures
        forall|i: int, k: int|
            from <= i < defs.len() && 0 <= k < defs[i].prerequisites.len() ==> #[trigger] target(
                defs,
                i,
                k,
            ) >= 0,
    decreases defs.len() - from,
{
    if from < defs.len() {
        lemma_no_bad_owner(defs, from + 1);
        lemma_no_bad_prerequisite(defs, defs[from], 0);
        assert forall|k: int| 0 <= k < defs[from].prerequisites.len() implies #[trigger] target(
            defs,
            from,
            k,
        ) >= 0 by {
            assert(prerequisite_defect(defs, defs[from], defs[from].prerequisites[k]).is_none());
        }
    }
}

impl BuildingRegistry {
    /// Looks for a building that is, by a chain of prerequisites, its own prerequisite.
    #[verifier::loop_isolation(false)]
    pub fn check_circular_dependencies(definitions: &Vec<Arc<BuildingDefinition>>) -> (r: Result<
        (),
        BuildingConfigError,
    >)
        requires
            resolved(definitions.deep_view()),
        ensures
            match r {
                Ok(_) => acyclic(definitions.deep_view()),
                Err(e) => reports_cycle(definitions.deep_view(), e.deep_view()) && !acyclic(
                    definitions.deep_view(),
                ),
            },
    {
        let ghost defs = definitions.deep_view();
        let n = definitions.len();
        let mut visited: Vec<bool> = Vec::new();
        let mut i: usize = 0;
        while i < n
            invariant
                i <= n,
                visited.len() == i,
                forall|j: int| 0 <= j < i ==> !visited[j],
            decreases n - i,
        {
            visited.push(false);
            i += 1;
        }
        let mut path: Vec<usize> = Vec::new();
        let ghost mut ranks: Seq<nat> = Seq::new(n as nat, |j: int| 0nat);
        let mut root: usize = 0;
        while root < n
            invariant
                root <= n,
                path@.len() == 0,
                settled(defs, visited@, ranks),
                forall|j: int| 0 <= j < root ==> visited[j],
            decreases n - root,
        {
            let ghost before = visited@;
            let (res, next) = Self::detect_cycle(root, definitions, &mut visited, &mut path, Ghost(ranks));
            match res {
                Ok(()) => {},
                Err(e) => {
                    proof {
                        let c = choose|c: Seq<int>|
                            #![trigger chain(defs, c)]
                            chain(defs, c) && c.len() >= 2 && c.drop_last().contains(c.last());
                        lemma_report_not_acyclic(defs, c);
                    }
                    return Err(e);
                },
            }
            proof {
                ranks = next@;
                assert forall|j: int| 0 <= j < root + 1 implies visited[j] by {
                    if j < root {
                        assert(before[j]);
                    }
                }
            }
            root += 1;
        }
        assert(ranked(defs, ranks));
        Ok(())
    }

    /// Puts the table together. The entries are checked one by one for a
    /// repeated identifier and for lists of the wrong length; then the
    /// prerequisites of all of them are checked; then cycles are looked
    /// for. The first defect found is reported.
    #[verifier::loop_isolation(false)]
    pub fn validate_and_build(config: BuildingConfigJson) -> (r: Result<Self, BuildingConfigError>)
        ensures
            ({
                let bs = config.buildings.deep_view();
                let defs = converted_all(bs, bs.len() as int);
                let k1 = first_bad_entry(bs, 0);
                let k2 = first_bad_owner(defs, 0);
                match r {
                    Ok(registry) => {
                        &&& k1 == bs.len()
                        &&& k2 == defs.len()
                        &&& acyclic(defs)
                        &&& registry.deep_view() == defs
                        &&& registry.wf()
                    },
                    Err(e) => if k1 < bs.len() {
                        Some(e.deep_view()) == entry_defect(bs, k1)
                    } else if k2 < defs.len() {
                        Some(e.deep_view()) == prerequisite_defect(
                            defs,
                            defs[k2],
                            defs[k2].prerequisites[first_bad_prerequisite(defs, defs[k2], 0)],
                        )
                    } else {
                        reports_cycle(defs, e.deep_view()) && !acyclic(defs)
                    },
                }
            }),
    {
        let ghost bs = config.buildings.deep_view();
        let ghost all = converted_all(bs, bs.len() as int);
        let n = config.buildings.len();
        let mut definitions: Vec<Arc<BuildingDefinition>> = Vec::new();
        let mut i: usize = 0;
        while i < n
            invariant
                i <= n,
                n == config.buildings.len(),
                definitions.len() == i,
                definitions.deep_view() == converted_all(bs, i as int),
                distinct(building_ids(definitions.deep_view())),
                first_bad_entry(bs, i as int) == first_bad_entry(bs, 0),
            decreases n - i,
        {
            let entry = &config.buildings[i];
            assert(entry.deep_view() == bs[i as int]);
            let ghost before = definitions.deep_view();
            proof {
                lemma_building_idents(definitions);
                lemma_index_in(building_ids(before), entry.id@);
            }
            if find_by_id(&definitions, &entry.id).is_some() {
                return Err(BuildingConfigError::DuplicateBuildingId { building_id: entry.id.clone() });
            }
            match Self::validate_lengths(entry) {
                Ok(()) => {},
                Err(e) => {
                    return Err(e);
                },
            }
            let definition = match Self::convert_to_definition(entry) {
                Ok(d) => d,
                Err(e) => {
                    return Err(e);
                },
            };
            definitions.push(Arc::new(definition));
            proof {
                assert(definitions.deep_view() =~= before.push(converted(bs[i as int])));
                assert(definitions.deep_view() =~= converted_all(bs, i as int + 1));
                assert(building_ids(definitions.deep_view()) =~= building_ids(before).push(
                    entry.id@,
                ));
                lemma_distinct_push(building_ids(before), entry.id@);
            }
            i += 1;
        }
        assert(definitions.deep_view() == all);
        let mut owner: usize = 0;
        while owner < n
            invariant
                owner <= n,
                n == definitions.len(),
                first_bad_owner(all, owner as int) == first_bad_owner(all, 0),
            decreases n - owner,
        {
            match Self::validate_prerequisites(owner, &definitions) {
                Ok(()) => {},
                Err(e) => {
                    return Err(e);
                },
            }
            owner += 1;
        }
        proof {
            lemma_no_bad_owner(all, 0);
        }
        match Self::check_circular_dependencies(&definitions) {
            Ok(()) => {},
            Err(e) => {
                return Err(e);
            },
        }
        Ok(BuildingRegistry { definitions })
    }
}

} // verus!
