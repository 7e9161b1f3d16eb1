//! Combat between an arriving fleet and the ships that defend a planet.
//!
//! Strengths are counted in half points, so that the counter bonus of one
//! and a half times a ship's value stays an exact integer.
use vstd::prelude::*;
use vstd::string::*;
use crate::ids::{contains_text, find_by_id};
use crate::player::{lemma_ship_list_idents, ship_of};
use crate::ship::{Ship, ShipView};
use crate::ship_config::{ShipConfig, ShipDefinitionView, lookup_ship};
use crate::text::{decimal, push_decimal};

verus! {

/// How a fight ended. Strengths are in half points.
#[derive(Clone, Copy, Debug, PartialEq, Eq, Structural)]
pub struct CombatOutcome {
    pub attacker_strength: u128,
    pub defender_strength: u128,
    pub attacker_wins: bool,
}

/// Whether the `i`-th counter target of `def` is one of the opposing types.
pub open spec fn counter_hits(def: ShipDefinitionView, opposing: Seq<Seq<char>>, i: int) -> bool {
    0 <= i < def.counters.len() && opposing.contains(def.counters[i])
}

/// Whether a ship type counters any of the opposing ship types.
pub open spec fn counters_any(def: ShipDefinitionView, opposing: Seq<Seq<char>>) -> bool {
    exists|i: int| counter_hits(def, opposing, i)
}

/// The half points that one ship of type `ship_type` brings against the
/// opposing types: twice its attack (as attacker) or its shield (as
/// defender), three times where it counters one of them, nothing where the
/// type is unknown.
pub open spec fn ship_strength(
    defs: Seq<ShipDefinitionView>,
    ship_type: Seq<char>,
    opposing: Seq<Seq<char>>,
    attacking: bool,
) -> nat {
    match lookup_ship(defs, ship_type) {
        None => 0,
        Some(def) => {
            let base: nat = if attacking {
                def.attack as nat
            } else {
                def.shield as nat
            };
            if counters_any(def, opposing) {
                3 * base
            } else {
                2 * base
            }
        },
    }
}

/// The half points of the first `n` ships of a side.
pub open spec fn side_strength(
    defs: Seq<ShipDefinitionView>,
    side: Seq<Seq<char>>,
    opposing: Seq<Seq<char>>,
    attacking: bool,
    n: int,
) -> nat
    decreases n,
{
    if n <= 0 {
        0
    } else {
        side_strength(defs, side, opposing, attacking, n - 1) + ship_strength(
            defs,
            side[n - 1],
            opposing,
            attacking,
        )
    }
}

/// A side of `n` ships has at most `n` times three times the largest `u32` half points.
pub proof fn lemma_side_strength_bound(
    defs: Seq<ShipDefinitionView>,
    side: Seq<Seq<char>>,
    opposing: Seq<Seq<char>>,
    attacking: bool,
    n: int,
)
    requires
        0 <= n,
    ensures
        side_strength(defs, side, opposing, attacking, n) <= n * 3 * 0xffff_ffff,
    decreases n,
{
    if n > 0 {
        lemma_side_strength_bound(defs, side, opposing, attacking, n - 1);
    }
}

/// The outcome of a fight between two rosters of ship types: the attacker
/// wins only with strictly more half points than the defender.
pub open spec fn combat_result(
    defs: Seq<ShipDefinitionView>,
    attackers: Seq<Seq<char>>,
    defenders: Seq<Seq<char>>,
) -> CombatOutcome {
    let a = side_strength(defs, attackers, defenders, true, attackers.len() as int);
    let d = side_strength(defs, defenders, attackers, false, defenders.len() as int);
    CombatOutcome { attacker_strength: a as u128, defender_strength: d as u128, attacker_wins: a > d }
}

/// The ship types of those among the first `n` members of a fleet that exist.
pub open spec fn fleet_roster(ships: Seq<ShipView>, members: Seq<Seq<char>>, n: int) -> Seq<
    Seq<char>,
>
    decreases n,
{
    if n <= 0 {
        Seq::empty()
    } else {
        let rest = fleet_roster(ships, members, n - 1);
        match ship_of(ships, members[n - 1]) {
            Some(s) => rest.push(s.ship_type),
            None => rest,
        }
    }
}

/// The ship types of those among the first `n` ships that are at `planet`.
pub open spec fn garrison_roster(ships: Seq<ShipView>, planet: Seq<char>, n: int) -> Seq<Seq<char>>
    decreases n,
{
    if n <= 0 {
        Seq::empty()
    } else {
        let rest = garrison_roster(ships, planet, n - 1);
        if ships[n - 1].location == planet {
            rest.push(ships[n - 1].ship_type)
        } else {
            rest
        }
    }
}

/// How a strength in half points reads in reports: `7`, or `7.5`.
pub open spec fn strength_text(half_points: u128) -> Seq<char> {
    if half_points % 2 == 1 {
        decimal((half_points / 2) as nat) + ".5"@
    } else {
        decimal((half_points / 2) as nat)
    }
}

/// Appends a strength in half points to `out`.
pub fn push_strength(out: &mut String, half_points: u128)
    ensures
        final(out)@ == old(out)@ + strength_text(half_points),
{
    push_decimal(out, half_points / 2);
    if half_points % 2 == 1 {
        out.append(".5");
        assert(out@ =~= old(out)@ + strength_text(half_points));
    }
}

/// Whether the ship type `def` counters one of the opposing ship types.
#[verifier::loop_isolation(false)]
fn counters_one_of(counters: &Vec<String>, opposing: &Vec<String>, Ghost(def): Ghost<
    ShipDefinitionView,
>) -> (r: bool)
    requires
        counters.deep_view() == def.counters,
    ensures
        r == counters_any(def, opposing.deep_view()),
{
    let mut i: usize = 0;
    while i < counters.len()
        invariant
            i <= counters.len(),
            forall|j: int| 0 <= j < i ==> !counter_hits(def, opposing.deep_view(), j),
        decreases counters.len() - i,
    {
        assert(counters.deep_view()[i as int] == counters[i as int]@);
        if contains_text(opposing, &counters[i]) {
            assert(counter_hits(def, opposing.deep_view(), i as int));
            return true;
        }
        i += 1;
    }
    false
}

/// The half points of one side.
#[verifier::loop_isolation(false)]
fn strength_of(side: &Vec<String>, opposing: &Vec<String>, attacking: bool, config: &ShipConfig) -> (r:
    u128)
    ensures
        r == side_strength(
            config.deep_view(),
            side.deep_view(),
            opposing.deep_view(),
            attacking,
            side.len() as int,
        ),
{
    let ghost defs = config.deep_view();
    let mut total: u128 = 0;
    let mut i: usize = 0;
    while i < side.len()
        invariant
            i <= side.len(),
            total == side_strength(defs, side.deep_view(), opposing.deep_view(), attacking, i as int),
        decreases side.len() - i,
    {
        proof {
            lemma_side_strength_bound(
                defs,
                side.deep_view(),
                opposing.deep_view(),
                attacking,
                i as int,
            );
        }
        assert(side.deep_view()[i as int] == side[i as int]@);
        let value: u128 = match config.get(&side[i]) {
            None => 0,
            Some(def) => {
                let base: u128 = if attacking {
                    def.attack as u128
                } else {
                    def.shield as u128
                };
                if counters_one_of(&def.counters, opposing, Ghost(def.deep_view())) {
                    3 * base
                } else {
                    2 * base
                }
            },
        };
        total = total + value;
        i += 1;
    }
    total
}

/// Resolves a fight between two rosters of ship types. The result depends
/// on the rosters and the table alone; equal strength favours the defender.
pub fn resolve_combat(attackers: &Vec<String>, defenders: &Vec<String>, config: &ShipConfig) -> (r:
    CombatOutcome)
    ensures
        r == combat_result(config.deep_view(), attackers.deep_view(), defenders.deep_view()),
{
    let attacker_strength = strength_of(attackers, defenders, true, config);
    let defender_strength = strength_of(defenders, attackers, false, config);
    CombatOutcome {
        attacker_strength,
        defender_strength,
        attacker_wins: attacker_strength > defender_strength,
    }
}

/// The ship types of the members of a fleet that exist among `ships`.
#[verifier::loop_isolation(false)]
pub fn fleet_ship_types(ships: &Vec<Ship>, members: &Vec<String>) -> (r: Vec<String>)
    ensures
        r.deep_view() == fleet_roster(ships.deep_view(), members.deep_view(), members.len() as int),
{
    proof {
        lemma_ship_list_idents(*ships);
    }
    let mut out: Vec<String> = Vec::new();
    assert(out.deep_view() =~= Seq::<Seq<char>>::empty());
    let mut i: usize = 0;
    while i < members.len()
        invariant
            i <= members.len(),
            out.deep_view() == fleet_roster(ships.deep_view(), members.deep_view(), i as int),
        decreases members.len() - i,
    {
        assert(members.deep_view()[i as int] == members[i as int]@);
        let ghost before = out.deep_view();
        match find_by_id(ships, &members[i]) {
            Some(k) => {
                assert(ships.deep_view()[k as int] == ships[k as int].deep_view());
                out.push(ships[k].ship_type.clone());
                assert(out.deep_view() =~= before.push(ships[k as int].ship_type@));
            },
            None => {},
        }
        i += 1;
    }
    out
}

/// The ship types of the ships that are at `planet`.
#[verifier::loop_isolation(false)]
pub fn ship_types_at(ships: &Vec<Ship>, planet: &String) -> (r: Vec<String>)
    ensures
        r.deep_view() == garrison_roster(ships.deep_view(), planet@, ships.len() as int),
{
    let mut out: Vec<String> = Vec::new();
    assert(out.deep_view() =~= Seq::<Seq<char>>::empty());
    let mut i: usize = 0;
    while i < ships.len()
        invariant
            i <= ships.len(),
            out.deep_view() == garrison_roster(ships.deep_view(), planet@, i as int),
        decreases ships.len() - i,
    {
        assert(ships.deep_view()[i as int] == ships[i as int].deep_view());
        let ghost before = out.deep_view();
        if ships[i].location == *planet {
            out.push(ships[i].ship_type.clone());
            assert(out.deep_view() =~= before.push(ships[i as int].ship_type@));
        }
        i += 1;
    }
    out
}

} // verus!
