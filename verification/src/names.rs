//! Names for planets and players.
use vstd::prelude::*;
use vstd::string::*;
use crate::chance::{choose_multiple, chosen_from, random_below};
use crate::ids::contains_text;
use crate::text::{decimal, owned, push_decimal};

verus! {

/// Why no player names can be handed out.
#[derive(Debug)]
pub enum PlayerNameConfigError {
    InsufficientNames { needed: usize, available: usize },
}

/// The wording of a line shown to the player.
pub open spec fn insufficient_names_text(needed: usize, available: usize) -> Seq<char> {
    "Not enough names in configuration. Need "@ + decimal(needed as nat) + ", but only "@
        + decimal(available as nat) + " available"@
}

impl PlayerNameConfigError {
    /// The error as one line of text.
    pub fn message(&self) -> (s: String)
        ensures
            match self {
                PlayerNameConfigError::InsufficientNames { needed, available } => s@
                    == insufficient_names_text(*needed, *available),
            },
    {
        match self {
            PlayerNameConfigError::InsufficientNames { needed, available } => {
                let mut s = owned("Not enough names in configuration. Need ");
                push_decimal(&mut s, *needed as u128);
                s.append(", but only ");
                push_decimal(&mut s, *available as u128);
                s.append(" available");
                s
            },
        }
    }
}

/// Picks `count` of the `names` at random, none of them twice; refuses
/// where there are fewer than `count`.
pub fn generate_random_names_from_list(names: &Vec<String>, count: usize) -> (r: Result<
    Vec<String>,
    PlayerNameConfigError,
>)
    ensures
        match r {
            Ok(chosen) => names.len() >= count && chosen.len() == count && chosen_from(
                chosen.deep_view(),
                names.deep_view(),
            ),
            Err(e) => names.len() < count && e == (PlayerNameConfigError::InsufficientNames {
                needed: count,
                available: names.len(),
            }),
        },
{
    if names.len() < count {
        return Err(
            PlayerNameConfigError::InsufficientNames { needed: count, available: names.len() },
        );
    }
    Ok(choose_multiple(names, count))
}

/// The parts out of which planet names are made.
#[derive(Debug)]
pub struct PlanetNameParts {
    pub prefixes: Vec<String>,
    pub suffixes: Vec<String>,
}

/// Why no planet name can be made.
#[derive(Clone, Copy, Debug, PartialEq, Eq, Structural)]
pub enum NameGeneratorError {
    /// The base name and its ten numbered variants are all taken.
    AllVariantsExhausted,
}

/// The wording of a line shown to the player.
pub open spec fn exhausted_text() -> Seq<char> {
    "Failed to generate unique planet name: all variants exhausted for base name"@
}

impl NameGeneratorError {
    /// The error as one line of text.
    pub fn message(&self) -> (s: String)
        ensures
            s@ == exhausted_text(),
    {
        owned("Failed to generate unique planet name: all variants exhausted for base name")
    }
}

/// The Roman numeral of `n`, for 1 to 10.
pub open spec fn roman(n: int) -> Seq<char> {
    if n == 1 {
        "I"@
    } else if n == 2 {
        "II"@
    } else if n == 3 {
        "III"@
    } else if n == 4 {
        "IV"@
    } else if n == 5 {
        "V"@
    } else if n == 6 {
        "VI"@
    } else if n == 7 {
        "VII"@
    } else if n == 8 {
        "VIII"@
    } else if n == 9 {
        "IX"@
    } else {
        "X"@
    }
}

/// The name made of a prefix and a suffix.
pub open spec fn base_name(prefix: Seq<char>, suffix: Seq<char>) -> Seq<char> {
    prefix + " "@ + suffix
}

/// The `v`-th numbered variant of a base name.
pub open spec fn variant_name(base: Seq<char>, v: int) -> Seq<char> {
    base + " "@ + roman(v)
}

/// The first variant number from `v` to 10 whose name is free; 11 where none is.
pub open spec fn first_free_variant(used: Seq<Seq<char>>, base: Seq<char>, v: int) -> int
    decreases 11 - v,
{
    if v < 1 || v > 10 {
        11
    } else if !used.contains(variant_name(base, v)) {
        v
    } else {
        first_free_variant(used, base, v + 1)
    }
}

/// The name that a base name yields against the names in use: itself
/// where it is free, else its first free numbered variant.
pub open spec fn fresh_name(used: Seq<Seq<char>>, base: Seq<char>) -> Option<Seq<char>> {
    if !used.contains(base) {
        Some(base)
    } else {
        let v = first_free_variant(used, base, 1);
        if v <= 10 {
            Some(variant_name(base, v))
        } else {
            None
        }
    }
}

/// The length, the first letter and the last letter of the Roman numeral of `n`.
pub open spec fn roman_mark(n: int) -> (nat, char, char) {
    if n == 1 {
        (1, 'I', 'I')
    } else if n == 2 {
        (2, 'I', 'I')
    } else if n == 3 {
        (3, 'I', 'I')
    } else if n == 4 {
        (2, 'I', 'V')
    } else if n == 5 {
        (1, 'V', 'V')
    } else if n == 6 {
        (2, 'V', 'I')
    } else if n == 7 {
        (3, 'V', 'I')
    } else if n == 8 {
        (4, 'V', 'I')
    } else if n == 9 {
        (2, 'I', 'X')
    } else {
        (1, 'X', 'X')
    }
}

/// Each Roman numeral from 1 to 10 has the length and the letters that its mark says.
pub proof fn lemma_roman_mark(n: int)
    requires
        1 <= n <= 10,
    ensures
        roman(n).len() == roman_mark(n).0,
        roman(n)[0] == roman_mark(n).1,
        roman(n)[roman(n).len() - 1] == roman_mark(n).2,
{
    reveal_strlit("I");
    reveal_strlit("II");
    reveal_strlit("III");
    reveal_strlit("IV");
    reveal_strlit("V");
    reveal_strlit("VI");
    reveal_strlit("VII");
    reveal_strlit("VIII");
    reveal_strlit("IX");
    reveal_strlit("X");
}

/// A base name differs from each of its numbered variants, and two
/// variants with different numbers differ.
pub proof fn lemma_variants_differ(base: Seq<char>, v: int, w: int)
    requires
        1 <= v <= 10,
        1 <= w <= 10,
    ensures
        base != variant_name(base, v),
        v != w ==> variant_name(base, v) != variant_name(base, w),
{
    reveal_strlit(" ");
    lemma_roman_mark(v);
    lemma_roman_mark(w);
    let start = base.len() + 1;
    assert(variant_name(base, v).len() == start + roman(v).len());
    assert(variant_name(base, v).subrange(start as int, variant_name(base, v).len() as int)
        =~= roman(v));
    assert(variant_name(base, w).subrange(start as int, variant_name(base, w).len() as int)
        =~= roman(w));
}

/// Where no variant from `v` on is free, every one of them is in use.
pub proof fn lemma_no_free_variant(used: Seq<Seq<char>>, base: Seq<char>, v: int)
    requires
        1 <= v <= 11,
        first_free_variant(used, base, v) > 10,
    ensures
        forall|w: int| v <= w <= 10 ==> used.contains(#[trigger] variant_name(base, w)),
    decreases 11 - v,
{
    if v <= 10 {
        lemma_no_free_variant(used, base, v + 1);
    }
}

/// The base name and its ten variants, in order.
pub open spec fn name_family(base: Seq<char>) -> Seq<Seq<char>> {
    Seq::new(
        11,
        |i: int|
            if i == 0 {
                base
            } else {
                variant_name(base, i)
            },
    )
}

/// A base name finds nothing free only where at least eleven names are in
/// use: itself and its ten variants, which all differ.
pub proof fn lemma_running_out_takes_eleven(used: Seq<Seq<char>>, base: Seq<char>)
    requires
        fresh_name(used, base).is_none(),
    ensures
        used.len() >= 11,
{
    broadcast use vstd::seq_lib::seq_to_set_is_finite;

    lemma_no_free_variant(used, base, 1);
    let family = name_family(base);
    assert forall|i: int, j: int| 0 <= i < family.len() && 0 <= j < family.len() && i
        != j implies family[i] != family[j] by {
        if i == 0 {
            lemma_variants_differ(base, j, j);
        } else if j == 0 {
            lemma_variants_differ(base, i, i);
        } else {
            lemma_variants_differ(base, i, j);
        }
    }
    family.unique_seq_to_set();
    assert forall|name: Seq<char>| family.to_set().contains(name) implies used.to_set().contains(
        name,
    ) by {
        let i = choose|i: int| 0 <= i < family.len() && family[i] == name;
        if i == 0 {
            assert(used.contains(base));
        } else {
            assert(used.contains(variant_name(base, i)));
        }
    }
    vstd::set_lib::lemma_len_subset(family.to_set(), used.to_set());
    used.lemma_cardinality_of_set();
}

/// Whether `after` holds the names of `before`, in order, and then some more or none.
pub open spec fn extends(after: Seq<Seq<char>>, before: Seq<Seq<char>>) -> bool {
    before.len() <= after.len() && after.subrange(0, before.len() as int) == before
}

/// Whether `r` and `after` are what asking for the name `base` gives
/// against the names in `used`: the fresh name, which is then in use too,
/// or a refusal that leaves the names in use as they were.
pub open spec fn handed_out(
    used: Seq<Seq<char>>,
    base: Seq<char>,
    r: Result<String, NameGeneratorError>,
    after: Seq<Seq<char>>,
) -> bool {
    match fresh_name(used, base) {
        Some(name) => r.is_ok() && r.unwrap()@ == name && after == used.push(name)
            && !used.contains(name),
        None => r.is_err() && after == used,
    }
}

/// Makes planet names that have not been handed out before.
#[derive(Debug)]
pub struct NameGenerator {
    pub name_parts: PlanetNameParts,
    pub used_names: Vec<String>,
}

impl NameGenerator {
    /// The base name made of the `p`-th prefix and the `s`-th suffix.
    pub open spec fn base(&self, p: int, s: int) -> Seq<char> {
        base_name(self.name_parts.prefixes[p]@, self.name_parts.suffixes[s]@)
    }

    /// Whether a pick of prefix and suffix exists for which the base name
    /// and its ten numbered variants are all in use.
    pub open spec fn can_run_out(&self) -> bool {
        exists|p: int, s: int|
            0 <= p < self.name_parts.prefixes.len() && 0 <= s < self.name_parts.suffixes.len()
                && fresh_name(self.used_names.deep_view(), #[trigger] self.base(p, s)).is_none()
    }

    /// A generator over `name_parts` that has handed out nothing yet.
    pub fn with_parts(name_parts: PlanetNameParts) -> (r: Self)
        ensures
            r.name_parts == name_parts,
            r.used_names.deep_view() == Seq::<Seq<char>>::empty(),
    {
        let g = NameGenerator { name_parts, used_names: Vec::new() };
        assert(g.used_names.deep_view() =~= Seq::<Seq<char>>::empty());
        g
    }

    /// The Roman numeral of a number from 1 to 10.
    pub fn to_roman_numeral(n: u8) -> (r: &'static str)
        requires
            1 <= n <= 10,
        ensures
            r@ == roman(n as int),
    {
        if n == 1 {
            "I"
        } else if n == 2 {
            "II"
        } else if n == 3 {
            "III"
        } else if n == 4 {
            "IV"
        } else if n == 5 {
            "V"
        } else if n == 6 {
            "VI"
        } else if n == 7 {
            "VII"
        } else if n == 8 {
            "VIII"
        } else if n == 9 {
            "IX"
        } else {
            "X"
        }
    }

    /// Hands out the name made of the given prefix and suffix, or its first
    /// free numbered variant, and takes note of it.
    #[verifier::loop_isolation(false)]
    pub fn generate_from(&mut self, prefix: usize, suffix: usize) -> (r: Result<
        String,
        NameGeneratorError,
    >)
        requires
            prefix < old(self).name_parts.prefixes.len(),
            suffix < old(self).name_parts.suffixes.len(),
        ensures
            final(self).name_parts == old(self).name_parts,
            ({
                let used = old(self).used_names.deep_view();
                let base = base_name(
                    old(self).name_parts.prefixes[prefix as int]@,
                    old(self).name_parts.suffixes[suffix as int]@,
                );
                match fresh_name(used, base) {
                    Some(name) => r.is_ok() && r.unwrap()@ == name && final(self).used_names.deep_view() == used.push(name) && !used.contains(name),
                    None => r.is_err() && final(self).used_names.deep_view() == used,
                }
            }),
    {
        let ghost used = self.used_names.deep_view();
        let mut base = self.name_parts.prefixes[prefix].clone();
        base.append(" ");
        base.append(self.name_parts.suffixes[suffix].as_str());
        if !contains_text(&self.used_names, &base) {
            self.used_names.push(base.clone());
            assert(self.used_names.deep_view() =~= used.push(base@));
            return Ok(base);
        }
        let mut variant: u8 = 1;
        while variant <= 10
            invariant
                1 <= variant <= 11,
                self.used_names.deep_view() == used,
                self.name_parts == old(self).name_parts,
                first_free_variant(used, base@, variant as int) == first_free_variant(
                    used,
                    base@,
                    1,
                ),
            decreases 11 - variant,
        {
            let mut candidate = base.clone();
            candidate.append(" ");
            candidate.append(Self::to_roman_numeral(variant));
            if !contains_text(&self.used_names, &candidate) {
                self.used_names.push(candidate.clone());
                assert(self.used_names.deep_view() =~= used.push(candidate@));
                return Ok(candidate);
            }
            variant += 1;
        }
        Err(NameGeneratorError::AllVariantsExhausted)
    }

    /// Hands out a name made of a prefix and a suffix picked at random. Its
    /// parts must not be empty. What it answers is what `generate_from`
    /// answers for the pick: it fails only where the picked base name and
    /// its ten variants are all in use, so never with fewer than eleven
    /// names in use.
    pub fn generate(&mut self) -> (r: Result<String, NameGeneratorError>)
        requires
            old(self).name_parts.prefixes.len() > 0,
            old(self).name_parts.suffixes.len() > 0,
        ensures
            final(self).name_parts == old(self).name_parts,
            match r {
                Ok(name) => !old(self).used_names.deep_view().contains(name@) && final(self).used_names.deep_view() == old(self).used_names.deep_view().push(name@),
                Err(_) => final(self).used_names.deep_view() == old(self).used_names.deep_view(),
            },
            exists|p: int, s: int|
                0 <= p < old(self).name_parts.prefixes.len() && 0 <= s < old(
                    self,
                ).name_parts.suffixes.len() && handed_out(
                    old(self).used_names.deep_view(),
                    #[trigger] old(self).base(p, s),
                    r,
                    final(self).used_names.deep_view(),
                ),
            r.is_err() ==> old(self).can_run_out(),
            old(self).used_names.len() < 11 ==> r.is_ok(),
    {
        let prefix = random_below(self.name_parts.prefixes.len());
        let suffix = random_below(self.name_parts.suffixes.len());
        let r = self.generate_from(prefix, suffix);
        proof {
            let base = old(self).base(prefix as int, suffix as int);
            assert(handed_out(
                old(self).used_names.deep_view(),
                base,
                r,
                self.used_names.deep_view(),
            ));
            if r.is_err() {
                assert(fresh_name(old(self).used_names.deep_view(), base).is_none());
                lemma_running_out_takes_eleven(old(self).used_names.deep_view(), base);
                assert(old(self).used_names.deep_view().len() == old(self).used_names.len());
            }
        }
        r
    }
}

} // verus!
