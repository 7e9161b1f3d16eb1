//! Chance: the only place where the library asks for random numbers.
use vstd::prelude::*;
use rand::Rng;
use rand::seq::{IndexedRandom, SliceRandom};

verus! {

/// `Rng::random_range` on the thread's generator, over `0..n`: some number below `n`.
#[verifier::external_body]
pub(crate) fn random_below(n: usize) -> (r: usize)
    requires
        n > 0,
    ensures
        r < n,
{
    rand::rng().random_range(0..n)
}

/// `SliceRandom::shuffle` on the thread's generator: the same texts in some order.
#[verifier::external_body]
pub(crate) fn shuffle(texts: &mut Vec<String>)
    ensures
        final(texts).deep_view().to_multiset() == old(texts).deep_view().to_multiset(),
{
    texts.shuffle(&mut rand::rng());
}

/// Whether `picks` names entries of a list of `n`, none of them twice.
pub open spec fn distinct_picks(picks: Seq<int>, n: int) -> bool {
    &&& forall|i: int| 0 <= i < picks.len() ==> 0 <= #[trigger] picks[i] < n
    &&& forall|i: int, j: int| 0 <= i < j < picks.len() ==> picks[i] != picks[j]
}

/// Whether `chosen` holds the entries of `from` that `picks` names, in that order.
pub open spec fn picked(chosen: Seq<Seq<char>>, from: Seq<Seq<char>>, picks: Seq<int>) -> bool {
    chosen.len() == picks.len() && forall|i: int|
        0 <= i < picks.len() ==> #[trigger] chosen[i] == from[picks[i]]
}

/// Whether `chosen` holds entries of `from`, each taken from another position.
pub open spec fn chosen_from(chosen: Seq<Seq<char>>, from: Seq<Seq<char>>) -> bool {
    exists|picks: Seq<int>|
        distinct_picks(picks, from.len() as int) && #[trigger] picked(chosen, from, picks)
}

/// `IndexedRandom::choose_multiple` on the thread's generator: `amount`
/// entries of the list, or all of them where it holds fewer, each taken
/// from another position, in some order.
#[verifier::external_body]
pub(crate) fn choose_multiple(texts: &Vec<String>, amount: usize) -> (r: Vec<String>)
    ensures
        r.len() == if amount <= texts.len() {
            amount
        } else {
            texts.len()
        },
        chosen_from(r.deep_view(), texts.deep_view()),
{
    texts.choose_multiple(&mut rand::rng(), amount).cloned().collect()
}

} // verus!
