//! Lookup of records by their textual identifier.
//!
//! Collections of the game hold their records in a `Vec` in which no
//! identifier occurs twice, so the order in which records are walked is the
//! order in which they were added.
use vstd::prelude::*;
use std::sync::Arc;

verus! {

/// A record that carries a textual identifier.
pub trait Identified {
    /// The identifier, as a sequence of characters.
    spec fn ident(&self) -> Seq<char>;

    fn id_ref(&self) -> (k: &String)
        ensures
            k@ == self.ident(),
    ;
}

/// The identifiers of a list of records, in order.
pub open spec fn idents<T: Identified>(s: Seq<T>) -> Seq<Seq<char>> {
    Seq::new(s.len(), |i: int| s[i].ident())
}

/// No value occurs twice in `keys`.
pub open spec fn distinct(keys: Seq<Seq<char>>) -> bool {
    forall|i: int, j: int| 0 <= i < j < keys.len() ==> keys[i] != keys[j]
}

/// The first position of `k` in `keys`, or `-1` where it does not occur.
pub open spec fn index_in(keys: Seq<Seq<char>>, k: Seq<char>) -> int
    decreases keys.len(),
{
    if keys.len() == 0 {
        -1
    } else {
        let rest = index_in(keys.drop_last(), k);
        if rest >= 0 {
            rest
        } else if keys.last() == k {
            keys.len() - 1
        } else {
            -1
        }
    }
}

/// What `index_in` returns: the least position that holds `k`.
pub proof fn lemma_index_in(keys: Seq<Seq<char>>, k: Seq<char>)
    ensures
        -1 <= index_in(keys, k) < keys.len(),
        index_in(keys, k) >= 0 ==> keys[index_in(keys, k)] == k,
        forall|j: int| 0 <= j < keys.len() && keys[j] == k ==> 0 <= index_in(keys, k) <= j,
    decreases keys.len(),
{
    if keys.len() > 0 {
        let front = keys.drop_last();
        lemma_index_in(front, k);
        assert forall|j: int| 0 <= j < keys.len() && keys[j] == k implies 0 <= index_in(keys, k)
            <= j by {
            if j < front.len() {
                assert(front[j] == k);
            }
        }
    }
}

/// The position of the record named `k`, or `None` where there is none.
pub fn find_by_id<T: Identified>(v: &Vec<T>, k: &String) -> (r: Option<usize>)
    ensures
        match r {
            Some(i) => i < v.len() && index_in(idents(v@), k@) == i,
            None => index_in(idents(v@), k@) == -1,
        },
{
    let mut i: usize = 0;
    while i < v.len()
        invariant
            i <= v.len(),
            forall|j: int| 0 <= j < i ==> idents(v@)[j] != k@,
        decreases v.len() - i,
    {
        if *v[i].id_ref() == *k {
            proof {
                assert(idents(v@)[i as int] == k@);
                lemma_index_in(idents(v@), k@);
            }
            return Some(i);
        }
        i += 1;
    }
    proof {
        lemma_index_in(idents(v@), k@);
    }
    None
}

/// Whether `k` is one of the texts in `v`.
pub fn contains_text(v: &Vec<String>, k: &String) -> (r: bool)
    ensures
        r == v.deep_view().contains(k@),
{
    let mut i: usize = 0;
    while i < v.len()
        invariant
            i <= v.len(),
            forall|j: int| 0 <= j < i ==> v.deep_view()[j] != k@,
        decreases v.len() - i,
    {
        if v[i] == *k {
            assert(v.deep_view()[i as int] == k@);
            return true;
        }
        i += 1;
    }
    false
}

/// A copy of a list of texts.
pub fn copy_texts(v: &Vec<String>) -> (r: Vec<String>)
    ensures
        r.deep_view() == v.deep_view(),
{
    let mut out: Vec<String> = Vec::new();
    let mut i: usize = 0;
    while i < v.len()
        invariant
            i <= v.len(),
            out.len() == i,
            forall|j: int| 0 <= j < i ==> out[j]@ == v[j]@,
        decreases v.len() - i,
    {
        out.push(v[i].clone());
        i += 1;
    }
    assert(out.deep_view() =~= v.deep_view());
    out
}

/// `Arc::clone`: another handle to the same shared value.
#[verifier::external_body]
pub(crate) fn share<T>(a: &Arc<T>) -> (r: Arc<T>)
    ensures
        r == *a,
{
    Arc::clone(a)
}

} // verus!
