//! Looking for the one entity that carries a marker.
//!
//! The subsystem assumes one primary viewer and one camera of each role. A
//! lookup says whether that holds instead of silently picking an entity.

use vstd::prelude::*;

verus! {

/// The outcome of looking for a unique marked entity.
#[derive(Clone, Copy, Debug, PartialEq, Eq, Structural)]
pub enum Lookup {
    /// Exactly one entity is marked: its index.
    Found(usize),
    /// No entity is marked.
    NoneFound,
    /// Two or more entities are marked.
    MultipleFound,
}

/// `i` is marked and nothing else is.
pub open spec fn is_only(marks: Seq<bool>, i: int) -> bool {
    &&& 0 <= i < marks.len()
    &&& marks[i]
    &&& forall|j: int| 0 <= j < marks.len() && j != i ==> !marks[j]
}

/// Nothing is marked.
pub open spec fn none_marked(marks: Seq<bool>) -> bool {
    forall|j: int| 0 <= j < marks.len() ==> !marks[j]
}

/// Two different entities are marked.
pub open spec fn two_marked(marks: Seq<bool>) -> bool {
    exists|a: int, b: int| 0 <= a < b < marks.len() && marks[a] && marks[b]
}

/// Finds the one marked entry.
pub fn find_single(marks: &Vec<bool>) -> (r: Lookup)
    ensures
        match r {
            Lookup::Found(i) => is_only(marks@, i as int),
            Lookup::NoneFound => none_marked(marks@),
            Lookup::MultipleFound => two_marked(marks@),
        },
{
    let mut found: Option<usize> = None;
    let mut k: usize = 0;
    while k < marks.len()
        invariant
            k <= marks.len(),
            match found {
                Some(i) => i < k && marks@[i as int] && forall|j: int|
                    0 <= j < k && j != i ==> !marks@[j],
                None => forall|j: int| 0 <= j < k ==> !marks@[j],
            },
        decreases marks.len() - k,
    {
        if marks[k] {
            match found {
                Some(_) => {
                    return Lookup::MultipleFound;
                },
                None => {
                    found = Some(k);
                },
            }
        }
        k = k + 1;
    }
    match found {
        Some(i) => Lookup::Found(i),
        None => Lookup::NoneFound,
    }
}

/// The three outcomes exclude one another, and a unique entity is found at
/// one index only.
pub proof fn lemma_lookup_exclusive(marks: Seq<bool>, i: int, j: int)
    ensures
        is_only(marks, i) ==> !none_marked(marks) && !two_marked(marks),
        none_marked(marks) ==> !two_marked(marks),
        is_only(marks, i) && is_only(marks, j) ==> i == j,
{
}

} // verus!
