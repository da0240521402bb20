//! The duplication scanner: a generic, reusable primitive that finds the
//! first element of a sequence that repeats an earlier element under a
//! caller-chosen key equality.

use vstd::prelude::*;

verus! {

/// Equality under a table-specific uniqueness key.
///
/// Each table entry type chooses which of its fields form its key: most
/// compare the full value, struct and function handles compare only
/// `(owning module, name)`, and definitions compare only their handle index.
pub trait DupKey: Sized {
    /// What key equality means, in specification terms.
    spec fn keq(self, other: Self) -> bool;

    /// Executable decision procedure for `keq`.
    fn eq_key(&self, other: &Self) -> (r: bool)
        ensures
            r == self.keq(*other),
    ;
}

/// The element at position `i` of `s` repeats some earlier element.
pub open spec fn has_earlier_eq<T: DupKey>(s: Seq<T>, i: int) -> bool {
    exists|j: int| 0 <= j < i && #[trigger] s[j].keq(s[i])
}

/// The first position in `[i, len)` satisfying `p`, scanning left to right.
pub open spec fn first_from(len: int, p: spec_fn(int) -> bool, i: int) -> Option<int>
    recommends
        0 <= i,
    decreases len - i,
{
    if i < 0 || i >= len {
        None
    } else if p(i) {
        Some(i)
    } else {
        first_from(len, p, i + 1)
    }
}

/// The first position in `[0, len)` satisfying `p`.
pub open spec fn first_index(len: int, p: spec_fn(int) -> bool) -> Option<int> {
    first_from(len, p, 0)
}

/// A scan comes up empty exactly when no position qualifies.
pub proof fn lemma_first_from_none(len: int, p: spec_fn(int) -> bool, i: int)
    requires
        0 <= i,
    ensures
        (first_from(len, p, i) is None) <==> (forall|k: int| i <= k < len ==> !(#[trigger] p(k))),
    decreases len - i,
{
    if i < len {
        lemma_first_from_none(len, p, i + 1);
    }
}

/// A found position qualifies, and no earlier position in range does.
pub proof fn lemma_first_from_some(len: int, p: spec_fn(int) -> bool, i: int, j: int)
    requires
        0 <= i,
        first_from(len, p, i) == Some(j),
    ensures
        i <= j < len,
        p(j),
        forall|k: int| i <= k < j ==> !(#[trigger] p(k)),
    decreases len - i,
{
    if i < len && !p(i) {
        lemma_first_from_some(len, p, i + 1, j);
    }
}

/// A position that qualifies, with none qualifying before it, is the one found.
pub proof fn lemma_first_from_found(len: int, p: spec_fn(int) -> bool, i: int, j: int)
    requires
        0 <= i <= j < len,
        p(j),
        forall|k: int| i <= k < j ==> !(#[trigger] p(k)),
    ensures
        first_from(len, p, i) == Some(j),
    decreases j - i,
{
    if i < j {
        lemma_first_from_found(len, p, i + 1, j);
    }
}

/// The position of the first element of `s` that repeats an earlier one.
pub open spec fn first_dup<T: DupKey>(s: Seq<T>) -> Option<int> {
    first_index(s.len() as int, |i: int| has_earlier_eq(s, i))
}

/// No element of `s` repeats an earlier one.
pub open spec fn dup_free<T: DupKey>(s: Seq<T>) -> bool {
    forall|i: int| 0 <= i < s.len() ==> !has_earlier_eq(s, i)
}

/// The scan finds nothing exactly on duplicate-free sequences.
pub proof fn lemma_first_dup_none_iff<T: DupKey>(s: Seq<T>)
    ensures
        (first_dup(s) is None) <==> dup_free(s),
{
    let p = |i: int| has_earlier_eq(s, i);
    lemma_first_from_none(s.len() as int, p, 0);
    if first_dup(s) is None {
        assert forall|i: int| 0 <= i < s.len() implies !has_earlier_eq(s, i) by {
            assert(!p(i));
        }
    } else {
        let j = first_dup(s)->Some_0;
        lemma_first_from_some(s.len() as int, p, 0, j);
        assert(has_earlier_eq(s, j));
    }
}

/// If position `i` is the second occurrence of the first repeated key —
/// it matches some earlier `j`, and nothing before `i` repeats — then the
/// scan reports exactly `i`.  This holds for every key equality, hence for
/// every table independently.
pub proof fn lemma_first_dup_detects<T: DupKey>(s: Seq<T>, i: int, j: int)
    requires
        0 <= j < i < s.len(),
        s[j].keq(s[i]),
        forall|k: int| 0 <= k < i ==> !has_earlier_eq(s, k),
    ensures
        first_dup(s) == Some(i),
{
    assert(has_earlier_eq(s, i));
    lemma_first_from_found(s.len() as int, |k: int| has_earlier_eq(s, k), 0, i);
}

/// Maps an executable scan result onto the specification-level index.
pub open spec fn as_int_index(r: Option<usize>) -> Option<int> {
    match r {
        Some(i) => Some(i as int),
        None => None,
    }
}

/// Returns the position of the first element equal (under [`DupKey`]) to an
/// earlier element, or `None` if all elements are distinct.
///
/// The reported position is always that of the second occurrence of the
/// first value that repeats while scanning left to right.
pub fn first_duplicate_element<T: DupKey>(items: &Vec<T>) -> (r: Option<usize>)
    ensures
        as_int_index(r) == first_dup(items@),
{
    let n: usize = items.len();
    let mut i: usize = 0;
    while i < n
        invariant
            i <= n,
            n == items@.len(),
            forall|k: int| 0 <= k < i ==> !has_earlier_eq(items@, k),
        decreases n - i,
    {
        let mut j: usize = 0;
        while j < i
            invariant
                j <= i < n,
                n == items@.len(),
                forall|k: int| 0 <= k < i ==> !has_earlier_eq(items@, k),
                forall|jj: int| 0 <= jj < j ==> !items@[jj].keq(items@[i as int]),
            decreases i - j,
        {
            if items[j].eq_key(&items[i]) {
                proof {
                    assert(has_earlier_eq(items@, i as int));
                    lemma_first_from_found(
                        items@.len() as int,
                        |k: int| has_earlier_eq(items@, k),
                        0,
                        i as int,
                    );
                }
                return Some(i);
            }
            j += 1;
        }
        proof {
            assert(!has_earlier_eq(items@, i as int)) by {
                if has_earlier_eq(items@, i as int) {
                    let jj = choose|jj: int| 0 <= jj < i && #[trigger] items@[jj].keq(
                        items@[i as int],
                    );
                    assert(!items@[jj].keq(items@[i as int]));
                }
            }
        }
        i += 1;
    }
    proof {
        lemma_first_from_none(items@.len() as int, |k: int| has_earlier_eq(items@, k), 0);
    }
    None
}

} // verus!
