//! Stable sorting by a rank.
use vstd::prelude::*;

verus! {

/// What can be put in order by a number.
pub trait Ranked: Sized {
    /// The number by which values are put in order.
    spec fn rank(&self) -> int;

    /// Computes the rank.
    fn compute_rank(&self) -> (rank: i128)
        ensures
            rank == self.rank(),
    ;
}

/// No value stands before one of lower rank.
pub open spec fn ascending<T: Ranked>(s: Seq<T>) -> bool {
    forall|i: int, j: int| 0 <= i < j < s.len() ==> s[i].rank() <= s[j].rank()
}

/// Tells the values of rank `k`.
pub open spec fn has_rank<T: Ranked>(k: int) -> spec_fn(T) -> bool {
    |x: T| x.rank() == k
}

/// The values of rank `k`, in the order in which they stand in `s`.
pub open spec fn of_rank<T: Ranked>(s: Seq<T>, k: int) -> Seq<T> {
    s.filter(has_rank(k))
}

/// `sorted` holds the values of `s` by ascending rank, and values of one rank in
/// the order in which they stand in `s`.
pub open spec fn is_stable_sort_of<T: Ranked>(sorted: Seq<T>, s: Seq<T>) -> bool {
    &&& ascending(sorted)
    &&& forall|k: int| #[trigger] of_rank(sorted, k) == of_rank(s, k)
}

/// A part without values of rank `k` adds nothing to those of rank `k`.
proof fn lemma_none_of_rank<T: Ranked>(s: Seq<T>, k: int)
    requires
        forall|i: int| 0 <= i < s.len() ==> (#[trigger] s[i]).rank() != k,
    ensures
        of_rank(s, k) == Seq::<T>::empty(),
    decreases s.len(),
{
    reveal(Seq::filter);
    if s.len() > 0 {
        lemma_none_of_rank(s.drop_last(), k);
    }
}

/// The values of rank `k` in a sequence of one value.
proof fn lemma_single_of_rank<T: Ranked>(x: T, k: int)
    ensures
        of_rank(seq![x], k) == (if x.rank() == k {
            seq![x]
        } else {
            seq![]
        }),
{
    reveal(Seq::filter);
    assert(seq![x].drop_last() =~= Seq::<T>::empty());
    assert(of_rank(Seq::<T>::empty(), k) =~= Seq::<T>::empty());
}

/// A value that is put before the first one of no lower rank comes first among
/// those of its rank.
proof fn lemma_insert_of_rank<T: Ranked>(s: Seq<T>, p: int, x: T, k: int)
    requires
        0 <= p <= s.len(),
        forall|i: int| 0 <= i < p ==> (#[trigger] s[i]).rank() < x.rank(),
    ensures
        of_rank(s.insert(p, x), k) == of_rank(seq![x], k) + of_rank(s, k),
{
    let low = s.take(p);
    let high = s.skip(p);
    let f = has_rank::<T>(k);
    assert(s =~= low + high);
    assert(s.insert(p, x) =~= low + (seq![x] + high));
    Seq::filter_distributes_over_add(low, high, f);
    Seq::filter_distributes_over_add(low, seq![x] + high, f);
    Seq::filter_distributes_over_add(seq![x], high, f);
    lemma_single_of_rank(x, k);
    if x.rank() == k {
        lemma_none_of_rank(low, k);
    }
}

/// Where a value of rank `rank` goes in `s` to stand before all of no lower rank.
fn first_not_below<T: Ranked>(s: &Vec<T>, rank: i128) -> (p: usize)
    requires
        ascending(s@),
    ensures
        p <= s@.len(),
        forall|i: int| 0 <= i < p ==> (#[trigger] s@[i]).rank() < rank,
        forall|i: int| p <= i < s@.len() ==> rank <= (#[trigger] s@[i]).rank(),
{
    let mut low: usize = 0;
    let mut high: usize = s.len();
    while low < high
        invariant
            low <= high <= s@.len(),
            ascending(s@),
            forall|i: int| 0 <= i < low ==> (#[trigger] s@[i]).rank() < rank,
            forall|i: int| high <= i < s@.len() ==> rank <= (#[trigger] s@[i]).rank(),
        decreases high - low,
    {
        let mid: usize = low + (high - low) / 2;
        if s[mid].compute_rank() < rank {
            low = mid + 1;
        } else {
            high = mid;
        }
    }
    low
}

/// Puts values in order of ascending rank; values of one rank keep their order.
pub fn stable_sort<T: Ranked>(values: Vec<T>) -> (sorted: Vec<T>)
    ensures
        is_stable_sort_of(sorted@, values@),
        sorted@.to_multiset() == values@.to_multiset(),
        sorted@.len() == values@.len(),
{
    let mut left = values;
    let mut sorted: Vec<T> = Vec::new();
    proof {
        vstd::seq_lib::to_multiset_len(sorted@);
    }
    while left.len() > 0
        invariant
            ascending(sorted@),
            left@.len() + sorted@.len() == values@.len(),
            forall|k: int|
                of_rank(values@, k) == #[trigger] of_rank(left@, k) + of_rank(sorted@, k),
            values@.to_multiset() == left@.to_multiset().add(sorted@.to_multiset()),
        decreases left.len(),
    {
        let ghost left0 = left@;
        let ghost sorted0 = sorted@;
        let x = left.pop().unwrap();
        let p = first_not_below(&sorted, x.compute_rank());
        sorted.insert(p, x);
        proof {
            assert(left0 =~= left@ + seq![x]);
            assert(left0 =~= left@.push(x));
            vstd::seq_lib::to_multiset_build(left@, x);
            vstd::seq_lib::to_multiset_insert(sorted0, p as int, x);
            assert forall|k: int| of_rank(values@, k) == #[trigger] of_rank(left@, k) + of_rank(
                sorted@,
                k,
            ) by {
                Seq::filter_distributes_over_add(left@, seq![x], has_rank(k));
                lemma_insert_of_rank(sorted0, p as int, x, k);
                assert(of_rank(values@, k) == of_rank(left0, k) + of_rank(sorted0, k));
            }
        }
    }
    proof {
        assert forall|k: int| #[trigger] of_rank(sorted@, k) == of_rank(values@, k) by {
            lemma_none_of_rank(left@, k);
        }
        vstd::seq_lib::to_multiset_len(left@);
    }
    sorted
}

} // verus!
