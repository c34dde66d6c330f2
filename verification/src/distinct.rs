//! Sequences without repetition.

use vstd::prelude::*;

verus! {

/// `s` without what occurred in it before: of equal items the first stays,
/// in its place among the others that stay.
pub open spec fn distinct<T>(s: Seq<T>) -> Seq<T>
    decreases s.len(),
{
    if s.len() == 0 {
        s
    } else {
        let front = distinct(s.drop_last());
        if front.contains(s.last()) {
            front
        } else {
            front.push(s.last())
        }
    }
}

/// `distinct(s)` holds nothing twice, and holds just what `s` holds.
pub proof fn lemma_distinct<T>(s: Seq<T>)
    ensures
        distinct(s).no_duplicates(),
        forall|x: T| distinct(s).contains(x) <==> s.contains(x),
    decreases s.len(),
{
    if s.len() > 0 {
        let shorter = s.drop_last();
        let last = s.last();
        let front = distinct(shorter);
        lemma_distinct(shorter);
        assert(s =~= shorter.push(last));
        assert forall|x: T| distinct(s).contains(x) <==> s.contains(x) by {
            vstd::seq_lib::lemma_seq_contains_after_push(shorter, last, x);
            vstd::seq_lib::lemma_seq_contains_after_push(front, last, x);
        }
        if !front.contains(last) {
            let longer = front.push(last);
            assert forall|i: int, j: int|
                0 <= i < longer.len() && 0 <= j < longer.len() && i != j implies longer[i]
                != longer[j] by {
                if i == front.len() {
                    assert(front[j] != last);
                } else if j == front.len() {
                    assert(front[i] != last);
                }
            }
        }
    }
}

} // verus!
