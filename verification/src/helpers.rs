use vstd::prelude::*;
use vstd::std_specs::cmp::PartialEqSpec;

verus! {

/// Whether some element of `s` equals `current` by the element type's `==`.
pub open spec fn occurs<T: PartialEq>(current: T, s: Seq<T>) -> bool {
    exists|i: int| 0 <= i < s.len() && #[trigger] s[i].eq_spec(&current)
}

/// Whether `current` occurs in `slice`, compared with the element type's `==`.
pub fn check_exists<T: PartialEq>(current: &T, slice: &[T]) -> (found: bool)
    ensures
        T::obeys_eq_spec() ==> found == occurs(*current, slice@),
{
    let mut i: usize = 0;
    while i < slice.len()
        invariant
            i <= slice@.len(),
            T::obeys_eq_spec() ==> forall|j: int| 0 <= j < i ==> !#[trigger] slice@[j].eq_spec(current),
        decreases slice@.len() - i,
    {
        if slice[i] == *current {
            return true;
        }
        i = i + 1;
    }
    false
}

/// Nothing occurs in an empty slice; a value occurs in a single element
/// exactly when it equals it; and it occurs in two slices joined together
/// exactly when it occurs in one of them.
pub proof fn law_check_exists_parts<T: PartialEq>(current: T, s1: Seq<T>, s2: Seq<T>, x: T)
    ensures
        !occurs(current, Seq::<T>::empty()),
        occurs(current, seq![x]) == x.eq_spec(&current),
        occurs(current, s1 + s2) == (occurs(current, s1) || occurs(current, s2)),
{
    let joined = s1 + s2;
    if occurs(current, joined) {
        let i = choose|i: int| 0 <= i < joined.len() && #[trigger] joined[i].eq_spec(&current);
        if i < s1.len() {
            assert(s1[i] == joined[i]);
        } else {
            assert(s2[i - s1.len()] == joined[i]);
        }
    }
    if occurs(current, s1) {
        let i = choose|i: int| 0 <= i < s1.len() && #[trigger] s1[i].eq_spec(&current);
        assert(joined[i] == s1[i]);
    }
    if occurs(current, s2) {
        let i = choose|i: int| 0 <= i < s2.len() && #[trigger] s2[i].eq_spec(&current);
        assert(joined[i + s1.len()] == s2[i]);
    }
    if x.eq_spec(&current) {
        assert(seq![x][0] == x);
    }
}

} // verus!
