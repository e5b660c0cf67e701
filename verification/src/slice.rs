//! Slice access with the bounds that make it safe: length, element and range
//! indexing, element-wise equality and iteration by splitting off the first element.
use vstd::prelude::*;
use vstd::std_specs::cmp::PartialEqSpec;

verus! {

/// The number of elements of a slice.
pub fn len<T>(s: &[T]) -> (n: usize)
    ensures
        n == s@.len(),
{
    s.len()
}

/// The element at `index`.
pub fn index<T>(s: &[T], i: usize) -> (e: &T)
    requires
        i < s@.len(),
    ensures
        *e == s@[i as int],
{
    &s[i]
}

/// The element at `i`, to modify in place.
pub fn index_mut<T>(s: &mut [T], i: usize) -> (e: &mut T)
    requires
        i < old(s)@.len(),
    ensures
        *e == old(s)@[i as int],
        final(s)@ == old(s)@.update(i as int, *final(e)),
{
    &mut s[i]
}

/// The elements from `start` up to, not including, `end`.
pub fn index_range<T>(s: &[T], start: usize, end: usize) -> (r: &[T])
    requires
        start <= end,
        end <= s@.len(),
    ensures
        r@ == s@.subrange(start as int, end as int),
{
    &s[start..end]
}

/// The elements from `start` up to, not including, `end`, to modify in place.
pub fn index_range_mut<T>(s: &mut [T], start: usize, end: usize) -> (r: &mut [T])
    requires
        start <= end,
        end <= old(s)@.len(),
    ensures
        r@ == old(s)@.subrange(start as int, end as int),
        final(s)@ == old(s)@.subrange(0, start as int) + final(r)@ + old(s)@.subrange(
            end as int,
            old(s)@.len() as int,
        ),
{
    let (_, tail) = s.split_at_mut(start);
    let (middle, _) = tail.split_at_mut(end - start);
    middle
}

/// The elements before `end`.
pub fn index_to<T>(s: &[T], end: usize) -> (r: &[T])
    requires
        end <= s@.len(),
    ensures
        r@ == s@.subrange(0, end as int),
{
    index_range(s, 0, end)
}

/// The elements from `start` on.
pub fn index_from<T>(s: &[T], start: usize) -> (r: &[T])
    requires
        start <= s@.len(),
    ensures
        r@ == s@.subrange(start as int, s@.len() as int),
{
    index_range(s, start, s.len())
}

/// All elements.
pub fn index_full<T>(s: &[T]) -> (r: &[T])
    ensures
        r@ == s@,
{
    s
}

/// The elements before `end`, to modify in place.
pub fn index_to_mut<T>(s: &mut [T], end: usize) -> (r: &mut [T])
    requires
        end <= old(s)@.len(),
    ensures
        r@ == old(s)@.subrange(0, end as int),
        final(s)@ == final(r)@ + old(s)@.subrange(end as int, old(s)@.len() as int),
{
    let r = index_range_mut(s, 0, end);
    proof {
        assert(old(s)@.subrange(0, 0) =~= Seq::<T>::empty());
    }
    r
}

/// The elements from `start` on, to modify in place.
pub fn index_from_mut<T>(s: &mut [T], start: usize) -> (r: &mut [T])
    requires
        start <= old(s)@.len(),
    ensures
        r@ == old(s)@.subrange(start as int, old(s)@.len() as int),
        final(s)@ == old(s)@.subrange(0, start as int) + final(r)@,
{
    let len = s.len();
    let r = index_range_mut(s, start, len);
    proof {
        assert(old(s)@.subrange(len as int, len as int) =~= Seq::<T>::empty());
    }
    r
}

/// All elements, to modify in place.
pub fn index_full_mut<T>(s: &mut [T]) -> (r: &mut [T])
    ensures
        r@ == old(s)@,
        final(s)@ == final(r)@,
{
    s
}

/// Whether two sequences have the same length and pairwise equal elements, by the
/// element type's equality.
pub open spec fn elementwise_eq<T: PartialEq>(a: Seq<T>, b: Seq<T>) -> bool {
    &&& a.len() == b.len()
    &&& forall|i: int| 0 <= i < a.len() ==> #[trigger] a[i].eq_spec(&b[i])
}

/// Whether two slices are equal: same length and pairwise equal elements.
///
/// Where the element type's `==` follows its specification, the result is exactly element-wise
/// equality; slices of different lengths are never equal.
pub fn eq<T: PartialEq>(a: &[T], b: &[T]) -> (r: bool)
    ensures
        T::obeys_eq_spec() ==> r == elementwise_eq(a@, b@),
        a@.len() != b@.len() ==> !r,
{
    if a.len() != b.len() {
        return false;
    }
    let mut idx: usize = 0;
    while idx < a.len()
        invariant
            a@.len() == b@.len(),
            idx <= a@.len(),
            T::obeys_eq_spec() ==> forall|i: int| 0 <= i < idx ==> #[trigger] a@[i].eq_spec(&b@[i]),
        decreases a@.len() - idx,
    {
        if a[idx] != b[idx] {
            return false;
        }
        idx += 1;
    }
    true
}

/// Slice equality is reflexive where the element equality is: by `eq`'s contract, a slice
/// then equals itself whenever the element type's `==` follows its specification.
pub proof fn lemma_eq_reflexive<T: PartialEq>(a: Seq<T>)
    requires
        forall|x: T| #[trigger] x.eq_spec(&x),
    ensures
        elementwise_eq(a, a),
{
    assert forall|i: int| 0 <= i < a.len() implies #[trigger] a[i].eq_spec(&a[i]) by {
        let x = a[i];
        assert(x.eq_spec(&x));
    }
}

/// Slice equality is symmetric where the element equality is: by `eq`'s contract,
/// comparing `a` with `b` then gives what comparing `b` with `a` gives.
pub proof fn lemma_eq_symmetric<T: PartialEq>(a: Seq<T>, b: Seq<T>)
    requires
        forall|x: T, y: T| #[trigger] x.eq_spec(&y) == y.eq_spec(&x),
    ensures
        elementwise_eq(a, b) == elementwise_eq(b, a),
{
    if a.len() == b.len() {
        assert forall|i: int| 0 <= i < a.len() implies #[trigger] a[i].eq_spec(&b[i]) == b[i].eq_spec(
            &a[i],
        ) by {
            let x = a[i];
            let y = b[i];
            assert(x.eq_spec(&y) == y.eq_spec(&x));
        }
    }
}

/// Slices are equal exactly when they have the same length and, at every position, the
/// elements compare equal: one differing position or a difference in length makes them
/// unequal.
pub proof fn lemma_eq_means_every_element<T: PartialEq>(a: Seq<T>, b: Seq<T>, i: int)
    ensures
        elementwise_eq(a, b) ==> a.len() == b.len(),
        elementwise_eq(a, b) && 0 <= i < a.len() ==> a[i].eq_spec(&b[i]),
        0 <= i < a.len() && i < b.len() && !a[i].eq_spec(&b[i]) ==> !elementwise_eq(a, b),
        a.len() == b.len() && (forall|j: int| 0 <= j < a.len() ==> #[trigger] a[j].eq_spec(&b[j]))
            ==> elementwise_eq(a, b),
{
}

/// Taking the first element off a sequence: the element, if there is one, and what is left.
/// An empty sequence gives nothing and stays empty.
pub open spec fn take_first<T>(s: Seq<T>) -> (Option<T>, Seq<T>) {
    if s.len() == 0 {
        (None, s)
    } else {
        (Some(s[0]), s.subrange(1, s.len() as int))
    }
}

/// What is left of a sequence after `k` elements were taken off its front one at a time.
pub open spec fn after_takes<T>(s: Seq<T>, k: nat) -> Seq<T>
    decreases k,
{
    if k == 0 {
        s
    } else {
        take_first(after_takes(s, (k - 1) as nat)).1
    }
}

/// Iterating a sequence of length `n`: the call after `k < n` earlier ones yields the
/// element at `k` and leaves the elements after it; once `n` calls were made, every later
/// call yields nothing and the sequence stays empty.
pub proof fn lemma_iteration<T>(s: Seq<T>, k: nat)
    ensures
        k < s.len() ==> after_takes(s, k) == s.subrange(k as int, s.len() as int)
            && take_first(after_takes(s, k)).0 == Some(s[k as int]),
        k >= s.len() ==> after_takes(s, k) == Seq::<T>::empty() && take_first(
            after_takes(s, k),
        ).0 is None,
    decreases k,
{
    if k == 0 {
        assert(s.subrange(0, s.len() as int) =~= s);
        if s.len() == 0 {
            assert(s =~= Seq::<T>::empty());
        }
    } else {
        lemma_iteration(s, (k - 1) as nat);
        let prev = after_takes(s, (k - 1) as nat);
        if k - 1 < s.len() {
            assert(take_first(prev).1 =~= s.subrange(k as int, s.len() as int));
            if k == s.len() {
                assert(s.subrange(k as int, s.len() as int) =~= Seq::<T>::empty());
            }
        }
    }
}

/// Takes the first element off the front of a slice: the slice then holds the rest.
/// An empty slice yields nothing and stays empty.
pub fn next<'a, T>(s: &mut &'a [T]) -> (e: Option<&'a T>)
    ensures
        final(s)@ == take_first(old(s)@).1,
        e is None <==> take_first(old(s)@).0 is None,
        e matches Some(x) ==> take_first(old(s)@).0 == Some(*x),
        old(s)@.len() == 0 ==> e is None && final(s)@ == old(s)@,
        old(s)@.len() > 0 ==> (e matches Some(x) && *x == old(s)@[0]) && final(s)@ == old(
            s,
        )@.subrange(1, old(s)@.len() as int),
{
    if s.len() > 0 {
        let rest: &'a [T] = *s;
        let first = &rest[0];
        *s = &rest[1..rest.len()];
        Some(first)
    } else {
        None
    }
}

/// Takes the first element off the front of a mutable slice, for modification: the slice
/// then holds the rest. What the element and the rest finally hold is what the original
/// slice finally holds. An empty slice yields nothing and stays empty.
pub fn next_mut<'a, T>(s: &mut &'a mut [T]) -> (e: Option<&'a mut T>)
    ensures
        final(s)@ == take_first(old(s)@).1,
        e is None <==> take_first(old(s)@).0 is None,
        e matches Some(x) ==> take_first(old(s)@).0 == Some(*x),
        old(s)@.len() == 0 ==> e is None && final(s)@ == old(s)@,
        old(s)@.len() > 0 ==> (e matches Some(x) && *x == old(s)@[0]) && final(s)@ == old(
            s,
        )@.subrange(1, old(s)@.len() as int),
        old(s)@.len() > 0 ==> (e matches Some(x) && final(*old(s))@
            == seq![*final(x)] + final(*final(s))@),
{
    if s.len() > 0 {
        let mut taken: &'a mut [T] = &mut [];
        core::mem::swap(s, &mut taken);
        let (first, rest) = taken.split_at_mut(1);
        *s = rest;
        first.first_mut()
    } else {
        None
    }
}

} // verus!
