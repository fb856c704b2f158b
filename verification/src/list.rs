//! Lists of values that have a model.

use vstd::prelude::*;
use vstd::std_specs::cmp::PartialEqSpec;

verus! {

/// The models of the values of a list, in order.
pub open spec fn models<T: View>(items: Seq<T>) -> Seq<T::V> {
    items.map_values(|item: T| item@)
}

/// Whether `==` on `T` compares models.
pub open spec fn compares_models<T: PartialEq + View>() -> bool {
    &&& T::obeys_eq_spec()
    &&& forall|x: T, y: T| #[trigger] x.eq_spec(&y) == (x@ == y@)
}

/// Whether two lists hold equal values in the same order.
pub fn lists_equal<T: PartialEq + View>(a: &Vec<T>, b: &Vec<T>) -> (r: bool)
    requires
        compares_models::<T>(),
    ensures
        r == (models(a@) == models(b@)),
{
    if a.len() != b.len() {
        assert(models(a@).len() != models(b@).len());
        return false;
    }
    let mut i: usize = 0;
    while i < a.len()
        invariant
            i <= a.len(),
            a.len() == b.len(),
            compares_models::<T>(),
            forall|j: int| 0 <= j < i ==> a@[j]@ == b@[j]@,
        decreases a.len() - i,
    {
        if !(a[i] == b[i]) {
            assert(models(a@)[i as int] != models(b@)[i as int]);
            return false;
        }
        i += 1;
    }
    assert(models(a@) =~= models(b@));
    true
}

/// Whether `clone` on `T` keeps the model.
pub open spec fn clone_keeps_model<T: Clone + View>() -> bool {
    forall|x: T, r: T| #[trigger] call_ensures(T::clone, (&x,), r) ==> r@ == x@
}

/// A copy of a list.
pub fn clone_list<T: Clone + View>(items: &Vec<T>) -> (r: Vec<T>)
    requires
        clone_keeps_model::<T>(),
    ensures
        models(r@) == models(items@),
{
    let mut r: Vec<T> = Vec::new();
    let mut i: usize = 0;
    while i < items.len()
        invariant
            i <= items.len(),
            r.len() == i,
            clone_keeps_model::<T>(),
            forall|j: int| 0 <= j < i ==> r@[j]@ == items@[j]@,
        decreases items.len() - i,
    {
        r.push(items[i].clone());
        i += 1;
    }
    assert(models(r@) =~= models(items@));
    r
}

/// Two lists have equal models exactly where they are equally long and
/// hold values with equal models at every position.
pub proof fn lemma_models_equal<T: View>(a: Seq<T>, b: Seq<T>)
    ensures
        models(a) == models(b) <==> a.len() == b.len() && forall|i: int|
            0 <= i < a.len() ==> (#[trigger] a[i])@ == b[i]@,
{
    if models(a) == models(b) {
        assert(models(a).len() == a.len() && models(b).len() == b.len());
        assert forall|i: int| 0 <= i < a.len() implies (#[trigger] a[i])@ == b[i]@ by {
            assert(models(a)[i] == a[i]@);
            assert(models(b)[i] == b[i]@);
        }
    }
    if a.len() == b.len() && forall|i: int| 0 <= i < a.len() ==> (#[trigger] a[i])@ == b[i]@ {
        assert(models(a) =~= models(b));
    }
}

} // verus!
