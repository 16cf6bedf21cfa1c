//! Building fixed-size arrays element by element.
use vstd::prelude::*;

verus! {

/// Calls `std::array::from_fn`, which builds the array whose element `i` is what `cb`
/// returns for the index `i`. The contract claims that each element is a possible result
/// of `cb` on its index, and that `cb` is called only on indices below `N`.
#[verifier::external_body]
fn std_array_from_fn<F, T, const N: usize>(cb: F) -> (arr: [T; N]) where F: Fn(usize) -> T
    requires
        forall|i: usize| i < N ==> #[trigger] call_requires(cb, (i,)),
    ensures
        forall|i: int| 0 <= i < N ==> call_ensures(cb, (i as usize,), #[trigger] arr[i]),
{
    std::array::from_fn(cb)
}

/// The array whose element `i` is `cb(i)`.
pub fn array_from_fn<F, T, const N: usize>(cb: F) -> (arr: [T; N]) where F: Fn(usize) -> T
    requires
        forall|i: usize| i < N ==> #[trigger] call_requires(cb, (i,)),
    ensures
        forall|i: int| 0 <= i < N ==> call_ensures(cb, (i as usize,), #[trigger] arr[i]),
{
    std_array_from_fn(cb)
}

} // verus!
