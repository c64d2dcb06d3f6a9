//! Fixed-size arrays whose length is a type parameter, built at run time
//! from one value or from the element type's default.

use vstd::prelude::*;

verus! {

/// `Vec::try_into` for an array: the vector's elements as an array when the
/// vector has exactly `N` of them, and the vector itself back as the error
/// when it has not.
#[verifier::external_body]
fn vec_into_array<T, const N: usize>(v: Vec<T>) -> (r: Result<[T; N], Vec<T>>)
    ensures
        v@.len() == N ==> r is Ok && r->Ok_0@ == v@,
        v@.len() != N ==> r is Err && r->Err_0 == v,
{
    v.try_into()
}

/// An array of `N` clones of `init_val`.
pub fn filled_with_clones<T: Clone, const N: usize>(init_val: &T) -> (r: [T; N])
    ensures
        forall|i: int| 0 <= i < N ==> cloned(*init_val, #[trigger] r@[i]),
{
    let mut v: Vec<T> = Vec::new();
    let mut i: usize = 0;
    while i < N
        invariant
            i <= N,
            v@.len() == i,
            forall|j: int| 0 <= j < i ==> cloned(*init_val, #[trigger] v@[j]),
        decreases N - i,
    {
        v.push(init_val.clone());
        i += 1;
    }
    match vec_into_array(v) {
        Ok(a) => a,
        Err(_) => unreached(),
    }
}

/// An array of `N` default values of `T`.
pub fn filled_with_defaults<T: Default, const N: usize>() -> (r: [T; N])
    ensures
        forall|i: int| 0 <= i < N ==> call_ensures(T::default, (), #[trigger] r@[i]),
{
    let mut v: Vec<T> = Vec::new();
    let mut i: usize = 0;
    while i < N
        invariant
            i <= N,
            v@.len() == i,
            forall|j: int| 0 <= j < i ==> call_ensures(T::default, (), #[trigger] v@[j]),
        decreases N - i,
    {
        v.push(T::default());
        i += 1;
    }
    match vec_into_array(v) {
        Ok(a) => a,
        Err(_) => unreached(),
    }
}

} // verus!
