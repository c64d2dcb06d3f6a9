//! The few operations on text that the engine needs.

use vstd::prelude::*;
use vstd::string::StringExecFns;

verus! {

/// `str`'s own `==`: whether two strings hold the same characters.
#[verifier::external_body]
pub(crate) fn str_eq(a: &str, b: &str) -> (r: bool)
    ensures
        r == (a@ == b@),
{
    a == b
}

/// `head`, then `middle`, then `tail`, as one string.
pub fn framed(head: &str, middle: &str, tail: &str) -> (r: String)
    ensures
        r@ == head@ + middle@ + tail@,
{
    let mut r = String::from_str(head);
    r.append(middle);
    r.append(tail);
    r
}

} // verus!
