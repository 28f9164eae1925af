//! Joining pieces of text.

use vstd::prelude::*;

verus! {

/// `first` followed by `second`.
pub(crate) fn join2(first: &str, second: &str) -> (joined: String)
    ensures
        joined@ == first@ + second@,
{
    let mut joined = first.to_owned();
    joined.append(second);
    joined
}

/// `first`, `second` and `third` in a row.
pub(crate) fn join3(first: &str, second: &str, third: &str) -> (joined: String)
    ensures
        joined@ == first@ + second@ + third@,
{
    let mut joined = join2(first, second);
    joined.append(third);
    joined
}

/// `first`, `second`, `third` and `fourth` in a row.
pub(crate) fn join4(first: &str, second: &str, third: &str, fourth: &str) -> (joined: String)
    ensures
        joined@ == first@ + second@ + third@ + fourth@,
{
    let mut joined = join3(first, second, third);
    joined.append(fourth);
    joined
}

} // verus!
