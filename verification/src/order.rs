//! Taking the items of a vector in their order, one owner at a time.

use vstd::prelude::*;

verus! {

/// The same items in the opposite order, so that `pop` hands them out first
/// to last.
pub fn reversed<T>(items: Vec<T>) -> (r: Vec<T>)
    ensures
        r@.len() == items@.len(),
        forall|k: int| 0 <= k < r@.len() ==> r@[k] == items@[items@.len() - 1 - k],
{
    let mut rest = items;
    let mut r: Vec<T> = Vec::new();
    while rest.len() > 0
        invariant
            rest@.len() + r@.len() == items@.len(),
            forall|k: int| 0 <= k < rest@.len() ==> rest@[k] == items@[k],
            forall|k: int| 0 <= k < r@.len() ==> r@[k] == items@[items@.len() - 1 - k],
        decreases rest@.len(),
    {
        match rest.pop() {
            Some(item) => {
                r.push(item);
            },
            None => {},
        }
    }
    r
}

} // verus!
