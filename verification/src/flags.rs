//! Descriptor status flags: clearing one flag out of a flag word.
use vstd::prelude::*;

verus! {

/// The flag word `previous` with every bit of `flag` cleared.
pub open spec fn cleared(previous: i32, flag: i32) -> i32 {
    previous & !flag
}

/// Computes the flag word to store when `flag` is to be removed from
/// `previous`. `None` means the word already lacks the flag and nothing has
/// to be written back.
pub fn flags_without(previous: i32, flag: i32) -> (out: Option<i32>)
    ensures
        out == (if cleared(previous, flag) == previous {
            None::<i32>
        } else {
            Some(cleared(previous, flag))
        }),
{
    let new: i32 = previous & !flag;
    if new != previous {
        Some(new)
    } else {
        None
    }
}

} // verus!
