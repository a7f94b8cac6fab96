use vstd::prelude::*;

verus! {

/// Returns the constant five.
pub fn five() -> (r: i32)
    ensures
        r == 5,
{
    5
}

} // verus!
