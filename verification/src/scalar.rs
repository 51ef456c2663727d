use vstd::prelude::*;

verus! {

/// A thin wrapper holding a single scalar value.
#[derive(Copy, Clone, PartialEq, Debug)]
pub struct Scalar<T> {
    val: T,
}

impl<T> Scalar<T> {
    /// The value this wrapper holds.
    pub closed spec fn spec_val(self) -> T {
        self.val
    }

    /// Create a new `Scalar`.
    pub fn new(val: T) -> (result: Scalar<T>)
        ensures
            result.spec_val() == val,
    {
        Scalar { val }
    }
}

} // verus!
