use vstd::prelude::*;

verus! {

/// The dot product of two vectors.
pub trait Dot<Rhs>: Sized {
    type Output;

    /// What the component types need for the product to be computed (for
    /// fixed-width integers: that no step overflows).
    spec fn dot_req(self, rhs: Rhs) -> bool;

    fn dot(self, rhs: Rhs) -> Self::Output
        requires
            self.dot_req(rhs),
    ;
}

} // verus!
