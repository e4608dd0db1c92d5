//! What every kind of payload offers.

use vstd::prelude::*;

verus! {

/// A payload: a value with a mathematical model that can be copied without
/// changing the model.
pub trait Type: View + Sized {
    /// An independent copy with the same model.
    fn duplicate(&self) -> (r: Self)
        ensures
            r@ == self@,
    ;
}

} // verus!
