use vstd::prelude::*;

verus! {

/// Acknowledges an initialisation.
#[derive(Default, Debug, Clone, Copy, PartialEq, Eq)]
pub struct InitOk;

} // verus!
