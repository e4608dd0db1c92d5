use vstd::prelude::*;

verus! {

/// Carries a fresh identifier.
#[derive(Debug, Clone, PartialEq, Eq)]
pub struct GenerateOk {
    pub id: String,
}

impl Default for GenerateOk {
    fn default() -> (r: Self)
        ensures
            r.id@ == Seq::<char>::empty(),
    {
        GenerateOk { id: String::new() }
    }
}

} // verus!
