use vstd::prelude::*;

verus! {

/// Asks for `echo` to be sent back.
#[derive(Debug, Clone, PartialEq, Eq)]
pub struct Echo {
    pub echo: String,
}

impl Default for Echo {
    fn default() -> (r: Self)
        ensures
            r.echo@ == Seq::<char>::empty(),
    {
        Echo { echo: String::new() }
    }
}

} // verus!
