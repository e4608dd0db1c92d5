use vstd::prelude::*;

verus! {

/// Sends back the text of an echo request.
#[derive(Debug, Clone, PartialEq, Eq)]
pub struct EchoOk {
    pub echo: String,
}

impl Default for EchoOk {
    fn default() -> (r: Self)
        ensures
            r.echo@ == Seq::<char>::empty(),
    {
        EchoOk { echo: String::new() }
    }
}

} // verus!
