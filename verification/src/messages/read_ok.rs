use crate::sets::copy_set;
use std::collections::HashSet;
use vstd::prelude::*;

verus! {

/// Carries the values a node knows.
#[derive(Debug, PartialEq, Eq)]
pub struct ReadOk {
    pub messages: HashSet<usize>,
}

impl Clone for ReadOk {
    fn clone(&self) -> (r: Self)
        ensures
            r.messages@ == self.messages@,
    {
        ReadOk { messages: copy_set(&self.messages) }
    }
}

impl Default for ReadOk {
    fn default() -> (r: Self)
        ensures
            r.messages@ == Set::<usize>::empty(),
    {
        ReadOk { messages: HashSet::new() }
    }
}

} // verus!
