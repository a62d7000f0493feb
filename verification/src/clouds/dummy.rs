//! A cloud that provisions nothing. It only answers the smoke test.

use vstd::prelude::*;

verus! {

#[derive(Clone, Copy, Debug)]
pub struct KubeLift;

impl KubeLift {
    /// The line that tells this plugin from the others.
    pub fn smoke(&self) -> (banner: String)
        ensures
            banner@ == "This is the dummy plugin for KubeLift!"@,
    {
        String::from_str("This is the dummy plugin for KubeLift!")
    }
}

} // verus!
