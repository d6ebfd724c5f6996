//! Keyboard state.

use vstd::prelude::*;

verus! {

/// Keyboard state; it tracks nothing yet.
#[derive(Clone, Copy, Debug, PartialEq, Eq, Structural)]
pub struct Keyboard {}

impl Keyboard {
    pub fn new() -> (r: Keyboard)
        ensures
            r == (Keyboard {}),
    {
        Keyboard {}
    }
}

} // verus!
