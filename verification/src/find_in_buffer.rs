//! Searching within one buffer.
use vstd::prelude::*;

verus! {

/// What the buffer search bar announces.
#[derive(Clone, Copy, Debug, PartialEq, Eq, Structural)]
pub enum Event {
    /// The search was given up.
    Cancel,
}

} // verus!
