//! The find panel of the editor.
use vstd::prelude::*;

verus! {

/// What the find panel announces.
#[derive(Clone, Copy, Debug, PartialEq, Eq, Structural)]
pub enum Event {
    /// The search was given up.
    Cancel,
}

/// The find panel.
pub struct FindPanel {}

impl FindPanel {
    /// The find panel, which holds no state of its own.
    pub fn new() -> (p: FindPanel)
        ensures
            p == (FindPanel {}),
    {
        FindPanel {}
    }

    /// Gives up the search: the panel announces `Cancel`.
    pub fn cancel(&mut self) -> (e: Event)
        ensures
            e == Event::Cancel,
    {
        Event::Cancel
    }
}

} // verus!
