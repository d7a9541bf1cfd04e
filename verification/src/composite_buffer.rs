//! Handles of a buffer made of excerpts of other buffers.
use vstd::prelude::*;

verus! {

/// A subscription to the edits of a composite buffer.
pub struct CompositeBufferSubscription {}

/// A position in a composite buffer that moves with edits.
#[derive(Clone, Copy, Debug, PartialEq, Eq, Structural)]
pub struct CompositeAnchor {}

/// A set of anchored ranges in a composite buffer.
#[derive(Clone, Copy, Debug)]
pub struct CompositeAnchorRangeSet {}

/// A set of selections in a composite buffer, and whether it is the active
/// one.
#[derive(Clone, Copy, Debug)]
pub struct CompositeSelectionSet {
    pub active: bool,
}

} // verus!
