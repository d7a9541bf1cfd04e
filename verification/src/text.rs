//! Small text helpers shared by the modules of this crate.
use vstd::prelude::*;

verus! {

/// `String::push`: appends `c`.
#[verifier::external_body]
pub(crate) fn push_char(s: &mut String, c: char)
    ensures
        final(s)@ == old(s)@.push(c),
{
    s.push(c)
}

} // verus!
