//! Small layout vocabulary of the UI framework: axes and orientations,
//! visibility and white-space handling, scrollable containers, and the
//! alignment of GPU buffer offsets.
use vstd::prelude::*;

verus! {

/// A direction in the plane.
#[derive(Clone, Copy, Debug, PartialEq, Eq, Structural)]
pub enum Axis {
    Horizontal,
    Vertical,
}

/// How a container lays out its children: along an axis, or stacked on
/// top of each other.
#[derive(Clone, Copy, Debug, PartialEq, Eq, Structural)]
pub enum Orientation {
    Axial(Axis),
    Stacked,
}

impl Default for Orientation {
    /// Children are laid out from top to bottom.
    fn default() -> (o: Orientation)
        ensures
            o == Orientation::Axial(Axis::Vertical),
    {
        Orientation::Axial(Axis::Vertical)
    }
}

/// Whether an element is drawn.
#[derive(Clone, Copy, Debug, PartialEq, Eq, Structural)]
pub enum Visibility {
    Visible,
    Hidden,
}

impl Default for Visibility {
    fn default() -> (v: Visibility)
        ensures
            v == Visibility::Visible,
    {
        Visibility::Visible
    }
}

/// How white space in text is handled.
#[derive(Clone, Copy, Debug, PartialEq, Eq, Structural)]
pub enum WhiteSpace {
    /// Lines wrap at white space.
    Normal,
    /// Lines do not wrap.
    Nowrap,
}

impl Default for WhiteSpace {
    fn default() -> (w: WhiteSpace)
        ensures
            w == WhiteSpace::Normal,
    {
        WhiteSpace::Normal
    }
}

/// A child element that may be scrolled along either axis.  `C` is the
/// child element and `S` the handle of the scroll position kept between
/// frames.
pub struct Scrollable<C, S> {
    pub child: C,
    pub horizontal: bool,
    pub vertical: bool,
    pub state: S,
}

impl<C, S> Scrollable<C, S> {
    /// `child`, not scrollable yet, whose scroll position is kept in `state`.
    pub fn new(child: C, state: S) -> (s: Self)
        ensures
            s.child == child,
            s.state == state,
            !s.horizontal,
            !s.vertical,
    {
        Scrollable { child, horizontal: false, vertical: false, state }
    }

    /// Sets whether the child scrolls horizontally.
    pub fn horizontal(self, horizontal: bool) -> (s: Self)
        ensures
            s.horizontal == horizontal,
            s.vertical == self.vertical,
            s.child == self.child,
            s.state == self.state,
    {
        let mut s = self;
        s.horizontal = horizontal;
        s
    }

    /// Sets whether the child scrolls vertically.
    pub fn vertical(self, vertical: bool) -> (s: Self)
        ensures
            s.vertical == vertical,
            s.horizontal == self.horizontal,
            s.child == self.child,
            s.state == self.state,
    {
        let mut s = self;
        s.vertical = vertical;
        s
    }
}

/// Rounds `offset` up to a multiple of 256, the alignment that GPU
/// buffers need.
pub fn align_offset(offset: &mut usize)
    requires
        *old(offset) % 256 == 0 || *old(offset) + (256 - *old(offset) % 256) <= usize::MAX,
    ensures
        *final(offset) == if *old(offset) % 256 == 0 {
            *old(offset) as int
        } else {
            *old(offset) + (256 - *old(offset) % 256)
        },
        *final(offset) % 256 == 0,
        *old(offset) <= *final(offset) < *old(offset) + 256,
{
    let r = *offset % 256;
    if r > 0 {
        *offset += 256 - r;
    }
}

} // verus!
