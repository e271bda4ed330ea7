//! The margins applied to a monitor's work area.

use vstd::prelude::*;

verus! {

/// Four integer margins, in the window manager's units, that shrink (or, when
/// negative, grow) the area of a monitor in which windows are laid out.
#[derive(Clone, Copy, Debug, PartialEq, Eq, Hash, Structural)]
pub struct Offset {
    pub left: i32,
    pub top: i32,
    pub right: i32,
    pub bottom: i32,
}

impl Offset {
    /// The offset with the given margins.
    pub fn new(left: i32, top: i32, right: i32, bottom: i32) -> (offset: Offset)
        ensures
            offset == (Offset { left, top, right, bottom }),
    {
        Offset { left, top, right, bottom }
    }
}

} // verus!
