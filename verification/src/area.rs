use vstd::prelude::*;

verus! {

/// A rectangle of the terminal screen, in character cells.  The host
/// assigns one to the panel each frame; the controller compares it with
/// the last one it used to decide whether the background must be
/// repainted, and carves the header and body regions out of it.
#[derive(Clone, Copy, PartialEq, Eq, Structural, Debug)]
pub struct Area {
    pub left: u16,
    pub top: u16,
    pub width: u16,
    pub height: u16,
}

impl Area {
    /// A well-formed area stays inside the addressable screen.
    pub open spec fn wf(self) -> bool {
        &&& self.left + self.width <= u16::MAX
        &&& self.top + self.height <= u16::MAX
    }

    pub fn new(left: u16, top: u16, width: u16, height: u16) -> (r: Area)
        requires
            left + width <= u16::MAX,
            top + height <= u16::MAX,
        ensures
            r == (Area { left, top, width, height }),
            r.wf(),
    {
        Area { left, top, width, height }
    }

    /// The zero area used before the first drawing pass has assigned a
    /// real rectangle.
    pub fn uninitialized() -> (r: Area)
        ensures
            r == (Area { left: 0u16, top: 0u16, width: 0u16, height: 0u16 }),
            r.wf(),
    {
        Area { left: 0, top: 0, width: 0, height: 0 }
    }
}

} // verus!
