//! One machine operation of an embroidery design.

use vstd::prelude::*;

verus! {

/// One atomic operation of the machine.
///
/// Coordinates are offsets from the needle position that the previous stitch
/// left, in tenths of a millimetre, the same for every format.
#[derive(Clone, Copy, Debug, PartialEq, Eq, Hash, Structural)]
pub enum Stitch {
    /// Move by the offset and sew.
    Move(i32, i32),
    /// Move by the offset without sewing.
    Jump(i32, i32),
    /// Cut the thread.
    Trim,
    /// Change to the next thread of the palette.
    ColorChange,
    /// Halt the machine until the operator resumes.
    Stop,
    /// The end of the pattern.
    End,
}

impl Stitch {
    /// The horizontal offset by which the stitch moves the needle.
    pub open spec fn dx(self) -> int {
        match self {
            Stitch::Move(x, _) => x as int,
            Stitch::Jump(x, _) => x as int,
            _ => 0,
        }
    }

    /// The vertical offset by which the stitch moves the needle.
    pub open spec fn dy(self) -> int {
        match self {
            Stitch::Move(_, y) => y as int,
            Stitch::Jump(_, y) => y as int,
            _ => 0,
        }
    }

    /// The offset by which the stitch moves the needle; zero for a stitch
    /// that carries no coordinates.
    pub fn offset(&self) -> (d: (i32, i32))
        ensures
            d.0 == self.dx(),
            d.1 == self.dy(),
    {
        match self {
            Stitch::Move(x, y) => (*x, *y),
            Stitch::Jump(x, y) => (*x, *y),
            _ => (0, 0),
        }
    }

    /// Whether this is the end-of-pattern marker.
    pub fn is_end(&self) -> (b: bool)
        ensures
            b == (*self == Stitch::End),
    {
        match self {
            Stitch::End => true,
            _ => false,
        }
    }
}

} // verus!
