use vstd::prelude::*;

verus! {

/// A size in tiles along the three axes. Sizes combine axis by axis: each
/// axis of `a.div(b)` is that axis of `a` divided by that axis of `b`, so
/// that `tiling_quantity` counts the copies that fit along each axis as
/// its documentation says; the other operations work the same way. (The
/// fleet generator this library grew from wrote these operations with
/// `self.x` on every axis of the result, which its documentation of
/// tiling does not allow; this library follows the documentation, and so
/// do the crew and undersize counts built on it.)
#[derive(Debug, Clone, Copy, PartialEq, Eq, Structural, PartialOrd, Ord, Hash, Default)]
pub struct Size {
    pub x: usize,
    pub y: usize,
    pub z: usize,
}

impl Size {
    /// The size `x` by `y` by `z`.
    pub fn new(x: usize, y: usize, z: usize) -> (r: Size)
        ensures
            r == (Size { x, y, z }),
    {
        Size { x, y, z }
    }

    /// The size whose axes are the three entries of `array`.
    pub fn from_array(array: [usize; 3]) -> (r: Size)
        ensures
            r == (Size { x: array@[0], y: array@[1], z: array@[2] }),
    {
        Size { x: array[0], y: array[1], z: array[2] }
    }

    /// The three axes of this size.
    pub fn into_array(self) -> (r: [usize; 3])
        ensures
            r@ == seq![self.x, self.y, self.z],
    {
        [self.x, self.y, self.z]
    }

    /// This size and `rhs` combined axis by axis by addition.
    pub fn add(self, rhs: Size) -> (r: Size)
        requires
            self.x + rhs.x <= usize::MAX,
            self.y + rhs.y <= usize::MAX,
            self.z + rhs.z <= usize::MAX,
        ensures
            r == (Size { x: (self.x + rhs.x) as usize, y: (self.y + rhs.y) as usize, z: (self.z + rhs.z) as usize }),
    {
        Size { x: self.x + rhs.x, y: self.y + rhs.y, z: self.z + rhs.z }
    }

    /// This size and `rhs` combined axis by axis by subtraction.
    pub fn sub(self, rhs: Size) -> (r: Size)
        requires
            self.x >= rhs.x,
            self.y >= rhs.y,
            self.z >= rhs.z,
        ensures
            r == (Size { x: (self.x - rhs.x) as usize, y: (self.y - rhs.y) as usize, z: (self.z - rhs.z) as usize }),
    {
        Size { x: self.x - rhs.x, y: self.y - rhs.y, z: self.z - rhs.z }
    }

    /// This size and `rhs` combined axis by axis by division.
    pub fn div(self, rhs: Size) -> (r: Size)
        requires
            rhs.x > 0,
            rhs.y > 0,
            rhs.z > 0,
        ensures
            r == (Size { x: self.x / rhs.x, y: self.y / rhs.y, z: self.z / rhs.z }),
    {
        Size { x: self.x / rhs.x, y: self.y / rhs.y, z: self.z / rhs.z }
    }

    /// This size and `rhs` combined axis by axis by multiplication.
    pub fn mul(self, rhs: Size) -> (r: Size)
        requires
            self.x * rhs.x <= usize::MAX,
            self.y * rhs.y <= usize::MAX,
            self.z * rhs.z <= usize::MAX,
        ensures
            r == (Size { x: (self.x * rhs.x) as usize, y: (self.y * rhs.y) as usize, z: (self.z * rhs.z) as usize }),
    {
        Size { x: self.x * rhs.x, y: self.y * rhs.y, z: self.z * rhs.z }
    }

    /// This size and `rhs` combined axis by axis by remainder.
    pub fn rem(self, rhs: Size) -> (r: Size)
        requires
            rhs.x > 0,
            rhs.y > 0,
            rhs.z > 0,
        ensures
            r == (Size { x: self.x % rhs.x, y: self.y % rhs.y, z: self.z % rhs.z }),
    {
        Size { x: self.x % rhs.x, y: self.y % rhs.y, z: self.z % rhs.z }
    }

    pub open spec fn spec_volume(self) -> int {
        self.x * self.y * self.z
    }

    /// The number of tiles in this size.
    pub fn volume(self) -> (r: usize)
        requires
            self.x * self.y <= usize::MAX,
            self.spec_volume() <= usize::MAX,
        ensures
            r == self.spec_volume(),
    {
        self.x * self.y * self.z
    }
}

} // verus!
