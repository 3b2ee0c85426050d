use vstd::prelude::*;

verus! {

/// A 2D vector over fixed-point coordinates.
///
/// Coordinates are stored in thousandths of a world unit, so that the whole
/// simulation runs on exact integer arithmetic.
#[derive(Clone, Copy, PartialEq, Eq, Structural, Debug)]
pub struct Vec2 {
    pub x: i64,
    pub y: i64,
}

/// Clamp a mathematical integer into the range of `i64`.
pub open spec fn sat_i64(v: int) -> i64 {
    if v > i64::MAX {
        i64::MAX
    } else if v < i64::MIN {
        i64::MIN
    } else {
        v as i64
    }
}

/// Absolute value of a mathematical integer.
pub open spec fn abs(v: int) -> int {
    if v >= 0 {
        v
    } else {
        -v
    }
}

/// Saturating addition on `i64`, exact whenever the true sum fits.
pub fn sat_add(a: i64, b: i64) -> (r: i64)
    ensures
        r == sat_i64(a + b),
{
    let wide: i128 = a as i128 + b as i128;
    if wide > i64::MAX as i128 {
        i64::MAX
    } else if wide < i64::MIN as i128 {
        i64::MIN
    } else {
        wide as i64
    }
}

impl Vec2 {
    pub fn new(x: i64, y: i64) -> (r: Vec2)
        ensures
            r.x == x,
            r.y == y,
    {
        Vec2 { x, y }
    }

    /// Component-wise sum; the caller must rule overflow out.
    pub fn add(self, rhs: Vec2) -> (r: Vec2)
        requires
            i64::MIN <= self.x + rhs.x <= i64::MAX,
            i64::MIN <= self.y + rhs.y <= i64::MAX,
        ensures
            r.x == self.x + rhs.x,
            r.y == self.y + rhs.y,
    {
        Vec2 { x: self.x + rhs.x, y: self.y + rhs.y }
    }

    /// Component-wise difference; the caller must rule overflow out.
    pub fn sub(self, rhs: Vec2) -> (r: Vec2)
        requires
            i64::MIN <= self.x - rhs.x <= i64::MAX,
            i64::MIN <= self.y - rhs.y <= i64::MAX,
        ensures
            r.x == self.x - rhs.x,
            r.y == self.y - rhs.y,
    {
        Vec2 { x: self.x - rhs.x, y: self.y - rhs.y }
    }

    /// Scale both components by an integer factor; the caller must rule
    /// overflow out.
    pub fn mul(self, rhs: i64) -> (r: Vec2)
        requires
            i64::MIN <= self.x * rhs <= i64::MAX,
            i64::MIN <= self.y * rhs <= i64::MAX,
        ensures
            r.x == self.x * rhs,
            r.y == self.y * rhs,
    {
        Vec2 { x: self.x * rhs, y: self.y * rhs }
    }

    /// In-place component-wise sum; the caller must rule overflow out.
    pub fn add_assign(&mut self, rhs: Vec2)
        requires
            i64::MIN <= old(self).x + rhs.x <= i64::MAX,
            i64::MIN <= old(self).y + rhs.y <= i64::MAX,
        ensures
            final(self).x == old(self).x + rhs.x,
            final(self).y == old(self).y + rhs.y,
    {
        self.x = self.x + rhs.x;
        self.y = self.y + rhs.y;
    }

    /// Component-wise sum that saturates at the limits of `i64` instead of
    /// overflowing.
    pub fn sat_add(self, rhs: Vec2) -> (r: Vec2)
        ensures
            r.x == sat_i64(self.x + rhs.x),
            r.y == sat_i64(self.y + rhs.y),
    {
        Vec2 { x: sat_add(self.x, rhs.x), y: sat_add(self.y, rhs.y) }
    }
}

} // verus!
