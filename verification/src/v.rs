use vstd::prelude::*;

verus! {

/// A two-dimensional vector (a position, a displacement or a scroll amount).
#[derive(Debug, Default, Copy, Clone, Hash, PartialEq, Eq, Structural)]
pub struct Vec2<T> {
    pub x: T,
    pub y: T,
}

/// A three-dimensional vector.
#[derive(Debug, Default, Copy, Clone, Hash, PartialEq, Eq, Structural)]
pub struct Vec3<T> {
    pub x: T,
    pub y: T,
    pub z: T,
}

/// A two-dimensional size.
#[derive(Debug, Default, Copy, Clone, Hash, PartialEq, Eq, Structural)]
pub struct Extent2<T> {
    pub w: T,
    pub h: T,
}

/// An axis-aligned rectangle given by its two corners.
#[derive(Debug, Default, Copy, Clone, Hash, PartialEq, Eq, Structural)]
pub struct Aabr<T> {
    pub min: Vec2<T>,
    pub max: Vec2<T>,
}

impl<T> Vec2<T> {
    pub fn new(x: T, y: T) -> (r: Vec2<T>)
        ensures
            r.x == x,
            r.y == y,
    {
        Vec2 { x, y }
    }
}

impl<T> Extent2<T> {
    pub fn new(w: T, h: T) -> (r: Extent2<T>)
        ensures
            r.w == w,
            r.h == h,
    {
        Extent2 { w, h }
    }
}

impl Vec2<i32> {
    pub open spec fn spec_zero() -> Vec2<i32> {
        Vec2 { x: 0, y: 0 }
    }

    /// Whether `self + other` fits in `i32` on both axes.
    pub open spec fn can_add(self, other: Vec2<i32>) -> bool {
        i32::MIN <= self.x + other.x <= i32::MAX && i32::MIN <= self.y + other.y <= i32::MAX
    }

    pub open spec fn spec_add(self, other: Vec2<i32>) -> Vec2<i32> {
        Vec2 { x: (self.x + other.x) as i32, y: (self.y + other.y) as i32 }
    }

    pub fn zero() -> (r: Vec2<i32>)
        ensures
            r == Vec2::<i32>::spec_zero(),
    {
        Vec2 { x: 0, y: 0 }
    }

    /// Component-wise sum.
    pub fn add(self, other: Vec2<i32>) -> (r: Vec2<i32>)
        requires
            self.can_add(other),
        ensures
            r == self.spec_add(other),
    {
        Vec2 { x: self.x + other.x, y: self.y + other.y }
    }
}

impl Vec2<u32> {
    pub open spec fn spec_zero() -> Vec2<u32> {
        Vec2 { x: 0, y: 0 }
    }

    /// Whether `self - other` does not go below zero on either axis.
    pub open spec fn can_sub(self, other: Vec2<u32>) -> bool {
        other.x <= self.x && other.y <= self.y
    }

    pub open spec fn spec_sub(self, other: Vec2<u32>) -> Vec2<u32> {
        Vec2 { x: (self.x - other.x) as u32, y: (self.y - other.y) as u32 }
    }

    pub fn zero() -> (r: Vec2<u32>)
        ensures
            r == Vec2::<u32>::spec_zero(),
    {
        Vec2 { x: 0, y: 0 }
    }

    /// Component-wise difference.
    pub fn sub(self, other: Vec2<u32>) -> (r: Vec2<u32>)
        requires
            self.can_sub(other),
        ensures
            r == self.spec_sub(other),
    {
        Vec2 { x: self.x - other.x, y: self.y - other.y }
    }
}

} // verus!
