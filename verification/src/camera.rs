//! Rays cast from a camera into the world.
use vstd::prelude::*;
use crate::v::Vec3;

verus! {

/// A half-line: where it starts, and which way it goes.
#[derive(Debug, Copy, Clone, PartialEq, Eq, Hash, Structural)]
pub struct Ray<T> {
    pub position: Vec3<T>,
    pub direction: Vec3<T>,
}

} // verus!
