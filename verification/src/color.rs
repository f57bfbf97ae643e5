//! Colors given by hue, saturation, value and alpha.
use vstd::prelude::*;

verus! {

/// A color given by its hue, saturation, value and opacity.
#[derive(Debug, Default, Copy, Clone, Hash, PartialEq, Eq, Structural)]
pub struct Hsva<T> {
    pub h: T,
    pub s: T,
    pub v: T,
    pub a: T,
}

} // verus!
