//! The three copies of simulated state kept for fixed-step simulation with interpolated rendering.
use vstd::prelude::*;

verus! {

/// How the test scene is drawn.
#[derive(Debug, Copy, Clone, Hash, PartialEq, Eq, Structural)]
pub enum HackMode {
    RenderAllMeshes,
    Intersection,
    Masking,
    TwoStars,
}

/// The state at the previous tick, the state to draw, and the state at the current tick.
#[derive(Debug, Default, Copy, Clone, Hash, PartialEq, Eq)]
pub struct SimStates<T> {
    pub previous: T,
    pub render: T,
    pub current: T,
}

/// Names one of the three states of a `SimStates`.
#[derive(Debug, Copy, Clone, Hash, PartialEq, Eq, PartialOrd, Ord, Structural)]
pub enum SimState {
    Previous,
    Render,
    Current,
}

impl SimState {
    /// The position of the state in a `SimStates` (previous, render, current).
    pub fn to_u8(self) -> (r: u8)
        ensures
            r == (match self {
                SimState::Previous => 0u8,
                SimState::Render => 1u8,
                SimState::Current => 2u8,
            }),
    {
        match self {
            SimState::Previous => 0,
            SimState::Render => 1,
            SimState::Current => 2,
        }
    }
}

impl<T: Copy> From<T> for SimStates<T> {
    fn from(value: T) -> (r: SimStates<T>) {
        SimStates::from_value(value)
    }
}

impl<T: Copy> vstd::std_specs::convert::FromSpecImpl<T> for SimStates<T> {
    open spec fn obeys_from_spec() -> bool {
        true
    }

    open spec fn from_spec(value: T) -> SimStates<T> {
        SimStates { previous: value, render: value, current: value }
    }
}

impl<T> SimStates<T> {
    /// The state that `i` names.
    pub open spec fn spec_index(self, i: SimState) -> T {
        match i {
            SimState::Previous => self.previous,
            SimState::Render => self.render,
            SimState::Current => self.current,
        }
    }

    /// All three states equal to `value`.
    pub fn from_value(value: T) -> (r: SimStates<T>)
        where
            T: Copy,
        ensures
            r.previous == value,
            r.render == value,
            r.current == value,
    {
        SimStates { previous: value, render: value, current: value }
    }

    /// Applies `f` to the previous, the render and the current state, in that order.
    pub fn for_states<F: Fn(&mut T)>(&mut self, f: F)
        requires
            forall|x: &mut T| #[trigger] f.requires((x,)),
        ensures
            exists|m: &mut T|
                *m == old(self).previous && *final(m) == final(self).previous && #[trigger] f.ensures((m,), ()),
            exists|m: &mut T|
                *m == old(self).render && *final(m) == final(self).render && #[trigger] f.ensures((m,), ()),
            exists|m: &mut T|
                *m == old(self).current && *final(m) == final(self).current && #[trigger] f.ensures((m,), ()),
    {
        f(&mut self.previous);
        f(&mut self.render);
        f(&mut self.current);
    }

    /// The states with `f` applied to each, in the order previous, render, current.
    pub fn map_states<F: Fn(T) -> T>(self, f: F) -> (r: SimStates<T>)
        requires
            forall|x: T| #[trigger] f.requires((x,)),
        ensures
            f.ensures((self.previous,), r.previous),
            f.ensures((self.render,), r.render),
            f.ensures((self.current,), r.current),
    {
        let SimStates { previous, render, current } = self;
        let previous = f(previous);
        let render = f(render);
        let current = f(current);
        SimStates { previous, render, current }
    }

    /// The state that `i` names.
    pub fn index(&self, i: SimState) -> (r: &T)
        ensures
            *r == self.spec_index(i),
    {
        match i {
            SimState::Previous => &self.previous,
            SimState::Render => &self.render,
            SimState::Current => &self.current,
        }
    }
}

} // verus!
