//! Entities, their components, and the world that holds them.
use std::collections::HashMap;
use vstd::prelude::*;
use crate::events::{self, Sdl2EventSubscriber, SubscriberCall, KeyInput, MouseButtonInput};
use crate::platform_event::Event;
use crate::v::{Extent2, Vec2};

verus! {

broadcast use vstd::std_specs::hash::group_hash_axioms;

/// An entity identifier.
#[derive(Debug, Copy, Clone, Hash, PartialEq, Eq, Structural)]
pub struct EID(u32);

impl EID {
    pub closed spec fn raw(self) -> u32 {
        self.0
    }

    pub fn from_raw(u: u32) -> (r: EID)
        ensures
            r.raw() == u,
    {
        EID(u)
    }

    pub fn to_raw(&self) -> (r: u32)
        ensures
            r == self.raw(),
    {
        self.0
    }

    /// An entity identifier is its number: two identifiers with the same number are equal,
    /// so `from_raw` of `to_raw` gives the identifier back, and `from_raw` of two numbers
    /// gives equal identifiers exactly when the numbers are equal.
    pub proof fn lemma_raw_injective(a: EID, b: EID)
        ensures
            a.raw() == b.raw() <==> a == b,
    {
    }
}

/// The transform component (it holds no data yet).
#[derive(Debug, Default, Copy, Clone, PartialEq, Eq, Structural)]
pub struct Transform {}

/// The transform component of each entity that has one.
#[derive(Debug, Clone, PartialEq)]
pub struct Transforms {
    transforms: HashMap<u32, Transform>,
}

impl View for Transforms {
    type V = Map<u32, Transform>;

    /// The transform of each entity, by raw entity identifier.
    closed spec fn view(&self) -> Map<u32, Transform> {
        self.transforms@
    }
}

impl Transforms {
    pub fn new() -> (r: Transforms)
        ensures
            r@ == Map::<u32, Transform>::empty(),
    {
        Transforms { transforms: HashMap::new() }
    }

    /// Gives `eid` the transform `t`; returns the one it had, if any.
    pub fn insert(&mut self, eid: EID, t: Transform) -> (r: Option<Transform>)
        ensures
            final(self)@ == old(self)@.insert(eid.raw(), t),
            r == (if old(self)@.contains_key(eid.raw()) {
                Some(old(self)@[eid.raw()])
            } else {
                None
            }),
    {
        self.transforms.insert(eid.to_raw(), t)
    }

    /// The transform of `eid`, if it has one.
    pub fn get(&self, eid: EID) -> (r: Option<&Transform>)
        ensures
            r == (if self@.contains_key(eid.raw()) {
                Some(&self@[eid.raw()])
            } else {
                None
            }),
    {
        self.transforms.get(&eid.to_raw())
    }

    pub fn len(&self) -> (r: usize)
        ensures
            r == self@.len(),
    {
        self.transforms.len()
    }
}

impl Default for Transforms {
    fn default() -> (r: Transforms)
        ensures
            r@ == Map::<u32, Transform>::empty(),
    {
        Transforms::new()
    }
}

impl Sdl2EventSubscriber for Transforms {
    /// Transforms do not react to platform events.
    open spec fn after_call(self, call: SubscriberCall) -> Transforms {
        self
    }

    fn on_wants_to_quit(&mut self) {
    }

    fn on_text_input(&mut self, _text: &str) {
    }

    fn on_key(&mut self, _key: KeyInput) {
    }

    fn on_scroll(&mut self, _delta: Vec2<i32>) {
    }

    fn on_mouse_motion(&mut self, _pos: Vec2<i32>) {
    }

    fn on_mouse_button(&mut self, _btn: MouseButtonInput) {
    }

    fn on_window_resized(&mut self, _size: Extent2<u32>) {
    }

    fn on_window_size_changed(&mut self, _size: Extent2<u32>) {
    }
}

/// The entities of the game and their components.
#[derive(Debug, Clone, PartialEq)]
pub struct World {
    pub allows_quitting: bool,
    pub transforms: Transforms,
}

impl World {
    pub fn new() -> (r: World)
        ensures
            !r.allows_quitting,
            r.transforms@ == Map::<u32, Transform>::empty(),
    {
        World { allows_quitting: false, transforms: Transforms::new() }
    }

    /// Notifies the world and each of its components of `event`.
    pub fn dispatch_sdl2_event(&mut self, event: &Event)
        requires
            crate::platform_event::routable(*event),
        ensures
            final(self).allows_quitting == (old(self).allows_quitting || *event == Event::Quit),
            final(self).transforms == old(self).transforms,
    {
        proof {
            reveal_with_fuel(events::after_calls, 3);
        }
        let ghost calls = events::subscriber_calls(*event);
        assert(calls.len() == 2 ==> calls.drop_first().drop_first() =~= Seq::<SubscriberCall>::empty());
        assert(calls.len() == 1 ==> calls.drop_first() =~= Seq::<SubscriberCall>::empty());
        events::dispatch_sdl2_event(self, event);
        events::dispatch_sdl2_event(&mut self.transforms, event);
        proof {
            lemma_transforms_ignore_calls(old(self).transforms, calls);
        }
    }
}

/// Transforms stay as they are whatever notifications they receive.
proof fn lemma_transforms_ignore_calls(t: Transforms, calls: Seq<SubscriberCall>)
    ensures
        events::after_calls(t, calls) == t,
    decreases calls.len(),
{
    if calls.len() > 0 {
        lemma_transforms_ignore_calls(t, calls.drop_first());
    }
}

impl Default for World {
    fn default() -> (r: World)
        ensures
            !r.allows_quitting,
            r.transforms@ == Map::<u32, Transform>::empty(),
    {
        World::new()
    }
}

impl Sdl2EventSubscriber for World {
    /// The world only reacts to a request to quit, by allowing it.
    open spec fn after_call(self, call: SubscriberCall) -> World {
        match call {
            SubscriberCall::WantsToQuit => World { allows_quitting: true, ..self },
            _ => self,
        }
    }

    fn on_wants_to_quit(&mut self) {
        self.allows_quitting = true;
    }

    fn on_text_input(&mut self, _text: &str) {
    }

    fn on_key(&mut self, _key: KeyInput) {
    }

    fn on_scroll(&mut self, _delta: Vec2<i32>) {
    }

    fn on_mouse_motion(&mut self, _pos: Vec2<i32>) {
    }

    fn on_mouse_button(&mut self, _btn: MouseButtonInput) {
    }

    fn on_window_resized(&mut self, _size: Extent2<u32>) {
    }

    fn on_window_size_changed(&mut self, _size: Extent2<u32>) {
    }
}

} // verus!
