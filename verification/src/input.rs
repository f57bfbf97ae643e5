//! Per-tick input state: buttons, mouse, keyboard and text, fed by platform events.
use std::collections::HashMap;
use vstd::prelude::*;
use crate::v::Vec2;
use vstd::std_specs::iter::IteratorSpec;
use crate::platform_event::{Event, Keycode, MouseWheelDirection, Sdl2MouseButton, WindowEvent};

verus! {

broadcast use vstd::std_specs::hash::group_hash_axioms;

/// The state of one button (or key) across ticks.
#[derive(Debug, Copy, Clone, Hash, PartialEq, Eq, Structural)]
pub struct ButtonInput {
    /// The state for the current tick.
    pub is_pressed: bool,
    /// The state at previous tick.
    pub was_pressed: bool,
    pub num_changes_since_last_tick_and_event_processing: u16,
}

impl ButtonInput {
    /// A button that is up and has not changed.
    pub open spec fn released_idle() -> ButtonInput {
        ButtonInput {
            is_pressed: false,
            was_pressed: false,
            num_changes_since_last_tick_and_event_processing: 0,
        }
    }

    pub open spec fn spec_was_just_pressed(self) -> bool {
        self.num_changes_since_last_tick_and_event_processing > 1 || (self.is_pressed
            && !self.was_pressed)
    }

    pub open spec fn spec_was_just_released(self) -> bool {
        self.num_changes_since_last_tick_and_event_processing > 1 || (!self.is_pressed
            && self.was_pressed)
    }

    /// The state once a new tick begins.
    pub open spec fn begun(self) -> ButtonInput {
        ButtonInput {
            is_pressed: self.is_pressed,
            was_pressed: self.is_pressed,
            num_changes_since_last_tick_and_event_processing: 0,
        }
    }

    /// Whether a press or a release can be counted without overflowing the counter.
    pub open spec fn can_change(self) -> bool {
        self.num_changes_since_last_tick_and_event_processing < u16::MAX
    }

    /// The state after the button is pressed.
    pub open spec fn pressed(self) -> ButtonInput {
        if self.is_pressed {
            self
        } else {
            ButtonInput {
                is_pressed: true,
                num_changes_since_last_tick_and_event_processing: (self.num_changes_since_last_tick_and_event_processing + 1) as u16,
                ..self
            }
        }
    }

    /// The state after the button is released.
    pub open spec fn released(self) -> ButtonInput {
        if !self.is_pressed {
            self
        } else {
            ButtonInput {
                is_pressed: false,
                num_changes_since_last_tick_and_event_processing: (self.num_changes_since_last_tick_and_event_processing + 1) as u16,
                ..self
            }
        }
    }

    pub fn was_just_pressed(&self) -> (r: bool)
        ensures
            r == self.spec_was_just_pressed(),
    {
        if self.num_changes_since_last_tick_and_event_processing > 1 {
            return true;
        }
        self.is_pressed && !self.was_pressed
    }

    pub fn was_just_released(&self) -> (r: bool)
        ensures
            r == self.spec_was_just_released(),
    {
        if self.num_changes_since_last_tick_and_event_processing > 1 {
            return true;
        }
        !self.is_pressed && self.was_pressed
    }

    pub fn begin_tick_and_event_processing(&mut self)
        ensures
            *final(self) == old(self).begun(),
    {
        self.was_pressed = self.is_pressed;
        self.num_changes_since_last_tick_and_event_processing = 0;
    }

    pub fn press(&mut self)
        requires
            old(self).is_pressed || old(self).can_change(),
        ensures
            *final(self) == old(self).pressed(),
    {
        if self.is_pressed {
            return;
        }
        self.num_changes_since_last_tick_and_event_processing += 1;
        self.is_pressed = true;
    }

    pub fn release(&mut self)
        requires
            !old(self).is_pressed || old(self).can_change(),
        ensures
            *final(self) == old(self).released(),
    {
        if !self.is_pressed {
            return;
        }
        self.num_changes_since_last_tick_and_event_processing += 1;
        self.is_pressed = false;
    }
}

impl Default for ButtonInput {
    fn default() -> (r: ButtonInput)
        ensures
            r == ButtonInput::released_idle(),
    {
        ButtonInput {
            is_pressed: false,
            was_pressed: false,
            num_changes_since_last_tick_and_event_processing: 0,
        }
    }
}


/// The mouse buttons, scroll and position for the current tick.
#[derive(Debug, Default, Copy, Clone, Hash, PartialEq, Eq, Structural)]
pub struct MouseInput {
    pub left: ButtonInput,
    pub middle: ButtonInput,
    pub right: ButtonInput,
    pub scroll: Vec2<i32>,
    pub position: Vec2<u32>,
    pub prev_position: Vec2<u32>,
    pub has_prev_position: bool,
}

impl MouseInput {
    /// The state once a new tick begins.
    pub open spec fn begun(self) -> MouseInput {
        MouseInput {
            left: self.left.begun(),
            middle: self.middle.begun(),
            right: self.right.begun(),
            scroll: Vec2::<i32>::spec_zero(),
            prev_position: self.position,
            ..self
        }
    }

    /// The state once the pointer is reported at `p`.
    pub open spec fn moved_to(self, p: Vec2<u32>) -> MouseInput {
        MouseInput {
            prev_position: if !self.has_prev_position { p } else { self.prev_position },
            position: p,
            ..self
        }
    }

    /// The state of the given button of the windowing library, if it is one that is tracked.
    pub open spec fn button(self, b: Sdl2MouseButton) -> Option<ButtonInput> {
        match b {
            Sdl2MouseButton::Left => Some(self.left),
            Sdl2MouseButton::Middle => Some(self.middle),
            Sdl2MouseButton::Right => Some(self.right),
            _ => None,
        }
    }

    /// The state once the given button is pressed (untracked buttons change nothing).
    pub open spec fn with_pressed(self, b: Sdl2MouseButton) -> MouseInput {
        match b {
            Sdl2MouseButton::Left => MouseInput { left: self.left.pressed(), ..self },
            Sdl2MouseButton::Middle => MouseInput { middle: self.middle.pressed(), ..self },
            Sdl2MouseButton::Right => MouseInput { right: self.right.pressed(), ..self },
            _ => self,
        }
    }

    /// The state once the given button is released (untracked buttons change nothing).
    pub open spec fn with_released(self, b: Sdl2MouseButton) -> MouseInput {
        match b {
            Sdl2MouseButton::Left => MouseInput { left: self.left.released(), ..self },
            Sdl2MouseButton::Middle => MouseInput { middle: self.middle.released(), ..self },
            Sdl2MouseButton::Right => MouseInput { right: self.right.released(), ..self },
            _ => self,
        }
    }

    pub open spec fn spec_displacement(self) -> Vec2<u32> {
        if !self.has_prev_position {
            Vec2::<u32>::spec_zero()
        } else {
            self.position.spec_sub(self.prev_position)
        }
    }

    pub fn begin_tick_and_event_processing(&mut self)
        ensures
            *final(self) == old(self).begun(),
    {
        self.left.begin_tick_and_event_processing();
        self.middle.begin_tick_and_event_processing();
        self.right.begin_tick_and_event_processing();
        self.scroll = Vec2::<i32>::zero();
        self.prev_position = self.position;
    }

    pub fn set_position(&mut self, p: Vec2<u32>)
        ensures
            *final(self) == old(self).moved_to(p),
    {
        if !self.has_prev_position {
            self.prev_position = p;
        }
        self.position = p;
    }

    pub fn displacement(&self) -> (r: Vec2<u32>)
        requires
            self.has_prev_position ==> self.position.can_sub(self.prev_position),
        ensures
            r == self.spec_displacement(),
    {
        if !self.has_prev_position {
            return Vec2::<u32>::zero();
        }
        self.position.sub(self.prev_position)
    }

    /// Presses the given button (untracked buttons are ignored).
    fn press_button(&mut self, b: Sdl2MouseButton)
        requires
            old(self).button(b) matches Some(s) ==> s.is_pressed || s.can_change(),
        ensures
            *final(self) == old(self).with_pressed(b),
    {
        match b {
            Sdl2MouseButton::Left => self.left.press(),
            Sdl2MouseButton::Middle => self.middle.press(),
            Sdl2MouseButton::Right => self.right.press(),
            _ => (),
        };
    }

    /// Releases the given button (untracked buttons are ignored).
    fn release_button(&mut self, b: Sdl2MouseButton)
        requires
            old(self).button(b) matches Some(s) ==> !s.is_pressed || s.can_change(),
        ensures
            *final(self) == old(self).with_released(b),
    {
        match b {
            Sdl2MouseButton::Left => self.left.release(),
            Sdl2MouseButton::Middle => self.middle.release(),
            Sdl2MouseButton::Right => self.right.release(),
            _ => (),
        };
    }
}

/// The state of every key that has been seen so far.
#[derive(Debug, Clone, PartialEq, Eq)]
pub struct KeyboardInput {
    pub keys: HashMap<Keycode, ButtonInput>,
}

/// The state of key `k` in a key table; a key never seen is up and idle.
pub open spec fn key_in(keys: Map<Keycode, ButtonInput>, k: Keycode) -> ButtonInput {
    if keys.contains_key(k) {
        keys[k]
    } else {
        ButtonInput::released_idle()
    }
}

impl KeyboardInput {
    pub fn new() -> (r: KeyboardInput)
        ensures
            r.keys@ == Map::<Keycode, ButtonInput>::empty(),
    {
        KeyboardInput { keys: HashMap::new() }
    }

    pub fn begin_tick_and_event_processing(&mut self)
        ensures
            final(self).keys@ == old(self).keys@.map_values(|b: ButtonInput| b.begun()),
    {
        let ghost start = self.keys@;
        let ghost all = vstd::std_specs::hash::spec_keys_iter(&self.keys).remaining().unref();
        let mut codes: Vec<Keycode> = Vec::new();
        for k in it: self.keys.keys()
            invariant
                it.seq().unref() == all,
                codes@ == all.take(it.index()),
        {
            codes.push(*k);
        }
        assert(codes@ == all);
        assert(codes@.to_set() == start.dom());
        assert(codes@.no_duplicates());
        let mut i: usize = 0;
        while i < codes.len()
            invariant
                0 <= i <= codes.len(),
                codes@.to_set() == start.dom(),
                codes@.no_duplicates(),
                self.keys@.dom() == start.dom(),
                forall|k: Keycode| #[trigger] start.contains_key(k) ==>
                    self.keys@[k] == (if codes@.take(i as int).contains(k) { start[k].begun() } else { start[k] }),
            decreases codes.len() - i,
        {
            let k = codes[i];
            assert(codes@.contains(k));
            assert(codes@.take(i + 1) == codes@.take(i as int).push(k));
            assert(!codes@.take(i as int).contains(k)) by {
                if codes@.take(i as int).contains(k) {
                    let j = choose|j: int| 0 <= j < i && codes@.take(i as int)[j] == k;
                    assert(codes@[j] == codes@[i as int]);
                }
            }
            let b = *self.keys.get(&k).unwrap();
            assert(b == start[k]);
            let ghost before = self.keys@;
            self.keys.insert(k, ButtonInput { was_pressed: b.is_pressed, num_changes_since_last_tick_and_event_processing: 0, ..b });
            assert forall|k2: Keycode| #[trigger] start.contains_key(k2) implies
                self.keys@[k2] == (if codes@.take(i + 1).contains(k2) { start[k2].begun() } else { start[k2] }) by {
                if k2 == k {
                    assert(codes@.take(i + 1)[i as int] == k);
                } else {
                    assert(self.keys@[k2] == before[k2]);
                    if codes@.take(i as int).contains(k2) {
                        let j = choose|j: int| 0 <= j < i && #[trigger] codes@.take(i as int)[j] == k2;
                        assert(codes@.take(i + 1)[j] == k2);
                    }
                    if codes@.take(i + 1).contains(k2) {
                        let j = choose|j: int| 0 <= j < i + 1 && #[trigger] codes@.take(i + 1)[j] == k2;
                        assert(codes@.take(i as int)[j] == k2);
                    }
                }
            }
            i += 1;
        }
        assert(codes@.take(codes@.len() as int) == codes@);
        assert(self.keys@ =~= start.map_values(|b: ButtonInput| b.begun()));
    }

    /// The state of key `keycode`, which is recorded (up and idle) if it was never seen.
    pub fn key(&mut self, keycode: Keycode) -> (r: &mut ButtonInput)
        ensures
            *r == key_in(old(self).keys@, keycode),
            final(self).keys@ == old(self).keys@.insert(keycode, *final(r)),
    {
        self.keys.entry(keycode).or_insert(ButtonInput::default())
    }
}

impl Default for KeyboardInput {
    fn default() -> (r: KeyboardInput)
        ensures
            r.keys@ == Map::<Keycode, ButtonInput>::empty(),
    {
        KeyboardInput::new()
    }
}


/// Everything the player did since the last tick began.
#[derive(Debug, Clone, PartialEq)]
pub struct Input {
    pub wants_to_quit: bool,
    pub mouse: MouseInput,
    pub keyboard: KeyboardInput,
    /// The current piece of input text for this tick.
    pub text: String,
}

/// The abstract state of an `Input`.
#[verifier::ext_equal]
pub struct InputView {
    pub wants_to_quit: bool,
    pub mouse: MouseInput,
    pub keys: Map<Keycode, ButtonInput>,
    pub text: Seq<char>,
}

impl View for Input {
    type V = InputView;

    open spec fn view(&self) -> InputView {
        InputView {
            wants_to_quit: self.wants_to_quit,
            mouse: self.mouse,
            keys: self.keyboard.keys@,
            text: self.text@,
        }
    }
}

/// The scroll amount that a wheel event adds.
pub open spec fn wheel_delta(x: i32, y: i32, direction: MouseWheelDirection) -> Vec2<i32> {
    match direction {
        MouseWheelDirection::Flipped => Vec2 { x: -x as i32, y: -y as i32 },
        _ => Vec2 { x, y },
    }
}

/// The position that a pointer event reports, as the input state stores it.
pub open spec fn pointer_position(x: i32, y: i32) -> Vec2<u32> {
    Vec2 { x: x as u32, y: y as u32 }
}

impl MouseInput {
    /// No button pressed, nothing scrolled, the pointer at the origin.
    pub open spec fn initial() -> MouseInput {
        MouseInput {
            left: ButtonInput::released_idle(),
            middle: ButtonInput::released_idle(),
            right: ButtonInput::released_idle(),
            scroll: Vec2::<i32>::spec_zero(),
            position: Vec2::<u32>::spec_zero(),
            prev_position: Vec2::<u32>::spec_zero(),
            has_prev_position: false,
        }
    }
}

impl InputView {
    /// Nothing pressed, nothing typed and no request to quit.
    pub open spec fn initial() -> InputView {
        InputView {
            wants_to_quit: false,
            mouse: MouseInput::initial(),
            keys: Map::empty(),
            text: Seq::empty(),
        }
    }

    /// The state once a new tick begins.
    pub open spec fn begun(self) -> InputView {
        InputView {
            mouse: self.mouse.begun(),
            keys: self.keys.map_values(|b: ButtonInput| b.begun()),
            text: Seq::<char>::empty(),
            ..self
        }
    }

    /// Whether `e` can be recorded: no counter and no scroll amount overflows.
    pub open spec fn accepts(self, e: Event) -> bool {
        match e {
            Event::KeyDown { keycode: Some(k), repeat, .. } => !repeat ==> {
                let b = key_in(self.keys, k);
                b.is_pressed || b.can_change()
            },
            Event::KeyUp { keycode: Some(k), .. } => {
                let b = key_in(self.keys, k);
                !b.is_pressed || b.can_change()
            },
            Event::MouseWheel { x, y, direction } => {
                &&& direction == MouseWheelDirection::Flipped ==> x != i32::MIN && y != i32::MIN
                &&& self.mouse.scroll.can_add(wheel_delta(x, y, direction))
            },
            Event::MouseButtonDown { mouse_btn, .. } => self.mouse.button(mouse_btn) matches Some(
                b,
            ) ==> b.is_pressed || b.can_change(),
            Event::MouseButtonUp { mouse_btn, .. } => self.mouse.button(mouse_btn) matches Some(
                b,
            ) ==> !b.is_pressed || b.can_change(),
            _ => true,
        }
    }

    /// The state once `e` is recorded.
    pub open spec fn after(self, e: Event) -> InputView {
        match e {
            Event::Quit => InputView { wants_to_quit: true, ..self },
            Event::TextInput { text } => InputView { text: self.text + text@, ..self },
            Event::KeyDown { keycode: Some(k), repeat, .. } => if repeat {
                self
            } else {
                InputView { keys: self.keys.insert(k, key_in(self.keys, k).pressed()), ..self }
            },
            Event::KeyUp { keycode: Some(k), .. } => InputView {
                keys: self.keys.insert(k, key_in(self.keys, k).released()),
                ..self
            },
            Event::MouseWheel { x, y, direction } => InputView {
                mouse: MouseInput {
                    scroll: self.mouse.scroll.spec_add(wheel_delta(x, y, direction)),
                    ..self.mouse
                },
                ..self
            },
            Event::MouseButtonDown { mouse_btn, x, y } => InputView {
                mouse: self.mouse.moved_to(pointer_position(x, y)).with_pressed(mouse_btn),
                ..self
            },
            Event::MouseButtonUp { mouse_btn, x, y } => InputView {
                mouse: self.mouse.moved_to(pointer_position(x, y)).with_released(mouse_btn),
                ..self
            },
            Event::MouseMotion { x, y } => InputView {
                mouse: self.mouse.moved_to(pointer_position(x, y)),
                ..self
            },
            _ => self,
        }
    }
}

impl Input {
    /// A state with nothing pressed, nothing typed and no request to quit.
    pub fn new() -> (r: Input)
        ensures
            r@ == InputView::initial(),
    {
        Input {
            wants_to_quit: false,
            mouse: MouseInput {
                left: ButtonInput::default(),
                middle: ButtonInput::default(),
                right: ButtonInput::default(),
                scroll: Vec2::<i32>::zero(),
                position: Vec2::<u32>::zero(),
                prev_position: Vec2::<u32>::zero(),
                has_prev_position: false,
            },
            keyboard: KeyboardInput::new(),
            text: String::new(),
        }
    }

    pub fn begin_tick_and_event_processing(&mut self)
        ensures
            final(self)@ == old(self)@.begun(),
    {
        self.text = String::new();
        self.mouse.begin_tick_and_event_processing();
        self.keyboard.begin_tick_and_event_processing();
    }

    /// Whether `event` can be recorded without overflowing a counter or the scroll amount.
    pub fn accepts_event(&self, event: &Event) -> (r: bool)
        ensures
            r == self@.accepts(*event),
    {
        match event {
            Event::KeyDown { keycode: Some(k), repeat, .. } => {
                if *repeat {
                    return true;
                }
                match self.keyboard.keys.get(k) {
                    Some(b) => b.is_pressed || b.num_changes_since_last_tick_and_event_processing < u16::MAX,
                    None => true,
                }
            },
            Event::KeyUp { keycode: Some(k), .. } => match self.keyboard.keys.get(k) {
                Some(b) => !b.is_pressed || b.num_changes_since_last_tick_and_event_processing < u16::MAX,
                None => true,
            },
            Event::MouseWheel { x, y, direction } => {
                let (dx, dy) = match direction {
                    MouseWheelDirection::Flipped => {
                        if *x == i32::MIN || *y == i32::MIN {
                            return false;
                        }
                        (-*x, -*y)
                    },
                    _ => (*x, *y),
                };
                self.mouse.scroll.x.checked_add(dx).is_some() && self.mouse.scroll.y.checked_add(dy).is_some()
            },
            Event::MouseButtonDown { mouse_btn, .. } => {
                let b = match mouse_btn {
                    Sdl2MouseButton::Left => self.mouse.left,
                    Sdl2MouseButton::Middle => self.mouse.middle,
                    Sdl2MouseButton::Right => self.mouse.right,
                    _ => {
                        return true;
                    },
                };
                b.is_pressed || b.num_changes_since_last_tick_and_event_processing < u16::MAX
            },
            Event::MouseButtonUp { mouse_btn, .. } => {
                let b = match mouse_btn {
                    Sdl2MouseButton::Left => self.mouse.left,
                    Sdl2MouseButton::Middle => self.mouse.middle,
                    Sdl2MouseButton::Right => self.mouse.right,
                    _ => {
                        return true;
                    },
                };
                !b.is_pressed || b.num_changes_since_last_tick_and_event_processing < u16::MAX
            },
            _ => true,
        }
    }

    pub fn handle_sdl2_event_before_new_tick(&mut self, event: &Event)
        requires
            old(self)@.accepts(*event),
        ensures
            final(self)@ == old(self)@.after(*event),
    {
        match event {
            Event::Quit => {
                self.wants_to_quit = true;
            },
            Event::TextInput { text } => {
                self.text.append(text.as_str());
            },
            Event::KeyDown { keycode, repeat, .. } => {
                if !*repeat {
                    if let Some(keycode) = keycode {
                        self.keyboard.key(*keycode).press();
                    }
                }
            },
            Event::KeyUp { keycode, .. } => {
                if let Some(keycode) = keycode {
                    self.keyboard.key(*keycode).release();
                }
            },
            Event::MouseWheel { x, y, direction } => {
                let delta = match direction {
                    MouseWheelDirection::Flipped => Vec2::new(-*x, -*y),
                    _ => Vec2::new(*x, *y),
                };
                self.mouse.scroll = self.mouse.scroll.add(delta);
            },
            Event::MouseButtonDown { mouse_btn, x, y } => {
                self.mouse.set_position(Vec2::new(*x as u32, *y as u32));
                self.mouse.press_button(*mouse_btn);
            },
            Event::MouseButtonUp { mouse_btn, x, y } => {
                self.mouse.set_position(Vec2::new(*x as u32, *y as u32));
                self.mouse.release_button(*mouse_btn);
            },
            Event::MouseMotion { x, y } => {
                self.mouse.set_position(Vec2::new(*x as u32, *y as u32));
            },
            _ => (),
        }
    }
}

impl Default for Input {
    fn default() -> (r: Input)
        ensures
            r@ == InputView::initial(),
    {
        Input::new()
    }
}

} // verus!
