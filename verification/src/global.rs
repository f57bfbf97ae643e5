//! The engine-wide state that input handling reads and writes.
use vstd::prelude::*;
use crate::input::{Input, InputView};
use crate::platform_event::{Event, WindowEvent};
use crate::v::Extent2;

verus! {

/// The window size that a window event reports, if it reports one.
pub open spec fn reported_window_size(e: Event) -> Option<Extent2<u32>> {
    match e {
        Event::Window { win_event: WindowEvent::Resized(w, h) } => Some(Extent2 { w: w as u32, h: h as u32 }),
        Event::Window { win_event: WindowEvent::SizeChanged(w, h) } => Some(Extent2 { w: w as u32, h: h as u32 }),
        _ => None,
    }
}

/// The input state and the window size, shared by every part of the game.
#[derive(Debug, Clone, PartialEq)]
pub struct Global {
    pub input: Input,
    pub window_size: Extent2<u32>,
}

impl Global {
    pub fn new(window_size: Extent2<u32>) -> (r: Global)
        ensures
            r.input@ == InputView::initial(),
            r.window_size == window_size,
    {
        Global { input: Input::new(), window_size }
    }

    pub fn handle_sdl2_event_before_new_tick(&mut self, event: &Event)
        requires
            old(self).input@.accepts(*event),
        ensures
            final(self).input@ == old(self).input@.after(*event),
            final(self).window_size == (match reported_window_size(*event) {
                Some(size) => size,
                None => old(self).window_size,
            }),
    {
        self.input.handle_sdl2_event_before_new_tick(event);
        match event {
            Event::Window { win_event } => match win_event {
                WindowEvent::Resized(w, h) => {
                    self.reshape(Extent2::new(*w as u32, *h as u32));
                },
                WindowEvent::SizeChanged(w, h) => {
                    self.reshape(Extent2::new(*w as u32, *h as u32));
                },
                _ => (),
            },
            _ => (),
        }
    }

    pub fn reshape(&mut self, window_size: Extent2<u32>)
        ensures
            final(self).window_size == window_size,
            final(self).input@ == old(self).input@,
    {
        self.window_size = window_size;
    }

    pub fn replace_previous_state_by_current(&mut self)
        ensures
            final(self).input@ == old(self).input@.begun(),
            final(self).window_size == old(self).window_size,
    {
        self.input.begin_tick_and_event_processing();
    }
}

} // verus!
