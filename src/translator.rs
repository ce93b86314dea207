use vstd::prelude::*;

use crate::events::{
    action_of, emitted, next_pointer, FrameAction, FrameInputBatch, InputEvent, ScreenRect,
    WindowEvent,
};
use crate::keys::{key_for_code, suppresses_text, Key, PhysicalKey};

verus! {

/// Translates window events into GUI input events and buffers them until
/// the next frame asks for them.
pub struct Jegui<P> {
    mouse_position: P,
    events: Vec<InputEvent<P>>,
    max_texture_side: usize,
    screen_rect: ScreenRect,
}

impl<P: Copy> Jegui<P> {
    /// The last known pointer position.
    pub closed spec fn pointer(&self) -> P {
        self.mouse_position
    }

    /// The events buffered since the last frame, in arrival order.
    pub closed spec fn pending(&self) -> Seq<InputEvent<P>> {
        self.events@
    }

    /// The texture side reported to the GUI with each frame.
    pub closed spec fn texture_side(&self) -> usize {
        self.max_texture_side
    }

    /// The screen rectangle reported to the GUI with each frame.
    pub closed spec fn screen(&self) -> ScreenRect {
        self.screen_rect
    }

    /// A translator with an empty buffer and the pointer at `origin`.
    pub fn new(origin: P, max_texture_side: usize, screen_rect: ScreenRect) -> (r: Self)
        ensures
            r.pointer() == origin,
            r.pending() == Seq::<InputEvent<P>>::empty(),
            r.texture_side() == max_texture_side,
            r.screen() == screen_rect,
    {
        Jegui { mouse_position: origin, events: Vec::new(), max_texture_side, screen_rect }
    }

    /// The last known pointer position.
    pub fn pointer_position(&self) -> (r: P)
        ensures
            r == self.pointer(),
    {
        self.mouse_position
    }

    /// How many events wait for the next frame.
    pub fn pending_len(&self) -> (r: usize)
        ensures
            r == self.pending().len(),
    {
        self.events.len()
    }

    /// Appends one event to the buffer.
    pub fn push(&mut self, event: InputEvent<P>)
        ensures
            final(self).pending() == old(self).pending().push(event),
            final(self).pointer() == old(self).pointer(),
            final(self).texture_side() == old(self).texture_side(),
            final(self).screen() == old(self).screen(),
    {
        self.events.push(event);
    }

    /// Translates one window event: the GUI events it yields are appended to
    /// the buffer, the pointer position is tracked, and the returned action
    /// tells the frame loop what else to do.
    pub fn update(&mut self, event: WindowEvent<P>) -> (r: FrameAction)
        ensures
            final(self).pending() == old(self).pending() + emitted(old(self).pointer(), event),
            final(self).pointer() == next_pointer(old(self).pointer(), event),
            final(self).texture_side() == old(self).texture_side(),
            final(self).screen() == old(self).screen(),
            r == action_of(event),
    {
        match event {
            WindowEvent::CursorMoved(pos) => {
                self.mouse_position = pos;
                self.push(InputEvent::PointerMoved(pos));
                FrameAction::Nothing
            },
            WindowEvent::MouseInput { pressed } => {
                let pos = self.mouse_position;
                self.push(InputEvent::PointerButton { pos, pressed });
                FrameAction::Nothing
            },
            WindowEvent::KeyboardInput { physical_key, pressed, repeat, text } => {
                let keycode: Option<Key> = match physical_key {
                    PhysicalKey::Code(code) => key_for_code(code),
                    PhysicalKey::Unidentified => None,
                };
                if let Some(key) = keycode {
                    self.push(InputEvent::Key { key, pressed, repeat });
                }
                if let Some(t) = text {
                    let forward = match keycode {
                        Some(key) => !suppresses_text(key),
                        None => true,
                    };
                    if forward {
                        self.push(InputEvent::Text(t));
                    }
                }
                FrameAction::Nothing
            },
            WindowEvent::Resized { width, height } => {
                let w: u32 = if width < 1 { 1 } else { width };
                let h: u32 = if height < 1 { 1 } else { height };
                FrameAction::Resize { width: w, height: h }
            },
            WindowEvent::CloseRequested => FrameAction::Exit,
            WindowEvent::RedrawRequested => FrameAction::Redraw,
            WindowEvent::Other => FrameAction::Nothing,
        }
    }

    /// Hands the buffered events to one GUI pass, with the frame metadata,
    /// and empties the buffer.
    pub fn drain_for_frame(&mut self) -> (r: FrameInputBatch<P>)
        ensures
            r.events@ == old(self).pending(),
            r.max_texture_side == old(self).texture_side(),
            r.screen_rect == old(self).screen(),
            final(self).pending() == Seq::<InputEvent<P>>::empty(),
            final(self).pointer() == old(self).pointer(),
            final(self).texture_side() == old(self).texture_side(),
            final(self).screen() == old(self).screen(),
    {
        let mut events: Vec<InputEvent<P>> = Vec::new();
        std::mem::swap(&mut events, &mut self.events);
        FrameInputBatch { events, max_texture_side: self.max_texture_side, screen_rect: self.screen_rect }
    }

    /// Handles one window event: translates it, and when it asks for a
    /// redraw, hands out the frame's batch and empties the buffer.
    pub fn run(&mut self, event: WindowEvent<P>) -> (r: (FrameAction, Option<FrameInputBatch<P>>))
        ensures
            r.0 == action_of(event),
            final(self).pointer() == next_pointer(old(self).pointer(), event),
            final(self).texture_side() == old(self).texture_side(),
            final(self).screen() == old(self).screen(),
            r.0 == FrameAction::Redraw ==> r.1 is Some
                && r.1->Some_0.events@ == old(self).pending() + emitted(old(self).pointer(), event)
                && r.1->Some_0.max_texture_side == old(self).texture_side()
                && r.1->Some_0.screen_rect == old(self).screen()
                && final(self).pending() == Seq::<InputEvent<P>>::empty(),
            r.0 != FrameAction::Redraw ==> r.1 is None
                && final(self).pending() == old(self).pending() + emitted(old(self).pointer(), event),
    {
        let action = self.update(event);
        if action == FrameAction::Redraw {
            (action, Some(self.drain_for_frame()))
        } else {
            (action, None)
        }
    }
}

} // verus!
