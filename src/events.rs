use vstd::prelude::*;

use crate::keys::{is_control_key, key_of_physical, key_table, Key, KeyCode, PhysicalKey};

verus! {

/// A window event, reduced to what the GUI needs. `P` is a pointer position
/// in logical units (physical pixels already divided by the display scale).
#[derive(Clone, Debug, PartialEq)]
pub enum WindowEvent<P> {
    CursorMoved(P),
    MouseInput { pressed: bool },
    KeyboardInput { physical_key: PhysicalKey, pressed: bool, repeat: bool, text: Option<String> },
    Resized { width: u32, height: u32 },
    CloseRequested,
    RedrawRequested,
    /// Any event the GUI does not consume.
    Other,
}

/// An input event in the GUI's vocabulary.
#[derive(Clone, Debug, PartialEq)]
pub enum InputEvent<P> {
    PointerMoved(P),
    PointerButton { pos: P, pressed: bool },
    Key { key: Key, pressed: bool, repeat: bool },
    Text(String),
}

/// What the frame loop must do after one window event.
#[derive(Clone, Copy, Debug, PartialEq, Eq, Structural)]
pub enum FrameAction {
    Nothing,
    /// Reconfigure the surface and rebuild the projection for this size.
    Resize { width: u32, height: u32 },
    /// Leave the event loop.
    Exit,
    /// Run one GUI pass and draw a frame.
    Redraw,
}

/// The GUI's screen rectangle, in logical units.
#[derive(Clone, Copy, Debug, PartialEq, Eq, Structural)]
pub struct ScreenRect {
    pub min_x: u32,
    pub min_y: u32,
    pub max_x: u32,
    pub max_y: u32,
}

/// Everything one GUI pass receives: the buffered events in arrival order,
/// plus the frame's fixed metadata.
pub struct FrameInputBatch<P> {
    pub events: Vec<InputEvent<P>>,
    pub max_texture_side: usize,
    pub screen_rect: ScreenRect,
}

/// The key event for a keyboard report, if its key is in the table.
pub open spec fn key_events<P>(physical_key: PhysicalKey, pressed: bool, repeat: bool) -> Seq<InputEvent<P>> {
    match key_of_physical(physical_key) {
        Some(key) => seq![InputEvent::Key { key, pressed, repeat }],
        None => seq![],
    }
}

/// The text event for a keyboard report: the text is forwarded unless the
/// recognised key is a control key.
pub open spec fn text_events<P>(key: Option<Key>, text: Option<String>) -> Seq<InputEvent<P>> {
    match text {
        Some(t) => match key {
            Some(k) => if is_control_key(k) { seq![] } else { seq![InputEvent::Text(t)] },
            None => seq![InputEvent::Text(t)],
        },
        None => seq![],
    }
}

/// The GUI events one window event yields, given the last pointer position.
pub open spec fn emitted<P>(pointer: P, event: WindowEvent<P>) -> Seq<InputEvent<P>> {
    match event {
        WindowEvent::CursorMoved(pos) => seq![InputEvent::PointerMoved(pos)],
        WindowEvent::MouseInput { pressed } => seq![InputEvent::PointerButton { pos: pointer, pressed }],
        WindowEvent::KeyboardInput { physical_key, pressed, repeat, text } =>
            key_events(physical_key, pressed, repeat) + text_events(key_of_physical(physical_key), text),
        _ => seq![],
    }
}

/// The last known pointer position after one window event.
pub open spec fn next_pointer<P>(pointer: P, event: WindowEvent<P>) -> P {
    match event {
        WindowEvent::CursorMoved(pos) => pos,
        _ => pointer,
    }
}

/// The larger of a surface side and one: a surface is never empty.
pub open spec fn surface_side(side: u32) -> u32 {
    if side < 1 { 1 } else { side }
}

/// What the frame loop does after one window event.
pub open spec fn action_of<P>(event: WindowEvent<P>) -> FrameAction {
    match event {
        WindowEvent::Resized { width, height } =>
            FrameAction::Resize { width: surface_side(width), height: surface_side(height) },
        WindowEvent::CloseRequested => FrameAction::Exit,
        WindowEvent::RedrawRequested => FrameAction::Redraw,
        _ => FrameAction::Nothing,
    }
}

/// A keyboard report whose key is not in the table yields no key event, and
/// the text that came with it, if any, is still inserted.
pub proof fn lemma_unmapped_key_forwards_text<P>(
    pointer: P,
    physical_key: PhysicalKey,
    pressed: bool,
    repeat: bool,
    text: Option<String>,
)
    requires
        key_of_physical(physical_key) is None,
    ensures
        emitted(pointer, WindowEvent::KeyboardInput { physical_key, pressed, repeat, text })
            == match text {
            Some(t) => seq![InputEvent::<P>::Text(t)],
            None => Seq::<InputEvent<P>>::empty(),
        },
{
    let e = emitted(pointer, WindowEvent::KeyboardInput { physical_key, pressed, repeat, text });
    match text {
        Some(t) => assert(e =~= seq![InputEvent::<P>::Text(t)]),
        None => assert(e =~= Seq::<InputEvent<P>>::empty()),
    }
}

/// Backspace, Enter and Tab yield their key event alone: the text the
/// platform supplies with them is never inserted.
pub proof fn lemma_control_key_drops_text<P>(
    pointer: P,
    code: KeyCode,
    pressed: bool,
    repeat: bool,
    text: Option<String>,
)
    requires
        key_table(code) == Some(Key::Backspace) || key_table(code) == Some(Key::Enter)
            || key_table(code) == Some(Key::Tab),
    ensures
        emitted(
            pointer,
            WindowEvent::KeyboardInput { physical_key: PhysicalKey::Code(code), pressed, repeat, text },
        ) == seq![InputEvent::<P>::Key { key: key_table(code).unwrap(), pressed, repeat }],
{
    let e = emitted(
        pointer,
        WindowEvent::KeyboardInput { physical_key: PhysicalKey::Code(code), pressed, repeat, text },
    );
    assert(e =~= seq![InputEvent::<P>::Key { key: key_table(code).unwrap(), pressed, repeat }]);
}

/// A pointer move carries its position, and a button event after it carries
/// exactly that position; events other than pointer moves keep it.
pub proof fn lemma_button_after_move<P>(pointer: P, pos: P, pressed: bool, between: WindowEvent<P>)
    requires
        !(between is CursorMoved),
    ensures
        emitted(pointer, WindowEvent::CursorMoved(pos)) == seq![InputEvent::PointerMoved(pos)],
        next_pointer(pointer, WindowEvent::CursorMoved(pos)) == pos,
        next_pointer(pos, between) == pos,
        emitted(pos, WindowEvent::<P>::MouseInput { pressed })
            == seq![InputEvent::PointerButton { pos, pressed }],
{
}

} // verus!
