use jegui::{FrameAction, InputEvent, Jegui, Key, KeyCode, PhysicalKey, ScreenRect, WindowEvent};

type Pos = (f32, f32);

fn screen() -> ScreenRect {
    ScreenRect { min_x: 10, min_y: 10, max_x: 200, max_y: 500 }
}

fn gui() -> Jegui<Pos> {
    Jegui::new((0.0, 0.0), 4096, screen())
}

fn key(physical_key: PhysicalKey, text: Option<&str>) -> WindowEvent<Pos> {
    WindowEvent::KeyboardInput {
        physical_key,
        pressed: true,
        repeat: false,
        text: text.map(|t| t.to_string()),
    }
}

#[test]
fn unmapped_key_forwards_text() {
    let mut g = gui();
    assert_eq!(g.update(key(PhysicalKey::Code(KeyCode::Backquote), Some("`"))), FrameAction::Nothing);
    assert_eq!(g.update(key(PhysicalKey::Code(KeyCode::IntlYen), None)), FrameAction::Nothing);
    assert_eq!(g.update(key(PhysicalKey::Unidentified, Some("é"))), FrameAction::Nothing);
    assert_eq!(g.update(key(PhysicalKey::Code(KeyCode::Other), None)), FrameAction::Nothing);
    let batch = g.drain_for_frame();
    assert_eq!(
        batch.events,
        vec![InputEvent::Text("`".to_string()), InputEvent::Text("é".to_string())]
    );
}

#[test]
fn control_keys_drop_text() {
    for (code, k) in [
        (KeyCode::Backspace, Key::Backspace),
        (KeyCode::Enter, Key::Enter),
        (KeyCode::Tab, Key::Tab),
    ] {
        let mut g = gui();
        g.update(key(PhysicalKey::Code(code), Some("x")));
        let batch = g.drain_for_frame();
        assert_eq!(batch.events, vec![InputEvent::Key { key: k, pressed: true, repeat: false }]);
    }
}

#[test]
fn mapped_key_precedes_its_text() {
    let mut g = gui();
    g.update(key(PhysicalKey::Code(KeyCode::KeyA), Some("a")));
    g.update(WindowEvent::KeyboardInput {
        physical_key: PhysicalKey::Code(KeyCode::ArrowLeft),
        pressed: false,
        repeat: true,
        text: None,
    });
    let batch = g.drain_for_frame();
    assert_eq!(
        batch.events,
        vec![
            InputEvent::Key { key: Key::A, pressed: true, repeat: false },
            InputEvent::Text("a".to_string()),
            InputEvent::Key { key: Key::ArrowLeft, pressed: false, repeat: true },
        ]
    );
}

#[test]
fn key_table_entries() {
    assert_eq!(jegui::key_for_code(KeyCode::Digit7), Some(Key::Num7));
    assert_eq!(jegui::key_for_code(KeyCode::IntlBackslash), Some(Key::Backslash));
    assert_eq!(jegui::key_for_code(KeyCode::BracketLeft), Some(Key::OpenBracket));
    assert_eq!(jegui::key_for_code(KeyCode::Equal), Some(Key::Equals));
    assert_eq!(jegui::key_for_code(KeyCode::IntlRo), None);
    assert_eq!(jegui::key_for_code(KeyCode::Space), None);
    assert!(jegui::suppresses_text(Key::Tab));
    assert!(!jegui::suppresses_text(Key::A));
}

#[test]
fn pointer_move_then_button_carries_position() {
    let scale = 3.0f32;
    let physical = (150.0f64, 60.0f64);
    let logical = (physical.0 as f32 / scale, physical.1 as f32 / scale);
    assert_eq!(logical, (50.0, 20.0));
    let mut g = gui();
    g.update(WindowEvent::CursorMoved(logical));
    g.update(key(PhysicalKey::Code(KeyCode::KeyQ), None));
    g.update(WindowEvent::MouseInput { pressed: true });
    g.update(WindowEvent::MouseInput { pressed: false });
    assert_eq!(g.pointer_position(), (50.0, 20.0));
    let batch = g.drain_for_frame();
    assert_eq!(
        batch.events,
        vec![
            InputEvent::PointerMoved((50.0, 20.0)),
            InputEvent::Key { key: Key::Q, pressed: true, repeat: false },
            InputEvent::PointerButton { pos: (50.0, 20.0), pressed: true },
            InputEvent::PointerButton { pos: (50.0, 20.0), pressed: false },
        ]
    );
}

#[test]
fn button_before_any_move_uses_origin() {
    let mut g = Jegui::new((7.0f32, 9.0f32), 4096, screen());
    g.update(WindowEvent::MouseInput { pressed: true });
    let batch = g.drain_for_frame();
    assert_eq!(batch.events, vec![InputEvent::PointerButton { pos: (7.0, 9.0), pressed: true }]);
}

#[test]
fn frame_actions() {
    let mut g = gui();
    assert_eq!(
        g.update(WindowEvent::Resized { width: 0, height: 0 }),
        FrameAction::Resize { width: 1, height: 1 }
    );
    assert_eq!(
        g.update(WindowEvent::Resized { width: 1200, height: 800 }),
        FrameAction::Resize { width: 1200, height: 800 }
    );
    assert_eq!(g.update(WindowEvent::CloseRequested), FrameAction::Exit);
    assert_eq!(g.update(WindowEvent::RedrawRequested), FrameAction::Redraw);
    assert_eq!(g.update(WindowEvent::Other), FrameAction::Nothing);
    assert_eq!(g.pending_len(), 0);
}

#[test]
fn drain_keeps_every_move_and_clears() {
    let mut g = gui();
    for i in 0..5 {
        g.update(WindowEvent::CursorMoved((i as f32, 0.0)));
    }
    assert_eq!(g.pending_len(), 5);
    let batch = g.drain_for_frame();
    assert_eq!(batch.max_texture_side, 4096);
    assert_eq!(batch.screen_rect, screen());
    assert_eq!(batch.events.len(), 5);
    for (i, e) in batch.events.iter().enumerate() {
        assert_eq!(*e, InputEvent::PointerMoved((i as f32, 0.0)));
    }
    assert_eq!(g.pending_len(), 0);
    g.push(InputEvent::Text("z".to_string()));
    assert_eq!(g.drain_for_frame().events, vec![InputEvent::Text("z".to_string())]);
}

#[test]
fn run_hands_out_a_batch_on_redraw() {
    let mut g = gui();
    let (action, batch) = g.run(key(PhysicalKey::Code(KeyCode::KeyZ), Some("z")));
    assert_eq!(action, FrameAction::Nothing);
    assert!(batch.is_none());
    assert_eq!(g.pending_len(), 2);
    let (action, batch) = g.run(WindowEvent::RedrawRequested);
    assert_eq!(action, FrameAction::Redraw);
    let batch = batch.unwrap();
    assert_eq!(
        batch.events,
        vec![InputEvent::Key { key: Key::Z, pressed: true, repeat: false }, InputEvent::Text("z".to_string())]
    );
    assert_eq!(g.pending_len(), 0);
    let (action, batch) = g.run(WindowEvent::RedrawRequested);
    assert_eq!(action, FrameAction::Redraw);
    assert!(batch.unwrap().events.is_empty());
    let (action, batch) = g.run(WindowEvent::Resized { width: 3, height: 0 });
    assert_eq!(action, FrameAction::Resize { width: 3, height: 1 });
    assert!(batch.is_none());
}
