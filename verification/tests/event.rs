use gpui_terminal::event::{translate_event, EngineEvent, TerminalEvent};

#[test]
fn test_wakeup_event() {
    let event = translate_event(EngineEvent::Wakeup).unwrap();
    assert!(matches!(event, TerminalEvent::Wakeup));
}

#[test]
fn test_bell_event() {
    let event = translate_event(EngineEvent::Bell).unwrap();
    assert!(matches!(event, TerminalEvent::Bell));
}

#[test]
fn test_title_event() {
    let event = translate_event(EngineEvent::Title("Test Title".to_string())).unwrap();
    match event {
        TerminalEvent::Title(title) => assert_eq!(title, "Test Title"),
        _ => panic!("Expected Title event"),
    }
}

#[test]
fn test_clipboard_store_event() {
    let event = translate_event(EngineEvent::ClipboardStore("clipboard data".to_string())).unwrap();
    match event {
        TerminalEvent::ClipboardStore(data) => assert_eq!(data, "clipboard data"),
        _ => panic!("Expected ClipboardStore event"),
    }
}

#[test]
fn test_clipboard_load_event() {
    let event = translate_event(EngineEvent::ClipboardLoad).unwrap();
    assert!(matches!(event, TerminalEvent::ClipboardLoad));
}

#[test]
fn test_exit_event() {
    let event = translate_event(EngineEvent::Exit).unwrap();
    assert!(matches!(event, TerminalEvent::Exit));
}

#[test]
fn test_child_exit_event() {
    // A child process exit surfaces as a terminal exit.
    let event = translate_event(EngineEvent::ChildExit).unwrap();
    assert!(matches!(event, TerminalEvent::Exit));
}

#[test]
fn test_reset_title_event() {
    let event = translate_event(EngineEvent::ResetTitle).unwrap();
    match event {
        TerminalEvent::Title(title) => assert!(title.is_empty()),
        _ => panic!("Expected Title event"),
    }
}

#[test]
fn test_ignored_events() {
    // These events are dropped by the bridge.
    assert!(translate_event(EngineEvent::MouseCursorDirty).is_none());
    assert!(translate_event(EngineEvent::CursorBlinkingChange).is_none());
    assert!(translate_event(EngineEvent::PtyWrite("x".to_string())).is_none());
    assert!(translate_event(EngineEvent::ColorRequest).is_none());
    assert!(translate_event(EngineEvent::TextAreaSizeRequest).is_none());
}
