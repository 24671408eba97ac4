use gpui_terminal::input::{keystroke_to_bytes, Keystroke, Modifiers};
use gpui_terminal::terminal::TermMode;

fn key(name: &str) -> Keystroke {
    Keystroke {
        key: name.to_string(),
        key_char: None,
        modifiers: Modifiers {
            control: false,
            alt: false,
            shift: false,
        },
    }
}

fn key_with(name: &str, control: bool, alt: bool, shift: bool) -> Keystroke {
    Keystroke {
        key: name.to_string(),
        key_char: None,
        modifiers: Modifiers {
            control,
            alt,
            shift,
        },
    }
}

#[test]
fn test_enter_key() {
    let keystroke = key("enter");
    let bytes = keystroke_to_bytes(&keystroke, TermMode::empty());
    assert_eq!(bytes, Some(b"\r".to_vec()));
}

#[test]
fn test_escape_key() {
    let keystroke = key("escape");
    let bytes = keystroke_to_bytes(&keystroke, TermMode::empty());
    assert_eq!(bytes, Some(b"\x1b".to_vec()));
}

#[test]
fn test_backspace_key() {
    let keystroke = key("backspace");
    let bytes = keystroke_to_bytes(&keystroke, TermMode::empty());
    assert_eq!(bytes, Some(b"\x7f".to_vec()));
}

#[test]
fn test_tab_key() {
    let keystroke = key("tab");
    let bytes = keystroke_to_bytes(&keystroke, TermMode::empty());
    assert_eq!(bytes, Some(b"\t".to_vec()));
}

#[test]
fn test_shift_tab() {
    let keystroke = key_with("tab", false, false, true);
    let bytes = keystroke_to_bytes(&keystroke, TermMode::empty());
    assert_eq!(bytes, Some(b"\x1b[Z".to_vec()));
}

#[test]
fn test_arrow_keys_normal_mode() {
    let mode = TermMode::empty();

    assert_eq!(
        keystroke_to_bytes(&key("up"), mode),
        Some(b"\x1b[A".to_vec())
    );
    assert_eq!(
        keystroke_to_bytes(&key("down"), mode),
        Some(b"\x1b[B".to_vec())
    );
    assert_eq!(
        keystroke_to_bytes(&key("right"), mode),
        Some(b"\x1b[C".to_vec())
    );
    assert_eq!(
        keystroke_to_bytes(&key("left"), mode),
        Some(b"\x1b[D".to_vec())
    );
}

#[test]
fn test_arrow_keys_app_cursor_mode() {
    let mut mode = TermMode::empty();
    mode.app_cursor = true;

    assert_eq!(
        keystroke_to_bytes(&key("up"), mode),
        Some(b"\x1bOA".to_vec())
    );
    assert_eq!(
        keystroke_to_bytes(&key("down"), mode),
        Some(b"\x1bOB".to_vec())
    );
    assert_eq!(
        keystroke_to_bytes(&key("right"), mode),
        Some(b"\x1bOC".to_vec())
    );
    assert_eq!(
        keystroke_to_bytes(&key("left"), mode),
        Some(b"\x1bOD".to_vec())
    );
}

#[test]
fn test_navigation_keys() {
    let mode = TermMode::empty();

    assert_eq!(
        keystroke_to_bytes(&key("home"), mode),
        Some(b"\x1b[H".to_vec())
    );
    assert_eq!(
        keystroke_to_bytes(&key("end"), mode),
        Some(b"\x1b[F".to_vec())
    );
    assert_eq!(
        keystroke_to_bytes(&key("pageup"), mode),
        Some(b"\x1b[5~".to_vec())
    );
    assert_eq!(
        keystroke_to_bytes(&key("pagedown"), mode),
        Some(b"\x1b[6~".to_vec())
    );
    assert_eq!(
        keystroke_to_bytes(&key("insert"), mode),
        Some(b"\x1b[2~".to_vec())
    );
    assert_eq!(
        keystroke_to_bytes(&key("delete"), mode),
        Some(b"\x1b[3~".to_vec())
    );
}

#[test]
fn test_function_keys() {
    let mode = TermMode::empty();

    assert_eq!(
        keystroke_to_bytes(&key("f1"), mode),
        Some(b"\x1bOP".to_vec())
    );
    assert_eq!(
        keystroke_to_bytes(&key("f2"), mode),
        Some(b"\x1bOQ".to_vec())
    );
    assert_eq!(
        keystroke_to_bytes(&key("f5"), mode),
        Some(b"\x1b[15~".to_vec())
    );
    assert_eq!(
        keystroke_to_bytes(&key("f12"), mode),
        Some(b"\x1b[24~".to_vec())
    );
}

#[test]
fn test_all_function_keys() {
    // The traditional non-contiguous numbering: F5..F12 map to
    // 15, 17, 18, 19, 20, 21, 23, 24.
    let mode = TermMode::empty();
    assert_eq!(
        keystroke_to_bytes(&key("f3"), mode),
        Some(b"\x1bOR".to_vec())
    );
    assert_eq!(
        keystroke_to_bytes(&key("f4"), mode),
        Some(b"\x1bOS".to_vec())
    );
    assert_eq!(
        keystroke_to_bytes(&key("f6"), mode),
        Some(b"\x1b[17~".to_vec())
    );
    assert_eq!(
        keystroke_to_bytes(&key("f7"), mode),
        Some(b"\x1b[18~".to_vec())
    );
    assert_eq!(
        keystroke_to_bytes(&key("f8"), mode),
        Some(b"\x1b[19~".to_vec())
    );
    assert_eq!(
        keystroke_to_bytes(&key("f9"), mode),
        Some(b"\x1b[20~".to_vec())
    );
    assert_eq!(
        keystroke_to_bytes(&key("f10"), mode),
        Some(b"\x1b[21~".to_vec())
    );
    assert_eq!(
        keystroke_to_bytes(&key("f11"), mode),
        Some(b"\x1b[23~".to_vec())
    );
}

#[test]
fn test_ctrl_combinations() {
    let mode = TermMode::empty();

    // Ctrl+A = 0x01
    assert_eq!(
        keystroke_to_bytes(&key_with("a", true, false, false), mode),
        Some(vec![0x01])
    );
    // Ctrl+C = 0x03
    assert_eq!(
        keystroke_to_bytes(&key_with("c", true, false, false), mode),
        Some(vec![0x03])
    );
    // Ctrl+Z = 0x1a
    assert_eq!(
        keystroke_to_bytes(&key_with("z", true, false, false), mode),
        Some(vec![0x1a])
    );
    // Ctrl+Space = 0x00
    assert_eq!(
        keystroke_to_bytes(&key_with("space", true, false, false), mode),
        Some(vec![0x00])
    );
}

#[test]
fn test_ctrl_punctuation() {
    let mode = TermMode::empty();
    assert_eq!(
        keystroke_to_bytes(&key_with("[", true, false, false), mode),
        Some(vec![0x1b])
    );
    assert_eq!(
        keystroke_to_bytes(&key_with("\\", true, false, false), mode),
        Some(vec![0x1c])
    );
    assert_eq!(
        keystroke_to_bytes(&key_with("]", true, false, false), mode),
        Some(vec![0x1d])
    );
    assert_eq!(
        keystroke_to_bytes(&key_with("^", true, false, false), mode),
        Some(vec![0x1e])
    );
    assert_eq!(
        keystroke_to_bytes(&key_with("_", true, false, false), mode),
        Some(vec![0x1f])
    );
    assert_eq!(
        keystroke_to_bytes(&key_with("?", true, false, false), mode),
        Some(vec![0x7f])
    );
    // An unmapped control combination produces nothing.
    assert_eq!(keystroke_to_bytes(&key_with("1", true, false, false), mode), None);
}

#[test]
fn test_alt_combinations() {
    let mode = TermMode::empty();

    // Alt+a sends ESC followed by 'a'
    assert_eq!(
        keystroke_to_bytes(&key_with("a", false, true, false), mode),
        Some(b"\x1ba".to_vec())
    );
    // Alt+x sends ESC followed by 'x'
    assert_eq!(
        keystroke_to_bytes(&key_with("x", false, true, false), mode),
        Some(b"\x1bx".to_vec())
    );
}

#[test]
fn test_regular_characters() {
    let mode = TermMode::empty();

    assert_eq!(keystroke_to_bytes(&key("a"), mode), Some(b"a".to_vec()));
    assert_eq!(keystroke_to_bytes(&key("z"), mode), Some(b"z".to_vec()));
    assert_eq!(keystroke_to_bytes(&key("0"), mode), Some(b"0".to_vec()));
}

#[test]
fn test_space_key() {
    let mode = TermMode::empty();
    assert_eq!(
        keystroke_to_bytes(&key("space"), mode),
        Some(b" ".to_vec())
    );
}

#[test]
fn test_shifted_character() {
    let mode = TermMode::empty();
    // Shift upper-cases the key name when no typed text is attached.
    assert_eq!(
        keystroke_to_bytes(&key_with("a", false, false, true), mode),
        Some(b"A".to_vec())
    );
}

#[test]
fn test_key_char_is_passed_through() {
    // When the keystroke carries the typed text, those bytes are sent as is:
    // UTF-8 for non-ASCII input.
    let mode = TermMode::empty();
    let keystroke = Keystroke {
        key: "e".to_string(),
        key_char: Some("é".to_string()),
        modifiers: Modifiers {
            control: false,
            alt: false,
            shift: false,
        },
    };
    assert_eq!(
        keystroke_to_bytes(&keystroke, mode),
        Some(vec![0xc3, 0xa9])
    );
}

#[test]
fn test_unrecognized_key_produces_nothing() {
    let mode = TermMode::empty();
    assert_eq!(keystroke_to_bytes(&key("volumeup"), mode), None);
}
