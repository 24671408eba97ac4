use gpui_terminal::terminal::{TermDimensions, TermMode};

#[test]
fn test_term_dimensions() {
    let dims = TermDimensions::new(80, 24);
    assert_eq!(dims.columns(), 80);
    assert_eq!(dims.screen_lines(), 24);
    // On initialization the grid is exactly the visible screen.
    assert_eq!(dims.total_lines(), 24);
    assert_eq!(dims.last_column(), 79);
}

#[test]
fn test_term_dimensions_empty_grid() {
    let dims = TermDimensions::new(0, 0);
    assert_eq!(dims.columns(), 0);
    assert_eq!(dims.last_column(), 0);
}

#[test]
fn test_term_mode_empty() {
    let mode = TermMode::empty();
    assert!(!mode.app_cursor);
    assert!(!mode.alt_screen);
    assert!(!mode.any_mouse_mode());
}

#[test]
fn test_term_mode_any_mouse() {
    let mut mode = TermMode::empty();
    mode.mouse_motion = true;
    assert!(mode.any_mouse_mode());
    let mut mode = TermMode::empty();
    mode.mouse_drag = true;
    assert!(mode.any_mouse_mode());
    let mut mode = TermMode::empty();
    mode.mouse_report_click = true;
    assert!(mode.any_mouse_mode());
}
