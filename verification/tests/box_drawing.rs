use gpui_terminal::box_drawing::{
    extends_left, extends_right, get_box_segments, get_horizontal_weight, get_vertical_weight,
    is_box_drawing_char, is_rounded_corner, BoxSegments, LineWeight,
};

#[test]
fn test_is_box_drawing_char() {
    assert!(is_box_drawing_char('─')); // U+2500
    assert!(is_box_drawing_char('│')); // U+2502
    assert!(is_box_drawing_char('┌')); // U+250C
    assert!(is_box_drawing_char('┼')); // U+253C
    assert!(is_box_drawing_char('╬')); // U+256C
    assert!(is_box_drawing_char('╿')); // U+257F (last)
    assert!(!is_box_drawing_char('A'));
    assert!(!is_box_drawing_char(' '));
    assert!(!is_box_drawing_char('█')); // Block element, not box drawing
}

#[test]
fn test_get_box_segments_horizontal() {
    let seg = get_box_segments('─').unwrap();
    assert_eq!(seg.left, Some(LineWeight::Light));
    assert_eq!(seg.right, Some(LineWeight::Light));
    assert_eq!(seg.top, None);
    assert_eq!(seg.bottom, None);
}

#[test]
fn test_get_box_segments_vertical() {
    let seg = get_box_segments('│').unwrap();
    assert_eq!(seg.left, None);
    assert_eq!(seg.right, None);
    assert_eq!(seg.top, Some(LineWeight::Light));
    assert_eq!(seg.bottom, Some(LineWeight::Light));
}

#[test]
fn test_get_box_segments_corner() {
    let seg = get_box_segments('┌').unwrap();
    assert_eq!(seg.left, None);
    assert_eq!(seg.right, Some(LineWeight::Light));
    assert_eq!(seg.top, None);
    assert_eq!(seg.bottom, Some(LineWeight::Light));
}

#[test]
fn test_get_box_segments_cross() {
    let seg = get_box_segments('┼').unwrap();
    assert_eq!(seg.left, Some(LineWeight::Light));
    assert_eq!(seg.right, Some(LineWeight::Light));
    assert_eq!(seg.top, Some(LineWeight::Light));
    assert_eq!(seg.bottom, Some(LineWeight::Light));
}

#[test]
fn test_get_box_segments_double() {
    let seg = get_box_segments('═').unwrap();
    assert_eq!(seg.left, Some(LineWeight::Double));
    assert_eq!(seg.right, Some(LineWeight::Double));
    assert_eq!(seg.top, None);
    assert_eq!(seg.bottom, None);
}

#[test]
fn test_get_box_segments_invalid() {
    assert!(get_box_segments('A').is_none());
    assert!(get_box_segments(' ').is_none());
}

#[test]
fn test_box_drawing_block_fully_covered() {
    // Every character of the block except the three diagonals has a segment
    // description with at least one segment.
    for code in 0x2500u32..=0x257F {
        let ch = char::from_u32(code).unwrap();
        if (0x2571..=0x2573).contains(&code) {
            assert!(get_box_segments(ch).is_none());
        } else {
            let seg = get_box_segments(ch).unwrap();
            assert!(
                seg.top.is_some()
                    || seg.bottom.is_some()
                    || seg.left.is_some()
                    || seg.right.is_some()
            );
        }
    }
}

#[test]
fn test_horizontal_and_vertical_weights() {
    assert_eq!(get_horizontal_weight('─'), Some(LineWeight::Light));
    assert_eq!(get_horizontal_weight('━'), Some(LineWeight::Heavy));
    assert_eq!(get_horizontal_weight('═'), Some(LineWeight::Double));
    // A left half-line has no continuous horizontal line.
    assert_eq!(get_horizontal_weight('╴'), None);
    // Mixed weights on the two sides do not form a continuous line.
    assert_eq!(get_horizontal_weight('╼'), None);
    assert_eq!(get_vertical_weight('│'), Some(LineWeight::Light));
    assert_eq!(get_vertical_weight('┃'), Some(LineWeight::Heavy));
    assert_eq!(get_vertical_weight('║'), Some(LineWeight::Double));
    assert_eq!(get_vertical_weight('─'), None);
    assert_eq!(get_vertical_weight('╿'), None);
}

#[test]
fn test_extends_left_right() {
    assert!(extends_left('─'));
    assert!(extends_right('─'));
    assert!(!extends_left('┌'));
    assert!(extends_right('┌'));
    assert!(extends_left('┐'));
    assert!(!extends_right('┐'));
    assert!(!extends_left('│'));
    assert!(!extends_right('│'));
    assert!(!extends_left('A'));
    assert!(!extends_right('A'));
}

#[test]
fn test_rounded_corner_range() {
    assert!(is_rounded_corner('╭'));
    assert!(is_rounded_corner('╮'));
    assert!(is_rounded_corner('╯'));
    assert!(is_rounded_corner('╰'));
    assert!(!is_rounded_corner('┌'));
    assert!(!is_rounded_corner('╱'));
    // Rounded corners carry the same segments as their square counterparts.
    assert_eq!(get_box_segments('╭'), get_box_segments('┌'));
    assert_eq!(get_box_segments('╮'), get_box_segments('┐'));
    assert_eq!(get_box_segments('╯'), get_box_segments('┘'));
    assert_eq!(get_box_segments('╰'), get_box_segments('└'));
}

#[test]
fn test_stroke_weights() {
    // Agreeing sides give one stroke of the shared weight.
    let cross = get_box_segments('┼').unwrap();
    assert_eq!(cross.horizontal_stroke_weight(), Some(LineWeight::Light));
    assert_eq!(cross.vertical_stroke_weight(), Some(LineWeight::Light));
    // A single present side gives a stroke of that side's weight.
    let corner = get_box_segments('┍').unwrap();
    assert_eq!(corner.horizontal_stroke_weight(), Some(LineWeight::Heavy));
    assert_eq!(corner.vertical_stroke_weight(), Some(LineWeight::Light));
    // Disagreeing sides are drawn separately: no single stroke.
    let mixed = get_box_segments('╼').unwrap();
    assert_eq!(mixed.horizontal_stroke_weight(), None);
    // No sides at all: nothing to stroke.
    let empty = BoxSegments::new(None, None, None, None);
    assert_eq!(empty.horizontal_stroke_weight(), None);
    assert_eq!(empty.vertical_stroke_weight(), None);
}
