use gpui_terminal::box_drawing::LineWeight;
use gpui_terminal::colors::{
    Color, ColorOverrides, ColorPalette, LightnessAdjust, NamedColor, ResolvedColor, Rgb,
};
use gpui_terminal::render::{
    covered_columns, horizontal_spans, layout_row, merge_backgrounds, BackgroundRect, CellContent,
};

fn black() -> ResolvedColor {
    ResolvedColor {
        rgb: Rgb { r: 0, g: 0, b: 0 },
        adjust: LightnessAdjust::Normal,
    }
}

fn cell(c: char) -> CellContent {
    CellContent {
        c,
        fg: Color::Named(NamedColor::Foreground),
        bg: Color::Named(NamedColor::Background),
        bold: false,
        italic: false,
        underline: false,
        wide_char_spacer: false,
    }
}

#[test]
fn test_background_rect_merge() {
    let rect1 = BackgroundRect {
        start_col: 0,
        end_col: 5,
        row: 0,
        color: black(),
    };

    let rect2 = BackgroundRect {
        start_col: 5,
        end_col: 10,
        row: 0,
        color: black(),
    };

    assert!(rect1.can_merge_with(&rect2));

    let rect3 = BackgroundRect {
        start_col: 5,
        end_col: 10,
        row: 1,
        color: black(),
    };

    assert!(!rect1.can_merge_with(&rect3));
}

#[test]
fn test_merge_backgrounds() {
    let rects = vec![
        BackgroundRect {
            start_col: 0,
            end_col: 5,
            row: 0,
            color: black(),
        },
        BackgroundRect {
            start_col: 5,
            end_col: 10,
            row: 0,
            color: black(),
        },
    ];

    let merged = merge_backgrounds(rects);
    assert_eq!(merged.len(), 1);
    assert_eq!(merged[0].start_col, 0);
    assert_eq!(merged[0].end_col, 10);
}

#[test]
fn test_merge_backgrounds_batches_agree() {
    // Merging the first two rectangles and then the third gives the same
    // result as merging all three at once, and merging again changes nothing.
    let r1 = BackgroundRect {
        start_col: 0,
        end_col: 3,
        row: 2,
        color: black(),
    };
    let r2 = BackgroundRect {
        start_col: 3,
        end_col: 7,
        row: 2,
        color: black(),
    };
    let r3 = BackgroundRect {
        start_col: 7,
        end_col: 9,
        row: 2,
        color: black(),
    };

    let mut two_batches = merge_backgrounds(vec![r1, r2]);
    two_batches.push(r3);
    let left = merge_backgrounds(two_batches);
    let right = merge_backgrounds(vec![r1, r2, r3]);
    assert_eq!(left, right);
    assert_eq!(
        right,
        vec![BackgroundRect {
            start_col: 0,
            end_col: 9,
            row: 2,
            color: black(),
        }]
    );
    assert_eq!(merge_backgrounds(right.clone()), right);
}

#[test]
fn test_merge_backgrounds_empty() {
    let merged = merge_backgrounds(Vec::new());
    assert!(merged.is_empty());
}

#[test]
fn test_layout_row_batches_styles() {
    let palette = ColorPalette::default();
    let overrides = ColorOverrides::new();

    let mut red_cell = cell('r');
    red_cell.fg = Color::Named(NamedColor::Red);

    let cells = vec![
        (0usize, cell('a')),
        (1usize, cell('b')),
        (2usize, red_cell),
        (3usize, cell('c')),
    ];

    let (backgrounds, runs) = layout_row(0, &cells, &palette, &overrides);

    // One background color throughout: a single merged rectangle.
    assert_eq!(backgrounds.len(), 1);
    assert_eq!(backgrounds[0].start_col, 0);
    assert_eq!(backgrounds[0].end_col, 4);

    // The foreground change splits the text into three runs.
    assert_eq!(runs.len(), 3);
    assert_eq!(runs[0].text, vec!['a', 'b']);
    assert_eq!(runs[0].start_col, 0);
    assert_eq!(runs[1].text, vec!['r']);
    assert_eq!(runs[1].start_col, 2);
    assert_eq!(runs[2].text, vec!['c']);
    assert_eq!(runs[2].start_col, 3);
}

#[test]
fn test_layout_row_skips_wide_spacers_and_blanks_nul() {
    let palette = ColorPalette::default();
    let overrides = ColorOverrides::new();

    let mut spacer = cell(' ');
    spacer.wide_char_spacer = true;

    let cells = vec![
        (0usize, cell('W')),
        (1usize, spacer),
        (2usize, cell('\0')),
    ];

    let (backgrounds, runs) = layout_row(3, &cells, &palette, &overrides);

    // The spacer column contributes nothing: the background jumps from
    // column 1 to column 2, so two rectangles remain.
    assert_eq!(backgrounds.len(), 2);
    assert_eq!((backgrounds[0].start_col, backgrounds[0].end_col), (0, 1));
    assert_eq!((backgrounds[1].start_col, backgrounds[1].end_col), (2, 3));
    assert_eq!(backgrounds[0].row, 3);

    // The NUL cell displays as a blank and continues the run.
    assert_eq!(runs.len(), 1);
    assert_eq!(runs[0].text, vec!['W', ' ']);
}

#[test]
fn test_layout_row_empty() {
    let palette = ColorPalette::default();
    let overrides = ColorOverrides::new();
    let (backgrounds, runs) = layout_row(0, &Vec::new(), &palette, &overrides);
    assert!(backgrounds.is_empty());
    assert!(runs.is_empty());
}

#[test]
fn test_horizontal_spans_batch_row() {
    // A row of ten columns holding `─` in columns 2..7: exactly one span.
    let palette = ColorPalette::default();
    let overrides = ColorOverrides::new();

    let mut cells: Vec<CellContent> = Vec::new();
    for col in 0..10 {
        if (2..7).contains(&col) {
            cells.push(cell('─'));
        } else {
            cells.push(cell(' '));
        }
    }

    let spans = horizontal_spans(&cells, &palette, &overrides);
    assert_eq!(spans.len(), 1);
    assert_eq!(spans[0].start_col, 2);
    assert_eq!(spans[0].end_col, 6);
    assert_eq!(spans[0].weight, LineWeight::Light);
}

#[test]
fn test_horizontal_spans_split_on_weight_and_color() {
    let palette = ColorPalette::default();
    let overrides = ColorOverrides::new();

    let mut red_line = cell('─');
    red_line.fg = Color::Named(NamedColor::Red);

    // Light, light, heavy, red light: three spans; the vertical bar and the
    // text cell contribute none.
    let cells = vec![
        cell('─'),
        cell('─'),
        cell('━'),
        red_line,
        cell('│'),
        cell('x'),
    ];

    let spans = horizontal_spans(&cells, &palette, &overrides);
    assert_eq!(spans.len(), 3);
    assert_eq!((spans[0].start_col, spans[0].end_col), (0, 1));
    assert_eq!(spans[0].weight, LineWeight::Light);
    assert_eq!((spans[1].start_col, spans[1].end_col), (2, 2));
    assert_eq!(spans[1].weight, LineWeight::Heavy);
    assert_eq!((spans[2].start_col, spans[2].end_col), (3, 3));
    assert_eq!(spans[2].weight, LineWeight::Light);
}

#[test]
fn test_horizontal_spans_crosses_join() {
    // A tee and a cross both carry a continuous light horizontal line, so a
    // run through them stays one span.
    let palette = ColorPalette::default();
    let overrides = ColorOverrides::new();

    let cells = vec![cell('─'), cell('┼'), cell('─'), cell('┬'), cell('─')];
    let spans = horizontal_spans(&cells, &palette, &overrides);
    assert_eq!(spans.len(), 1);
    assert_eq!((spans[0].start_col, spans[0].end_col), (0, 4));
}

#[test]
fn test_covered_columns() {
    let palette = ColorPalette::default();
    let overrides = ColorOverrides::new();

    let mut cells: Vec<CellContent> = Vec::new();
    for col in 0..10 {
        if (2..7).contains(&col) {
            cells.push(cell('─'));
        } else {
            cells.push(cell(' '));
        }
    }
    let spans = horizontal_spans(&cells, &palette, &overrides);
    let covered = covered_columns(&spans, 10);
    assert_eq!(
        covered,
        vec![false, false, true, true, true, true, true, false, false, false]
    );
}
