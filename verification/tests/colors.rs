use gpui_terminal::colors::{
    Color, ColorOverrides, ColorPalette, LightnessAdjust, NamedColor, ResolvedColor, Rgb,
};

fn rgb(r: u8, g: u8, b: u8) -> Rgb {
    Rgb { r, g, b }
}

fn plain(r: u8, g: u8, b: u8) -> ResolvedColor {
    ResolvedColor {
        rgb: rgb(r, g, b),
        adjust: LightnessAdjust::Normal,
    }
}

#[test]
fn test_color_palette_default() {
    let palette = ColorPalette::default();
    assert_eq!(palette.ansi_colors().len(), 16);
    assert_eq!(palette.extended_colors().len(), 256);
}

#[test]
fn test_resolve_named_color() {
    let palette = ColorPalette::new();
    let overrides = ColorOverrides::new();
    let resolved = palette.resolve(Color::Named(NamedColor::Red), &overrides);
    assert_eq!(resolved, plain(0xcc, 0x00, 0x00));
}

#[test]
fn test_resolve_indexed_color() {
    let palette = ColorPalette::new();
    let overrides = ColorOverrides::new();
    let resolved = palette.resolve(Color::Indexed(42), &overrides);
    assert_eq!(resolved.adjust, LightnessAdjust::Normal);
    assert_eq!(resolved.rgb, palette.extended_colors()[42]);
}

#[test]
fn test_resolve_spec_color() {
    let palette = ColorPalette::new();
    let overrides = ColorOverrides::new();
    let resolved = palette.resolve(Color::Spec(rgb(128, 64, 192)), &overrides);
    assert_eq!(resolved, plain(128, 64, 192));
}

#[test]
fn test_default_palette_tables() {
    // The first sixteen extended entries mirror the ANSI palette; the cube
    // uses the component levels 0, 95, 135, 175, 215, 255; the grayscale ramp
    // runs from 8 upward in steps of ten.
    let palette = ColorPalette::default();
    let ansi = palette.ansi_colors();
    let extended = palette.extended_colors();
    for i in 0..16 {
        assert_eq!(extended[i], ansi[i]);
    }
    let levels: [u8; 6] = [0, 95, 135, 175, 215, 255];
    for r in 0..6 {
        for g in 0..6 {
            for b in 0..6 {
                let idx = 16 + 36 * r + 6 * g + b;
                assert_eq!(extended[idx], rgb(levels[r], levels[g], levels[b]));
            }
        }
    }
    for i in 0..24u8 {
        let gray = 8 + 10 * i;
        assert_eq!(extended[232 + i as usize], rgb(gray, gray, gray));
    }
    assert_eq!(ansi[0], rgb(0x00, 0x00, 0x00));
    assert_eq!(ansi[1], rgb(0xcc, 0x00, 0x00));
    assert_eq!(ansi[15], rgb(0xee, 0xee, 0xec));
}

#[test]
fn test_resolve_indexed_matches_cube() {
    // Resolving an indexed reference into the cube returns exactly the cube
    // color of its component levels.
    let palette = ColorPalette::default();
    let overrides = ColorOverrides::new();
    let levels: [u8; 6] = [0, 95, 135, 175, 215, 255];
    for r in 0..6 {
        for g in 0..6 {
            for b in 0..6 {
                let idx = (16 + 36 * r + 6 * g + b) as u8;
                let resolved = palette.resolve(Color::Indexed(idx), &overrides);
                assert_eq!(
                    resolved,
                    plain(levels[r as usize], levels[g as usize], levels[b as usize])
                );
            }
        }
    }
}

#[test]
fn test_resolve_special_colors() {
    let palette = ColorPalette::default();
    let overrides = ColorOverrides::new();
    assert_eq!(
        palette.resolve(Color::Named(NamedColor::Foreground), &overrides),
        plain(0xd4, 0xd4, 0xd4)
    );
    assert_eq!(
        palette.resolve(Color::Named(NamedColor::Background), &overrides),
        plain(0x1e, 0x1e, 0x1e)
    );
    assert_eq!(
        palette.resolve(Color::Named(NamedColor::Cursor), &overrides),
        plain(0xff, 0xff, 0xff)
    );
    // Dim variants name their base color with a dim adjustment.
    assert_eq!(
        palette.resolve(Color::Named(NamedColor::DimRed), &overrides),
        ResolvedColor {
            rgb: rgb(0xcc, 0x00, 0x00),
            adjust: LightnessAdjust::Dimmed,
        }
    );
    assert_eq!(
        palette.resolve(Color::Named(NamedColor::DimForeground), &overrides),
        ResolvedColor {
            rgb: rgb(0xd4, 0xd4, 0xd4),
            adjust: LightnessAdjust::Dimmed,
        }
    );
    assert_eq!(
        palette.resolve(Color::Named(NamedColor::BrightForeground), &overrides),
        ResolvedColor {
            rgb: rgb(0xd4, 0xd4, 0xd4),
            adjust: LightnessAdjust::Brightened,
        }
    );
}

#[test]
fn test_resolve_honors_override() {
    let palette = ColorPalette::default();
    let mut overrides = ColorOverrides::new();
    overrides.set(1, rgb(0x12, 0x34, 0x56));
    // The override wins over the palette, and is used as is even for a dim
    // variant's own table slot.
    assert_eq!(
        palette.resolve(Color::Named(NamedColor::Red), &overrides),
        plain(0x12, 0x34, 0x56)
    );
    // Other entries are untouched.
    assert_eq!(
        palette.resolve(Color::Named(NamedColor::Green), &overrides),
        plain(0x4e, 0x9a, 0x06)
    );
}

#[test]
fn test_builder_sets_colors() {
    let palette = ColorPalette::builder()
        .background(0x16, 0x16, 0x17)
        .foreground(0xc9, 0xc7, 0xcd)
        .cursor(0xc9, 0xc7, 0xcd)
        .black(0x10, 0x10, 0x10)
        .red(0xef, 0xa6, 0xa2)
        .bright_white(0xc0, 0xc0, 0xc0)
        .build();
    assert_eq!(palette.background(), rgb(0x16, 0x16, 0x17));
    assert_eq!(palette.foreground(), rgb(0xc9, 0xc7, 0xcd));
    assert_eq!(palette.cursor(), rgb(0xc9, 0xc7, 0xcd));
    assert_eq!(palette.ansi_colors()[0], rgb(0x10, 0x10, 0x10));
    assert_eq!(palette.ansi_colors()[1], rgb(0xef, 0xa6, 0xa2));
    assert_eq!(palette.ansi_colors()[15], rgb(0xc0, 0xc0, 0xc0));
    // Changes to ANSI entries are mirrored into the extended table.
    assert_eq!(palette.extended_colors()[0], rgb(0x10, 0x10, 0x10));
    assert_eq!(palette.extended_colors()[1], rgb(0xef, 0xa6, 0xa2));
    assert_eq!(palette.extended_colors()[15], rgb(0xc0, 0xc0, 0xc0));
    // Entries the builder did not touch keep their defaults.
    assert_eq!(palette.ansi_colors()[2], rgb(0x4e, 0x9a, 0x06));
    assert_eq!(palette.extended_colors()[42], ColorPalette::default().extended_colors()[42]);
}
