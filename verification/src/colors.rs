//! Color palette for the terminal.
//!
//! The palette keeps the 16 ANSI colors, the 256-entry extended table
//! (6x6x6 cube plus grayscale ramp) and the three special colors
//! (foreground, background, cursor), all as 8-bit RGB values.
//!
//! Resolution of a terminal color reference yields a [`ResolvedColor`]: a base
//! RGB value together with a lightness adjustment. The dim and bright named
//! variants scale the lightness of their base color in HSL space; that scaling
//! is a property of the paint layer's color space, so the palette reports it
//! symbolically and the host applies it when converting to its own color type.

use vstd::prelude::*;

verus! {

/// An 8-bit RGB color value.
#[derive(Debug, Clone, Copy, PartialEq, Eq, Structural)]
pub struct Rgb {
    pub r: u8,
    pub g: u8,
    pub b: u8,
}

/// The named colors a terminal application can refer to.
///
/// The first sixteen name the ANSI palette entries; the rest name the special
/// colors and their dim and bright variants.
#[derive(Debug, Clone, Copy, PartialEq, Eq, Structural)]
pub enum NamedColor {
    Black,
    Red,
    Green,
    Yellow,
    Blue,
    Magenta,
    Cyan,
    White,
    BrightBlack,
    BrightRed,
    BrightGreen,
    BrightYellow,
    BrightBlue,
    BrightMagenta,
    BrightCyan,
    BrightWhite,
    Foreground,
    Background,
    Cursor,
    DimBlack,
    DimRed,
    DimGreen,
    DimYellow,
    DimBlue,
    DimMagenta,
    DimCyan,
    DimWhite,
    BrightForeground,
    DimForeground,
}

/// Number of entries in a terminal color table: 256 palette slots plus the
/// named special colors.
pub const COLOR_TABLE_SIZE: usize = 269;

impl NamedColor {
    /// Position of this named color in a terminal color table.
    pub open spec fn spec_index(self) -> int {
        match self {
            NamedColor::Black => 0,
            NamedColor::Red => 1,
            NamedColor::Green => 2,
            NamedColor::Yellow => 3,
            NamedColor::Blue => 4,
            NamedColor::Magenta => 5,
            NamedColor::Cyan => 6,
            NamedColor::White => 7,
            NamedColor::BrightBlack => 8,
            NamedColor::BrightRed => 9,
            NamedColor::BrightGreen => 10,
            NamedColor::BrightYellow => 11,
            NamedColor::BrightBlue => 12,
            NamedColor::BrightMagenta => 13,
            NamedColor::BrightCyan => 14,
            NamedColor::BrightWhite => 15,
            NamedColor::Foreground => 256,
            NamedColor::Background => 257,
            NamedColor::Cursor => 258,
            NamedColor::DimBlack => 259,
            NamedColor::DimRed => 260,
            NamedColor::DimGreen => 261,
            NamedColor::DimYellow => 262,
            NamedColor::DimBlue => 263,
            NamedColor::DimMagenta => 264,
            NamedColor::DimCyan => 265,
            NamedColor::DimWhite => 266,
            NamedColor::BrightForeground => 267,
            NamedColor::DimForeground => 268,
        }
    }

    /// Position of this named color in a terminal color table.
    pub fn index(self) -> (i: usize)
        ensures
            i == self.spec_index(),
            i < COLOR_TABLE_SIZE,
    {
        match self {
            NamedColor::Black => 0,
            NamedColor::Red => 1,
            NamedColor::Green => 2,
            NamedColor::Yellow => 3,
            NamedColor::Blue => 4,
            NamedColor::Magenta => 5,
            NamedColor::Cyan => 6,
            NamedColor::White => 7,
            NamedColor::BrightBlack => 8,
            NamedColor::BrightRed => 9,
            NamedColor::BrightGreen => 10,
            NamedColor::BrightYellow => 11,
            NamedColor::BrightBlue => 12,
            NamedColor::BrightMagenta => 13,
            NamedColor::BrightCyan => 14,
            NamedColor::BrightWhite => 15,
            NamedColor::Foreground => 256,
            NamedColor::Background => 257,
            NamedColor::Cursor => 258,
            NamedColor::DimBlack => 259,
            NamedColor::DimRed => 260,
            NamedColor::DimGreen => 261,
            NamedColor::DimYellow => 262,
            NamedColor::DimBlue => 263,
            NamedColor::DimMagenta => 264,
            NamedColor::DimCyan => 265,
            NamedColor::DimWhite => 266,
            NamedColor::BrightForeground => 267,
            NamedColor::DimForeground => 268,
        }
    }

    /// Index of the base ANSI color a dim variant refers to, for the eight
    /// dim palette colors; the white entry for anything else, matching the
    /// fallback of the dim-variant resolution.
    pub open spec fn spec_dim_base(self) -> int {
        match self {
            NamedColor::DimBlack => 0,
            NamedColor::DimRed => 1,
            NamedColor::DimGreen => 2,
            NamedColor::DimYellow => 3,
            NamedColor::DimBlue => 4,
            NamedColor::DimMagenta => 5,
            NamedColor::DimCyan => 6,
            NamedColor::DimWhite => 7,
            _ => 7,
        }
    }
}

/// A color reference as it appears in a terminal cell: a named color, a
/// direct 24-bit value, or an index into the 256-entry table.
#[derive(Debug, Clone, Copy, PartialEq, Eq, Structural)]
pub enum Color {
    Named(NamedColor),
    Spec(Rgb),
    Indexed(u8),
}

/// A lightness adjustment to apply to a base color in HSL space.
#[derive(Debug, Clone, Copy, PartialEq, Eq, Structural)]
pub enum LightnessAdjust {
    /// Use the base color as is.
    Normal,
    /// Scale the HSL lightness by 0.7.
    Dimmed,
    /// Scale the HSL lightness by 1.2, clamped to 1.
    Brightened,
}

/// The result of resolving a terminal color reference: a base RGB value and
/// the lightness adjustment the paint layer applies to it.
#[derive(Debug, Clone, Copy, PartialEq, Eq, Structural)]
pub struct ResolvedColor {
    pub rgb: Rgb,
    pub adjust: LightnessAdjust,
}

impl ResolvedColor {
    /// A color used unchanged.
    pub open spec fn spec_plain(rgb: Rgb) -> ResolvedColor {
        ResolvedColor { rgb, adjust: LightnessAdjust::Normal }
    }

    /// A color used unchanged.
    pub fn plain(rgb: Rgb) -> (r: ResolvedColor)
        ensures
            r == ResolvedColor::spec_plain(rgb),
    {
        ResolvedColor { rgb, adjust: LightnessAdjust::Normal }
    }
}

/// Per-session color overrides, as set by the application through escape
/// sequences. One optional RGB value for each color table entry.
pub struct ColorOverrides {
    entries: Vec<Option<Rgb>>,
}

impl View for ColorOverrides {
    type V = Seq<Option<Rgb>>;

    closed spec fn view(&self) -> Seq<Option<Rgb>> {
        self.entries@
    }
}

impl ColorOverrides {
    /// All entries are present, overridden or not.
    pub open spec fn wf(self) -> bool {
        self@.len() == COLOR_TABLE_SIZE
    }

    /// An override table with no overrides set.
    pub fn new() -> (r: ColorOverrides)
        ensures
            r.wf(),
            forall|i: int| 0 <= i < COLOR_TABLE_SIZE ==> r@[i] is None,
    {
        let mut entries: Vec<Option<Rgb>> = Vec::new();
        let mut i: usize = 0;
        while i < COLOR_TABLE_SIZE
            invariant
                entries@.len() == i,
                i <= COLOR_TABLE_SIZE,
                forall|j: int| 0 <= j < i ==> entries@[j] is None,
            decreases COLOR_TABLE_SIZE - i,
        {
            entries.push(None);
            i = i + 1;
        }
        ColorOverrides { entries }
    }

    /// Set the override for one color table entry.
    pub fn set(&mut self, index: usize, rgb: Rgb)
        requires
            old(self).wf(),
            index < COLOR_TABLE_SIZE,
        ensures
            final(self).wf(),
            final(self)@ == old(self)@.update(index as int, Some(rgb)),
    {
        self.entries.set(index, Some(rgb));
    }

    /// Look up the override for a named color.
    pub fn get_named(&self, named: NamedColor) -> (r: Option<Rgb>)
        requires
            self.wf(),
        ensures
            r == self@[named.spec_index()],
    {
        let idx = named.index();
        self.entries[idx]
    }
}

/// The default value of ANSI palette entry `i`.
pub open spec fn spec_default_ansi(i: int) -> Rgb {
    if i == 0 {
        Rgb { r: 0x00, g: 0x00, b: 0x00 }
    } else if i == 1 {
        Rgb { r: 0xcc, g: 0x00, b: 0x00 }
    } else if i == 2 {
        Rgb { r: 0x4e, g: 0x9a, b: 0x06 }
    } else if i == 3 {
        Rgb { r: 0xc4, g: 0xa0, b: 0x00 }
    } else if i == 4 {
        Rgb { r: 0x34, g: 0x65, b: 0xa4 }
    } else if i == 5 {
        Rgb { r: 0x75, g: 0x50, b: 0x7b }
    } else if i == 6 {
        Rgb { r: 0x06, g: 0x98, b: 0x9a }
    } else if i == 7 {
        Rgb { r: 0xd3, g: 0xd7, b: 0xcf }
    } else if i == 8 {
        Rgb { r: 0x55, g: 0x57, b: 0x53 }
    } else if i == 9 {
        Rgb { r: 0xef, g: 0x29, b: 0x29 }
    } else if i == 10 {
        Rgb { r: 0x8a, g: 0xe2, b: 0x34 }
    } else if i == 11 {
        Rgb { r: 0xfc, g: 0xe9, b: 0x4f }
    } else if i == 12 {
        Rgb { r: 0x72, g: 0x9f, b: 0xcf }
    } else if i == 13 {
        Rgb { r: 0xad, g: 0x7f, b: 0xa8 }
    } else if i == 14 {
        Rgb { r: 0x34, g: 0xe2, b: 0xe2 }
    } else {
        Rgb { r: 0xee, g: 0xee, b: 0xec }
    }
}

/// Component level `v` of the 6x6x6 color cube: 0, 95, 135, 175, 215, 255.
pub open spec fn spec_cube_level(v: int) -> int {
    if v == 0 {
        0
    } else {
        55 + 40 * v
    }
}

/// Grayscale ramp entry `i`: an even gray at value `8 + 10 i`.
pub open spec fn spec_gray_level(i: int) -> int {
    8 + 10 * i
}

/// A color palette mapping terminal color references to RGB values.
///
/// The extended table mirrors the ANSI palette in its first sixteen entries,
/// holds the 6x6x6 color cube in entries 16..232, and the 24-step grayscale
/// ramp in entries 232..256.
#[derive(Debug, Clone)]
pub struct ColorPalette {
    /// The 16 standard ANSI colors.
    pub ansi_colors: Vec<Rgb>,
    /// The 256-color table.
    pub extended_colors: Vec<Rgb>,
    /// Default foreground color.
    pub foreground: Rgb,
    /// Default background color.
    pub background: Rgb,
    /// Default cursor color.
    pub cursor: Rgb,
}

impl ColorPalette {
    /// Both color tables have their full length.
    pub open spec fn wf(self) -> bool {
        self.spec_ansi().len() == 16 && self.spec_extended().len() == 256
    }

    /// The ANSI palette as a sequence.
    pub open spec fn spec_ansi(self) -> Seq<Rgb> {
        self.ansi_colors@
    }

    /// The extended table as a sequence.
    pub open spec fn spec_extended(self) -> Seq<Rgb> {
        self.extended_colors@
    }

    /// The default foreground.
    pub open spec fn spec_foreground(self) -> Rgb {
        self.foreground
    }

    /// The default background.
    pub open spec fn spec_background(self) -> Rgb {
        self.background
    }

    /// The default cursor color.
    pub open spec fn spec_cursor(self) -> Rgb {
        self.cursor
    }

    /// The first sixteen extended entries mirror the ANSI palette.
    pub open spec fn ansi_mirrored(self) -> bool {
        forall|i: int| 0 <= i < 16 ==> self.spec_extended()[i] == self.spec_ansi()[i]
    }

    /// The palette holds the default colors: the standard ANSI table, the
    /// color cube, the grayscale ramp, and the default special colors.
    pub open spec fn is_default(self) -> bool {
        &&& self.wf()
        &&& self.ansi_mirrored()
        &&& forall|i: int| 0 <= i < 16 ==> self.spec_ansi()[i] == spec_default_ansi(i)
        &&& forall|r: int, g: int, b: int|
            0 <= r < 6 && 0 <= g < 6 && 0 <= b < 6 ==> self.spec_extended()[16 + 36 * r + 6 * g
                + b] == (Rgb {
                r: spec_cube_level(r) as u8,
                g: spec_cube_level(g) as u8,
                b: spec_cube_level(b) as u8,
            })
        &&& forall|i: int| 0 <= i < 24 ==> self.spec_extended()[232 + i] == (Rgb {
            r: spec_gray_level(i) as u8,
            g: spec_gray_level(i) as u8,
            b: spec_gray_level(i) as u8,
        })
        &&& self.spec_foreground() == (Rgb { r: 0xd4, g: 0xd4, b: 0xd4 })
        &&& self.spec_background() == (Rgb { r: 0x1e, g: 0x1e, b: 0x1e })
        &&& self.spec_cursor() == (Rgb { r: 0xff, g: 0xff, b: 0xff })
    }

    /// Creates a new color palette with default colors.
    pub fn new() -> (r: Self)
        ensures
            r.is_default(),
    {
        Self::default_palette()
    }

    /// The default palette.
    #[verifier::rlimit(100)]
    fn default_palette() -> (result: Self)
        ensures
            result.is_default(),
    {
        let mut ansi_colors: Vec<Rgb> = Vec::new();
        ansi_colors.push(Rgb { r: 0x00, g: 0x00, b: 0x00 });  // Black
        ansi_colors.push(Rgb { r: 0xcc, g: 0x00, b: 0x00 });  // Red
        ansi_colors.push(Rgb { r: 0x4e, g: 0x9a, b: 0x06 });  // Green
        ansi_colors.push(Rgb { r: 0xc4, g: 0xa0, b: 0x00 });  // Yellow
        ansi_colors.push(Rgb { r: 0x34, g: 0x65, b: 0xa4 });  // Blue
        ansi_colors.push(Rgb { r: 0x75, g: 0x50, b: 0x7b });  // Magenta
        ansi_colors.push(Rgb { r: 0x06, g: 0x98, b: 0x9a });  // Cyan
        ansi_colors.push(Rgb { r: 0xd3, g: 0xd7, b: 0xcf });  // White
        ansi_colors.push(Rgb { r: 0x55, g: 0x57, b: 0x53 });  // Bright Black
        ansi_colors.push(Rgb { r: 0xef, g: 0x29, b: 0x29 });  // Bright Red
        ansi_colors.push(Rgb { r: 0x8a, g: 0xe2, b: 0x34 });  // Bright Green
        ansi_colors.push(Rgb { r: 0xfc, g: 0xe9, b: 0x4f });  // Bright Yellow
        ansi_colors.push(Rgb { r: 0x72, g: 0x9f, b: 0xcf });  // Bright Blue
        ansi_colors.push(Rgb { r: 0xad, g: 0x7f, b: 0xa8 });  // Bright Magenta
        ansi_colors.push(Rgb { r: 0x34, g: 0xe2, b: 0xe2 });  // Bright Cyan
        ansi_colors.push(Rgb { r: 0xee, g: 0xee, b: 0xec });  // Bright White
        assert forall|i: int| 0 <= i < 16 implies ansi_colors@[i] == spec_default_ansi(i) by {}

        let mut extended_colors: Vec<Rgb> = Vec::new();
        let mut i: usize = 0;
        while i < 16
            invariant
                i <= 16,
                ansi_colors@.len() == 16,
                extended_colors@.len() == i,
                forall|j: int| 0 <= j < i ==> extended_colors@[j] == ansi_colors@[j],
            decreases 16 - i,
        {
            extended_colors.push(ansi_colors[i]);
            i = i + 1;
        }

        // Colors 16-231: the 6x6x6 color cube.
        let mut r: u8 = 0;
        while r < 6
            invariant
                r <= 6,
                extended_colors@.len() == 16 + 36 * r,
                forall|j: int| 0 <= j < 16 ==> extended_colors@[j] == ansi_colors@[j],
                forall|cr: int, cg: int, cb: int|
                    0 <= cr < r && 0 <= cg < 6 && 0 <= cb < 6 ==> extended_colors@[16 + 36 * cr + 6
                        * cg + cb] == (Rgb {
                        r: spec_cube_level(cr) as u8,
                        g: spec_cube_level(cg) as u8,
                        b: spec_cube_level(cb) as u8,
                    }),
            decreases 6 - r,
        {
            let mut g: u8 = 0;
            while g < 6
                invariant
                    r < 6,
                    g <= 6,
                    extended_colors@.len() == 16 + 36 * r + 6 * g,
                    forall|j: int| 0 <= j < 16 ==> extended_colors@[j] == ansi_colors@[j],
                    forall|cr: int, cg: int, cb: int|
                        0 <= cr < 6 && 0 <= cg < 6 && 0 <= cb < 6 && 36 * cr + 6 * cg + cb < 36 * r
                            + 6 * g ==> extended_colors@[16 + 36 * cr + 6 * cg + cb] == (Rgb {
                            r: spec_cube_level(cr) as u8,
                            g: spec_cube_level(cg) as u8,
                            b: spec_cube_level(cb) as u8,
                        }),
                decreases 6 - g,
            {
                let mut b: u8 = 0;
                while b < 6
                    invariant
                        r < 6,
                        g < 6,
                        b <= 6,
                        extended_colors@.len() == 16 + 36 * r + 6 * g + b,
                        forall|j: int| 0 <= j < 16 ==> extended_colors@[j] == ansi_colors@[j],
                        forall|cr: int, cg: int, cb: int|
                            0 <= cr < 6 && 0 <= cg < 6 && 0 <= cb < 6 && 36 * cr + 6 * cg + cb < 36
                                * r + 6 * g + b ==> extended_colors@[16 + 36 * cr + 6 * cg + cb]
                                == (Rgb {
                                r: spec_cube_level(cr) as u8,
                                g: spec_cube_level(cg) as u8,
                                b: spec_cube_level(cb) as u8,
                            }),
                    decreases 6 - b,
                {
                    let rv: u8 = if r == 0 {
                        0
                    } else {
                        55 + r * 40
                    };
                    let gv: u8 = if g == 0 {
                        0
                    } else {
                        55 + g * 40
                    };
                    let bv: u8 = if b == 0 {
                        0
                    } else {
                        55 + b * 40
                    };
                    extended_colors.push(Rgb { r: rv, g: gv, b: bv });
                    b = b + 1;
                }
                g = g + 1;
            }
            r = r + 1;
        }
        assert(extended_colors@.len() == 232);

        // Colors 232-255: the grayscale ramp.
        let mut i: usize = 0;
        while i < 24
            invariant
                i <= 24,
                extended_colors@.len() == 232 + i,
                forall|j: int| 0 <= j < 16 ==> extended_colors@[j] == ansi_colors@[j],
                forall|cr: int, cg: int, cb: int|
                    0 <= cr < 6 && 0 <= cg < 6 && 0 <= cb < 6 ==> extended_colors@[16 + 36 * cr + 6
                        * cg + cb] == (Rgb {
                        r: spec_cube_level(cr) as u8,
                        g: spec_cube_level(cg) as u8,
                        b: spec_cube_level(cb) as u8,
                    }),
                forall|j: int| 0 <= j < i ==> extended_colors@[232 + j] == (Rgb {
                    r: spec_gray_level(j) as u8,
                    g: spec_gray_level(j) as u8,
                    b: spec_gray_level(j) as u8,
                }),
            decreases 24 - i,
        {
            let gray: u8 = 8 + (i as u8) * 10;
            extended_colors.push(Rgb { r: gray, g: gray, b: gray });
            i = i + 1;
        }

        ColorPalette {
            ansi_colors,
            extended_colors,
            foreground: Rgb { r: 0xd4, g: 0xd4, b: 0xd4 },
            background: Rgb { r: 0x1e, g: 0x1e, b: 0x1e },
            cursor: Rgb { r: 0xff, g: 0xff, b: 0xff },
        }
    }

    /// Creates a new color palette builder for customizing colors.
    pub fn builder() -> (r: ColorPaletteBuilder)
        ensures
            r.spec_palette().is_default(),
    {
        ColorPaletteBuilder::new()
    }

    /// What resolving a color reference against this palette yields.
    ///
    /// A named color with an override in the session color table resolves to
    /// the override. Otherwise the first sixteen named colors resolve to the
    /// ANSI palette; the special names resolve to the palette's special
    /// colors, the dim and bright variants to their base color with the
    /// matching lightness adjustment. Direct values resolve to themselves and
    /// indexed references to the extended table.
    pub open spec fn spec_resolve(self, color: Color, overrides: Seq<Option<Rgb>>) -> ResolvedColor {
        match color {
            Color::Named(named) => {
                if overrides[named.spec_index()] is Some {
                    ResolvedColor::spec_plain(overrides[named.spec_index()]->Some_0)
                } else if named.spec_index() < 16 {
                    ResolvedColor::spec_plain(self.spec_ansi()[named.spec_index()])
                } else {
                    match named {
                        NamedColor::Foreground => ResolvedColor::spec_plain(self.spec_foreground()),
                        NamedColor::Background => ResolvedColor::spec_plain(self.spec_background()),
                        NamedColor::Cursor => ResolvedColor::spec_plain(self.spec_cursor()),
                        NamedColor::DimForeground => ResolvedColor {
                            rgb: self.spec_foreground(),
                            adjust: LightnessAdjust::Dimmed,
                        },
                        NamedColor::BrightForeground => ResolvedColor {
                            rgb: self.spec_foreground(),
                            adjust: LightnessAdjust::Brightened,
                        },
                        NamedColor::DimBlack | NamedColor::DimRed | NamedColor::DimGreen
                            | NamedColor::DimYellow | NamedColor::DimBlue | NamedColor::DimMagenta
                            | NamedColor::DimCyan | NamedColor::DimWhite => ResolvedColor {
                            rgb: self.spec_ansi()[named.spec_dim_base()],
                            adjust: LightnessAdjust::Dimmed,
                        },
                        _ => ResolvedColor::spec_plain(self.spec_foreground()),
                    }
                }
            },
            Color::Spec(rgb) => ResolvedColor::spec_plain(rgb),
            Color::Indexed(idx) => ResolvedColor::spec_plain(self.spec_extended()[idx as int]),
        }
    }

    /// Resolves a terminal color reference against this palette.
    pub fn resolve(&self, color: Color, overrides: &ColorOverrides) -> (r: ResolvedColor)
        requires
            self.wf(),
            overrides.wf(),
        ensures
            r == self.spec_resolve(color, overrides@),
    {
        match color {
            Color::Named(named) => {
                // A session override takes precedence over the palette.
                if let Some(rgb) = overrides.get_named(named) {
                    return ResolvedColor::plain(rgb);
                }
                let idx = named.index();
                if idx < 16 {
                    ResolvedColor::plain(self.ansi_colors[idx])
                } else {
                    match named {
                        NamedColor::Foreground => ResolvedColor::plain(self.foreground),
                        NamedColor::Background => ResolvedColor::plain(self.background),
                        NamedColor::Cursor => ResolvedColor::plain(self.cursor),
                        NamedColor::DimForeground => ResolvedColor {
                            rgb: self.foreground,
                            adjust: LightnessAdjust::Dimmed,
                        },
                        NamedColor::BrightForeground => ResolvedColor {
                            rgb: self.foreground,
                            adjust: LightnessAdjust::Brightened,
                        },
                        NamedColor::DimBlack | NamedColor::DimRed | NamedColor::DimGreen
                            | NamedColor::DimYellow | NamedColor::DimBlue | NamedColor::DimMagenta
                            | NamedColor::DimCyan | NamedColor::DimWhite => {
                            let base_idx: usize = match named {
                                NamedColor::DimBlack => 0,
                                NamedColor::DimRed => 1,
                                NamedColor::DimGreen => 2,
                                NamedColor::DimYellow => 3,
                                NamedColor::DimBlue => 4,
                                NamedColor::DimMagenta => 5,
                                NamedColor::DimCyan => 6,
                                NamedColor::DimWhite => 7,
                                _ => 7,
                            };
                            ResolvedColor {
                                rgb: self.ansi_colors[base_idx],
                                adjust: LightnessAdjust::Dimmed,
                            }
                        },
                        _ => ResolvedColor::plain(self.foreground),
                    }
                }
            },
            Color::Spec(rgb) => ResolvedColor::plain(rgb),
            Color::Indexed(idx) => ResolvedColor::plain(self.extended_colors[idx as usize]),
        }
    }

    /// Gets a reference to the ANSI color palette.
    pub fn ansi_colors(&self) -> (r: &Vec<Rgb>)
        ensures
            r@ == self.spec_ansi(),
    {
        &self.ansi_colors
    }

    /// Gets a reference to the full 256-color palette.
    pub fn extended_colors(&self) -> (r: &Vec<Rgb>)
        ensures
            r@ == self.spec_extended(),
    {
        &self.extended_colors
    }

    /// Gets the default foreground color.
    pub fn foreground(&self) -> (r: Rgb)
        ensures
            r == self.spec_foreground(),
    {
        self.foreground
    }

    /// Gets the default background color.
    pub fn background(&self) -> (r: Rgb)
        ensures
            r == self.spec_background(),
    {
        self.background
    }

    /// Gets the default cursor color.
    pub fn cursor(&self) -> (r: Rgb)
        ensures
            r == self.spec_cursor(),
    {
        self.cursor
    }
}

impl Default for ColorPalette {
    /// The default palette.
    fn default() -> (r: Self)
        ensures
            r.is_default(),
    {
        Self::default_palette()
    }
}

/// Builder for creating a customized color palette.
///
/// Starts from the default colors; each method overrides one of them.
#[derive(Debug, Clone)]
pub struct ColorPaletteBuilder {
    palette: ColorPalette,
}

impl ColorPaletteBuilder {
    /// The palette under construction.
    pub closed spec fn spec_palette(self) -> ColorPalette {
        self.palette
    }

    /// Creates a new builder with default colors.
    pub fn new() -> (r: Self)
        ensures
            r.spec_palette().is_default(),
    {
        ColorPaletteBuilder { palette: ColorPalette::new() }
    }

    /// Sets the background color.
    pub fn background(self, r: u8, g: u8, b: u8) -> (out: Self)
        ensures
            out.spec_palette() == (ColorPalette {
                background: Rgb { r, g, b },
                ..self.spec_palette()
            }),
    {
        let mut this = self;
        this.palette.background = Rgb { r, g, b };
        this
    }

    /// Sets the foreground color.
    pub fn foreground(self, r: u8, g: u8, b: u8) -> (out: Self)
        ensures
            out.spec_palette() == (ColorPalette {
                foreground: Rgb { r, g, b },
                ..self.spec_palette()
            }),
    {
        let mut this = self;
        this.palette.foreground = Rgb { r, g, b };
        this
    }

    /// Sets the cursor color.
    pub fn cursor(self, r: u8, g: u8, b: u8) -> (out: Self)
        ensures
            out.spec_palette() == (ColorPalette { cursor: Rgb { r, g, b }, ..self.spec_palette() }),
    {
        let mut this = self;
        this.palette.cursor = Rgb { r, g, b };
        this
    }

    /// What setting ANSI palette entry `idx` leaves behind: the entry changes
    /// in both the ANSI table and the extended table, everything else stays.
    pub open spec fn ansi_updated(pre: ColorPalette, post: ColorPalette, idx: int, rgb: Rgb) -> bool {
        &&& post.spec_ansi() == pre.spec_ansi().update(idx, rgb)
        &&& post.spec_extended() == pre.spec_extended().update(idx, rgb)
        &&& post.spec_foreground() == pre.spec_foreground()
        &&& post.spec_background() == pre.spec_background()
        &&& post.spec_cursor() == pre.spec_cursor()
    }

    /// Sets an ANSI color by index, mirroring it into the extended table.
    fn set_ansi_color(&mut self, idx: usize, r: u8, g: u8, b: u8)
        requires
            old(self).spec_palette().wf(),
            idx < 16,
        ensures
            Self::ansi_updated(
                old(self).spec_palette(),
                final(self).spec_palette(),
                idx as int,
                Rgb { r, g, b },
            ),
    {
        let color = Rgb { r, g, b };
        self.palette.ansi_colors.set(idx, color);
        self.palette.extended_colors.set(idx, color);
    }

    /// Sets color 0 (black).
    pub fn black(self, r: u8, g: u8, b: u8) -> (out: Self)
        requires
            self.spec_palette().wf(),
        ensures
            Self::ansi_updated(self.spec_palette(), out.spec_palette(), 0, Rgb { r, g, b }),
    {
        let mut this = self;
        this.set_ansi_color(0, r, g, b);
        this
    }

    /// Sets color 1 (red).
    pub fn red(self, r: u8, g: u8, b: u8) -> (out: Self)
        requires
            self.spec_palette().wf(),
        ensures
            Self::ansi_updated(self.spec_palette(), out.spec_palette(), 1, Rgb { r, g, b }),
    {
        let mut this = self;
        this.set_ansi_color(1, r, g, b);
        this
    }

    /// Sets color 2 (green).
    pub fn green(self, r: u8, g: u8, b: u8) -> (out: Self)
        requires
            self.spec_palette().wf(),
        ensures
            Self::ansi_updated(self.spec_palette(), out.spec_palette(), 2, Rgb { r, g, b }),
    {
        let mut this = self;
        this.set_ansi_color(2, r, g, b);
        this
    }

    /// Sets color 3 (yellow).
    pub fn yellow(self, r: u8, g: u8, b: u8) -> (out: Self)
        requires
            self.spec_palette().wf(),
        ensures
            Self::ansi_updated(self.spec_palette(), out.spec_palette(), 3, Rgb { r, g, b }),
    {
        let mut this = self;
        this.set_ansi_color(3, r, g, b);
        this
    }

    /// Sets color 4 (blue).
    pub fn blue(self, r: u8, g: u8, b: u8) -> (out: Self)
        requires
            self.spec_palette().wf(),
        ensures
            Self::ansi_updated(self.spec_palette(), out.spec_palette(), 4, Rgb { r, g, b }),
    {
        let mut this = self;
        this.set_ansi_color(4, r, g, b);
        this
    }

    /// Sets color 5 (magenta).
    pub fn magenta(self, r: u8, g: u8, b: u8) -> (out: Self)
        requires
            self.spec_palette().wf(),
        ensures
            Self::ansi_updated(self.spec_palette(), out.spec_palette(), 5, Rgb { r, g, b }),
    {
        let mut this = self;
        this.set_ansi_color(5, r, g, b);
        this
    }

    /// Sets color 6 (cyan).
    pub fn cyan(self, r: u8, g: u8, b: u8) -> (out: Self)
        requires
            self.spec_palette().wf(),
        ensures
            Self::ansi_updated(self.spec_palette(), out.spec_palette(), 6, Rgb { r, g, b }),
    {
        let mut this = self;
        this.set_ansi_color(6, r, g, b);
        this
    }

    /// Sets color 7 (white).
    pub fn white(self, r: u8, g: u8, b: u8) -> (out: Self)
        requires
            self.spec_palette().wf(),
        ensures
            Self::ansi_updated(self.spec_palette(), out.spec_palette(), 7, Rgb { r, g, b }),
    {
        let mut this = self;
        this.set_ansi_color(7, r, g, b);
        this
    }

    /// Sets color 8 (bright black).
    pub fn bright_black(self, r: u8, g: u8, b: u8) -> (out: Self)
        requires
            self.spec_palette().wf(),
        ensures
            Self::ansi_updated(self.spec_palette(), out.spec_palette(), 8, Rgb { r, g, b }),
    {
        let mut this = self;
        this.set_ansi_color(8, r, g, b);
        this
    }

    /// Sets color 9 (bright red).
    pub fn bright_red(self, r: u8, g: u8, b: u8) -> (out: Self)
        requires
            self.spec_palette().wf(),
        ensures
            Self::ansi_updated(self.spec_palette(), out.spec_palette(), 9, Rgb { r, g, b }),
    {
        let mut this = self;
        this.set_ansi_color(9, r, g, b);
        this
    }

    /// Sets color 10 (bright green).
    pub fn bright_green(self, r: u8, g: u8, b: u8) -> (out: Self)
        requires
            self.spec_palette().wf(),
        ensures
            Self::ansi_updated(self.spec_palette(), out.spec_palette(), 10, Rgb { r, g, b }),
    {
        let mut this = self;
        this.set_ansi_color(10, r, g, b);
        this
    }

    /// Sets color 11 (bright yellow).
    pub fn bright_yellow(self, r: u8, g: u8, b: u8) -> (out: Self)
        requires
            self.spec_palette().wf(),
        ensures
            Self::ansi_updated(self.spec_palette(), out.spec_palette(), 11, Rgb { r, g, b }),
    {
        let mut this = self;
        this.set_ansi_color(11, r, g, b);
        this
    }

    /// Sets color 12 (bright blue).
    pub fn bright_blue(self, r: u8, g: u8, b: u8) -> (out: Self)
        requires
            self.spec_palette().wf(),
        ensures
            Self::ansi_updated(self.spec_palette(), out.spec_palette(), 12, Rgb { r, g, b }),
    {
        let mut this = self;
        this.set_ansi_color(12, r, g, b);
        this
    }

    /// Sets color 13 (bright magenta).
    pub fn bright_magenta(self, r: u8, g: u8, b: u8) -> (out: Self)
        requires
            self.spec_palette().wf(),
        ensures
            Self::ansi_updated(self.spec_palette(), out.spec_palette(), 13, Rgb { r, g, b }),
    {
        let mut this = self;
        this.set_ansi_color(13, r, g, b);
        this
    }

    /// Sets color 14 (bright cyan).
    pub fn bright_cyan(self, r: u8, g: u8, b: u8) -> (out: Self)
        requires
            self.spec_palette().wf(),
        ensures
            Self::ansi_updated(self.spec_palette(), out.spec_palette(), 14, Rgb { r, g, b }),
    {
        let mut this = self;
        this.set_ansi_color(14, r, g, b);
        this
    }

    /// Sets color 15 (bright white).
    pub fn bright_white(self, r: u8, g: u8, b: u8) -> (out: Self)
        requires
            self.spec_palette().wf(),
        ensures
            Self::ansi_updated(self.spec_palette(), out.spec_palette(), 15, Rgb { r, g, b }),
    {
        let mut this = self;
        this.set_ansi_color(15, r, g, b);
        this
    }

    /// Builds the color palette.
    pub fn build(self) -> (r: ColorPalette)
        ensures
            r == self.spec_palette(),
    {
        self.palette
    }
}

impl Default for ColorPaletteBuilder {
    /// A builder holding the default palette.
    fn default() -> (r: Self)
        ensures
            r.spec_palette().is_default(),
    {
        Self::new()
    }
}

/// For every palette built from defaults: the extended table mirrors the
/// ANSI palette in its first sixteen entries; resolving an indexed reference
/// into the color cube yields the cube color computed from its component
/// levels; and the grayscale ramp holds the even grays.
pub proof fn lemma_default_palette_resolution(
    palette: ColorPalette,
    overrides: Seq<Option<Rgb>>,
)
    requires
        palette.is_default(),
    ensures
        forall|i: int| 0 <= i < 16 ==> palette.spec_extended()[i] == palette.spec_ansi()[i],
        forall|r: int, g: int, b: int|
            0 <= r < 6 && 0 <= g < 6 && 0 <= b < 6 ==> palette.spec_resolve(
                Color::Indexed((16 + 36 * r + 6 * g + b) as u8),
                overrides,
            ) == ResolvedColor::spec_plain(
                Rgb {
                    r: spec_cube_level(r) as u8,
                    g: spec_cube_level(g) as u8,
                    b: spec_cube_level(b) as u8,
                },
            ),
        forall|i: int| 0 <= i < 24 ==> palette.spec_resolve(
            Color::Indexed((232 + i) as u8),
            overrides,
        ) == ResolvedColor::spec_plain(
            Rgb {
                r: spec_gray_level(i) as u8,
                g: spec_gray_level(i) as u8,
                b: spec_gray_level(i) as u8,
            },
        ),
{
    assert forall|r: int, g: int, b: int|
        0 <= r < 6 && 0 <= g < 6 && 0 <= b < 6 implies palette.spec_resolve(
        Color::Indexed((16 + 36 * r + 6 * g + b) as u8),
        overrides,
    ) == ResolvedColor::spec_plain(
        Rgb {
            r: spec_cube_level(r) as u8,
            g: spec_cube_level(g) as u8,
            b: spec_cube_level(b) as u8,
        },
    ) by {
        let idx = 16 + 36 * r + 6 * g + b;
        assert(16 <= idx < 232);
        assert((idx as u8) as int == idx);
    }
    assert forall|i: int| 0 <= i < 24 implies palette.spec_resolve(
        Color::Indexed((232 + i) as u8),
        overrides,
    ) == ResolvedColor::spec_plain(
        Rgb {
            r: spec_gray_level(i) as u8,
            g: spec_gray_level(i) as u8,
            b: spec_gray_level(i) as u8,
        },
    ) by {
        let idx = 232 + i;
        assert((idx as u8) as int == idx);
    }
}

} // verus!
