//! Box-drawing character segment tables.
//!
//! Unicode box-drawing characters (U+2500..U+257F) are rendered
//! programmatically from a per-character description of which of the four
//! half-segments (center to top, bottom, left, right edge) are present and at
//! which weight. Drawing from these descriptions instead of font glyphs keeps
//! adjacent cells seam-free.

use vstd::prelude::*;

verus! {

/// Line weight for box-drawing segments.
#[derive(Debug, Clone, Copy, PartialEq, Eq, Structural)]
pub enum LineWeight {
    /// Single thin line
    Light,
    /// Single thick line
    Heavy,
    /// Two parallel thin lines
    Double,
}

/// Describes which segments a box-drawing character uses.
///
/// Each segment extends from the cell center to one of the four edges.
#[derive(Debug, Clone, Copy, PartialEq, Eq, Structural)]
pub struct BoxSegments {
    /// Segment from center to top edge
    pub top: Option<LineWeight>,
    /// Segment from center to bottom edge
    pub bottom: Option<LineWeight>,
    /// Segment from center to left edge
    pub left: Option<LineWeight>,
    /// Segment from center to right edge
    pub right: Option<LineWeight>,
}

impl BoxSegments {
    /// True if at least one of the four segments is present.
    pub open spec fn has_segment(self) -> bool {
        self.top is Some || self.bottom is Some || self.left is Some || self.right is Some
    }

    pub open spec fn spec_new(
        top: Option<LineWeight>,
        bottom: Option<LineWeight>,
        left: Option<LineWeight>,
        right: Option<LineWeight>,
    ) -> BoxSegments {
        BoxSegments { top, bottom, left, right }
    }

    pub open spec fn spec_horizontal(weight: LineWeight) -> BoxSegments {
        Self::spec_new(None, None, Some(weight), Some(weight))
    }

    pub open spec fn spec_vertical(weight: LineWeight) -> BoxSegments {
        Self::spec_new(Some(weight), Some(weight), None, None)
    }

    pub open spec fn spec_corner_tl(weight: LineWeight) -> BoxSegments {
        Self::spec_new(None, Some(weight), None, Some(weight))
    }

    pub open spec fn spec_corner_tr(weight: LineWeight) -> BoxSegments {
        Self::spec_new(None, Some(weight), Some(weight), None)
    }

    pub open spec fn spec_corner_bl(weight: LineWeight) -> BoxSegments {
        Self::spec_new(Some(weight), None, None, Some(weight))
    }

    pub open spec fn spec_corner_br(weight: LineWeight) -> BoxSegments {
        Self::spec_new(Some(weight), None, Some(weight), None)
    }

    pub open spec fn spec_t_left(weight: LineWeight) -> BoxSegments {
        Self::spec_new(Some(weight), Some(weight), None, Some(weight))
    }

    pub open spec fn spec_t_right(weight: LineWeight) -> BoxSegments {
        Self::spec_new(Some(weight), Some(weight), Some(weight), None)
    }

    pub open spec fn spec_t_top(weight: LineWeight) -> BoxSegments {
        Self::spec_new(None, Some(weight), Some(weight), Some(weight))
    }

    pub open spec fn spec_t_bottom(weight: LineWeight) -> BoxSegments {
        Self::spec_new(Some(weight), None, Some(weight), Some(weight))
    }

    pub open spec fn spec_cross(weight: LineWeight) -> BoxSegments {
        Self::spec_new(Some(weight), Some(weight), Some(weight), Some(weight))
    }

    pub fn new(
        top: Option<LineWeight>,
        bottom: Option<LineWeight>,
        left: Option<LineWeight>,
        right: Option<LineWeight>,
    ) -> (r: Self)
        ensures
            r == (BoxSegments { top, bottom, left, right }),
    {
        Self { top, bottom, left, right }
    }

    pub fn horizontal(weight: LineWeight) -> (r: Self)
        ensures
            r == (BoxSegments { top: None, bottom: None, left: Some(weight), right: Some(weight) }),
    {
        Self::new(None, None, Some(weight), Some(weight))
    }

    pub fn vertical(weight: LineWeight) -> (r: Self)
        ensures
            r == (BoxSegments { top: Some(weight), bottom: Some(weight), left: None, right: None }),
    {
        Self::new(Some(weight), Some(weight), None, None)
    }

    pub fn corner_tl(weight: LineWeight) -> (r: Self)
        ensures
            r == (BoxSegments { top: None, bottom: Some(weight), left: None, right: Some(weight) }),
    {
        Self::new(None, Some(weight), None, Some(weight))
    }

    pub fn corner_tr(weight: LineWeight) -> (r: Self)
        ensures
            r == (BoxSegments { top: None, bottom: Some(weight), left: Some(weight), right: None }),
    {
        Self::new(None, Some(weight), Some(weight), None)
    }

    pub fn corner_bl(weight: LineWeight) -> (r: Self)
        ensures
            r == (BoxSegments { top: Some(weight), bottom: None, left: None, right: Some(weight) }),
    {
        Self::new(Some(weight), None, None, Some(weight))
    }

    pub fn corner_br(weight: LineWeight) -> (r: Self)
        ensures
            r == (BoxSegments { top: Some(weight), bottom: None, left: Some(weight), right: None }),
    {
        Self::new(Some(weight), None, Some(weight), None)
    }

    pub fn t_left(weight: LineWeight) -> (r: Self)
        ensures
            r == (BoxSegments {
                top: Some(weight),
                bottom: Some(weight),
                left: None,
                right: Some(weight),
            }),
    {
        Self::new(Some(weight), Some(weight), None, Some(weight))
    }

    pub fn t_right(weight: LineWeight) -> (r: Self)
        ensures
            r == (BoxSegments {
                top: Some(weight),
                bottom: Some(weight),
                left: Some(weight),
                right: None,
            }),
    {
        Self::new(Some(weight), Some(weight), Some(weight), None)
    }

    pub fn t_top(weight: LineWeight) -> (r: Self)
        ensures
            r == (BoxSegments {
                top: None,
                bottom: Some(weight),
                left: Some(weight),
                right: Some(weight),
            }),
    {
        Self::new(None, Some(weight), Some(weight), Some(weight))
    }

    pub fn t_bottom(weight: LineWeight) -> (r: Self)
        ensures
            r == (BoxSegments {
                top: Some(weight),
                bottom: None,
                left: Some(weight),
                right: Some(weight),
            }),
    {
        Self::new(Some(weight), None, Some(weight), Some(weight))
    }

    pub fn cross(weight: LineWeight) -> (r: Self)
        ensures
            r == (BoxSegments {
                top: Some(weight),
                bottom: Some(weight),
                left: Some(weight),
                right: Some(weight),
            }),
    {
        Self::new(Some(weight), Some(weight), Some(weight), Some(weight))
    }
}

/// Returns true if the character is in the box-drawing Unicode range (U+2500-U+257F).
pub fn is_box_drawing_char(ch: char) -> (r: bool)
    ensures
        r == (0x2500 <= ch as u32 <= 0x257F),
{
    let code = ch as u32;
    code >= 0x2500 && code <= 0x257F
}

/// The segment table, indexed by code point.
///
/// Dashed variants are described as solid lines of the matching weight;
/// the three diagonal characters have no segment description.
pub open spec fn spec_box_segments(code: u32) -> Option<BoxSegments> {
    match code {
        0x2500 => Some(BoxSegments::spec_horizontal(LineWeight::Light)),
        0x2501 => Some(BoxSegments::spec_horizontal(LineWeight::Heavy)),
        0x2502 => Some(BoxSegments::spec_vertical(LineWeight::Light)),
        0x2503 => Some(BoxSegments::spec_vertical(LineWeight::Heavy)),
        0x2504 => Some(BoxSegments::spec_horizontal(LineWeight::Light)),
        0x2505 => Some(BoxSegments::spec_horizontal(LineWeight::Heavy)),
        0x2506 => Some(BoxSegments::spec_vertical(LineWeight::Light)),
        0x2507 => Some(BoxSegments::spec_vertical(LineWeight::Heavy)),
        0x2508 => Some(BoxSegments::spec_horizontal(LineWeight::Light)),
        0x2509 => Some(BoxSegments::spec_horizontal(LineWeight::Heavy)),
        0x250A => Some(BoxSegments::spec_vertical(LineWeight::Light)),
        0x250B => Some(BoxSegments::spec_vertical(LineWeight::Heavy)),
        0x250C => Some(BoxSegments::spec_corner_tl(LineWeight::Light)),
        0x2510 => Some(BoxSegments::spec_corner_tr(LineWeight::Light)),
        0x2514 => Some(BoxSegments::spec_corner_bl(LineWeight::Light)),
        0x2518 => Some(BoxSegments::spec_corner_br(LineWeight::Light)),
        0x250D => Some(BoxSegments::spec_new(None, Some(LineWeight::Light), None, Some(LineWeight::Heavy))),
        0x2511 => Some(BoxSegments::spec_new(None, Some(LineWeight::Light), Some(LineWeight::Heavy), None)),
        0x2515 => Some(BoxSegments::spec_new(Some(LineWeight::Light), None, None, Some(LineWeight::Heavy))),
        0x2519 => Some(BoxSegments::spec_new(Some(LineWeight::Light), None, Some(LineWeight::Heavy), None)),
        0x250E => Some(BoxSegments::spec_new(None, Some(LineWeight::Heavy), None, Some(LineWeight::Light))),
        0x2512 => Some(BoxSegments::spec_new(None, Some(LineWeight::Heavy), Some(LineWeight::Light), None)),
        0x2516 => Some(BoxSegments::spec_new(Some(LineWeight::Heavy), None, None, Some(LineWeight::Light))),
        0x251A => Some(BoxSegments::spec_new(Some(LineWeight::Heavy), None, Some(LineWeight::Light), None)),
        0x250F => Some(BoxSegments::spec_corner_tl(LineWeight::Heavy)),
        0x2513 => Some(BoxSegments::spec_corner_tr(LineWeight::Heavy)),
        0x2517 => Some(BoxSegments::spec_corner_bl(LineWeight::Heavy)),
        0x251B => Some(BoxSegments::spec_corner_br(LineWeight::Heavy)),
        0x251C => Some(BoxSegments::spec_t_left(LineWeight::Light)),
        0x2524 => Some(BoxSegments::spec_t_right(LineWeight::Light)),
        0x252C => Some(BoxSegments::spec_t_top(LineWeight::Light)),
        0x2534 => Some(BoxSegments::spec_t_bottom(LineWeight::Light)),
        0x251D => Some(BoxSegments::spec_new(Some(LineWeight::Light), Some(LineWeight::Light), None, Some(LineWeight::Heavy))),
        0x2525 => Some(BoxSegments::spec_new(Some(LineWeight::Light), Some(LineWeight::Light), Some(LineWeight::Heavy), None)),
        0x252D => Some(BoxSegments::spec_new(None, Some(LineWeight::Light), Some(LineWeight::Heavy), Some(LineWeight::Light))),
        0x252E => Some(BoxSegments::spec_new(None, Some(LineWeight::Light), Some(LineWeight::Light), Some(LineWeight::Heavy))),
        0x2535 => Some(BoxSegments::spec_new(Some(LineWeight::Light), None, Some(LineWeight::Heavy), Some(LineWeight::Light))),
        0x2536 => Some(BoxSegments::spec_new(Some(LineWeight::Light), None, Some(LineWeight::Light), Some(LineWeight::Heavy))),
        0x251E => Some(BoxSegments::spec_new(Some(LineWeight::Heavy), Some(LineWeight::Light), None, Some(LineWeight::Light))),
        0x251F => Some(BoxSegments::spec_new(Some(LineWeight::Light), Some(LineWeight::Heavy), None, Some(LineWeight::Light))),
        0x2526 => Some(BoxSegments::spec_new(Some(LineWeight::Heavy), Some(LineWeight::Light), Some(LineWeight::Light), None)),
        0x2527 => Some(BoxSegments::spec_new(Some(LineWeight::Light), Some(LineWeight::Heavy), Some(LineWeight::Light), None)),
        0x252F => Some(BoxSegments::spec_new(None, Some(LineWeight::Heavy), Some(LineWeight::Light), Some(LineWeight::Light))),
        0x2537 => Some(BoxSegments::spec_new(Some(LineWeight::Heavy), None, Some(LineWeight::Light), Some(LineWeight::Light))),
        0x2520 => Some(BoxSegments::spec_new(Some(LineWeight::Heavy), Some(LineWeight::Heavy), None, Some(LineWeight::Light))),
        0x2521 => Some(BoxSegments::spec_new(Some(LineWeight::Heavy), Some(LineWeight::Light), None, Some(LineWeight::Heavy))),
        0x2522 => Some(BoxSegments::spec_new(Some(LineWeight::Light), Some(LineWeight::Heavy), None, Some(LineWeight::Heavy))),
        0x2523 => Some(BoxSegments::spec_t_left(LineWeight::Heavy)),
        0x2528 => Some(BoxSegments::spec_new(Some(LineWeight::Heavy), Some(LineWeight::Heavy), Some(LineWeight::Light), None)),
        0x2529 => Some(BoxSegments::spec_new(Some(LineWeight::Heavy), Some(LineWeight::Light), Some(LineWeight::Heavy), None)),
        0x252A => Some(BoxSegments::spec_new(Some(LineWeight::Light), Some(LineWeight::Heavy), Some(LineWeight::Heavy), None)),
        0x252B => Some(BoxSegments::spec_t_right(LineWeight::Heavy)),
        0x2530 => Some(BoxSegments::spec_new(None, Some(LineWeight::Heavy), Some(LineWeight::Heavy), Some(LineWeight::Light))),
        0x2531 => Some(BoxSegments::spec_new(None, Some(LineWeight::Heavy), Some(LineWeight::Light), Some(LineWeight::Heavy))),
        0x2532 => Some(BoxSegments::spec_new(None, Some(LineWeight::Light), Some(LineWeight::Heavy), Some(LineWeight::Heavy))),
        0x2533 => Some(BoxSegments::spec_t_top(LineWeight::Heavy)),
        0x2538 => Some(BoxSegments::spec_new(Some(LineWeight::Heavy), None, Some(LineWeight::Heavy), Some(LineWeight::Light))),
        0x2539 => Some(BoxSegments::spec_new(Some(LineWeight::Heavy), None, Some(LineWeight::Light), Some(LineWeight::Heavy))),
        0x253A => Some(BoxSegments::spec_new(Some(LineWeight::Light), None, Some(LineWeight::Heavy), Some(LineWeight::Heavy))),
        0x253B => Some(BoxSegments::spec_t_bottom(LineWeight::Heavy)),
        0x253C => Some(BoxSegments::spec_cross(LineWeight::Light)),
        0x253D => Some(BoxSegments::spec_new(Some(LineWeight::Light), Some(LineWeight::Light), Some(LineWeight::Heavy), Some(LineWeight::Light))),
        0x253E => Some(BoxSegments::spec_new(Some(LineWeight::Light), Some(LineWeight::Light), Some(LineWeight::Light), Some(LineWeight::Heavy))),
        0x253F => Some(BoxSegments::spec_new(Some(LineWeight::Light), Some(LineWeight::Light), Some(LineWeight::Heavy), Some(LineWeight::Heavy))),
        0x2540 => Some(BoxSegments::spec_new(Some(LineWeight::Heavy), Some(LineWeight::Light), Some(LineWeight::Light), Some(LineWeight::Light))),
        0x2541 => Some(BoxSegments::spec_new(Some(LineWeight::Light), Some(LineWeight::Heavy), Some(LineWeight::Light), Some(LineWeight::Light))),
        0x2542 => Some(BoxSegments::spec_new(Some(LineWeight::Heavy), Some(LineWeight::Heavy), Some(LineWeight::Light), Some(LineWeight::Light))),
        0x2543 => Some(BoxSegments::spec_new(Some(LineWeight::Heavy), Some(LineWeight::Light), Some(LineWeight::Heavy), Some(LineWeight::Light))),
        0x2544 => Some(BoxSegments::spec_new(Some(LineWeight::Heavy), Some(LineWeight::Light), Some(LineWeight::Light), Some(LineWeight::Heavy))),
        0x2545 => Some(BoxSegments::spec_new(Some(LineWeight::Light), Some(LineWeight::Heavy), Some(LineWeight::Heavy), Some(LineWeight::Light))),
        0x2546 => Some(BoxSegments::spec_new(Some(LineWeight::Light), Some(LineWeight::Heavy), Some(LineWeight::Light), Some(LineWeight::Heavy))),
        0x2547 => Some(BoxSegments::spec_new(Some(LineWeight::Heavy), Some(LineWeight::Heavy), Some(LineWeight::Heavy), Some(LineWeight::Light))),
        0x2548 => Some(BoxSegments::spec_new(Some(LineWeight::Heavy), Some(LineWeight::Heavy), Some(LineWeight::Light), Some(LineWeight::Heavy))),
        0x2549 => Some(BoxSegments::spec_new(Some(LineWeight::Heavy), Some(LineWeight::Light), Some(LineWeight::Heavy), Some(LineWeight::Heavy))),
        0x254A => Some(BoxSegments::spec_new(Some(LineWeight::Light), Some(LineWeight::Heavy), Some(LineWeight::Heavy), Some(LineWeight::Heavy))),
        0x254B => Some(BoxSegments::spec_cross(LineWeight::Heavy)),
        0x254C => Some(BoxSegments::spec_horizontal(LineWeight::Light)),
        0x254D => Some(BoxSegments::spec_horizontal(LineWeight::Heavy)),
        0x254E => Some(BoxSegments::spec_vertical(LineWeight::Light)),
        0x254F => Some(BoxSegments::spec_vertical(LineWeight::Heavy)),
        0x2550 => Some(BoxSegments::spec_horizontal(LineWeight::Double)),
        0x2551 => Some(BoxSegments::spec_vertical(LineWeight::Double)),
        0x2554 => Some(BoxSegments::spec_corner_tl(LineWeight::Double)),
        0x2557 => Some(BoxSegments::spec_corner_tr(LineWeight::Double)),
        0x255A => Some(BoxSegments::spec_corner_bl(LineWeight::Double)),
        0x255D => Some(BoxSegments::spec_corner_br(LineWeight::Double)),
        0x2552 => Some(BoxSegments::spec_new(None, Some(LineWeight::Light), None, Some(LineWeight::Double))),
        0x2553 => Some(BoxSegments::spec_new(None, Some(LineWeight::Double), None, Some(LineWeight::Light))),
        0x2555 => Some(BoxSegments::spec_new(None, Some(LineWeight::Light), Some(LineWeight::Double), None)),
        0x2556 => Some(BoxSegments::spec_new(None, Some(LineWeight::Double), Some(LineWeight::Light), None)),
        0x2558 => Some(BoxSegments::spec_new(Some(LineWeight::Light), None, None, Some(LineWeight::Double))),
        0x2559 => Some(BoxSegments::spec_new(Some(LineWeight::Double), None, None, Some(LineWeight::Light))),
        0x255B => Some(BoxSegments::spec_new(Some(LineWeight::Light), None, Some(LineWeight::Double), None)),
        0x255C => Some(BoxSegments::spec_new(Some(LineWeight::Double), None, Some(LineWeight::Light), None)),
        0x2560 => Some(BoxSegments::spec_t_left(LineWeight::Double)),
        0x2563 => Some(BoxSegments::spec_t_right(LineWeight::Double)),
        0x2566 => Some(BoxSegments::spec_t_top(LineWeight::Double)),
        0x2569 => Some(BoxSegments::spec_t_bottom(LineWeight::Double)),
        0x255E => Some(BoxSegments::spec_new(Some(LineWeight::Light), Some(LineWeight::Light), None, Some(LineWeight::Double))),
        0x255F => Some(BoxSegments::spec_new(Some(LineWeight::Double), Some(LineWeight::Double), None, Some(LineWeight::Light))),
        0x2561 => Some(BoxSegments::spec_new(Some(LineWeight::Light), Some(LineWeight::Light), Some(LineWeight::Double), None)),
        0x2562 => Some(BoxSegments::spec_new(Some(LineWeight::Double), Some(LineWeight::Double), Some(LineWeight::Light), None)),
        0x2564 => Some(BoxSegments::spec_new(None, Some(LineWeight::Light), Some(LineWeight::Double), Some(LineWeight::Double))),
        0x2565 => Some(BoxSegments::spec_new(None, Some(LineWeight::Double), Some(LineWeight::Light), Some(LineWeight::Light))),
        0x2567 => Some(BoxSegments::spec_new(Some(LineWeight::Light), None, Some(LineWeight::Double), Some(LineWeight::Double))),
        0x2568 => Some(BoxSegments::spec_new(Some(LineWeight::Double), None, Some(LineWeight::Light), Some(LineWeight::Light))),
        0x256C => Some(BoxSegments::spec_cross(LineWeight::Double)),
        0x256A => Some(BoxSegments::spec_new(Some(LineWeight::Light), Some(LineWeight::Light), Some(LineWeight::Double), Some(LineWeight::Double))),
        0x256B => Some(BoxSegments::spec_new(Some(LineWeight::Double), Some(LineWeight::Double), Some(LineWeight::Light), Some(LineWeight::Light))),
        0x256D => Some(BoxSegments::spec_corner_tl(LineWeight::Light)),
        0x256E => Some(BoxSegments::spec_corner_tr(LineWeight::Light)),
        0x256F => Some(BoxSegments::spec_corner_br(LineWeight::Light)),
        0x2570 => Some(BoxSegments::spec_corner_bl(LineWeight::Light)),
        0x2574 => Some(BoxSegments::spec_new(None, None, Some(LineWeight::Light), None)),
        0x2575 => Some(BoxSegments::spec_new(Some(LineWeight::Light), None, None, None)),
        0x2576 => Some(BoxSegments::spec_new(None, None, None, Some(LineWeight::Light))),
        0x2577 => Some(BoxSegments::spec_new(None, Some(LineWeight::Light), None, None)),
        0x2578 => Some(BoxSegments::spec_new(None, None, Some(LineWeight::Heavy), None)),
        0x2579 => Some(BoxSegments::spec_new(Some(LineWeight::Heavy), None, None, None)),
        0x257A => Some(BoxSegments::spec_new(None, None, None, Some(LineWeight::Heavy))),
        0x257B => Some(BoxSegments::spec_new(None, Some(LineWeight::Heavy), None, None)),
        0x257C => Some(BoxSegments::spec_new(None, None, Some(LineWeight::Light), Some(LineWeight::Heavy))),
        0x257D => Some(BoxSegments::spec_new(Some(LineWeight::Light), Some(LineWeight::Heavy), None, None)),
        0x257E => Some(BoxSegments::spec_new(None, None, Some(LineWeight::Heavy), Some(LineWeight::Light))),
        0x257F => Some(BoxSegments::spec_new(Some(LineWeight::Heavy), Some(LineWeight::Light), None, None)),
        _ => None,
    }
}

/// Returns the box segments for a Unicode box-drawing character.
///
/// Returns `None` if the character is not a recognized box-drawing character.
pub fn get_box_segments(ch: char) -> (r: Option<BoxSegments>)
    ensures
        r == spec_box_segments(ch as u32),
{
    let code = ch as u32;
    if code < 0x2500 || code > 0x257F {
        return None;
    }
    match code {
        0x2500 => Some(BoxSegments::horizontal(LineWeight::Light)),
        0x2501 => Some(BoxSegments::horizontal(LineWeight::Heavy)),
        0x2502 => Some(BoxSegments::vertical(LineWeight::Light)),
        0x2503 => Some(BoxSegments::vertical(LineWeight::Heavy)),
        0x2504 => Some(BoxSegments::horizontal(LineWeight::Light)),
        0x2505 => Some(BoxSegments::horizontal(LineWeight::Heavy)),
        0x2506 => Some(BoxSegments::vertical(LineWeight::Light)),
        0x2507 => Some(BoxSegments::vertical(LineWeight::Heavy)),
        0x2508 => Some(BoxSegments::horizontal(LineWeight::Light)),
        0x2509 => Some(BoxSegments::horizontal(LineWeight::Heavy)),
        0x250A => Some(BoxSegments::vertical(LineWeight::Light)),
        0x250B => Some(BoxSegments::vertical(LineWeight::Heavy)),
        0x250C => Some(BoxSegments::corner_tl(LineWeight::Light)),
        0x2510 => Some(BoxSegments::corner_tr(LineWeight::Light)),
        0x2514 => Some(BoxSegments::corner_bl(LineWeight::Light)),
        0x2518 => Some(BoxSegments::corner_br(LineWeight::Light)),
        0x250D => Some(BoxSegments::new(None, Some(LineWeight::Light), None, Some(LineWeight::Heavy))),
        0x2511 => Some(BoxSegments::new(None, Some(LineWeight::Light), Some(LineWeight::Heavy), None)),
        0x2515 => Some(BoxSegments::new(Some(LineWeight::Light), None, None, Some(LineWeight::Heavy))),
        0x2519 => Some(BoxSegments::new(Some(LineWeight::Light), None, Some(LineWeight::Heavy), None)),
        0x250E => Some(BoxSegments::new(None, Some(LineWeight::Heavy), None, Some(LineWeight::Light))),
        0x2512 => Some(BoxSegments::new(None, Some(LineWeight::Heavy), Some(LineWeight::Light), None)),
        0x2516 => Some(BoxSegments::new(Some(LineWeight::Heavy), None, None, Some(LineWeight::Light))),
        0x251A => Some(BoxSegments::new(Some(LineWeight::Heavy), None, Some(LineWeight::Light), None)),
        0x250F => Some(BoxSegments::corner_tl(LineWeight::Heavy)),
        0x2513 => Some(BoxSegments::corner_tr(LineWeight::Heavy)),
        0x2517 => Some(BoxSegments::corner_bl(LineWeight::Heavy)),
        0x251B => Some(BoxSegments::corner_br(LineWeight::Heavy)),
        0x251C => Some(BoxSegments::t_left(LineWeight::Light)),
        0x2524 => Some(BoxSegments::t_right(LineWeight::Light)),
        0x252C => Some(BoxSegments::t_top(LineWeight::Light)),
        0x2534 => Some(BoxSegments::t_bottom(LineWeight::Light)),
        0x251D => Some(BoxSegments::new(Some(LineWeight::Light), Some(LineWeight::Light), None, Some(LineWeight::Heavy))),
        0x2525 => Some(BoxSegments::new(Some(LineWeight::Light), Some(LineWeight::Light), Some(LineWeight::Heavy), None)),
        0x252D => Some(BoxSegments::new(None, Some(LineWeight::Light), Some(LineWeight::Heavy), Some(LineWeight::Light))),
        0x252E => Some(BoxSegments::new(None, Some(LineWeight::Light), Some(LineWeight::Light), Some(LineWeight::Heavy))),
        0x2535 => Some(BoxSegments::new(Some(LineWeight::Light), None, Some(LineWeight::Heavy), Some(LineWeight::Light))),
        0x2536 => Some(BoxSegments::new(Some(LineWeight::Light), None, Some(LineWeight::Light), Some(LineWeight::Heavy))),
        0x251E => Some(BoxSegments::new(Some(LineWeight::Heavy), Some(LineWeight::Light), None, Some(LineWeight::Light))),
        0x251F => Some(BoxSegments::new(Some(LineWeight::Light), Some(LineWeight::Heavy), None, Some(LineWeight::Light))),
        0x2526 => Some(BoxSegments::new(Some(LineWeight::Heavy), Some(LineWeight::Light), Some(LineWeight::Light), None)),
        0x2527 => Some(BoxSegments::new(Some(LineWeight::Light), Some(LineWeight::Heavy), Some(LineWeight::Light), None)),
        0x252F => Some(BoxSegments::new(None, Some(LineWeight::Heavy), Some(LineWeight::Light), Some(LineWeight::Light))),
        0x2537 => Some(BoxSegments::new(Some(LineWeight::Heavy), None, Some(LineWeight::Light), Some(LineWeight::Light))),
        0x2520 => Some(BoxSegments::new(Some(LineWeight::Heavy), Some(LineWeight::Heavy), None, Some(LineWeight::Light))),
        0x2521 => Some(BoxSegments::new(Some(LineWeight::Heavy), Some(LineWeight::Light), None, Some(LineWeight::Heavy))),
        0x2522 => Some(BoxSegments::new(Some(LineWeight::Light), Some(LineWeight::Heavy), None, Some(LineWeight::Heavy))),
        0x2523 => Some(BoxSegments::t_left(LineWeight::Heavy)),
        0x2528 => Some(BoxSegments::new(Some(LineWeight::Heavy), Some(LineWeight::Heavy), Some(LineWeight::Light), None)),
        0x2529 => Some(BoxSegments::new(Some(LineWeight::Heavy), Some(LineWeight::Light), Some(LineWeight::Heavy), None)),
        0x252A => Some(BoxSegments::new(Some(LineWeight::Light), Some(LineWeight::Heavy), Some(LineWeight::Heavy), None)),
        0x252B => Some(BoxSegments::t_right(LineWeight::Heavy)),
        0x2530 => Some(BoxSegments::new(None, Some(LineWeight::Heavy), Some(LineWeight::Heavy), Some(LineWeight::Light))),
        0x2531 => Some(BoxSegments::new(None, Some(LineWeight::Heavy), Some(LineWeight::Light), Some(LineWeight::Heavy))),
        0x2532 => Some(BoxSegments::new(None, Some(LineWeight::Light), Some(LineWeight::Heavy), Some(LineWeight::Heavy))),
        0x2533 => Some(BoxSegments::t_top(LineWeight::Heavy)),
        0x2538 => Some(BoxSegments::new(Some(LineWeight::Heavy), None, Some(LineWeight::Heavy), Some(LineWeight::Light))),
        0x2539 => Some(BoxSegments::new(Some(LineWeight::Heavy), None, Some(LineWeight::Light), Some(LineWeight::Heavy))),
        0x253A => Some(BoxSegments::new(Some(LineWeight::Light), None, Some(LineWeight::Heavy), Some(LineWeight::Heavy))),
        0x253B => Some(BoxSegments::t_bottom(LineWeight::Heavy)),
        0x253C => Some(BoxSegments::cross(LineWeight::Light)),
        0x253D => Some(BoxSegments::new(Some(LineWeight::Light), Some(LineWeight::Light), Some(LineWeight::Heavy), Some(LineWeight::Light))),
        0x253E => Some(BoxSegments::new(Some(LineWeight::Light), Some(LineWeight::Light), Some(LineWeight::Light), Some(LineWeight::Heavy))),
        0x253F => Some(BoxSegments::new(Some(LineWeight::Light), Some(LineWeight::Light), Some(LineWeight::Heavy), Some(LineWeight::Heavy))),
        0x2540 => Some(BoxSegments::new(Some(LineWeight::Heavy), Some(LineWeight::Light), Some(LineWeight::Light), Some(LineWeight::Light))),
        0x2541 => Some(BoxSegments::new(Some(LineWeight::Light), Some(LineWeight::Heavy), Some(LineWeight::Light), Some(LineWeight::Light))),
        0x2542 => Some(BoxSegments::new(Some(LineWeight::Heavy), Some(LineWeight::Heavy), Some(LineWeight::Light), Some(LineWeight::Light))),
        0x2543 => Some(BoxSegments::new(Some(LineWeight::Heavy), Some(LineWeight::Light), Some(LineWeight::Heavy), Some(LineWeight::Light))),
        0x2544 => Some(BoxSegments::new(Some(LineWeight::Heavy), Some(LineWeight::Light), Some(LineWeight::Light), Some(LineWeight::Heavy))),
        0x2545 => Some(BoxSegments::new(Some(LineWeight::Light), Some(LineWeight::Heavy), Some(LineWeight::Heavy), Some(LineWeight::Light))),
        0x2546 => Some(BoxSegments::new(Some(LineWeight::Light), Some(LineWeight::Heavy), Some(LineWeight::Light), Some(LineWeight::Heavy))),
        0x2547 => Some(BoxSegments::new(Some(LineWeight::Heavy), Some(LineWeight::Heavy), Some(LineWeight::Heavy), Some(LineWeight::Light))),
        0x2548 => Some(BoxSegments::new(Some(LineWeight::Heavy), Some(LineWeight::Heavy), Some(LineWeight::Light), Some(LineWeight::Heavy))),
        0x2549 => Some(BoxSegments::new(Some(LineWeight::Heavy), Some(LineWeight::Light), Some(LineWeight::Heavy), Some(LineWeight::Heavy))),
        0x254A => Some(BoxSegments::new(Some(LineWeight::Light), Some(LineWeight::Heavy), Some(LineWeight::Heavy), Some(LineWeight::Heavy))),
        0x254B => Some(BoxSegments::cross(LineWeight::Heavy)),
        0x254C => Some(BoxSegments::horizontal(LineWeight::Light)),
        0x254D => Some(BoxSegments::horizontal(LineWeight::Heavy)),
        0x254E => Some(BoxSegments::vertical(LineWeight::Light)),
        0x254F => Some(BoxSegments::vertical(LineWeight::Heavy)),
        0x2550 => Some(BoxSegments::horizontal(LineWeight::Double)),
        0x2551 => Some(BoxSegments::vertical(LineWeight::Double)),
        0x2554 => Some(BoxSegments::corner_tl(LineWeight::Double)),
        0x2557 => Some(BoxSegments::corner_tr(LineWeight::Double)),
        0x255A => Some(BoxSegments::corner_bl(LineWeight::Double)),
        0x255D => Some(BoxSegments::corner_br(LineWeight::Double)),
        0x2552 => Some(BoxSegments::new(None, Some(LineWeight::Light), None, Some(LineWeight::Double))),
        0x2553 => Some(BoxSegments::new(None, Some(LineWeight::Double), None, Some(LineWeight::Light))),
        0x2555 => Some(BoxSegments::new(None, Some(LineWeight::Light), Some(LineWeight::Double), None)),
        0x2556 => Some(BoxSegments::new(None, Some(LineWeight::Double), Some(LineWeight::Light), None)),
        0x2558 => Some(BoxSegments::new(Some(LineWeight::Light), None, None, Some(LineWeight::Double))),
        0x2559 => Some(BoxSegments::new(Some(LineWeight::Double), None, None, Some(LineWeight::Light))),
        0x255B => Some(BoxSegments::new(Some(LineWeight::Light), None, Some(LineWeight::Double), None)),
        0x255C => Some(BoxSegments::new(Some(LineWeight::Double), None, Some(LineWeight::Light), None)),
        0x2560 => Some(BoxSegments::t_left(LineWeight::Double)),
        0x2563 => Some(BoxSegments::t_right(LineWeight::Double)),
        0x2566 => Some(BoxSegments::t_top(LineWeight::Double)),
        0x2569 => Some(BoxSegments::t_bottom(LineWeight::Double)),
        0x255E => Some(BoxSegments::new(Some(LineWeight::Light), Some(LineWeight::Light), None, Some(LineWeight::Double))),
        0x255F => Some(BoxSegments::new(Some(LineWeight::Double), Some(LineWeight::Double), None, Some(LineWeight::Light))),
        0x2561 => Some(BoxSegments::new(Some(LineWeight::Light), Some(LineWeight::Light), Some(LineWeight::Double), None)),
        0x2562 => Some(BoxSegments::new(Some(LineWeight::Double), Some(LineWeight::Double), Some(LineWeight::Light), None)),
        0x2564 => Some(BoxSegments::new(None, Some(LineWeight::Light), Some(LineWeight::Double), Some(LineWeight::Double))),
        0x2565 => Some(BoxSegments::new(None, Some(LineWeight::Double), Some(LineWeight::Light), Some(LineWeight::Light))),
        0x2567 => Some(BoxSegments::new(Some(LineWeight::Light), None, Some(LineWeight::Double), Some(LineWeight::Double))),
        0x2568 => Some(BoxSegments::new(Some(LineWeight::Double), None, Some(LineWeight::Light), Some(LineWeight::Light))),
        0x256C => Some(BoxSegments::cross(LineWeight::Double)),
        0x256A => Some(BoxSegments::new(Some(LineWeight::Light), Some(LineWeight::Light), Some(LineWeight::Double), Some(LineWeight::Double))),
        0x256B => Some(BoxSegments::new(Some(LineWeight::Double), Some(LineWeight::Double), Some(LineWeight::Light), Some(LineWeight::Light))),
        0x256D => Some(BoxSegments::corner_tl(LineWeight::Light)),
        0x256E => Some(BoxSegments::corner_tr(LineWeight::Light)),
        0x256F => Some(BoxSegments::corner_br(LineWeight::Light)),
        0x2570 => Some(BoxSegments::corner_bl(LineWeight::Light)),
        0x2574 => Some(BoxSegments::new(None, None, Some(LineWeight::Light), None)),
        0x2575 => Some(BoxSegments::new(Some(LineWeight::Light), None, None, None)),
        0x2576 => Some(BoxSegments::new(None, None, None, Some(LineWeight::Light))),
        0x2577 => Some(BoxSegments::new(None, Some(LineWeight::Light), None, None)),
        0x2578 => Some(BoxSegments::new(None, None, Some(LineWeight::Heavy), None)),
        0x2579 => Some(BoxSegments::new(Some(LineWeight::Heavy), None, None, None)),
        0x257A => Some(BoxSegments::new(None, None, None, Some(LineWeight::Heavy))),
        0x257B => Some(BoxSegments::new(None, Some(LineWeight::Heavy), None, None)),
        0x257C => Some(BoxSegments::new(None, None, Some(LineWeight::Light), Some(LineWeight::Heavy))),
        0x257D => Some(BoxSegments::new(Some(LineWeight::Light), Some(LineWeight::Heavy), None, None)),
        0x257E => Some(BoxSegments::new(None, None, Some(LineWeight::Heavy), Some(LineWeight::Light))),
        0x257F => Some(BoxSegments::new(Some(LineWeight::Heavy), Some(LineWeight::Light), None, None)),
        _ => None,
    }
}

/// Weight of the continuous horizontal line of a character: present only when
/// both the left and the right segment exist with the same weight.
pub open spec fn spec_horizontal_weight(code: u32) -> Option<LineWeight> {
    match spec_box_segments(code) {
        Some(segments) => {
            if segments.left is Some && segments.right is Some && segments.left == segments.right {
                segments.left
            } else {
                None
            }
        },
        None => None,
    }
}

/// Weight of the continuous vertical line of a character: present only when
/// both the top and the bottom segment exist with the same weight.
pub open spec fn spec_vertical_weight(code: u32) -> Option<LineWeight> {
    match spec_box_segments(code) {
        Some(segments) => {
            if segments.top is Some && segments.bottom is Some && segments.top == segments.bottom {
                segments.top
            } else {
                None
            }
        },
        None => None,
    }
}

/// Returns the horizontal line weight if the character has a continuous horizontal line
/// (both left and right segments with matching weight).
pub fn get_horizontal_weight(ch: char) -> (r: Option<LineWeight>)
    ensures
        r == spec_horizontal_weight(ch as u32),
{
    match get_box_segments(ch) {
        Some(segments) => {
            match (segments.left, segments.right) {
                (Some(l), Some(r)) => if l == r {
                    Some(l)
                } else {
                    None
                },
                _ => None,
            }
        },
        None => None,
    }
}

/// Returns the vertical line weight if the character has a continuous vertical line
/// (both top and bottom segments with matching weight).
pub fn get_vertical_weight(ch: char) -> (r: Option<LineWeight>)
    ensures
        r == spec_vertical_weight(ch as u32),
{
    match get_box_segments(ch) {
        Some(segments) => {
            match (segments.top, segments.bottom) {
                (Some(t), Some(b)) => if t == b {
                    Some(t)
                } else {
                    None
                },
                _ => None,
            }
        },
        None => None,
    }
}

/// Returns true if the character extends to the left edge.
pub fn extends_left(ch: char) -> (r: bool)
    ensures
        r == match spec_box_segments(ch as u32) {
            Some(segments) => segments.left is Some,
            None => false,
        },
{
    match get_box_segments(ch) {
        Some(segments) => segments.left.is_some(),
        None => false,
    }
}

/// Returns true if the character extends to the right edge.
pub fn extends_right(ch: char) -> (r: bool)
    ensures
        r == match spec_box_segments(ch as u32) {
            Some(segments) => segments.right is Some,
            None => false,
        },
{
    match get_box_segments(ch) {
        Some(segments) => segments.right.is_some(),
        None => false,
    }
}

/// Returns true if the character is a rounded corner (U+256D-U+2570).
pub fn is_rounded_corner(ch: char) -> (r: bool)
    ensures
        r == (0x256D <= ch as u32 <= 0x2570),
{
    let code = ch as u32;
    code >= 0x256D && code <= 0x2570
}

/// Every character of the box-drawing block except the three diagonals has a
/// segment description, and that description contains at least one segment.
pub proof fn lemma_box_drawing_block_covered(code: u32)
    requires
        0x2500 <= code <= 0x257F,
        code != 0x2571,
        code != 0x2572,
        code != 0x2573,
    ensures
        spec_box_segments(code) is Some,
        spec_box_segments(code)->Some_0.has_segment(),
{
}

impl BoxSegments {
    /// The weight of the one continuous horizontal stroke the paint layer
    /// draws for this character: the shared weight when both horizontal
    /// segments agree, the weight of the single present side, and nothing
    /// when the two sides disagree or are both absent (they are then drawn
    /// as two separate strokes, or not at all).
    pub open spec fn spec_horizontal_stroke(self) -> Option<LineWeight> {
        if self.left is Some && self.right is Some {
            if self.left == self.right {
                self.left
            } else {
                None
            }
        } else if self.left is Some {
            self.left
        } else {
            self.right
        }
    }

    /// The weight of the one continuous horizontal stroke, when the present
    /// horizontal segments agree.
    pub fn horizontal_stroke_weight(&self) -> (r: Option<LineWeight>)
        ensures
            r == self.spec_horizontal_stroke(),
    {
        match (self.left, self.right) {
            (Some(l), Some(r)) => if l == r {
                Some(l)
            } else {
                None
            },
            (Some(l), None) => Some(l),
            (None, Some(r)) => Some(r),
            (None, None) => None,
        }
    }

    /// The weight of the one continuous vertical stroke the paint layer draws
    /// for this character, when the present vertical segments agree.
    pub open spec fn spec_vertical_stroke(self) -> Option<LineWeight> {
        if self.top is Some && self.bottom is Some {
            if self.top == self.bottom {
                self.top
            } else {
                None
            }
        } else if self.top is Some {
            self.top
        } else {
            self.bottom
        }
    }

    /// The weight of the one continuous vertical stroke, when the present
    /// vertical segments agree.
    pub fn vertical_stroke_weight(&self) -> (r: Option<LineWeight>)
        ensures
            r == self.spec_vertical_stroke(),
    {
        match (self.top, self.bottom) {
            (Some(t), Some(b)) => if t == b {
                Some(t)
            } else {
                None
            },
            (Some(t), None) => Some(t),
            (None, Some(b)) => Some(b),
            (None, None) => None,
        }
    }
}

} // verus!

