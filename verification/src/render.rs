//! Row layout for painting.
//!
//! The paint path walks each grid row once and batches what it finds:
//! horizontally adjacent cells with the same background color become one
//! [`BackgroundRect`]; adjacent cells with identical styling become one
//! [`BatchedTextRun`]; and adjacent box-drawing cells with the same continuous
//! horizontal weight and foreground become one [`HorizontalSpan`], drawn as a
//! single stroke so that no seams show between cells.

use vstd::prelude::*;

use crate::box_drawing;
use crate::colors::{Color, ColorOverrides, ColorPalette, ResolvedColor, Rgb};

verus! {

/// What the renderer reads from one terminal cell: the character, the two
/// color references, and the display flags.
#[derive(Debug, Clone, Copy, PartialEq, Eq, Structural)]
pub struct CellContent {
    /// The cell's character.
    pub c: char,
    /// Foreground color reference.
    pub fg: Color,
    /// Background color reference.
    pub bg: Color,
    /// Render in bold.
    pub bold: bool,
    /// Render in italic.
    pub italic: bool,
    /// Underline the cell.
    pub underline: bool,
    /// The cell is the spacer half of a wide character and is skipped.
    pub wide_char_spacer: bool,
}

/// Background rectangle to paint: one row, a half-open column range, and a
/// solid color.
#[derive(Debug, Clone, Copy, PartialEq, Eq, Structural)]
pub struct BackgroundRect {
    /// Starting column position.
    pub start_col: usize,
    /// Ending column position (exclusive).
    pub end_col: usize,
    /// Row position.
    pub row: usize,
    /// Background color.
    pub color: ResolvedColor,
}

impl BackgroundRect {
    /// Two rectangles merge when they sit on the same row, share the color,
    /// and this one ends exactly where the other begins.
    pub open spec fn spec_can_merge_with(self, other: BackgroundRect) -> bool {
        self.row == other.row && self.color == other.color && self.end_col == other.start_col
    }

    /// Check if this rectangle can be merged with another.
    pub fn can_merge_with(&self, other: &BackgroundRect) -> (r: bool)
        ensures
            r == self.spec_can_merge_with(*other),
    {
        self.row == other.row && self.color == other.color && self.end_col == other.start_col
    }
}

/// One step of the merge: a rectangle either widens the rectangle before it
/// or is appended unchanged.
pub open spec fn spec_merge_step(
    acc: Seq<BackgroundRect>,
    rect: BackgroundRect,
) -> Seq<BackgroundRect> {
    if acc.len() > 0 && acc.last().spec_can_merge_with(rect) {
        acc.update(acc.len() - 1, BackgroundRect { end_col: rect.end_col, ..acc.last() })
    } else {
        acc.push(rect)
    }
}

/// The merge of a rectangle list: each rectangle in turn either widens its
/// predecessor or starts a new entry.
pub open spec fn spec_merge(rects: Seq<BackgroundRect>) -> Seq<BackgroundRect>
    decreases rects.len(),
{
    if rects.len() == 0 {
        Seq::empty()
    } else {
        spec_merge_step(spec_merge(rects.drop_last()), rects.last())
    }
}

/// Merge adjacent background rects with the same color.
pub fn merge_backgrounds(rects: Vec<BackgroundRect>) -> (merged: Vec<BackgroundRect>)
    ensures
        merged@ == spec_merge(rects@),
{
    if rects.len() == 0 {
        return rects;
    }
    let mut merged: Vec<BackgroundRect> = Vec::new();
    let mut current: BackgroundRect = rects[0];
    let mut i: usize = 1;
    proof {
        assert(rects@.take(1).drop_last() =~= Seq::<BackgroundRect>::empty());
        assert(rects@.take(1).last() == rects@[0]);
        assert(spec_merge(Seq::<BackgroundRect>::empty()) =~= Seq::<BackgroundRect>::empty());
        assert(spec_merge(rects@.take(1)) =~= merged@.push(current));
    }
    while i < rects.len()
        invariant
            1 <= i <= rects@.len(),
            spec_merge(rects@.take(i as int)) == merged@.push(current),
        decreases rects@.len() - i,
    {
        let rect = rects[i];
        proof {
            assert(rects@.take(i + 1).drop_last() =~= rects@.take(i as int));
            assert(rects@.take(i + 1).last() == rects@[i as int]);
        }
        if current.can_merge_with(&rect) {
            let ghost pre = merged@.push(current);
            current.end_col = rect.end_col;
            proof {
                assert(spec_merge(rects@.take(i + 1)) == pre.update(
                    pre.len() - 1,
                    BackgroundRect { end_col: rect.end_col, ..pre.last() },
                ));
                assert(spec_merge(rects@.take(i + 1)) =~= merged@.push(current));
            }
        } else {
            merged.push(current);
            current = rect;
            proof {
                assert(spec_merge(rects@.take(i + 1)) =~= merged@.push(current));
            }
        }
        i = i + 1;
    }
    proof {
        assert(rects@.take(rects@.len() as int) =~= rects@);
    }
    merged.push(current);
    merged
}

/// No two neighbours of the list can merge.
pub open spec fn spec_fully_merged(rects: Seq<BackgroundRect>) -> bool {
    forall|i: int|
        0 <= i < rects.len() - 1 ==> !(#[trigger] rects[i]).spec_can_merge_with(rects[i + 1])
}

/// The merge leaves no two neighbours that could merge.
pub proof fn lemma_merge_is_fully_merged(rects: Seq<BackgroundRect>)
    ensures
        spec_fully_merged(spec_merge(rects)),
    decreases rects.len(),
{
    if rects.len() > 0 {
        lemma_merge_is_fully_merged(rects.drop_last());
        let prior = spec_merge(rects.drop_last());
        let out = spec_merge_step(prior, rects.last());
        if prior.len() > 0 && prior.last().spec_can_merge_with(rects.last()) {
            // Widening the last rectangle moves its right edge only: every
            // neighbour pair to its left is unchanged, and the pair at the
            // edge keeps its left rectangle's end column.
            assert forall|i: int| 0 <= i < out.len() - 1 implies !(#[trigger] out[i]).spec_can_merge_with(
                out[i + 1],
            ) by {
                if i < out.len() - 2 {
                    assert(out[i] == prior[i] && out[i + 1] == prior[i + 1]);
                } else {
                    assert(out[i] == prior[i]);
                    assert(out[i + 1].start_col == prior[i + 1].start_col);
                    assert(out[i + 1].row == prior[i + 1].row);
                    assert(out[i + 1].color == prior[i + 1].color);
                }
            }
        }
    }
}

/// A list in which no neighbours can merge is left unchanged by the merge.
pub proof fn lemma_merge_of_merged_is_identity(rects: Seq<BackgroundRect>)
    requires
        spec_fully_merged(rects),
    ensures
        spec_merge(rects) == rects,
    decreases rects.len(),
{
    if rects.len() == 0 {
        assert(spec_merge(rects) =~= rects);
    } else {
        assert(spec_fully_merged(rects.drop_last()));
        lemma_merge_of_merged_is_identity(rects.drop_last());
        if rects.len() >= 2 {
            assert(!rects[rects.len() - 2].spec_can_merge_with(rects[rects.len() - 1]));
        }
        assert(spec_merge(rects) =~= rects);
    }
}

/// Merging is idempotent: merging an already merged list changes nothing.
pub proof fn lemma_merge_idempotent(rects: Seq<BackgroundRect>)
    ensures
        spec_merge(spec_merge(rects)) == spec_merge(rects),
{
    lemma_merge_is_fully_merged(rects);
    lemma_merge_of_merged_is_identity(spec_merge(rects));
}

/// Merging three contiguous same-color rectangles of one row in two batches
/// — the first two, then the third — gives the same single rectangle as
/// merging all three at once.
pub proof fn lemma_merge_batches_agree(r1: BackgroundRect, r2: BackgroundRect, r3: BackgroundRect)
    requires
        r1.row == r2.row && r2.row == r3.row,
        r1.color == r2.color && r2.color == r3.color,
        r1.end_col == r2.start_col,
        r2.end_col == r3.start_col,
    ensures
        spec_merge(spec_merge(seq![r1, r2]).push(r3)) == spec_merge(seq![r1, r2, r3]),
        spec_merge(seq![r1, r2, r3]) == seq![
            BackgroundRect { start_col: r1.start_col, end_col: r3.end_col, row: r1.row, color: r1.color },
        ],
{
    let merged12 = BackgroundRect { end_col: r2.end_col, ..r1 };
    let merged13 = BackgroundRect { start_col: r1.start_col, end_col: r3.end_col, row: r1.row, color: r1.color };
    assert(seq![r1, r2].drop_last() =~= seq![r1]);
    assert(seq![r1].drop_last() =~= Seq::<BackgroundRect>::empty());
    assert(spec_merge(Seq::<BackgroundRect>::empty()) =~= Seq::<BackgroundRect>::empty());
    assert(spec_merge(seq![r1]) =~= seq![r1]);
    assert(spec_merge(seq![r1, r2]) =~= seq![merged12]);

    let two_batches = seq![merged12].push(r3);
    assert(two_batches.drop_last() =~= seq![merged12]);
    assert(seq![merged12].drop_last() =~= Seq::<BackgroundRect>::empty());
    assert(spec_merge(seq![merged12]) =~= seq![merged12]);
    assert(merged12.spec_can_merge_with(r3));
    assert(spec_merge(two_batches) =~= seq![merged13]);

    let all = seq![r1, r2, r3];
    assert(all.drop_last() =~= seq![r1, r2]);
    assert(spec_merge(all) =~= seq![merged13]);
}

/// A batched run of text with consistent styling: every cell of the run
/// shares the same colors and flags.
#[derive(Debug, Clone, PartialEq, Eq)]
pub struct BatchedTextRun {
    /// The characters to render, one per cell.
    pub text: Vec<char>,
    /// Starting column position.
    pub start_col: usize,
    /// Row position.
    pub row: usize,
    /// Foreground color.
    pub fg_color: ResolvedColor,
    /// Background color.
    pub bg_color: ResolvedColor,
    /// Bold flag.
    pub bold: bool,
    /// Italic flag.
    pub italic: bool,
    /// Underline flag.
    pub underline: bool,
}

/// The mathematical image of a batched run.
#[verifier::ext_equal]
pub struct TextRunView {
    pub text: Seq<char>,
    pub start_col: int,
    pub row: int,
    pub fg_color: ResolvedColor,
    pub bg_color: ResolvedColor,
    pub bold: bool,
    pub italic: bool,
    pub underline: bool,
}

impl View for BatchedTextRun {
    type V = TextRunView;

    open spec fn view(&self) -> TextRunView {
        TextRunView {
            text: self.text@,
            start_col: self.start_col as int,
            row: self.row as int,
            fg_color: self.fg_color,
            bg_color: self.bg_color,
            bold: self.bold,
            italic: self.italic,
            underline: self.underline,
        }
    }
}

impl TextRunView {
    /// The run has the given style in every field.
    pub open spec fn has_style(
        self,
        fg: ResolvedColor,
        bg: ResolvedColor,
        bold: bool,
        italic: bool,
        underline: bool,
    ) -> bool {
        self.fg_color == fg && self.bg_color == bg && self.bold == bold && self.italic == italic
            && self.underline == underline
    }
}

/// The character a cell displays: a NUL cell displays as a blank.
pub open spec fn spec_display_char(c: char) -> char {
    if c == '\0' {
        ' '
    } else {
        c
    }
}

/// The state of the row walk: the finished rectangles and runs, and the
/// rectangle and run still growing.
#[verifier::ext_equal]
pub struct RowLayoutState {
    pub backgrounds: Seq<BackgroundRect>,
    pub current_bg: Option<BackgroundRect>,
    pub runs: Seq<TextRunView>,
    pub current_run: Option<TextRunView>,
}

impl RowLayoutState {
    /// Before any cell is seen: nothing finished, nothing growing.
    pub open spec fn empty() -> RowLayoutState {
        RowLayoutState {
            backgrounds: Seq::empty(),
            current_bg: None,
            runs: Seq::empty(),
            current_run: None,
        }
    }
}

/// One cell of the walk. The growing rectangle extends when the cell
/// continues it in place and color, else it is finished and a new one starts;
/// the growing run extends when the cell matches its style in every field,
/// else it is finished and a new one starts.
pub open spec fn spec_layout_step(
    state: RowLayoutState,
    row: int,
    col: int,
    cell: CellContent,
    fg: ResolvedColor,
    bg: ResolvedColor,
) -> RowLayoutState {
    let ch = spec_display_char(cell.c);
    let new_bg = BackgroundRect {
        start_col: col as usize,
        end_col: (col + 1) as usize,
        row: row as usize,
        color: bg,
    };
    let new_run = TextRunView {
        text: seq![ch],
        start_col: col,
        row,
        fg_color: fg,
        bg_color: bg,
        bold: cell.bold,
        italic: cell.italic,
        underline: cell.underline,
    };
    let (backgrounds, current_bg) = match state.current_bg {
        Some(bg_rect) => {
            if bg_rect.color == bg && bg_rect.end_col == col {
                (state.backgrounds, BackgroundRect { end_col: (col + 1) as usize, ..bg_rect })
            } else {
                (state.backgrounds.push(bg_rect), new_bg)
            }
        },
        None => (state.backgrounds, new_bg),
    };
    let (runs, current_run) = match state.current_run {
        Some(run) => {
            if run.has_style(fg, bg, cell.bold, cell.italic, cell.underline) {
                (state.runs, TextRunView { text: run.text.push(ch), ..run })
            } else {
                (state.runs.push(run), new_run)
            }
        },
        None => (state.runs, new_run),
    };
    RowLayoutState {
        backgrounds,
        current_bg: Some(current_bg),
        runs,
        current_run: Some(current_run),
    }
}

/// The walk over a row's cells, wide-character spacers skipped.
pub open spec fn spec_layout_cells(
    row: int,
    cells: Seq<(usize, CellContent)>,
    palette: ColorPalette,
    overrides: Seq<Option<Rgb>>,
) -> RowLayoutState
    decreases cells.len(),
{
    if cells.len() == 0 {
        RowLayoutState::empty()
    } else {
        let state = spec_layout_cells(row, cells.drop_last(), palette, overrides);
        let (col, cell) = cells.last();
        if cell.wide_char_spacer {
            state
        } else {
            spec_layout_step(
                state,
                row,
                col as int,
                cell,
                palette.spec_resolve(cell.fg, overrides),
                palette.spec_resolve(cell.bg, overrides),
            )
        }
    }
}

/// The backgrounds a finished walk yields, merged; and the runs it yields.
pub open spec fn spec_layout_row(
    row: int,
    cells: Seq<(usize, CellContent)>,
    palette: ColorPalette,
    overrides: Seq<Option<Rgb>>,
) -> (Seq<BackgroundRect>, Seq<TextRunView>) {
    let state = spec_layout_cells(row, cells, palette, overrides);
    let backgrounds = match state.current_bg {
        Some(bg_rect) => state.backgrounds.push(bg_rect),
        None => state.backgrounds,
    };
    let runs = match state.current_run {
        Some(run) => state.runs.push(run),
        None => state.runs,
    };
    (spec_merge(backgrounds), runs)
}

/// The views of a list of runs.
pub open spec fn spec_run_views(runs: Seq<BatchedTextRun>) -> Seq<TextRunView> {
    runs.map_values(|run: BatchedTextRun| run@)
}

/// The view of a growing run, if one is growing.
pub open spec fn spec_opt_run_view(run: Option<BatchedTextRun>) -> Option<TextRunView> {
    match run {
        Some(r) => Some(r@),
        None => None,
    }
}

/// Layout cells into batched text runs and background rects for a single row.
///
/// Adjacent cells with the same background color become one rectangle;
/// adjacent cells with identical styling become one text run; wide-character
/// spacers are skipped; the rectangles are merged before they are returned.
pub fn layout_row(
    row: usize,
    cells: &Vec<(usize, CellContent)>,
    palette: &ColorPalette,
    overrides: &ColorOverrides,
) -> (r: (Vec<BackgroundRect>, Vec<BatchedTextRun>))
    requires
        palette.wf(),
        overrides.wf(),
        forall|i: int| 0 <= i < cells@.len() ==> (#[trigger] cells@[i]).0 < usize::MAX,
    ensures
        r.0@ == spec_layout_row(row as int, cells@, *palette, overrides@).0,
        spec_run_views(r.1@) == spec_layout_row(row as int, cells@, *palette, overrides@).1,
{
    let mut backgrounds: Vec<BackgroundRect> = Vec::new();
    let mut text_runs: Vec<BatchedTextRun> = Vec::new();

    let mut current_run: Option<BatchedTextRun> = None;
    let mut current_bg: Option<BackgroundRect> = None;

    let mut i: usize = 0;
    proof {
        assert(cells@.take(0) =~= Seq::<(usize, CellContent)>::empty());
        assert(spec_run_views(text_runs@) =~= Seq::<TextRunView>::empty());
    }
    while i < cells.len()
        invariant
            palette.wf(),
            overrides.wf(),
            i <= cells@.len(),
            forall|j: int| 0 <= j < cells@.len() ==> (#[trigger] cells@[j]).0 < usize::MAX,
            spec_layout_cells(row as int, cells@.take(i as int), *palette, overrides@)
                == (RowLayoutState {
                backgrounds: backgrounds@,
                current_bg: current_bg,
                runs: spec_run_views(text_runs@),
                current_run: spec_opt_run_view(current_run),
            }),
        decreases cells@.len() - i,
    {
        proof {
            assert(cells@.take(i + 1).drop_last() =~= cells@.take(i as int));
            assert(cells@.take(i + 1).last() == cells@[i as int]);
        }
        let ghost pre = RowLayoutState {
            backgrounds: backgrounds@,
            current_bg: current_bg,
            runs: spec_run_views(text_runs@),
            current_run: spec_opt_run_view(current_run),
        };
        let (col, cell) = cells[i];
        if cell.wide_char_spacer {
            i = i + 1;
            continue;
        }

        let fg_color = palette.resolve(cell.fg, overrides);
        let bg_color = palette.resolve(cell.bg, overrides);
        let ghost target = spec_layout_step(
            pre,
            row as int,
            col as int,
            cell,
            fg_color,
            bg_color,
        );
        proof {
            assert(spec_layout_cells(row as int, cells@.take(i + 1), *palette, overrides@)
                == target);
        }

        // A NUL cell displays as a blank.
        let ch = if cell.c == '\0' {
            ' '
        } else {
            cell.c
        };

        // Extend or flush the growing background rectangle.
        current_bg = match current_bg {
            Some(mut bg_rect) => {
                if bg_rect.color == bg_color && bg_rect.end_col == col {
                    bg_rect.end_col = col + 1;
                    Some(bg_rect)
                } else {
                    backgrounds.push(bg_rect);
                    Some(BackgroundRect { start_col: col, end_col: col + 1, row, color: bg_color })
                }
            },
            None => Some(
                BackgroundRect { start_col: col, end_col: col + 1, row, color: bg_color },
            ),
        };
        proof {
            assert(backgrounds@ == target.backgrounds);
            assert(current_bg == target.current_bg);
        }

        // Extend or flush the growing text run.
        let ghost pre_runs = spec_run_views(text_runs@);
        current_run = match current_run {
            Some(mut run) => {
                if run.fg_color == fg_color && run.bg_color == bg_color && run.bold == cell.bold
                    && run.italic == cell.italic && run.underline == cell.underline {
                    run.text.push(ch);
                    Some(run)
                } else {
                    text_runs.push(run);
                    let mut text: Vec<char> = Vec::new();
                    text.push(ch);
                    Some(
                        BatchedTextRun {
                            text,
                            start_col: col,
                            row,
                            fg_color,
                            bg_color,
                            bold: cell.bold,
                            italic: cell.italic,
                            underline: cell.underline,
                        },
                    )
                }
            },
            None => {
                let mut text: Vec<char> = Vec::new();
                text.push(ch);
                Some(
                    BatchedTextRun {
                        text,
                        start_col: col,
                        row,
                        fg_color,
                        bg_color,
                        bold: cell.bold,
                        italic: cell.italic,
                        underline: cell.underline,
                    },
                )
            },
        };
        proof {
            if pre.current_run is Some && !pre.current_run->Some_0.has_style(
                fg_color,
                bg_color,
                cell.bold,
                cell.italic,
                cell.underline,
            ) {
                assert(spec_run_views(text_runs@) =~= pre_runs.push(pre.current_run->Some_0));
            }
            assert(spec_run_views(text_runs@) == target.runs);
            if current_run is Some {
                assert(current_run->Some_0@ =~= target.current_run->Some_0);
            }
            assert(spec_opt_run_view(current_run) == target.current_run);
        }
        i = i + 1;
    }
    proof {
        assert(cells@.take(cells@.len() as int) =~= cells@);
    }

    // Flush the final run and rectangle.
    if let Some(run) = current_run {
        text_runs.push(run);
    }
    if let Some(bg_rect) = current_bg {
        backgrounds.push(bg_rect);
    }

    // Merge adjacent backgrounds with the same color.
    let merged_backgrounds = merge_backgrounds(backgrounds);

    (merged_backgrounds, text_runs)
}

/// A horizontal box-drawing span: a maximal run of adjacent cells whose
/// continuous horizontal lines share weight and foreground, drawn as one
/// stroke. Both column bounds are inclusive.
#[derive(Debug, Clone, Copy, PartialEq, Eq, Structural)]
pub struct HorizontalSpan {
    /// First column of the span.
    pub start_col: usize,
    /// Last column of the span.
    pub end_col: usize,
    /// The shared line weight.
    pub weight: crate::box_drawing::LineWeight,
    /// The shared foreground color.
    pub color: ResolvedColor,
}

/// The horizontal key of a cell: the weight of its continuous horizontal
/// line together with its resolved foreground, when it has one.
pub open spec fn spec_horizontal_key(
    cell: CellContent,
    palette: ColorPalette,
    overrides: Seq<Option<Rgb>>,
) -> Option<(crate::box_drawing::LineWeight, ResolvedColor)> {
    match box_drawing::spec_horizontal_weight(cell.c as u32) {
        Some(weight) => Some((weight, palette.spec_resolve(cell.fg, overrides))),
        None => None,
    }
}

/// One cell of the span scan: a keyed cell either lengthens the span ending
/// in the previous column with the same key, or begins a new span; a cell
/// without a key leaves the spans as they are.
pub open spec fn spec_spans_step(
    acc: Seq<HorizontalSpan>,
    col: int,
    key: Option<(crate::box_drawing::LineWeight, ResolvedColor)>,
) -> Seq<HorizontalSpan> {
    match key {
        None => acc,
        Some((weight, color)) => {
            if acc.len() > 0 && acc.last().end_col + 1 == col && acc.last().weight == weight
                && acc.last().color == color {
                acc.update(acc.len() - 1, HorizontalSpan { end_col: col as usize, ..acc.last() })
            } else {
                acc.push(
                    HorizontalSpan {
                        start_col: col as usize,
                        end_col: col as usize,
                        weight,
                        color,
                    },
                )
            }
        },
    }
}

/// The horizontal spans of a row, column by column.
pub open spec fn spec_horizontal_spans(
    cells: Seq<CellContent>,
    palette: ColorPalette,
    overrides: Seq<Option<Rgb>>,
) -> Seq<HorizontalSpan>
    decreases cells.len(),
{
    if cells.len() == 0 {
        Seq::empty()
    } else {
        spec_spans_step(
            spec_horizontal_spans(cells.drop_last(), palette, overrides),
            cells.len() - 1,
            spec_horizontal_key(cells.last(), palette, overrides),
        )
    }
}

/// Finds the horizontal box-drawing spans of a row, `cells[i]` standing in
/// column `i`.
///
/// Each span is a maximal run of adjacent cells with the same continuous
/// horizontal weight and the same resolved foreground. The paint layer draws
/// each span as one stroke and then draws only the vertical components of the
/// covered cells, so junctions are not double-struck and no seams show.
pub fn horizontal_spans(
    cells: &Vec<CellContent>,
    palette: &ColorPalette,
    overrides: &ColorOverrides,
) -> (spans: Vec<HorizontalSpan>)
    requires
        palette.wf(),
        overrides.wf(),
    ensures
        spans@ == spec_horizontal_spans(cells@, *palette, overrides@),
{
    let mut spans: Vec<HorizontalSpan> = Vec::new();
    let mut col: usize = 0;
    proof {
        assert(cells@.take(0) =~= Seq::<CellContent>::empty());
    }
    while col < cells.len()
        invariant
            palette.wf(),
            overrides.wf(),
            col <= cells@.len(),
            spans@ == spec_horizontal_spans(cells@.take(col as int), *palette, overrides@),
            forall|k: int| 0 <= k < spans@.len() ==> (#[trigger] spans@[k]).end_col < col,
        decreases cells@.len() - col,
    {
        proof {
            assert(cells@.take(col + 1).drop_last() =~= cells@.take(col as int));
            assert(cells@.take(col + 1).last() == cells@[col as int]);
        }
        let cell = cells[col];
        if let Some(weight) = box_drawing::get_horizontal_weight(cell.c) {
            let color = palette.resolve(cell.fg, overrides);
            let mut extend = false;
            if spans.len() > 0 {
                let last = spans[spans.len() - 1];
                if last.end_col + 1 == col && last.weight == weight && last.color == color {
                    extend = true;
                }
            }
            if extend {
                let last_idx = spans.len() - 1;
                let mut last = spans[last_idx];
                last.end_col = col;
                spans.set(last_idx, last);
            } else {
                spans.push(HorizontalSpan { start_col: col, end_col: col, weight, color });
            }
        }
        col = col + 1;
    }
    proof {
        assert(cells@.take(cells@.len() as int) =~= cells@);
    }
    spans
}

/// True when some span of the list covers the column.
pub open spec fn spec_covered(spans: Seq<HorizontalSpan>, col: int) -> bool {
    exists|k: int|
        0 <= k < spans.len() && (#[trigger] spans[k]).start_col <= col <= spans[k].end_col
}

/// One flag per column: whether one of the row's spans covers it.
///
/// The paint layer draws a covered box-drawing cell's vertical components
/// only, since its horizontal line was already drawn with the span; an
/// uncovered box-drawing cell is drawn whole.
pub fn covered_columns(spans: &Vec<HorizontalSpan>, num_cols: usize) -> (covered: Vec<bool>)
    ensures
        covered@.len() == num_cols,
        forall|c: int| 0 <= c < num_cols ==> covered@[c] == spec_covered(spans@, c),
{
    let mut covered: Vec<bool> = Vec::new();
    let mut c: usize = 0;
    while c < num_cols
        invariant
            covered@.len() == c,
            c <= num_cols,
            forall|i: int| 0 <= i < c ==> covered@[i] == spec_covered(spans@, i),
        decreases num_cols - c,
    {
        let mut found = false;
        let mut k: usize = 0;
        while k < spans.len()
            invariant
                k <= spans@.len(),
                found == exists|j: int|
                    0 <= j < k && (#[trigger] spans@[j]).start_col <= c <= spans@[j].end_col,
            decreases spans@.len() - k,
        {
            let span = spans[k];
            if span.start_col <= c && c <= span.end_col {
                found = true;
            }
            k = k + 1;
        }
        covered.push(found);
        c = c + 1;
    }
    covered
}

} // verus!
