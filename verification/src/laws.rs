//! What holds of every cell and every row that the renderer produces.

use crate::glyph::{
    cell_pattern, cut_mark, lemma_line_patterns_defined, ColumnAlign, ColumnType, TblGrp,
};
use crate::layout::{column_span, LayoutSpec};
use crate::render::{aligned, cell_content};
use crate::text::{pad_count, take_seq};
use crate::wrap::{
    lemma_max_waves_bounds, lemma_waves_needed, lemma_window_step, waves_needed, window,
};
use vstd::prelude::*;

verus! {

/// How many fill characters stand in front of a text of `len` characters in a cell:
/// none under left alignment, all of the padding under right alignment and in the
/// column of row numbers, half of it (rounded down) under centring.
pub open spec fn lead(ty: ColumnType, align: ColumnAlign, width: nat, len: nat) -> nat {
    let pad = pad_count(len, width);
    if ty == ColumnType::LineNum {
        pad
    } else {
        match align {
            ColumnAlign::Left => 0,
            ColumnAlign::Center => pad / 2,
            ColumnAlign::Right => pad,
        }
    }
}

/// The number of border characters of a cell: two for the first data column, none for
/// the column of row numbers, one for every other column.
pub open spec fn border_count(ty: ColumnType) -> nat {
    match ty {
        ColumnType::LineNum => 0,
        ColumnType::First => 2,
        _ => 1,
    }
}

impl LayoutSpec {
    /// The length of the cell at `idx` when nothing in it is longer than its column:
    /// content, two margins, and the borders.
    pub open spec fn cell_len(self, idx: int) -> nat {
        self.columns[idx].width + 2 + border_count(self.position_type(idx))
    }

    /// The length of the cells of the first `n` columns together.
    pub open spec fn line_len(self, n: nat) -> nat
        decreases n,
    {
        if n == 0 {
            0
        } else {
            self.line_len((n - 1) as nat) + self.cell_len(n - 1)
        }
    }
}

/// The content of a cell is as wide as its column, whenever the text is no longer
/// than the column.
pub proof fn lemma_content_len(grp: TblGrp, ty: ColumnType, layout: LayoutSpec, idx: int, text: Seq<char>)
    requires
        grp.is_line(),
        text.len() <= layout.columns[idx].width,
    ensures
        cell_content(grp, ty, layout.columns[idx], text).len() == layout.columns[idx].width,
{
    lemma_line_patterns_defined(grp, ty);
}

/// A text shorter than its column is rendered whole: the cell is exactly as long as
/// the column's width, the two margins and the borders; its right margin is the
/// frame's, never the cut marker; and, on a line that shows text, the text stands in
/// the content at the place its alignment gives it.
pub proof fn lemma_short_text_cell(layout: LayoutSpec, grp: TblGrp, idx: int, text: Seq<char>)
    requires
        grp.is_line(),
        0 <= idx < layout.columns.len(),
        text.len() < layout.columns[idx].width,
    ensures
        ({
            let ty = layout.position_type(idx);
            let frame = cell_pattern(grp, ty);
            let cell = layout.cell(grp, idx, text);
            let width = layout.columns[idx].width;
            let from: int = frame.left_border.len() as int + 1;
            let at: int = from + lead(ty, layout.columns[idx].align, width, text.len());
            &&& cell.len() == width + 2 + frame.left_border.len() + frame.right_border.len()
            &&& cell.len() == layout.cell_len(idx)
            &&& cell[from + width] == frame.right_margin[0]
            &&& cell[from + width] != cut_mark()
            &&& !grp.is_rule() ==> cell.subrange(at, at + text.len()) == text
        }),
{
    let ty = layout.position_type(idx);
    let col = layout.columns[idx];
    let frame = cell_pattern(grp, ty);
    lemma_line_patterns_defined(grp, ty);
    lemma_content_len(grp, ty, layout, idx, text);
    let cell = layout.cell(grp, idx, text);
    let content = cell_content(grp, ty, col, text);
    assert(cell =~= frame.left_border + frame.left_margin + content + frame.right_margin
        + frame.right_border);
    if !grp.is_rule() {
        let off: int = lead(ty, col.align, col.width, text.len()) as int;
        assert(content.subrange(off, off + text.len()) =~= text);
        let at: int = frame.left_border.len() + 1 + off;
        assert(cell.subrange(at, at + text.len()) =~= content.subrange(off, off + text.len()));
    }
}

/// A text at least as long as its data column is cut: the cell has the cut marker in
/// its right margin and is as long as that of a short text; on a line that shows text
/// the content is the first `width` characters of the text.
pub proof fn lemma_long_text_cell(layout: LayoutSpec, grp: TblGrp, idx: int, text: Seq<char>)
    requires
        grp.is_line(),
        0 <= idx < layout.columns.len(),
        layout.position_type(idx) != ColumnType::LineNum,
        text.len() >= layout.columns[idx].width,
    ensures
        ({
            let frame = cell_pattern(grp, layout.position_type(idx));
            let cell = layout.cell(grp, idx, text);
            let width = layout.columns[idx].width;
            let from: int = frame.left_border.len() as int + 1;
            &&& cell.len() == layout.cell_len(idx)
            &&& cell[from + width] == cut_mark()
            &&& !grp.is_rule() ==> cell.subrange(from, from + width) == text.subrange(
                0,
                width as int,
            )
        }),
{
    let ty = layout.position_type(idx);
    let col = layout.columns[idx];
    let frame = cell_pattern(grp, ty);
    lemma_line_patterns_defined(grp, ty);
    let shown = text.subrange(0, col.width as int);
    let content = cell_content(grp, ty, col, take_seq(text, col.width));
    assert(take_seq(text, col.width) =~= shown);
    lemma_content_len(grp, ty, layout, idx, shown);
    let cell = layout.cell(grp, idx, text);
    assert(cell =~= frame.left_border + frame.left_margin + content + seq![cut_mark()]
        + frame.right_border);
    if !grp.is_rule() {
        assert(aligned(shown, col.width, col.align) =~= shown);
        let from: int = frame.left_border.len() as int + 1;
        assert(cell.subrange(from, from + col.width) =~= content);
    }
}

/// On a rule the text of a cell does not show: two texts give the same cell, unless
/// the column cuts one of them and not the other (the cut marker still tells).
pub proof fn lemma_rule_ignores_text(
    layout: LayoutSpec,
    grp: TblGrp,
    idx: int,
    text: Seq<char>,
    other: Seq<char>,
)
    requires
        grp.is_rule(),
        0 <= idx < layout.columns.len(),
        layout.cuts(idx, text) == layout.cuts(idx, other),
    ensures
        layout.cell(grp, idx, text) == layout.cell(grp, idx, other),
{
}

/// A rule rendered from any row of texts that no column cuts is the rule of the frame.
pub proof fn lemma_rule_row_ignores_cells(layout: LayoutSpec, grp: TblGrp, cells: Seq<Seq<char>>)
    requires
        grp.is_rule(),
        layout.widths_positive(),
        forall|i: int| 0 <= i < layout.columns.len() ==> !layout.cuts(i, #[trigger] cells[i]),
    ensures
        layout.row(grp, cells) == layout.row(grp, layout.builtin_cells(grp)),
{
    lemma_rule_prefix(layout, grp, cells, layout.columns.len());
}

proof fn lemma_rule_prefix(layout: LayoutSpec, grp: TblGrp, cells: Seq<Seq<char>>, n: nat)
    requires
        grp.is_rule(),
        n <= layout.columns.len(),
        layout.widths_positive(),
        forall|i: int| 0 <= i < layout.columns.len() ==> !layout.cuts(i, #[trigger] cells[i]),
    ensures
        layout.row_prefix(grp, cells, true, n) == layout.row_prefix(
            grp,
            layout.builtin_cells(grp),
            true,
            n,
        ),
    decreases n,
{
    if n > 0 {
        lemma_rule_prefix(layout, grp, cells, (n - 1) as nat);
        let blank = layout.builtin_cells(grp)[n - 1];
        assert(blank.len() == 0);
        assert(layout.columns[n - 1].width > 0);
        assert(!layout.cuts(n - 1, cells[n - 1]));
        lemma_rule_ignores_text(layout, grp, n - 1, cells[n - 1], blank);
    }
}

/// Whether a text takes one line in its column with nothing cut: it is shorter than
/// a data column, or no longer than the column of row numbers.
pub open spec fn fits(layout: LayoutSpec, idx: int, text: Seq<char>) -> bool {
    text.len() <= layout.columns[idx].width && !layout.cuts(idx, text)
}

proof fn lemma_unmarked_prefix(
    layout: LayoutSpec,
    grp: TblGrp,
    cells: Seq<Seq<char>>,
    shown: Seq<Seq<char>>,
    n: nat,
)
    requires
        n <= layout.columns.len(),
        forall|i: int| 0 <= i < n ==> fits(layout, i, #[trigger] cells[i]),
        forall|i: int| 0 <= i < n ==> #[trigger] shown[i] == cells[i],
    ensures
        layout.row_prefix(grp, shown, false, n) == layout.row_prefix(grp, cells, true, n),
    decreases n,
{
    if n > 0 {
        lemma_unmarked_prefix(layout, grp, cells, shown, (n - 1) as nat);
        assert(fits(layout, n - 1, cells[n - 1]));
        assert(shown[n - 1] == cells[n - 1]);
    }
}

/// A text no longer than its column has one window, the text itself, and needs at
/// most one wave.
pub proof fn lemma_single_window(text: Seq<char>, width: nat)
    requires
        width > 0,
        text.len() <= width,
    ensures
        window(text, width, 0) == text,
        waves_needed(text.len(), width) <= 1,
{
    lemma_window_step(text.len(), width, 0);
    assert(0 * width == 0) by (nonlinear_arith);
    assert(window(text, width, 0) =~= text);
    lemma_waves_needed(text.len(), width, 1);
    assert(1 * width == width) by (nonlinear_arith);
}

proof fn lemma_max_waves_at_most_one(layout: LayoutSpec, cells: Seq<Seq<char>>, n: nat)
    requires
        n <= layout.columns.len(),
        layout.widths_positive(),
        forall|i: int| 0 <= i < n ==> (#[trigger] cells[i]).len() <= layout.columns[i].width,
    ensures
        layout.max_waves(cells, n) <= 1,
    decreases n,
{
    if n > 0 {
        lemma_max_waves_at_most_one(layout, cells, (n - 1) as nat);
        assert(layout.columns[n - 1].width > 0);
        lemma_single_window(cells[n - 1], layout.columns[n - 1].width);
    }
}

/// A row whose every text fits its column is wrapped into exactly one line, and that
/// line is the line of the single-line rendering.
pub proof fn lemma_wrap_of_fitting_row(layout: LayoutSpec, grp: TblGrp, cells: Seq<Seq<char>>)
    requires
        layout.widths_positive(),
        cells.len() == layout.columns.len(),
        forall|i: int| 0 <= i < layout.columns.len() ==> fits(layout, i, #[trigger] cells[i]),
    ensures
        layout.wave_count(cells) == 1,
        layout.wave(grp, cells, 0) == layout.row(grp, cells),
{
    let n = layout.columns.len();
    lemma_max_waves_at_most_one(layout, cells, n);
    let shown = layout.wave_cells(cells, 0);
    assert forall|i: int| 0 <= i < n implies #[trigger] shown[i] == cells[i] by {
        assert(fits(layout, i, cells[i]));
        assert(layout.columns[i].width > 0);
        lemma_single_window(cells[i], layout.columns[i].width);
    }
    lemma_unmarked_prefix(layout, grp, cells, shown, n);
}

/// A window is never longer than its column, and a window behind the last one that a
/// text needs is empty.
pub proof fn lemma_window_len(text: Seq<char>, width: nat, k: nat)
    requires
        width > 0,
    ensures
        window(text, width, k).len() <= width,
        k >= waves_needed(text.len(), width) ==> window(text, width, k).len() == 0,
        k + 1 < waves_needed(text.len(), width) ==> window(text, width, k).len() == width,
{
    lemma_window_step(text.len(), width, k);
    lemma_waves_needed(text.len(), width, k);
    lemma_waves_needed(text.len(), width, k + 1);
}

/// The number of lines of a wrapped row: no column needs more, and either one column
/// needs exactly that many or every text is empty and the row takes one line.
pub proof fn lemma_wave_count_is_max(layout: LayoutSpec, cells: Seq<Seq<char>>)
    requires
        layout.widths_positive(),
        cells.len() == layout.columns.len(),
    ensures
        layout.wave_count(cells) >= 1,
        forall|i: int|
            0 <= i < layout.columns.len() ==> waves_needed(
                (#[trigger] cells[i]).len(),
                layout.columns[i].width,
            ) <= layout.wave_count(cells),
        (exists|i: int|
            0 <= i < layout.columns.len() && waves_needed(
                (#[trigger] cells[i]).len(),
                layout.columns[i].width,
            ) == layout.wave_count(cells)) || (layout.wave_count(cells) == 1 && forall|i: int|
            0 <= i < layout.columns.len() ==> (#[trigger] cells[i]).len() == 0),
{
    let n = layout.columns.len();
    assert forall|i: int| 0 <= i < n implies waves_needed(
        (#[trigger] cells[i]).len(),
        layout.columns[i].width,
    ) <= layout.wave_count(cells) by {
        lemma_max_waves_bounds(layout, cells, n, i);
    }
    lemma_max_waves_attained(layout, cells, n);
    if layout.max_waves(cells, n) == 0 {
        assert forall|i: int| 0 <= i < n implies (#[trigger] cells[i]).len() == 0 by {
            lemma_max_waves_bounds(layout, cells, n, i);
            assert(layout.columns[i].width > 0);
            lemma_waves_needed(cells[i].len(), layout.columns[i].width, 0);
            assert(0 * layout.columns[i].width == 0) by (nonlinear_arith);
        }
    }
}

proof fn lemma_max_waves_attained(layout: LayoutSpec, cells: Seq<Seq<char>>, n: nat)
    ensures
        layout.max_waves(cells, n) == 0 || exists|i: int|
            0 <= i < n && waves_needed((#[trigger] cells[i]).len(), layout.columns[i].width)
                == layout.max_waves(cells, n),
    decreases n,
{
    if n > 0 {
        lemma_max_waves_attained(layout, cells, (n - 1) as nat);
        let rest = layout.max_waves(cells, (n - 1) as nat);
        let here = waves_needed(cells[n - 1].len(), layout.columns[n - 1].width);
        if here > rest {
            assert(waves_needed(cells[n - 1].len(), layout.columns[n - 1].width)
                == layout.max_waves(cells, n));
        } else if rest != 0 {
            let i = choose|i: int|
                0 <= i < n - 1 && waves_needed((#[trigger] cells[i]).len(), layout.columns[i].width)
                    == rest;
            assert(waves_needed(cells[i].len(), layout.columns[i].width) == layout.max_waves(
                cells,
                n,
            ));
        }
    }
}

proof fn lemma_wave_prefix_len(
    layout: LayoutSpec,
    grp: TblGrp,
    cells: Seq<Seq<char>>,
    k: nat,
    n: nat,
)
    requires
        grp.is_line(),
        n <= layout.columns.len(),
        layout.widths_positive(),
    ensures
        layout.row_prefix(grp, layout.wave_cells(cells, k), false, n).len() == layout.line_len(n),
    decreases n,
{
    if n > 0 {
        lemma_wave_prefix_len(layout, grp, cells, k, (n - 1) as nat);
        let idx = n - 1;
        let ty = layout.position_type(idx);
        let text = layout.wave_cells(cells, k)[idx];
        assert(layout.columns[idx].width > 0);
        lemma_window_len(cells[idx], layout.columns[idx].width, k);
        lemma_line_patterns_defined(grp, ty);
        lemma_content_len(grp, ty, layout, idx, text);
    }
}

/// Every line of a wrapped row has the same length, whatever is left of the texts:
/// a column whose text has ended still renders its cell, blank.
pub proof fn lemma_wave_len(layout: LayoutSpec, grp: TblGrp, cells: Seq<Seq<char>>, k: nat)
    requires
        grp.is_line(),
        layout.widths_positive(),
    ensures
        layout.wave(grp, cells, k).len() == layout.line_len(layout.columns.len()),
{
    lemma_wave_prefix_len(layout, grp, cells, k, layout.columns.len());
}

/// In a wave behind the last window of a text, the cell of that text is the cell of
/// the empty text.
pub proof fn lemma_ended_text_is_blank(layout: LayoutSpec, cells: Seq<Seq<char>>, idx: int, k: nat)
    requires
        layout.widths_positive(),
        0 <= idx < layout.columns.len(),
        k >= waves_needed(cells[idx].len(), layout.columns[idx].width),
    ensures
        layout.wave_cells(cells, k)[idx] == Seq::<char>::empty(),
{
    assert(layout.columns[idx].width > 0);
    lemma_window_len(cells[idx], layout.columns[idx].width, k);
    assert(layout.wave_cells(cells, k)[idx] =~= Seq::<char>::empty());
}

/// In a sealed layout only the column of row numbers is marked as such, and it is
/// where the renderer looks for it: at index 0 of a layout that numbers its rows.
/// Where the layout has more than one data column, every column is marked with the
/// part that its position gives it.
pub proof fn lemma_sealed_types_by_position(layout: LayoutSpec, idx: int)
    requires
        layout.is_sealed(),
        0 <= idx < layout.columns.len(),
    ensures
        layout.columns[idx].ty == ColumnType::LineNum <==> layout.position_type(idx)
            == ColumnType::LineNum,
        layout.columns.len() - layout.data_start() > 1 ==> layout.columns[idx].ty
            == layout.position_type(idx),
{
}

/// The width of a sealed table, column by column: the left border, the bare width of
/// the column of row numbers, and for every data column its width, two margins and
/// one border.
pub proof fn lemma_sealed_column_span(layout: LayoutSpec, idx: int)
    requires
        layout.is_sealed(),
        0 <= idx < layout.columns.len(),
    ensures
        column_span(layout.columns[idx]) == (if layout.has_linenum && idx == 0 {
            2nat
        } else {
            layout.columns[idx].width + 3
        }),
{
}

} // verus!
