//! The renderer: one cell, one line of a row, and the lines of the frame.

use crate::glyph::{
    cell_pattern, cell_patterns, cut_mark, cut_mark_str, glyph, glyph_str,
    lemma_line_patterns_defined, no_glyph, ColumnAlign, ColumnType, TablePos, TblGrp,
};
use crate::layout::{
    lemma_span_sum_prefix, span_sum, ColumnSpec, LayoutSpec, TableConfig, TABLE_CELL_MARGIN,
};
use crate::text::{
    fill_seq, fill_str, pad_both, pad_both_seq, pad_end, pad_end_seq, pad_start, pad_start_seq,
    take_chars, take_seq,
};
use vstd::prelude::*;
use vstd::string::*;

verus! {

/// A renderer bound to one layout. The two counters are kept for callers that render a
/// table step by step; no operation here reads or changes them.
pub struct TableTool {
    pub tbl_cfg: TableConfig,
    pub rending_column: usize,
    pub rending_row: usize,
}

impl View for TableTool {
    type V = LayoutSpec;

    open spec fn view(&self) -> LayoutSpec {
        self.tbl_cfg@
    }
}

/// The views of a row of cell texts.
pub open spec fn cell_texts(cells: Seq<&str>) -> Seq<Seq<char>> {
    cells.map_values(|s: &str| s@)
}

/// Whether a text is cut in a column: in a data column, when it has at least as many
/// characters as the column is wide. The column of row numbers never cuts.
pub open spec fn overflows(ty: ColumnType, width: nat, text: Seq<char>) -> bool {
    ty != ColumnType::LineNum && text.len() >= width
}

/// `text` brought to `width` by the alignment of its column, with spaces.
pub open spec fn aligned(text: Seq<char>, width: nat, align: ColumnAlign) -> Seq<char> {
    match align {
        ColumnAlign::Left => pad_end_seq(text, width, ' '),
        ColumnAlign::Center => pad_both_seq(text, width, ' '),
        ColumnAlign::Right => pad_start_seq(text, width, ' '),
    }
}

/// What stands between the margins of a cell.
///
/// On a rule the left margin's character fills the width and the text is ignored.
/// In the column of row numbers an empty text gives blanks, any other text is put to
/// the right behind zeros. In a data column the text is aligned as the column says.
pub open spec fn cell_content(grp: TblGrp, ty: ColumnType, col: ColumnSpec, text: Seq<char>) -> Seq<
    char,
> {
    if grp.is_rule() {
        fill_seq(cell_pattern(grp, ty).left_margin[0], col.width)
    } else if ty == ColumnType::LineNum {
        if text.len() == 0 {
            fill_seq(' ', col.width)
        } else {
            pad_start_seq(text, col.width, '0')
        }
    } else {
        aligned(text, col.width, col.align)
    }
}

impl LayoutSpec {
    /// The part that the column at `idx` plays in the frame, by its position alone:
    /// index 0 is the column of row numbers where there is one, else the first column;
    /// index 1 behind the column of row numbers is the first column; of the others the
    /// one at the end is the last column, the rest are middle columns.
    pub open spec fn position_type(self, idx: int) -> ColumnType {
        if idx == 0 {
            if self.has_linenum {
                ColumnType::LineNum
            } else {
                ColumnType::First
            }
        } else if idx == 1 && self.has_linenum {
            ColumnType::First
        } else if idx < self.columns.len() - 1 {
            ColumnType::Middle
        } else {
            ColumnType::Last
        }
    }

    /// Whether the cell of `text` in column `idx` is cut.
    pub open spec fn cuts(self, idx: int, text: Seq<char>) -> bool {
        overflows(self.position_type(idx), self.columns[idx].width, text)
    }

    /// A cell: left border, left margin, content, right margin, right border.
    ///
    /// With `mark`, a text that the column cuts keeps its first `width` characters and
    /// the cut marker takes the place of the right margin. Without `mark` the text is
    /// rendered whole and the margin is the frame's.
    pub open spec fn cell_with(self, grp: TblGrp, idx: int, text: Seq<char>, mark: bool) -> Seq<
        char,
    > {
        let ty = self.position_type(idx);
        let col = self.columns[idx];
        let frame = cell_pattern(grp, ty);
        let cut = mark && self.cuts(idx, text);
        let shown = if cut {
            take_seq(text, col.width)
        } else {
            text
        };
        let right_margin = if cut {
            seq![cut_mark()]
        } else {
            frame.right_margin
        };
        frame.left_border + frame.left_margin + cell_content(grp, ty, col, shown) + right_margin
            + frame.right_border
    }

    /// A cell of a single line: the cut rule applies.
    pub open spec fn cell(self, grp: TblGrp, idx: int, text: Seq<char>) -> Seq<char> {
        self.cell_with(grp, idx, text, true)
    }

    /// The cells of the first `n` columns, one behind the other.
    pub open spec fn row_prefix(self, grp: TblGrp, cells: Seq<Seq<char>>, mark: bool, n: nat) -> Seq<
        char,
    >
        decreases n,
    {
        if n == 0 {
            Seq::empty()
        } else {
            self.row_prefix(grp, cells, mark, (n - 1) as nat) + self.cell_with(
                grp,
                n - 1,
                cells[n - 1],
                mark,
            )
        }
    }

    /// A line of the table: the cell of every column in order, with nothing between.
    pub open spec fn row(self, grp: TblGrp, cells: Seq<Seq<char>>) -> Seq<char> {
        self.row_prefix(grp, cells, true, self.columns.len())
    }

    /// The texts that a line of the frame is rendered from: the titles for the header
    /// line, empty texts for the rules.
    pub open spec fn builtin_cells(self, grp: TblGrp) -> Seq<Seq<char>> {
        Seq::new(
            self.columns.len(),
            |i: int|
                if grp == TblGrp::HeadLine {
                    self.columns[i].title
                } else {
                    Seq::empty()
                },
        )
    }
}

impl TableTool {
    /// Binds a layout to a renderer; both counters start at 0.
    pub fn attach(tbl_cfg: TableConfig) -> (tool: TableTool)
        ensures
            tool.tbl_cfg == tbl_cfg,
            tool.rending_column == 0,
            tool.rending_row == 0,
    {
        TableTool { tbl_cfg, rending_column: 0, rending_row: 0 }
    }

    /// The width of a line of the table.
    pub fn table_width(&self) -> (width: usize)
        requires
            self@.table_width() <= usize::MAX,
        ensures
            width == self@.table_width(),
            width == 1 + span_sum(self@.columns),
    {
        self.try_table_width().unwrap()
    }

    /// The width of a line of the table, or `None` where it is more than a `usize` holds.
    pub fn try_table_width(&self) -> (width: Option<usize>)
        ensures
            width == (if self@.table_width() <= usize::MAX {
                Some(self@.table_width() as usize)
            } else {
                None
            }),
    {
        let mut width: usize = 1;
        let mut i: usize = 0;
        let n = self.tbl_cfg.columns.len();
        assert(self@.columns.subrange(0, 0) =~= Seq::<ColumnSpec>::empty());
        while i < n
            invariant
                i <= n,
                n == self.tbl_cfg.columns@.len(),
                n == self@.columns.len(),
                width == 1 + span_sum(self@.columns.subrange(0, i as int)),
            decreases n - i,
        {
            let column = &self.tbl_cfg.columns[i];
            proof {
                let next = self@.columns.subrange(0, i + 1);
                assert(next.drop_last() =~= self@.columns.subrange(0, i as int));
                assert(next.last() == column@);
                lemma_span_sum_prefix(self@.columns, i + 1);
            }
            let span = if column.ty == ColumnType::LineNum {
                Some(column.width)
            } else {
                column.width.checked_add(TABLE_CELL_MARGIN * 2 + 1)
            };
            let next = match span {
                Some(span) => width.checked_add(span),
                None => None,
            };
            match next {
                Some(next) => {
                    width = next;
                },
                None => {
                    return None;
                },
            }
            i += 1;
        }
        assert(self@.columns.subrange(0, n as int) =~= self@.columns);
        Some(width)
    }

    /// The character of a place of the frame, as a text of one character.
    pub fn char_at_tblpos(pos: TablePos) -> (s: &'static str)
        ensures
            s@ == seq![glyph(pos)],
    {
        glyph_str(pos)
    }

    /// The part that the column at `column_idx` plays in the frame.
    fn column_type_at(&self, column_idx: usize) -> (ty: ColumnType)
        requires
            column_idx < self@.columns.len(),
        ensures
            ty == self@.position_type(column_idx as int),
    {
        if column_idx == 0 {
            if self.tbl_cfg.has_linenum {
                ColumnType::LineNum
            } else {
                ColumnType::First
            }
        } else if column_idx == 1 && self.tbl_cfg.has_linenum {
            ColumnType::First
        } else if column_idx < self.tbl_cfg.columns.len() - 1 {
            ColumnType::Middle
        } else {
            ColumnType::Last
        }
    }

    /// Renders one cell, with the cut rule or without it.
    pub fn fmt_cell_with(&self, tbl_grp: TblGrp, column_idx: usize, cell_txt: &str, mark: bool) -> (out:
        String)
        requires
            tbl_grp.is_line(),
            column_idx < self@.columns.len(),
        ensures
            out@ == self@.cell_with(tbl_grp, column_idx as int, cell_txt@, mark),
    {
        let col_type = self.column_type_at(column_idx);
        let (left_border, right_border, left_margin, table_margin) = cell_patterns(
            tbl_grp,
            col_type,
        );
        proof {
            lemma_line_patterns_defined(tbl_grp, col_type);
        }
        let column_cfg = &self.tbl_cfg.columns[column_idx];
        assert(column_cfg@ == self@.columns[column_idx as int]);
        let col_width = column_cfg.width;

        let cut = mark && col_type != ColumnType::LineNum && cell_txt.unicode_len() >= col_width;
        let shown = if cut {
            take_chars(cell_txt, col_width)
        } else {
            cell_txt
        };
        let right_margin = if cut {
            cut_mark_str()
        } else {
            table_margin
        };

        let need_fill_border = tbl_grp == TblGrp::HeadTop || tbl_grp == TblGrp::BodySep || tbl_grp
            == TblGrp::BodyBtm;
        let blank = glyph_str(TablePos::InnerMargin);
        let content = if need_fill_border {
            fill_str(left_margin, col_width)
        } else if col_type == ColumnType::LineNum {
            if shown.unicode_len() == 0 {
                fill_str(blank, col_width)
            } else {
                proof {
                    reveal_strlit("0");
                }
                pad_start(shown, col_width, "0")
            }
        } else {
            match column_cfg.align {
                ColumnAlign::Left => pad_end(shown, col_width, blank),
                ColumnAlign::Center => pad_both(shown, col_width, blank),
                ColumnAlign::Right => pad_start(shown, col_width, blank),
            }
        };
        assert(content@ == cell_content(tbl_grp, col_type, column_cfg@, shown@));

        let mut out = String::from_str(left_border);
        out.append(left_margin);
        out.append(content.as_str());
        out.append(right_margin);
        out.append(right_border);
        out
    }

    /// Renders one cell of a single line. A text that is too long for a data column is
    /// cut to the column's width and marked with `~` in the right margin.
    pub fn fmt_cell(&self, tbl_grp: TblGrp, column_idx: usize, cell_txt: &str) -> (out: String)
        requires
            tbl_grp.is_line(),
            column_idx < self@.columns.len(),
        ensures
            out@ == self@.cell(tbl_grp, column_idx as int, cell_txt@),
    {
        self.fmt_cell_with(tbl_grp, column_idx, cell_txt, true)
    }

    /// Renders a row of texts as one line, a cell for every column.
    pub fn fmt_body_line(&self, tbl_grp: TblGrp, all_cells: Vec<&str>) -> (out: String)
        requires
            all_cells@.len() == self@.columns.len(),
            tbl_grp == TblGrp::BodyLine || tbl_grp == TblGrp::HeadLine || tbl_grp
                == TblGrp::Summary,
        ensures
            out@ == self@.row(tbl_grp, cell_texts(all_cells@)),
    {
        let n = self.tbl_cfg.columns.len();
        let mut line_render = String::new();
        let mut idx: usize = 0;
        while idx < n
            invariant
                idx <= n,
                n == self@.columns.len(),
                n == all_cells@.len(),
                tbl_grp.is_line(),
                line_render@ == self@.row_prefix(
                    tbl_grp,
                    cell_texts(all_cells@),
                    true,
                    idx as nat,
                ),
            decreases n - idx,
        {
            let line = self.fmt_cell(tbl_grp, idx, all_cells[idx]);
            line_render.append(line.as_str());
            idx += 1;
        }
        line_render
    }

    /// Renders a line of the frame: the top rule, the header line with the titles, the
    /// rule between rows, or the bottom rule.
    pub fn fmt_buildin_line(&self, tbl_grp: TblGrp) -> (out: String)
        requires
            tbl_grp == TblGrp::HeadTop || tbl_grp == TblGrp::HeadLine || tbl_grp
                == TblGrp::BodySep || tbl_grp == TblGrp::BodyBtm,
        ensures
            out@ == self@.row(tbl_grp, self@.builtin_cells(tbl_grp)),
    {
        let n = self.tbl_cfg.columns.len();
        let empty = no_glyph();
        let mut line_render = String::new();
        let mut idx: usize = 0;
        while idx < n
            invariant
                idx <= n,
                n == self@.columns.len(),
                tbl_grp.is_line(),
                empty@ == Seq::<char>::empty(),
                line_render@ == self@.row_prefix(
                    tbl_grp,
                    self@.builtin_cells(tbl_grp),
                    true,
                    idx as nat,
                ),
            decreases n - idx,
        {
            let line = if tbl_grp == TblGrp::HeadLine {
                self.fmt_cell(tbl_grp, idx, self.tbl_cfg.columns[idx].title.as_str())
            } else {
                self.fmt_cell(tbl_grp, idx, empty)
            };
            line_render.append(line.as_str());
            idx += 1;
        }
        line_render
    }
}

} // verus!
