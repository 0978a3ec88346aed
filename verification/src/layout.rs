//! The column layout of a table: built column by column, then sealed.

use crate::glyph::{ColumnAlign, ColumnType};
use crate::text::{
    begins_with_space, ends_with_space, finishes_with_space, starts_with_space, trim, trim_seq,
};
use vstd::prelude::*;
use vstd::string::*;

verus! {

/// The width of each of the two margins of a cell, in characters.
pub const TABLE_CELL_MARGIN: usize = 1;

/// The width of the column of row numbers.
pub const LINE_NUMBER_WIDTH: usize = 2;

/// One column: the width of its content, its title, how its text is aligned, and its
/// part in the frame.
pub struct TableColumnConfig {
    pub width: usize,
    pub title: String,
    pub align: ColumnAlign,
    pub ty: ColumnType,
}

/// The columns of a table in order, and whether the first of them numbers the rows.
pub struct TableConfig {
    pub columns: Vec<TableColumnConfig>,
    pub has_linenum: bool,
}

/// What a column is, with its title as a sequence of characters.
pub struct ColumnSpec {
    pub width: nat,
    pub title: Seq<char>,
    pub align: ColumnAlign,
    pub ty: ColumnType,
}

/// What a layout is: its columns and the flag for the column of row numbers.
pub struct LayoutSpec {
    pub columns: Seq<ColumnSpec>,
    pub has_linenum: bool,
}

impl View for TableColumnConfig {
    type V = ColumnSpec;

    open spec fn view(&self) -> ColumnSpec {
        ColumnSpec { width: self.width as nat, title: self.title@, align: self.align, ty: self.ty }
    }
}

impl View for TableConfig {
    type V = LayoutSpec;

    open spec fn view(&self) -> LayoutSpec {
        LayoutSpec {
            columns: self.columns@.map_values(|c: TableColumnConfig| c@),
            has_linenum: self.has_linenum,
        }
    }
}

/// The alignment that a column description asks for: a space at both ends centres,
/// a space in front only aligns right, anything else aligns left. A description of
/// white space only has nothing to align and counts as left-aligned.
pub open spec fn inferred_align(desc: Seq<char>) -> ColumnAlign {
    if trim_seq(desc).len() == 0 {
        ColumnAlign::Left
    } else if starts_with_space(desc) && ends_with_space(desc) {
        ColumnAlign::Center
    } else if starts_with_space(desc) {
        ColumnAlign::Right
    } else {
        ColumnAlign::Left
    }
}

/// The column of row numbers that sealing puts in front.
pub open spec fn line_number_column() -> ColumnSpec {
    ColumnSpec {
        width: LINE_NUMBER_WIDTH as nat,
        title: seq!['N', 'o'],
        align: ColumnAlign::Left,
        ty: ColumnType::LineNum,
    }
}

/// The characters that a column takes in a line of the table: its content alone for
/// the column of row numbers, else content, two margins and the border to its right.
pub open spec fn column_span(c: ColumnSpec) -> nat {
    if c.ty == ColumnType::LineNum {
        c.width
    } else {
        c.width + 2 * TABLE_CELL_MARGIN as nat + 1
    }
}

/// The sum of the spans of `cols`.
pub open spec fn span_sum(cols: Seq<ColumnSpec>) -> nat
    decreases cols.len(),
{
    if cols.len() == 0 {
        0
    } else {
        span_sum(cols.drop_last()) + column_span(cols.last())
    }
}

impl LayoutSpec {
    /// The layout with one more column at its end. The first column appended is the
    /// first of the frame, each later one a middle column until the layout is sealed.
    pub open spec fn with_column(self, width: nat, title: Seq<char>, align: ColumnAlign) -> LayoutSpec {
        LayoutSpec {
            columns: self.columns.push(
                ColumnSpec {
                    width,
                    title,
                    align,
                    ty: if self.columns.len() == 0 {
                        ColumnType::First
                    } else {
                        ColumnType::Middle
                    },
                },
            ),
            has_linenum: self.has_linenum,
        }
    }

    /// The layout after sealing: its last column closes the frame, and the column of row
    /// numbers stands in front where it was asked for.
    pub open spec fn seal(self, with_line_num: bool) -> LayoutSpec
        recommends
            self.columns.len() > 0,
    {
        let last = self.columns.len() - 1;
        let closed = self.columns.update(
            last,
            ColumnSpec { ty: ColumnType::Last, ..self.columns[last] },
        );
        LayoutSpec {
            columns: if with_line_num {
                seq![line_number_column()] + closed
            } else {
                closed
            },
            has_linenum: with_line_num,
        }
    }

    /// The index of the first data column.
    pub open spec fn data_start(self) -> int {
        if self.has_linenum {
            1
        } else {
            0
        }
    }

    /// A layout under construction: no column of row numbers, every width positive, the
    /// first column marked first and the others middle.
    pub open spec fn is_open(self) -> bool {
        &&& !self.has_linenum
        &&& forall|i: int|
            0 <= i < self.columns.len() ==> (#[trigger] self.columns[i]).width > 0
                && self.columns[i].ty == (if i == 0 {
                ColumnType::First
            } else {
                ColumnType::Middle
            })
    }

    /// A sealed layout: at least one data column, every data column of positive width,
    /// the last one marked last, the first of several marked first, the others middle;
    /// and, where rows are numbered, the column of row numbers in front.
    pub open spec fn is_sealed(self) -> bool {
        &&& self.columns.len() > self.data_start()
        &&& self.has_linenum ==> self.columns[0] == line_number_column()
        &&& forall|i: int|
            self.data_start() <= i < self.columns.len() ==> (#[trigger] self.columns[i]).width > 0
                && self.columns[i].ty == (if i == self.columns.len() - 1 {
                ColumnType::Last
            } else if i == self.data_start() {
                ColumnType::First
            } else {
                ColumnType::Middle
            })
    }

    /// Every column has a positive width.
    pub open spec fn widths_positive(self) -> bool {
        forall|i: int| 0 <= i < self.columns.len() ==> (#[trigger] self.columns[i]).width > 0
    }

    /// The width of a line of the table: the left border, then the span of each column.
    pub open spec fn table_width(self) -> nat {
        1 + span_sum(self.columns)
    }
}

/// Sealing a layout under construction that has a column gives a sealed layout.
pub proof fn lemma_seal_is_sealed(layout: LayoutSpec, with_line_num: bool)
    requires
        layout.is_open(),
        layout.columns.len() > 0,
    ensures
        layout.seal(with_line_num).is_sealed(),
        layout.seal(with_line_num).widths_positive(),
{
    let sealed = layout.seal(with_line_num);
    let k = sealed.data_start();
    assert forall|i: int| k <= i < sealed.columns.len() implies (#[trigger] sealed.columns[i]).width
        > 0 && sealed.columns[i].ty == (if i == sealed.columns.len() - 1 {
        ColumnType::Last
    } else if i == k {
        ColumnType::First
    } else {
        ColumnType::Middle
    }) by {
        assert(layout.columns[i - k].width > 0);
    }
}

/// The spans of the first `n` columns sum to no more than those of all columns.
pub proof fn lemma_span_sum_prefix(cols: Seq<ColumnSpec>, n: int)
    requires
        0 <= n <= cols.len(),
    ensures
        span_sum(cols.subrange(0, n)) <= span_sum(cols),
    decreases cols.len() - n,
{
    if n == cols.len() {
        assert(cols.subrange(0, n) =~= cols);
    } else {
        lemma_span_sum_prefix(cols.drop_last(), n);
        assert(cols.drop_last().subrange(0, n) =~= cols.subrange(0, n));
    }
}

impl TableConfig {
    /// Starts a layout: no column yet, rows not numbered.
    pub fn start_build() -> (cfg: TableConfig)
        ensures
            cfg@.columns.len() == 0,
            !cfg@.has_linenum,
            cfg@.is_open(),
    {
        let cfg = TableConfig { columns: Vec::new(), has_linenum: false };
        assert(cfg@.columns =~= Seq::<ColumnSpec>::empty());
        cfg
    }

    /// Appends a column of the given width, title and alignment.
    pub fn new_column(&mut self, width: usize, title: &str, align: ColumnAlign)
        requires
            width > 0,
        ensures
            final(self)@ == old(self)@.with_column(width as nat, title@, align),
            old(self)@.is_open() ==> final(self)@.is_open(),
    {
        let ty = if self.columns.len() == 0 {
            ColumnType::First
        } else {
            ColumnType::Middle
        };
        let column_cfg = TableColumnConfig { width, title: String::from_str(title), align, ty };
        self.columns.push(column_cfg);
        assert(self@.columns =~= old(self)@.with_column(width as nat, title@, align).columns);
    }

    /// Appends a column described by one text: the column is as wide as the text has
    /// characters, its title is the text without the white space around it, and its
    /// alignment follows the spaces at the ends of the text (see `inferred_align`).
    /// A text of white space only is accepted: it gives a column as wide as the text,
    /// without a title and aligned left. The empty text describes no column.
    pub fn auto_column(&mut self, column_autocfg: &str)
        requires
            column_autocfg@.len() > 0,
        ensures
            final(self)@ == old(self)@.with_column(
                column_autocfg@.len(),
                trim_seq(column_autocfg@),
                inferred_align(column_autocfg@),
            ),
            old(self)@.is_open() ==> final(self)@.is_open(),
    {
        let title = trim(column_autocfg);
        let align = if title.unicode_len() == 0 {
            ColumnAlign::Left
        } else if begins_with_space(column_autocfg) && finishes_with_space(column_autocfg) {
            ColumnAlign::Center
        } else if begins_with_space(column_autocfg) {
            ColumnAlign::Right
        } else {
            ColumnAlign::Left
        };
        let width = column_autocfg.unicode_len();
        self.new_column(width, title, align)
    }

    /// Seals the layout: marks the last column as the one that closes the frame and,
    /// with `with_line_num`, puts the column of row numbers in front.
    pub fn build_done(&mut self, with_line_num: bool)
        requires
            old(self)@.columns.len() > 0,
        ensures
            final(self)@ == old(self)@.seal(with_line_num),
            old(self)@.is_open() ==> final(self)@.is_sealed() && final(self)@.widths_positive(),
    {
        let ghost before = self@;
        let popped = self.columns.pop();
        match popped {
            Some(mut last_column) => {
                last_column.ty = ColumnType::Last;
                self.columns.push(last_column);
            },
            None => {},
        }
        self.has_linenum = with_line_num;
        if with_line_num {
            proof {
                reveal_strlit("No");
            }
            let title = String::from_str("No");
            assert(title@ =~= seq!['N', 'o']);
            self.columns.insert(
                0,
                TableColumnConfig {
                    width: LINE_NUMBER_WIDTH,
                    title,
                    align: ColumnAlign::Left,
                    ty: ColumnType::LineNum,
                },
            );
        }
        assert(self@.columns =~= before.seal(with_line_num).columns);
        proof {
            if before.is_open() {
                lemma_seal_is_sealed(before, with_line_num);
            }
        }
    }
}

} // verus!
