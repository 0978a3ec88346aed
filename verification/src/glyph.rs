//! The line-drawing characters of a table, and which of them frame a cell.
//!
//! ```text
//! ┌───┬───┐   HeadTop
//! │ x │ x │   HeadLine
//! ├───┼───┤   BodySep
//! │█x │█x │   BodyLine
//! └───┴───┘   BodyBtm
//! ```
//!
//! A cell is written as left border, left margin, content, right margin, right border.
//! Only the first data column draws a left border; every data column draws the border
//! to its right. The column of row numbers draws no border at all.

use vstd::prelude::*;
use vstd::string::*;

verus! {

/// A place in the frame of a table; each has one character.
#[derive(Clone, Copy, Debug, PartialEq, Eq, Structural)]
pub enum TablePos {
    CornerLeftTop,
    CornerRightTop,
    CornerLeftBottom,
    CornerRightBottom,
    SepBdrLeft,
    SepBdrRight,
    SepBdrTop,
    SepBdrBottom,
    BorderLeft,
    BorderRight,
    BorderTop,
    BorderBottom,
    InnerVert,
    InnerHori,
    InnerCross,
    InnerMark,
    InnerMargin,
}

/// A family of frame characters (the first four) or a kind of table line (the other six).
/// Only the six kinds of line can be rendered.
#[derive(Clone, Copy, Debug, PartialEq, Eq, Structural)]
pub enum TblGrp {
    Corner,
    SepBorder,
    Border,
    Inner,
    HeadTop,
    HeadLine,
    BodySep,
    BodyLine,
    BodyBtm,
    Summary,
}

/// How a text sits in a column that is wider than the text.
#[derive(Clone, Copy, Debug, PartialEq, Eq, Structural)]
pub enum ColumnAlign {
    Left,
    Center,
    Right,
}

/// The part a column plays in the frame.
#[derive(Clone, Copy, Debug, PartialEq, Eq, Structural)]
pub enum ColumnType {
    LineNum,
    First,
    Middle,
    Last,
}

impl Default for ColumnAlign {
    fn default() -> (r: ColumnAlign)
        ensures
            r == ColumnAlign::Left,
    {
        ColumnAlign::Left
    }
}

impl Default for ColumnType {
    fn default() -> (r: ColumnType)
        ensures
            r == ColumnType::Middle,
    {
        ColumnType::Middle
    }
}

/// The marker that replaces the right margin of a cell whose text was cut.
pub open spec fn cut_mark() -> char {
    '~'
}

/// The character drawn at a place of the frame.
pub open spec fn glyph(pos: TablePos) -> char {
    match pos {
        TablePos::CornerLeftTop => '┌',
        TablePos::CornerRightTop => '┐',
        TablePos::CornerLeftBottom => '└',
        TablePos::CornerRightBottom => '┘',
        TablePos::SepBdrLeft => '├',
        TablePos::SepBdrRight => '┤',
        TablePos::SepBdrTop => '┬',
        TablePos::SepBdrBottom => '┴',
        TablePos::BorderLeft => '│',
        TablePos::BorderRight => '│',
        TablePos::BorderTop => '─',
        TablePos::BorderBottom => '─',
        TablePos::InnerVert => '│',
        TablePos::InnerHori => '─',
        TablePos::InnerCross => '┼',
        TablePos::InnerMark => '█',
        TablePos::InnerMargin => ' ',
    }
}

/// What frames one cell: each border is empty or one character, each margin one character.
pub struct CellPattern {
    pub left_border: Seq<char>,
    pub right_border: Seq<char>,
    pub left_margin: Seq<char>,
    pub right_margin: Seq<char>,
}

impl TblGrp {
    /// The six kinds of line that can be rendered.
    pub open spec fn is_line(self) -> bool {
        self == TblGrp::HeadTop || self == TblGrp::HeadLine || self == TblGrp::BodySep || self
            == TblGrp::BodyLine || self == TblGrp::BodyBtm || self == TblGrp::Summary
    }

    /// The lines that are frame only: their cells show no text.
    pub open spec fn is_rule(self) -> bool {
        self == TblGrp::HeadTop || self == TblGrp::BodySep || self == TblGrp::BodyBtm
    }

    /// The glyph at the left edge of the table on a line of this kind.
    pub open spec fn left_edge(self) -> TablePos {
        match self {
            TblGrp::HeadTop => TablePos::CornerLeftTop,
            TblGrp::BodySep => TablePos::SepBdrLeft,
            TblGrp::BodyBtm => TablePos::CornerLeftBottom,
            TblGrp::Summary => TablePos::InnerMargin,
            _ => TablePos::BorderLeft,
        }
    }

    /// The glyph between two data columns on a line of this kind.
    pub open spec fn inner_edge(self) -> TablePos {
        match self {
            TblGrp::HeadTop => TablePos::SepBdrTop,
            TblGrp::BodySep => TablePos::InnerCross,
            TblGrp::BodyBtm => TablePos::SepBdrBottom,
            TblGrp::Summary => TablePos::InnerMargin,
            _ => TablePos::InnerVert,
        }
    }

    /// The glyph at the right edge of the table on a line of this kind.
    pub open spec fn right_edge(self) -> TablePos {
        match self {
            TblGrp::HeadTop => TablePos::CornerRightTop,
            TblGrp::BodySep => TablePos::SepBdrRight,
            TblGrp::BodyBtm => TablePos::CornerRightBottom,
            TblGrp::Summary => TablePos::InnerMargin,
            _ => TablePos::BorderRight,
        }
    }

    /// The glyph in the left margin of a data cell. On a rule it is the line itself, and it
    /// also fills the cell; on a body line it is the mark that opens the cell.
    pub open spec fn left_pad(self) -> TablePos {
        match self {
            TblGrp::HeadTop => TablePos::BorderTop,
            TblGrp::BodySep => TablePos::InnerHori,
            TblGrp::BodyLine => TablePos::InnerMark,
            TblGrp::BodyBtm => TablePos::BorderBottom,
            _ => TablePos::InnerMargin,
        }
    }

    /// The glyph in the right margin of a data cell.
    pub open spec fn right_pad(self) -> TablePos {
        match self {
            TblGrp::HeadTop => TablePos::BorderTop,
            TblGrp::BodySep => TablePos::InnerHori,
            TblGrp::BodyBtm => TablePos::BorderBottom,
            _ => TablePos::InnerMargin,
        }
    }
}

/// The frame of a cell of a column of type `ty` on a line of kind `grp`.
/// A group that is no kind of line has no frame at all.
pub open spec fn cell_pattern(grp: TblGrp, ty: ColumnType) -> CellPattern {
    if !grp.is_line() {
        CellPattern {
            left_border: Seq::empty(),
            right_border: Seq::empty(),
            left_margin: Seq::empty(),
            right_margin: Seq::empty(),
        }
    } else {
        match ty {
            ColumnType::LineNum => CellPattern {
                left_border: Seq::empty(),
                right_border: Seq::empty(),
                left_margin: seq![glyph(TablePos::InnerMargin)],
                right_margin: seq![glyph(TablePos::InnerMargin)],
            },
            ColumnType::First => CellPattern {
                left_border: seq![glyph(grp.left_edge())],
                right_border: seq![glyph(grp.inner_edge())],
                left_margin: seq![glyph(grp.left_pad())],
                right_margin: seq![glyph(grp.right_pad())],
            },
            ColumnType::Middle => CellPattern {
                left_border: Seq::empty(),
                right_border: seq![glyph(grp.inner_edge())],
                left_margin: seq![glyph(grp.left_pad())],
                right_margin: seq![glyph(grp.right_pad())],
            },
            ColumnType::Last => CellPattern {
                left_border: Seq::empty(),
                right_border: seq![glyph(grp.right_edge())],
                left_margin: seq![glyph(grp.left_pad())],
                right_margin: seq![glyph(grp.right_pad())],
            },
        }
    }
}

/// Every kind of line has a frame for every type of column: both margins are one
/// character wide, each border at most one, and the cut marker is no frame character.
pub proof fn lemma_line_patterns_defined(grp: TblGrp, ty: ColumnType)
    requires
        grp.is_line(),
    ensures
        cell_pattern(grp, ty).left_margin.len() == 1,
        cell_pattern(grp, ty).right_margin.len() == 1,
        cell_pattern(grp, ty).left_border.len() == (if ty == ColumnType::First {
            1nat
        } else {
            0nat
        }),
        cell_pattern(grp, ty).right_border.len() == (if ty == ColumnType::LineNum {
            0nat
        } else {
            1nat
        }),
        cell_pattern(grp, ty).right_margin[0] != cut_mark(),
{
}

/// The text of the empty frame slot.
pub fn no_glyph() -> (s: &'static str)
    ensures
        s@ == Seq::<char>::empty(),
{
    proof {
        reveal_strlit("");
    }
    assert(""@ =~= Seq::<char>::empty());
    ""
}

/// The text of the cut marker.
pub fn cut_mark_str() -> (s: &'static str)
    ensures
        s@ == seq![cut_mark()],
{
    proof {
        reveal_strlit("~");
    }
    assert("~"@ =~= seq!['~']);
    "~"
}

/// The character of a place of the frame, as a text of one character.
pub fn glyph_str(pos: TablePos) -> (s: &'static str)
    ensures
        s@ == seq![glyph(pos)],
{
    proof {
        reveal_strlit("┌");
        reveal_strlit("┐");
        reveal_strlit("└");
        reveal_strlit("┘");
        reveal_strlit("├");
        reveal_strlit("┤");
        reveal_strlit("┬");
        reveal_strlit("┴");
        reveal_strlit("│");
        reveal_strlit("─");
        reveal_strlit("┼");
        reveal_strlit("█");
        reveal_strlit(" ");
    }
    let s = match pos {
        TablePos::CornerLeftTop => "┌",
        TablePos::CornerRightTop => "┐",
        TablePos::CornerLeftBottom => "└",
        TablePos::CornerRightBottom => "┘",
        TablePos::SepBdrLeft => "├",
        TablePos::SepBdrRight => "┤",
        TablePos::SepBdrTop => "┬",
        TablePos::SepBdrBottom => "┴",
        TablePos::BorderLeft => "│",
        TablePos::BorderRight => "│",
        TablePos::BorderTop => "─",
        TablePos::BorderBottom => "─",
        TablePos::InnerVert => "│",
        TablePos::InnerHori => "─",
        TablePos::InnerCross => "┼",
        TablePos::InnerMark => "█",
        TablePos::InnerMargin => " ",
    };
    assert(s@ =~= seq![glyph(pos)]);
    s
}

/// Looks up the frame of a cell: left border, right border, left margin, right margin.
pub fn cell_patterns(pos_group: TblGrp, column_type: ColumnType) -> (p: (
    &'static str,
    &'static str,
    &'static str,
    &'static str,
))
    ensures
        p.0@ == cell_pattern(pos_group, column_type).left_border,
        p.1@ == cell_pattern(pos_group, column_type).right_border,
        p.2@ == cell_pattern(pos_group, column_type).left_margin,
        p.3@ == cell_pattern(pos_group, column_type).right_margin,
{
    let none = no_glyph();
    let cm = glyph_str(TablePos::InnerMargin);
    match (pos_group, column_type) {
        (TblGrp::HeadTop, ColumnType::LineNum) => (none, none, cm, cm),
        (TblGrp::HeadTop, ColumnType::First) => (
            glyph_str(TablePos::CornerLeftTop),
            glyph_str(TablePos::SepBdrTop),
            glyph_str(TablePos::BorderTop),
            glyph_str(TablePos::BorderTop),
        ),
        (TblGrp::HeadTop, ColumnType::Middle) => (
            none,
            glyph_str(TablePos::SepBdrTop),
            glyph_str(TablePos::BorderTop),
            glyph_str(TablePos::BorderTop),
        ),
        (TblGrp::HeadTop, ColumnType::Last) => (
            none,
            glyph_str(TablePos::CornerRightTop),
            glyph_str(TablePos::BorderTop),
            glyph_str(TablePos::BorderTop),
        ),
        (TblGrp::HeadLine, ColumnType::LineNum) => (none, none, cm, cm),
        (TblGrp::HeadLine, ColumnType::First) => (
            glyph_str(TablePos::BorderLeft),
            glyph_str(TablePos::InnerVert),
            cm,
            cm,
        ),
        (TblGrp::HeadLine, ColumnType::Middle) => (none, glyph_str(TablePos::InnerVert), cm, cm),
        (TblGrp::HeadLine, ColumnType::Last) => (none, glyph_str(TablePos::BorderRight), cm, cm),
        (TblGrp::BodySep, ColumnType::LineNum) => (none, none, cm, cm),
        (TblGrp::BodySep, ColumnType::First) => (
            glyph_str(TablePos::SepBdrLeft),
            glyph_str(TablePos::InnerCross),
            glyph_str(TablePos::InnerHori),
            glyph_str(TablePos::InnerHori),
        ),
        (TblGrp::BodySep, ColumnType::Middle) => (
            none,
            glyph_str(TablePos::InnerCross),
            glyph_str(TablePos::InnerHori),
            glyph_str(TablePos::InnerHori),
        ),
        (TblGrp::BodySep, ColumnType::Last) => (
            none,
            glyph_str(TablePos::SepBdrRight),
            glyph_str(TablePos::InnerHori),
            glyph_str(TablePos::InnerHori),
        ),
        (TblGrp::BodyLine, ColumnType::LineNum) => (none, none, cm, cm),
        (TblGrp::BodyLine, ColumnType::First) => (
            glyph_str(TablePos::BorderLeft),
            glyph_str(TablePos::InnerVert),
            glyph_str(TablePos::InnerMark),
            cm,
        ),
        (TblGrp::BodyLine, ColumnType::Middle) => (
            none,
            glyph_str(TablePos::InnerVert),
            glyph_str(TablePos::InnerMark),
            cm,
        ),
        (TblGrp::BodyLine, ColumnType::Last) => (
            none,
            glyph_str(TablePos::BorderRight),
            glyph_str(TablePos::InnerMark),
            cm,
        ),
        (TblGrp::BodyBtm, ColumnType::LineNum) => (none, none, cm, cm),
        (TblGrp::BodyBtm, ColumnType::First) => (
            glyph_str(TablePos::CornerLeftBottom),
            glyph_str(TablePos::SepBdrBottom),
            glyph_str(TablePos::BorderBottom),
            glyph_str(TablePos::BorderBottom),
        ),
        (TblGrp::BodyBtm, ColumnType::Middle) => (
            none,
            glyph_str(TablePos::SepBdrBottom),
            glyph_str(TablePos::BorderBottom),
            glyph_str(TablePos::BorderBottom),
        ),
        (TblGrp::BodyBtm, ColumnType::Last) => (
            none,
            glyph_str(TablePos::CornerRightBottom),
            glyph_str(TablePos::BorderBottom),
            glyph_str(TablePos::BorderBottom),
        ),
        (TblGrp::Summary, ColumnType::LineNum) => (none, none, cm, cm),
        (TblGrp::Summary, ColumnType::First) => (cm, cm, cm, cm),
        (TblGrp::Summary, ColumnType::Middle) => (none, cm, cm, cm),
        (TblGrp::Summary, ColumnType::Last) => (none, cm, cm, cm),
        (_, _) => (none, none, none, none),
    }
}

} // verus!
