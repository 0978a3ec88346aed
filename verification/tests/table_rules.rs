use ccc_lib::glyph::{cell_patterns, ColumnAlign, ColumnType, TablePos, TblGrp};
use ccc_lib::layout::TableConfig;
use ccc_lib::pattern::filled_text;
use ccc_lib::render::TableTool;

const LINES: [TblGrp; 6] = [
    TblGrp::HeadTop,
    TblGrp::HeadLine,
    TblGrp::BodySep,
    TblGrp::BodyLine,
    TblGrp::BodyBtm,
    TblGrp::Summary,
];

const TYPES: [ColumnType; 4] = [
    ColumnType::LineNum,
    ColumnType::First,
    ColumnType::Middle,
    ColumnType::Last,
];

fn numbered_table() -> TableTool {
    let mut tbl_cfg = TableConfig::start_build();
    tbl_cfg.new_column(10, "First Col", ColumnAlign::Left);
    tbl_cfg.auto_column("Left Column ");
    tbl_cfg.auto_column(" Middle Column ");
    tbl_cfg.auto_column(" Right Column");
    tbl_cfg.build_done(true);
    TableTool::attach(tbl_cfg)
}

fn plain_table(widths: &[usize], align: ColumnAlign) -> TableTool {
    let mut tbl_cfg = TableConfig::start_build();
    for w in widths {
        tbl_cfg.new_column(*w, "t", align);
    }
    tbl_cfg.build_done(false);
    TableTool::attach(tbl_cfg)
}

fn len(s: &str) -> usize {
    s.chars().count()
}

#[test]
fn every_place_has_one_character() {
    let all = [
        (TablePos::CornerLeftTop, "┌"),
        (TablePos::CornerRightTop, "┐"),
        (TablePos::CornerLeftBottom, "└"),
        (TablePos::CornerRightBottom, "┘"),
        (TablePos::SepBdrLeft, "├"),
        (TablePos::SepBdrRight, "┤"),
        (TablePos::SepBdrTop, "┬"),
        (TablePos::SepBdrBottom, "┴"),
        (TablePos::BorderLeft, "│"),
        (TablePos::BorderRight, "│"),
        (TablePos::BorderTop, "─"),
        (TablePos::BorderBottom, "─"),
        (TablePos::InnerVert, "│"),
        (TablePos::InnerHori, "─"),
        (TablePos::InnerCross, "┼"),
        (TablePos::InnerMark, "█"),
        (TablePos::InnerMargin, " "),
    ];
    for (pos, glyph) in all {
        assert_eq!(TableTool::char_at_tblpos(pos), glyph);
        assert_eq!(len(TableTool::char_at_tblpos(pos)), 1);
    }
}

#[test]
fn every_line_has_a_frame_for_every_column() {
    for grp in LINES {
        for ty in TYPES {
            let (left, right, left_margin, right_margin) = cell_patterns(grp, ty);
            assert_eq!(len(left_margin), 1);
            assert_eq!(len(right_margin), 1);
            assert_eq!(len(left), if ty == ColumnType::First { 1 } else { 0 });
            assert_eq!(len(right), if ty == ColumnType::LineNum { 0 } else { 1 });
        }
    }
    assert_eq!(cell_patterns(TblGrp::HeadTop, ColumnType::First), ("┌", "┬", "─", "─"));
    assert_eq!(cell_patterns(TblGrp::HeadLine, ColumnType::Middle), ("", "│", " ", " "));
    assert_eq!(cell_patterns(TblGrp::BodySep, ColumnType::Last), ("", "┤", "─", "─"));
    assert_eq!(cell_patterns(TblGrp::BodyLine, ColumnType::First), ("│", "│", "█", " "));
    assert_eq!(cell_patterns(TblGrp::BodyBtm, ColumnType::Last), ("", "┘", "─", "─"));
    assert_eq!(cell_patterns(TblGrp::Summary, ColumnType::First), (" ", " ", " ", " "));
    assert_eq!(cell_patterns(TblGrp::Summary, ColumnType::LineNum), ("", "", " ", " "));
}

#[test]
fn groups_that_are_no_line_have_no_frame() {
    for grp in [TblGrp::Corner, TblGrp::SepBorder, TblGrp::Border, TblGrp::Inner] {
        for ty in TYPES {
            assert_eq!(cell_patterns(grp, ty), ("", "", "", ""));
        }
    }
}

#[test]
fn width_of_a_numbered_table() {
    let tb = numbered_table();
    assert_eq!(tb.table_width(), 1 + 2 + (10 + 2 + 1) + (12 + 2 + 1) + (15 + 2 + 1) + (13 + 2 + 1));
    assert_eq!(tb.table_width(), 65);
    assert_eq!(tb.try_table_width(), Some(65));
    assert_eq!(tb.fmt_cell(TblGrp::HeadTop, 1, "xx"), "┌────────────┬");
    assert_eq!(tb.fmt_cell(TblGrp::BodyLine, 2, "x"), "█x            │");
}

#[test]
fn width_beyond_the_machine() {
    let tb = plain_table(&[usize::MAX - 3], ColumnAlign::Left);
    assert_eq!(tb.try_table_width(), None);
    let tb = plain_table(&[usize::MAX - 4], ColumnAlign::Left);
    assert_eq!(tb.try_table_width(), Some(usize::MAX));
    assert_eq!(tb.table_width(), usize::MAX);
    let tb = plain_table(&[usize::MAX / 2, usize::MAX / 2], ColumnAlign::Left);
    assert_eq!(tb.try_table_width(), None);
}

#[test]
fn long_text_is_cut_and_marked() {
    let tb = numbered_table();
    let text = "a_40_character_string_0123456789_0123456";
    assert_eq!(len(text), 40);
    let cell = tb.fmt_cell(TblGrp::BodyLine, 2, text);
    assert_eq!(cell, "█a_40_charact~│");
    let exact = tb.fmt_cell(TblGrp::BodyLine, 2, "123456789012");
    assert_eq!(exact, "█123456789012~│");
    let below = tb.fmt_cell(TblGrp::BodyLine, 2, "12345678901");
    assert_eq!(below, "█12345678901  │");
    assert_eq!(tb.fmt_cell(TblGrp::Summary, 4, "1234567890123456"), " 1234567890123~ ");
}

#[test]
fn short_text_fills_the_cell() {
    let tb = numbered_table();
    let borders = [0, 2, 1, 1, 1];
    for grp in LINES {
        for idx in 0..5 {
            let width = tb.tbl_cfg.columns[idx].width;
            for text in ["", "x"] {
                let cell = tb.fmt_cell(grp, idx, text);
                assert_eq!(len(&cell), width + 2 + borders[idx]);
                assert!(!cell.contains('~'));
                let shows_text =
                    grp == TblGrp::HeadLine || grp == TblGrp::BodyLine || grp == TblGrp::Summary;
                assert_eq!(cell.contains('x'), shows_text && text == "x");
            }
        }
    }
}

#[test]
fn a_rule_shows_no_text() {
    let tb = numbered_table();
    for grp in [TblGrp::HeadTop, TblGrp::BodySep, TblGrp::BodyBtm] {
        for idx in 0..5 {
            assert_eq!(tb.fmt_cell(grp, idx, "some"), tb.fmt_cell(grp, idx, ""));
        }
        assert_eq!(
            tb.fmt_cell(grp, 0, "longer than two"),
            tb.fmt_cell(grp, 0, "")
        );
    }
    assert_eq!(tb.fmt_cell(TblGrp::HeadTop, 1, "xxxxxxxxxxxx"), "┌───────────~┬");
    assert_eq!(tb.fmt_cell(TblGrp::HeadTop, 1, "yyyyyyyyyy"), "┌───────────~┬");
}

#[test]
fn row_numbers_are_never_cut() {
    let tb = numbered_table();
    assert_eq!(tb.fmt_cell(TblGrp::BodyLine, 0, ""), "    ");
    assert_eq!(tb.fmt_cell(TblGrp::BodyLine, 0, "7"), " 07 ");
    assert_eq!(tb.fmt_cell(TblGrp::BodyLine, 0, "42"), " 42 ");
    assert_eq!(tb.fmt_cell(TblGrp::BodyLine, 0, "123"), " 123 ");
    assert_eq!(tb.fmt_cell(TblGrp::Summary, 0, "--"), " -- ");
}

#[test]
fn centring_puts_the_odd_space_on_the_right() {
    let tb = plain_table(&[5, 6, 3], ColumnAlign::Center);
    assert_eq!(tb.fmt_cell(TblGrp::HeadLine, 0, "ab"), "│  ab   │");
    assert_eq!(tb.fmt_cell(TblGrp::HeadLine, 1, "ab"), "   ab   │");
    assert_eq!(tb.fmt_cell(TblGrp::HeadLine, 2, "ab"), " ab  │");
    assert_eq!(tb.fmt_cell(TblGrp::HeadLine, 2, ""), "     │");
}

#[test]
fn alignment_left_and_right() {
    let tb = plain_table(&[4, 4], ColumnAlign::Right);
    assert_eq!(tb.fmt_cell(TblGrp::BodyLine, 1, "ab"), "█  ab │");
    let tb = plain_table(&[4, 4], ColumnAlign::Left);
    assert_eq!(tb.fmt_cell(TblGrp::BodyLine, 1, "ab"), "█ab   │");
}

#[test]
fn lengths_are_counted_in_characters() {
    let tb = plain_table(&[3, 3], ColumnAlign::Left);
    assert_eq!(tb.fmt_cell(TblGrp::HeadLine, 1, "éü"), " éü  │");
    assert_eq!(tb.fmt_cell(TblGrp::HeadLine, 1, "日本語"), " 日本語~│");
    assert_eq!(tb.fmt_cell(TblGrp::HeadLine, 1, "日本語だ"), " 日本語~│");
    let mut tbl_cfg = TableConfig::start_build();
    tbl_cfg.auto_column(" é ");
    tbl_cfg.build_done(false);
    assert_eq!(tbl_cfg.columns[0].width, 3);
    assert_eq!(tbl_cfg.columns[0].title, "é");
}

#[test]
fn a_single_column_is_the_first_column() {
    let tb = plain_table(&[3], ColumnAlign::Left);
    assert_eq!(tb.tbl_cfg.columns[0].ty, ColumnType::Last);
    assert_eq!(tb.fmt_buildin_line(TblGrp::HeadTop), "┌─────┬");
    assert_eq!(tb.fmt_buildin_line(TblGrp::HeadLine), "│ t   │");
    assert_eq!(tb.table_width(), 7);

    let mut tbl_cfg = TableConfig::start_build();
    tbl_cfg.new_column(3, "t", ColumnAlign::Left);
    tbl_cfg.build_done(true);
    let tb = TableTool::attach(tbl_cfg);
    assert_eq!(tb.tbl_cfg.columns[0].ty, ColumnType::LineNum);
    assert_eq!(tb.tbl_cfg.columns[0].title, "No");
    assert_eq!(tb.tbl_cfg.columns[0].align, ColumnAlign::Left);
    assert_eq!(tb.tbl_cfg.columns[1].ty, ColumnType::Last);
    assert!(tb.tbl_cfg.has_linenum);
    assert_eq!(tb.fmt_buildin_line(TblGrp::BodyBtm), "    └─────┴");
    assert_eq!(tb.table_width(), 9);
}

#[test]
fn columns_described_by_a_text() {
    let mut tbl_cfg = TableConfig::start_build();
    tbl_cfg.auto_column("   ");
    tbl_cfg.auto_column(" ");
    tbl_cfg.auto_column("x");
    tbl_cfg.auto_column(" x");
    tbl_cfg.auto_column("x ");
    tbl_cfg.auto_column(" x ");
    tbl_cfg.auto_column("\tx\t");
    tbl_cfg.auto_column(" a  b ");
    let want = [
        (3, "", ColumnAlign::Left, ColumnType::First),
        (1, "", ColumnAlign::Left, ColumnType::Middle),
        (1, "x", ColumnAlign::Left, ColumnType::Middle),
        (2, "x", ColumnAlign::Right, ColumnType::Middle),
        (2, "x", ColumnAlign::Left, ColumnType::Middle),
        (3, "x", ColumnAlign::Center, ColumnType::Middle),
        (3, "x", ColumnAlign::Left, ColumnType::Middle),
        (6, "a  b", ColumnAlign::Center, ColumnType::Middle),
    ];
    assert!(!tbl_cfg.has_linenum);
    assert_eq!(tbl_cfg.columns.len(), want.len());
    for (col, (width, title, align, ty)) in tbl_cfg.columns.iter().zip(want) {
        assert_eq!(col.width, width);
        assert_eq!(col.title, title);
        assert_eq!(col.align, align);
        assert_eq!(col.ty, ty);
    }
}

#[test]
fn a_blank_description_gives_a_blank_left_column() {
    for desc in ["   ", " ", "\t", " \t ", "\u{3000}\u{3000}", " \n"] {
        let mut tbl_cfg = TableConfig::start_build();
        tbl_cfg.auto_column(desc);
        assert_eq!(tbl_cfg.columns.len(), 1);
        assert_eq!(tbl_cfg.columns[0].width, desc.chars().count());
        assert_eq!(tbl_cfg.columns[0].title, "");
        assert_eq!(tbl_cfg.columns[0].align, ColumnAlign::Left);
        assert_eq!(tbl_cfg.columns[0].ty, ColumnType::First);
    }
}

#[test]
fn a_header_title_can_be_cut() {
    let mut tbl_cfg = TableConfig::start_build();
    tbl_cfg.new_column(4, "Title", ColumnAlign::Left);
    tbl_cfg.new_column(5, "Title", ColumnAlign::Left);
    tbl_cfg.new_column(6, "Title", ColumnAlign::Left);
    tbl_cfg.build_done(false);
    let tb = TableTool::attach(tbl_cfg);
    assert_eq!(
        tb.fmt_buildin_line(TblGrp::HeadLine),
        "│ Titl~│ Title~│ Title  │"
    );
    assert_eq!(
        tb.fmt_body_line(TblGrp::HeadLine, vec!["Title", "Title", "Title"]),
        tb.fmt_buildin_line(TblGrp::HeadLine)
    );
}

#[test]
fn a_fitting_row_wraps_into_its_single_line() {
    let tb = numbered_table();
    for grp in [TblGrp::BodyLine, TblGrp::HeadLine] {
        for cells in [
            vec!["1", "a", "b", "c", "d"],
            vec!["", "", "", "", ""],
            vec!["12", "123456789", "12345678901", "12345678901234", "123456789012"],
        ] {
            let lines = tb.fmt_body_mlines(grp, cells.clone());
            assert_eq!(lines.len(), 1);
            assert_eq!(lines[0], tb.fmt_body_line(grp, cells));
        }
    }
}

#[test]
fn a_full_window_is_not_marked() {
    let tb = numbered_table();
    let cells = vec!["1", "1234567890", "", "", ""];
    let lines = tb.fmt_body_mlines(TblGrp::BodyLine, cells.clone());
    assert_eq!(lines.len(), 1);
    assert_eq!(
        lines[0],
        " 01 │█1234567890 │█             │█                │█              │"
    );
    assert_eq!(
        tb.fmt_body_line(TblGrp::BodyLine, cells),
        " 01 │█1234567890~│█             │█                │█              │"
    );
}

#[test]
fn a_row_takes_as_many_lines_as_its_longest_text_needs() {
    let tb = numbered_table();
    let text = "x".repeat(100);
    let cases: [(Vec<&str>, usize); 8] = [
        (vec!["", "", "", "", ""], 1),
        (vec!["1", "", "", "", ""], 1),
        (vec!["123", "", "", "", ""], 2),
        (vec!["", "1234567890", "", "", ""], 1),
        (vec!["", "12345678901", "", "", ""], 2),
        (vec!["", "", "", "", "1234567890123456789012345678901234567890"], 4),
        (vec!["", &text[..20], &text[..25], &text[..30], &text[..27]], 3),
        (vec!["", &text, "", "", ""], 10),
    ];
    for (cells, count) in cases {
        let most = cells
            .iter()
            .zip(tb.tbl_cfg.columns.iter())
            .map(|(c, col)| (len(c) + col.width - 1) / col.width)
            .max()
            .unwrap();
        assert_eq!(most.max(1), count);
        let lines = tb.fmt_body_mlines(TblGrp::BodyLine, cells);
        assert_eq!(lines.len(), count);
        for line in &lines {
            assert_eq!(len(line), 67);
            assert!(!line.contains('~'));
        }
    }
}

#[test]
fn ended_texts_leave_blank_cells() {
    let tb = plain_table(&[2, 3], ColumnAlign::Left);
    let lines = tb.fmt_body_mlines(TblGrp::HeadLine, vec!["abcde", "xy"]);
    assert_eq!(lines, vec!["│ ab │ xy  │", "│ cd │     │", "│ e  │     │"]);
    let lines = tb.fmt_body_mlines(TblGrp::BodyLine, vec!["日本語", "äöüß"]);
    assert_eq!(lines, vec!["│█日本 │█äöü │", "│█語  │█ß   │"]);
}

#[test]
fn sample_line_from_a_pattern() {
    let tb = plain_table(&[2, 3], ColumnAlign::Left);
    let line = TableTool::fmt_by_group(TblGrp::BodyLine, tb.tbl_cfg.columns);
    assert_eq!(line, Some("█a│b┼".to_string()));
    assert_eq!(filled_text(Ok("text".to_string())), Some("text".to_string()));
    assert_eq!(
        filled_text(Err(strfmt::FmtError::Invalid("no".to_string()))),
        None
    );
}

#[test]
fn renderer_starts_at_zero() {
    let tb = TableTool::attach(TableConfig::start_build());
    assert_eq!(tb.rending_column, 0);
    assert_eq!(tb.rending_row, 0);
    assert!(tb.tbl_cfg.columns.is_empty());
    assert!(!tb.tbl_cfg.has_linenum);
    assert_eq!(tb.table_width(), 1);
    assert_eq!(tb.fmt_buildin_line(TblGrp::HeadTop), "");
}
