//! A row whose texts may be longer than their columns: each text is cut into windows
//! as wide as its column, and the row is rendered wave by wave, one line per wave,
//! until every text is used up.

use crate::glyph::TblGrp;
use crate::layout::LayoutSpec;
use crate::render::{cell_texts, TableTool};
use vstd::prelude::*;
use vstd::string::*;

verus! {

/// Where window `k` of a text of `len` characters begins in a column of width `width`.
pub open spec fn window_start(len: nat, width: nat, k: nat) -> nat {
    if k * width <= len {
        k * width
    } else {
        len
    }
}

/// Window `k` of `text` in a column of width `width`: the characters from `k * width`
/// up to `(k + 1) * width`, as far as the text has them.
pub open spec fn window(text: Seq<char>, width: nat, k: nat) -> Seq<char> {
    text.subrange(
        window_start(text.len(), width, k) as int,
        window_start(text.len(), width, k + 1) as int,
    )
}

/// The number of windows that a text of `len` characters fills in a column of width
/// `width`: `len / width`, rounded up.
pub open spec fn waves_needed(len: nat, width: nat) -> nat
    recommends
        width > 0,
{
    ((len + width - 1) / width as int) as nat
}

impl LayoutSpec {
    /// The texts of wave `k`: window `k` of the text of every column.
    pub open spec fn wave_cells(self, cells: Seq<Seq<char>>, k: nat) -> Seq<Seq<char>> {
        Seq::new(self.columns.len(), |i: int| window(cells[i], self.columns[i].width, k))
    }

    /// The line of wave `k`: a cell for every column, rendered without the cut rule.
    pub open spec fn wave(self, grp: TblGrp, cells: Seq<Seq<char>>, k: nat) -> Seq<char> {
        self.row_prefix(grp, self.wave_cells(cells, k), false, self.columns.len())
    }

    /// The largest number of windows that any of the first `n` columns needs.
    pub open spec fn max_waves(self, cells: Seq<Seq<char>>, n: nat) -> nat
        decreases n,
    {
        if n == 0 {
            0
        } else {
            let rest = self.max_waves(cells, (n - 1) as nat);
            let here = waves_needed(cells[n - 1].len(), self.columns[n - 1].width);
            if here > rest {
                here
            } else {
                rest
            }
        }
    }

    /// The number of lines that a row takes: the largest number of windows that a
    /// column needs, and one line where every text is empty.
    pub open spec fn wave_count(self, cells: Seq<Seq<char>>) -> nat {
        let most = self.max_waves(cells, self.columns.len());
        if most == 0 {
            1
        } else {
            most
        }
    }
}

/// `k` windows use a text up exactly when `k` is at least the number of windows needed.
pub proof fn lemma_waves_needed(len: nat, width: nat, k: nat)
    requires
        width > 0,
    ensures
        k * width >= len <==> k >= waves_needed(len, width),
{
    let x = (len + width - 1) as int;
    let w = width as int;
    let q = x / w;
    let r = x % w;
    assert(x == w * q + r && 0 <= r < w) by (nonlinear_arith)
        requires
            q == x / w,
            r == x % w,
            w > 0,
    ;
    assert(q >= 0) by (nonlinear_arith)
        requires
            x == w * q + r,
            0 <= r < w,
            x >= 0,
            w > 0,
    ;
    if k >= q {
        assert(k * w >= len) by (nonlinear_arith)
            requires
                k >= q,
                x == w * q + r,
                0 <= r < w,
                x == len + w - 1,
                w > 0,
        ;
    } else {
        assert(k * w < len) by (nonlinear_arith)
            requires
                k + 1 <= q,
                x == w * q + r,
                0 <= r < w,
                x == len + w - 1,
                w > 0,
                k >= 0,
        ;
    }
}

/// A window ends where the next one begins: one column's width further, or at the
/// end of the text.
pub proof fn lemma_window_step(len: nat, width: nat, k: nat)
    ensures
        window_start(len, width, k + 1) == (if window_start(len, width, k) + width <= len {
            window_start(len, width, k) + width
        } else {
            len
        }),
        window_start(len, width, k) <= window_start(len, width, k + 1) <= len,
{
    assert((k + 1) * width == k * width + width) by (nonlinear_arith);
    assert(k * width >= 0) by (nonlinear_arith);
}

/// No column of the first `n` needs more windows than `max_waves` says.
pub proof fn lemma_max_waves_bounds(layout: LayoutSpec, cells: Seq<Seq<char>>, n: nat, i: int)
    requires
        0 <= i < n,
    ensures
        waves_needed(cells[i].len(), layout.columns[i].width) <= layout.max_waves(cells, n),
    decreases n,
{
    if i < n - 1 {
        lemma_max_waves_bounds(layout, cells, (n - 1) as nat, i);
    }
}

/// A bound on what every one of the first `n` columns needs bounds `max_waves`.
pub proof fn lemma_max_waves_least(layout: LayoutSpec, cells: Seq<Seq<char>>, n: nat, bound: nat)
    requires
        forall|i: int|
            0 <= i < n ==> waves_needed((#[trigger] cells[i]).len(), layout.columns[i].width)
                <= bound,
    ensures
        layout.max_waves(cells, n) <= bound,
    decreases n,
{
    if n > 0 {
        lemma_max_waves_least(layout, cells, (n - 1) as nat, bound);
        assert(waves_needed(cells[n - 1].len(), layout.columns[n - 1].width) <= bound);
    }
}

impl TableTool {
    /// Renders a row over as many lines as its longest text needs. Line `k` shows
    /// window `k` of every text; a text that has ended leaves its cell blank. No text is
    /// cut and no cell carries the cut marker. A row of empty texts takes one line.
    pub fn fmt_body_mlines(&self, tbl_grp: TblGrp, all_cells: Vec<&str>) -> (lines: Vec<String>)
        requires
            all_cells@.len() == self@.columns.len(),
            tbl_grp == TblGrp::BodyLine || tbl_grp == TblGrp::HeadLine,
            self@.widths_positive(),
        ensures
            lines@.len() == self@.wave_count(cell_texts(all_cells@)),
            forall|k: int|
                0 <= k < lines@.len() ==> (#[trigger] lines@[k])@ == self@.wave(
                    tbl_grp,
                    cell_texts(all_cells@),
                    k as nat,
                ),
    {
        let n = self.tbl_cfg.columns.len();
        let ghost texts = cell_texts(all_cells@);
        let ghost layout = self@;

        let mut lens: Vec<usize> = Vec::new();
        let mut offs: Vec<usize> = Vec::new();
        let mut c: usize = 0;
        while c < n
            invariant
                c <= n,
                n == all_cells@.len(),
                texts == cell_texts(all_cells@),
                lens@.len() == c,
                offs@.len() == c,
                forall|i: int| 0 <= i < c ==> (#[trigger] lens@[i]) == texts[i].len(),
                forall|i: int| 0 <= i < c ==> (#[trigger] offs@[i]) == 0,
            decreases n - c,
        {
            lens.push(all_cells[c].unicode_len());
            offs.push(0);
            c += 1;
        }

        let mut lines: Vec<String> = Vec::new();
        let mut more = true;
        while more
            invariant
                n == all_cells@.len(),
                n == layout.columns.len(),
                layout == self@,
                layout.widths_positive(),
                tbl_grp.is_line(),
                texts == cell_texts(all_cells@),
                lens@.len() == n,
                offs@.len() == n,
                forall|i: int| 0 <= i < n ==> (#[trigger] lens@[i]) == texts[i].len(),
                forall|k: int|
                    0 <= k < lines@.len() ==> (#[trigger] lines@[k])@ == layout.wave(
                        tbl_grp,
                        texts,
                        k as nat,
                    ),
                more ==> lines@.len() < layout.wave_count(texts),
                more ==> forall|i: int|
                    0 <= i < n ==> (#[trigger] offs@[i]) == window_start(
                        texts[i].len(),
                        layout.columns[i].width,
                        lines@.len(),
                    ),
                !more ==> lines@.len() == layout.wave_count(texts),
            decreases layout.wave_count(texts) - lines@.len() + (if more {
                1nat
            } else {
                0nat
            }),
        {
            let ghost k: nat = lines@.len();
            let mut line = String::new();
            let mut pending = false;
            let ghost mut open_at: int = 0;
            let mut i: usize = 0;
            while i < n
                invariant
                    i <= n,
                    n == all_cells@.len(),
                    n == layout.columns.len(),
                    layout == self@,
                    layout.widths_positive(),
                    tbl_grp.is_line(),
                    texts == cell_texts(all_cells@),
                    lens@.len() == n,
                    offs@.len() == n,
                    forall|j: int| 0 <= j < n ==> (#[trigger] lens@[j]) == texts[j].len(),
                    forall|j: int|
                        0 <= j < i ==> (#[trigger] offs@[j]) == window_start(
                            texts[j].len(),
                            layout.columns[j].width,
                            k + 1,
                        ),
                    forall|j: int|
                        i <= j < n ==> (#[trigger] offs@[j]) == window_start(
                            texts[j].len(),
                            layout.columns[j].width,
                            k,
                        ),
                    line@ == layout.row_prefix(
                        tbl_grp,
                        layout.wave_cells(texts, k),
                        false,
                        i as nat,
                    ),
                    pending ==> 0 <= open_at < i && offs@[open_at] < lens@[open_at],
                    !pending ==> forall|j: int| 0 <= j < i ==> (#[trigger] offs@[j]) == lens@[j],
                decreases n - i,
            {
                let width = self.tbl_cfg.columns[i].width;
                let start = offs[i];
                let len = lens[i];
                assert(self.tbl_cfg.columns@[i as int]@ == layout.columns[i as int]);
                proof {
                    lemma_window_step(texts[i as int].len(), width as nat, k);
                }
                let end = if len - start > width {
                    start + width
                } else {
                    len
                };
                let piece = all_cells[i].substring_char(start, end);
                assert(piece@ == window(texts[i as int], width as nat, k));
                let cell = self.fmt_cell_with(tbl_grp, i, piece, false);
                line.append(cell.as_str());
                offs.set(i, end);
                if end < len {
                    pending = true;
                    proof {
                        open_at = i as int;
                    }
                }
                i += 1;
            }
            assert(line@ == layout.wave(tbl_grp, texts, k));
            lines.push(line);
            proof {
                if pending {
                    let j = open_at;
                    lemma_waves_needed(texts[j].len(), layout.columns[j].width, k + 1);
                    assert((k + 1) * layout.columns[j].width < texts[j].len());
                    lemma_max_waves_bounds(layout, texts, n as nat, j);
                } else {
                    assert forall|j: int| 0 <= j < n implies waves_needed(
                        (#[trigger] texts[j]).len(),
                        layout.columns[j].width,
                    ) <= k + 1 by {
                        assert(offs@[j] == lens@[j]);
                        lemma_waves_needed(texts[j].len(), layout.columns[j].width, k + 1);
                    }
                    lemma_max_waves_least(layout, texts, n as nat, k + 1);
                }
            }
            more = pending;
        }
        lines
    }
}

} // verus!
