//! The grid's mathematical model: which plane indices a rectangle, its border
//! or a run of text covers, what filling them gives, and the laws of clipping
//! and drawing over it.
use vstd::prelude::*;
use vstd::math::min;
use vstd::arithmetic::div_mod::{
    lemma_fundamental_div_mod,
    lemma_fundamental_div_mod_converse,
    lemma_mod_pos_bound,
};
use crate::present::Point;

verus! {

/// The part `[lo, lo + len)` of `[start, start + len)` that lies in `[0, size)`;
/// `len` is 0 where they do not meet.
pub open spec fn clip_axis(start: int, len: int, size: int) -> (int, int) {
    let lo = if start < 0 { 0 } else { start };
    let hi = if start + len < size { start + len } else { size };
    (lo, if hi > lo { hi - lo } else { 0 })
}

/// The rectangle at `p` of `w × h` cells, clipped to a `gw × gh` grid.
pub open spec fn clip_rect(gw: u32, gh: u32, p: Point, w: u32, h: u32) -> (u32, u32, u32, u32) {
    let (x, cw) = clip_axis(p.x as int, w as int, gw as int);
    let (y, ch) = clip_axis(p.y as int, h as int, gh as int);
    (x as u32, y as u32, cw as u32, ch as u32)
}

/// Whether plane index `i` of a grid `gw` cells wide lies in the rectangle at
/// `(x, y)` of `w × h` cells.
pub open spec fn in_rect(gw: int, i: int, x: int, y: int, w: int, h: int) -> bool {
    &&& x <= i % gw < x + w
    &&& y <= i / gw < y + h
}

/// `s` with every cell of the rectangle set to `v`.
pub open spec fn rect_filled(s: Seq<u32>, gw: int, x: int, y: int, w: int, h: int, v: u32) -> Seq<
    u32,
> {
    Seq::new(s.len(), |i: int| if in_rect(gw, i, x, y, w, h) { v } else { s[i] })
}

/// Whether index `i` lies on the one-cell-thick border of the rectangle; a
/// rectangle less than three cells wide or high is all border.
pub open spec fn in_outline(gw: int, i: int, x: int, y: int, w: int, h: int) -> bool {
    &&& in_rect(gw, i, x, y, w, h)
    &&& (w < 3 || h < 3 || !in_rect(gw, i, x + 1, y + 1, w - 2, h - 2))
}

/// `s` with every cell of the rectangle's border set to `v`.
pub open spec fn outline_filled(
    s: Seq<u32>,
    gw: int,
    x: int,
    y: int,
    w: int,
    h: int,
    v: u32,
) -> Seq<u32> {
    Seq::new(s.len(), |i: int| if in_outline(gw, i, x, y, w, h) { v } else { s[i] })
}

/// `s` with the glyphs of `text` laid along row `y` over the columns
/// `x .. x + text.len()`, each byte in its own column: column `c` shows
/// `text[c - x]`. Bytes whose columns lie off the grid, on either side, are
/// dropped; the rest keep their columns.
pub open spec fn text_run(s: Seq<u32>, gw: int, x: int, y: int, text: Seq<u8>) -> Seq<u32> {
    Seq::new(
        s.len(),
        |i: int|
            if in_rect(gw, i, x, y, text.len() as int, 1) {
                text[i % gw - x] as u32
            } else {
                s[i]
            },
    )
}

/// `s` with the entries `start .. start + n` set to `v`.
pub open spec fn span_filled(s: Seq<u32>, start: int, n: int, v: u32) -> Seq<u32> {
    Seq::new(s.len(), |i: int| if start <= i < start + n { v } else { s[i] })
}

/// The index `i` of a grid `gw` cells wide lies in a row and a column of it.
pub proof fn lemma_cell_of_index(gw: int, gh: int, i: int)
    requires
        0 <= gw,
        0 <= gh,
        0 <= i < gw * gh,
    ensures
        gw > 0,
        0 <= i % gw < gw,
        0 <= i / gw < gh,
        i == (i / gw) * gw + i % gw,
{
    assert(gw > 0) by (nonlinear_arith)
        requires
            0 <= gw,
            0 <= gh,
            0 <= i < gw * gh,
    ;
    lemma_fundamental_div_mod(i, gw);
    lemma_mod_pos_bound(i, gw);
    let q = i / gw;
    let r = i % gw;
    assert(q * gw == gw * q) by (nonlinear_arith);
    assert(0 <= q < gh) by (nonlinear_arith)
        requires
            i == q * gw + r,
            0 <= r < gw,
            0 <= i < gw * gh,
    ;
}

/// The indices `row * gw + cx .. row * gw + cx + cw` are exactly the cells of
/// row `row` in the columns `cx .. cx + cw`.
pub proof fn lemma_row_span(gw: int, row: int, cx: int, cw: int, i: int)
    requires
        gw > 0,
        0 <= cx,
        cx + cw <= gw,
        0 <= i,
    ensures
        (row * gw + cx <= i < row * gw + cx + cw) <==> (i / gw == row && cx <= i % gw < cx
            + cw),
        (row * gw + cx <= i < row * gw + cx + cw) ==> i % gw == i - row * gw,
{
    lemma_fundamental_div_mod(i, gw);
    lemma_mod_pos_bound(i, gw);
    assert(gw * (i / gw) == (i / gw) * gw) by (nonlinear_arith);
    if row * gw + cx <= i < row * gw + cx + cw {
        lemma_fundamental_div_mod_converse(i, gw, row, i - row * gw);
    }
}

/// Filling one more row of a rectangle is filling the span of that row.
pub(crate) proof fn lemma_rect_next_row(s: Seq<u32>, gw: int, gh: int, cx: int, cy: int, cw: int, r: int, v: u32)
    requires
        s.len() == gw * gh,
        0 <= gw,
        0 <= gh,
        0 <= cx,
        cx + cw <= gw,
        0 <= cy,
        0 <= r,
        cy + r < gh,
    ensures
        span_filled(rect_filled(s, gw, cx, cy, cw, r, v), (cy + r) * gw + cx, cw, v) == rect_filled(
            s,
            gw,
            cx,
            cy,
            cw,
            r + 1,
            v,
        ),
{
    let start = (cy + r) * gw + cx;
    assert forall|i: int| 0 <= i < s.len() implies (#[trigger] in_rect(gw, i, cx, cy, cw, r + 1)
        <==> (in_rect(gw, i, cx, cy, cw, r) || (start <= i < start + cw))) by {
        lemma_cell_of_index(gw, gh, i);
        lemma_row_span(gw, cy + r, cx, cw, i);
    }
    assert(span_filled(rect_filled(s, gw, cx, cy, cw, r, v), start, cw, v) =~= rect_filled(
        s,
        gw,
        cx,
        cy,
        cw,
        r + 1,
        v,
    ));
}

/// Filling a rectangle fills exactly its part on the grid; a rectangle with
/// no part on the grid changes nothing.
pub(crate) proof fn lemma_clipped_rect(s: Seq<u32>, gw: int, gh: int, x: int, y: int, w: int, h: int, v: u32)
    requires
        s.len() == gw * gh,
        0 <= gw,
        0 <= gh,
    ensures
        ({
            let (cx, cw) = clip_axis(x, w, gw);
            let (cy, ch) = clip_axis(y, h, gh);
            &&& rect_filled(s, gw, cx, cy, cw, ch, v) == rect_filled(s, gw, x, y, w, h, v)
            &&& (cw == 0 || ch == 0) ==> rect_filled(s, gw, x, y, w, h, v) == s
        }),
{
    let (cx, cw) = clip_axis(x, w, gw);
    let (cy, ch) = clip_axis(y, h, gh);
    assert forall|i: int| 0 <= i < s.len() implies (#[trigger] in_rect(gw, i, x, y, w, h)
        <==> in_rect(gw, i, cx, cy, cw, ch)) && ((cw == 0 || ch == 0) ==> !in_rect(gw, i, x, y, w, h)) by {
        lemma_cell_of_index(gw, gh, i);
    }
    assert(rect_filled(s, gw, cx, cy, cw, ch, v) =~= rect_filled(s, gw, x, y, w, h, v));
    if cw == 0 || ch == 0 {
        assert(rect_filled(s, gw, x, y, w, h, v) =~= s);
    }
}

/// The border of a rectangle at least three cells wide and high is its top and
/// bottom rows and its left and right columns between them.
pub(crate) proof fn lemma_outline_parts(s: Seq<u32>, gw: int, x: int, y: int, w: int, h: int, v: u32)
    requires
        w >= 3,
        h >= 3,
    ensures
        rect_filled(
            rect_filled(
                rect_filled(rect_filled(s, gw, x, y, w, 1, v), gw, x, y + h - 1, w, 1, v),
                gw,
                x,
                y + 1,
                1,
                h - 2,
                v,
            ),
            gw,
            x + w - 1,
            y + 1,
            1,
            h - 2,
            v,
        ) == outline_filled(s, gw, x, y, w, h, v),
{
    assert(rect_filled(
        rect_filled(
            rect_filled(rect_filled(s, gw, x, y, w, 1, v), gw, x, y + h - 1, w, 1, v),
            gw,
            x,
            y + 1,
            1,
            h - 2,
            v,
        ),
        gw,
        x + w - 1,
        y + 1,
        1,
        h - 2,
        v,
    ) =~= outline_filled(s, gw, x, y, w, h, v));
}

/// A rectangle less than three cells wide or high has no inside: drawing its
/// border is drawing it filled.
pub proof fn lemma_thin_outline_is_filled(s: Seq<u32>, gw: int, x: int, y: int, w: int, h: int, v: u32)
    requires
        w < 3 || h < 3,
    ensures
        outline_filled(s, gw, x, y, w, h, v) == rect_filled(s, gw, x, y, w, h, v),
{
    assert(outline_filled(s, gw, x, y, w, h, v) =~= rect_filled(s, gw, x, y, w, h, v));
}

/// A rectangle with no cell on the grid clips to a zero width or height, and
/// filling it leaves a plane as it was.
pub proof fn lemma_offgrid_rect_unchanged(gw: u32, gh: u32, p: Point, w: u32, h: u32, s: Seq<u32>, v: u32)
    requires
        p.x + w <= 0 || p.x >= gw || p.y + h <= 0 || p.y >= gh,
        s.len() == gw * gh,
    ensures
        clip_rect(gw, gh, p, w, h).2 == 0 || clip_rect(gw, gh, p, w, h).3 == 0,
        rect_filled(s, gw as int, p.x as int, p.y as int, w as int, h as int, v) == s,
{
    lemma_clipped_rect(s, gw as int, gh as int, p.x as int, p.y as int, w as int, h as int, v);
}

/// Writing a string of `n` bytes from column `x >= 0` of row `y` of the grid
/// covers exactly the `min(n, gw - x)` cells from `(x, y)` rightwards.
pub proof fn lemma_string_extent(gw: u32, gh: u32, x: int, y: int, n: int)
    requires
        0 <= x,
        0 <= y < gh,
        0 <= n,
    ensures
        forall|i: int|
            0 <= i < gw * gh ==> (#[trigger] in_rect(gw as int, i, x, y, n, 1) <==> (y * gw + x <= i
                < y * gw + x + min(n, gw - x))),
{
    assert forall|i: int| 0 <= i < gw * gh implies (#[trigger] in_rect(gw as int, i, x, y, n, 1)
        <==> (y * gw + x <= i < y * gw + x + min(n, gw - x))) by {
        lemma_cell_of_index(gw as int, gh as int, i);
        lemma_row_span(gw as int, y, x, min(n, gw - x), i);
    }
}

/// Distinct cells of a grid have distinct indices.
pub proof fn lemma_index_injective(w: u32, h: u32, x1: u32, y1: u32, x2: u32, y2: u32)
    requires
        x1 < w,
        y1 < h,
        x2 < w,
        y2 < h,
        x1 != x2 || y1 != y2,
    ensures
        y1 * w + x1 != y2 * w + x2,
{
    let i1 = y1 * w + x1;
    lemma_fundamental_div_mod_converse(i1, w as int, y1 as int, x1 as int);
    lemma_fundamental_div_mod_converse(y2 * w + x2, w as int, y2 as int, x2 as int);
}

/// Clipping a rectangle that is already clipped gives it back unchanged.
pub proof fn lemma_clip_idempotent(gw: u32, gh: u32, p: Point, w: u32, h: u32)
    ensures
        ({
            let r = clip_rect(gw, gh, p, w, h);
            clip_rect(gw, gh, Point { x: r.0 as i32, y: r.1 as i32 }, r.2, r.3) == r
        }),
{
}

} // verus!
