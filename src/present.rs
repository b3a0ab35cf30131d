use vstd::prelude::*;
use vstd::string::StringSliceAdditionalSpecFns;
use crate::grid::{
    clip_axis,
    clip_rect,
    in_rect,
    lemma_cell_of_index,
    lemma_clipped_rect,
    lemma_outline_parts,
    lemma_rect_next_row,
    lemma_row_span,
    lemma_thin_outline_is_filled,
    outline_filled,
    rect_filled,
    span_filled,
    text_run,
};

verus! {

/// An `(x, y)` position on the grid; either coordinate may lie off the grid.
#[derive(Clone, Copy, Debug, PartialEq, Eq, Structural)]
pub struct Point {
    pub x: i32,
    pub y: i32,
}

impl Point {
    pub fn new(x: i32, y: i32) -> (p: Point)
        ensures
            p.x == x,
            p.y == y,
    {
        Point { x, y }
    }
}

/// One cell's worth of drawing: a glyph code with its ink and paper colours.
#[derive(Clone, Copy, Debug, PartialEq, Eq, Structural)]
pub struct Char {
    pub ch: u8,
    pub ink: u32,
    pub paper: u32,
}

impl Char {
    pub fn new(ch: u8, ink: u32, paper: u32) -> (c: Char)
        ensures
            c.ch == ch,
            c.ink == ink,
            c.paper == paper,
    {
        Char { ch, ink, paper }
    }
}

/// A `width × height` grid of cells held as three planes of equal length:
/// ink colour, paper colour and glyph code. Cell `(x, y)` is at index
/// `y * width + x` of each plane.
pub struct Image {
    pub width: u32,
    pub height: u32,
    pub fore_image: Vec<u32>,
    pub back_image: Vec<u32>,
    pub text_image: Vec<u32>,
}

/// What the host receives once per presented frame: exclusive access to the
/// grid for the length of the call.
pub struct PresentInput<'a> {
    pub image: &'a mut Image,
}

impl Image {
    /// The three planes have one entry per cell, and a plane index fits a `usize`.
    pub open spec fn wf(&self) -> bool {
        &&& self.width * self.height <= usize::MAX
        &&& self.fore_image@.len() == self.width * self.height
        &&& self.back_image@.len() == self.width * self.height
        &&& self.text_image@.len() == self.width * self.height
    }

    /// `after` is this grid with every cell of the rectangle at `(x, y)` of
    /// `w × h` cells set to `c`.
    pub open spec fn rect_drawn(&self, after: &Image, x: int, y: int, w: int, h: int, c: Char) -> bool {
        let gw = self.width as int;
        &&& after.width == self.width
        &&& after.height == self.height
        &&& after.fore_image@ == rect_filled(self.fore_image@, gw, x, y, w, h, c.ink)
        &&& after.back_image@ == rect_filled(self.back_image@, gw, x, y, w, h, c.paper)
        &&& after.text_image@ == rect_filled(self.text_image@, gw, x, y, w, h, c.ch as u32)
    }

    /// `after` is this grid with every cell of the border of the rectangle at
    /// `(x, y)` of `w × h` cells set to `c`.
    pub open spec fn outline_drawn(&self, after: &Image, x: int, y: int, w: int, h: int, c: Char) -> bool {
        let gw = self.width as int;
        &&& after.width == self.width
        &&& after.height == self.height
        &&& after.fore_image@ == outline_filled(self.fore_image@, gw, x, y, w, h, c.ink)
        &&& after.back_image@ == outline_filled(self.back_image@, gw, x, y, w, h, c.paper)
        &&& after.text_image@ == outline_filled(self.text_image@, gw, x, y, w, h, c.ch as u32)
    }

    /// `after` is this grid with `text` written along row `y` from column `x`
    /// in the given colours: the cells of that run on the grid take the glyphs
    /// and colours, every other cell is as it was.
    pub open spec fn string_drawn(
        &self,
        after: &Image,
        x: int,
        y: int,
        text: Seq<u8>,
        ink: u32,
        paper: u32,
    ) -> bool {
        let gw = self.width as int;
        &&& after.width == self.width
        &&& after.height == self.height
        &&& after.fore_image@ == rect_filled(self.fore_image@, gw, x, y, text.len() as int, 1, ink)
        &&& after.back_image@ == rect_filled(self.back_image@, gw, x, y, text.len() as int, 1, paper)
        &&& after.text_image@ == text_run(self.text_image@, gw, x, y, text)
    }

    /// A grid of `width × height` cells, every plane entry 0.
    pub fn new(width: u32, height: u32) -> (r: Image)
        requires
            width * height <= usize::MAX,
        ensures
            r.wf(),
            r.width == width,
            r.height == height,
            r.fore_image@ == Seq::new((width * height) as nat, |i: int| 0u32),
            r.back_image@ == Seq::new((width * height) as nat, |i: int| 0u32),
            r.text_image@ == Seq::new((width * height) as nat, |i: int| 0u32),
    {
        let n: usize = (width as usize) * (height as usize);
        Image {
            width,
            height,
            fore_image: zeroed(n),
            back_image: zeroed(n),
            text_image: zeroed(n),
        }
    }

    /// Returns the plane index of cell `(x, y)`, or `None` where it is off the grid.
    pub fn coords_to_index(&self, x: u32, y: u32) -> (r: Option<usize>)
        requires
            self.width * self.height <= usize::MAX,
        ensures
            r.is_some() <==> (x < self.width && y < self.height),
            r matches Some(i) ==> i == y * self.width + x,
    {
        if x < self.width && y < self.height {
            assert((y as int) * (self.width as int) + (x as int) < (self.width as int) * (
            self.height as int)) by (nonlinear_arith)
                requires
                    x < self.width,
                    y < self.height,
            ;
            Some((y as usize) * (self.width as usize) + (x as usize))
        } else {
            None
        }
    }

    /// Clips the rectangle at `p` of `width × height` cells to the grid: the
    /// origin and size of the part on the grid, with a zero size where none is.
    pub fn clip(&self, p: Point, width: u32, height: u32) -> (r: (u32, u32, u32, u32))
        ensures
            r == clip_rect(self.width, self.height, p, width, height),
    {
        let (x, w) = clip_span(p.x as i64, width as u64, self.width);
        let (y, h) = clip_span(p.y as i64, height as u64, self.height);
        (x as u32, y as u32, w, h)
    }

    /// Fills the whole grid with spaces in the given colours.
    pub fn clear(&mut self, ink: u32, paper: u32)
        requires
            old(self).wf(),
        ensures
            final(self).wf(),
            final(self).width == old(self).width,
            final(self).height == old(self).height,
            final(self).fore_image@ == Seq::new(old(self).fore_image@.len(), |i: int| ink),
            final(self).back_image@ == Seq::new(old(self).back_image@.len(), |i: int| paper),
            final(self).text_image@ == Seq::new(old(self).text_image@.len(), |i: int| 0x20u32),
    {
        let ghost gw = self.width as int;
        let ghost gh = self.height as int;
        let ghost n = self.fore_image@.len();
        self.draw_rect_filled(Point::new(0, 0), self.width, self.height, Char::new(0x20, ink, paper));
        proof {
            assert forall|i: int| 0 <= i < n implies #[trigger] in_rect(gw, i, 0, 0, gw, gh) by {
                lemma_cell_of_index(gw, gh, i);
            }
        }
        assert(self.fore_image@ =~= Seq::new(n, |i: int| ink));
        assert(self.back_image@ =~= Seq::new(n, |i: int| paper));
        assert(self.text_image@ =~= Seq::new(n, |i: int| 0x20u32));
    }

    /// Writes `ch` to the cell at `p` when it is on the grid; off the grid,
    /// nothing changes.
    pub fn draw_char(&mut self, p: Point, ch: Char)
        requires
            old(self).wf(),
        ensures
            final(self).wf(),
            old(self).rect_drawn(final(self), p.x as int, p.y as int, 1, 1, ch),
    {
        let ghost gw = self.width as int;
        let ghost gh = self.height as int;
        if p.x >= 0 && p.y >= 0 {
            if let Some(i) = self.coords_to_index(p.x as u32, p.y as u32) {
                let ghost f0 = self.fore_image@;
                let ghost b0 = self.back_image@;
                let ghost t0 = self.text_image@;
                assert(i < gw * gh) by (nonlinear_arith)
                    requires
                        i == (p.y as int) * gw + (p.x as int),
                        0 <= p.x < gw,
                        0 <= p.y < gh,
                ;
                self.fore_image.set(i, ch.ink);
                self.back_image.set(i, ch.paper);
                self.text_image.set(i, ch.ch as u32);
                proof {
                    assert forall|j: int| 0 <= j < f0.len() implies (#[trigger] in_rect(gw, j, p.x as int, p.y as int, 1, 1)
                        <==> j == i) by {
                        lemma_cell_of_index(gw, gh, j);
                        lemma_row_span(gw, p.y as int, p.x as int, 1, j);
                    }
                    assert(self.fore_image@ =~= rect_filled(f0, gw, p.x as int, p.y as int, 1, 1, ch.ink));
                    assert(self.back_image@ =~= rect_filled(b0, gw, p.x as int, p.y as int, 1, 1, ch.paper));
                    assert(self.text_image@ =~= rect_filled(t0, gw, p.x as int, p.y as int, 1, 1, ch.ch as u32));
                }
                return;
            }
        }
        proof {
            let f0 = self.fore_image@;
            assert forall|j: int| 0 <= j < f0.len() implies !#[trigger] in_rect(gw, j, p.x as int, p.y as int, 1, 1) by {
                lemma_cell_of_index(gw, gh, j);
            }
            assert(self.fore_image@ =~= rect_filled(self.fore_image@, gw, p.x as int, p.y as int, 1, 1, ch.ink));
            assert(self.back_image@ =~= rect_filled(self.back_image@, gw, p.x as int, p.y as int, 1, 1, ch.paper));
            assert(self.text_image@ =~= rect_filled(self.text_image@, gw, p.x as int, p.y as int, 1, 1, ch.ch as u32));
        }
    }

    /// Writes the bytes of `text` as glyphs along one row from `p`, in the
    /// given colours: byte `k` goes to column `p.x + k`, and bytes whose cells
    /// lie off the grid are dropped.
    pub fn draw_string(&mut self, p: Point, text: &str, ink: u32, paper: u32)
        requires
            old(self).wf(),
        ensures
            final(self).wf(),
            old(self).string_drawn(final(self), p.x as int, p.y as int, text.spec_bytes(), ink, paper),
    {
        let ghost gw = self.width as int;
        let ghost gh = self.height as int;
        let ghost f0 = self.fore_image@;
        let ghost b0 = self.back_image@;
        let ghost t0 = self.text_image@;
        let bytes: &[u8] = text.as_bytes();
        let n: usize = bytes.len();
        let ghost (x, y, ln) = (p.x as int, p.y as int, n as int);
        let (cx, cw) = clip_span(p.x as i64, n as u64, self.width);
        if p.y >= 0 && (p.y as u32) < self.height && cw > 0 {
            let row: u32 = p.y as u32;
            assert((row as int) * gw + (cx as int) + (cw as int) <= gw * gh) by (nonlinear_arith)
                requires
                    row < gh,
                    0 <= cx,
                    0 <= gw,
                    cx + cw <= gw,
            ;
            let start: usize = (row as usize) * (self.width as usize) + (cx as usize);
            fill_span(&mut self.fore_image, start, cw as usize, ink);
            fill_span(&mut self.back_image, start, cw as usize, paper);
            let off: usize = (cx - p.x as i64) as usize;
            write_glyphs(&mut self.text_image, start, bytes, off, cw as usize);
            proof {
                assert forall|i: int| 0 <= i < f0.len() implies (#[trigger] in_rect(gw, i, x, y, ln, 1)
                    <==> (start <= i < start + cw)) && (start <= i < start + cw ==> i % gw - x == i - start + off) by {
                    lemma_cell_of_index(gw, gh, i);
                    lemma_row_span(gw, y, cx as int, cw as int, i);
                }
                assert(self.fore_image@ =~= rect_filled(f0, gw, x, y, ln, 1, ink));
                assert(self.back_image@ =~= rect_filled(b0, gw, x, y, ln, 1, paper));
                assert(self.text_image@ =~= text_run(t0, gw, x, y, bytes@));
            }
        } else {
            proof {
                assert forall|i: int| 0 <= i < f0.len() implies !#[trigger] in_rect(gw, i, x, y, ln, 1) by {
                    lemma_cell_of_index(gw, gh, i);
                }
                assert(f0 =~= rect_filled(f0, gw, x, y, ln, 1, ink));
                assert(b0 =~= rect_filled(b0, gw, x, y, ln, 1, paper));
                assert(t0 =~= text_run(t0, gw, x, y, bytes@));
            }
        }
    }

    /// Draws the one-cell-thick border of the rectangle at `p` of
    /// `width × height` cells with `ch` on all four sides; a rectangle less
    /// than three cells wide or high is drawn filled.
    pub fn draw_rect(&mut self, p: Point, width: u32, height: u32, ch: Char)
        requires
            old(self).wf(),
        ensures
            final(self).wf(),
            old(self).outline_drawn(final(self), p.x as int, p.y as int, width as int, height as int, ch),
    {
        let ghost gw = self.width as int;
        let ghost (x, y, w, h) = (p.x as int, p.y as int, width as int, height as int);
        let ghost f0 = self.fore_image@;
        let ghost b0 = self.back_image@;
        let ghost t0 = self.text_image@;
        if width < 3 || height < 3 {
            self.draw_rect_filled(p, width, height, ch);
            proof {
                lemma_thin_outline_is_filled(f0, gw, x, y, w, h, ch.ink);
                lemma_thin_outline_is_filled(b0, gw, x, y, w, h, ch.paper);
                lemma_thin_outline_is_filled(t0, gw, x, y, w, h, ch.ch as u32);
            }
        } else {
            let px: i64 = p.x as i64;
            let py: i64 = p.y as i64;
            let pw: u64 = width as u64;
            let ph: u64 = height as u64;
            // top and bottom rows, then the left and right columns between them
            self.fill_area(px, py, pw, 1, ch);
            self.fill_area(px, py + (ph as i64) - 1, pw, 1, ch);
            self.fill_area(px, py + 1, 1, ph - 2, ch);
            self.fill_area(px + (pw as i64) - 1, py + 1, 1, ph - 2, ch);
            proof {
                lemma_outline_parts(f0, gw, x, y, w, h, ch.ink);
                lemma_outline_parts(b0, gw, x, y, w, h, ch.paper);
                lemma_outline_parts(t0, gw, x, y, w, h, ch.ch as u32);
            }
        }
    }

    /// Overwrites every cell of the rectangle at `p` of `width × height` cells
    /// with `ch`; the part off the grid is ignored.
    pub fn draw_rect_filled(&mut self, p: Point, width: u32, height: u32, ch: Char)
        requires
            old(self).wf(),
        ensures
            final(self).wf(),
            old(self).rect_drawn(final(self), p.x as int, p.y as int, width as int, height as int, ch),
    {
        self.fill_area(p.x as i64, p.y as i64, width as u64, height as u64, ch);
    }

    /// Sets every cell of the rectangle at `(x, y)` of `w × h` cells that lies
    /// on the grid to `c`.
    fn fill_area(&mut self, x: i64, y: i64, w: u64, h: u64, c: Char)
        requires
            old(self).wf(),
            -0x2_0000_0000 <= x <= 0x2_0000_0000,
            -0x2_0000_0000 <= y <= 0x2_0000_0000,
        ensures
            final(self).wf(),
            old(self).rect_drawn(final(self), x as int, y as int, w as int, h as int, c),
    {
        let (cx, cw) = clip_span(x, w, self.width);
        let (cy, ch) = clip_span(y, h, self.height);
        proof {
            let gw = self.width as int;
            let gh = self.height as int;
            lemma_clipped_rect(self.fore_image@, gw, gh, x as int, y as int, w as int, h as int, c.ink);
            lemma_clipped_rect(self.back_image@, gw, gh, x as int, y as int, w as int, h as int, c.paper);
            lemma_clipped_rect(self.text_image@, gw, gh, x as int, y as int, w as int, h as int, c.ch as u32);
        }
        if cw > 0 && ch > 0 {
            self.fill_region(cx as u32, cy as u32, cw, ch, c);
        }
    }

    /// Fills the rectangle at `(cx, cy)` of `cw × ch` cells, which lies on the grid.
    fn fill_region(&mut self, cx: u32, cy: u32, cw: u32, ch: u32, c: Char)
        requires
            old(self).wf(),
            cx + cw <= old(self).width,
            cy + ch <= old(self).height,
        ensures
            final(self).wf(),
            old(self).rect_drawn(final(self), cx as int, cy as int, cw as int, ch as int, c),
    {
        let ghost f0 = self.fore_image@;
        let ghost b0 = self.back_image@;
        let ghost t0 = self.text_image@;
        let ghost gw = self.width as int;
        let glyph: u32 = c.ch as u32;
        let mut r: u32 = 0;
        while r < ch
            invariant
                self.wf(),
                self.width == gw,
                self.height == old(self).height,
                r <= ch,
                cx + cw <= self.width,
                cy + ch <= self.height,
                glyph == c.ch as u32,
                self.fore_image@ == rect_filled(f0, gw, cx as int, cy as int, cw as int, r as int, c.ink),
                self.back_image@ == rect_filled(b0, gw, cx as int, cy as int, cw as int, r as int, c.paper),
                self.text_image@ == rect_filled(t0, gw, cx as int, cy as int, cw as int, r as int, glyph),
            decreases ch - r,
        {
            let row: u32 = cy + r;
            assert((row as int) * gw + (cx as int) + (cw as int) <= gw * (self.height as int))
                by (nonlinear_arith)
                requires
                    row < self.height,
                    cx + cw <= gw,
            ;
            let start: usize = (row as usize) * (self.width as usize) + (cx as usize);
            fill_span(&mut self.fore_image, start, cw as usize, c.ink);
            fill_span(&mut self.back_image, start, cw as usize, c.paper);
            fill_span(&mut self.text_image, start, cw as usize, glyph);
            proof {
                let gh = self.height as int;
                lemma_rect_next_row(f0, gw, gh, cx as int, cy as int, cw as int, r as int, c.ink);
                lemma_rect_next_row(b0, gw, gh, cx as int, cy as int, cw as int, r as int, c.paper);
                lemma_rect_next_row(t0, gw, gh, cx as int, cy as int, cw as int, r as int, glyph);
            }
            r = r + 1;
        }
    }
}

/// Sets the entries `start .. start + n` of `plane` to the glyph codes of
/// `text[off .. off + n]`.
fn write_glyphs(plane: &mut Vec<u32>, start: usize, text: &[u8], off: usize, n: usize)
    requires
        start + n <= old(plane)@.len(),
        off + n <= text@.len(),
    ensures
        final(plane)@ == Seq::new(
            old(plane)@.len(),
            |i: int|
                if start <= i < start + n {
                    text@[i - start + off] as u32
                } else {
                    old(plane)@[i]
                },
        ),
{
    let ghost s0 = plane@;
    let len: usize = plane.len();
    let tlen: usize = text.len();
    let mut k: usize = 0;
    while k < n
        invariant
            k <= n,
            start + n <= s0.len(),
            off + n <= text@.len(),
            len == s0.len(),
            tlen == text@.len(),
            plane@ == Seq::new(
                s0.len(),
                |i: int|
                    if start <= i < start + k {
                        text@[i - start + off] as u32
                    } else {
                        s0[i]
                    },
            ),
        decreases n - k,
    {
        plane.set(start + k, text[off + k] as u32);
        k = k + 1;
        assert(plane@ =~= Seq::new(
            s0.len(),
            |i: int|
                if start <= i < start + k {
                    text@[i - start + off] as u32
                } else {
                    s0[i]
                },
        ));
    }
}

/// A plane of `n` zero entries.
fn zeroed(n: usize) -> (v: Vec<u32>)
    ensures
        v@ == Seq::new(n as nat, |i: int| 0u32),
{
    let mut v: Vec<u32> = Vec::new();
    let mut k: usize = 0;
    while k < n
        invariant
            k <= n,
            v@ == Seq::new(k as nat, |i: int| 0u32),
        decreases n - k,
    {
        v.push(0);
        k = k + 1;
        assert(v@ =~= Seq::new(k as nat, |i: int| 0u32));
    }
    v
}

/// Sets the entries `start .. start + n` of `plane` to `v`.
fn fill_span(plane: &mut Vec<u32>, start: usize, n: usize, v: u32)
    requires
        start + n <= old(plane)@.len(),
    ensures
        final(plane)@ == span_filled(old(plane)@, start as int, n as int, v),
{
    let ghost s0 = plane@;
    let len: usize = plane.len();
    let mut k: usize = 0;
    while k < n
        invariant
            k <= n,
            start + n <= s0.len(),
            len == s0.len(),
            plane@ == span_filled(s0, start as int, k as int, v),
        decreases n - k,
    {
        plane.set(start + k, v);
        k = k + 1;
        assert(plane@ =~= span_filled(s0, start as int, k as int, v));
    }
}

/// Clips the span `[start, start + len)` to `[0, size)`.
fn clip_span(start: i64, len: u64, size: u32) -> (r: (i64, u32))
    requires
        -0x2_0000_0000 <= start <= 0x2_0000_0000,
    ensures
        (r.0 as int, r.1 as int) == clip_axis(start as int, len as int, size as int),
        r.1 > 0 ==> r.0 + r.1 <= size,
{
    let lo: i64 = if start < 0 {
        0
    } else {
        start
    };
    let len_c: i64 = if len > 0x10_0000_0000 {
        0x10_0000_0000
    } else {
        len as i64
    };
    let end: i64 = start + len_c;
    let hi: i64 = if end < size as i64 {
        end
    } else {
        size as i64
    };
    let w: u32 = if hi > lo {
        (hi - lo) as u32
    } else {
        0
    };
    (lo, w)
}

} // verus!
