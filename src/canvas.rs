use vstd::prelude::*;

use crate::color::{lemma_unpack_pack, lemma_unpack_zero, pack, unpack, unpack_word};
use crate::ppm::{
    lemma_ppm_body_extend, ppm_body, ppm_header, ppm_pixel_line, ppm_text, push_decimal,
    MAGIC_DIGIT, MAGIC_LETTER, MAX_CHANNEL, NEWLINE, SPACE,
};

verus! {

/// A `width` by `height` grid of colours stored row by row, one packed
/// `0x00RRGGBB` word per pixel; the pixel at column `x` and row `y` sits at
/// index `y * width + x`.
pub struct Canvas {
    width: usize,
    height: usize,
    buffer: Vec<u32>,
}

/// Row-major position of the cell at column `x` and row `y` in a grid that is
/// `w` cells wide.
pub open spec fn cell_index(w: nat, x: int, y: int) -> int {
    y * w + x
}

/// The in-bounds cells of a grid map to indices inside its buffer.
pub proof fn lemma_cell_index_in_range(w: nat, h: nat, x: int, y: int)
    requires
        0 <= x < w,
        0 <= y < h,
    ensures
        0 <= cell_index(w, x, y) < w * h,
{
    assert(0 <= y * w + x < w * h) by (nonlinear_arith)
        requires
            0 <= x < w,
            0 <= y < h,
    ;
}

/// Two different in-bounds cells never share an index.
pub proof fn lemma_cell_index_injective(w: nat, x: int, y: int, i: int, j: int)
    requires
        0 <= x < w,
        0 <= y,
        0 <= i < w,
        0 <= j,
        (x, y) != (i, j),
    ensures
        cell_index(w, x, y) != cell_index(w, i, j),
{
    if y < j {
        assert(y * w + x < j * w + i) by (nonlinear_arith)
            requires
                0 <= x < w,
                0 <= i,
                y < j,
        ;
    } else if j < y {
        assert(j * w + i < y * w + x) by (nonlinear_arith)
            requires
                0 <= i < w,
                0 <= x,
                j < y,
        ;
    }
}

impl Canvas {
    /// Number of columns.
    pub closed spec fn cols(&self) -> nat {
        self.width as nat
    }

    /// Number of rows.
    pub closed spec fn rows(&self) -> nat {
        self.height as nat
    }

    /// The packed pixels in row-major order.
    pub closed spec fn pixels(&self) -> Seq<u32> {
        self.buffer@
    }

    /// The buffer holds exactly one word per cell, and every cell index fits
    /// in a `usize`.
    pub open spec fn wf(&self) -> bool {
        &&& self.pixels().len() == self.cols() * self.rows()
        &&& self.cols() * self.rows() <= usize::MAX
    }

    pub open spec fn in_bounds(&self, x: int, y: int) -> bool {
        0 <= x < self.cols() && 0 <= y < self.rows()
    }

    /// The colour of the cell at column `x` and row `y`.
    pub open spec fn color_at(&self, x: int, y: int) -> (u8, u8, u8) {
        unpack(self.pixels()[cell_index(self.cols(), x, y)])
    }

    /// A black canvas of the given size.
    pub fn new(width: usize, height: usize) -> (c: Canvas)
        requires
            width * height <= usize::MAX,
        ensures
            c.wf(),
            c.cols() == width,
            c.rows() == height,
            c.pixels() == Seq::new(width as nat * height as nat, |i: int| 0u32),
            forall|x: int, y: int| c.in_bounds(x, y) ==> #[trigger] c.color_at(x, y) == (0u8, 0u8, 0u8),
    {
        let n: usize = width * height;
        let mut buffer: Vec<u32> = Vec::new();
        while buffer.len() < n
            invariant
                buffer.len() <= n,
                forall|i: int| 0 <= i < buffer.len() ==> buffer@[i] == 0u32,
            decreases n - buffer.len(),
        {
            buffer.push(0u32);
        }
        let c = Canvas { width, height, buffer };
        assert(c.pixels() =~= Seq::new(width as nat * height as nat, |i: int| 0u32));
        assert forall|x: int, y: int| c.in_bounds(x, y) implies #[trigger] c.color_at(x, y) == (
        0u8,
        0u8,
        0u8,
        ) by {
            lemma_cell_index_in_range(width as nat, height as nat, x, y);
            lemma_unpack_zero();
        }
        c
    }

    /// Paints the cell at column `x` and row `y`; a cell outside the canvas
    /// leaves it unchanged.
    pub fn set_pixel(&mut self, x: usize, y: usize, r: u8, g: u8, b: u8)
        requires
            old(self).wf(),
        ensures
            final(self).wf(),
            final(self).cols() == old(self).cols(),
            final(self).rows() == old(self).rows(),
            final(self).pixels() == if old(self).in_bounds(x as int, y as int) {
                old(self).pixels().update(
                    cell_index(old(self).cols(), x as int, y as int),
                    pack(r, g, b),
                )
            } else {
                old(self).pixels()
            },
            old(self).in_bounds(x as int, y as int) ==> final(self).color_at(x as int, y as int) == (
            r,
            g,
            b,
            ),
            forall|i: int, j: int|
                old(self).in_bounds(i, j) && (i, j) != (x as int, y as int)
                    ==> #[trigger] final(self).color_at(i, j) == old(self).color_at(i, j),
    {
        if x < self.width && y < self.height {
            proof {
                lemma_cell_index_in_range(self.width as nat, self.height as nat, x as int, y as int);
                lemma_unpack_pack(r, g, b);
            }
            let idx: usize = y * self.width + x;
            self.buffer.set(idx, ((r as u32) << 16u32) | ((g as u32) << 8u32) | (b as u32));
        }
        proof {
            assert forall|i: int, j: int|
                old(self).in_bounds(i, j) && (i, j) != (x as int, y as int) implies #[trigger] self.color_at(
                i,
                j,
            ) == old(self).color_at(i, j) by {
                if old(self).in_bounds(x as int, y as int) {
                    lemma_cell_index_injective(self.width as nat, x as int, y as int, i, j);
                    lemma_cell_index_in_range(self.width as nat, self.height as nat, i, j);
                }
            }
        }
    }

    /// The colour of the cell at column `x` and row `y`, or `None` outside
    /// the canvas.
    pub fn get_pixel(&self, x: usize, y: usize) -> (c: Option<(u8, u8, u8)>)
        requires
            self.wf(),
        ensures
            c == if self.in_bounds(x as int, y as int) {
                Some(self.color_at(x as int, y as int))
            } else {
                None
            },
    {
        if x < self.width && y < self.height {
            proof {
                lemma_cell_index_in_range(self.width as nat, self.height as nat, x as int, y as int);
            }
            Some(unpack_word(self.buffer[y * self.width + x]))
        } else {
            None
        }
    }

    /// Number of columns.
    pub fn width(&self) -> (w: usize)
        ensures
            w == self.cols(),
    {
        self.width
    }

    /// Number of rows.
    pub fn height(&self) -> (h: usize)
        ensures
            h == self.rows(),
    {
        self.height
    }

    /// The packed `0x00RRGGBB` words, row by row, as a display expects them.
    pub fn buffer(&self) -> (b: &Vec<u32>)
        ensures
            b@ == self.pixels(),
    {
        &self.buffer
    }

    /// The canvas as a plain-text PPM image: the header, then one line per
    /// pixel, row by row and left to right within a row.
    pub fn to_ppm(&self) -> (out: Vec<u8>)
        requires
            self.wf(),
        ensures
            out@ == ppm_text(self.cols(), self.rows(), self.pixels()),
    {
        let mut out: Vec<u8> = Vec::new();
        out.push(MAGIC_LETTER);
        out.push(MAGIC_DIGIT);
        out.push(NEWLINE);
        push_decimal(&mut out, self.width);
        out.push(SPACE);
        push_decimal(&mut out, self.height);
        out.push(NEWLINE);
        push_decimal(&mut out, MAX_CHANNEL);
        out.push(NEWLINE);
        assert(out@ =~= ppm_header(self.cols(), self.rows()));
        let n: usize = self.buffer.len();
        let mut i: usize = 0;
        assert(self.pixels().take(0) =~= Seq::<u32>::empty());
        while i < n
            invariant
                self.wf(),
                n == self.pixels().len(),
                i <= n,
                out@ == ppm_header(self.cols(), self.rows()) + ppm_body(self.pixels().take(i as int)),
            decreases n - i,
        {
            let c = self.buffer[i];
            let (r, g, b) = unpack_word(c);
            let ghost before = out@;
            push_decimal(&mut out, r as usize);
            out.push(SPACE);
            push_decimal(&mut out, g as usize);
            out.push(SPACE);
            push_decimal(&mut out, b as usize);
            out.push(NEWLINE);
            proof {
                lemma_ppm_body_extend(self.pixels(), i as int);
                assert(out@ =~= before + ppm_pixel_line(unpack(c)));
            }
            i = i + 1;
        }
        assert(self.pixels().take(n as int) =~= self.pixels());
        out
    }
}

} // verus!
