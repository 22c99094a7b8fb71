use vstd::prelude::*;

use crate::canvas::Canvas;

verus! {

/// Width of the moving rectangle, in pixels.
pub const RECT_WIDTH: usize = 200;

/// Height of the moving rectangle, in pixels.
pub const RECT_HEIGHT: usize = 100;

/// Pixels the rectangle moves along each axis per frame.
pub const RECT_SPEED: usize = 2;

/// Radius of the moving disc, in pixels.
pub const CIRCLE_RADIUS: usize = 50;

/// Pixels the disc moves along each axis per frame.
pub const CIRCLE_SPEED: usize = 3;

/// The animated test picture: a red diagonal on black, a green rectangle
/// whose top-left corner is `(rect_x, rect_y)`, and a blue disc centred at
/// `(circle_x, circle_y)`, drawn in that order so later shapes cover earlier
/// ones.
#[derive(Clone, Copy, Debug, PartialEq, Eq)]
pub struct Scene {
    pub rect_x: usize,
    pub rect_y: usize,
    pub circle_x: usize,
    pub circle_y: usize,
}

/// Whether the pixel `(x, y)` lies in the disc: inside the half-open box
/// `[c - R, c + R)` on both axes and no farther than `R` from the centre.
pub open spec fn in_circle(s: Scene, x: int, y: int) -> bool {
    let (cx, cy, r) = (s.circle_x as int, s.circle_y as int, CIRCLE_RADIUS as int);
    &&& cx - r <= x < cx + r
    &&& cy - r <= y < cy + r
    &&& (x - cx) * (x - cx) + (y - cy) * (y - cy) <= r * r
}

/// Whether the pixel `(x, y)` lies in the rectangle.
pub open spec fn in_rect(s: Scene, x: int, y: int) -> bool {
    &&& s.rect_x <= x < s.rect_x + RECT_WIDTH
    &&& s.rect_y <= y < s.rect_y + RECT_HEIGHT
}

/// The colour of the pixel `(x, y)` in a frame of `s`.
pub open spec fn frame_color(s: Scene, x: int, y: int) -> (u8, u8, u8) {
    if in_circle(s, x, y) {
        (0u8, 0u8, 255u8)
    } else if in_rect(s, x, y) {
        (0u8, 255u8, 0u8)
    } else if x == y {
        (255u8, 0u8, 0u8)
    } else {
        (0u8, 0u8, 0u8)
    }
}

/// Distance between two coordinates, and whether `a` lies within the
/// half-open span `[c - r, c + r)` around `c`.
fn span_offset(a: usize, c: usize) -> (res: (usize, bool))
    ensures
        res.0 as int == if a >= c { a - c } else { c - a },
        res.1 == (c - CIRCLE_RADIUS <= a < c + CIRCLE_RADIUS),
{
    if a >= c {
        (a - c, a - c < CIRCLE_RADIUS)
    } else {
        (c - a, c - a <= CIRCLE_RADIUS)
    }
}

impl Scene {
    /// The first frame's positions.
    pub fn new() -> (s: Scene)
        ensures
            s == (Scene { rect_x: 100, rect_y: 100, circle_x: 400, circle_y: 300 }),
    {
        Scene { rect_x: 100, rect_y: 100, circle_x: 400, circle_y: 300 }
    }

    /// The colour of the pixel `(x, y)` in this frame.
    pub fn color_at(&self, x: usize, y: usize) -> (c: (u8, u8, u8))
        ensures
            c == frame_color(*self, x as int, y as int),
    {
        let (dx, in_x) = span_offset(x, self.circle_x);
        let (dy, in_y) = span_offset(y, self.circle_y);
        let in_disc = if in_x && in_y {
            proof {
                let (ex, ey) = (x as int - self.circle_x as int, y as int - self.circle_y as int);
                assert(ex * ex == dx * dx) by (nonlinear_arith)
                    requires
                        dx as int == ex || dx as int == -ex,
                ;
                assert(ey * ey == dy * dy) by (nonlinear_arith)
                    requires
                        dy as int == ey || dy as int == -ey,
                ;
                assert(dx * dx <= 2500 && dy * dy <= 2500) by (nonlinear_arith)
                    requires
                        dx <= 50,
                        dy <= 50,
                ;
            }
            dx * dx + dy * dy <= CIRCLE_RADIUS * CIRCLE_RADIUS
        } else {
            false
        };
        let in_box = x >= self.rect_x && x - self.rect_x < RECT_WIDTH && y >= self.rect_y && y
            - self.rect_y < RECT_HEIGHT;
        if in_disc {
            (0u8, 0u8, 255u8)
        } else if in_box {
            (0u8, 255u8, 0u8)
        } else if x == y {
            (255u8, 0u8, 0u8)
        } else {
            (0u8, 0u8, 0u8)
        }
    }

    /// Paints every pixel of the canvas with this frame.
    pub fn draw(&self, canvas: &mut Canvas)
        requires
            old(canvas).wf(),
        ensures
            final(canvas).wf(),
            final(canvas).cols() == old(canvas).cols(),
            final(canvas).rows() == old(canvas).rows(),
            forall|i: int, j: int|
                final(canvas).in_bounds(i, j) ==> #[trigger] final(canvas).color_at(i, j)
                    == frame_color(*self, i, j),
    {
        let w = canvas.width();
        let h = canvas.height();
        let mut y: usize = 0;
        while y < h
            invariant
                canvas.wf(),
                canvas.cols() == w,
                canvas.rows() == h,
                y <= h,
                forall|i: int, j: int|
                    canvas.in_bounds(i, j) && j < y ==> #[trigger] canvas.color_at(i, j) == frame_color(
                        *self,
                        i,
                        j,
                    ),
            decreases h - y,
        {
            let mut x: usize = 0;
            while x < w
                invariant
                    canvas.wf(),
                    canvas.cols() == w,
                    canvas.rows() == h,
                    y < h,
                    x <= w,
                    forall|i: int, j: int|
                        canvas.in_bounds(i, j) && (j < y || (j == y && i < x))
                            ==> #[trigger] canvas.color_at(i, j) == frame_color(*self, i, j),
                decreases w - x,
            {
                let (r, g, b) = self.color_at(x, y);
                canvas.set_pixel(x, y, r, g, b);
                x = x + 1;
            }
            y = y + 1;
        }
    }

    /// Moves both shapes one step, wrapping each coordinate around the canvas
    /// size.
    pub fn advance(&mut self, width: usize, height: usize)
        requires
            width > 0,
            height > 0,
            old(self).rect_x + RECT_SPEED <= usize::MAX,
            old(self).rect_y + RECT_SPEED <= usize::MAX,
            old(self).circle_x + CIRCLE_SPEED <= usize::MAX,
            old(self).circle_y + CIRCLE_SPEED <= usize::MAX,
        ensures
            final(self).rect_x == (old(self).rect_x + RECT_SPEED) % (width as int),
            final(self).rect_y == (old(self).rect_y + RECT_SPEED) % (height as int),
            final(self).circle_x == (old(self).circle_x + CIRCLE_SPEED) % (width as int),
            final(self).circle_y == (old(self).circle_y + CIRCLE_SPEED) % (height as int),
    {
        self.rect_x = (self.rect_x + RECT_SPEED) % width;
        self.rect_y = (self.rect_y + RECT_SPEED) % height;
        self.circle_x = (self.circle_x + CIRCLE_SPEED) % width;
        self.circle_y = (self.circle_y + CIRCLE_SPEED) % height;
    }
}

} // verus!
