//! A pixel canvas backed by an `image` RGB buffer.

use vstd::prelude::*;
use crate::line::{
    lemma_line_end, lemma_line_state_inv, line_points, line_state, line_steps, seg_dx, seg_sx,
};

verus! {

/// The `image` crate's 8-bit RGB buffer. Verus sees nothing inside it: what it
/// holds is named by `rgb_buffer_pixels`, and only the wrappers below touch it.
#[verifier::external_body]
pub struct RgbBuffer(pub image::RgbImage);

/// An 8-bit RGB color.
pub type Rgb8 = (u8, u8, u8);

/// The colors of an RGB image, keyed by `(x, y)`; its domain is the set of
/// in-bounds coordinates.
pub uninterp spec fn rgb_buffer_pixels(buf: RgbBuffer) -> Map<(int, int), Rgb8>;

/// The coordinates `(x, y)` with `0 <= x < width` and `0 <= y < height`.
pub open spec fn rect_domain(width: int, height: int) -> Set<(int, int)> {
    Set::new(|p: (int, int)| 0 <= p.0 < width && 0 <= p.1 < height)
}

/// `image::ImageBuffer::from_pixel`: a `width` x `height` image whose every pixel
/// is `color`. The crate panics when the sample buffer (3 bytes a pixel) does not
/// fit in `usize`, so that is excluded.
#[verifier::external_body]
fn rgb_buffer_from_pixel(width: u32, height: u32, color: Rgb8) -> (buf: RgbBuffer)
    requires
        3 * width * height <= usize::MAX,
    ensures
        rgb_buffer_pixels(buf) == Map::new(
            |p: (int, int)| rect_domain(width as int, height as int).contains(p),
            |p: (int, int)| color,
        ),
{
    let pixel = image::Rgb([color.0, color.1, color.2]);
    RgbBuffer(image::ImageBuffer::from_pixel(width, height, pixel))
}

/// `image::ImageBuffer::put_pixel`: the pixel at `(x, y)` becomes `color` and
/// no other changes. The crate panics outside the image, so that is excluded.
#[verifier::external_body]
fn rgb_buffer_put_pixel(buf: &mut RgbBuffer, x: u32, y: u32, color: Rgb8)
    requires
        rgb_buffer_pixels(*old(buf)).dom().contains((x as int, y as int)),
    ensures
        rgb_buffer_pixels(*final(buf)) == rgb_buffer_pixels(*old(buf)).insert(
            (x as int, y as int),
            color,
        ),
    no_unwind
{
    buf.0.put_pixel(x, y, image::Rgb([color.0, color.1, color.2]));
}

/// `image::ImageBuffer::get_pixel`: the color at `(x, y)`. The crate panics
/// outside the image, so that is excluded.
#[verifier::external_body]
fn rgb_buffer_get_pixel(buf: &RgbBuffer, x: u32, y: u32) -> (color: Rgb8)
    requires
        rgb_buffer_pixels(*buf).dom().contains((x as int, y as int)),
    ensures
        color == rgb_buffer_pixels(*buf)[(x as int, y as int)],
{
    let p = buf.0.get_pixel(x, y);
    (p.0[0], p.0[1], p.0[2])
}

/// The background every canvas starts with.
pub open spec fn white() -> Rgb8 {
    (255u8, 255u8, 255u8)
}

/// `p` is a pixel the canvas may be drawn on, tested as the renderer tests it:
/// both coordinates non-negative and below the size, with the size read as an
/// `i32`, so that a dimension beyond `i32::MAX` admits no pixel at all.
pub open spec fn in_canvas(width: int, height: int, p: (int, int)) -> bool {
    &&& 0 <= p.0 < width
    &&& 0 <= p.1 < height
    &&& width <= i32::MAX
    &&& height <= i32::MAX
}

/// The pixel map `m` after every cell selected by `cells` that lies on the
/// canvas is set to `color`.
pub open spec fn paint(
    m: Map<(int, int), Rgb8>,
    width: int,
    height: int,
    cells: spec_fn((int, int)) -> bool,
    color: Rgb8,
) -> Map<(int, int), Rgb8> {
    Map::new(
        |p: (int, int)| m.dom().contains(p),
        |p: (int, int)|
            if cells(p) && in_canvas(width, height, p) {
                color
            } else {
                m[p]
            },
    )
}

/// The cells of the filled disc of radius `r` around `(cx, cy)`: offsets of at
/// most `r` in each coordinate whose squared length is at most `r * r`.
pub open spec fn disc_cell(cx: int, cy: int, r: int, p: (int, int)) -> bool {
    let dx = p.0 - cx;
    let dy = p.1 - cy;
    &&& -r <= dx <= r
    &&& -r <= dy <= r
    &&& dx * dx + dy * dy <= r * r
}

/// The cells of the axis-aligned rectangle with corners `(x1, y1)` and `(x2, y2)`.
pub open spec fn rect_cell(x1: int, y1: int, x2: int, y2: int, p: (int, int)) -> bool {
    &&& (if x1 <= x2 { x1 } else { x2 }) <= p.0 <= (if x1 <= x2 { x2 } else { x1 })
    &&& (if y1 <= y2 { y1 } else { y2 }) <= p.1 <= (if y1 <= y2 { y2 } else { y1 })
}

/// The filled disc is symmetric about its centre in both axes, and holds its
/// centre exactly when the radius is not negative.
pub proof fn lemma_disc_symmetric(cx: int, cy: int, r: int, p: (int, int))
    ensures
        disc_cell(cx, cy, r, p) == disc_cell(cx, cy, r, (2 * cx - p.0, p.1)),
        disc_cell(cx, cy, r, p) == disc_cell(cx, cy, r, (p.0, 2 * cy - p.1)),
        disc_cell(cx, cy, r, (cx, cy)) == (r >= 0),
{
    let dx = p.0 - cx;
    let dy = p.1 - cy;
    assert((-dx) * (-dx) == dx * dx) by (nonlinear_arith);
    assert((-dy) * (-dy) == dy * dy) by (nonlinear_arith);
    assert(r >= 0 ==> r * r >= 0) by (nonlinear_arith);
}

/// The filled disc is the Euclidean disc: for a radius `r >= 0` a pixel
/// belongs to it exactly when its squared distance from the centre is at most
/// `r * r`; a negative radius selects no pixel.
pub proof fn lemma_disc_is_euclidean(cx: int, cy: int, r: int, p: (int, int))
    ensures
        r >= 0 ==> (disc_cell(cx, cy, r, p) <==> (p.0 - cx) * (p.0 - cx) + (p.1 - cy) * (p.1
            - cy) <= r * r),
        r < 0 ==> !disc_cell(cx, cy, r, p),
{
    let a = p.0 - cx;
    let b = p.1 - cy;
    assert(r >= 0 && a * a + b * b <= r * r ==> -r <= a <= r) by (nonlinear_arith);
    assert(r >= 0 && a * a + b * b <= r * r ==> -r <= b <= r) by (nonlinear_arith);
}

/// The rectangle is the set of pixels lying between its two corners in both
/// coordinates, whichever order the corners are given in; both corners are in it.
pub proof fn lemma_rect_between_corners(x1: int, y1: int, x2: int, y2: int, p: (int, int))
    ensures
        rect_cell(x1, y1, x2, y2, p) == rect_cell(x2, y2, x1, y1, p),
        rect_cell(x1, y1, x2, y2, p) <==> ((x1 <= p.0 <= x2 || x2 <= p.0 <= x1) && (y1 <= p.1
            <= y2 || y2 <= p.1 <= y1)),
        rect_cell(x1, y1, x2, y2, (x1, y1)),
        rect_cell(x1, y1, x2, y2, (x2, y2)),
{
}

proof fn lemma_paint_add(
    m: Map<(int, int), Rgb8>,
    width: int,
    height: int,
    cells: spec_fn((int, int)) -> bool,
    more: spec_fn((int, int)) -> bool,
    q: (int, int),
    color: Rgb8,
)
    requires
        m.dom() == rect_domain(width, height),
        forall|p: (int, int)| #[trigger] more(p) <==> (cells(p) || p == q),
    ensures
        paint(m, width, height, more, color) == (if in_canvas(width, height, q) {
            paint(m, width, height, cells, color).insert(q, color)
        } else {
            paint(m, width, height, cells, color)
        }),
{
    if in_canvas(width, height, q) {
        assert(rect_domain(width, height).contains(q));
        assert(paint(m, width, height, more, color) =~= paint(m, width, height, cells, color).insert(
            q,
            color,
        ));
    } else {
        assert(paint(m, width, height, more, color) =~= paint(m, width, height, cells, color));
    }
}

proof fn lemma_take_next(pts: Seq<(int, int)>, k: int)
    requires
        0 <= k < pts.len(),
    ensures
        forall|p: (int, int)|
            #[trigger] pts.take(k + 1).contains(p) <==> (pts.take(k).contains(p) || p == pts[k]),
{
    let s0 = pts.take(k);
    let s1 = pts.take(k + 1);
    assert forall|p: (int, int)| #[trigger] s1.contains(p) <==> (s0.contains(p) || p == pts[k]) by {
        if s1.contains(p) {
            let t = choose|t: int| 0 <= t < s1.len() && s1[t] == p;
            if t < k {
                assert(s0[t] == p);
            }
        }
        if s0.contains(p) {
            let t = choose|t: int| 0 <= t < s0.len() && s0[t] == p;
            assert(s1[t] == p);
        }
        if p == pts[k] {
            assert(s1[k] == p);
        }
    }
}

proof fn lemma_paint_same(
    m: Map<(int, int), Rgb8>,
    width: int,
    height: int,
    a: spec_fn((int, int)) -> bool,
    b: spec_fn((int, int)) -> bool,
    color: Rgb8,
)
    requires
        forall|p: (int, int)| in_canvas(width, height, p) ==> (#[trigger] a(p) <==> b(p)),
    ensures
        paint(m, width, height, a, color) == paint(m, width, height, b, color),
{
    assert(paint(m, width, height, a, color) =~= paint(m, width, height, b, color));
}

/// A fixed-size grid of RGB pixels that the 2D renderer draws on, addressed in
/// pixel coordinates (x to the right, y downwards).
pub struct PixelCanvas {
    width: u32,
    height: u32,
    buffer: RgbBuffer,
}

impl View for PixelCanvas {
    type V = Map<(int, int), Rgb8>;

    closed spec fn view(&self) -> Map<(int, int), Rgb8> {
        rgb_buffer_pixels(self.buffer)
    }
}

impl PixelCanvas {
    #[verifier::type_invariant]
    spec fn well_formed(self) -> bool {
        rgb_buffer_pixels(self.buffer).dom() == rect_domain(self.width as int, self.height as int)
    }

    /// Width in pixels.
    pub closed spec fn pixel_width(&self) -> int {
        self.width as int
    }

    /// Height in pixels.
    pub closed spec fn pixel_height(&self) -> int {
        self.height as int
    }

    /// A `width` x `height` canvas, all white.
    pub fn new(width: u32, height: u32) -> (canvas: Self)
        requires
            3 * width * height <= usize::MAX,
        ensures
            canvas.pixel_width() == width,
            canvas.pixel_height() == height,
            canvas@ == Map::new(
                |p: (int, int)| rect_domain(width as int, height as int).contains(p),
                |p: (int, int)| white(),
            ),
            forall|p: (int, int)| #[trigger] canvas@.dom().contains(p) ==> canvas@[p] == (255u8, 255u8, 255u8),
    {
        let buffer = rgb_buffer_from_pixel(width, height, (255u8, 255u8, 255u8));
        assert(rgb_buffer_pixels(buffer).dom() =~= rect_domain(width as int, height as int));
        PixelCanvas { width, height, buffer }
    }

    /// `(width, height)` in pixels; the canvas has a color for exactly the
    /// pixels `(x, y)` with `x < width` and `y < height`.
    pub fn dimensions(&self) -> (dims: (u32, u32))
        ensures
            dims.0 == self.pixel_width(),
            dims.1 == self.pixel_height(),
            self@.dom() == rect_domain(dims.0 as int, dims.1 as int),
    {
        proof {
            use_type_invariant(self);
        }
        (self.width, self.height)
    }

    /// The underlying `image` buffer.
    pub fn image(&self) -> (buf: &RgbBuffer)
        ensures
            rgb_buffer_pixels(*buf) == self@,
    {
        &self.buffer
    }

    /// The color at `(x, y)`, or `None` outside the canvas.
    pub fn pixel(&self, x: u32, y: u32) -> (color: Option<Rgb8>)
        ensures
            color == (if x < self.pixel_width() && y < self.pixel_height() {
                Some(self@[(x as int, y as int)])
            } else {
                None
            }),
    {
        proof {
            use_type_invariant(self);
        }
        if x < self.width && y < self.height {
            Some(rgb_buffer_get_pixel(&self.buffer, x, y))
        } else {
            None
        }
    }

    /// Whether `(px, py)` lies on the canvas (see `in_canvas`).
    pub fn in_bounds(&self, px: i64, py: i64) -> (inside: bool)
        ensures
            inside == in_canvas(self.pixel_width(), self.pixel_height(), (px as int, py as int)),
    {
        self.width <= 0x7fff_ffffu32 && self.height <= 0x7fff_ffffu32 && px >= 0 && px
            < self.width as i64 && py >= 0 && py < self.height as i64
    }

    /// Sets the pixel `(px, py)` to `color` when it lies on the canvas; does
    /// nothing otherwise.
    pub fn draw_pixel(&mut self, px: i64, py: i64, color: Rgb8)
        ensures
            final(self).pixel_width() == old(self).pixel_width(),
            final(self).pixel_height() == old(self).pixel_height(),
            final(self)@ == (if in_canvas(
                old(self).pixel_width(),
                old(self).pixel_height(),
                (px as int, py as int),
            ) {
                old(self)@.insert((px as int, py as int), color)
            } else {
                old(self)@
            }),
    {
        proof {
            use_type_invariant(&*self);
        }
        if self.in_bounds(px, py) {
            assert(self@.dom().insert((px as int, py as int)) =~= self@.dom());
            rgb_buffer_put_pixel(&mut self.buffer, px as u32, py as u32, color);
        }
    }

    /// Draws the line from `(x0, y0)` to `(x1, y1)`: every pixel of
    /// `line_points` that lies on the canvas becomes `color`. The walk is
    /// computed in 64-bit arithmetic, so every pair of `i32` endpoints is accepted.
    pub fn draw_line(&mut self, x0: i32, y0: i32, x1: i32, y1: i32, color: Rgb8)
        ensures
            final(self).pixel_width() == old(self).pixel_width(),
            final(self).pixel_height() == old(self).pixel_height(),
            final(self)@ == paint(
                old(self)@,
                old(self).pixel_width(),
                old(self).pixel_height(),
                |p: (int, int)| line_points(x0 as int, y0 as int, x1 as int, y1 as int).contains(p),
                color,
            ),
    {
        proof {
            use_type_invariant(&*self);
        }
        let ghost (gx0, gy0, gx1, gy1) = (x0 as int, y0 as int, x1 as int, y1 as int);
        let ghost pts = line_points(gx0, gy0, gx1, gy1);
        let ghost n = line_steps(gx0, gy0, gx1, gy1);
        let ghost w = self.pixel_width();
        let ghost h = self.pixel_height();
        let ghost start = self@;
        let ex1 = x1 as i64;
        let ey1 = y1 as i64;
        let mut px = x0 as i64;
        let mut py = y0 as i64;
        let dx: i64 = if ex1 > px { ex1 - px } else { px - ex1 };
        let dy: i64 = if ey1 > py { ey1 - py } else { py - ey1 };
        let sx: i64 = if px < ex1 { 1 } else { -1 };
        let sy: i64 = if py < ey1 { 1 } else { -1 };
        let mut err: i64 = dx - dy;
        let ghost mut k: nat = 0;
        proof {
            lemma_line_state_inv(gx0, gy0, gx1, gy1, 0);
            lemma_paint_same(
                start,
                w,
                h,
                |p: (int, int)| pts.take(0).contains(p),
                |p: (int, int)| false,
                color,
            );
            assert(paint(start, w, h, |p: (int, int)| false, color) =~= start);
        }
        loop
            invariant_except_break
                self@ == paint(start, w, h, |p: (int, int)| pts.take(k as int).contains(p), color),
            invariant
                k <= n,
                n == line_steps(gx0, gy0, gx1, gy1),
                pts == line_points(gx0, gy0, gx1, gy1),
                gx0 == x0 && gy0 == y0 && gx1 == x1 && gy1 == y1,
                ex1 == x1 && ey1 == y1,
                dx == seg_dx(gx0, gx1),
                dy == seg_dx(gy0, gy1),
                sx == seg_sx(gx0, gx1),
                sy == seg_sx(gy0, gy1),
                (px as int, py as int, err as int) == line_state(gx0, gy0, gx1, gy1, k),
                start.dom() == rect_domain(w, h),
                self.pixel_width() == w,
                self.pixel_height() == h,
            ensures
                self.pixel_width() == w,
                self.pixel_height() == h,
                self@ == paint(start, w, h, |p: (int, int)| pts.contains(p), color),
            decreases n - k,
        {
            proof {
                lemma_line_state_inv(gx0, gy0, gx1, gy1, k);
                lemma_line_end(gx0, gy0, gx1, gy1, k);
                assert(pts[k as int] == (px as int, py as int));
                lemma_take_next(pts, k as int);
                lemma_paint_add(
                    start,
                    w,
                    h,
                    |p: (int, int)| pts.take(k as int).contains(p),
                    |p: (int, int)| pts.take(k + 1int).contains(p),
                    (px as int, py as int),
                    color,
                );
            }
            self.draw_pixel(px, py, color);
            if px == ex1 && py == ey1 {
                proof {
                    assert(pts.take(k + 1int) =~= pts);
                }
                break;
            }
            let e2 = 2 * err;
            if e2 > -dy {
                err = err - dy;
                px = px + sx;
            }
            if e2 < dx {
                err = err + dx;
                py = py + sy;
            }
            proof {
                k = k + 1;
            }
        }
    }

    /// Fills the disc of radius `r` around `(cx, cy)` (see `disc_cell`): every
    /// such pixel on the canvas becomes `color`; a negative radius draws nothing.
    /// The offsets are computed in 64-bit arithmetic, so every radius is accepted.
    pub fn draw_filled_circle(&mut self, cx: i32, cy: i32, r: i32, color: Rgb8)
        ensures
            final(self).pixel_width() == old(self).pixel_width(),
            final(self).pixel_height() == old(self).pixel_height(),
            final(self)@ == paint(
                old(self)@,
                old(self).pixel_width(),
                old(self).pixel_height(),
                |p: (int, int)| disc_cell(cx as int, cy as int, r as int, p),
                color,
            ),
    {
        proof {
            use_type_invariant(&*self);
        }
        let ghost w = self.pixel_width();
        let ghost h = self.pixel_height();
        let ghost start = self@;
        let ghost (gcx, gcy, gr) = (cx as int, cy as int, r as int);
        let r64 = r as i64;
        let cx64 = cx as i64;
        let cy64 = cy as i64;
        proof {
            lemma_paint_same(
                start,
                w,
                h,
                |p: (int, int)| disc_cell(gcx, gcy, gr, p) && p.1 - gcy < -gr,
                |p: (int, int)| false,
                color,
            );
            assert(paint(start, w, h, |p: (int, int)| false, color) =~= start);
        }
        if r64 < 0 {
            proof {
                lemma_paint_same(
                    start,
                    w,
                    h,
                    |p: (int, int)| disc_cell(gcx, gcy, gr, p),
                    |p: (int, int)| false,
                    color,
                );
            }
            return;
        }
        assert(r64 * r64 <= 0x3fff_ffff_0000_0001) by (nonlinear_arith)
            requires
                0 <= r64 <= 0x7fff_ffff,
        ;
        let mut dy: i64 = -r64;
        while dy <= r64
            invariant
                0 <= r64 <= 0x7fff_ffff,
                r64 * r64 <= 0x3fff_ffff_0000_0001,
                -r64 <= dy <= r64 + 1,
                gcx == cx64 && gcy == cy64 && gr == r64,
                -0x8000_0000 <= cx64 <= 0x7fff_ffff,
                -0x8000_0000 <= cy64 <= 0x7fff_ffff,
                start.dom() == rect_domain(w, h),
                self.pixel_width() == w,
                self.pixel_height() == h,
                self@ == paint(
                    start,
                    w,
                    h,
                    |p: (int, int)| disc_cell(gcx, gcy, gr, p) && p.1 - gcy < dy,
                    color,
                ),
            decreases r64 + 1 - dy,
        {
            let mut dx: i64 = -r64;
            while dx <= r64
                invariant
                    0 <= r64 <= 0x7fff_ffff,
                    r64 * r64 <= 0x3fff_ffff_0000_0001,
                    -r64 <= dy <= r64,
                    -r64 <= dx <= r64 + 1,
                    gcx == cx64 && gcy == cy64 && gr == r64,
                    -0x8000_0000 <= cx64 <= 0x7fff_ffff,
                    -0x8000_0000 <= cy64 <= 0x7fff_ffff,
                    start.dom() == rect_domain(w, h),
                    self.pixel_width() == w,
                    self.pixel_height() == h,
                    self@ == paint(
                        start,
                        w,
                        h,
                        |p: (int, int)|
                            disc_cell(gcx, gcy, gr, p) && (p.1 - gcy < dy || (p.1 - gcy == dy && p.0
                                - gcx < dx)),
                        color,
                    ),
                decreases r64 + 1 - dx,
            {
                assert(0 <= dx * dx <= r64 * r64) by (nonlinear_arith)
                    requires
                        -r64 <= dx <= r64,
                ;
                assert(0 <= dy * dy <= r64 * r64) by (nonlinear_arith)
                    requires
                        -r64 <= dy <= r64,
                ;
                let ghost q = (cx64 + dx, cy64 + dy);
                let ghost before = |p: (int, int)|
                    disc_cell(gcx, gcy, gr, p) && (p.1 - gcy < dy || (p.1 - gcy == dy && p.0 - gcx
                        < dx));
                let ghost after = |p: (int, int)|
                    disc_cell(gcx, gcy, gr, p) && (p.1 - gcy < dy || (p.1 - gcy == dy && p.0 - gcx
                        < dx + 1));
                if dx * dx + dy * dy <= r64 * r64 {
                    proof {
                        lemma_paint_add(start, w, h, before, after, q, color);
                    }
                    self.draw_pixel(cx64 + dx, cy64 + dy, color);
                } else {
                    proof {
                        lemma_paint_same(start, w, h, before, after, color);
                    }
                }
                dx = dx + 1;
            }
            proof {
                lemma_paint_same(
                    start,
                    w,
                    h,
                    |p: (int, int)|
                        disc_cell(gcx, gcy, gr, p) && (p.1 - gcy < dy || (p.1 - gcy == dy && p.0 - gcx
                            < dx)),
                    |p: (int, int)| disc_cell(gcx, gcy, gr, p) && p.1 - gcy < dy + 1,
                    color,
                );
            }
            dy = dy + 1;
        }
        proof {
            lemma_paint_same(
                start,
                w,
                h,
                |p: (int, int)| disc_cell(gcx, gcy, gr, p) && p.1 - gcy < dy,
                |p: (int, int)| disc_cell(gcx, gcy, gr, p),
                color,
            );
        }
    }


    /// Fills the rectangle with corners `(x1, y1)` and `(x2, y2)` (both
    /// included), clipped to the canvas: every such pixel on the canvas becomes
    /// `color`.
    pub fn fill_rect(&mut self, x1: i32, y1: i32, x2: i32, y2: i32, color: Rgb8)
        ensures
            final(self).pixel_width() == old(self).pixel_width(),
            final(self).pixel_height() == old(self).pixel_height(),
            final(self)@ == paint(
                old(self)@,
                old(self).pixel_width(),
                old(self).pixel_height(),
                |p: (int, int)| rect_cell(x1 as int, y1 as int, x2 as int, y2 as int, p),
                color,
            ),
    {
        proof {
            use_type_invariant(&*self);
        }
        let ghost w = self.pixel_width();
        let ghost h = self.pixel_height();
        let ghost start = self@;
        let ghost (gx1, gy1, gx2, gy2) = (x1 as int, y1 as int, x2 as int, y2 as int);
        let ghost rect = |p: (int, int)| rect_cell(gx1, gy1, gx2, gy2, p);
        if self.width > 0x7fff_ffffu32 || self.height > 0x7fff_ffffu32 {
            proof {
                lemma_paint_same(start, w, h, rect, |p: (int, int)| false, color);
                assert(paint(start, w, h, |p: (int, int)| false, color) =~= start);
            }
            return;
        }
        let lo_x: i64 = if x1 <= x2 { x1 as i64 } else { x2 as i64 };
        let hi_x: i64 = if x1 <= x2 { x2 as i64 } else { x1 as i64 };
        let lo_y: i64 = if y1 <= y2 { y1 as i64 } else { y2 as i64 };
        let hi_y: i64 = if y1 <= y2 { y2 as i64 } else { y1 as i64 };
        let x_min: i64 = if lo_x < 0 { 0 } else { lo_x };
        let x_max: i64 = if hi_x < self.width as i64 - 1 { hi_x } else { self.width as i64 - 1 };
        let y_min: i64 = if lo_y < 0 { 0 } else { lo_y };
        let y_max: i64 = if hi_y < self.height as i64 - 1 { hi_y } else { self.height as i64 - 1 };
        proof {
            lemma_paint_same(
                start,
                w,
                h,
                |p: (int, int)| rect(p) && (p.1 < y_min || (p.1 == y_min && p.0 < x_min)),
                |p: (int, int)| false,
                color,
            );
            assert(paint(start, w, h, |p: (int, int)| false, color) =~= start);
        }
        let mut py: i64 = y_min;
        while py <= y_max
            invariant
                y_min <= py,
                py <= y_max + 1 || py == y_min,
                0 <= x_min && 0 <= y_min,
                x_max < w && y_max < h,
                w <= 0x7fff_ffff && h <= 0x7fff_ffff,
                lo_x <= x_min && x_max <= hi_x && lo_y <= y_min && y_max <= hi_y,
                lo_x == (if gx1 <= gx2 { gx1 } else { gx2 }),
                hi_x == (if gx1 <= gx2 { gx2 } else { gx1 }),
                lo_y == (if gy1 <= gy2 { gy1 } else { gy2 }),
                hi_y == (if gy1 <= gy2 { gy2 } else { gy1 }),
                x_min == (if lo_x < 0 { 0 } else { lo_x as int }),
                x_max == (if hi_x < w - 1 { hi_x as int } else { w - 1 }),
                y_max == (if hi_y < h - 1 { hi_y as int } else { h - 1 }),
                rect == (|p: (int, int)| rect_cell(gx1, gy1, gx2, gy2, p)),
                start.dom() == rect_domain(w, h),
                self.pixel_width() == w,
                self.pixel_height() == h,
                self@ == paint(
                    start,
                    w,
                    h,
                    |p: (int, int)| rect(p) && (p.1 < py || (p.1 == py && p.0 < x_min)),
                    color,
                ),
            decreases y_max + 1 - py,
        {
            let mut px: i64 = x_min;
            while px <= x_max
                invariant
                    x_min <= px,
                    px <= x_max + 1 || px == x_min,
                    y_min <= py <= y_max,
                    0 <= x_min && 0 <= y_min,
                    x_max < w && y_max < h,
                    w <= 0x7fff_ffff && h <= 0x7fff_ffff,
                    lo_x <= x_min && x_max <= hi_x && lo_y <= y_min && y_max <= hi_y,
                    rect == (|p: (int, int)| rect_cell(gx1, gy1, gx2, gy2, p)),
                    lo_x == (if gx1 <= gx2 { gx1 } else { gx2 }),
                    hi_x == (if gx1 <= gx2 { gx2 } else { gx1 }),
                    lo_y == (if gy1 <= gy2 { gy1 } else { gy2 }),
                    hi_y == (if gy1 <= gy2 { gy2 } else { gy1 }),
                    start.dom() == rect_domain(w, h),
                    self.pixel_width() == w,
                    self.pixel_height() == h,
                    self@ == paint(
                        start,
                        w,
                        h,
                        |p: (int, int)| rect(p) && (p.1 < py || (p.1 == py && p.0 < px)),
                        color,
                    ),
                decreases x_max + 1 - px,
            {
                proof {
                    lemma_paint_add(
                        start,
                        w,
                        h,
                        |p: (int, int)| rect(p) && (p.1 < py || (p.1 == py && p.0 < px)),
                        |p: (int, int)| rect(p) && (p.1 < py || (p.1 == py && p.0 < px + 1)),
                        (px as int, py as int),
                        color,
                    );
                }
                self.draw_pixel(px, py, color);
                px = px + 1;
            }
            proof {
                lemma_paint_same(
                    start,
                    w,
                    h,
                    |p: (int, int)| rect(p) && (p.1 < py || (p.1 == py && p.0 < px)),
                    |p: (int, int)| rect(p) && (p.1 < py + 1 || (p.1 == py + 1 && p.0 < x_min)),
                    color,
                );
            }
            py = py + 1;
        }
        proof {
            lemma_paint_same(
                start,
                w,
                h,
                |p: (int, int)| rect(p) && (p.1 < py || (p.1 == py && p.0 < x_min)),
                rect,
                color,
            );
        }
    }

}

} // verus!
