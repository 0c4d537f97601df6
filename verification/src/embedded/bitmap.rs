//! The host-provided bitmap that an embedded editor paints into, and its drawing operations.
use vstd::prelude::*;

verus! {

/// `v` with negative values replaced by zero.
pub open spec fn non_negative(v: int) -> int {
    if v < 0 {
        0
    } else {
        v
    }
}

/// The exclusive end of a span that should end at `end`, clipped to `[0, limit]`.
///
/// A limit that does not fit in `i32` reads as negative after the signed conversion, which
/// leaves the span running to the limit itself.
pub open spec fn span_end(end: int, limit: u32) -> int {
    if limit > i32::MAX {
        limit as int
    } else if end < 0 {
        0
    } else if end > limit {
        limit as int
    } else {
        end
    }
}

/// Whether a line at coordinate `v` lies inside `[0, limit)` as seen through a signed comparison
/// (a limit beyond `i32::MAX` admits no line).
pub open spec fn line_in_range(v: int, limit: u32) -> bool {
    0 <= v && limit <= i32::MAX && v < limit
}

/// A BGRA color from its components: `a·2²⁴ + r·2¹⁶ + g·2⁸ + b`.
pub open spec fn color_of(r: u8, g: u8, b: u8, a: u8) -> u32 {
    (a * 0x1000000 + r * 0x10000 + g * 0x100 + b) as u32
}

/// Red component of a BGRA color.
pub open spec fn red_of(pixel: u32) -> u8 {
    ((pixel / 0x10000) % 0x100) as u8
}

/// Green component of a BGRA color.
pub open spec fn green_of(pixel: u32) -> u8 {
    ((pixel / 0x100) % 0x100) as u8
}

/// Blue component of a BGRA color.
pub open spec fn blue_of(pixel: u32) -> u8 {
    (pixel % 0x100) as u8
}

/// Alpha component of a BGRA color.
pub open spec fn alpha_of(pixel: u32) -> u8 {
    (pixel / 0x1000000) as u8
}

/// The shape of a bitmap: how logical pixel coordinates map to buffer positions.
pub struct BitmapLayout {
    pub width: u32,
    pub height: u32,
    pub row_span: u32,
    pub flipped: bool,
}

impl BitmapLayout {
    /// Whether `(x, y)` lies inside the bitmap.
    pub open spec fn in_bounds(&self, x: int, y: int) -> bool {
        0 <= x < self.width && 0 <= y < self.height
    }

    /// The buffer row holding logical row `y` (counted from the bottom when flipped).
    pub open spec fn buffer_row(&self, y: int) -> int {
        if self.flipped {
            non_negative(non_negative(self.height - 1) - y)
        } else {
            y
        }
    }

    /// The buffer position of logical pixel `(x, y)`.
    pub open spec fn address(&self, x: int, y: int) -> int {
        self.buffer_row(y) * self.row_span + x
    }

    /// Every in-bounds pixel of the rectangle `[x0, x1) × [y0, y1)` has an address that fits in `u32`.
    pub open spec fn addresses_fit(&self, x0: int, x1: int, y0: int, y1: int) -> bool {
        forall|x: int, y: int|
            x0 <= x < x1 && y0 <= y < y1 && self.in_bounds(x, y) ==> #[trigger] self.address(x, y)
                <= u32::MAX
    }

    /// Some in-bounds pixel of the rectangle `[x0, x1) × [y0, y1)` sits at buffer position `i`.
    pub open spec fn covers(&self, x0: int, x1: int, y0: int, y1: int, i: int) -> bool {
        exists|x: int, y: int|
            x0 <= x < x1 && y0 <= y < y1 && self.in_bounds(x, y) && #[trigger] self.address(x, y)
                == i
    }

    /// The buffer `s` after every in-bounds pixel of `[x0, x1) × [y0, y1)` is set to `color`
    /// (positions past the end of the buffer are skipped).
    pub open spec fn filled(
        &self,
        s: Seq<u32>,
        x0: int,
        x1: int,
        y0: int,
        y1: int,
        color: u32,
    ) -> Seq<u32> {
        Seq::new(s.len(), |i: int| if self.covers(x0, x1, y0, y1, i) { color } else { s[i] })
    }

    /// The value of pixel `(x, y)` in buffer `s`, or `None` when it is out of bounds or past
    /// the end of the buffer.
    pub open spec fn read(&self, s: Seq<u32>, x: int, y: int) -> Option<u32> {
        if self.in_bounds(x, y) && 0 <= self.address(x, y) < s.len() {
            Some(s[self.address(x, y)])
        } else {
            None
        }
    }

    /// The buffer `s` after pixel `(x, y)` is set to `color` (unchanged when the pixel is out
    /// of bounds or past the end of the buffer).
    pub open spec fn write(&self, s: Seq<u32>, x: int, y: int, color: u32) -> Seq<u32> {
        if self.in_bounds(x, y) && 0 <= self.address(x, y) < s.len() {
            s.update(self.address(x, y), color)
        } else {
            s
        }
    }

    /// The buffer `s` after a horizontal line of `w` pixels starting at `(x, y)`.
    pub open spec fn hline_result(&self, s: Seq<u32>, x: int, y: int, w: int, color: u32) -> Seq<u32> {
        if line_in_range(y, self.height) {
            self.filled(s, non_negative(x), span_end(x + w, self.width), y, y + 1, color)
        } else {
            s
        }
    }

    /// The buffer `s` after a vertical line of `h` pixels starting at `(x, y)`.
    pub open spec fn vline_result(&self, s: Seq<u32>, x: int, y: int, h: int, color: u32) -> Seq<u32> {
        if line_in_range(x, self.width) {
            self.filled(s, x, x + 1, non_negative(y), span_end(y + h, self.height), color)
        } else {
            s
        }
    }

    /// A horizontal line of `w` pixels at `(x, y)` can be drawn without overflow.
    pub open spec fn hline_ok(&self, x: int, y: int, w: int) -> bool {
        line_in_range(y, self.height) ==> {
            &&& i32::MIN <= x + w <= i32::MAX
            &&& self.addresses_fit(non_negative(x), span_end(x + w, self.width), y, y + 1)
        }
    }

    /// A vertical line of `h` pixels at `(x, y)` can be drawn without overflow.
    pub open spec fn vline_ok(&self, x: int, y: int, h: int) -> bool {
        line_in_range(x, self.width) ==> {
            &&& i32::MIN <= y + h <= i32::MAX
            &&& self.addresses_fit(x, x + 1, non_negative(y), span_end(y + h, self.height))
        }
    }

    /// The buffer `s` after the one-pixel outline of the `w × h` rectangle at `(x, y)`:
    /// top edge, bottom edge, left edge, right edge, in that order.
    pub open spec fn outline_result(
        &self,
        s: Seq<u32>,
        x: int,
        y: int,
        w: int,
        h: int,
        color: u32,
    ) -> Seq<u32> {
        let top = self.hline_result(s, x, y, w, color);
        let bottom = self.hline_result(top, x, y + h - 1, w, color);
        let left = self.vline_result(bottom, x, y, h, color);
        self.vline_result(left, x + w - 1, y, h, color)
    }

    /// In-bounds pixels sit at non-negative buffer positions.
    pub proof fn lemma_address_nonneg(&self, x: int, y: int)
        requires
            self.in_bounds(x, y),
        ensures
            0 <= self.buffer_row(y) < self.height,
            0 <= self.address(x, y),
    {
        assert(0 <= self.buffer_row(y) * self.row_span) by (nonlinear_arith)
            requires
                0 <= self.buffer_row(y),
                0 <= self.row_span,
        ;
    }

    /// With rows at least as long as the bitmap is wide, distinct in-bounds pixels are stored
    /// at distinct buffer positions.
    pub proof fn lemma_address_injective(&self, x1: int, y1: int, x2: int, y2: int)
        requires
            self.row_span >= self.width,
            self.in_bounds(x1, y1),
            self.in_bounds(x2, y2),
            self.address(x1, y1) == self.address(x2, y2),
        ensures
            x1 == x2,
            y1 == y2,
    {
        self.lemma_address_nonneg(x1, y1);
        self.lemma_address_nonneg(x2, y2);
        let r1 = self.buffer_row(y1);
        let r2 = self.buffer_row(y2);
        let rs = self.row_span as int;
        assert(r1 == r2 && x1 == x2) by (nonlinear_arith)
            requires
                r1 * rs + x1 == r2 * rs + x2,
                0 <= x1 < rs,
                0 <= x2 < rs,
                0 <= r1,
                0 <= r2,
        ;
    }

    proof fn lemma_covers_extend_x(&self, x0: int, px: int, y: int, i: int)
        requires
            x0 <= px,
        ensures
            self.covers(x0, px + 1, y, y + 1, i) == (self.covers(x0, px, y, y + 1, i) || (
            self.in_bounds(px, y) && self.address(px, y) == i)),
    {
        if self.covers(x0, px + 1, y, y + 1, i) {
            let (a, b) = choose|a: int, b: int|
                x0 <= a < px + 1 && y <= b < y + 1 && self.in_bounds(a, b) && #[trigger] self.address(
                    a,
                    b,
                ) == i;
            if a < px {
                assert(self.covers(x0, px, y, y + 1, i));
            }
        }
        if self.covers(x0, px, y, y + 1, i) {
            let (a, b) = choose|a: int, b: int|
                x0 <= a < px && y <= b < y + 1 && self.in_bounds(a, b) && #[trigger] self.address(a, b)
                    == i;
            assert(self.covers(x0, px + 1, y, y + 1, i));
        }
        if self.in_bounds(px, y) && self.address(px, y) == i {
            assert(self.covers(x0, px + 1, y, y + 1, i));
        }
    }

    proof fn lemma_covers_extend_y(&self, x0: int, x1: int, y0: int, py: int, i: int)
        requires
            y0 <= py,
        ensures
            self.covers(x0, x1, y0, py + 1, i) == (self.covers(x0, x1, y0, py, i) || self.covers(
                x0,
                x1,
                py,
                py + 1,
                i,
            )),
    {
        if self.covers(x0, x1, y0, py + 1, i) {
            let (a, b) = choose|a: int, b: int|
                x0 <= a < x1 && y0 <= b < py + 1 && self.in_bounds(a, b) && #[trigger] self.address(
                    a,
                    b,
                ) == i;
            if b < py {
                assert(self.covers(x0, x1, y0, py, i));
            } else {
                assert(self.covers(x0, x1, py, py + 1, i));
            }
        }
        if self.covers(x0, x1, y0, py, i) {
            let (a, b) = choose|a: int, b: int|
                x0 <= a < x1 && y0 <= b < py && self.in_bounds(a, b) && #[trigger] self.address(a, b)
                    == i;
            assert(self.covers(x0, x1, y0, py + 1, i));
        }
        if self.covers(x0, x1, py, py + 1, i) {
            let (a, b) = choose|a: int, b: int|
                x0 <= a < x1 && py <= b < py + 1 && self.in_bounds(a, b) && #[trigger] self.address(
                    a,
                    b,
                ) == i;
            assert(self.covers(x0, x1, y0, py + 1, i));
        }
    }

    proof fn lemma_covers_empty_x(&self, x0: int, y0: int, y1: int, i: int)
        ensures
            !self.covers(x0, x0, y0, y1, i),
    {
    }
}


/// The four components of a color built by `EmbedBitmap::rgba` are the ones it was built from.
pub proof fn lemma_color_channels(r: u8, g: u8, b: u8, a: u8)
    ensures
        red_of(color_of(r, g, b, a)) == r,
        green_of(color_of(r, g, b, a)) == g,
        blue_of(color_of(r, g, b, a)) == b,
        alpha_of(color_of(r, g, b, a)) == a,
{
    let c = a * 0x1000000 + r * 0x10000 + g * 0x100 + b;
    assert(0 <= c < 0x100000000) by (nonlinear_arith)
        requires
            c == a * 0x1000000 + r * 0x10000 + g * 0x100 + b,
            0 <= r < 0x100,
            0 <= g < 0x100,
            0 <= b < 0x100,
            0 <= a < 0x100,
    ;
    assert((c / 0x10000) % 0x100 == r && (c / 0x100) % 0x100 == g && c % 0x100 == b && c
        / 0x1000000 == a) by (nonlinear_arith)
        requires
            c == a * 0x1000000 + r * 0x10000 + g * 0x100 + b,
            0 <= r < 0x100,
            0 <= g < 0x100,
            0 <= b < 0x100,
            0 <= a < 0x100,
    ;
}

/// Every color is the one `EmbedBitmap::rgba` builds from its four components.
pub proof fn lemma_color_recompose(pixel: u32)
    ensures
        color_of(red_of(pixel), green_of(pixel), blue_of(pixel), alpha_of(pixel)) == pixel,
{
    let p = pixel as int;
    assert(p == (p / 0x1000000) * 0x1000000 + ((p / 0x10000) % 0x100) * 0x10000 + ((p / 0x100)
        % 0x100) * 0x100 + p % 0x100) by (nonlinear_arith)
        requires
            0 <= p < 0x100000000,
    ;
}

impl BitmapLayout {
    /// Reading a pixel right after writing it gives the written color, whenever the pixel
    /// is readable at all.
    pub proof fn lemma_read_after_write(&self, s: Seq<u32>, x: int, y: int, color: u32)
        ensures
            self.read(self.write(s, x, y, color), x, y) == (if self.read(s, x, y) is Some {
                Some(color)
            } else {
                None
            }),
    {
    }

    /// Writing a pixel leaves every pixel stored at another buffer position as it was.
    pub proof fn lemma_write_keeps_others(
        &self,
        s: Seq<u32>,
        x: int,
        y: int,
        color: u32,
        x2: int,
        y2: int,
    )
        requires
            self.address(x2, y2) != self.address(x, y),
        ensures
            self.read(self.write(s, x, y, color), x2, y2) == self.read(s, x2, y2),
    {
    }

    /// After a rectangle fill, every readable pixel inside the rectangle holds the fill color,
    /// and every buffer position that no pixel of the rectangle maps to is unchanged.
    pub proof fn lemma_filled_reads(
        &self,
        s: Seq<u32>,
        x0: int,
        x1: int,
        y0: int,
        y1: int,
        color: u32,
        x: int,
        y: int,
    )
        ensures
            x0 <= x < x1 && y0 <= y < y1 && self.read(s, x, y) is Some ==> self.read(
                self.filled(s, x0, x1, y0, y1, color),
                x,
                y,
            ) == Some(color),
            self.read(s, x, y) is Some && !self.covers(x0, x1, y0, y1, self.address(x, y))
                ==> self.read(self.filled(s, x0, x1, y0, y1, color), x, y) == self.read(s, x, y),
    {
        if x0 <= x < x1 && y0 <= y < y1 && self.read(s, x, y) is Some {
            assert(self.covers(x0, x1, y0, y1, self.address(x, y)));
        }
    }

    /// After clearing, every readable pixel holds the clear color.
    pub proof fn lemma_cleared_reads(&self, s: Seq<u32>, color: u32, x: int, y: int)
        requires
            self.read(s, x, y) is Some,
        ensures
            self.read(self.filled(s, 0, self.width as int, 0, self.height as int, color), x, y)
                == Some(color),
    {
        self.lemma_filled_reads(s, 0, self.width as int, 0, self.height as int, color, x, y);
    }
}

/// A wrapper around the host-provided bitmap buffer for rendering.
///
/// The bitmap uses BGRA pixel format (blue in the lowest byte, alpha in the highest).
/// Use the `pixel()` and `set_pixel()` methods, or access the raw buffer directly.
pub struct EmbedBitmap<'a> {
    /// Raw pixel data in BGRA format.
    pub bits: &'a mut [u32],
    /// Width of the bitmap in pixels.
    pub width: u32,
    /// Height of the bitmap in pixels.
    pub height: u32,
    /// Row stride in u32 units (may be larger than width for alignment).
    pub row_span: u32,
    /// Whether the bitmap is flipped vertically.
    pub flipped: bool,
}

impl<'a> EmbedBitmap<'a> {
    /// The pixel buffer's contents.
    pub open spec fn pixels(&self) -> Seq<u32> {
        self.bits@
    }

    /// The bitmap's shape.
    pub open spec fn layout(&self) -> BitmapLayout {
        BitmapLayout {
            width: self.width,
            height: self.height,
            row_span: self.row_span,
            flipped: self.flipped,
        }
    }

    /// Create a new EmbedBitmap wrapper.
    ///
    /// The `bits` slice should have at least `row_span * height` elements; pixels whose
    /// position lies past its end are skipped by every accessor.
    pub fn new(bits: &'a mut [u32], width: u32, height: u32, row_span: u32, flipped: bool) -> (r:
        Self)
        ensures
            r.pixels() == old(bits)@,
            r.width == width,
            r.height == height,
            r.row_span == row_span,
            r.flipped == flipped,
    {
        Self { bits, width, height, row_span, flipped }
    }

    /// Create a BGRA color value from components.
    #[inline]
    pub fn rgba(r: u8, g: u8, b: u8, a: u8) -> (c: u32)
        ensures
            c == color_of(r, g, b, a),
    {
        let c = (b as u32) | ((g as u32) << 8) | ((r as u32) << 16) | ((a as u32) << 24);
        assert(c == (a as u32) * 0x1000000 + (r as u32) * 0x10000 + (g as u32) * 0x100 + (b as u32))
            by (bit_vector)
            requires
                c == (b as u32) | ((g as u32) << 8) | ((r as u32) << 16) | ((a as u32) << 24),
        ;
        c
    }

    /// Extract the red component from a pixel.
    #[inline]
    pub fn get_r(pixel: u32) -> (r: u8)
        ensures
            r == red_of(pixel),
    {
        assert(((pixel >> 16) & 0xff) == (pixel / 0x10000) % 0x100) by (bit_vector);
        ((pixel >> 16) & 0xff) as u8
    }

    /// Extract the green component from a pixel.
    #[inline]
    pub fn get_g(pixel: u32) -> (g: u8)
        ensures
            g == green_of(pixel),
    {
        assert(((pixel >> 8) & 0xff) == (pixel / 0x100) % 0x100) by (bit_vector);
        ((pixel >> 8) & 0xff) as u8
    }

    /// Extract the blue component from a pixel.
    #[inline]
    pub fn get_b(pixel: u32) -> (b: u8)
        ensures
            b == blue_of(pixel),
    {
        assert((pixel & 0xff) == pixel % 0x100) by (bit_vector);
        (pixel & 0xff) as u8
    }

    /// Extract the alpha component from a pixel.
    #[inline]
    pub fn get_a(pixel: u32) -> (a: u8)
        ensures
            a == alpha_of(pixel),
    {
        assert(((pixel >> 24) & 0xff) == pixel / 0x1000000) by (bit_vector);
        ((pixel >> 24) & 0xff) as u8
    }

    /// Get the index into the bits array for a given pixel coordinate.
    #[inline]
    fn pixel_index(&self, x: u32, y: u32) -> (r: usize)
        requires
            self.layout().in_bounds(x as int, y as int),
            self.layout().address(x as int, y as int) <= u32::MAX,
        ensures
            r as int == self.layout().address(x as int, y as int),
    {
        proof {
            self.layout().lemma_address_nonneg(x as int, y as int);
        }
        let y = if self.flipped {
            self.height.saturating_sub(1).saturating_sub(y)
        } else {
            y
        };
        (y * self.row_span + x) as usize
    }

    /// Get the pixel value at (x, y), or None if out of bounds.
    pub fn pixel(&self, x: u32, y: u32) -> (r: Option<u32>)
        requires
            self.layout().in_bounds(x as int, y as int) ==> self.layout().address(x as int, y as int)
                <= u32::MAX,
        ensures
            r == self.layout().read(self.pixels(), x as int, y as int),
    {
        if x < self.width && y < self.height {
            let idx = self.pixel_index(x, y);
            if idx < self.bits.len() {
                Some(self.bits[idx])
            } else {
                None
            }
        } else {
            None
        }
    }

    /// Set the pixel value at (x, y). Does nothing if out of bounds.
    pub fn set_pixel(&mut self, x: u32, y: u32, color: u32)
        requires
            old(self).layout().in_bounds(x as int, y as int) ==> old(self).layout().address(
                x as int,
                y as int,
            ) <= u32::MAX,
        ensures
            final(self).layout() == old(self).layout(),
            final(self).pixels() == old(self).layout().write(
                old(self).pixels(),
                x as int,
                y as int,
                color,
            ),
    {
        if x < self.width && y < self.height {
            let idx = self.pixel_index(x, y);
            if idx < self.bits.len() {
                self.bits[idx] = color;
            }
        }
    }

    /// Set every in-bounds pixel of `[x0, x1) × [y0, y1)` to `color`, row by row.
    fn fill_span(&mut self, x0: u32, x1: u32, y0: u32, y1: u32, color: u32)
        requires
            old(self).layout().addresses_fit(x0 as int, x1 as int, y0 as int, y1 as int),
        ensures
            final(self).layout() == old(self).layout(),
            final(self).pixels() == old(self).layout().filled(
                old(self).pixels(),
                x0 as int,
                x1 as int,
                y0 as int,
                y1 as int,
                color,
            ),
    {
        let ghost lay = self.layout();
        let ghost start = self.pixels();
        if y0 >= y1 {
            assert(self.pixels() =~= lay.filled(start, x0 as int, x1 as int, y0 as int, y1 as int, color));
            return ;
        }
        let mut py = y0;
        while py < y1
            invariant
                y0 <= py <= y1,
                self.layout() == lay,
                lay.addresses_fit(x0 as int, x1 as int, y0 as int, y1 as int),
                self.pixels().len() == start.len(),
                forall|i: int|
                    0 <= i < start.len() ==> #[trigger] self.pixels()[i] == (if lay.covers(
                        x0 as int,
                        x1 as int,
                        y0 as int,
                        py as int,
                        i,
                    ) {
                        color
                    } else {
                        start[i]
                    }),
            decreases y1 - py,
        {
            let mut px = x0;
            if px < x1 {
                while px < x1
                    invariant
                        x0 <= px <= x1,
                        y0 <= py < y1,
                        self.layout() == lay,
                        lay.addresses_fit(x0 as int, x1 as int, y0 as int, y1 as int),
                        self.pixels().len() == start.len(),
                        forall|i: int|
                            0 <= i < start.len() ==> #[trigger] self.pixels()[i] == (if lay.covers(
                                x0 as int,
                                x1 as int,
                                y0 as int,
                                py as int,
                                i,
                            ) || lay.covers(x0 as int, px as int, py as int, py + 1, i) {
                                color
                            } else {
                                start[i]
                            }),
                    decreases x1 - px,
                {
                    let ghost before = self.pixels();
                    assert(lay.in_bounds(px as int, py as int) ==> lay.address(px as int, py as int)
                        <= u32::MAX);
                    self.set_pixel(px, py, color);
                    proof {
                        if lay.in_bounds(px as int, py as int) {
                            lay.lemma_address_nonneg(px as int, py as int);
                        }
                        assert forall|i: int| 0 <= i < start.len() implies #[trigger] self.pixels()[i]
                            == (if lay.covers(x0 as int, x1 as int, y0 as int, py as int, i)
                            || lay.covers(x0 as int, px + 1, py as int, py + 1, i) {
                            color
                        } else {
                            start[i]
                        }) by {
                            lay.lemma_covers_extend_x(x0 as int, px as int, py as int, i);
                        }
                    }
                    px = px + 1;
                }
            } else {
                proof {
                    assert forall|i: int| 0 <= i < start.len() implies !#[trigger] lay.covers(
                        x0 as int,
                        px as int,
                        py as int,
                        py + 1,
                        i,
                    ) by {
                        lay.lemma_covers_empty_x(x0 as int, py as int, py + 1, i);
                    }
                }
            }
            proof {
                assert forall|i: int| 0 <= i < start.len() implies #[trigger] self.pixels()[i] == (
                if lay.covers(x0 as int, x1 as int, y0 as int, py + 1, i) {
                    color
                } else {
                    start[i]
                }) by {
                    lay.lemma_covers_extend_y(x0 as int, x1 as int, y0 as int, py as int, i);
                    if !(x0 < x1) {
                        if lay.covers(x0 as int, x1 as int, py as int, py + 1, i) {
                            let (a, b) = choose|a: int, b: int|
                                x0 <= a < x1 && py <= b < py + 1 && lay.in_bounds(a, b)
                                    && #[trigger] lay.address(a, b) == i;
                        }
                    }
                }
            }
            py = py + 1;
        }
        assert(self.pixels() =~= lay.filled(start, x0 as int, x1 as int, y0 as int, y1 as int, color));
    }

    /// Fill the entire bitmap with a solid color.
    pub fn clear(&mut self, color: u32)
        requires
            old(self).layout().addresses_fit(0, old(self).width as int, 0, old(self).height as int),
        ensures
            final(self).layout() == old(self).layout(),
            final(self).pixels() == old(self).layout().filled(
                old(self).pixels(),
                0,
                old(self).width as int,
                0,
                old(self).height as int,
                color,
            ),
    {
        let w = self.width;
        let h = self.height;
        self.fill_span(0, w, 0, h, color);
    }

    /// The exclusive end of a span ending at `end`, clipped as the drawing operations clip it.
    fn clip_end(end: i32, limit: u32) -> (r: u32)
        ensures
            r as int == span_end(end as int, limit),
    {
        if limit > 2147483647u32 {
            limit
        } else {
            let lim = limit as i32;
            let e = if end > 0 {
                end
            } else {
                0
            };
            if e < lim {
                e as u32
            } else {
                limit
            }
        }
    }

    /// `v` with negative values replaced by zero.
    fn clip_start(v: i32) -> (r: u32)
        ensures
            r as int == non_negative(v as int),
    {
        if v > 0 {
            v as u32
        } else {
            0
        }
    }

    /// Fill a rectangle with a solid color.
    pub fn fill_rect(&mut self, x: i32, y: i32, w: i32, h: i32, color: u32)
        requires
            i32::MIN <= x + w <= i32::MAX,
            i32::MIN <= y + h <= i32::MAX,
            old(self).layout().addresses_fit(
                non_negative(x as int),
                span_end(x + w, old(self).width),
                non_negative(y as int),
                span_end(y + h, old(self).height),
            ),
        ensures
            final(self).layout() == old(self).layout(),
            final(self).pixels() == old(self).layout().filled(
                old(self).pixels(),
                non_negative(x as int),
                span_end(x + w, old(self).width),
                non_negative(y as int),
                span_end(y + h, old(self).height),
                color,
            ),
    {
        let x0 = Self::clip_start(x);
        let y0 = Self::clip_start(y);
        let x1 = Self::clip_end(x + w, self.width);
        let y1 = Self::clip_end(y + h, self.height);
        self.fill_span(x0, x1, y0, y1, color);
    }

    /// Draw a horizontal line.
    pub fn hline(&mut self, x: i32, y: i32, w: i32, color: u32)
        requires
            old(self).layout().hline_ok(x as int, y as int, w as int),
        ensures
            final(self).layout() == old(self).layout(),
            final(self).pixels() == old(self).layout().hline_result(
                old(self).pixels(),
                x as int,
                y as int,
                w as int,
                color,
            ),
    {
        if y < 0 || self.height > 2147483647u32 || y >= self.height as i32 {
            return ;
        }
        let x0 = Self::clip_start(x);
        let x1 = Self::clip_end(x + w, self.width);
        let y = y as u32;
        self.fill_span(x0, x1, y, y + 1, color);
    }

    /// Draw a vertical line.
    pub fn vline(&mut self, x: i32, y: i32, h: i32, color: u32)
        requires
            old(self).layout().vline_ok(x as int, y as int, h as int),
        ensures
            final(self).layout() == old(self).layout(),
            final(self).pixels() == old(self).layout().vline_result(
                old(self).pixels(),
                x as int,
                y as int,
                h as int,
                color,
            ),
    {
        if x < 0 || self.width > 2147483647u32 || x >= self.width as i32 {
            return ;
        }
        let y0 = Self::clip_start(y);
        let y1 = Self::clip_end(y + h, self.height);
        let x = x as u32;
        self.fill_span(x, x + 1, y0, y1, color);
    }

    /// Draw a rectangle outline (1 pixel border).
    pub fn draw_rect(&mut self, x: i32, y: i32, w: i32, h: i32, color: u32)
        requires
            i32::MIN < x + w <= i32::MAX,
            i32::MIN < y + h <= i32::MAX,
            old(self).layout().hline_ok(x as int, y as int, w as int),
            old(self).layout().hline_ok(x as int, y + h - 1, w as int),
            old(self).layout().vline_ok(x as int, y as int, h as int),
            old(self).layout().vline_ok(x + w - 1, y as int, h as int),
        ensures
            final(self).layout() == old(self).layout(),
            final(self).pixels() == old(self).layout().outline_result(
                old(self).pixels(),
                x as int,
                y as int,
                w as int,
                h as int,
                color,
            ),
    {
        self.hline(x, y, w, color);
        self.hline(x, y + h - 1, w, color);
        self.vline(x, y, h, color);
        self.vline(x + w - 1, y, h, color);
    }
}

} // verus!
