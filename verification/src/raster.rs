//! The mathematical model of a raster of 24-bit pixels.
//!
//! A raster is `width * height` pixels stored row by row, three bytes a pixel
//! (red, green, blue) and no padding. Everything the executable code does to
//! a pixel buffer is stated over this model.

use vstd::arithmetic::div_mod::{lemma_fundamental_div_mod, lemma_fundamental_div_mod_converse};
use vstd::arithmetic::mul::lemma_mul_is_commutative;
use vstd::prelude::*;

verus! {

/// One pixel: a red, a green and a blue channel of eight bits each.
#[derive(Clone, Copy, Debug, PartialEq, Eq, Structural)]
pub struct Pixel {
    pub r: u8,
    pub g: u8,
    pub b: u8,
}

impl Pixel {
    /// The pixel with the given channels.
    pub fn new(r: u8, g: u8, b: u8) -> (px: Pixel)
        ensures
            px == (Pixel { r, g, b }),
    {
        Pixel { r, g, b }
    }
}

/// A rectangle of pixel coordinates: the columns `x_start..x_end` and the
/// rows `y_start..y_end`, both half-open.
pub struct Region {
    pub x_start: int,
    pub x_end: int,
    pub y_start: int,
    pub y_end: int,
}

impl Region {
    /// Neither range runs backwards or starts below zero.
    pub open spec fn wf(self) -> bool {
        0 <= self.x_start <= self.x_end && 0 <= self.y_start <= self.y_end
    }

    pub open spec fn width(self) -> int {
        self.x_end - self.x_start
    }

    pub open spec fn height(self) -> int {
        self.y_end - self.y_start
    }

    pub open spec fn contains(self, x: int, y: int) -> bool {
        self.x_start <= x < self.x_end && self.y_start <= y < self.y_end
    }

    /// The rectangle lies inside an image of the given size.
    pub open spec fn within(self, width: int, height: int) -> bool {
        self.wf() && self.x_end <= width && self.y_end <= height
    }

    /// The same rectangle with its top-left corner moved to `(x, y)`.
    pub open spec fn moved_to(self, x: int, y: int) -> Region {
        Region { x_start: x, x_end: x + self.width(), y_start: y, y_end: y + self.height() }
    }

    /// The rectangle is one that region selection can produce for an image of
    /// `img_width * img_height` pixels and the given minimum size: on each
    /// axis the start is drawn first, and the end is drawn at least the
    /// minimum behind it and strictly below the image's extent.
    pub open spec fn selectable(
        self,
        img_width: int,
        img_height: int,
        min_width: int,
        min_height: int,
    ) -> bool {
        &&& 0 <= self.x_start
        &&& self.x_start + min_width <= self.x_end < img_width
        &&& 0 <= self.y_start
        &&& self.y_start + min_height <= self.y_end < img_height
    }

    /// `offset` is one that destination selection can produce on one axis
    /// for a rectangle of `extent` pixels in an image of `img_extent`: drawn
    /// from `0..img_extent - extent`, or 0 where the rectangle spans the whole
    /// axis and leaves nothing to draw from.
    pub open spec fn placed(offset: int, extent: int, img_extent: int) -> bool {
        if extent < img_extent {
            0 <= offset < img_extent - extent
        } else {
            offset == 0
        }
    }

    /// `(dx, dy)` is a place where the rectangle fits into an image of the
    /// given size.
    pub open spec fn fits_at(self, dx: int, dy: int, img_width: int, img_height: int) -> bool {
        &&& 0 <= dx
        &&& dx + self.width() <= img_width
        &&& 0 <= dy
        &&& dy + self.height() <= img_height
    }

    /// Whatever is drawn, a selected rectangle is not empty, lies inside the
    /// image and is at least as large as the minimum, for every image that is
    /// larger than a minimum of at least one pixel on both axes.
    pub proof fn lemma_selected_is_valid(
        self,
        img_width: int,
        img_height: int,
        min_width: int,
        min_height: int,
    )
        requires
            1 <= min_width < img_width,
            1 <= min_height < img_height,
            self.selectable(img_width, img_height, min_width, min_height),
        ensures
            0 <= self.x_start < self.x_end <= img_width,
            0 <= self.y_start < self.y_end <= img_height,
            self.width() >= min_width,
            self.height() >= min_height,
            self.within(img_width, img_height),
    {
    }

    /// Whatever is drawn, a rectangle that is no larger than the image lies
    /// inside the image once it is moved to a selected place.
    pub proof fn lemma_placed_is_inside(self, dx: int, dy: int, img_width: int, img_height: int)
        requires
            self.wf(),
            self.width() <= img_width,
            self.height() <= img_height,
            Self::placed(dx, self.width(), img_width),
            Self::placed(dy, self.height(), img_height),
        ensures
            self.fits_at(dx, dy, img_width, img_height),
            self.moved_to(dx, dy).within(img_width, img_height),
            forall|x: int, y: int|
                #[trigger] self.moved_to(dx, dy).contains(x, y) ==> 0 <= x < img_width && 0 <= y
                    < img_height,
    {
    }
}

/// A raster as a value: its size and its bytes.
pub struct Raster {
    pub width: nat,
    pub height: nat,
    pub bytes: Seq<u8>,
}

impl Raster {
    /// The byte store holds exactly three bytes for each pixel.
    pub open spec fn wf(self) -> bool {
        self.bytes.len() == self.width * self.height * 3
    }

    pub open spec fn contains(self, x: int, y: int) -> bool {
        0 <= x < self.width && 0 <= y < self.height
    }

    /// Where the first byte of the pixel at `(x, y)` stands.
    pub open spec fn offset(self, x: int, y: int) -> int {
        3 * (self.width * y + x)
    }

    /// The pixel at `(x, y)`.
    pub open spec fn pixel(self, x: int, y: int) -> Pixel {
        Pixel {
            r: self.bytes[self.offset(x, y)],
            g: self.bytes[self.offset(x, y) + 1],
            b: self.bytes[self.offset(x, y) + 2],
        }
    }

    /// The raster with the pixel at `(x, y)` replaced by `px`.
    pub open spec fn with_pixel(self, x: int, y: int, px: Pixel) -> Raster {
        Raster {
            width: self.width,
            height: self.height,
            bytes: self.bytes.update(self.offset(x, y), px.r).update(
                self.offset(x, y) + 1,
                px.g,
            ).update(self.offset(x, y) + 2, px.b),
        }
    }

    /// Byte `k` of the raster after `region` of `source` was copied to
    /// `(dx, dy)`: a byte of a pixel inside the moved rectangle comes from
    /// the pixel of `source` at the same place within `region`, every other
    /// byte stays.
    pub open spec fn pasted_byte(
        self,
        source: Raster,
        region: Region,
        dx: int,
        dy: int,
        k: int,
    ) -> u8 {
        let x = (k / 3) % (self.width as int);
        let y = (k / 3) / (self.width as int);
        if region.moved_to(dx, dy).contains(x, y) {
            source.bytes[source.offset(x - dx + region.x_start, y - dy + region.y_start) + k % 3]
        } else {
            self.bytes[k]
        }
    }

    /// The raster after `region` of `source` was copied to `(dx, dy)`.
    pub open spec fn pasted(self, source: Raster, region: Region, dx: int, dy: int) -> Raster {
        Raster {
            width: self.width,
            height: self.height,
            bytes: Seq::new(
                self.bytes.len(),
                |k: int| self.pasted_byte(source, region, dx, dy, k),
            ),
        }
    }

    /// The three bytes of a pixel inside the raster lie inside its byte store.
    pub proof fn lemma_offset_bounds(self, x: int, y: int)
        requires
            self.wf(),
            self.contains(x, y),
        ensures
            0 <= self.width * y,
            0 <= self.width * y + x < self.width * self.height,
            0 <= self.offset(x, y),
            self.offset(x, y) + 3 <= self.bytes.len(),
    {
        let w = self.width as int;
        let h = self.height as int;
        assert(0 <= w * y && w * y + x < w * h) by (nonlinear_arith)
            requires
                0 <= x < w,
                0 <= y < h,
        ;
    }

    /// Different pixels of one row length start at different offsets.
    pub proof fn lemma_offset_injective(w: int, x1: int, y1: int, x2: int, y2: int)
        requires
            0 <= x1 < w,
            0 <= x2 < w,
            w * y1 + x1 == w * y2 + x2,
        ensures
            x1 == x2,
            y1 == y2,
    {
        assert(y1 == y2) by (nonlinear_arith)
            requires
                0 <= x1 < w,
                0 <= x2 < w,
                w * y1 + x1 == w * y2 + x2,
        ;
    }

    /// Every byte of a well-formed raster is one channel of one pixel inside
    /// it.
    pub proof fn lemma_byte_of_pixel(self, k: int)
        requires
            self.wf(),
            0 <= k < self.bytes.len(),
        ensures
            self.width > 0,
            self.contains((k / 3) % (self.width as int), (k / 3) / (self.width as int)),
            k == self.offset((k / 3) % (self.width as int), (k / 3) / (self.width as int)) + k % 3,
    {
        let w = self.width as int;
        let h = self.height as int;
        let p = k / 3;
        assert(w > 0 && 0 <= p < w * h) by (nonlinear_arith)
            requires
                0 <= k < w * h * 3,
                0 <= w,
                0 <= h,
                p == k / 3,
        ;
        lemma_fundamental_div_mod(p, w);
        assert(0 <= p / w < h) by (nonlinear_arith)
            requires
                0 <= p < w * h,
                w > 0,
                p == w * (p / w) + (p % w),
                0 <= p % w < w,
        ;
    }

    /// The byte at channel `c` of the pixel at `(x, y)` belongs to no other
    /// pixel.
    pub proof fn lemma_pixel_of_byte(self, x: int, y: int, c: int)
        requires
            self.contains(x, y),
            0 <= c < 3,
        ensures
            ((self.offset(x, y) + c) / 3) % (self.width as int) == x,
            ((self.offset(x, y) + c) / 3) / (self.width as int) == y,
            (self.offset(x, y) + c) % 3 == c,
    {
        let w = self.width as int;
        let p = w * y + x;
        assert((3 * p + c) / 3 == p);
        lemma_mul_is_commutative(w, y);
        lemma_fundamental_div_mod_converse(p, w, y, x);
    }

    /// Replacing one pixel changes that pixel and no other.
    pub proof fn lemma_with_pixel(self, x: int, y: int, px: Pixel)
        requires
            self.wf(),
            self.contains(x, y),
        ensures
            self.with_pixel(x, y, px).wf(),
            self.with_pixel(x, y, px).pixel(x, y) == px,
            forall|x2: int, y2: int|
                self.contains(x2, y2) && !(x2 == x && y2 == y) ==> #[trigger] self.with_pixel(
                    x,
                    y,
                    px,
                ).pixel(x2, y2) == self.pixel(x2, y2),
    {
        let after = self.with_pixel(x, y, px);
        self.lemma_offset_bounds(x, y);
        assert forall|x2: int, y2: int|
            self.contains(x2, y2) && !(x2 == x && y2 == y) implies #[trigger] after.pixel(x2, y2)
            == self.pixel(x2, y2) by {
            self.lemma_offset_bounds(x2, y2);
            if self.width * y2 + x2 == self.width * y + x {
                Self::lemma_offset_injective(self.width as int, x2, y2, x, y);
            }
        }
    }

    /// Two well-formed rasters of one size that agree on every pixel are the
    /// same raster.
    pub proof fn lemma_same_pixels(self, other: Raster)
        requires
            self.wf(),
            other.wf(),
            self.width == other.width,
            self.height == other.height,
            forall|x: int, y: int|
                self.contains(x, y) ==> #[trigger] self.pixel(x, y) == other.pixel(x, y),
        ensures
            self == other,
    {
        assert forall|k: int| 0 <= k < self.bytes.len() implies self.bytes[k] == other.bytes[k] by {
            self.lemma_byte_of_pixel(k);
            let x = (k / 3) % (self.width as int);
            let y = (k / 3) / (self.width as int);
            assert(self.pixel(x, y) == other.pixel(x, y));
        }
        assert(self.bytes =~= other.bytes);
    }

    /// A copy of a rectangle to the place where it already stands makes the
    /// destination equal to the source on every pixel of the rectangle.
    pub proof fn lemma_copy_in_place(self, source: Raster, region: Region)
        requires
            self.wf(),
            source.wf(),
            region.within(source.width as int, source.height as int),
            region.within(self.width as int, self.height as int),
        ensures
            forall|x: int, y: int|
                region.contains(x, y) ==> #[trigger] self.pasted(
                    source,
                    region,
                    region.x_start,
                    region.y_start,
                ).pixel(x, y) == source.pixel(x, y),
    {
        self.lemma_pasted(source, region, region.x_start, region.y_start);
        let after = self.pasted(source, region, region.x_start, region.y_start);
        assert forall|x: int, y: int| region.contains(x, y) implies #[trigger] after.pixel(x, y)
            == source.pixel(x, y) by {
            assert(self.contains(x, y));
            assert(region.moved_to(region.x_start, region.y_start).contains(x, y));
        }
    }

    /// A copy of a rectangle of a raster onto the same rectangle of an equal
    /// raster changes nothing.
    pub proof fn lemma_copy_in_place_of_equal(self, region: Region)
        requires
            self.wf(),
            region.within(self.width as int, self.height as int),
        ensures
            self.pasted(self, region, region.x_start, region.y_start) == self,
    {
        self.lemma_pasted(self, region, region.x_start, region.y_start);
        let after = self.pasted(self, region, region.x_start, region.y_start);
        after.lemma_same_pixels(self);
    }

    /// After a copy, a pixel inside the moved rectangle is the pixel of
    /// `source` at the same place within `region`, and every other pixel is
    /// what it was.
    pub proof fn lemma_pasted(self, source: Raster, region: Region, dx: int, dy: int)
        requires
            self.wf(),
            source.wf(),
            region.within(source.width as int, source.height as int),
            region.fits_at(dx, dy, self.width as int, self.height as int),
        ensures
            self.pasted(source, region, dx, dy).wf(),
            forall|x: int, y: int|
                self.contains(x, y) ==> #[trigger] self.pasted(source, region, dx, dy).pixel(x, y)
                    == if region.moved_to(dx, dy).contains(x, y) {
                    source.pixel(x - dx + region.x_start, y - dy + region.y_start)
                } else {
                    self.pixel(x, y)
                },
    {
        let after = self.pasted(source, region, dx, dy);
        assert forall|x: int, y: int| self.contains(x, y) implies #[trigger] after.pixel(x, y)
            == if region.moved_to(dx, dy).contains(x, y) {
            source.pixel(x - dx + region.x_start, y - dy + region.y_start)
        } else {
            self.pixel(x, y)
        } by {
            self.lemma_offset_bounds(x, y);
            self.lemma_pixel_of_byte(x, y, 0);
            self.lemma_pixel_of_byte(x, y, 1);
            self.lemma_pixel_of_byte(x, y, 2);
        }
    }
}

} // verus!
