//! The pixel buffer: a raster of 24-bit pixels in one contiguous byte store.

use crate::codec::{decode_rgb8, decoded_rgb8, encode_rgb8, encoded_rgb8, DecodeError, EncodeError};
pub use crate::raster::Pixel;
use crate::raster::Raster;
pub use crate::span::{get_random_span, random_transpose, Span};
use image::ImageFormat;
use vstd::prelude::*;

verus! {

/// A raster of `width * height` pixels, stored row by row with three bytes a
/// pixel and no padding. The size is fixed when the buffer is made.
#[derive(Debug)]
pub struct ImageBuf {
    width: u32,
    height: u32,
    buf: Vec<u8>,
}

impl View for ImageBuf {
    type V = Raster;

    closed spec fn view(&self) -> Raster {
        Raster { width: self.width as nat, height: self.height as nat, bytes: self.buf@ }
    }
}

impl ImageBuf {
    /// The byte store holds exactly `width * height * 3` bytes. Every buffer
    /// that this library hands out is well formed.
    pub open spec fn wf(&self) -> bool {
        self@.wf()
    }

    /// The buffer of the given size over the given bytes, unless their number
    /// is not `width * height * 3`.
    pub fn from_raw(width: u32, height: u32, bytes: Vec<u8>) -> (img: Option<ImageBuf>)
        ensures
            img is Some <==> bytes@.len() == width * height * 3,
            img matches Some(b) ==> b.wf() && b@ == (Raster {
                width: width as nat,
                height: height as nat,
                bytes: bytes@,
            }),
    {
        assert(width * height * 3 <= 0xffff_ffff * 0xffff_ffff * 3) by (nonlinear_arith)
            requires
                0 <= width <= 0xffff_ffff,
                0 <= height <= 0xffff_ffff,
        ;
        let wanted: u128 = width as u128 * height as u128 * 3;
        if bytes.len() as u128 == wanted {
            Some(ImageBuf { width, height, buf: bytes })
        } else {
            None
        }
    }

    /// Decodes the contents `bytes` of a still-image file of the given
    /// format into a buffer of 8-bit RGB pixels.
    ///
    /// Fails where the `image` crate cannot decode the contents, and where
    /// what it decoded does not hold three bytes for each pixel.
    pub fn decode(bytes: &[u8], format: ImageFormat) -> (out: Result<ImageBuf, DecodeError>)
        ensures
            match decoded_rgb8(bytes@, format) {
                Some(parts) => if parts.2.len() == parts.0 * parts.1 * 3 {
                    out matches Ok(img) && img.wf() && img@ == (Raster {
                        width: parts.0 as nat,
                        height: parts.1 as nat,
                        bytes: parts.2,
                    })
                } else {
                    out matches Err(DecodeError::Layout)
                },
                None => out matches Err(DecodeError::Codec(_)),
            },
    {
        match decode_rgb8(bytes, format) {
            Ok(parts) => match ImageBuf::from_raw(parts.0, parts.1, parts.2) {
                Some(img) => Ok(img),
                None => Err(DecodeError::Layout),
            },
            Err(error) => Err(DecodeError::Codec(error)),
        }
    }

    /// Encodes the buffer as the contents of a still-image file of the given
    /// format. Fails where the `image` crate cannot encode it so.
    pub fn encode(&self, format: ImageFormat) -> (out: Result<Vec<u8>, EncodeError>)
        requires
            self.wf(),
        ensures
            match encoded_rgb8(self@.width as u32, self@.height as u32, self@.bytes, format) {
                Some(file) => out matches Ok(v) && v@ == file,
                None => out is Err,
            },
    {
        match encode_rgb8(self.width, self.height, self.buf.as_slice(), format) {
            Ok(file) => Ok(file),
            Err(error) => Err(EncodeError(error)),
        }
    }

    /// The number of columns.
    pub fn width(&self) -> (w: u32)
        ensures
            w == self@.width,
    {
        self.width
    }

    /// The number of rows.
    pub fn height(&self) -> (h: u32)
        ensures
            h == self@.height,
    {
        self.height
    }

    /// The pixel at column `x` of row `y`.
    pub fn get_pixel(&self, x: u32, y: u32) -> (px: Pixel)
        requires
            self.wf(),
            self@.contains(x as int, y as int),
        ensures
            px == self@.pixel(x as int, y as int),
    {
        proof {
            self@.lemma_offset_bounds(x as int, y as int);
            assert(self.buf@.len() == self.buf.len());
        }
        let i: usize = self.width as usize * y as usize + x as usize;
        let r: u8 = self.buf[3 * i];
        let g: u8 = self.buf[3 * i + 1];
        let b: u8 = self.buf[3 * i + 2];
        Pixel { r, g, b }
    }

    /// Replaces the pixel at column `x` of row `y` by `px`.
    pub fn set_pixel(&mut self, x: u32, y: u32, px: Pixel)
        requires
            old(self).wf(),
            old(self)@.contains(x as int, y as int),
        ensures
            final(self).wf(),
            final(self)@ == old(self)@.with_pixel(x as int, y as int, px),
    {
        proof {
            self@.lemma_offset_bounds(x as int, y as int);
            assert(self.buf@.len() == self.buf.len());
        }
        let i: usize = self.width as usize * y as usize + x as usize;
        self.buf[3 * i] = px.r;
        self.buf[3 * i + 1] = px.g;
        self.buf[3 * i + 2] = px.b;
    }

    /// Copies the rectangle `from` of `source` into this buffer, with its
    /// top-left corner at column `to.0` of row `to.1`, row by row. Every pixel
    /// outside the destination rectangle stays as it is.
    pub fn copy_chunk(&mut self, source: &ImageBuf, from: &Span, to: (u32, u32))
        requires
            old(self).wf(),
            source.wf(),
            from@.within(source@.width as int, source@.height as int),
            from@.fits_at(
                to.0 as int,
                to.1 as int,
                old(self)@.width as int,
                old(self)@.height as int,
            ),
        ensures
            final(self).wf(),
            final(self)@ == old(self)@.pasted(source@, from@, to.0 as int, to.1 as int),
    {
        let ghost before = self@;
        let ghost region = from@;
        let ghost target = region.moved_to(to.0 as int, to.1 as int);
        let ghost goal = before.pasted(source@, region, to.0 as int, to.1 as int);
        proof {
            before.lemma_pasted(source@, region, to.0 as int, to.1 as int);
        }
        let rows: u32 = from.height();
        let cols: u32 = from.width();
        let x0: u32 = from.x_start();
        let y0: u32 = from.y_start();
        let mut i: u32 = 0;
        while i < rows
            invariant
                i <= rows,
                rows == region.height(),
                cols == region.width(),
                x0 == region.x_start,
                y0 == region.y_start,
                before.wf(),
                source.wf(),
                region.within(source@.width as int, source@.height as int),
                region.fits_at(to.0 as int, to.1 as int, before.width as int, before.height as int),
                target == region.moved_to(to.0 as int, to.1 as int),
                self.wf(),
                self@.width == before.width,
                self@.height == before.height,
                goal.wf(),
                goal.width == before.width,
                goal.height == before.height,
                forall|x: int, y: int|
                    before.contains(x, y) ==> #[trigger] goal.pixel(x, y) == if target.contains(
                        x,
                        y,
                    ) {
                        source@.pixel(x - to.0 + region.x_start, y - to.1 + region.y_start)
                    } else {
                        before.pixel(x, y)
                    },
                forall|x: int, y: int|
                    before.contains(x, y) ==> #[trigger] self@.pixel(x, y) == if target.contains(
                        x,
                        y,
                    ) && y < to.1 + i {
                        goal.pixel(x, y)
                    } else {
                        before.pixel(x, y)
                    },
            decreases rows - i,
        {
            let mut j: u32 = 0;
            while j < cols
                invariant
                    i < rows,
                    j <= cols,
                    rows == region.height(),
                    cols == region.width(),
                    x0 == region.x_start,
                    y0 == region.y_start,
                    before.wf(),
                    source.wf(),
                    region.within(source@.width as int, source@.height as int),
                    region.fits_at(
                        to.0 as int,
                        to.1 as int,
                        before.width as int,
                        before.height as int,
                    ),
                    target == region.moved_to(to.0 as int, to.1 as int),
                    self.wf(),
                    self@.width == before.width,
                    self@.height == before.height,
                    forall|x: int, y: int|
                        before.contains(x, y) ==> #[trigger] goal.pixel(x, y)
                            == if target.contains(x, y) {
                            source@.pixel(x - to.0 + region.x_start, y - to.1 + region.y_start)
                        } else {
                            before.pixel(x, y)
                        },
                    forall|x: int, y: int|
                        before.contains(x, y) ==> #[trigger] self@.pixel(x, y)
                            == if target.contains(x, y) && (y < to.1 + i || (y == to.1 + i && x
                            < to.0 + j)) {
                            goal.pixel(x, y)
                        } else {
                            before.pixel(x, y)
                        },
                decreases cols - j,
            {
                let px = source.get_pixel(x0 + j, y0 + i);
                let ghost earlier = self@;
                self.set_pixel(to.0 + j, to.1 + i, px);
                proof {
                    earlier.lemma_with_pixel((to.0 + j) as int, (to.1 + i) as int, px);
                    assert(goal.pixel((to.0 + j) as int, (to.1 + i) as int) == px);
                }
                j += 1;
            }
            i += 1;
        }
        proof {
            self@.lemma_same_pixels(goal);
        }
    }

    /// The bytes of the buffer, row by row.
    pub fn as_slice(&self) -> (bytes: &[u8])
        ensures
            bytes@ == self@.bytes,
    {
        self.buf.as_slice()
    }
}

impl Clone for ImageBuf {
    /// A buffer of its own with the same size and the same bytes.
    fn clone(&self) -> (copy: Self)
        ensures
            copy@ == self@,
    {
        let buf = self.buf.clone();
        assert(buf@ =~= self.buf@);
        ImageBuf { width: self.width, height: self.height, buf }
    }
}

} // verus!
