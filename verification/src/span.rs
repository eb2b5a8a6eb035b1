//! Rectangular regions of an image.

use crate::raster::Region;
use crate::sampler::{Draw, Sampler, ThreadSampler};
use std::ops::Range;
use vstd::prelude::*;

verus! {

/// A rectangle of pixel coordinates, given by a half-open range of columns
/// and a half-open range of rows.
#[derive(Debug)]
pub struct Span {
    x: Range<u32>,
    y: Range<u32>,
}

impl View for Span {
    type V = Region;

    closed spec fn view(&self) -> Region {
        Region {
            x_start: self.x.start as int,
            x_end: self.x.end as int,
            y_start: self.y.start as int,
            y_end: self.y.end as int,
        }
    }
}

impl Span {
    /// Neither range runs backwards. Every span that this library hands out
    /// is well formed.
    pub open spec fn wf(&self) -> bool {
        self@.wf()
    }

    /// The span of the columns `x` and the rows `y`, unless one of the two
    /// ranges runs backwards.
    pub fn new(x: Range<u32>, y: Range<u32>) -> (span: Option<Span>)
        ensures
            span is Some <==> x.start <= x.end && y.start <= y.end,
            span matches Some(s) ==> s.wf() && s@ == (Region {
                x_start: x.start as int,
                x_end: x.end as int,
                y_start: y.start as int,
                y_end: y.end as int,
            }),
    {
        if x.start <= x.end && y.start <= y.end {
            Some(Span { x, y })
        } else {
            None
        }
    }

    /// The number of columns.
    pub fn width(&self) -> (w: u32)
        requires
            self.wf(),
        ensures
            w == self@.width(),
    {
        self.x.end - self.x.start
    }

    /// The number of rows.
    pub fn height(&self) -> (h: u32)
        requires
            self.wf(),
        ensures
            h == self@.height(),
    {
        self.y.end - self.y.start
    }

    /// The first column.
    pub fn x_start(&self) -> (v: u32)
        ensures
            v == self@.x_start,
    {
        self.x.start
    }

    /// The column behind the last one.
    pub fn x_end(&self) -> (v: u32)
        ensures
            v == self@.x_end,
    {
        self.x.end
    }

    /// The first row.
    pub fn y_start(&self) -> (v: u32)
        ensures
            v == self@.y_start,
    {
        self.y.start
    }

    /// The row behind the last one.
    pub fn y_end(&self) -> (v: u32)
        ensures
            v == self@.y_end,
    {
        self.y.end
    }
}

/// The draws that the selection of `region` makes, in their order: on each
/// axis the start from `0..img - min`, then the end from `start + min..img`,
/// the columns first.
pub open spec fn selection_draws(
    region: Region,
    img_width: int,
    img_height: int,
    min_width: int,
    min_height: int,
) -> Seq<Draw> {
    seq![
        Draw { low: 0, high: img_width - min_width, value: region.x_start },
        Draw { low: region.x_start + min_width, high: img_width, value: region.x_end },
        Draw { low: 0, high: img_height - min_height, value: region.y_start },
        Draw { low: region.y_start + min_height, high: img_height, value: region.y_end },
    ]
}

/// The draw that the selection of the offset `offset` makes on one axis, for
/// a rectangle of `extent` pixels in an image of `img_extent`: one from
/// `0..img_extent - extent`, or none where the rectangle spans the axis.
pub open spec fn offset_draws(offset: int, extent: int, img_extent: int) -> Seq<Draw> {
    if extent < img_extent {
        seq![Draw { low: 0, high: img_extent - extent, value: offset }]
    } else {
        Seq::empty()
    }
}

/// The draws that the selection of the place `(dx, dy)` for `region` makes,
/// in their order: the columns first.
pub open spec fn destination_draws(
    region: Region,
    dx: int,
    dy: int,
    img_width: int,
    img_height: int,
) -> Seq<Draw> {
    offset_draws(dx, region.width(), img_width) + offset_draws(dy, region.height(), img_height)
}

/// Selects a rectangle of an image of `img_width * img_height` pixels that is
/// at least `min_width` wide and `min_height` high, with the draws of
/// `sampler`.
///
/// On each axis the start is drawn from `0..img - min` and then the end from
/// `start + min..img`, the columns first: the rectangle is made of those four
/// draws and of nothing else. The image must be larger than the minimum on
/// both axes, or there is nothing to draw from.
pub fn select_span<S: Sampler>(
    sampler: &mut S,
    img_width: u32,
    img_height: u32,
    min_width: u32,
    min_height: u32,
) -> (span: Span)
    requires
        min_width < img_width,
        min_height < img_height,
    ensures
        span.wf(),
        span@.selectable(img_width as int, img_height as int, min_width as int, min_height as int),
        final(sampler).history() == old(sampler).history() + selection_draws(
            span@,
            img_width as int,
            img_height as int,
            min_width as int,
            min_height as int,
        ),
{
    let x_start: u32 = sampler.sample(0, img_width - min_width);
    let x_end: u32 = sampler.sample(x_start + min_width, img_width);
    let y_start: u32 = sampler.sample(0, img_height - min_height);
    let y_end: u32 = sampler.sample(y_start + min_height, img_height);
    let span = Span { x: x_start..x_end, y: y_start..y_end };
    assert(sampler.history() =~= old(sampler).history() + selection_draws(
        span@,
        img_width as int,
        img_height as int,
        min_width as int,
        min_height as int,
    ));
    span
}

/// Selects a place for `span` in an image of `img_width * img_height` pixels,
/// with the draws of `sampler`.
///
/// On each axis the offset is drawn from `0..img - extent`, the columns
/// first. Where the span is as wide (or as high) as the image that range is
/// empty: the offset is then 0 and nothing is drawn.
pub fn select_destination<S: Sampler>(
    sampler: &mut S,
    img_width: u32,
    img_height: u32,
    span: &Span,
) -> (to: (u32, u32))
    requires
        span.wf(),
        span@.width() <= img_width,
        span@.height() <= img_height,
    ensures
        Region::placed(to.0 as int, span@.width(), img_width as int),
        Region::placed(to.1 as int, span@.height(), img_height as int),
        span@.fits_at(to.0 as int, to.1 as int, img_width as int, img_height as int),
        final(sampler).history() == old(sampler).history() + destination_draws(
            span@,
            to.0 as int,
            to.1 as int,
            img_width as int,
            img_height as int,
        ),
{
    let width: u32 = span.width();
    let height: u32 = span.height();
    let x_start: u32 = if width < img_width {
        sampler.sample(0, img_width - width)
    } else {
        0
    };
    let y_start: u32 = if height < img_height {
        sampler.sample(0, img_height - height)
    } else {
        0
    };
    assert(sampler.history() =~= old(sampler).history() + destination_draws(
        span@,
        x_start as int,
        y_start as int,
        img_width as int,
        img_height as int,
    ));
    (x_start, y_start)
}

/// Selects a rectangle as [`select_span`] does, with the thread's random
/// number generator.
pub fn get_random_span(img_width: u32, img_height: u32, min_width: u32, min_height: u32) -> (span:
    Span)
    requires
        min_width < img_width,
        min_height < img_height,
    ensures
        span.wf(),
        span@.selectable(img_width as int, img_height as int, min_width as int, min_height as int),
{
    let mut sampler = ThreadSampler::new();
    select_span(&mut sampler, img_width, img_height, min_width, min_height)
}

/// Selects a place for `span` as [`select_destination`] does, with the
/// thread's random number generator.
pub fn random_transpose(img_width: u32, img_height: u32, span: &Span) -> (to: (u32, u32))
    requires
        span.wf(),
        span@.width() <= img_width,
        span@.height() <= img_height,
    ensures
        Region::placed(to.0 as int, span@.width(), img_width as int),
        Region::placed(to.1 as int, span@.height(), img_height as int),
        span@.fits_at(to.0 as int, to.1 as int, img_width as int, img_height as int),
{
    let mut sampler = ThreadSampler::new();
    select_destination(&mut sampler, img_width, img_height, span)
}

} // verus!
