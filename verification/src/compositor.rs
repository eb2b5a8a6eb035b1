//! The compositor: the loop that turns one image into a sequence of frames.
//!
//! The compositor owns two buffers of one size. `source` is read from, `work`
//! is written to and is the frame that is shown. Before any iteration `work`
//! is the image itself, which is frame 0. Iteration `i` copies one rectangle
//! of `source` to some place of `work`, which is then frame `i`. In recursive
//! mode `source` then becomes a copy of `work`; otherwise it stays the image.
//!
//! The compositor does no output. The caller shows frame 0, then calls
//! [`Compositor::advance`] and shows the frame after every iteration, until
//! `advance` says that none is left.

use crate::image_buf::ImageBuf;
use crate::raster::{Raster, Region};
use crate::sampler::{Draw, Sampler};
use crate::span::{destination_draws, select_destination, select_span, selection_draws, Span};
use vstd::prelude::*;
use vstd::slice::slice_to_vec;

verus! {

/// Where a run stands.
#[derive(Clone, Copy, Debug, PartialEq, Eq, Structural)]
pub enum Phase {
    /// No iteration has run: the frame is the image itself.
    Initializing,
    /// Iteration `i` was the last to run: the frame is frame `i`.
    Iterating(u32),
    /// Every iteration has run and the end of the sequence was reported.
    Finalized,
}

/// Why a configuration cannot be run on an image.
#[derive(Clone, Copy, Debug, PartialEq, Eq, Structural)]
pub enum ConfigError {
    /// The minimum chunk width is not below the image's width.
    ChunkTooWide,
    /// The minimum chunk height is not below the image's height.
    ChunkTooTall,
    /// The identifier names no still-image format.
    UnknownFormat,
}

/// What one iteration did.
#[derive(Debug)]
pub struct Chunk {
    /// The number of the iteration, from 1, which is the number of the frame
    /// that it produced.
    pub index: u32,
    /// The rectangle of the source that was copied.
    pub region: Span,
    /// The column and the row of the working buffer where it was put.
    pub to: (u32, u32),
}

/// A compositor as a value.
pub struct CompositorState {
    pub source: Raster,
    pub work: Raster,
    pub num_iterations: u32,
    pub recursive: bool,
    pub chunk_min_width: u32,
    pub chunk_min_height: u32,
    pub phase: Phase,
}

impl CompositorState {
    /// Both buffers are well formed and of one size, which is larger than the
    /// minimum chunk on both axes; the phase names no iteration beyond the
    /// last; and in recursive mode the source is the frame.
    pub open spec fn wf(self) -> bool {
        &&& self.source.wf()
        &&& self.work.wf()
        &&& self.source.width == self.work.width
        &&& self.source.height == self.work.height
        &&& self.chunk_min_width < self.work.width
        &&& self.chunk_min_height < self.work.height
        &&& self.recursive ==> self.source == self.work
        &&& self.phase matches Phase::Iterating(i) ==> 1 <= i <= self.num_iterations
    }

    /// The state before any iteration on `image`.
    pub open spec fn initial(
        image: Raster,
        num_iterations: u32,
        recursive: bool,
        chunk_min_width: u32,
        chunk_min_height: u32,
    ) -> CompositorState {
        CompositorState {
            source: image,
            work: image,
            num_iterations,
            recursive,
            chunk_min_width,
            chunk_min_height,
            phase: Phase::Initializing,
        }
    }

    /// The number of iterations that have run.
    pub open spec fn done(self) -> int {
        match self.phase {
            Phase::Initializing => 0,
            Phase::Iterating(i) => i as int,
            Phase::Finalized => self.num_iterations as int,
        }
    }

    /// The number of frames that the run has produced, the frame of the
    /// current state counted: frame 0 and one for every iteration.
    pub open spec fn frames(self) -> int {
        self.done() + 1
    }

    /// One more iteration can run.
    pub open spec fn can_iterate(self) -> bool {
        self.phase != Phase::Finalized && self.done() < self.num_iterations
    }

    /// `region` and `(dx, dy)` are a rectangle and a place that an iteration
    /// can select in this state.
    pub open spec fn selects(self, region: Region, dx: int, dy: int) -> bool {
        &&& region.selectable(
            self.work.width as int,
            self.work.height as int,
            self.chunk_min_width as int,
            self.chunk_min_height as int,
        )
        &&& Region::placed(dx, region.width(), self.work.width as int)
        &&& Region::placed(dy, region.height(), self.work.height as int)
    }

    /// The draws that an iteration makes in this state to select `region`
    /// and then the place `(dx, dy)` for it.
    pub open spec fn draws(self, region: Region, dx: int, dy: int) -> Seq<Draw> {
        selection_draws(
            region,
            self.work.width as int,
            self.work.height as int,
            self.chunk_min_width as int,
            self.chunk_min_height as int,
        ) + destination_draws(region, dx, dy, self.work.width as int, self.work.height as int)
    }

    /// The state after the iteration that copies `region` of the source to
    /// `(dx, dy)`.
    pub open spec fn iterated(self, region: Region, dx: int, dy: int) -> CompositorState {
        let work = self.work.pasted(self.source, region, dx, dy);
        CompositorState {
            source: if self.recursive {
                work
            } else {
                self.source
            },
            work,
            num_iterations: self.num_iterations,
            recursive: self.recursive,
            chunk_min_width: self.chunk_min_width,
            chunk_min_height: self.chunk_min_height,
            phase: Phase::Iterating((self.done() + 1) as u32),
        }
    }

    /// The bytes `next` are what the iteration that copies `region` to
    /// `(dx, dy)` makes of the frame `prev`, in a run on an image of
    /// `width * height` pixels whose bytes are `first`, and selection can
    /// produce that rectangle and that place. The rectangle is read from the
    /// frame itself in recursive mode, and from the image otherwise.
    pub open spec fn steps_by(
        width: nat,
        height: nat,
        recursive: bool,
        chunk_min_width: u32,
        chunk_min_height: u32,
        first: Seq<u8>,
        prev: Seq<u8>,
        next: Seq<u8>,
        region: Region,
        dx: int,
        dy: int,
    ) -> bool {
        let before = Raster { width, height, bytes: prev };
        let source = Raster { width, height, bytes: if recursive {
            prev
        } else {
            first
        } };
        &&& region.selectable(
            width as int,
            height as int,
            chunk_min_width as int,
            chunk_min_height as int,
        )
        &&& Region::placed(dx, region.width(), width as int)
        &&& Region::placed(dy, region.height(), height as int)
        &&& before.pasted(source, region, dx, dy).bytes == next
    }

    /// The bytes `next` are what one iteration makes of the frame `prev`:
    /// [`Self::steps_by`] holds of some rectangle and some place.
    pub open spec fn steps(
        width: nat,
        height: nat,
        recursive: bool,
        chunk_min_width: u32,
        chunk_min_height: u32,
        first: Seq<u8>,
        prev: Seq<u8>,
        next: Seq<u8>,
    ) -> bool {
        exists|region: Region, dx: int, dy: int| #[trigger]
            Self::steps_by(
                width,
                height,
                recursive,
                chunk_min_width,
                chunk_min_height,
                first,
                prev,
                next,
                region,
                dx,
                dy,
            )
    }

    /// An iteration leaves the size of both buffers as it is, and leaves the
    /// state well formed: whatever has been copied before, the next rectangle
    /// is selected for the same width and height.
    pub proof fn lemma_iteration_keeps_size(self, region: Region, dx: int, dy: int)
        requires
            self.wf(),
            self.can_iterate(),
            self.selects(region, dx, dy),
        ensures
            self.iterated(region, dx, dy).wf(),
            self.iterated(region, dx, dy).work.width == self.work.width,
            self.iterated(region, dx, dy).work.height == self.work.height,
            self.iterated(region, dx, dy).source.width == self.source.width,
            self.iterated(region, dx, dy).source.height == self.source.height,
            self.iterated(region, dx, dy).done() == self.done() + 1,
    {
        self.work.lemma_pasted(self.source, region, dx, dy);
    }

    /// A run produces `num_iterations + 1` frames: every iteration adds one
    /// frame to those produced, the state before any iteration has produced
    /// one, and a run that can go on no further has produced all of them.
    pub proof fn lemma_run_produces_all_frames(self, region: Region, dx: int, dy: int)
        requires
            self.wf(),
            self.phase != Phase::Finalized,
        ensures
            self.phase == Phase::Initializing ==> self.frames() == 1,
            self.can_iterate() ==> self.iterated(region, dx, dy).frames() == self.frames() + 1,
            self.can_iterate() ==> self.frames() <= self.num_iterations,
            !self.can_iterate() ==> self.frames() == self.num_iterations + 1,
    {
    }

    /// Outside recursive mode an iteration leaves the source as it is: every
    /// rectangle is read from the image that the run began with.
    pub proof fn lemma_plain_iteration_keeps_source(self, region: Region, dx: int, dy: int)
        requires
            !self.recursive,
        ensures
            self.iterated(region, dx, dy).source == self.source,
    {
    }

    /// In recursive mode the frame after an iteration is made of the frame
    /// before it alone: the rectangle is read from that frame, and the new
    /// frame is the source of the next iteration.
    pub proof fn lemma_recursive_iteration_reads_frame(self, region: Region, dx: int, dy: int)
        requires
            self.wf(),
            self.recursive,
        ensures
            self.iterated(region, dx, dy).work == self.work.pasted(self.work, region, dx, dy),
            self.iterated(region, dx, dy).source == self.iterated(region, dx, dy).work,
    {
    }

    /// The state after the end of the sequence was reported.
    pub open spec fn finished(self) -> CompositorState {
        CompositorState {
            source: self.source,
            work: self.work,
            num_iterations: self.num_iterations,
            recursive: self.recursive,
            chunk_min_width: self.chunk_min_width,
            chunk_min_height: self.chunk_min_height,
            phase: Phase::Finalized,
        }
    }
}

/// The loop's state: the two buffers, the configuration and the phase.
pub struct Compositor {
    source: ImageBuf,
    work: ImageBuf,
    num_iterations: u32,
    recursive: bool,
    chunk_min_width: u32,
    chunk_min_height: u32,
    phase: Phase,
}

impl View for Compositor {
    type V = CompositorState;

    closed spec fn view(&self) -> CompositorState {
        CompositorState {
            source: self.source@,
            work: self.work@,
            num_iterations: self.num_iterations,
            recursive: self.recursive,
            chunk_min_width: self.chunk_min_width,
            chunk_min_height: self.chunk_min_height,
            phase: self.phase,
        }
    }
}

impl Compositor {
    /// The state is well formed. Every compositor that this library hands out
    /// is.
    pub open spec fn wf(&self) -> bool {
        self@.wf()
    }

    /// A compositor on `image`, before any iteration, unless the image is not
    /// larger than the minimum chunk on both axes.
    pub fn new(
        image: ImageBuf,
        num_iterations: u32,
        recursive: bool,
        chunk_min_width: u32,
        chunk_min_height: u32,
    ) -> (made: Result<Compositor, ConfigError>)
        requires
            image.wf(),
        ensures
            chunk_min_width >= image@.width ==> made == Err::<Compositor, ConfigError>(
                ConfigError::ChunkTooWide,
            ),
            chunk_min_width < image@.width && chunk_min_height >= image@.height ==> made == Err::<
                Compositor,
                ConfigError,
            >(ConfigError::ChunkTooTall),
            chunk_min_width < image@.width && chunk_min_height < image@.height ==> made is Ok,
            made matches Ok(c) ==> c.wf() && c@ == CompositorState::initial(
                image@,
                num_iterations,
                recursive,
                chunk_min_width,
                chunk_min_height,
            ),
    {
        if chunk_min_width >= image.width() {
            return Err(ConfigError::ChunkTooWide);
        }
        if chunk_min_height >= image.height() {
            return Err(ConfigError::ChunkTooTall);
        }
        let work = image.clone();
        Ok(
            Compositor {
                source: image,
                work,
                num_iterations,
                recursive,
                chunk_min_width,
                chunk_min_height,
                phase: Phase::Initializing,
            },
        )
    }

    /// Where the run stands.
    pub fn phase(&self) -> (phase: Phase)
        ensures
            phase == self@.phase,
    {
        self.phase
    }

    /// The number of iterations that the run is to make.
    pub fn num_iterations(&self) -> (n: u32)
        ensures
            n == self@.num_iterations,
    {
        self.num_iterations
    }

    /// The buffer that iterations read from.
    pub fn source(&self) -> (source: &ImageBuf)
        ensures
            source@ == self@.source,
    {
        &self.source
    }

    /// The buffer that iterations write to: the frame.
    pub fn work(&self) -> (work: &ImageBuf)
        ensures
            work@ == self@.work,
    {
        &self.work
    }

    /// The bytes of the frame.
    pub fn frame(&self) -> (bytes: &[u8])
        ensures
            bytes@ == self@.work.bytes,
    {
        self.work.as_slice()
    }

    /// Runs one iteration with the given rectangle and place: copies `region`
    /// of the source to `to` in the working buffer and, in recursive mode,
    /// makes the source a copy of the result. Returns the iteration's number.
    pub fn iterate(&mut self, region: &Span, to: (u32, u32)) -> (index: u32)
        requires
            old(self).wf(),
            old(self)@.can_iterate(),
            region@.within(old(self)@.work.width as int, old(self)@.work.height as int),
            region@.fits_at(
                to.0 as int,
                to.1 as int,
                old(self)@.work.width as int,
                old(self)@.work.height as int,
            ),
        ensures
            final(self).wf(),
            final(self)@ == old(self)@.iterated(region@, to.0 as int, to.1 as int),
            index == old(self)@.done() + 1,
    {
        proof {
            self.work@.lemma_pasted(self.source@, region@, to.0 as int, to.1 as int);
        }
        let done: u32 = match self.phase {
            Phase::Initializing => 0,
            Phase::Iterating(i) => i,
            Phase::Finalized => self.num_iterations,
        };
        self.work.copy_chunk(&self.source, region, to);
        if self.recursive {
            self.source = self.work.clone();
        }
        self.phase = Phase::Iterating(done + 1);
        done + 1
    }

    /// Runs the next iteration, if one is left, on a rectangle and a place
    /// selected with the draws of `sampler`, and says what it did. When no
    /// iteration is left the run is finalized, nothing is drawn and nothing
    /// else changes.
    pub fn advance<S: Sampler>(&mut self, sampler: &mut S) -> (step: Option<Chunk>)
        requires
            old(self).wf(),
        ensures
            final(self).wf(),
            step is Some <==> old(self)@.can_iterate(),
            step matches Some(chunk) ==> {
                &&& chunk.index == old(self)@.done() + 1
                &&& chunk.region.wf()
                &&& old(self)@.selects(chunk.region@, chunk.to.0 as int, chunk.to.1 as int)
                &&& final(self)@ == old(self)@.iterated(
                    chunk.region@,
                    chunk.to.0 as int,
                    chunk.to.1 as int,
                )
                &&& final(sampler).history() == old(sampler).history() + old(self)@.draws(
                    chunk.region@,
                    chunk.to.0 as int,
                    chunk.to.1 as int,
                )
            },
            step is None ==> final(self)@ == old(self)@.finished() && final(sampler).history()
                == old(sampler).history(),
    {
        let runs: bool = match self.phase {
            Phase::Initializing => 0 < self.num_iterations,
            Phase::Iterating(i) => i < self.num_iterations,
            Phase::Finalized => false,
        };
        if runs {
            let width: u32 = self.source.width();
            let height: u32 = self.source.height();
            let region = select_span(
                sampler,
                width,
                height,
                self.chunk_min_width,
                self.chunk_min_height,
            );
            let to = select_destination(sampler, width, height, &region);
            let index = self.iterate(&region, to);
            assert(sampler.history() =~= old(sampler).history() + old(self)@.draws(
                region@,
                to.0 as int,
                to.1 as int,
            ));
            Some(Chunk { index, region, to })
        } else {
            self.phase = Phase::Finalized;
            None
        }
    }
}

/// Runs the whole loop on `image` and returns every frame's bytes, frame 0
/// first, unless the image is not larger than the minimum chunk on both axes.
///
/// There are `num_iterations + 1` frames. Frame 0 is the image. Every later
/// frame is what one iteration makes of the frame before it.
pub fn render<S: Sampler>(
    image: ImageBuf,
    num_iterations: u32,
    recursive: bool,
    chunk_min_width: u32,
    chunk_min_height: u32,
    sampler: &mut S,
) -> (out: Result<Vec<Vec<u8>>, ConfigError>)
    requires
        image.wf(),
    ensures
        chunk_min_width >= image@.width ==> out == Err::<Vec<Vec<u8>>, ConfigError>(
            ConfigError::ChunkTooWide,
        ),
        chunk_min_width < image@.width && chunk_min_height >= image@.height ==> out == Err::<
            Vec<Vec<u8>>,
            ConfigError,
        >(ConfigError::ChunkTooTall),
        chunk_min_width < image@.width && chunk_min_height < image@.height ==> out is Ok,
        out matches Ok(frames) ==> {
            &&& frames@.len() == num_iterations + 1
            &&& frames@[0]@ == image@.bytes
            &&& forall|k: int|
                1 <= k <= num_iterations ==> CompositorState::steps(
                    image@.width,
                    image@.height,
                    recursive,
                    chunk_min_width,
                    chunk_min_height,
                    image@.bytes,
                    frames@[k - 1]@,
                    #[trigger] frames@[k]@,
                )
        },
{
    let ghost first = image@;
    let mut compositor = match Compositor::new(
        image,
        num_iterations,
        recursive,
        chunk_min_width,
        chunk_min_height,
    ) {
        Ok(compositor) => compositor,
        Err(error) => {
            return Err(error);
        },
    };
    let mut frames: Vec<Vec<u8>> = Vec::new();
    frames.push(slice_to_vec(compositor.frame()));
    let mut running: bool = true;
    while running
        invariant
            first.wf(),
            compositor.wf(),
            compositor@.num_iterations == num_iterations,
            compositor@.recursive == recursive,
            compositor@.chunk_min_width == chunk_min_width,
            compositor@.chunk_min_height == chunk_min_height,
            compositor@.work.width == first.width,
            compositor@.work.height == first.height,
            !recursive ==> compositor@.source == first,
            running ==> compositor@.phase != Phase::Finalized,
            !running ==> compositor@.done() == num_iterations,
            frames@.len() == compositor@.done() + 1,
            frames@[0]@ == first.bytes,
            frames@[frames@.len() - 1]@ == compositor@.work.bytes,
            forall|k: int|
                1 <= k < frames@.len() ==> CompositorState::steps(
                    first.width,
                    first.height,
                    recursive,
                    chunk_min_width,
                    chunk_min_height,
                    first.bytes,
                    frames@[k - 1]@,
                    #[trigger] frames@[k]@,
                ),
        decreases
                num_iterations - compositor@.done() + if running {
                    1int
                } else {
                    0int
                },
    {
        let ghost before = compositor@;
        let ghost shown = frames@;
        match compositor.advance(sampler) {
            Some(chunk) => {
                frames.push(slice_to_vec(compositor.frame()));
                proof {
                    let last = shown.len() as int;
                    before.lemma_iteration_keeps_size(
                        chunk.region@,
                        chunk.to.0 as int,
                        chunk.to.1 as int,
                    );
                    assert((Raster {
                        width: first.width,
                        height: first.height,
                        bytes: shown[last - 1]@,
                    }) == before.work);
                    assert(CompositorState::steps_by(
                        first.width,
                        first.height,
                        recursive,
                        chunk_min_width,
                        chunk_min_height,
                        first.bytes,
                        frames@[last - 1]@,
                        frames@[last]@,
                        chunk.region@,
                        chunk.to.0 as int,
                        chunk.to.1 as int,
                    ));
                    assert forall|k: int| 1 <= k < frames@.len() implies CompositorState::steps(
                        first.width,
                        first.height,
                        recursive,
                        chunk_min_width,
                        chunk_min_height,
                        first.bytes,
                        frames@[k - 1]@,
                        #[trigger] frames@[k]@,
                    ) by {
                        if k < last {
                            assert(frames@[k] == shown[k]);
                            assert(frames@[k - 1] == shown[k - 1]);
                        }
                    }
                }
            },
            None => {
                running = false;
            },
        }
    }
    Ok(frames)
}

} // verus!
