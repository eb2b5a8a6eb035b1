//! Sources of the integers that region selection draws.

use vstd::prelude::*;

verus! {

/// One draw: the range `low..high` that was asked for and the value that was
/// given.
pub struct Draw {
    pub low: int,
    pub high: int,
    pub value: int,
}

/// A source of integers drawn from half-open ranges.
///
/// Region selection is written against this trait, so that it can run on the
/// thread's random number generator as well as on a fixed script of draws.
/// A sampler keeps, for proofs only, the history of its draws: what a
/// function asked of it can be read off the history that it leaves.
pub trait Sampler {
    /// Every draw made so far, the oldest first.
    spec fn history(&self) -> Seq<Draw>;

    /// One value out of `low..high`.
    fn sample(&mut self, low: u32, high: u32) -> (v: u32)
        requires
            low < high,
        ensures
            low <= v < high,
            final(self).history() == old(self).history().push(
                Draw { low: low as int, high: high as int, value: v as int },
            ),
    ;
}

/// `rand::random_range` on the range `low..high`: a value of the thread's
/// random number generator that lies in the range. The range must not be
/// empty, since `random_range` panics on an empty one. Nothing else is claimed
/// of the value.
#[verifier::external_body]
fn random_in_range(low: u32, high: u32) -> (v: u32)
    requires
        low < high,
    ensures
        low <= v < high,
{
    rand::random_range(low..high)
}

/// The sampler that draws from the thread's random number generator.
pub struct ThreadSampler {
    drawn: Ghost<Seq<Draw>>,
}

impl ThreadSampler {
    /// A sampler that has drawn nothing yet.
    pub fn new() -> (sampler: ThreadSampler)
        ensures
            sampler.history() == Seq::<Draw>::empty(),
    {
        ThreadSampler { drawn: Ghost(Seq::empty()) }
    }
}

impl Sampler for ThreadSampler {
    closed spec fn history(&self) -> Seq<Draw> {
        self.drawn@
    }

    fn sample(&mut self, low: u32, high: u32) -> (v: u32) {
        let v = random_in_range(low, high);
        self.drawn = Ghost(
            self.drawn@.push(Draw { low: low as int, high: high as int, value: v as int }),
        );
        v
    }
}

/// The sampler that replays a fixed script.
///
/// Each draw takes the next number of the script and folds it into the range
/// asked for: a scripted `n` gives `low + n % (high - low)`. When the script
/// is used up, every draw gives `low`.
pub struct ScriptedSampler {
    script: Vec<u32>,
    next: usize,
    drawn: Ghost<Seq<Draw>>,
}

impl View for ScriptedSampler {
    type V = Seq<u32>;

    /// The numbers of the script that have not been drawn yet.
    closed spec fn view(&self) -> Seq<u32> {
        if self.next <= self.script@.len() {
            self.script@.skip(self.next as int)
        } else {
            Seq::empty()
        }
    }
}

impl ScriptedSampler {
    /// The sampler that replays `script` from its first number.
    pub fn new(script: Vec<u32>) -> (sampler: ScriptedSampler)
        ensures
            sampler@ == script@,
            sampler.history() == Seq::<Draw>::empty(),
    {
        let sampler = ScriptedSampler { script, next: 0, drawn: Ghost(Seq::empty()) };
        assert(sampler.script@.skip(0) =~= sampler.script@);
        sampler
    }

    /// The number of draws that the script still holds.
    pub fn remaining(&self) -> (n: usize)
        ensures
            n == self@.len(),
    {
        if self.next <= self.script.len() {
            self.script.len() - self.next
        } else {
            0
        }
    }

    /// What a draw from `low..high` gives when the script goes on with
    /// `script`.
    pub open spec fn drawn(script: Seq<u32>, low: u32, high: u32) -> int {
        if script.len() > 0 {
            low + (script[0] as int) % (high - low)
        } else {
            low as int
        }
    }

    /// One draw from `low..high` off the script.
    pub fn draw(&mut self, low: u32, high: u32) -> (v: u32)
        requires
            low < high,
        ensures
            low <= v < high,
            v == Self::drawn(old(self)@, low, high),
            final(self)@ == if old(self)@.len() > 0 {
                old(self)@.skip(1)
            } else {
                old(self)@
            },
            final(self).history() == old(self).history().push(
                Draw { low: low as int, high: high as int, value: v as int },
            ),
    {
        let v: u32 = if self.next < self.script.len() {
            let n: u32 = self.script[self.next];
            self.next = self.next + 1;
            assert(self.script@.skip(self.next as int) =~= old(self)@.skip(1));
            low + n % (high - low)
        } else {
            low
        };
        self.drawn = Ghost(
            self.drawn@.push(Draw { low: low as int, high: high as int, value: v as int }),
        );
        v
    }
}

impl Sampler for ScriptedSampler {
    closed spec fn history(&self) -> Seq<Draw> {
        self.drawn@
    }

    fn sample(&mut self, low: u32, high: u32) -> (v: u32) {
        self.draw(low, high)
    }
}

} // verus!
