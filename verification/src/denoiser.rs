//! The noise filter works on blocks. Here samples are collected into blocks and handed out one
//! by one again, and the unfiltered sound is delayed so that it lies on the filtered one.

use std::collections::VecDeque;

use vstd::prelude::*;

use crate::single::whole_of;
use crate::single::Single;

verus! {

/// Samples in a block.
pub const BLOCK: usize = 480;

/// How long the unfiltered sound waits, in samples: one block is collected here, another one
/// the filter holds back, since it puts its windows together with an overlap.
pub const DRY_DELAY: usize = 960;

/// `nnnoiseless::DenoiseState::FRAME_SIZE`: how many samples the filter takes at once. It is a
/// constant of that crate, 10 ms at 48 kHz.
#[verifier::external_body]
fn frame_size() -> (n: usize)
    ensures
        n == BLOCK,
{
    nnnoiseless::DenoiseState::FRAME_SIZE
}

/// What was collected and what is still to be handed out.
pub struct Denoiser {
    /// The block that is being filled, scaled as the filter wants it.
    pub input: Vec<Single>,
    /// Filtered samples that nobody has taken yet.
    pub ready: VecDeque<Single>,
    /// The unfiltered sound.
    pub dry: VecDeque<Single>,
    /// How sure the filter was of speech in the last block, 0 to 1.
    pub vad: Single,
}

/// The first of a queue, or silence.
pub open spec fn first_or_silence(queue: Seq<Single>) -> Single {
    if queue.len() > 0 {
        queue[0]
    } else {
        whole_of(0)
    }
}

/// A queue without its first.
pub open spec fn rest(queue: Seq<Single>) -> Seq<Single> {
    if queue.len() > 0 {
        queue.drop_first()
    } else {
        queue
    }
}

impl Denoiser {
    /// The block is never left full.
    pub open spec fn valid(self) -> bool {
        self.input@.len() < BLOCK
    }

    /// Nothing collected, nothing to hand out.
    pub open spec fn is_empty(self) -> bool {
        &&& self.input@ == Seq::<Single>::empty()
        &&& self.ready@ == Seq::<Single>::empty()
        &&& self.dry@ == Seq::<Single>::empty()
    }

    pub fn new() -> (d: Denoiser)
        ensures
            d.valid(),
            d.is_empty(),
            d.vad == whole_of(1),
    {
        let d = Denoiser { input: Vec::new(), ready: VecDeque::new(), dry: VecDeque::new(), vad: Single::whole(1) };
        assert(d.input@ =~= Seq::empty());
        assert(d.ready@ =~= Seq::empty());
        assert(d.dry@ =~= Seq::empty());
        d
    }

    /// Throws away the half finished block and the finished one. Else the block from before
    /// would come out first when the filter is switched on again.
    pub fn reset(&mut self)
        ensures
            final(self).valid(),
            final(self).is_empty(),
            final(self).vad == old(self).vad,
    {
        self.input.clear();
        self.ready.clear();
        self.dry.clear();
        assert(self.input@ =~= Seq::empty());
        assert(self.ready@ =~= Seq::empty());
        assert(self.dry@ =~= Seq::empty());
    }

    /// A sample goes in: as it is, and scaled for the filter. Says whether the block is full;
    /// it then goes through the filter and the outcome to `finish`.
    pub fn begin(&mut self, x: Single, scaled: Single) -> (full: bool)
        requires
            old(self).valid(),
        ensures
            full == (old(self).input@.len() + 1 == BLOCK),
            final(self).input@ == old(self).input@.push(scaled),
            final(self).dry@ == old(self).dry@.push(x),
            final(self).ready@ == old(self).ready@,
            final(self).vad == old(self).vad,
            !full ==> final(self).valid(),
    {
        self.input.push(scaled);
        self.dry.push_back(x);
        self.input.len() == frame_size()
    }

    /// The filtered block is there; the next one begins.
    pub fn finish(&mut self, output: &Vec<Single>, vad: Single)
        ensures
            final(self).valid(),
            final(self).input@ == Seq::<Single>::empty(),
            final(self).ready@ == old(self).ready@ + output@,
            final(self).dry@ == old(self).dry@,
            final(self).vad == vad,
    {
        self.vad = vad;
        self.input.clear();
        let mut i: usize = 0;
        while i < output.len()
            invariant
                i <= output@.len(),
                self.ready@ == old(self).ready@ + output@.take(i as int),
                self.input@ == Seq::<Single>::empty(),
                self.dry@ == old(self).dry@,
                self.vad == vad,
            decreases output@.len() - i,
        {
            self.ready.push_back(output[i]);
            assert(self.ready@ =~= old(self).ready@ + output@.take(i + 1));
            i = i + 1;
        }
        assert(output@.take(i as int) =~= output@);
    }

    /// The filtered and the unfiltered sample that come out now. Until the first block is done
    /// that is silence.
    pub fn next(&mut self) -> (out: (Single, Single))
        ensures
            out.0 == first_or_silence(old(self).ready@),
            final(self).ready@ == rest(old(self).ready@),
            out.1 == if old(self).dry@.len() >= DRY_DELAY {
                old(self).dry@[0]
            } else {
                whole_of(0)
            },
            final(self).dry@ == if old(self).dry@.len() >= DRY_DELAY {
                old(self).dry@.drop_first()
            } else {
                old(self).dry@
            },
            final(self).input@ == old(self).input@,
            final(self).vad == old(self).vad,
    {
        let silence = Single::whole(0);
        let wet = match self.ready.pop_front() {
            Some(y) => y,
            None => silence,
        };
        let dry = if self.dry.len() >= DRY_DELAY {
            match self.dry.pop_front() {
                Some(y) => y,
                None => silence,
            }
        } else {
            silence
        };
        assert(self.ready@ =~= rest(old(self).ready@));
        (wet, dry)
    }
}

/// Among everything that went in so far, what the unfiltered path hands out with the last one:
/// the sample `DRY_DELAY - 1` earlier, or silence before that.
pub open spec fn delayed(history: Seq<Single>) -> Single {
    if history.len() >= DRY_DELAY {
        history[history.len() - DRY_DELAY]
    } else {
        whole_of(0)
    }
}

/// What the unfiltered path keeps of everything that went in so far.
pub open spec fn kept(history: Seq<Single>) -> Seq<Single> {
    if history.len() >= DRY_DELAY {
        history.skip(history.len() - DRY_DELAY + 1)
    } else {
        history
    }
}

/// What is queued and handed out on the unfiltered path for one more sample, in the terms of
/// `begin` and `next`.
pub open spec fn dry_step(queue: Seq<Single>, x: Single) -> (Seq<Single>, Single) {
    let longer = queue.push(x);
    if longer.len() >= DRY_DELAY {
        (longer.drop_first(), longer[0])
    } else {
        (longer, whole_of(0))
    }
}

/// The unfiltered sound comes out exactly `DRY_DELAY - 1` samples later, sample by sample and
/// in order, for as long as it runs.
pub proof fn law_dry_waits(history: Seq<Single>, x: Single)
    ensures
        dry_step(kept(history), x).0 == kept(history.push(x)),
        dry_step(kept(history), x).1 == delayed(history.push(x)),
{
    assert(dry_step(kept(history), x).0 =~= kept(history.push(x)));
}

/// How the lengths of the block and of the queue of filtered samples go together once the first
/// block is done.
pub open spec fn in_step(block: int, queue: int) -> bool {
    0 <= block < BLOCK && queue == BLOCK - 1 - block
}

/// Once the first block is done, a filtered sample comes out for every sample that goes in:
/// the queue is never empty when one is taken.
pub proof fn law_no_gaps(block: int, queue: int)
    requires
        in_step(block, queue),
    ensures
        block + 1 == BLOCK ==> queue + BLOCK > 0 && in_step(0, queue + BLOCK - 1),
        block + 1 < BLOCK ==> queue > 0 && in_step(block + 1, queue - 1),
{
}

/// The first filtered sample comes out when the first block is full, with nothing but silence
/// before it.
pub proof fn law_first_block(block: int)
    requires
        0 <= block < BLOCK,
    ensures
        block + 1 == BLOCK ==> in_step(0, BLOCK - 1),
        first_or_silence(Seq::<Single>::empty()) == whole_of(0),
{
}

/// A block is full with its 480th sample, and the sample goes both to the filter and to the
/// unfiltered path.
pub proof fn law_block_is_full_with_480(d: &mut Denoiser, x: Single, scaled: Single, full: bool)
    requires
        old(d).valid(),
        call_ensures(Denoiser::begin, (d, x, scaled), full),
    ensures
        full <==> old(d).input@.len() == 479,
        final(d).input@.last() == scaled && final(d).input@.len() == old(d).input@.len() + 1,
        final(d).dry@.last() == x && final(d).dry@.len() == old(d).dry@.len() + 1,
        final(d).ready@ == old(d).ready@,
{
}

/// What comes out of the unfiltered path went in 959 samples before, so that it lies on the filtered
/// sound; silence comes before that.
pub proof fn law_unfiltered_sound_lies_on_the_filtered(
    d: &mut Denoiser,
    history: Seq<Single>,
    x: Single,
    scaled: Single,
    full: bool,
    e: &mut Denoiser,
    out: (Single, Single),
)
    requires
        old(d).dry@ == (if history.len() >= 960 {
            history.skip(history.len() - 959)
        } else {
            history
        }),
        call_ensures(Denoiser::begin, (d, x, scaled), full),
        old(e).dry@ == final(d).dry@,
        call_ensures(Denoiser::next, (e,), out),
    ensures
        history.len() >= 959 ==> out.1 == history.push(x)[history.len() - 959],
        history.len() < 959 ==> out.1.val() == 0,
        final(e).dry@ == (if history.len() + 1 >= 960 {
            history.push(x).skip(history.len() + 1 - 959)
        } else {
            history.push(x)
        }),
{
    crate::single::lemma_whole_val(0);
    assert(final(e).dry@ =~= (if history.len() + 1 >= 960 {
        history.push(x).skip(history.len() + 1 - 959)
    } else {
        history.push(x)
    }));
}

/// Filtered samples come out in the order in which the blocks came from the filter, and silence only
/// while there are none.
pub proof fn law_filtered_samples_come_in_order(
    d: &mut Denoiser,
    output: &Vec<Single>,
    vad: Single,
    e: &mut Denoiser,
    out: (Single, Single),
)
    requires
        call_ensures(Denoiser::finish, (d, output, vad), ()),
        call_ensures(Denoiser::next, (e,), out),
    ensures
        final(d).ready@ == old(d).ready@ + output@,
        final(d).input@.len() == 0 && final(d).vad == vad && final(d).dry@ == old(d).dry@,
        old(e).ready@.len() > 0 ==> out.0 == old(e).ready@[0] && final(e).ready@ == old(e).ready@.drop_first(),
        old(e).ready@.len() == 0 ==> out.0.val() == 0 && final(e).ready@.len() == 0,
{
    crate::single::lemma_whole_val(0);
}

/// Switching over throws away all that was collected.
pub proof fn law_nothing_old_comes_out(d: &mut Denoiser)
    requires
        call_ensures(Denoiser::reset, (d,), ()),
    ensures
        final(d).input@.len() == 0 && final(d).ready@.len() == 0 && final(d).dry@.len() == 0,
        final(d).vad == old(d).vad,
{
}

} // verus!
