//! Echo cancelling: what is played is listened to and taken out of the microphone. The
//! cancelling itself works on blocks of 10 ms; here is what surrounds it.

use std::collections::VecDeque;

use vstd::arithmetic::power2::pow2;
use vstd::prelude::*;

use crate::denoiser::first_or_silence;
use crate::denoiser::rest;
use crate::dsp::Course;
use crate::ring::held;
use crate::ring::lemma_samples_in;
use crate::ring::lemma_went_on;
use crate::ring::room;
use crate::ring::sample_or_silence;
use crate::ring::samples_in;
use crate::ring::sound;
use crate::ring::surplus;
use crate::ring::went_on;
use crate::ring::SampleSource;
use crate::single::lemma_quarters_order;
use crate::single::whole_of;
use crate::single::Single;

verus! {

/// Milliseconds in a block.
pub const BLOCK_MS: u64 = 10;

/// How many blocks what is played may be ahead before the oldest is thrown away. More than that
/// would only widen the distance to the microphone.
pub const MAX_REFERENCE_BLOCKS: usize = 2;

/// The figures of the canceller are looked at once in so many blocks.
pub const STATS_EVERY_BLOCKS: u32 = 50;

/// After so many blocks of speech without a pause the estimate is taken to be wrong.
pub const TALK_FREEZE_BLOCKS: u32 = 400;

/// 0.20, 0.004, 0.002: how fast the estimate of the remaining echo goes down, catches up after a
/// long time, and goes up.
pub const COUPLING_DOWN_BITS: u32 = 0x3e4c_cccd;

pub const COUPLING_RECOVER_BITS: u32 = 0x3b83_126f;

pub const COUPLING_UP_BITS: u32 = 0x3b03_126f;

/// 0.10 and 0.50: how fast the additional lowering builds up and is given up.
pub const DUCK_ATTACK_BITS: u32 = 0x3dcc_cccd;

pub const DUCK_RELEASE_BITS: u32 = 0x3f00_0000;

/// At most so many dB are lowered in addition; more would be heard on the voice.
pub const EXTRA_DB: i32 = 8;

/// That many dB above the expected echo it is surely speech.
pub const TALK_MARGIN_DB: i32 = 8;

/// What the echo cancelling is doing, for the surface.
#[derive(Clone, Copy, Debug, PartialEq, Eq, Structural)]
pub struct Status {
    /// By how much the echo gets quieter, in tenths of a dB; the smallest number: nothing yet.
    pub erle_dbx10: i32,
    /// The delay that was found; -1 is unknown.
    pub delay_ms: i32,
    /// How often what is played came too late.
    pub underruns: u32,
}

impl Status {
    /// Nothing measured yet, which is not the same as 0 dB.
    pub open spec fn is_fresh(self) -> bool {
        self.erle_dbx10 == i32::MIN && self.delay_ms == -1 && self.underruns == 0
    }

    /// New figures: an attenuation that is not known leaves the old one standing, a delay that
    /// is not known does not.
    pub fn report(&mut self, erle_dbx10: Option<i32>, delay_ms: Option<i32>)
        ensures
            final(self).erle_dbx10 == (match erle_dbx10 {
                Some(x) => x,
                None => old(self).erle_dbx10,
            }),
            final(self).delay_ms == (match delay_ms {
                Some(ms) => ms,
                None => -1i32,
            }),
            final(self).underruns == old(self).underruns,
    {
        if let Some(x) = erle_dbx10 {
            self.erle_dbx10 = x;
        }
        self.delay_ms = match delay_ms {
            Some(ms) => ms,
            None => -1,
        };
    }

    /// One block more came too late; the count starts again where it no longer fits.
    pub open spec fn counted(self) -> Status {
        Status {
            underruns: if self.underruns == u32::MAX {
                0u32
            } else {
                (self.underruns + 1) as u32
            },
            ..self
        }
    }

    pub fn count_underrun(&mut self)
        ensures
            *final(self) == old(self).counted(),
    {
        self.underruns = self.underruns.wrapping_add(1);
    }

    /// By how many tenths of a dB the echo is being lowered.
    pub fn erle_db(&self) -> (r: Option<i32>)
        ensures
            r == if self.erle_dbx10 == i32::MIN {
                None::<i32>
            } else {
                Some(self.erle_dbx10)
            },
    {
        if self.erle_dbx10 == i32::MIN {
            None
        } else {
            Some(self.erle_dbx10)
        }
    }

    /// The delay that was found.
    pub fn delay_ms(&self) -> (r: Option<i32>)
        ensures
            r == if self.delay_ms == -1 {
                None::<i32>
            } else {
                Some(self.delay_ms)
            },
    {
        if self.delay_ms == -1 {
            None
        } else {
            Some(self.delay_ms)
        }
    }

    pub fn underruns(&self) -> (r: u32)
        ensures
            r == self.underruns,
    {
        self.underruns
    }
}

impl Default for Status {
    fn default() -> (s: Status)
        ensures
            s.is_fresh(),
    {
        Status { erle_dbx10: i32::MIN, delay_ms: -1, underruns: 0 }
    }
}

/// What is being played.
pub struct Reference {
    pub name: String,
    pub rate: u32,
    pub samples: SampleSource,
}

/// A block was filled with these answers of the queue, one for each place: a sample, or silence
/// where there was none. The first ones are the samples that were `seen` before.
pub open spec fn filled_with(block: Seq<Single>, seen: Seq<u32>, answers: Seq<Option<u32>>) -> bool {
    &&& answers.len() == block.len()
    &&& forall|i: int| 0 <= i < block.len() ==> #[trigger] block[i] == sound(answers[i])
    &&& forall|i: int| 0 <= i < seen.len() && i < block.len() ==> #[trigger] answers[i] == Some(seen[i])
}

/// A block takes as many samples out of the queue as it has places, if so many were seen. Else it
/// takes all that were seen; if no more than those came, every other place is silence.
pub proof fn law_gaps_are_silent(block: Seq<Single>, seen: Seq<u32>, answers: Seq<Option<u32>>)
    requires
        filled_with(block, seen, answers),
    ensures
        seen.len() >= block.len() ==> samples_in(answers) == block.len(),
        seen.len() < block.len() ==> seen.len() <= samples_in(answers) <= block.len(),
        samples_in(answers) == seen.len() ==> forall|i: int|
            seen.len() <= i < block.len() ==> #[trigger] block[i] == whole_of(0),
{
    let k: int = if seen.len() >= block.len() {
        block.len() as int
    } else {
        seen.len() as int
    };
    assert forall|i: int| 0 <= i < k implies #[trigger] answers[i] is Some by {
        assert(answers[i] == Some(seen[i]));
    }
    lemma_samples_in(answers, k);
    if samples_in(answers) == seen.len() {
        assert forall|i: int| seen.len() <= i < block.len() implies #[trigger] block[i] == whole_of(0) by {
            assert(answers[i] is None);
        }
    }
}

/// How many of `filled` samples are thrown away because the block may be ahead by two only.
pub open spec fn too_many(filled: nat, block: int) -> int {
    if filled > block * MAX_REFERENCE_BLOCKS {
        filled - block * MAX_REFERENCE_BLOCKS
    } else {
        0
    }
}

impl Reference {
    /// A block of what is played; where it runs short, silence or what just arrived. Says
    /// whether it ran short: the block then lies that much off the microphone.
    pub fn take_block(&mut self, out: &mut Vec<Single>) -> (short: bool)
        ensures
            final(self).name == old(self).name,
            final(self).rate == old(self).rate,
            final(out)@.len() == old(out)@.len(),
            exists|seen: Seq<u32>, answers: Seq<Option<u32>>| #[trigger]
                filled_with(final(out)@, seen, answers) && {
                    &&& held(old(self).samples).is_prefix_of(seen)
                    &&& seen.len() <= room(old(self).samples)
                    &&& short == (seen.len() < old(out)@.len())
                    &&& !short ==> held(final(self).samples) == seen.skip(old(out)@.len() as int)
                    &&& went_on(old(self).samples, final(self).samples, samples_in(answers) as int)
                },
    {
        let n: usize = out.len();
        let there = self.samples.occupied_len();
        let short = there < n;
        let ghost seen = held(self.samples);
        let ghost mut answers: Seq<Option<u32>> = Seq::empty();
        let mut i: usize = 0;
        assert(seen.skip(0) =~= seen);
        while i < n
            invariant
                i <= n,
                n == out@.len(),
                there == seen.len(),
                self.name == old(self).name,
                self.rate == old(self).rate,
                room(old(self).samples) > 0,
                answers.len() == i,
                went_on(old(self).samples, self.samples, samples_in(answers) as int),
                i <= there ==> held(self.samples) == seen.skip(i as int),
                forall|j: int| 0 <= j < i ==> #[trigger] out@[j] == sound(answers[j]),
                forall|j: int| 0 <= j < i && j < there ==> #[trigger] answers[j] == Some(seen[j]),
            decreases n - i,
        {
            let ghost before = self.samples;
            let popped = self.samples.try_pop();
            out.set(i, sample_or_silence(popped));
            proof {
                if i < there {
                    assert(held(before)[0] == seen[i as int]);
                    assert(held(before).drop_first() =~= seen.skip(i + 1));
                }
                let more = answers.push(popped);
                assert(more.drop_last() =~= answers);
                lemma_went_on(old(self).samples, before, self.samples, samples_in(answers) as int, if popped is Some {
                    1
                } else {
                    0
                });
                answers = more;
            }
            i = i + 1;
        }
        assert(filled_with(out@, seen, answers));
        short
    }

    /// Throws the oldest away if too much has piled up, such as after a stall. `block` is a
    /// block in samples of this device.
    pub fn trim(&mut self, block: usize)
        requires
            block * MAX_REFERENCE_BLOCKS <= usize::MAX,
        ensures
            final(self).name == old(self).name,
            final(self).rate == old(self).rate,
            room(final(self).samples) > 0,
            exists|seen: Seq<u32>| #![trigger seen.len()]
                {
                    &&& held(old(self).samples).is_prefix_of(seen)
                    &&& seen.len() <= room(old(self).samples)
                    &&& went_on(old(self).samples, final(self).samples, too_many(seen.len(), block as int))
                    &&& seen.skip(too_many(seen.len(), block as int)).is_prefix_of(held(final(self).samples))
                    &&& too_many(seen.len(), block as int) == 0 ==> held(final(self).samples) == seen
                },
    {
        let max: usize = block * MAX_REFERENCE_BLOCKS;
        let filled = self.samples.occupied_len();
        let ghost seen = held(self.samples);
        let ghost before = self.samples;
        let gone = surplus(filled, max);
        assert(seen.skip(0) =~= seen);
        if gone > 0 {
            self.samples.skip(gone);
            proof {
                lemma_went_on(old(self).samples, before, self.samples, 0, gone as int);
                let g = gone as int;
                let all = choose|all: Seq<u32>| #![trigger all.skip(g)]
                    seen.is_prefix_of(all) && held(self.samples) == all.skip(g) && g <= all.len();
                assert(seen.skip(g).is_prefix_of(all.skip(g)));
            }
        }
        assert(too_many(seen.len(), block as int) == gone);
    }
}

/// How many samples of a rate make a block.
pub open spec fn frames(rate: u32) -> int {
    (rate as int * 10) / 1000
}

/// How many samples of a rate make a block.
pub fn frames_of(rate: u32) -> (n: usize)
    ensures
        n == frames(rate),
{
    (rate as u64 * BLOCK_MS / 1000) as usize
}

/// The additional lowering for what the canceller leaves over, as long as it is echo only.
#[derive(Clone, Copy, Debug, PartialEq, Eq, Structural)]
pub struct Residual {
    /// How loud the rest is against what is played, in dB, when nobody speaks.
    pub coupling_db: Single,
    /// The lowering right now.
    pub duck_db: Single,
    /// Blocks in a row that looked like speech.
    pub talking_blocks: u32,
}

/// What a block teaches.
#[derive(Clone, Copy, Debug, PartialEq, Eq, Structural)]
pub enum Lesson {
    /// Nothing is played, so there is no echo: let go, keep what was learned.
    Silent,
    /// The coupling goes towards `ratio` by the factor `k`. `speech` is 0 for echo and 1 for
    /// speech.
    Heard { ratio: Single, k: Single, speech: Single },
}

/// A level above -60 dB is playing.
pub open spec fn playing(far_db: Single) -> bool {
    !far_db.less(whole_of(-60))
}

/// More like speech than like echo.
pub open spec fn sounds_like_speech(speech: Single) -> bool {
    crate::single::quarters_of(2).less(speech)
}

impl Residual {
    pub open spec fn is_fresh(self) -> bool {
        self.coupling_db == whole_of(0) && self.duck_db == whole_of(0) && self.talking_blocks == 0
    }

    /// How many blocks of speech in a row there are with this one.
    pub open spec fn talking_after(self, speech: Single) -> u32 {
        if !sounds_like_speech(speech) {
            0
        } else if self.talking_blocks == u32::MAX {
            u32::MAX
        } else {
            (self.talking_blocks + 1) as u32
        }
    }

    /// By which factor the coupling learns: downwards always, upwards not while somebody
    /// speaks, unless that has gone on for very long.
    pub open spec fn learns(self, ratio: Single, speech: Single) -> Single {
        if ratio.less(self.coupling_db) {
            Single { bits: COUPLING_DOWN_BITS }
        } else if sounds_like_speech(speech) {
            if self.talking_after(speech) >= TALK_FREEZE_BLOCKS {
                Single { bits: COUPLING_RECOVER_BITS }
            } else {
                whole_of(0)
            }
        } else {
            Single { bits: COUPLING_UP_BITS }
        }
    }

    /// A block: `far_db` is what is played, `difference` how much louder the rest is, and
    /// `excess` how far the rest lies above the echo that is expected, in units of the margin
    /// from which on it is surely speech.
    pub fn listen(&mut self, far_db: Single, difference: Single, excess: Single) -> (lesson: Lesson)
        ensures
            !playing(far_db) ==> lesson == Lesson::Silent && *final(self) == (Residual {
                talking_blocks: 0,
                ..*old(self)
            }),
            playing(far_db) ==> {
                let ratio = difference.limited(whole_of(-90), whole_of(6));
                let speech = excess.limited(whole_of(0), whole_of(1));
                &&& lesson == (Lesson::Heard { ratio, k: old(self).learns(ratio, speech), speech })
                &&& *final(self) == (Residual { talking_blocks: old(self).talking_after(speech), ..*old(self) })
            },
    {
        if far_db.lt(Single::whole(-60)) {
            self.talking_blocks = 0;
            return Lesson::Silent;
        }
        let (zero, one) = (Single::whole(0), Single::whole(1));
        let (low, high) = (Single::whole(-90), Single::whole(6));
        proof {
            lemma_quarters_order(zero, 0, one, 4);
            lemma_quarters_order(low, -360, high, 24);
        }
        let ratio = difference.clamp(low, high);
        let speech = excess.clamp(zero, one);
        let talking = Single::quarters(2).lt(speech);
        if talking {
            if self.talking_blocks < u32::MAX {
                self.talking_blocks = self.talking_blocks + 1;
            }
        } else {
            self.talking_blocks = 0;
        }
        let k = if ratio.lt(self.coupling_db) {
            Single { bits: COUPLING_DOWN_BITS }
        } else if talking {
            if self.talking_blocks >= TALK_FREEZE_BLOCKS {
                Single { bits: COUPLING_RECOVER_BITS }
            } else {
                zero
            }
        } else {
            Single { bits: COUPLING_UP_BITS }
        };
        Lesson::Heard { ratio, k, speech }
    }

    /// The coupling that was learned.
    pub fn learn(&mut self, coupling_db: Single)
        ensures
            *final(self) == (Residual { coupling_db, ..*old(self) }),
    {
        self.coupling_db = coupling_db;
    }

    /// How the lowering goes to `target`: it builds up slowly and is given up quickly.
    pub fn aim(&self, target: Single) -> (c: Course)
        ensures
            c.target == target,
            c.k == if self.duck_db.less(target) {
                Single { bits: DUCK_ATTACK_BITS }
            } else {
                Single { bits: DUCK_RELEASE_BITS }
            },
    {
        let bits = if self.duck_db.lt(target) {
            DUCK_ATTACK_BITS
        } else {
            DUCK_RELEASE_BITS
        };
        Course { target, k: Single { bits } }
    }

    /// The lowering that has been reached.
    pub fn settle(&mut self, duck_db: Single)
        ensures
            *final(self) == (Residual { duck_db, ..*old(self) }),
    {
        self.duck_db = duck_db;
    }
}

impl Default for Residual {
    fn default() -> (r: Residual)
        ensures
            r.is_fresh(),
    {
        Residual { coupling_db: Single::whole(0), duck_db: Single::whole(0), talking_blocks: 0 }
    }
}

/// While somebody speaks, the estimate is not pulled up: only after 400 blocks in a row.
pub proof fn law_speech_does_not_teach(r: Residual, ratio: Single, speech: Single)
    requires
        sounds_like_speech(speech),
        !ratio.less(r.coupling_db),
    ensures
        r.learns(ratio, speech) == whole_of(0) <==> r.talking_blocks + 1 < TALK_FREEZE_BLOCKS,
{
    crate::single::lemma_quarters_of(0);
    let zero = whole_of(0);
    assert(zero.bits == 0);
}

/// Blocks of speech in a row, counted from a pause.
pub open spec fn talking_for(r: Residual, blocks: Seq<Single>) -> Residual
    decreases blocks.len(),
{
    if blocks.len() == 0 {
        r
    } else {
        let before = talking_for(r, blocks.drop_last());
        Residual { talking_blocks: before.talking_after(blocks.last()), ..before }
    }
}

/// The count of blocks in a row is right for as long as it fits.
pub proof fn law_talking_is_counted(r: Residual, blocks: Seq<Single>)
    requires
        r.talking_blocks == 0,
        blocks.len() <= u32::MAX,
        forall|i: int| 0 <= i < blocks.len() ==> sounds_like_speech(#[trigger] blocks[i]),
    ensures
        talking_for(r, blocks).talking_blocks == blocks.len(),
    decreases blocks.len(),
{
    if blocks.len() > 0 {
        let earlier = blocks.drop_last();
        assert forall|i: int| 0 <= i < earlier.len() implies sounds_like_speech(#[trigger] earlier[i]) by {
            assert(earlier[i] == blocks[i]);
        }
        law_talking_is_counted(r, earlier);
        assert(sounds_like_speech(blocks[blocks.len() - 1]));
    }
}

/// The microphone in blocks, with what is played beside it.
pub struct Echo {
    pub reference: Reference,
    pub mic_frames: usize,
    pub ref_frames: usize,
    /// The block that is being filled.
    pub mic_in: Vec<Single>,
    /// Finished samples that nobody has taken yet.
    pub ready: VecDeque<Single>,
    pub residual: Residual,
    pub status: Status,
    /// Blocks since the figures were looked at.
    pub since_stats: u32,
}

impl Echo {
    pub open spec fn valid(self) -> bool {
        &&& self.since_stats < STATS_EVERY_BLOCKS
        &&& self.ref_frames * MAX_REFERENCE_BLOCKS <= usize::MAX
    }

    pub fn new(mic_rate: u32, reference: Reference) -> (e: Echo)
        ensures
            e.valid(),
            e.reference == reference,
            e.mic_frames == frames(mic_rate),
            e.ref_frames == frames(reference.rate),
            e.mic_in@ == Seq::<Single>::empty(),
            e.ready@ == Seq::<Single>::empty(),
            e.residual.is_fresh(),
            e.status.is_fresh(),
            e.since_stats == 0,
    {
        let ref_frames = frames_of(reference.rate);
        let e = Echo {
            reference,
            mic_frames: frames_of(mic_rate),
            ref_frames,
            mic_in: Vec::new(),
            ready: VecDeque::new(),
            residual: Residual::default(),
            status: Status::default(),
            since_stats: 0,
        };
        assert(e.mic_in@ =~= Seq::empty());
        assert(e.ready@ =~= Seq::empty());
        e
    }

    /// The name of what is listened to.
    pub fn reference_name(&self) -> (r: &str)
        ensures
            r@ == self.reference.name@,
    {
        self.reference.name.as_str()
    }

    /// Everything but the block of the microphone is as in `other`.
    pub open spec fn agrees_but_block(self, other: Echo) -> bool {
        &&& self.reference == other.reference
        &&& self.mic_frames == other.mic_frames
        &&& self.ref_frames == other.ref_frames
        &&& self.ready == other.ready
        &&& self.residual == other.residual
        &&& self.status == other.status
        &&& self.since_stats == other.since_stats
    }

    /// A sample goes in. Says whether the block is full; then what is played goes to the
    /// canceller first, and the block after it.
    pub fn push(&mut self, x: Single) -> (full: bool)
        ensures
            final(self).agrees_but_block(*old(self)),
            final(self).mic_in@ == old(self).mic_in@.push(x),
            full == (old(self).mic_in@.len() + 1 == old(self).mic_frames),
    {
        self.mic_in.push(x);
        self.mic_in.len() == self.mic_frames
    }

    /// The block of what is played that belongs to the full block of the microphone. What has
    /// piled up is trimmed before; a short one is counted.
    pub fn played(&mut self) -> (block: Vec<Single>)
        requires
            old(self).valid(),
        ensures
            final(self).valid(),
            block@.len() == old(self).ref_frames,
            final(self).mic_frames == old(self).mic_frames,
            final(self).ref_frames == old(self).ref_frames,
            final(self).mic_in == old(self).mic_in,
            final(self).ready == old(self).ready,
            final(self).residual == old(self).residual,
            final(self).since_stats == old(self).since_stats,
            exists|arrived: Seq<u32>, seen: Seq<u32>, answers: Seq<Option<u32>>|
                #![trigger arrived.len(), filled_with(block@, seen, answers)]
                {
                    let n = old(self).ref_frames as int;
                    let gone = too_many(arrived.len(), n);
                    &&& held(old(self).reference.samples).is_prefix_of(arrived)
                    &&& arrived.len() <= room(old(self).reference.samples)
                    &&& arrived.skip(gone).is_prefix_of(seen)
                    &&& seen.len() <= room(old(self).reference.samples)
                    &&& filled_with(block@, seen, answers)
                    &&& went_on(old(self).reference.samples, final(self).reference.samples, gone + samples_in(answers))
                    &&& seen.len() >= n ==> held(final(self).reference.samples) == seen.skip(n)
                    &&& final(self).status == if seen.len() < n {
                        old(self).status.counted()
                    } else {
                        old(self).status
                    }
                },
            final(self).reference.name == old(self).reference.name,
            final(self).reference.rate == old(self).reference.rate,
    {
        let silence = Single::whole(0);
        let mut block: Vec<Single> = Vec::new();
        while block.len() < self.ref_frames
            invariant
                block@.len() <= self.ref_frames,
                *self == *old(self),
            decreases self.ref_frames - block@.len(),
        {
            block.push(silence);
        }
        let n: usize = self.ref_frames;
        self.reference.trim(n);
        let ghost trimmed = self.reference.samples;
        let short = self.reference.take_block(&mut block);
        if short {
            self.status.count_underrun();
        }
        proof {
            let start = old(self).reference.samples;
            let arrived = choose|arrived: Seq<u32>| #![trigger arrived.len()]
                {
                    &&& held(start).is_prefix_of(arrived)
                    &&& arrived.len() <= room(start)
                    &&& went_on(start, trimmed, too_many(arrived.len(), n as int))
                    &&& arrived.skip(too_many(arrived.len(), n as int)).is_prefix_of(held(trimmed))
                    &&& too_many(arrived.len(), n as int) == 0 ==> held(trimmed) == arrived
                };
            let (seen, answers) = choose|seen: Seq<u32>, answers: Seq<Option<u32>>| #[trigger]
                filled_with(block@, seen, answers) && {
                    &&& held(trimmed).is_prefix_of(seen)
                    &&& seen.len() <= room(trimmed)
                    &&& short == (seen.len() < n)
                    &&& !short ==> held(self.reference.samples) == seen.skip(n as int)
                    &&& went_on(trimmed, self.reference.samples, samples_in(answers) as int)
                };
            lemma_went_on(
                start,
                trimmed,
                self.reference.samples,
                too_many(arrived.len(), n as int),
                samples_in(answers) as int,
            );
            assert(arrived.len() >= 0 && filled_with(block@, seen, answers));
        }
        block
    }

    /// The block comes back from the canceller, lowered by the residual; without a result the
    /// block goes on as it is rather than as silence. Says whether it is time to look at the
    /// figures.
    pub fn finish(&mut self, output: Option<Vec<Single>>) -> (stats: bool)
        requires
            old(self).valid(),
        ensures
            final(self).valid(),
            final(self).ready@ == old(self).ready@ + (match output {
                Some(out) => out@,
                None => old(self).mic_in@,
            }),
            final(self).mic_in@ == Seq::<Single>::empty(),
            stats == (old(self).since_stats + 1 == STATS_EVERY_BLOCKS),
            final(self).since_stats == if stats {
                0
            } else {
                old(self).since_stats + 1
            },
            final(self).reference == old(self).reference,
            final(self).mic_frames == old(self).mic_frames,
            final(self).ref_frames == old(self).ref_frames,
            final(self).residual == old(self).residual,
            final(self).status == old(self).status,
    {
        match output {
            Some(out) => append(&mut self.ready, &out),
            None => append(&mut self.ready, &self.mic_in),
        }
        self.mic_in.clear();
        assert(self.mic_in@ =~= Seq::empty());
        self.since_stats = self.since_stats + 1;
        if self.since_stats >= STATS_EVERY_BLOCKS {
            self.since_stats = 0;
            true
        } else {
            false
        }
    }

    /// The sample that comes out now; until the first block is done that is silence.
    pub fn next(&mut self) -> (y: Single)
        ensures
            y == first_or_silence(old(self).ready@),
            final(self).ready@ == rest(old(self).ready@),
            final(self).mic_in == old(self).mic_in,
            final(self).reference == old(self).reference,
            final(self).mic_frames == old(self).mic_frames,
            final(self).ref_frames == old(self).ref_frames,
            final(self).residual == old(self).residual,
            final(self).status == old(self).status,
            final(self).since_stats == old(self).since_stats,
    {
        let y = match self.ready.pop_front() {
            Some(y) => y,
            None => Single::whole(0),
        };
        assert(self.ready@ =~= rest(old(self).ready@));
        y
    }
}

fn append(queue: &mut VecDeque<Single>, more: &Vec<Single>)
    ensures
        final(queue)@ == old(queue)@ + more@,
{
    let mut i: usize = 0;
    while i < more.len()
        invariant
            i <= more@.len(),
            queue@ == old(queue)@ + more@.take(i as int),
        decreases more@.len() - i,
    {
        queue.push_back(more[i]);
        assert(queue@ =~= old(queue)@ + more@.take(i + 1));
        i = i + 1;
    }
    assert(more@.take(i as int) =~= more@);
}

/// The figures are looked at with every fiftieth block.
pub open spec fn since_after(n: nat) -> int
    decreases n,
{
    if n == 0 {
        0
    } else if since_after((n - 1) as nat) + 1 == STATS_EVERY_BLOCKS {
        0
    } else {
        since_after((n - 1) as nat) + 1
    }
}

/// The figures are looked at with every fiftieth block.
pub proof fn law_figures_twice_a_second(n: nat)
    ensures
        since_after(n) == n % 50,
    decreases n,
{
    if n > 0 {
        let m = (n - 1) as nat;
        law_figures_twice_a_second(m);
        assert(n % 50 == if m % 50 == 49 {
            0
        } else {
            m % 50 + 1
        }) by (nonlinear_arith)
            requires
                n == m + 1,
        ;
    }
}

/// A block is 10 ms: a hundred of them are no more than a second, and one sample more would be.
pub proof fn law_block_is_ten_milliseconds(rate: u32, n: usize)
    requires
        call_ensures(frames_of, (rate,), n),
    ensures
        100 * n <= rate < 100 * (n + 1),
{
}

/// What is played is never more than two blocks ahead: the oldest beyond that is thrown away, and
/// nothing else.
pub proof fn law_two_blocks_ahead_at_most(filled: nat, block: int)
    requires
        block >= 0,
    ensures
        filled <= 2 * block ==> too_many(filled, block) == 0,
        filled > 2 * block ==> filled - too_many(filled, block) == 2 * block,
{
}

/// Below -60 dB nothing is played, and nothing is learned. Else the rest is compared within -90 and
/// 6 dB; above the half it sounds like speech, which is counted in a row.
pub proof fn law_what_a_block_teaches(
    r: &mut Residual,
    far_db: Single,
    difference: Single,
    excess: Single,
    lesson: Lesson,
)
    requires
        call_ensures(Residual::listen, (r, far_db, difference, excess), lesson),
        !far_db.nan(),
        !difference.nan(),
        !excess.nan(),
        !old(r).coupling_db.nan(),
    ensures
        far_db.val() < -60 * pow2(149) ==> lesson is Silent && final(r).talking_blocks == 0,
        far_db.val() >= -60 * pow2(149) ==> (lesson matches Lesson::Heard { ratio, k, speech } && {
            let talks = excess.val() > pow2(148);
            &&& difference.val() < -90 * pow2(149) ==> ratio.val() == -90 * pow2(149)
            &&& difference.val() > 6 * pow2(149) ==> ratio.val() == 6 * pow2(149)
            &&& -90 * pow2(149) <= difference.val() <= 6 * pow2(149) ==> ratio == difference
            &&& excess.val() < 0 ==> speech.val() == 0
            &&& excess.val() > pow2(149) ==> speech.val() == pow2(149)
            &&& 0 <= excess.val() <= pow2(149) ==> speech == excess
            &&& !talks ==> final(r).talking_blocks == 0
            &&& talks && old(r).talking_blocks < u32::MAX ==> final(r).talking_blocks == old(r).talking_blocks + 1
            &&& ratio.val() < old(r).coupling_db.val() ==> k.bits == 0x3e4c_cccd
            &&& ratio.val() >= old(r).coupling_db.val() && !talks ==> k.bits == 0x3b03_126f
            &&& ratio.val() >= old(r).coupling_db.val() && talks && final(r).talking_blocks < 400 ==> k.val() == 0
            &&& ratio.val() >= old(r).coupling_db.val() && talks && final(r).talking_blocks >= 400 ==> k.bits == 0x3b83_126f
        }),
        final(r).coupling_db == old(r).coupling_db && final(r).duck_db == old(r).duck_db,
{
    crate::single::lemma_whole_val(-60);
    crate::single::lemma_whole_val(-90);
    crate::single::lemma_whole_val(6);
    crate::single::lemma_whole_val(0);
    crate::single::lemma_whole_val(1);
    crate::single::lemma_quarters_of(2);
    vstd::arithmetic::power2::lemma_pow2_adds(1, 147);
    vstd::arithmetic::power2::lemma_pow2_adds(1, 148);
    vstd::arithmetic::power2::lemma2_to64();
    vstd::arithmetic::power2::lemma_pow2_pos(147);
}

/// The additional lowering builds up slowly and is given up fast.
pub proof fn law_lowering_is_given_up_fast(r: &Residual, target: Single, c: Course)
    requires
        call_ensures(Residual::aim, (r, target), c),
        !target.nan(),
        !r.duck_db.nan(),
    ensures
        c.target == target,
        target.val() > r.duck_db.val() ==> c.k.bits == 0x3dcc_cccd,
        target.val() <= r.duck_db.val() ==> c.k.bits == 0x3f00_0000,
{
}

/// A known attenuation is shown until another one is known, a delay only while it is known; each
/// block that came too late counts.
pub proof fn law_figures_of_the_echo(
    s: &mut Status,
    erle: Option<i32>,
    delay: Option<i32>,
    shown: Option<i32>,
    found: Option<i32>,
    t: &mut Status,
)
    requires
        call_ensures(Status::report, (s, erle, delay), ()),
        call_ensures(Status::erle_db, (&*final(s),), shown),
        call_ensures(Status::delay_ms, (&*final(s),), found),
        call_ensures(Status::count_underrun, (t,), ()),
    ensures
        erle is Some && erle != Some(i32::MIN) ==> shown == erle,
        erle is None && old(s).erle_dbx10 != i32::MIN ==> shown == Some(old(s).erle_dbx10),
        erle is None && old(s).erle_dbx10 == i32::MIN ==> shown is None,
        delay is Some && delay != Some(-1i32) ==> found == delay,
        delay is None ==> found is None,
        old(t).underruns < u32::MAX ==> final(t).underruns == old(t).underruns + 1,
        final(t).erle_dbx10 == old(t).erle_dbx10 && final(t).delay_ms == old(t).delay_ms,
{
}

/// No sample of the microphone is lost or changes its place: a block without a result comes out as
/// it went in, one with a result as that, behind what was there; samples come out in their order,
/// and silence only while there is none.
pub proof fn law_samples_come_out_in_order(
    e: &mut Echo,
    output: Option<Vec<Single>>,
    stats: bool,
    n: &mut Echo,
    y: Single,
)
    requires
        old(e).valid(),
        call_ensures(Echo::finish, (e, output), stats),
        call_ensures(Echo::next, (n,), y),
    ensures
        output is None ==> final(e).ready@ == old(e).ready@ + old(e).mic_in@,
        output matches Some(out) ==> final(e).ready@ == old(e).ready@ + out@,
        final(e).mic_in@.len() == 0,
        stats <==> old(e).since_stats == 49,
        old(n).ready@.len() > 0 ==> y == old(n).ready@[0] && final(n).ready@ == old(n).ready@.drop_first(),
        old(n).ready@.len() == 0 ==> y.val() == 0 && final(n).ready@.len() == 0,
{
    crate::single::lemma_whole_val(0);
}

/// What is played comes out as it went in: the samples that were there fill the block in their order.
pub proof fn law_played_samples_keep_their_order(r: &mut Reference, out: &mut Vec<Single>, short: bool, i: int)
    requires
        call_ensures(Reference::take_block, (r, out), short),
        0 <= i < old(out)@.len(),
        i < held(old(r).samples).len(),
    ensures
        final(out)@.len() == old(out)@.len(),
        final(out)@[i].bits == held(old(r).samples)[i],
        held(old(r).samples).len() >= old(out)@.len() ==> !short,
{
    let (seen, answers) = choose|seen: Seq<u32>, answers: Seq<Option<u32>>| #[trigger]
        filled_with(final(out)@, seen, answers) && {
            &&& held(old(r).samples).is_prefix_of(seen)
            &&& seen.len() <= room(old(r).samples)
            &&& short == (seen.len() < old(out)@.len())
            &&& !short ==> held(final(r).samples) == seen.skip(old(out)@.len() as int)
            &&& went_on(old(r).samples, final(r).samples, samples_in(answers) as int)
        };
    assert(filled_with(final(out)@, seen, answers));
    assert(answers[i] == Some(seen[i]));
    assert(final(out)@[i] == sound(answers[i]));
    assert(seen[i] == held(old(r).samples)[i]);
}

/// A block of the microphone is full with as many samples as 10 ms have; what was learned and what
/// was reached are kept.
pub proof fn law_block_fills_up(
    e: &mut Echo,
    x: Single,
    full: bool,
    r: &mut Residual,
    coupling: Single,
    q: &mut Residual,
    duck: Single,
)
    requires
        call_ensures(Echo::push, (e, x), full),
        call_ensures(Residual::learn, (r, coupling), ()),
        call_ensures(Residual::settle, (q, duck), ()),
    ensures
        full <==> final(e).mic_in@.len() == old(e).mic_frames,
        final(e).mic_in@.drop_last() == old(e).mic_in@ && final(e).mic_in@.last() == x,
        final(e).ready == old(e).ready,
        final(r).coupling_db == coupling && final(r).duck_db == old(r).duck_db && final(r).talking_blocks == old(
            r).talking_blocks,
        final(q).duck_db == duck && final(q).coupling_db == old(q).coupling_db,
{
    assert(final(e).mic_in@.drop_last() =~= old(e).mic_in@);
}

/// What is left of the echo is lowered by up to 8 dB; 8 dB above it is surely speech.
pub proof fn law_up_to_eight_db()
    ensures
        EXTRA_DB == 8,
        TALK_MARGIN_DB == 8,
{
}

/// Where no more can have piled up than two blocks, and a whole block of what is played is there, it
/// goes to the canceller in its order, and nothing counts as late.
pub proof fn law_played_block_is_in_time(e: &mut Echo, block: Vec<Single>, i: int)
    requires
        old(e).valid(),
        call_ensures(Echo::played, (e,), block),
        room(old(e).reference.samples) <= 2 * old(e).ref_frames,
        held(old(e).reference.samples).len() >= old(e).ref_frames,
        0 <= i < old(e).ref_frames,
    ensures
        block@.len() == old(e).ref_frames,
        block@[i].bits == held(old(e).reference.samples)[i],
        final(e).status == old(e).status,
        final(e).mic_in == old(e).mic_in,
{
    let h = held(old(e).reference.samples);
    let n = old(e).ref_frames as int;
    let (arrived, seen, answers) = choose|arrived: Seq<u32>, seen: Seq<u32>, answers: Seq<Option<u32>>|
        #![trigger arrived.len(), filled_with(block@, seen, answers)]
        {
            let gone = too_many(arrived.len(), n);
            &&& h.is_prefix_of(arrived)
            &&& arrived.len() <= room(old(e).reference.samples)
            &&& arrived.skip(gone).is_prefix_of(seen)
            &&& seen.len() <= room(old(e).reference.samples)
            &&& filled_with(block@, seen, answers)
            &&& went_on(old(e).reference.samples, final(e).reference.samples, gone + samples_in(answers))
            &&& seen.len() >= n ==> held(final(e).reference.samples) == seen.skip(n)
            &&& final(e).status == if seen.len() < n {
                old(e).status.counted()
            } else {
                old(e).status
            }
        };
    assert(arrived.len() >= 0 && filled_with(block@, seen, answers));
    assert(too_many(arrived.len(), n) == 0);
    assert(arrived.skip(0) =~= arrived);
    assert(seen[i] == arrived[i] && arrived[i] == h[i]);
    assert(answers[i] == Some(seen[i]));
    assert(block@[i] == sound(answers[i]));
}

} // verus!
