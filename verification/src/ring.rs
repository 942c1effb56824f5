//! The queue of samples between two audio threads: one end writes, the other reads, neither
//! waits. A sample is held by its bit pattern.
//!
//! Each end has its own picture of the queue and looks at the other end's progress only now and
//! then. What is said here of an end is said of its picture.

use ringbuf::traits::{Consumer, Observer, Producer, Split};
use vstd::prelude::*;

use crate::single::whole_of;
use crate::single::Single;

verus! {

/// The writing end.
#[verifier::external_body]
pub struct SampleSink {
    end: ringbuf::HeapProd<u32>,
}

/// The reading end.
#[verifier::external_body]
pub struct SampleSource {
    end: ringbuf::HeapCons<u32>,
}

/// The samples that the reading end knows to be in the queue, the oldest first.
pub uninterp spec fn held(source: SampleSource) -> Seq<u32>;

/// The samples that the writing end takes to be still in the queue, the oldest first.
pub uninterp spec fn queued(sink: SampleSink) -> Seq<u32>;

/// How many samples there is room for in the queue.
pub uninterp spec fn places(sink: SampleSink) -> nat;

/// Where the reading end stands: an index that goes round at twice the room of the queue.
pub uninterp spec fn read_at(source: SampleSource) -> nat;

/// How many samples there is room for in the queue, as the reading end knows it.
pub uninterp spec fn room(source: SampleSource) -> nat;

/// The reading end `after` is that of the same queue as `before`, and has gone on by `count`
/// samples, taken or thrown away.
pub open spec fn went_on(before: SampleSource, after: SampleSource, count: int) -> bool {
    &&& room(after) == room(before)
    &&& read_at(after) == (read_at(before) + count) % (2 * room(before) as int)
}

/// Going on twice is going on by both together.
pub proof fn lemma_went_on(a: SampleSource, b: SampleSource, c: SampleSource, x: int, y: int)
    requires
        went_on(a, b, x),
        went_on(b, c, y),
        room(a) > 0,
    ensures
        went_on(a, c, x + y),
{
    let m = 2 * room(a) as int;
    vstd::arithmetic::div_mod::lemma_add_mod_noop_right(y, read_at(a) + x, m);
    assert(read_at(b) + y == y + (read_at(a) + x) % m);
    assert(read_at(a) + (x + y) == y + (read_at(a) + x));
}

/// `ringbuf::HeapRb::new` and `split`: an empty queue with room for `capacity` samples, as its
/// two ends. A capacity of zero, or one that no allocation can have, would panic.
#[verifier::external_body]
fn new_queue(capacity: usize) -> (ends: (SampleSink, SampleSource))
    requires
        0 < capacity,
        capacity * 4 <= isize::MAX,
    ensures
        queued(ends.0) == Seq::<u32>::empty(),
        places(ends.0) == capacity,
        held(ends.1) == Seq::<u32>::empty(),
        read_at(ends.1) == 0,
        room(ends.1) == capacity,
{
    let (sink, source) = ringbuf::HeapRb::<u32>::new(capacity).split();
    (SampleSink { end: sink }, SampleSource { end: source })
}

impl SampleSink {
    /// `ringbuf::traits::Producer::try_push` of the caching producer: a full queue is looked at
    /// once more, since the reading end may have taken some of the oldest samples. The sample
    /// is refused only if the queue is then still full, and goes to the end otherwise.
    #[verifier::external_body]
    pub(crate) fn try_push(&mut self, sample: u32) -> (taken: bool)
        ensures
            places(*final(self)) == places(*old(self)),
            !taken ==> queued(*old(self)).len() == places(*old(self)) && queued(*final(self)) == queued(*old(self)),
            taken ==> exists|gone: int| #![trigger queued(*old(self)).skip(gone)]
                0 <= gone <= queued(*old(self)).len() && (queued(*old(self)).len() < places(*old(self)) ==> gone == 0)
                    && queued(*final(self)) == queued(*old(self)).skip(gone).push(sample),
    {
        self.end.try_push(sample).is_ok()
    }
}

impl SampleSource {
    /// `ringbuf::traits::Observer::occupied_len` of the caching consumer: looks what has
    /// arrived, and counts. There is never more than the queue has room for. The index stays
    /// where it is, below twice the room.
    #[verifier::external_body]
    pub(crate) fn occupied_len(&mut self) -> (n: usize)
        ensures
            held(*old(self)).is_prefix_of(held(*final(self))),
            n == held(*final(self)).len(),
            n <= room(*final(self)),
            went_on(*old(self), *final(self), 0),
            read_at(*final(self)) < 2 * room(*final(self)),
    {
        self.end.occupied_len()
    }

    /// `ringbuf::traits::Consumer::try_pop` of the caching consumer: the oldest sample. Only an
    /// empty queue is looked at once more; `None` if it is then still empty. What arrived in
    /// that case is not said. The index goes on by one with a sample, and else stays.
    #[verifier::external_body]
    pub(crate) fn try_pop(&mut self) -> (sample: Option<u32>)
        ensures
            held(*old(self)).len() > 0 ==> sample == Some(held(*old(self))[0]) && held(*final(self)) == held(
                *old(self),
            ).drop_first(),
            sample is None ==> held(*final(self)) == Seq::<u32>::empty(),
            went_on(*old(self), *final(self), if sample is Some {
                1
            } else {
                0
            }),
            read_at(*final(self)) < 2 * room(*final(self)),
    {
        self.end.try_pop()
    }

    /// `ringbuf::traits::Consumer::skip` of the caching consumer: looks what has arrived, then
    /// throws the oldest samples away, `count` of them or as many as there are. Says how many
    /// went; the index goes on by as many.
    #[verifier::external_body]
    pub(crate) fn skip(&mut self, count: usize) -> (gone: usize)
        ensures
            exists|all: Seq<u32>| #![trigger all.skip(gone as int)]
                held(*old(self)).is_prefix_of(all) && held(*final(self)) == all.skip(gone as int) && gone == (if count
                    <= all.len() {
                    count as nat
                } else {
                    all.len()
                }),
            went_on(*old(self), *final(self), gone as int),
            read_at(*final(self)) < 2 * room(*final(self)),
    {
        self.end.skip(count)
    }
}

/// How many of `filled` samples are too many, if `keep` of them are to stay.
pub fn surplus(filled: usize, keep: usize) -> (gone: usize)
    ensures
        gone == if filled > keep {
            filled - keep
        } else {
            0
        },
{
    if filled > keep {
        filled - keep
    } else {
        0
    }
}

/// The sample that came out of the queue; where there was none, silence.
pub open spec fn sound(popped: Option<u32>) -> Single {
    match popped {
        Some(bits) => Single { bits },
        None => whole_of(0),
    }
}

/// The sample that came out of the queue; where there was none, silence.
pub fn sample_or_silence(popped: Option<u32>) -> (s: Single)
    ensures
        s == sound(popped),
{
    match popped {
        Some(bits) => Single { bits },
        None => Single::whole(0),
    }
}

/// How many of the answers are samples.
pub open spec fn samples_in(answers: Seq<Option<u32>>) -> nat
    decreases answers.len(),
{
    if answers.len() == 0 {
        0
    } else {
        samples_in(answers.drop_last()) + (if answers.last() is Some {
            1nat
        } else {
            0
        })
    }
}

/// If the first `k` answers are samples, there are at least `k`, and if there are no more than
/// that, then none of the others is one.
pub proof fn lemma_samples_in(answers: Seq<Option<u32>>, k: int)
    requires
        0 <= k <= answers.len(),
        forall|i: int| 0 <= i < k ==> #[trigger] answers[i] is Some,
    ensures
        k <= samples_in(answers) <= answers.len(),
        samples_in(answers) == k ==> forall|i: int| k <= i < answers.len() ==> #[trigger] answers[i] is None,
    decreases answers.len(),
{
    if answers.len() > 0 {
        let earlier = answers.drop_last();
        assert forall|i: int| 0 <= i < k && i < earlier.len() implies #[trigger] earlier[i] is Some by {
            assert(answers[i] is Some);
        }
        if k == answers.len() {
            lemma_samples_in(earlier, k - 1);
            assert(answers[k - 1] is Some);
        } else {
            lemma_samples_in(earlier, k);
            if samples_in(answers) == k {
                assert forall|i: int| k <= i < answers.len() implies #[trigger] answers[i] is None by {
                    if i < earlier.len() {
                        assert(earlier[i] is None);
                    }
                }
            }
        }
    }
}

/// A queue with room for `capacity` samples, as its two ends; `None` where there is no such
/// queue.
pub fn queue(capacity: usize) -> (r: Option<(SampleSink, SampleSource)>)
    ensures
        r is Some <==> 0 < capacity && capacity <= isize::MAX / 4,
        r matches Some(ends) ==> queued(ends.0) == Seq::<u32>::empty() && places(ends.0) == capacity && held(ends.1)
            == Seq::<u32>::empty() && read_at(ends.1) == 0 && room(ends.1) == capacity,
{
    if capacity == 0 || capacity > (isize::MAX / 4) as usize {
        None
    } else {
        Some(new_queue(capacity))
    }
}

impl SampleSink {
    /// Adds a sample if there is room. Says whether there was.
    pub fn push(&mut self, sample: Single) -> (taken: bool)
        ensures
            places(*final(self)) == places(*old(self)),
            queued(*old(self)).len() < places(*old(self)) ==> taken && queued(*final(self)) == queued(*old(self)).push(
                sample.bits,
            ),
            taken ==> exists|gone: int| #![trigger queued(*old(self)).skip(gone)]
                0 <= gone <= queued(*old(self)).len() && queued(*final(self)) == queued(*old(self)).skip(gone).push(
                    sample.bits,
                ),
            !taken ==> queued(*final(self)) == queued(*old(self)) && queued(*old(self)).len() == places(*old(self)),
    {
        let taken = self.try_push(sample.bits);
        assert(queued(*old(self)).skip(0) =~= queued(*old(self)));
        taken
    }
}

impl SampleSource {
    /// How many samples there are in the queue.
    pub fn waiting(&mut self) -> (n: usize)
        ensures
            held(*old(self)).is_prefix_of(held(*final(self))),
            n == held(*final(self)).len(),
            n <= room(*final(self)),
            went_on(*old(self), *final(self), 0),
    {
        self.occupied_len()
    }
}

/// Neither end waits and nothing is made up: without a sample there is silence, and only what is too
/// much is thrown away.
pub proof fn law_silence_where_nothing_came(popped: Option<u32>, s: Single, filled: usize, keep: usize, gone: usize)
    requires
        call_ensures(sample_or_silence, (popped,), s),
        call_ensures(surplus, (filled, keep), gone),
    ensures
        popped matches Some(bits) ==> s.bits == bits,
        popped is None ==> s.val() == 0,
        filled <= keep ==> gone == 0,
        filled > keep ==> filled - gone == keep,
{
    crate::single::lemma_whole_val(0);
}

} // verus!
