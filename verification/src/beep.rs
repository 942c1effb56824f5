//! A short beep: which of its samples are heard, and how it fades in and out.

use vstd::arithmetic::power2::pow2;
use vstd::prelude::*;

use crate::single::lemma_quarters_order;
use crate::single::whole_of;
use crate::single::Single;

verus! {

/// The loudness that is played for a setting: from 0 to 1.
pub fn loudness(volume: Single) -> (r: Single)
    ensures
        r == volume.limited(whole_of(0), whole_of(1)),
        !volume.nan() ==> whole_of(0).at_most(r) && r.at_most(whole_of(1)),
{
    let (low, high) = (Single::whole(0), Single::whole(1));
    proof {
        lemma_quarters_order(low, 0, high, 4);
    }
    volume.clamp(low, high)
}

/// A sample of the beep.
#[derive(Clone, Copy, Debug, PartialEq, Eq, Structural)]
pub struct Tone {
    /// Its place.
    pub at: usize,
    /// How many samples it is away from the nearer end.
    pub ramp: usize,
}

/// A beep that is being played.
#[derive(Clone, Copy, Debug, PartialEq, Eq, Structural)]
pub struct Beep {
    pub played: usize,
    /// Its length in samples.
    pub total: usize,
}

/// The distance to the nearer end.
pub open spec fn nearer_end(at: int, total: int) -> int {
    if at <= total - at {
        at
    } else {
        total - at
    }
}

impl Beep {
    pub fn new(total: usize) -> (b: Beep)
        ensures
            b == (Beep { played: 0, total }),
    {
        Beep { played: 0, total }
    }

    /// The next sample; `None` is silence, once the beep is over.
    pub fn next(&mut self) -> (r: Option<Tone>)
        ensures
            final(self).total == old(self).total,
            old(self).played < old(self).total ==> {
                &&& r == Some(Tone {
                    at: old(self).played,
                    ramp: nearer_end(old(self).played as int, old(self).total as int) as usize,
                })
                &&& final(self).played == old(self).played + 1
            },
            old(self).played >= old(self).total ==> r is None && *final(self) == *old(self),
    {
        if self.played < self.total {
            let at: usize = self.played;
            let left: usize = self.total - at;
            self.played = at + 1;
            Some(Tone {
                at,
                ramp: if at <= left {
                    at
                } else {
                    left
                },
            })
        } else {
            None
        }
    }
}

/// The beep fades in and out alike, and begins in silence, so that it does not crackle.
pub proof fn law_beep_fades(at: int, total: int)
    requires
        0 <= at <= total,
    ensures
        nearer_end(at, total) == nearer_end(total - at, total),
        nearer_end(0, total) == 0,
        0 <= nearer_end(at, total) <= at,
{
}

/// A beep plays each of its samples once, in order, and is silent after that; each fades with the
/// distance to the nearer end.
pub proof fn law_beep_plays_once(b: &mut Beep, r: Option<Tone>)
    requires
        call_ensures(Beep::next, (b,), r),
    ensures
        r is Some <==> old(b).played < old(b).total,
        r matches Some(tone) ==> {
            &&& tone.at == old(b).played && final(b).played == old(b).played + 1
            &&& tone.ramp <= tone.at && tone.ramp <= old(b).total - tone.at
            &&& tone.ramp == tone.at || tone.ramp == old(b).total - tone.at
        },
        r is None ==> *final(b) == *old(b),
        final(b).total == old(b).total,
{
}

/// The loudness is the one that was set, but not below 0 and not above 1.
pub proof fn law_loudness_is_as_it_was_set(volume: Single, r: Single)
    requires
        call_ensures(loudness, (volume,), r),
        !volume.nan(),
    ensures
        volume.val() < 0 ==> r.val() == 0,
        volume.val() > pow2(149) ==> r.val() == pow2(149),
        0 <= volume.val() <= pow2(149) ==> r == volume,
{
    crate::single::lemma_whole_val(0);
    crate::single::lemma_whole_val(1);
}

} // verus!
