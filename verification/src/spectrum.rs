//! The frequency diagram of the microphone and a noise profile to compare it with.

use vstd::prelude::*;

use crate::clock::elapsed;
use crate::clock::passed;
use crate::single::whole_of;
use crate::single::Single;

verus! {

/// Samples in a transform.
pub const FFT_SIZE: usize = 1024;

/// Frequency bands in the diagram.
pub const BINS: usize = 512;

/// It is computed anew only so often: every 60 ms.
pub const INTERVAL: u64 = 60_000_000;

/// A noise profile is averaged for 2 s.
pub const PROFILE_TIME: u64 = 2_000_000_000;

/// The diagram and the profile.
pub struct Spectrum {
    /// Smoothed level of each band in dB.
    pub bands_db: Vec<Single>,
    pub ready: bool,
    pub last: u64,
    pub profile_db: Option<Vec<Single>>,
    pub profile_sum: Vec<Single>,
    pub profile_count: u32,
    pub profile_until: Option<u64>,
    pub fresh_profile: Option<Vec<Single>>,
}

/// The same value `n` times.
pub open spec fn all_the_same(list: Seq<Single>, n: int, value: Single) -> bool {
    list.len() == n && forall|i: int| 0 <= i < n ==> #[trigger] list[i] == value
}

fn filled(value: Single) -> (list: Vec<Single>)
    ensures
        all_the_same(list@, BINS as int, value),
{
    let mut list: Vec<Single> = Vec::new();
    while list.len() < BINS
        invariant
            list@.len() <= BINS,
            forall|i: int| 0 <= i < list@.len() ==> #[trigger] list@[i] == value,
        decreases BINS - list@.len(),
    {
        list.push(value);
    }
    list
}

fn copied(list: &Vec<Single>) -> (r: Vec<Single>)
    ensures
        r@ == list@,
{
    let mut r: Vec<Single> = Vec::new();
    let mut i: usize = 0;
    while i < list.len()
        invariant
            i <= list@.len(),
            r@ == list@.take(i as int),
        decreases list@.len() - i,
    {
        r.push(list[i]);
        assert(r@ =~= list@.take(i + 1));
        i = i + 1;
    }
    assert(list@.take(i as int) =~= list@);
    r
}

/// An optional list of levels.
pub open spec fn levels(list: Option<Vec<Single>>) -> Option<Seq<Single>> {
    match list {
        Some(l) => Some(l@),
        None => None,
    }
}

impl Spectrum {
    /// One entry for each band.
    pub open spec fn valid(self) -> bool {
        &&& self.bands_db@.len() == BINS
        &&& self.profile_sum@.len() == BINS
    }

    pub open spec fn measuring(self) -> bool {
        self.profile_until is Some
    }

    /// Everything but what belongs to the profile is as in `other`.
    pub open spec fn same_diagram(self, other: Spectrum) -> bool {
        self.bands_db == other.bands_db && self.ready == other.ready && self.last == other.last
    }

    /// Everything that belongs to the profile is as in `other`.
    pub open spec fn same_profile(self, other: Spectrum) -> bool {
        &&& self.profile_db == other.profile_db
        &&& self.profile_sum == other.profile_sum
        &&& self.profile_count == other.profile_count
        &&& self.profile_until == other.profile_until
        &&& self.fresh_profile == other.fresh_profile
    }

    pub fn new(now: u64) -> (s: Spectrum)
        ensures
            s.valid(),
            all_the_same(s.bands_db@, BINS as int, whole_of(-120)),
            all_the_same(s.profile_sum@, BINS as int, whole_of(0)),
            !s.ready,
            s.last == now,
            s.profile_db is None,
            s.profile_count == 0,
            !s.measuring(),
            s.fresh_profile is None,
    {
        Spectrum {
            bands_db: filled(Single::whole(-120)),
            ready: false,
            last: now,
            profile_db: None,
            profile_sum: filled(Single::whole(0)),
            profile_count: 0,
            profile_until: None,
            fresh_profile: None,
        }
    }

    /// The levels to show, once there are any.
    pub fn bands_db(&self) -> (r: Option<&Vec<Single>>)
        ensures
            r == if self.ready {
                Some(&self.bands_db)
            } else {
                None::<&Vec<Single>>
            },
    {
        if self.ready {
            Some(&self.bands_db)
        } else {
            None
        }
    }

    /// The measured noise.
    pub fn profile_db(&self) -> (r: Option<&Vec<Single>>)
        ensures
            r is Some <==> self.profile_db is Some,
            r matches Some(p) ==> *p == self.profile_db->0,
    {
        match &self.profile_db {
            Some(p) => Some(p),
            None => None,
        }
    }

    pub fn profile_running(&self) -> (r: bool)
        ensures
            r == self.measuring(),
    {
        self.profile_until.is_some()
    }

    /// Begins to measure a profile.
    pub fn start_profile(&mut self, now: u64)
        requires
            now + PROFILE_TIME <= u64::MAX,
        ensures
            old(self).valid() ==> final(self).valid(),
            final(self).same_diagram(*old(self)),
            all_the_same(final(self).profile_sum@, BINS as int, whole_of(0)),
            final(self).profile_count == 0,
            final(self).profile_until == Some((now + PROFILE_TIME) as u64),
            final(self).profile_db == old(self).profile_db,
            final(self).fresh_profile == old(self).fresh_profile,
    {
        self.profile_sum = filled(Single::whole(0));
        self.profile_count = 0;
        self.profile_until = Some(now + PROFILE_TIME);
    }

    /// Takes over a stored profile; one of another length is thrown away.
    pub fn load_profile(&mut self, profile: &Vec<Single>)
        ensures
            old(self).valid() ==> final(self).valid(),
            final(self).same_diagram(*old(self)),
            profile@.len() == BINS ==> levels(final(self).profile_db) == Some(profile@),
            profile@.len() != BINS ==> final(self).profile_db == old(self).profile_db,
            final(self).profile_sum == old(self).profile_sum,
            final(self).profile_count == old(self).profile_count,
            final(self).profile_until == old(self).profile_until,
            final(self).fresh_profile == old(self).fresh_profile,
    {
        if profile.len() == BINS {
            self.profile_db = Some(copied(profile));
        }
    }

    /// A profile that was just measured, to be stored; at most once.
    pub fn take_new_profile(&mut self) -> (r: Option<Vec<Single>>)
        ensures
            old(self).valid() ==> final(self).valid(),
            r == old(self).fresh_profile,
            final(self).fresh_profile is None,
            final(self).same_diagram(*old(self)),
            final(self).profile_db == old(self).profile_db,
            final(self).profile_sum == old(self).profile_sum,
            final(self).profile_count == old(self).profile_count,
            final(self).profile_until == old(self).profile_until,
    {
        self.fresh_profile.take()
    }

    /// The diagram is shown again: the picture from before is not carried on, and the next one
    /// is due at once.
    pub fn restart(&mut self, now: u64)
        requires
            now >= INTERVAL,
        ensures
            old(self).valid() ==> final(self).valid(),
            !final(self).ready,
            final(self).due_at(now),
            final(self).last == now - INTERVAL,
            final(self).bands_db == old(self).bands_db,
            final(self).same_profile(*old(self)),
    {
        self.ready = false;
        self.last = now - INTERVAL;
    }

    /// Throws the profile away, and also one that is being measured or was not stored yet.
    pub fn clear_profile(&mut self)
        ensures
            old(self).valid() ==> final(self).valid(),
            final(self).profile_db is None,
            final(self).fresh_profile is None,
            !final(self).measuring(),
            all_the_same(final(self).profile_sum@, BINS as int, whole_of(0)),
            final(self).profile_count == 0,
            final(self).same_diagram(*old(self)),
    {
        self.profile_db = None;
        self.profile_until = None;
        self.fresh_profile = None;
        self.profile_sum = filled(Single::whole(0));
        self.profile_count = 0;
    }

    pub open spec fn due_at(self, now: u64) -> bool {
        passed(self.last, now) >= INTERVAL
    }

    /// Whether the diagram is to be computed anew.
    pub fn due(&self, now: u64) -> (r: bool)
        ensures
            r == self.due_at(now),
    {
        elapsed(self.last, now) >= INTERVAL
    }

    /// New levels are there: `fresh` as measured, `smoothed` drawn towards them from the ones
    /// that were shown. The first ones are shown as they are. Says whether they belong to a
    /// profile; their sums then go to `sum_up`.
    pub fn update(&mut self, fresh: &Vec<Single>, smoothed: &Vec<Single>, now: u64) -> (measuring: bool)
        requires
            old(self).valid(),
            fresh@.len() == BINS,
            smoothed@.len() == BINS,
        ensures
            final(self).valid(),
            final(self).bands_db@ == if old(self).ready {
                smoothed@
            } else {
                fresh@
            },
            final(self).ready,
            final(self).last == now,
            final(self).same_profile(*old(self)),
            measuring == old(self).measuring(),
    {
        self.last = now;
        self.bands_db = if self.ready {
            copied(smoothed)
        } else {
            copied(fresh)
        };
        self.ready = true;
        self.profile_until.is_some()
    }

    /// The sums with the new levels. Says over how many they go once the time is over; the
    /// averages then go to `finish_profile`.
    pub fn sum_up(&mut self, sums: Vec<Single>, now: u64) -> (over: Option<u32>)
        requires
            old(self).valid(),
            sums@.len() == BINS,
            old(self).profile_count < u32::MAX,
        ensures
            final(self).valid(),
            final(self).profile_sum == sums,
            final(self).profile_count == old(self).profile_count + 1,
            over == (match old(self).profile_until {
                Some(until) if now >= until => Some((old(self).profile_count + 1) as u32),
                _ => None::<u32>,
            }),
            final(self).profile_until == old(self).profile_until,
            final(self).profile_db == old(self).profile_db,
            final(self).fresh_profile == old(self).fresh_profile,
            final(self).same_diagram(*old(self)),
    {
        self.profile_sum = sums;
        self.profile_count = self.profile_count + 1;
        match self.profile_until {
            Some(until) if now >= until => Some(self.profile_count),
            _ => None,
        }
    }

    /// The profile is done: it is shown, and it is to be stored.
    pub fn finish_profile(&mut self, profile: Vec<Single>)
        ensures
            old(self).valid() ==> final(self).valid(),
            levels(final(self).profile_db) == Some(profile@),
            levels(final(self).fresh_profile) == Some(profile@),
            !final(self).measuring(),
            final(self).profile_sum == old(self).profile_sum,
            final(self).profile_count == old(self).profile_count,
            final(self).same_diagram(*old(self)),
    {
        self.fresh_profile = Some(copied(&profile));
        self.profile_db = Some(profile);
        self.profile_until = None;
    }
}

/// What a new picture, a restart of the diagram or a look for a profile to be stored leaves of
/// the profile: what is shown and whether one is being measured stays, and what was to be
/// stored stays or is taken away.
pub open spec fn without_measuring(before: Spectrum, after: Spectrum) -> bool {
    &&& after.profile_db == before.profile_db
    &&& after.profile_until == before.profile_until
    &&& (after.fresh_profile == before.fresh_profile || after.fresh_profile is None)
}

/// A profile that was deleted does not come back by itself: whatever is shown or looked for
/// afterwards, there is none to be shown and none to be stored until a new one is measured.
pub proof fn law_deleted_profile_stays_away(states: Seq<Spectrum>)
    requires
        states.len() > 0,
        states[0].profile_db is None,
        states[0].fresh_profile is None,
        !states[0].measuring(),
        forall|i: int| 0 <= i < states.len() - 1 ==> #[trigger] without_measuring(states[i], states[i + 1]),
    ensures
        states.last().profile_db is None,
        states.last().fresh_profile is None,
        !states.last().measuring(),
    decreases states.len(),
{
    if states.len() > 1 {
        let earlier = states.drop_last();
        assert forall|i: int| 0 <= i < earlier.len() - 1 implies #[trigger] without_measuring(earlier[i], earlier[i + 1]) by {
            assert(without_measuring(states[i], states[i + 1]));
        }
        law_deleted_profile_stays_away(earlier);
        assert(without_measuring(states[states.len() - 2], states[states.len() - 2 + 1]));
    }
}

/// The diagram is computed anew after 60 ms, and at once where it is shown again.
pub proof fn law_diagram_is_due(s: &Spectrum, now: u64, r: bool, t: &mut Spectrum, again: bool)
    requires
        call_ensures(Spectrum::due, (s, now), r),
        now >= 60_000_000,
        s.last <= now,
        call_ensures(Spectrum::restart, (t, now), ()),
        call_ensures(Spectrum::due, (&*final(t), now), again),
    ensures
        r <==> now - s.last >= 60_000_000,
        again && !final(t).ready,
{
}

/// A profile is measured for 2 s: it is over with the first picture after that, and then it is both
/// shown and to be stored, once.
pub proof fn law_profile_takes_two_seconds(
    s: &mut Spectrum,
    began: u64,
    t: &mut Spectrum,
    sums: Vec<Single>,
    now: u64,
    over: Option<u32>,
    u: &mut Spectrum,
    profile: Vec<Single>,
    v: &mut Spectrum,
    first: Option<Vec<Single>>,
    w: &mut Spectrum,
    second: Option<Vec<Single>>,
)
    requires
        began + 2_000_000_000 <= u64::MAX,
        call_ensures(Spectrum::start_profile, (s, began), ()),
        old(t).valid(),
        sums@.len() == 512,
        old(t).profile_until == final(s).profile_until,
        old(t).profile_count < u32::MAX,
        call_ensures(Spectrum::sum_up, (t, sums, now), over),
        call_ensures(Spectrum::finish_profile, (u, profile), ()),
        *old(v) == *final(u),
        call_ensures(Spectrum::take_new_profile, (v,), first),
        *old(w) == *final(v),
        call_ensures(Spectrum::take_new_profile, (w,), second),
    ensures
        over is Some <==> now >= began + 2_000_000_000,
        over matches Some(n) ==> n == old(t).profile_count + 1,
        final(s).profile_count == 0,
        final(u).profile_db is Some && final(u).profile_db->0@ == profile@,
        first is Some && first->0@ == profile@,
        second is None,
        final(u).profile_until is None,
{
}

/// The first levels are shown as they are, later ones smoothed; nothing is shown before there are
/// any.
pub proof fn law_first_levels_are_shown_as_they_are(
    s: &mut Spectrum,
    fresh: &Vec<Single>,
    smoothed: &Vec<Single>,
    now: u64,
    measuring: bool,
)
    requires
        old(s).valid(),
        fresh@.len() == 512,
        smoothed@.len() == 512,
        call_ensures(Spectrum::update, (s, fresh, smoothed, now), measuring),
    ensures
        !old(s).ready ==> final(s).bands_db@ == fresh@,
        old(s).ready ==> final(s).bands_db@ == smoothed@,
        final(s).ready && final(s).last == now,
        measuring <==> old(s).profile_until is Some,
        final(s).profile_db == old(s).profile_db,
{
}

/// A stored profile is taken over only with its 512 bands, and deleting leaves none.
pub proof fn law_profiles_have_512_bands(s: &mut Spectrum, profile: &Vec<Single>, t: &mut Spectrum)
    requires
        call_ensures(Spectrum::load_profile, (s, profile), ()),
        call_ensures(Spectrum::clear_profile, (t,), ()),
    ensures
        profile@.len() == 512 ==> final(s).profile_db is Some && final(s).profile_db->0@ == profile@,
        profile@.len() != 512 ==> final(s).profile_db == old(s).profile_db,
        final(t).profile_db is None && final(t).fresh_profile is None && final(t).profile_until is None && final(
            t).profile_count == 0,
{
}

} // verus!
