//! The connection to the running audio filter: when to look for it, and whether it is alive.

use vstd::prelude::*;

use crate::clock::elapsed;
use crate::clock::passed;
use crate::shared::VERSION;
use crate::single::Single;

verus! {

/// If the heartbeat stands still for 2 s, the filter is not active.
pub const ALIVE_TIMEOUT: u64 = 2_000_000_000;

/// It is looked for once in a second.
pub const RETRY_INTERVAL: u64 = 1_000_000_000;

#[derive(Clone, Copy, Debug, PartialEq, Eq, Structural)]
pub struct ApoLink {
    pub connected: bool,
    pub last_try: Option<u64>,
    pub last_beat: u32,
    pub last_beat_change: Option<u64>,
}

impl ApoLink {
    pub fn new() -> (l: ApoLink)
        ensures
            l == (ApoLink { connected: false, last_try: None, last_beat: 0, last_beat_change: None }),
    {
        ApoLink { connected: false, last_try: None, last_beat: 0, last_beat_change: None }
    }

    /// It is time to look for the filter.
    pub open spec fn looks(self, now: u64) -> bool {
        !self.connected && (self.last_try matches Some(t) ==> passed(t, now) >= RETRY_INTERVAL)
    }

    /// Once per picture: whether the filter is to be looked for now.
    pub fn tick(&mut self, now: u64) -> (look: bool)
        ensures
            look == old(self).looks(now),
            *final(self) == if look {
                ApoLink { last_try: Some(now), ..*old(self) }
            } else {
                *old(self)
            },
    {
        let due = match self.last_try {
            Some(t) => elapsed(t, now) >= RETRY_INTERVAL,
            None => true,
        };
        if !self.connected && due {
            self.last_try = Some(now);
            true
        } else {
            false
        }
    }

    /// The shared memory was found: it is taken if it is set up, and by the same version.
    pub fn found(&mut self, valid: bool, version: u32) -> (taken: bool)
        ensures
            taken == (valid && version == VERSION),
            *final(self) == if taken {
                ApoLink { connected: true, ..*old(self) }
            } else {
                *old(self)
            },
    {
        if valid && version == VERSION {
            self.connected = true;
            true
        } else {
            false
        }
    }

    /// The connection once the heartbeat stands at `beat`.
    pub open spec fn after(self, beat: u32, now: u64) -> ApoLink {
        if self.connected && beat != self.last_beat {
            ApoLink { last_beat: beat, last_beat_change: Some(now), ..self }
        } else {
            self
        }
    }

    /// The heartbeat as it stands now.
    pub fn heard(&mut self, beat: u32, now: u64)
        ensures
            *final(self) == old(self).after(beat, now),
    {
        if self.connected && beat != self.last_beat {
            self.last_beat = beat;
            self.last_beat_change = Some(now);
        }
    }

    /// The filter is processing sound.
    pub open spec fn alive(self, now: u64) -> bool {
        self.last_beat_change matches Some(t) && passed(t, now) < ALIVE_TIMEOUT
    }

    pub fn active(&self, now: u64) -> (r: bool)
        ensures
            r == self.alive(now),
    {
        match self.last_beat_change {
            Some(t) => elapsed(t, now) < ALIVE_TIMEOUT,
            None => false,
        }
    }

    /// The level before the filter, which is one's real loudness, as long as it is active.
    pub fn input_level_db(&self, now: u64, level: Single) -> (r: Option<Single>)
        ensures
            r == if self.alive(now) && self.connected {
                Some(level)
            } else {
                None::<Single>
            },
    {
        if self.active(now) && self.connected {
            Some(level)
        } else {
            None
        }
    }
}

/// A filter whose heart beats is active. Once the heartbeat stands still, it is so for 2 s more
/// and then no longer.
pub proof fn law_beating_is_alive(l: ApoLink, beat: u32, now: u64, later: u64)
    requires
        l.connected,
        beat != l.last_beat,
        now <= later,
    ensures
        l.after(beat, now).alive(now),
        l.after(beat, now).after(beat, later) == l.after(beat, now),
        l.after(beat, now).alive(later) == (later - now < ALIVE_TIMEOUT),
{
}

/// Without a connection there is no sign of life, whatever the heartbeat is said to be.
pub proof fn law_no_life_without_connection(l: ApoLink, beat: u32, now: u64, later: u64)
    requires
        !l.connected,
        l.last_beat_change is None,
    ensures
        !l.after(beat, now).alive(later),
{
}

/// The filter is looked for at once and then every second, while it is not connected; it is taken
/// only if it is set up, and by the version 2.
pub proof fn law_filter_is_looked_for(
    l: &mut ApoLink,
    now: u64,
    look: bool,
    f: &mut ApoLink,
    valid: bool,
    version: u32,
    taken: bool,
)
    requires
        call_ensures(ApoLink::tick, (l, now), look),
        call_ensures(ApoLink::found, (f, valid, version), taken),
        old(l).last_try matches Some(t) ==> t <= now,
    ensures
        old(l).connected ==> !look,
        !old(l).connected && old(l).last_try is None ==> look,
        !old(l).connected ==> (old(l).last_try matches Some(t) ==> (look <==> now - t >= 1_000_000_000)),
        look ==> final(l).last_try == Some(now),
        taken <==> valid && version == 2,
        final(f).connected <==> old(f).connected || taken,
{
}

/// The filter is active for 2 s after its heart last beat; its level counts only as long.
pub proof fn law_filter_is_active_for_two_seconds(l: &ApoLink, now: u64, r: bool, level: Single, input: Option<Single>)
    requires
        call_ensures(ApoLink::active, (l, now), r),
        call_ensures(ApoLink::input_level_db, (l, now, level), input),
        l.last_beat_change matches Some(t) ==> t <= now,
    ensures
        l.last_beat_change is None ==> !r,
        l.last_beat_change matches Some(t) ==> (r <==> now - t < 2_000_000_000),
        input is Some <==> r && l.connected,
        input matches Some(db) ==> db == level,
{
}

/// A heartbeat that moved is noticed while there is a connection.
pub proof fn law_heartbeat_is_noticed(l: &mut ApoLink, beat: u32, now: u64)
    requires
        call_ensures(ApoLink::heard, (l, beat, now), ()),
    ensures
        old(l).connected && beat != old(l).last_beat ==> final(l).last_beat == beat && final(l).last_beat_change == Some(now),
        !old(l).connected || beat == old(l).last_beat ==> *final(l) == *old(l),
{
}

} // verus!
