//! From the raw block levels to a calm but quick display: up at once, down slowly, yellow and
//! red stay for a while.

use vstd::prelude::*;

use crate::settings::Settings;
use crate::single::whole_of;
use crate::single::Single;

verus! {

/// Silence in whole dBFS.
pub const SILENCE: i32 = -100;

/// The level that stands for silence.
pub fn silence_db() -> (r: Single)
    ensures
        r == whole_of(SILENCE as int),
        r.is_whole(SILENCE as int),
{
    Single::whole(SILENCE)
}

#[derive(Clone, Copy, Debug, PartialEq, Eq, PartialOrd, Ord, Structural)]
pub enum Zone {
    Green,
    Yellow,
    Red,
}

impl Zone {
    /// How serious it is.
    pub open spec fn rank(self) -> int {
        match self {
            Zone::Green => 0,
            Zone::Yellow => 1,
            Zone::Red => 2,
        }
    }

    fn serious(self) -> (r: u8)
        ensures
            r == self.rank(),
    {
        match self {
            Zone::Green => 0,
            Zone::Yellow => 1,
            Zone::Red => 2,
        }
    }

    /// The more serious of two.
    pub open spec fn worse(self, other: Zone) -> Zone {
        if other.rank() >= self.rank() {
            other
        } else {
            self
        }
    }
}

/// The zone that a level lies in.
pub open spec fn zone_of(db: Single, yellow: Single, red: Single) -> Zone {
    if red.at_most(db) {
        Zone::Red
    } else if yellow.at_most(db) {
        Zone::Yellow
    } else {
        Zone::Green
    }
}

/// The zone that a level lies in.
pub fn zone_at(db: Single, yellow: Single, red: Single) -> (zone: Zone)
    ensures
        zone == zone_of(db, yellow, red),
{
    if red.le(db) {
        Zone::Red
    } else if yellow.le(db) {
        Zone::Yellow
    } else {
        Zone::Green
    }
}

/// What the display shows. Times are nanoseconds of one clock.
#[derive(Clone, Copy, Debug, PartialEq, Eq, Structural)]
pub struct Level {
    pub display_db: Single,
    pub target_db: Single,
    pub held: Zone,
    pub held_until: Option<u64>,
    pub zone: Zone,
}

/// How the display gets to its target.
#[derive(Clone, Copy, Debug, PartialEq, Eq, Structural)]
pub enum Motion {
    /// At once.
    Jump,
    /// With this time constant in milliseconds.
    Glide(Single),
}

/// A time that was set has not come yet.
pub open spec fn running(until: Option<u64>, now: u64) -> bool {
    until matches Some(end) && now < end
}

impl Level {
    /// The state in which the display starts.
    pub open spec fn is_new(self) -> bool {
        &&& self.display_db == whole_of(SILENCE as int)
        &&& self.target_db == whole_of(SILENCE as int)
        &&& self.held == Zone::Green
        &&& self.held_until is None
        &&& self.zone == Zone::Green
    }

    pub fn new() -> (level: Level)
        ensures
            level.is_new(),
    {
        let silence = silence_db();
        Level { display_db: silence, target_db: silence, held: Zone::Green, held_until: None, zone: Zone::Green }
    }

    /// The target after a measurement, if there was one.
    pub open spec fn aimed(self, input_db: Option<Single>) -> Single {
        match input_db {
            Some(db) => db,
            None => self.target_db,
        }
    }

    /// How the display gets to the target `to`: rising and falling have their own times.
    pub open spec fn motion(self, to: Single, attack_ms: Single, release_ms: Single) -> Motion {
        let tau = if self.display_db.less(to) {
            attack_ms
        } else {
            release_ms
        };
        if tau.at_most(whole_of(0)) {
            Motion::Jump
        } else {
            Motion::Glide(tau)
        }
    }

    /// Takes over a measurement and says how the display gets there. With `Jump` it is
    /// `target_db` that goes to `update`; else what the glide has reached.
    pub fn aim(&mut self, input_db: Option<Single>, s: &Settings) -> (m: Motion)
        ensures
            *final(self) == (Level { target_db: old(self).aimed(input_db), ..*old(self) }),
            m == old(self).motion(old(self).aimed(input_db), s.attack_ms, s.release_ms),
    {
        if let Some(db) = input_db {
            self.target_db = db;
        }
        let tau = if self.display_db.lt(self.target_db) {
            s.attack_ms
        } else {
            s.release_ms
        };
        if tau.le(Single::whole(0)) {
            Motion::Jump
        } else {
            Motion::Glide(tau)
        }
    }

    /// Whether a zone starts a new hold: yellow and red do, unless something more serious is
    /// still being held.
    pub open spec fn holds_anew(self, current: Zone, now: u64) -> bool {
        current != Zone::Green && (!running(self.held_until, now) || current.rank() >= self.held.rank())
    }

    /// The display once it stands at `db`, at the time `now`.
    pub open spec fn stepped(self, db: Single, now: u64, hold: u64, yellow: Single, red: Single) -> Level {
        let current = zone_of(db, yellow, red);
        let anew = self.holds_anew(current, now);
        let held = if anew {
            current
        } else {
            self.held
        };
        let held_until = if anew {
            Some((now + hold) as u64)
        } else {
            self.held_until
        };
        Level {
            display_db: db,
            target_db: self.target_db,
            held,
            held_until,
            zone: if running(held_until, now) {
                current.worse(held)
            } else {
                current
            },
        }
    }

    /// Shows `display_db` from now on. Says whether the display has just jumped to red.
    pub fn update(&mut self, display_db: Single, now: u64, hold: u64, s: &Settings) -> (became_red: bool)
        requires
            now + hold <= u64::MAX,
        ensures
            *final(self) == old(self).stepped(display_db, now, hold, s.yellow_db, s.red_db),
            became_red == jumps(*old(self), *final(self)),
    {
        self.display_db = display_db;
        let current = zone_at(display_db, s.yellow_db, s.red_db);
        let holding = match self.held_until {
            Some(end) => now < end,
            None => false,
        };
        if current != Zone::Green && (!holding || current.serious() >= self.held.serious()) {
            self.held = current;
            self.held_until = Some(now + hold);
        }
        let holding = match self.held_until {
            Some(end) => now < end,
            None => false,
        };
        let zone = if holding && self.held.serious() > current.serious() {
            self.held
        } else {
            current
        };
        let became_red = zone == Zone::Red && self.zone != Zone::Red;
        self.zone = zone;
        became_red
    }
}

/// The shown zone is never less serious than the one that the level lies in, and nothing but
/// that one or the held one is shown.
pub proof fn law_shows_at_least_the_level(l: Level, db: Single, now: u64, hold: u64, yellow: Single, red: Single)
    requires
        now + hold <= u64::MAX,
    ensures
        l.stepped(db, now, hold, yellow, red).zone.rank() >= zone_of(db, yellow, red).rank(),
        l.stepped(db, now, hold, yellow, red).zone == zone_of(db, yellow, red) || l.stepped(
            db,
            now,
            hold,
            yellow,
            red,
        ).zone == l.held,
        !running(l.stepped(db, now, hold, yellow, red).held_until, now) ==> l.stepped(db, now, hold, yellow, red).zone
            == zone_of(db, yellow, red),
{
}

/// The display jumps to red.
pub open spec fn jumps(before: Level, after: Level) -> bool {
    after.zone == Zone::Red && before.zone != Zone::Red
}

/// Between two jumps to red the display was something else than red: a red that lasts is reported
/// once.
pub proof fn law_red_is_reported_once(levels: Seq<Level>, i: int, j: int)
    requires
        0 <= i < j,
        j + 1 < levels.len(),
        jumps(levels[i], levels[i + 1]),
        jumps(levels[j], levels[j + 1]),
    ensures
        exists|k: int| i + 1 < k <= j && (#[trigger] levels[k]).zone != Zone::Red,
{
    assert(levels[j].zone != Zone::Red);
}

/// A later display with its time.
pub struct Moment {
    pub db: Single,
    pub now: u64,
}

/// The display after a number of moments.
pub open spec fn after_all(l: Level, moments: Seq<Moment>, hold: u64, yellow: Single, red: Single) -> Level
    decreases moments.len(),
{
    if moments.len() == 0 {
        l
    } else {
        after_all(l, moments.drop_last(), hold, yellow, red).stepped(
            moments.last().db,
            moments.last().now,
            hold,
            yellow,
            red,
        )
    }
}

/// Once the level was in the red, red stays for the whole holding time, whatever is measured
/// meanwhile.
pub proof fn law_red_is_held(
    l: Level,
    db: Single,
    now: u64,
    moments: Seq<Moment>,
    hold: u64,
    yellow: Single,
    red: Single,
)
    requires
        now + hold <= u64::MAX,
        zone_of(db, yellow, red) == Zone::Red,
        forall|i: int| 0 <= i < moments.len() ==> now <= #[trigger] moments[i].now < now + hold && moments[i].now + hold
            <= u64::MAX,
    ensures
        after_all(l.stepped(db, now, hold, yellow, red), moments, hold, yellow, red).zone == Zone::Red,
        after_all(l.stepped(db, now, hold, yellow, red), moments, hold, yellow, red).held == Zone::Red,
        after_all(l.stepped(db, now, hold, yellow, red), moments, hold, yellow, red).held_until matches Some(end)
            && end >= now + hold,
    decreases moments.len(),
{
    if moments.len() > 0 {
        let earlier = moments.drop_last();
        assert forall|i: int| 0 <= i < earlier.len() implies now <= #[trigger] earlier[i].now < now + hold
            && earlier[i].now + hold <= u64::MAX by {
            assert(earlier[i] == moments[i]);
        }
        law_red_is_held(l, db, now, earlier, hold, yellow, red);
        assert(now <= moments[moments.len() - 1].now < now + hold);
    }
}

/// When nothing is held any more, the display shows the zone of the level.
pub proof fn law_hold_ends(l: Level, db: Single, now: u64, hold: u64, yellow: Single, red: Single)
    requires
        now + hold <= u64::MAX,
        !running(l.held_until, now),
    ensures
        l.stepped(db, now, hold, yellow, red).zone == zone_of(db, yellow, red),
{
}

/// From the red threshold on a level is red, from the yellow one on yellow, and below both green.
pub proof fn law_thresholds_part_the_zones(db: Single, yellow: Single, red: Single, zone: Zone)
    requires
        call_ensures(zone_at, (db, yellow, red), zone),
        !db.nan(),
        !yellow.nan(),
        !red.nan(),
    ensures
        zone == Zone::Red <==> db.val() >= red.val(),
        zone == Zone::Yellow <==> db.val() < red.val() && db.val() >= yellow.val(),
        zone == Zone::Green <==> db.val() < red.val() && db.val() < yellow.val(),
{
}

/// The display turns red at once with a level in the red, and says so exactly when it was
/// something else before; it is at least yellow with one in the yellow.
pub proof fn law_up_at_once(l: &mut Level, db: Single, now: u64, hold: u64, s: &Settings, became_red: bool)
    requires
        now + hold <= u64::MAX,
        call_ensures(Level::update, (l, db, now, hold, s), became_red),
        !db.nan(),
        !s.yellow_db.nan(),
        !s.red_db.nan(),
    ensures
        final(l).display_db == db,
        db.val() >= s.red_db.val() ==> final(l).zone == Zone::Red,
        db.val() >= s.yellow_db.val() ==> final(l).zone != Zone::Green,
        became_red <==> final(l).zone == Zone::Red && old(l).zone != Zone::Red,
{
}

/// Yellow and red are held: once the level was in one of them, the display shows at least that
/// until the holding time is over, whatever is measured meanwhile. Red that is still being held is
/// not renewed by yellow; that counts up to the end of the red then.
pub proof fn law_zone_is_held(
    l: Level,
    db: Single,
    now: u64,
    moments: Seq<Moment>,
    hold: u64,
    yellow: Single,
    red: Single,
)
    requires
        now + hold <= u64::MAX,
        !db.nan(),
        !yellow.nan(),
        !red.nan(),
        forall|i: int| 0 <= i < moments.len() ==> now <= (#[trigger] moments[i]).now < now + hold && moments[i].now
            + hold <= u64::MAX,
        db.val() < red.val() && l.held == Zone::Red && (l.held_until matches Some(end) && now < end) ==> forall|i: int|
            0 <= i < moments.len() ==> (#[trigger] moments[i]).now < l.held_until->0,
    ensures
        ({
            let shown = after_all(l.stepped(db, now, hold, yellow, red), moments, hold, yellow, red).zone;
            &&& db.val() >= red.val() ==> shown == Zone::Red
            &&& db.val() >= yellow.val() ==> shown != Zone::Green
        }),
{
    let first = l.stepped(db, now, hold, yellow, red);
    let zone = zone_of(db, yellow, red);
    let end: int = if zone == Zone::Yellow && l.held == Zone::Red && running(l.held_until, now) && l.held_until->0 < now
        + hold {
        l.held_until->0 as int
    } else {
        now + hold
    };
    if zone != Zone::Green {
        assert(first.zone.rank() >= zone.rank());
        lemma_still_held(first, moments, hold, yellow, red, zone, now, end);
    }
}

proof fn lemma_still_held(
    l: Level,
    moments: Seq<Moment>,
    hold: u64,
    yellow: Single,
    red: Single,
    zone: Zone,
    since: u64,
    end: int,
)
    requires
        l.zone.rank() >= zone.rank(),
        l.held.rank() >= zone.rank(),
        l.held_until matches Some(e) && e >= end,
        end <= since + hold,
        forall|i: int| 0 <= i < moments.len() ==> since <= (#[trigger] moments[i]).now < end && moments[i].now + hold
            <= u64::MAX,
    ensures
        ({
            let after = after_all(l, moments, hold, yellow, red);
            &&& after.zone.rank() >= zone.rank()
            &&& after.held.rank() >= zone.rank()
            &&& (after.held_until matches Some(e) && e >= end)
        }),
    decreases moments.len(),
{
    if moments.len() > 0 {
        let earlier = moments.drop_last();
        assert forall|i: int| 0 <= i < earlier.len() implies since <= (#[trigger] earlier[i]).now < end && earlier[i].now
            + hold <= u64::MAX by {
            assert(earlier[i] == moments[i]);
        }
        lemma_still_held(l, earlier, hold, yellow, red, zone, since, end);
        assert(since <= moments[moments.len() - 1].now < end);
    }
}

/// Nothing but what was reached is shown: a display that shows yellow or red although the level lies
/// below was there less than the holding time ago.
pub proof fn law_shown_zone_was_reached(l: Level, moments: Seq<Moment>, hold: u64, yellow: Single, red: Single)
    requires
        l.is_new(),
        moments.len() > 0,
        forall|i: int| 0 <= i < moments.len() ==> (#[trigger] moments[i]).now + hold <= u64::MAX && !moments[i].db.nan(),
        !yellow.nan(),
        !red.nan(),
    ensures
        ({
            let shown = after_all(l, moments, hold, yellow, red).zone;
            let last = moments.last();
            &&& shown == Zone::Red && last.db.val() < red.val() ==> exists|k: int|
                0 <= k < moments.len() && (#[trigger] moments[k]).db.val() >= red.val() && last.now < moments[k].now + hold
            &&& shown == Zone::Yellow && last.db.val() < yellow.val() ==> exists|k: int|
                0 <= k < moments.len() && (#[trigger] moments[k]).db.val() >= yellow.val() && last.now < moments[k].now
                    + hold
        }),
{
    lemma_held_was_reached(l, moments, hold, yellow, red);
    let after = after_all(l, moments, hold, yellow, red);
    if after.held_until is Some {
        let k = choose|k: int|
            0 <= k < moments.len() && zone_of((#[trigger] moments[k]).db, yellow, red) == after.held && after.held_until
                == Some((moments[k].now + hold) as u64);
        assert(moments[k].now + hold <= u64::MAX);
    }
}

proof fn lemma_held_was_reached(l: Level, moments: Seq<Moment>, hold: u64, yellow: Single, red: Single)
    requires
        l.is_new(),
    ensures
        after_all(l, moments, hold, yellow, red).held_until is Some ==> exists|k: int|
            0 <= k < moments.len() && zone_of((#[trigger] moments[k]).db, yellow, red) == after_all(
                l,
                moments,
                hold,
                yellow,
                red,
            ).held && after_all(l, moments, hold, yellow, red).held_until == Some((moments[k].now + hold) as u64),
    decreases moments.len(),
{
    if moments.len() > 0 {
        let earlier = moments.drop_last();
        lemma_held_was_reached(l, earlier, hold, yellow, red);
        let before = after_all(l, earlier, hold, yellow, red);
        let last = moments.len() - 1;
        if before.holds_anew(zone_of(moments[last].db, yellow, red), moments[last].now) {
            assert(moments[last] == moments.last());
        } else if before.held_until is Some {
            let k = choose|k: int|
                0 <= k < earlier.len() && zone_of((#[trigger] earlier[k]).db, yellow, red) == before.held
                    && before.held_until == Some((earlier[k].now + hold) as u64);
            assert(moments[k] == earlier[k]);
        }
    }
}

/// The display rises with the one time and falls with the other; a time of 0 or less is at once.
/// Without a new measurement it goes on to the last one.
pub proof fn law_rise_and_fall_have_their_times(l: &mut Level, input_db: Option<Single>, s: &Settings, m: Motion)
    requires
        call_ensures(Level::aim, (l, input_db, s), m),
        !old(l).display_db.nan(),
        !final(l).target_db.nan(),
        !s.attack_ms.nan(),
        !s.release_ms.nan(),
    ensures
        input_db matches Some(db) ==> final(l).target_db == db,
        input_db is None ==> final(l).target_db == old(l).target_db,
        final(l).zone == old(l).zone && final(l).display_db == old(l).display_db,
        ({
            let rises = old(l).display_db.val() < final(l).target_db.val();
            &&& rises && s.attack_ms.val() > 0 ==> m == Motion::Glide(s.attack_ms)
            &&& rises && s.attack_ms.val() <= 0 ==> m == Motion::Jump
            &&& !rises && s.release_ms.val() > 0 ==> m == Motion::Glide(s.release_ms)
            &&& !rises && s.release_ms.val() <= 0 ==> m == Motion::Jump
        }),
{
    crate::single::lemma_whole_val(0);
}

/// A level that is no number is green.
pub proof fn law_no_number_is_green(db: Single, yellow: Single, red: Single, zone: Zone)
    requires
        call_ensures(zone_at, (db, yellow, red), zone),
        db.nan(),
    ensures
        zone == Zone::Green,
{
}

} // verus!
