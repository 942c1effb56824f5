//! Noise gate, fader and mute by means of the microphone volume of Windows, for when nothing else
//! processes the sound. The fader moves the volume; below the threshold of the noise gate it
//! slides down from there, for all programs. It cannot go down all the way, else the program
//! itself would not hear any more when somebody speaks.

use vstd::arithmetic::power2::lemma2_to64;
use vstd::arithmetic::power2::lemma_pow2_adds;
use vstd::arithmetic::power2::pow2;
use vstd::prelude::*;

use crate::clock::elapsed;
use crate::clock::passed;
use crate::dsp::gate_reduction_db;
use crate::dsp::reduction;
use crate::settings::equal_texts;
use crate::single::lemma_quarters_of;
use crate::single::lemma_whole_val;
use crate::single::quarters_of;
use crate::single::whole_of;
use crate::single::Single;
use crate::text::rest_after;
use crate::text::same;
use crate::text::strip_start;

verus! {

/// 0.05: differences of the volume below this do not matter.
pub const NOTICEABLE_BITS: u32 = 0x3d4c_cccd;

/// Every 500 ms it is looked whether somebody moved the volume by hand.
pub const RESYNC_INTERVAL: u64 = 500_000_000;

/// After closing, 80 ms pass before it is measured how much quieter it really got, until 350 ms.
pub const CALIBRATION_SETTLE: u64 = 80_000_000;

pub const CALIBRATION_END: u64 = 350_000_000;

/// The level has to fall so many dB below the threshold before the noise gate begins to count.
pub const HYSTERESIS_DB: i32 = 3;

/// So many dB more than wanted it may get quieter.
pub const BEARABLE_DB: i32 = 6;

/// A gate that has been closed for 4 s may be stuck: then the volume is raised for a moment and it
/// is measured anew.
pub const STUCK_AFTER: u64 = 4_000_000_000;

#[derive(Clone, Copy, Debug, PartialEq, Eq, Structural)]
pub struct GateParams {
    pub threshold_db: Single,
    pub range_db: Single,
    pub hold_ms: Single,
}

/// The original volume, noted on disk in case the program crashes while the volume is moved.
pub struct Leftover {
    pub endpoint_id: String,
    pub original_db: Single,
}

/// What a note says: of which microphone, and the volume it had.
pub open spec fn says(note: Option<Leftover>) -> Option<(Seq<char>, Single)> {
    match note {
        Some(l) => Some((l.endpoint_id@, l.original_db)),
        None => None,
    }
}

/// What is to be done with the note on disk.
pub enum NoteChange {
    /// It is written anew.
    Keep(Leftover),
    /// It is deleted.
    Forget,
}

/// The change that leads from one note to another; none where they say the same.
pub open spec fn leads_on(
    change: Option<NoteChange>,
    before: Option<(Seq<char>, Single)>,
    after: Option<(Seq<char>, Single)>,
) -> bool {
    match change {
        None => before == after,
        Some(NoteChange::Keep(l)) => before != after && after == Some((l.endpoint_id@, l.original_db)),
        Some(NoteChange::Forget) => before is Some && after is None,
    }
}

pub struct VolumeGate {
    pub endpoint_id: Option<String>,
    /// The volume is in our hands.
    pub attached: bool,
    /// The lowest and the highest volume there is.
    pub min_db: Single,
    pub max_db: Single,
    /// The noise gate is on; else only the fader moves the volume.
    pub gating: bool,
    /// Where the fader wants the volume, unless it stands at 0.
    pub lifted_db: Option<Single>,
    pub open: bool,
    pub below_since: Option<u64>,
    /// The volume before it was touched.
    pub original_db: Single,
    /// What it was last set to.
    pub applied_db: Single,
    pub last_resync: u64,
    /// Smoothed level while open.
    pub smoothed_db: Option<Single>,
    /// Level shortly before closing.
    pub before_close_db: Single,
    /// Since when it has been closed without any level above the threshold.
    pub closed_since: Option<u64>,
    /// The volume is raised for a moment although it is closed, to measure anew.
    pub peeking: bool,
    /// By how much the volume is lowered while closed: it slides with the level.
    pub reduction_db: Single,
    /// When the measuring began.
    pub closed_at: Option<u64>,
    pub calibration_sum: Single,
    pub calibration_count: u32,
    /// How much quieter it really gets. Many headsets lower more than the volume says.
    pub measured_attenuation_db: Option<Single>,
    /// The volume at which that was measured.
    pub measured_at_db: Single,
    /// The volume is pulled down by so much less, so that it can still be heard.
    pub backoff_db: Single,
    /// What is noted on disk.
    pub noted: Option<Leftover>,
}

/// What has to be done when the volume is let go: besides, the note on disk is deleted.
pub struct Release {
    /// The volume is set back to this.
    pub write: Option<Single>,
}

/// What comes after the beginning of an update.
pub enum Next {
    /// Nothing more.
    Stop,
    /// The volume of this endpoint has to be opened.
    Attach(String),
    /// The volume is in our hands; go on.
    Go,
}

/// What is to be measured after closing.
#[derive(Clone, Copy, Debug, PartialEq, Eq, Structural)]
pub enum Calibration {
    Nothing,
    /// The level goes into the sum.
    Collect,
    /// Time to judge, by the average of the collected levels.
    Judge,
    /// The raised volume showed the level anew, as that average.
    Before,
}

/// A picture: what is wanted and what was heard since the one before.
#[derive(Clone, Copy, Debug, PartialEq, Eq, Structural)]
pub struct Picture {
    pub now: u64,
    /// The noise gate is on.
    pub gating: bool,
    pub fader_db: Single,
    /// The level as it was measured.
    pub measured_db: Option<Single>,
    /// The level without the lowering.
    pub level_db: Option<Single>,
    /// Where the volume stands, if that was looked at.
    pub volume_db: Option<Single>,
    pub params: GateParams,
    /// The lower one of the two thresholds: the threshold less the hysteresis.
    pub low_db: Single,
    /// How long the noise gate is held open.
    pub hold: u64,
}

impl Picture {
    /// Above the threshold.
    pub open spec fn loud(self) -> bool {
        self.level_db matches Some(db) && self.params.threshold_db.less(db)
    }

    /// Below the lower one of the two thresholds.
    pub open spec fn low(self) -> bool {
        !self.loud() && (self.level_db matches Some(db) && db.less(self.low_db))
    }
}

/// What was computed for a picture from the state before it.
#[derive(Clone, Copy, Debug, PartialEq, Eq, Structural)]
pub struct Figures {
    /// The original volume with the fader added.
    pub lifted_db: Single,
    /// How far the volume stands from where it was set.
    pub off_db: Single,
    /// Where the volume stands, less the fader.
    pub without_db: Single,
    /// The smoothed level, gone on towards the level.
    pub smoothed_db: Single,
    /// The sum of the collected levels with the measured one.
    pub sum_db: Single,
    /// The average of the collected levels.
    pub average_db: Single,
    /// The level before closing, less that average.
    pub difference_db: Single,
    /// How much quieter it may have got.
    pub bearable_db: Single,
    /// How much less the volume would then be pulled down.
    pub backoff_db: Single,
    /// The distance to the threshold, times the slope of the noise gate.
    pub below_db: Single,
}

/// What is to be done with the volume and with the note on disk.
pub struct Write {
    /// The volume is set to this.
    pub db: Option<Single>,
    pub note: Option<NoteChange>,
}

/// A difference that matters.
pub open spec fn noticeable(difference: Single) -> bool {
    !difference.nan() && (Single { bits: NOTICEABLE_BITS }).val() < (if difference.val() < 0 {
        -difference.val()
    } else {
        difference.val()
    })
}

fn is_noticeable(difference: Single) -> (r: bool)
    ensures
        r == noticeable(difference),
{
    (Single { bits: NOTICEABLE_BITS }).lt(difference.abs())
}

/// The endpoint that belongs to a device of the audio system.
pub open spec fn endpoint_of(device_id: Option<String>) -> Option<Seq<char>> {
    match device_id {
        Some(id) => rest_after(id@, "wasapi:"@),
        None => None,
    }
}

/// The text in an option.
pub open spec fn text_in(t: Option<String>) -> Option<Seq<char>> {
    match t {
        Some(t) => Some(t@),
        None => None,
    }
}

fn endpoint(device_id: &Option<String>) -> (r: Option<String>)
    ensures
        text_in(r) == endpoint_of(*device_id),
{
    match device_id {
        Some(id) => strip_start(id.as_str(), "wasapi:"),
        None => None,
    }
}

impl VolumeGate {
    /// What is kept of a closed gate is there exactly while it is closed.
    pub open spec fn coherent(self) -> bool {
        &&& self.open <==> self.closed_since is None
        &&& self.peeking ==> !self.open
    }

    /// What the note on disk has to say: while the volume is in our hands and is moved, or about to
    /// be, the original one and its microphone.
    pub open spec fn note(self) -> Option<(Seq<char>, Single)> {
        match self.endpoint_id {
            Some(id) if self.attached && (!self.open || self.lifted_db is Some || self.applied_db != self.original_db) => Some(
                (id@, self.original_db),
            ),
            _ => None,
        }
    }

    /// The state holds together, and the note on disk says what it has to.
    pub open spec fn valid(self) -> bool {
        &&& self.coherent()
        &&& self.attached ==> self.endpoint_id is Some
        &&& says(self.noted) == self.note()
    }

    /// Everything but the note is as in `other`.
    pub open spec fn same_but_note(self, other: VolumeGate) -> bool {
        self == (VolumeGate { noted: self.noted, ..other })
    }

    /// Brings the note up to date.
    fn settle_note(&mut self) -> (change: Option<NoteChange>)
        ensures
            final(self).same_but_note(*old(self)),
            says(final(self).noted) == old(self).note(),
            leads_on(change, says(old(self).noted), old(self).note()),
    {
        let moved = self.attached && (!self.open || self.lifted_db.is_some() || self.applied_db != self.original_db);
        match &self.endpoint_id {
            Some(id) if moved => {
                let up_to_date = match &self.noted {
                    Some(l) => same(l.endpoint_id.as_str(), id.as_str()) && l.original_db == self.original_db,
                    None => false,
                };
                if up_to_date {
                    return None;
                }
                let note = Leftover { endpoint_id: id.as_str().to_string(), original_db: self.original_db };
                self.noted = Some(Leftover { endpoint_id: id.as_str().to_string(), original_db: self.original_db });
                Some(NoteChange::Keep(note))
            },
            _ => {
                if self.noted.is_some() {
                    self.noted = None;
                    Some(NoteChange::Forget)
                } else {
                    None
                }
            },
        }
    }

    /// Where the volume stands while nothing is lowered: where the fader wants it, as far as it
    /// goes; without the fader, where it was.
    pub open spec fn base(self) -> Single {
        match self.lifted_db {
            Some(db) => db.smaller(self.max_db).larger(self.min_db),
            None => self.original_db,
        }
    }

    /// Where the volume stands while nothing is lowered.
    pub fn base_db(&self) -> (r: Single)
        ensures
            r == self.base(),
    {
        match self.lifted_db {
            Some(db) => db.min(self.max_db).max(self.min_db),
            None => self.original_db,
        }
    }

    /// Whether the fader wants more than there is.
    pub fn loses(&self) -> (r: bool)
        ensures
            r == (self.attached && (self.lifted_db matches Some(db) && self.max_db.less(db))),
    {
        match self.lifted_db {
            Some(db) => self.attached && self.max_db.lt(db),
            None => false,
        }
    }

    /// The volume is wanted: by the noise gate, or by a fader that is not at 0.
    pub fn wanted(gate: bool, fader_db: Single) -> (r: bool)
        ensures
            r == (gate || !fader_db.equal(whole_of(0))),
    {
        gate || !fader_db.same(Single::whole(0))
    }

    /// The open gate.
    pub open spec fn opened(self) -> VolumeGate {
        VolumeGate { open: true, below_since: None, closed_since: None, peeking: false, ..self }
    }

    /// What is wanted of the volume in this picture. Without the noise gate nothing is lowered.
    pub open spec fn instructed(self, p: Picture, fig: Figures) -> VolumeGate {
        let fader = VolumeGate {
            gating: p.gating,
            lifted_db: if p.fader_db.equal(whole_of(0)) {
                None
            } else {
                Some(fig.lifted_db)
            },
            ..self
        };
        if p.gating {
            fader
        } else {
            VolumeGate { closed_at: None, ..fader.opened() }
        }
    }

    fn instruct(&mut self, p: &Picture, fig: &Figures)
        ensures
            *final(self) == old(self).instructed(*p, *fig),
    {
        self.gating = p.gating;
        self.lifted_db = if p.fader_db.same(Single::whole(0)) {
            None
        } else {
            Some(fig.lifted_db)
        };
        if !p.gating {
            self.open = true;
            self.below_since = None;
            self.closed_since = None;
            self.peeking = false;
            self.closed_at = None;
        }
    }

    pub fn new(now: u64) -> (g: VolumeGate)
        ensures
            g.valid(),
            g.endpoint_id is None,
            !g.attached,
            g.noted is None,
            g.min_db == whole_of(0),
            g.max_db == whole_of(0),
            !g.gating,
            g.lifted_db is None,
            g.closed_since is None,
            !g.peeking,
            g.reduction_db == whole_of(0),
            g.measured_at_db == whole_of(0),
            g.open,
            g.below_since is None,
            g.original_db == whole_of(0),
            g.applied_db == whole_of(0),
            g.last_resync == now,
            g.smoothed_db is None,
            g.before_close_db == whole_of(-120),
            g.closed_at is None,
            g.calibration_sum == whole_of(0),
            g.calibration_count == 0,
            g.measured_attenuation_db is None,
            g.backoff_db == whole_of(0),
    {
        let zero = Single::whole(0);
        VolumeGate {
            endpoint_id: None,
            attached: false,
            min_db: zero,
            max_db: zero,
            gating: false,
            lifted_db: None,
            open: true,
            below_since: None,
            original_db: zero,
            applied_db: zero,
            last_resync: now,
            smoothed_db: None,
            before_close_db: Single::whole(-120),
            closed_since: None,
            peeking: false,
            reduction_db: zero,
            closed_at: None,
            calibration_sum: zero,
            calibration_count: 0,
            measured_attenuation_db: None,
            measured_at_db: zero,
            backoff_db: zero,
            noted: None,
        }
    }

    pub fn is_open(&self) -> (r: bool)
        ensures
            r == self.open,
    {
        self.open
    }

    /// How much quieter the microphone arrives than without the noise gate; `lowered` is by how much
    /// the volume stands below where it stands open, and `moved` what was measured, with how far
    /// the volume went on since.
    pub open spec fn attenuation(self, lowered: Single, moved: Single) -> Single {
        if !self.attached || lowered_little(lowered) {
            whole_of(0)
        } else {
            (match self.measured_attenuation_db {
                Some(db) => if self.applied_db == self.measured_at_db {
                    db
                } else {
                    moved
                },
                None => lowered,
            }).larger(whole_of(0))
        }
    }

    /// How much quieter the microphone arrives than without the noise gate; `lowered` is by how much
    /// the volume stands below where it stands open, and `moved` what was measured, with how far
    /// the volume went on since.
    pub fn attenuation_db(&self, lowered: Single, moved: Single) -> (r: Single)
        ensures
            r == self.attenuation(lowered, moved),
    {
        if !self.attached || lowered.abs().lt(Single { bits: NOTICEABLE_BITS }) {
            return Single::whole(0);
        }
        let db = match self.measured_attenuation_db {
            Some(db) => if self.applied_db == self.measured_at_db {
                db
            } else {
                moved
            },
            None => lowered,
        };
        db.max(Single::whole(0))
    }

    /// The noise gate after it let the volume go; with it goes the note.
    pub open spec fn released(self, after: VolumeGate) -> bool {
        if !self.attached {
            after == self
        } else {
            after == (VolumeGate { attached: false, noted: None, ..self.opened() })
        }
    }

    /// Lets the volume go: it is set back where it was touched, and the note on disk deleted.
    /// `None` where nothing was in our hands. `touched` is how far it stands from the original.
    pub fn release(&mut self, touched: Single) -> (r: Option<Release>)
        ensures
            old(self).valid() ==> final(self).valid(),
            old(self).released(*final(self)),
            r is Some <==> old(self).attached,
            r matches Some(release) ==> release.write == if noticeable(touched) {
                Some(old(self).original_db)
            } else {
                None::<Single>
            },
    {
        if !self.attached {
            return None;
        }
        let write = if is_noticeable(touched) {
            Some(self.original_db)
        } else {
            None
        };
        self.attached = false;
        self.open = true;
        self.below_since = None;
        self.closed_since = None;
        self.peeking = false;
        self.noted = None;
        Some(Release { write })
    }

    /// The volume has to be let go before anything else: nothing is wanted of it, or the microphone is
    /// another one.
    pub open spec fn lets_go(self, device_id: Option<String>, enabled: bool) -> bool {
        !enabled || endpoint_of(device_id) != text_in(self.endpoint_id)
    }

    /// Begins an update, once per picture.
    pub fn begin(&mut self, device_id: &Option<String>, enabled: bool, touched: Single) -> (r: (Option<Release>, Next))
        ensures
            old(self).valid() ==> final(self).valid(),
            !old(self).lets_go(*device_id, enabled) ==> *final(self) == *old(self) && r.0 is None,
            old(self).lets_go(*device_id, enabled) ==> {
                &&& text_in(final(self).endpoint_id) == endpoint_of(*device_id)
                &&& old(self).released(VolumeGate { endpoint_id: old(self).endpoint_id, ..*final(self) })
                &&& r.0 is Some <==> old(self).attached
                &&& (r.0 matches Some(release) ==> release.write == if noticeable(touched) {
                    Some(old(self).original_db)
                } else {
                    None::<Single>
                })
            },
            (match r.1 {
                Next::Stop => !enabled || (!final(self).attached && final(self).endpoint_id is None),
                Next::Attach(id) => enabled && !final(self).attached && text_in(final(self).endpoint_id) == Some(id@),
                Next::Go => enabled && final(self).attached,
            }),
    {
        let wanted = endpoint(device_id);
        let same = equal_texts(&wanted, &self.endpoint_id);
        assert(same == (text_in(wanted) == text_in(self.endpoint_id)));
        let mut release: Option<Release> = None;
        if !enabled || !same {
            release = self.release(touched);
            self.endpoint_id = wanted;
        }
        if !enabled {
            return (release, Next::Stop);
        }
        if self.attached {
            return (release, Next::Go);
        }
        let next = match &self.endpoint_id {
            Some(id) => Next::Attach(id.as_str().to_string()),
            None => Next::Stop,
        };
        (release, next)
    }

    /// The volume was opened: the lowest and the highest it can go, and where it stands. `None` if
    /// it could not be. Says whether the update goes on.
    pub fn attach(&mut self, volume: Option<(Single, Single, Single)>) -> (r: bool)
        requires
            !old(self).attached,
        ensures
            old(self).valid() ==> final(self).valid(),
            r == (volume is Some && old(self).endpoint_id is Some),
            !r ==> *final(self) == *old(self),
            r ==> (volume matches Some(v) && *final(self) == (VolumeGate {
                attached: true,
                min_db: v.0,
                max_db: v.1,
                original_db: v.2,
                applied_db: v.2,
                lifted_db: None,
                open: true,
                closed_since: None,
                peeking: false,
                backoff_db: whole_of(0),
                measured_attenuation_db: None,
                ..*old(self)
            })),
    {
        if self.endpoint_id.is_none() {
            return false;
        }
        match volume {
            Some((min_db, max_db, current)) => {
                self.min_db = min_db;
                self.max_db = max_db;
                self.original_db = current;
                self.applied_db = current;
                self.lifted_db = None;
                self.attached = true;
                self.open = true;
                self.closed_since = None;
                self.peeking = false;
                self.backoff_db = Single::whole(0);
                self.measured_attenuation_db = None;
                true
            },
            None => false,
        }
    }

    /// It is time to look if somebody moved the volume by hand. Only while open.
    pub open spec fn resyncs(self, now: u64) -> bool {
        self.open && passed(self.last_resync, now) >= RESYNC_INTERVAL
    }

    /// Whether this picture looks if somebody moved the volume by hand.
    pub fn looks(&self, gating: bool, now: u64) -> (r: bool)
        ensures
            r == ((self.open || !gating) && passed(self.last_resync, now) >= RESYNC_INTERVAL),
    {
        (self.open || !gating) && elapsed(self.last_resync, now) >= RESYNC_INTERVAL
    }

    /// The noise gate may be stuck: closed for so long, without any level above the threshold.
    pub open spec fn stuck(self, now: u64) -> bool {
        !self.open && !self.peeking && (self.closed_since matches Some(t) && passed(t, now) >= STUCK_AFTER)
    }

    fn is_stuck(&self, now: u64) -> (r: bool)
        ensures
            r == self.stuck(now),
    {
        match self.closed_since {
            Some(t) => !self.open && !self.peeking && elapsed(t, now) >= STUCK_AFTER,
            None => false,
        }
    }

    /// The volume was moved by hand: by more than half a dB.
    pub open spec fn moved(off: Single) -> bool {
        quarters_of(2).less(Single { bits: off.magnitude() as u32 })
    }

    /// The noise gate with the volume set by hand to `db`: that is the new original, less what the
    /// fader adds (`without`).
    pub open spec fn moved_to(self, db: Single, without: Single) -> VolumeGate {
        match self.lifted_db {
            Some(_) => VolumeGate { original_db: without, applied_db: db, lifted_db: Some(db), ..self },
            None => VolumeGate { original_db: db, applied_db: db, ..self },
        }
    }

    fn move_to(&mut self, db: Single, without: Single)
        ensures
            *final(self) == old(self).moved_to(db, without),
    {
        match self.lifted_db {
            Some(_) => {
                self.original_db = without;
                self.lifted_db = Some(db);
            },
            None => {
                self.original_db = db;
            },
        }
        self.applied_db = db;
    }

    /// The volume was set by hand to `db`, between two pictures.
    pub fn take_level(&mut self, db: Single, without: Single) -> (note: Option<NoteChange>)
        ensures
            old(self).valid() ==> final(self).valid(),
            final(self).same_but_note(old(self).moved_to(db, without)),
            says(final(self).noted) == final(self).note(),
            leads_on(note, says(old(self).noted), says(final(self).noted)),
    {
        self.move_to(db, without);
        self.settle_note()
    }

    /// The noise gate after a look at the volume: if somebody moved it, that is the new original.
    pub open spec fn resynced(self, p: Picture, fig: Figures) -> VolumeGate {
        if !self.resyncs(p.now) {
            self
        } else {
            let looked = VolumeGate { last_resync: p.now, ..self };
            match p.volume_db {
                Some(db) if VolumeGate::moved(fig.off_db) => looked.moved_to(db, fig.without_db),
                _ => looked,
            }
        }
    }

    fn resync(&mut self, p: &Picture, fig: &Figures)
        ensures
            *final(self) == old(self).resynced(*p, *fig),
    {
        if self.open && elapsed(self.last_resync, p.now) >= RESYNC_INTERVAL {
            self.last_resync = p.now;
            if let Some(db) = p.volume_db {
                if Single::quarters(2).lt(fig.off_db.abs()) {
                    self.move_to(db, fig.without_db);
                }
            }
        }
    }

    /// The noise gate with the smoothed level; it is smoothed only while open.
    pub open spec fn smoothed(self, p: Picture, fig: Figures) -> VolumeGate {
        if self.open && p.level_db is Some {
            VolumeGate { smoothed_db: Some(fig.smoothed_db), ..self }
        } else {
            self
        }
    }

    /// From where the level is smoothed towards `level`.
    pub fn smooth_from(&self, level: Single) -> (r: Single)
        ensures
            r == (match self.smoothed_db {
                Some(db) => db,
                None => level,
            }),
    {
        match self.smoothed_db {
            Some(db) => db,
            None => level,
        }
    }

    /// What is to be measured now, while closed.
    pub open spec fn calibration(self, now: u64, measured_db: Option<Single>) -> Calibration {
        match self.closed_at {
            Some(at) if !self.open && passed(at, now) >= CALIBRATION_SETTLE => if passed(at, now) < CALIBRATION_END {
                match measured_db {
                    Some(_) => Calibration::Collect,
                    None => Calibration::Nothing,
                }
            } else if self.calibration_count == 0 {
                Calibration::Nothing
            } else if self.peeking {
                Calibration::Before
            } else {
                Calibration::Judge
            },
            _ => Calibration::Nothing,
        }
    }

    /// The time to collect is over.
    pub open spec fn measured_out(self, now: u64) -> bool {
        !self.open && (self.closed_at matches Some(at) && passed(at, now) >= CALIBRATION_END)
    }

    /// The noise gate once the time to collect is over: while the volume was raised for a moment, it
    /// goes down again, and the measuring begins anew.
    pub open spec fn clocked(self, now: u64) -> VolumeGate {
        if self.measured_out(now) {
            VolumeGate {
                closed_at: if self.peeking {
                    Some(now)
                } else {
                    None
                },
                peeking: false,
                ..self
            }
        } else {
            self
        }
    }

    /// How much quieter the microphone arrives, from the difference of two levels: from 0 to 90 dB.
    pub open spec fn quieter_by(difference: Single) -> Single {
        difference.limited(whole_of(0), whole_of(90))
    }

    /// How much quieter the microphone arrives, from the difference of the levels before and after.
    pub fn measured_attenuation(difference: Single) -> (r: Single)
        ensures
            r == VolumeGate::quieter_by(difference),
    {
        let (low, high) = (Single::whole(0), Single::whole(90));
        proof {
            crate::single::lemma_quarters_order(low, 0, high, 360);
        }
        difference.clamp(low, high)
    }

    /// It got much quieter than wanted, and there is room to pull down less.
    pub open spec fn too_quiet(self, attenuation: Single, bearable: Single) -> bool {
        bearable.less(attenuation) && self.backoff_db.less(whole_of(60))
    }

    /// The noise gate once it was judged how much quieter it got. If that is much more than wanted,
    /// the volume is pulled down by less, at most 60 dB, and it is measured again at once.
    pub open spec fn judged(self, now: u64, fig: Figures) -> VolumeGate {
        let attenuation = VolumeGate::quieter_by(fig.difference_db);
        if self.too_quiet(attenuation, fig.bearable_db) {
            VolumeGate {
                backoff_db: fig.backoff_db.smaller(whole_of(60)),
                closed_at: Some(now),
                calibration_sum: whole_of(0),
                calibration_count: 0,
                measured_attenuation_db: None,
                ..self
            }
        } else {
            VolumeGate {
                measured_attenuation_db: Some(attenuation),
                measured_at_db: self.applied_db,
                ..self
            }
        }
    }

    /// The noise gate after what is measured while closed: shortly after closing, how much quieter
    /// the microphone really arrives; while the volume is raised for a moment, the level itself.
    pub open spec fn calibrated(self, p: Picture, fig: Figures) -> VolumeGate {
        let next = self.clocked(p.now);
        match self.calibration(p.now, p.measured_db) {
            Calibration::Nothing => next,
            Calibration::Collect => VolumeGate {
                calibration_sum: fig.sum_db,
                calibration_count: (next.calibration_count + 1) as u32,
                ..next
            },
            Calibration::Judge => next.judged(p.now, fig),
            Calibration::Before => VolumeGate {
                before_close_db: fig.average_db,
                calibration_sum: whole_of(0),
                calibration_count: 0,
                ..next
            },
        }
    }

    fn judge(&mut self, now: u64, fig: &Figures)
        ensures
            *final(self) == old(self).judged(now, *fig),
    {
        let most = Single::whole(60);
        let attenuation = VolumeGate::measured_attenuation(fig.difference_db);
        if fig.bearable_db.lt(attenuation) && self.backoff_db.lt(most) {
            self.backoff_db = fig.backoff_db.min(most);
            self.closed_at = Some(now);
            self.calibration_sum = Single::whole(0);
            self.calibration_count = 0;
            self.measured_attenuation_db = None;
        } else {
            self.measured_attenuation_db = Some(attenuation);
            self.measured_at_db = self.applied_db;
        }
    }

    fn calibrate(&mut self, p: &Picture, fig: &Figures)
        requires
            old(self).calibration_count < u32::MAX,
        ensures
            *final(self) == old(self).calibrated(*p, *fig),
    {
        if self.open {
            return;
        }
        if let Some(at) = self.closed_at {
            let gone = elapsed(at, p.now);
            if gone < CALIBRATION_SETTLE {
                return;
            }
            if gone < CALIBRATION_END {
                if p.measured_db.is_some() {
                    self.calibration_sum = fig.sum_db;
                    self.calibration_count = self.calibration_count + 1;
                }
                return;
            }
            let peeked = self.peeking;
            self.peeking = false;
            self.closed_at = if peeked {
                Some(p.now)
            } else {
                None
            };
            if self.calibration_count > 0 {
                if peeked {
                    self.before_close_db = fig.average_db;
                    self.calibration_sum = Single::whole(0);
                    self.calibration_count = 0;
                } else {
                    self.judge(p.now, fig);
                }
            }
        }
    }

    /// The noise gate after a look whether it is stuck: if it is, the volume is raised and the
    /// measuring begins anew.
    pub open spec fn unstuck(self, now: u64) -> VolumeGate {
        if self.stuck(now) {
            VolumeGate {
                peeking: true,
                closed_since: Some(now),
                closed_at: Some(now),
                calibration_sum: whole_of(0),
                calibration_count: 0,
                measured_attenuation_db: None,
                ..self
            }
        } else {
            self
        }
    }

    fn unstick(&mut self, now: u64)
        ensures
            *final(self) == old(self).unstuck(now),
    {
        if self.is_stuck(now) {
            self.peeking = true;
            self.closed_since = Some(now);
            self.closed_at = Some(now);
            self.calibration_sum = Single::whole(0);
            self.calibration_count = 0;
            self.measured_attenuation_db = None;
        }
    }

    /// The lowering stands still while it is being measured; it is set as the measuring begins.
    pub open spec fn slides(self, now: u64) -> bool {
        !self.open && (self.closed_at matches Some(at) ==> now <= at)
    }

    /// The noise gate with its lowering slid to where the level wants it.
    pub open spec fn slid(self, p: Picture, fig: Figures) -> VolumeGate {
        match p.level_db {
            Some(level) if self.slides(p.now) => VolumeGate {
                reduction_db: reduction(level, p.params.threshold_db, p.params.range_db, fig.below_db),
                ..self
            },
            _ => self,
        }
    }

    fn slide(&mut self, p: &Picture, fig: &Figures)
        ensures
            *final(self) == old(self).slid(*p, *fig),
    {
        let still = match self.closed_at {
            Some(at) => p.now > at,
            None => false,
        };
        if let Some(level) = p.level_db {
            if !self.open && !still {
                self.reduction_db = gate_reduction_db(level, p.params.threshold_db, p.params.range_db, fig.below_db);
            }
        }
    }

    /// Since when the level has been low, if it is low now.
    pub open spec fn low_since(self, now: u64) -> u64 {
        match self.below_since {
            Some(t) => t,
            None => now,
        }
    }

    /// The noise gate closes: it is open, and the level has been low for as long as it is to be held.
    pub open spec fn closes(self, now: u64, hold: u64) -> bool {
        self.open && passed(self.low_since(now), now) >= hold
    }

    /// The noise gate after a level: above the threshold it opens at once, below `low` it closes
    /// after the hold, in between it stays as it is.
    pub open spec fn decided(self, now: u64, level: Single, threshold: Single, low: Single, hold: u64) -> VolumeGate {
        if threshold.less(level) {
            VolumeGate {
                closed_at: if self.open {
                    self.closed_at
                } else {
                    None
                },
                ..self.opened()
            }
        } else if level.less(low) {
            if self.closes(now, hold) {
                VolumeGate {
                    open: false,
                    below_since: Some(self.low_since(now)),
                    closed_since: Some(now),
                    before_close_db: match self.smoothed_db {
                        Some(db) => db,
                        None => whole_of(-120),
                    },
                    closed_at: Some(now),
                    calibration_sum: whole_of(0),
                    calibration_count: 0,
                    ..self
                }
            } else {
                VolumeGate { below_since: Some(self.low_since(now)), ..self }
            }
        } else {
            self
        }
    }

    /// The noise gate once it was opened or closed by the level of a picture.
    pub open spec fn switched(self, p: Picture) -> VolumeGate {
        match p.level_db {
            Some(db) if p.gating => self.decided(p.now, db, p.params.threshold_db, p.low_db, p.hold),
            _ => self,
        }
    }

    fn decide(&mut self, p: &Picture)
        ensures
            *final(self) == old(self).switched(*p),
    {
        if let Some(db) = p.level_db {
            if !p.gating {
                return;
            }
            if p.params.threshold_db.lt(db) {
                if !self.open {
                    self.closed_at = None;
                }
                self.open = true;
                self.below_since = None;
                self.closed_since = None;
                self.peeking = false;
            } else if db.lt(p.low_db) {
                let since = match self.below_since {
                    Some(t) => t,
                    None => p.now,
                };
                self.below_since = Some(since);
                if self.open && elapsed(since, p.now) >= p.hold {
                    self.open = false;
                    self.closed_since = Some(p.now);
                    self.before_close_db = match self.smoothed_db {
                        Some(db) => db,
                        None => Single::whole(-120),
                    };
                    self.closed_at = Some(p.now);
                    self.calibration_sum = Single::whole(0);
                    self.calibration_count = 0;
                }
            }
        }
    }

    /// The noise gate after a picture: it is instructed, looks whether somebody moved the volume,
    /// smooths the level, measures how much quieter it got, opens or closes, frees itself if it is
    /// stuck, and lets the lowering slide.
    pub open spec fn pictured(self, p: Picture, fig: Figures) -> VolumeGate {
        let heard = self.instructed(p, fig).resynced(p, fig).smoothed(p, fig).calibrated(p, fig);
        heard.switched(p).unstuck(p.now).slid(p, fig)
    }

    /// A picture, once the volume is in our hands. Says how the note on disk changes.
    pub fn update(&mut self, p: &Picture, fig: &Figures) -> (note: Option<NoteChange>)
        requires
            old(self).calibration_count < u32::MAX,
        ensures
            old(self).valid() ==> final(self).valid(),
            final(self).same_but_note(old(self).pictured(*p, *fig)),
            says(final(self).noted) == final(self).note(),
            leads_on(note, says(old(self).noted), says(final(self).noted)),
    {
        self.instruct(p, fig);
        self.resync(p, fig);
        if self.open && p.level_db.is_some() {
            self.smoothed_db = Some(fig.smoothed_db);
        }
        self.calibrate(p, fig);
        self.decide(p);
        self.unstick(p.now);
        self.slide(p, fig);
        self.settle_note()
    }

    /// Where the volume goes; `sunk` is where it stands open, less the lowering, plus what it is
    /// pulled down less.
    pub open spec fn aim(self, sunk: Single) -> Single {
        if self.open || self.peeking {
            self.base()
        } else if self.attached {
            sunk.smaller(self.base()).larger(self.min_db)
        } else {
            sunk
        }
    }

    /// Where the volume goes: closed not above where it stands open and not below the lowest
    /// there is. While it is raised for a moment, it goes where it stands open.
    pub fn target_db(&self, sunk: Single) -> (r: Single)
        ensures
            r == self.aim(sunk),
    {
        if self.open || self.peeking {
            self.base_db()
        } else if self.attached {
            sunk.min(self.base_db()).max(self.min_db)
        } else {
            sunk
        }
    }

    /// Sets the volume to `target`, which is `off` from where it stands, unless that is too little
    /// to notice. The note stays on disk until the volume stands where it was.
    pub fn apply(&mut self, target: Single, off: Single) -> (w: Write)
        ensures
            old(self).valid() ==> final(self).valid(),
            w.db == if noticeable(off) {
                Some(target)
            } else {
                None::<Single>
            },
            final(self).same_but_note(
                if noticeable(off) {
                    VolumeGate { applied_db: target, ..*old(self) }
                } else {
                    *old(self)
                },
            ),
            says(final(self).noted) == final(self).note(),
            leads_on(w.note, says(old(self).noted), says(final(self).noted)),
    {
        let write = is_noticeable(off);
        if write {
            self.applied_db = target;
        }
        let note = self.settle_note();
        Write {
            db: if write {
                Some(target)
            } else {
                None
            },
            note,
        }
    }
}

/// The volume stands where it stood.
pub open spec fn lowered_little(lowered: Single) -> bool {
    !lowered.nan() && (if lowered.val() < 0 {
        -lowered.val()
    } else {
        lowered.val()
    }) < (Single { bits: NOTICEABLE_BITS }).val()
}

/// Whenever the volume stands away from the original one, the note on disk says what it was, and of
/// which microphone; so it does while the noise gate is closed or the fader moves the volume, and
/// before the volume goes anywhere else. Without the volume in our hands there is no note.
pub proof fn law_note_says_the_original(g: VolumeGate, sunk: Single)
    requires
        g.valid(),
    ensures
        g.attached && g.aim(sunk) != g.original_db ==> says(g.noted) == Some((g.endpoint_id->0@, g.original_db)),
        g.attached && (g.applied_db != g.original_db || !g.open || g.lifted_db is Some) ==> says(g.noted) == Some(
            (g.endpoint_id->0@, g.original_db),
        ),
        !g.attached ==> g.noted is None,
{
}

/// A picture opens the noise gate at once with a loud level, leaves it as it is in between the two
/// thresholds or without a level, and closes it only with a low one, once it was low for the hold.
pub proof fn law_picture_opens_and_closes(g: VolumeGate, p: Picture, fig: Figures)
    requires
        p.gating,
    ensures
        ({
            let after = g.pictured(p, fig);
            &&& p.loud() ==> after.open && after.below_since is None
            &&& !p.loud() && !p.low() ==> after.open == g.open && after.below_since == g.below_since
            &&& p.low() ==> after.below_since == Some(g.low_since(p.now)) && after.open == (g.open && passed(
                g.low_since(p.now),
                p.now,
            ) < p.hold)
        }),
{
}

/// A closed gate never makes the microphone louder than it is when open.
pub proof fn law_gate_only_lowers(g: VolumeGate, sunk: Single)
    requires
        g.attached,
        g.min_db.at_most(g.base()),
        !sunk.nan(),
    ensures
        g.aim(sunk).at_most(g.base()),
        g.min_db.at_most(g.aim(sunk)),
{
}

/// Only a hand at the volume changes what it is set back to when it is let go: a picture in which
/// none is found leaves that alone.
pub proof fn law_original_survives(g: VolumeGate, p: Picture, fig: Figures)
    requires
        !g.instructed(p, fig).resyncs(p.now) || p.volume_db is None || !VolumeGate::moved(fig.off_db),
    ensures
        g.pictured(p, fig).original_db == g.original_db,
        g.pictured(p, fig).attached == g.attached,
        g.pictured(p, fig).endpoint_id == g.endpoint_id,
        g.pictured(p, fig).applied_db == g.applied_db,
{
}

/// A picture keeps what is kept of a closed gate there exactly while it is closed.
pub proof fn law_picture_keeps_the_state_coherent(g: VolumeGate, p: Picture, fig: Figures)
    requires
        g.coherent(),
    ensures
        g.pictured(p, fig).coherent(),
{
}

/// A gate that has been closed for 4 s without a level above the threshold is opened for a moment:
/// the volume goes back to where it stands open, which without the fader is the original one, and
/// it is measured anew. It stays counted as closed.
pub proof fn law_stuck_gate_is_raised(g: VolumeGate, p: Picture, fig: Figures, sunk: Single)
    requires
        g.coherent(),
        !g.open,
        !g.peeking,
        p.gating,
        !p.loud(),
        passed(g.closed_since->0, p.now) >= STUCK_AFTER,
    ensures
        ({
            let after = g.pictured(p, fig);
            &&& after.peeking
            &&& !after.open
            &&& after.aim(sunk) == after.base()
            &&& p.fader_db.equal(whole_of(0)) ==> after.aim(sunk) == g.original_db
            &&& after.closed_at == Some(p.now)
            &&& after.closed_since == Some(p.now)
            &&& after.calibration_count == 0
            &&& after.measured_attenuation_db is None
        }),
{
}

/// The moment lasts 350 ms: until then the volume stays raised and the level is collected; with the
/// first picture after it the volume goes down again and the measuring of how much quieter it gets
/// begins anew.
pub proof fn law_raised_only_for_a_moment(g: VolumeGate, p: Picture, fig: Figures, sunk: Single)
    requires
        g.coherent(),
        g.attached,
        g.peeking,
        g.closed_at is Some,
        p.gating,
        !p.loud(),
        passed(g.closed_since->0, p.now) < STUCK_AFTER,
    ensures
        ({
            let after = g.pictured(p, fig);
            let over = passed(g.closed_at->0, p.now) >= CALIBRATION_END;
            &&& !over ==> after.peeking && after.aim(sunk) == after.base()
            &&& over ==> !after.peeking && after.closed_at == Some(p.now) && after.aim(sunk) == sunk.smaller(
                after.base(),
            ).larger(after.min_db)
        }),
{
}

/// The state after a picture, as far as opening and closing goes, is `after`. What happens to the
/// volume between two pictures does not matter to it.
pub open spec fn follows(before: VolumeGate, after: VolumeGate, p: Picture, fig: Figures) -> bool {
    let next = before.pictured(p, fig);
    &&& p.gating
    &&& after.open == next.open
    &&& after.below_since == next.below_since
    &&& after.closed_since == next.closed_since
    &&& after.peeking == next.peeking
}

/// One picture after another, with the noise gate on, leads through these states.
pub open spec fn a_run(states: Seq<VolumeGate>, pictures: Seq<Picture>, figures: Seq<Figures>) -> bool {
    &&& states.len() == pictures.len() + 1
    &&& figures.len() == pictures.len()
    &&& forall|i: int|
        0 <= i < pictures.len() ==> #[trigger] follows(states[i], states[i + 1], pictures[i], figures[i])
}

/// A loud picture comes after `k` and before `n`.
pub open spec fn loud_between(pictures: Seq<Picture>, k: int, n: int) -> bool {
    exists|j: int| k < j < n && (#[trigger] pictures[j]).loud()
}

/// Of the pictures before `n`, `k` is the first low one since the last loud one.
pub open spec fn first_low(pictures: Seq<Picture>, k: int, n: int) -> bool {
    &&& 0 <= k < n
    &&& pictures[k].low()
    &&& !loud_between(pictures, k, n)
    &&& forall|j: int| 0 <= j < k && (#[trigger] pictures[j]).low() ==> loud_between(pictures, j, n)
}

/// An open gate closes only with a low level, and only once the hold has passed since the first low
/// one after the last loud one. A level in between the thresholds, or none at all, neither opens nor
/// closes it, and a loud one leaves it open.
pub proof fn law_gate_closes_after_the_hold(
    states: Seq<VolumeGate>,
    pictures: Seq<Picture>,
    figures: Seq<Figures>,
    n: int,
)
    requires
        a_run(states, pictures, figures),
        states[0].below_since is None,
        0 <= n < pictures.len(),
    ensures
        states[n].open && !states[n + 1].open ==> pictures[n].low() && exists|k: int| #[trigger]
            first_low(pictures, k, n + 1) && passed(pictures[k].now, pictures[n].now) >= pictures[n].hold,
        pictures[n].loud() ==> states[n + 1].open,
        !pictures[n].loud() && !pictures[n].low() ==> states[n + 1].open == states[n].open,
{
    assert(follows(states[n], states[n + 1], pictures[n], figures[n]));
    law_picture_opens_and_closes(states[n], pictures[n], figures[n]);
    lemma_low_since(states, pictures, figures, n + 1);
    if states[n].open && !states[n + 1].open {
        let k = choose|k: int| #[trigger]
            first_low(pictures, k, n + 1) && states[n + 1].below_since == Some(pictures[k].now);
        assert(first_low(pictures, k, n + 1));
    }
}

proof fn lemma_low_since(states: Seq<VolumeGate>, pictures: Seq<Picture>, figures: Seq<Figures>, n: int)
    requires
        a_run(states, pictures, figures),
        states[0].below_since is None,
        0 <= n <= pictures.len(),
    ensures
        states[n].below_since is Some ==> exists|k: int| #[trigger]
            first_low(pictures, k, n) && states[n].below_since == Some(pictures[k].now),
        states[n].below_since is None ==> forall|j: int|
            0 <= j < n && (#[trigger] pictures[j]).low() ==> loud_between(pictures, j, n),
    decreases n,
{
    if n > 0 {
        let m = n - 1;
        lemma_low_since(states, pictures, figures, m);
        assert(follows(states[m], states[m + 1], pictures[m], figures[m]));
        law_picture_opens_and_closes(states[m], pictures[m], figures[m]);
        assert forall|j: int| #[trigger] loud_between(pictures, j, m) implies loud_between(pictures, j, n) by {
            let i = choose|i: int| j < i < m && (#[trigger] pictures[i]).loud();
            assert(pictures[i].loud());
        }
        if pictures[m].loud() {
            assert forall|j: int| 0 <= j < n && (#[trigger] pictures[j]).low() implies loud_between(pictures, j, n) by {
                assert(pictures[m].loud());
            }
        } else if states[m].below_since is Some {
            let k = choose|k: int| #[trigger]
                first_low(pictures, k, m) && states[m].below_since == Some(pictures[k].now);
            assert forall|j: int| 0 <= j < k && (#[trigger] pictures[j]).low() implies loud_between(pictures, j, n) by {
                assert(loud_between(pictures, j, m));
            }
            if loud_between(pictures, k, n) {
                let i = choose|i: int| k < i < n && (#[trigger] pictures[i]).loud();
                assert(pictures[i].loud());
                assert(loud_between(pictures, k, m));
            }
            assert(first_low(pictures, k, n));
        } else {
            assert forall|j: int| 0 <= j < m && (#[trigger] pictures[j]).low() implies loud_between(pictures, j, n) by {
                assert(loud_between(pictures, j, m));
            }
            if pictures[m].low() {
                assert(first_low(pictures, m, n));
            }
        }
    }
}

/// A closed gate that hears nothing above the threshold is raised at the latest with the first
/// picture that comes 4 s after it was closed.
pub proof fn law_stuck_gate_is_raised_in_time(states: Seq<VolumeGate>, pictures: Seq<Picture>, figures: Seq<Figures>)
    requires
        a_run(states, pictures, figures),
        states[0].coherent(),
        !states[0].open,
        !states[0].peeking,
        pictures.len() > 0,
        forall|i: int| 0 <= i < pictures.len() ==> !(#[trigger] pictures[i]).loud(),
        passed(states[0].closed_since->0, pictures.last().now) >= STUCK_AFTER,
    ensures
        exists|n: int| 0 < n < states.len() && (#[trigger] states[n]).peeking,
{
    let m = pictures.len() - 1;
    if forall|n: int| 0 < n < states.len() ==> !(#[trigger] states[n]).peeking {
        lemma_stays_closed(states, pictures, figures, m);
        assert(!pictures[m].loud());
        assert(follows(states[m], states[m + 1], pictures[m], figures[m]));
        law_stuck_gate_is_raised(states[m], pictures[m], figures[m], whole_of(0));
        assert(states[m + 1].peeking);
    }
}

proof fn lemma_stays_closed(states: Seq<VolumeGate>, pictures: Seq<Picture>, figures: Seq<Figures>, n: int)
    requires
        a_run(states, pictures, figures),
        states[0].coherent(),
        !states[0].open,
        !states[0].peeking,
        forall|i: int| 0 <= i < pictures.len() ==> !(#[trigger] pictures[i]).loud(),
        forall|i: int| 0 < i < states.len() ==> !(#[trigger] states[i]).peeking,
        0 <= n < states.len(),
    ensures
        !states[n].open,
        !states[n].peeking,
        states[n].closed_since == states[0].closed_since,
    decreases n,
{
    if n > 0 {
        let m = n - 1;
        lemma_stays_closed(states, pictures, figures, m);
        assert(!pictures[m].loud());
        assert(follows(states[m], states[m + 1], pictures[m], figures[m]));
        assert(!states[m + 1].peeking);
    }
}

/// The noise gate and the fader start from the volume that was set by hand last: without the noise
/// gate lowering, that is where it stands.
pub proof fn law_hand_decides_where_it_stands(g: VolumeGate, db: Single, without: Single, sunk: Single)
    requires
        g.open,
        g.min_db.at_most(db),
        db.at_most(g.max_db),
    ensures
        g.moved_to(db, without).aim(sunk) == db,
        g.moved_to(db, without).applied_db == db,
{
}

/// Muting by the volume of Windows: which microphone is muted.
pub struct MuteSwitch {
    pub endpoint_id: Option<String>,
}

/// What is to be done about muting.
pub enum MuteChange {
    /// All is as it should be.
    Keep,
    /// The one that is muted speaks again, if there is one, and this one is muted, if it is given.
    Change(Option<String>),
}

impl MuteSwitch {
    pub fn new() -> (m: MuteSwitch)
        ensures
            m.endpoint_id is None,
    {
        MuteSwitch { endpoint_id: None }
    }

    /// Which microphone is to be muted.
    pub open spec fn wish(device_id: Option<String>, mute: bool) -> Option<Seq<char>> {
        if mute {
            endpoint_of(device_id)
        } else {
            None
        }
    }

    /// What is to be done so that the microphone is muted or not. Nothing counts as muted until
    /// `muted` says so.
    pub fn update(&mut self, device_id: &Option<String>, mute: bool) -> (change: MuteChange)
        ensures
            (match change {
                MuteChange::Keep => text_in(old(self).endpoint_id) == MuteSwitch::wish(*device_id, mute) && *final(self)
                    == *old(self),
                MuteChange::Change(id) => text_in(old(self).endpoint_id) != MuteSwitch::wish(*device_id, mute) && text_in(id)
                    == MuteSwitch::wish(*device_id, mute) && final(self).endpoint_id is None,
            }),
    {
        let wanted = if mute {
            endpoint(device_id)
        } else {
            None
        };
        let same = equal_texts(&wanted, &self.endpoint_id);
        assert(same == (text_in(wanted) == text_in(self.endpoint_id)));
        if same {
            return MuteChange::Keep;
        }
        self.endpoint_id = None;
        MuteChange::Change(wanted)
    }

    /// This microphone was muted.
    pub fn muted(&mut self, id: String)
        ensures
            final(self).endpoint_id == Some(id),
    {
        self.endpoint_id = Some(id);
    }

    /// Whether one is muted that has to speak again at the end.
    pub fn release(&mut self) -> (unmute: bool)
        ensures
            unmute == (old(self).endpoint_id is Some),
            final(self).endpoint_id is None,
    {
        self.endpoint_id.take().is_some()
    }
}

/// A hand at the volume is followed: a look at it that finds it more than half a dB away from where
/// it was set, up or down, makes that the volume from which everything else goes on, less what the
/// fader adds. Half a dB or less does not matter.
pub proof fn law_hand_at_the_volume_is_followed(
    g: &mut VolumeGate,
    p: &Picture,
    fig: &Figures,
    db: Single,
    note: Option<NoteChange>,
)
    requires
        call_ensures(VolumeGate::update, (g, p, fig), note),
        old(g).open || !p.gating,
        p.now - old(g).last_resync >= 500_000_000,
        p.volume_db == Some(db),
        !fig.off_db.nan(),
        !p.fader_db.nan(),
    ensures
        final(g).last_resync == p.now,
        fig.off_db.val() > pow2(148) || fig.off_db.val() < -(pow2(148) as int) ==> {
            &&& final(g).applied_db == db
            &&& p.fader_db.val() == 0 ==> final(g).original_db == db && final(g).lifted_db is None
            &&& p.fader_db.val() != 0 ==> final(g).original_db == fig.without_db && final(g).lifted_db == Some(db)
        },
        -(pow2(148) as int) <= fig.off_db.val() <= pow2(148) ==> {
            &&& final(g).applied_db == old(g).applied_db
            &&& final(g).original_db == old(g).original_db
            &&& p.fader_db.val() == 0 ==> final(g).lifted_db is None
            &&& p.fader_db.val() != 0 ==> final(g).lifted_db == Some(fig.lifted_db)
        },
{
    lemma_more_than_half(fig.off_db);
    lemma_whole_val(0);
}

proof fn lemma_more_than_half(off: Single)
    ensures
        !off.nan() ==> (VolumeGate::moved(off) <==> off.val() > pow2(148) || off.val() < -(pow2(148) as int)),
{
    lemma_quarters_of(2);
    lemma_pow2_adds(1, 147);
    lemma2_to64();
    reveal(Single::val);
    let m = Single { bits: off.magnitude() as u32 };
    assert(m.val() == if off.val() < 0 {
        -off.val()
    } else {
        off.val()
    });
}

/// Where nothing is looked at, nothing of the volume changes with a picture; it is looked at every
/// half second, and not while the noise gate is closed.
pub proof fn law_volume_is_looked_at_in_time(
    g: &mut VolumeGate,
    p: &Picture,
    fig: &Figures,
    note: Option<NoteChange>,
    looks: bool,
)
    requires
        call_ensures(VolumeGate::update, (g, p, fig), note),
        call_ensures(VolumeGate::looks, (&*old(g), p.gating, p.now), looks),
    ensures
        looks <==> (old(g).open || !p.gating) && p.now - old(g).last_resync >= 500_000_000,
        !looks || p.volume_db is None ==> final(g).applied_db == old(g).applied_db && final(g).original_db == old(g).original_db,
        !looks ==> final(g).last_resync == old(g).last_resync,
        final(g).min_db == old(g).min_db && final(g).max_db == old(g).max_db && final(g).attached == old(g).attached,
{
}

/// What is wanted takes effect with the picture: the fader moves the volume unless it stands at 0,
/// and without the noise gate nothing is lowered or measured.
pub proof fn law_wishes_take_effect(g: &mut VolumeGate, p: &Picture, fig: &Figures, note: Option<NoteChange>)
    requires
        call_ensures(VolumeGate::update, (g, p, fig), note),
        !p.fader_db.nan(),
    ensures
        final(g).gating == p.gating,
        final(g).lifted_db is None <==> p.fader_db.val() == 0,
        !p.gating ==> final(g).open && !final(g).peeking && final(g).below_since is None && final(g).closed_since is None
            && final(g).closed_at is None,
{
    lemma_whole_val(0);
}

/// The level is smoothed with every measurement while the volume is not lowered, and stands still
/// else.
pub proof fn law_level_is_smoothed_while_open(g: &mut VolumeGate, p: &Picture, fig: &Figures, note: Option<NoteChange>)
    requires
        call_ensures(VolumeGate::update, (g, p, fig), note),
    ensures
        (old(g).open || !p.gating) && p.level_db is Some ==> final(g).smoothed_db == Some(fig.smoothed_db),
        (!old(g).open && p.gating) || p.level_db is None ==> final(g).smoothed_db == old(g).smoothed_db,
{
}

/// Closing begins to measure how much quieter it gets, from the level shortly before.
pub proof fn law_closing_begins_to_measure(g: &mut VolumeGate, p: &Picture, fig: &Figures, note: Option<NoteChange>)
    requires
        call_ensures(VolumeGate::update, (g, p, fig), note),
        old(g).open,
        !final(g).open,
    ensures
        final(g).closed_at == Some(p.now),
        final(g).closed_since == Some(p.now),
        final(g).before_close_db == fig.smoothed_db,
        final(g).calibration_count == 0,
        final(g).calibration_sum.val() == 0,
        !old(g).peeking ==> !final(g).peeking,
{
    lemma_whole_val(0);
}

/// After closing, 80 ms are waited; from then on the measured levels are collected; and after
/// 350 ms it is judged. If it got quieter by more than can be borne, the volume is pulled down by so
/// much less, by 60 dB at the most, and it is measured once more; else what was measured counts. It
/// is from 0 to 90 dB.
pub proof fn law_lowering_is_measured(g: &mut VolumeGate, p: &Picture, fig: &Figures, note: Option<NoteChange>, at: u64)
    requires
        old(g).calibration_count < u32::MAX,
        call_ensures(VolumeGate::update, (g, p, fig), note),
        p.gating,
        !old(g).open,
        !old(g).peeking,
        !p.loud(),
        old(g).closed_at == Some(at),
        at <= p.now,
        old(g).closed_since matches Some(t) && p.now - t < 4_000_000_000,
        !fig.difference_db.nan(),
        !fig.bearable_db.nan(),
        !fig.backoff_db.nan(),
        !old(g).backoff_db.nan(),
    ensures
        p.now - at < 80_000_000 || (p.now - at < 350_000_000 && p.measured_db is None) ==> {
            &&& final(g).calibration_count == old(g).calibration_count
            &&& final(g).calibration_sum == old(g).calibration_sum
            &&& final(g).closed_at == Some(at)
            &&& final(g).measured_attenuation_db == old(g).measured_attenuation_db
        },
        80_000_000 <= p.now - at < 350_000_000 && p.measured_db is Some ==> {
            &&& final(g).calibration_count == old(g).calibration_count + 1
            &&& final(g).calibration_sum == fig.sum_db
            &&& final(g).closed_at == Some(at)
            &&& final(g).measured_attenuation_db == old(g).measured_attenuation_db
        },
        p.now - at >= 350_000_000 && old(g).calibration_count == 0 ==> final(g).closed_at is None
            && final(g).measured_attenuation_db == old(g).measured_attenuation_db && final(g).backoff_db == old(g).backoff_db,
        p.now - at >= 350_000_000 && old(g).calibration_count > 0 ==> {
            let difference = fig.difference_db.val();
            let quieter: int = if difference < 0 {
                0
            } else if difference > 90 * pow2(149) {
                (90 * pow2(149)) as int
            } else {
                difference
            };
            let too_much = quieter > fig.bearable_db.val() && old(g).backoff_db.val() < 60 * pow2(149);
            &&& too_much ==> {
                &&& final(g).closed_at == Some(p.now)
                &&& final(g).calibration_count == 0
                &&& final(g).measured_attenuation_db is None
                &&& fig.backoff_db.val() <= 60 * pow2(149) ==> final(g).backoff_db.val() == fig.backoff_db.val()
                &&& fig.backoff_db.val() > 60 * pow2(149) ==> final(g).backoff_db.val() == 60 * pow2(149)
            }
            &&& !too_much ==> {
                &&& final(g).closed_at is None
                &&& final(g).measured_attenuation_db matches Some(db) && db.val() == quieter
                &&& final(g).measured_at_db == old(g).applied_db
                &&& final(g).backoff_db == old(g).backoff_db
            }
        },
        !final(g).open && !final(g).peeking && final(g).closed_since == old(g).closed_since,
{
    lemma_whole_val(0);
    lemma_whole_val(60);
    lemma_whole_val(90);
}

/// While the volume is raised for a moment, the level itself is measured; at the end of that it is
/// the level from before closing.
pub proof fn law_raised_volume_measures_the_level(
    g: &mut VolumeGate,
    p: &Picture,
    fig: &Figures,
    note: Option<NoteChange>,
    at: u64,
)
    requires
        old(g).calibration_count < u32::MAX,
        call_ensures(VolumeGate::update, (g, p, fig), note),
        p.gating,
        !old(g).open,
        old(g).peeking,
        !p.loud(),
        old(g).closed_at == Some(at),
        at <= p.now,
        old(g).closed_since matches Some(t) && p.now - t < 4_000_000_000,
    ensures
        80_000_000 <= p.now - at < 350_000_000 && p.measured_db is Some ==> final(g).calibration_count
            == old(g).calibration_count + 1 && final(g).calibration_sum == fig.sum_db,
        p.now - at < 350_000_000 ==> final(g).peeking && final(g).before_close_db == old(g).before_close_db,
        p.now - at >= 350_000_000 ==> !final(g).peeking && final(g).closed_at == Some(p.now),
        p.now - at >= 350_000_000 && old(g).calibration_count > 0 ==> final(g).before_close_db == fig.average_db && final(g).calibration_count == 0,
        p.now - at >= 350_000_000 && old(g).calibration_count == 0 ==> final(g).before_close_db == old(g).before_close_db,
{
}

/// The lowering slides with the level: exactly by what the distance to the threshold asks, at most
/// by the range; it stands still while it is being measured, without a level, and while open.
pub proof fn law_lowering_slides_with_the_level(
    g: &mut VolumeGate,
    p: &Picture,
    fig: &Figures,
    note: Option<NoteChange>,
    level: Single,
)
    requires
        call_ensures(VolumeGate::update, (g, p, fig), note),
        !level.nan(),
        !p.params.threshold_db.nan(),
        !p.params.range_db.nan(),
        !fig.below_db.nan(),
        0 <= p.params.range_db.val(),
        0 <= fig.below_db.val(),
        p.level_db matches Some(db) ==> db == level,
    ensures
        ({
            let still = final(g).open || p.level_db is None || (final(g).closed_at matches Some(at) && at < p.now);
            &&& still ==> final(g).reduction_db == old(g).reduction_db
            &&& !still && level.val() >= p.params.threshold_db.val() ==> final(g).reduction_db.val() == 0
            &&& !still && level.val() < p.params.threshold_db.val() && fig.below_db.val() <= p.params.range_db.val()
                ==> final(g).reduction_db == fig.below_db
            &&& !still && level.val() < p.params.threshold_db.val() && fig.below_db.val() > p.params.range_db.val()
                ==> final(g).reduction_db == p.params.range_db
        }),
{
    lemma_whole_val(0);
}

/// Open, or raised for a moment, the volume goes where it was, or, with the fader, where that
/// wants it, as far as it goes. Closed it goes down from there as far as it is sunk, not above that
/// and not below the lowest.
pub proof fn law_where_the_volume_goes(g: &VolumeGate, sunk: Single, r: Single)
    requires
        call_ensures(VolumeGate::target_db, (g, sunk), r),
        g.attached,
        !sunk.nan(),
        !g.original_db.nan(),
        !g.min_db.nan(),
        !g.max_db.nan(),
        g.min_db.val() <= g.max_db.val(),
        g.lifted_db matches Some(db) ==> !db.nan(),
        g.lifted_db is None ==> g.min_db.val() <= g.original_db.val(),
    ensures
        ({
            let base: int = match g.lifted_db {
                None => g.original_db.val(),
                Some(db) => if db.val() > g.max_db.val() {
                    g.max_db.val()
                } else if db.val() < g.min_db.val() {
                    g.min_db.val()
                } else {
                    db.val()
                },
            };
            &&& g.open || g.peeking ==> r.val() == base
            &&& !g.open && !g.peeking && sunk.val() > base ==> r.val() == base
            &&& !g.open && !g.peeking && sunk.val() < g.min_db.val() ==> r.val() == g.min_db.val()
            &&& !g.open && !g.peeking && g.min_db.val() <= sunk.val() <= base ==> r == sunk
            &&& (g.open || g.peeking) && g.lifted_db is None ==> r == g.original_db
        }),
{
}

/// A difference of more than 0.05 dB is written to the volume, and a smaller one is not.
pub proof fn law_noticeable_differences_are_written(g: &mut VolumeGate, target: Single, off: Single, w: Write)
    requires
        call_ensures(VolumeGate::apply, (g, target, off), w),
        !off.nan(),
    ensures
        ({
            let little = (Single { bits: 0x3d4c_cccd }).val();
            &&& off.val() > little || off.val() < -little ==> w.db == Some(target) && final(g).applied_db == target
            &&& -little <= off.val() <= little ==> w.db is None && final(g).applied_db == old(g).applied_db
        }),
        final(g).original_db == old(g).original_db && final(g).open == old(g).open && final(g).lifted_db == old(g).lifted_db,
        final(g).reduction_db == old(g).reduction_db && final(g).backoff_db == old(g).backoff_db && final(
            g).measured_attenuation_db == old(g).measured_attenuation_db && final(g).measured_at_db == old(g).measured_at_db,
        final(g).attached == old(g).attached && final(g).closed_at == old(g).closed_at && final(g).peeking == old(g).peeking,
{
}

/// What is taken out of the measurement: nothing where the volume is not in our hands or not
/// lowered, else what was measured at this volume, with how far it went on since where that is
/// another one; before anything was measured, by how much the volume is lowered. Never less than 0.
pub proof fn law_lowering_is_taken_out(g: &VolumeGate, lowered: Single, moved: Single, r: Single)
    requires
        call_ensures(VolumeGate::attenuation_db, (g, lowered, moved), r),
        !lowered.nan(),
        !moved.nan(),
        g.measured_attenuation_db matches Some(db) ==> !db.nan(),
    ensures
        ({
            let little = (Single { bits: 0x3d4c_cccd }).val();
            let in_hand = g.attached && (lowered.val() >= little || lowered.val() <= -little);
            let by: int = match g.measured_attenuation_db {
                Some(db) => if g.applied_db == g.measured_at_db {
                    db.val()
                } else {
                    moved.val()
                },
                None => lowered.val(),
            };
            &&& !in_hand ==> r.val() == 0
            &&& in_hand && by >= 0 ==> r.val() == by
            &&& in_hand && by < 0 ==> r.val() == 0
        }),
{
    lemma_whole_val(0);
}

/// Letting go sets the volume back to where it was, unless it stands there, and leaves nothing
/// noted and nothing lowered.
pub proof fn law_letting_go_sets_back(g: &mut VolumeGate, touched: Single, r: Option<Release>)
    requires
        call_ensures(VolumeGate::release, (g, touched), r),
        !touched.nan(),
    ensures
        r is Some <==> old(g).attached,
        !final(g).attached,
        ({
            let little = (Single { bits: 0x3d4c_cccd }).val();
            &&& old(g).attached && (touched.val() > little || touched.val() < -little) ==> (r matches Some(release)
                && release.write == Some(old(g).original_db))
            &&& -little <= touched.val() <= little ==> (r matches Some(release) ==> release.write is None)
        }),
        old(g).attached ==> final(g).open && final(g).noted is None && !final(g).peeking,
{
}

/// The volume belongs to the microphone that is chosen: another one, or none wanted, lets it go; a
/// device of this audio system is opened by what follows `wasapi:`, and others have none.
pub proof fn law_volume_belongs_to_the_microphone(
    g: &mut VolumeGate,
    device_id: &Option<String>,
    enabled: bool,
    touched: Single,
    r: (Option<Release>, Next),
    name: Seq<char>,
)
    requires
        call_ensures(VolumeGate::begin, (g, device_id, enabled, touched), r),
    ensures
        !enabled ==> r.1 is Stop && !final(g).attached,
        !enabled && old(g).attached ==> r.0 is Some,
        *device_id matches Some(id) && id@ == "wasapi:"@ + name && enabled ==> {
            &&& final(g).endpoint_id matches Some(e) && e@ == name
            &&& old(g).attached && (old(g).endpoint_id matches Some(e) && e@ == name) ==> r.1 is Go && r.0 is None && *final(g)
                == *old(g)
            &&& old(g).attached && !(old(g).endpoint_id matches Some(e) && e@ == name) ==> r.0 is Some && (r.1 matches Next::Attach(
                e,
            ) && e@ == name)
            &&& !old(g).attached ==> r.0 is None && (r.1 matches Next::Attach(e) && e@ == name)
        },
        *device_id is None && enabled ==> final(g).endpoint_id is None && (old(g).valid() ==> r.1 is Stop),
{
    let start = "wasapi:"@;
    if let Some(id) = device_id {
        if id@ == start + name {
            assert(id@.subrange(0, start.len() as int) =~= start);
            assert(id@.subrange(start.len() as int, id@.len() as int) =~= name);
        }
    }
}

/// A volume that was opened is where everything starts from: open, where it stands, with nothing
/// measured.
pub proof fn law_opened_volume_is_the_start(
    g: &mut VolumeGate,
    min: Single,
    max: Single,
    current: Single,
    r: bool,
)
    requires
        !old(g).attached,
        call_ensures(VolumeGate::attach, (g, Some((min, max, current))), r),
        old(g).endpoint_id is Some,
    ensures
        r && final(g).attached,
        final(g).original_db == current && final(g).applied_db == current,
        final(g).min_db == min && final(g).max_db == max,
        final(g).open && final(g).measured_attenuation_db is None && final(g).backoff_db.val() == 0,
{
    lemma_whole_val(0);
}

/// A level set by hand is where the noise gate and the fader start: the volume stands there, and
/// without what the fader adds that is what it is set back to.
pub proof fn law_level_set_by_hand_is_the_start(
    g: &mut VolumeGate,
    db: Single,
    without: Single,
    note: Option<NoteChange>,
)
    requires
        call_ensures(VolumeGate::take_level, (g, db, without), note),
    ensures
        final(g).applied_db == db,
        old(g).lifted_db is None ==> final(g).original_db == db && final(g).lifted_db is None,
        old(g).lifted_db is Some ==> final(g).original_db == without && final(g).lifted_db == Some(db),
        final(g).open == old(g).open && final(g).attached == old(g).attached && final(g).peeking == old(g).peeking,
        final(g).reduction_db == old(g).reduction_db && final(g).backoff_db == old(g).backoff_db && final(
            g).measured_attenuation_db == old(g).measured_attenuation_db && final(g).gating == old(g).gating,
        final(g).min_db == old(g).min_db && final(g).max_db == old(g).max_db,
        old(g).valid() && old(g).attached && final(g).applied_db != final(g).original_db ==> (final(g).noted matches Some(l)
            && l.original_db == final(g).original_db && l.endpoint_id@ == old(g).endpoint_id->0@),
{
}

/// The fader wants more than there is exactly where it wants the volume above its upper end.
pub proof fn law_fader_loses_above_the_end(g: &VolumeGate, r: bool, fader_db: Single, gate: bool, wanted: bool)
    requires
        call_ensures(VolumeGate::loses, (g,), r),
        call_ensures(VolumeGate::wanted, (gate, fader_db), wanted),
        g.lifted_db matches Some(db) ==> !db.nan(),
        !g.max_db.nan(),
        !fader_db.nan(),
    ensures
        r <==> g.attached && (g.lifted_db matches Some(db) && db.val() > g.max_db.val()),
        wanted <==> gate || fader_db.val() != 0,
{
    lemma_whole_val(0);
}

/// A picture goes by the numbers: a level above the threshold opens at once, one below the lower
/// threshold closes once that has lasted for the hold, and one in between changes nothing. After
/// 4 s without a level above the threshold the volume is raised for a moment.
pub proof fn law_picture_goes_by_the_numbers(
    g: &mut VolumeGate,
    p: &Picture,
    fig: &Figures,
    note: Option<NoteChange>,
    level: Single,
)
    requires
        call_ensures(VolumeGate::update, (g, p, fig), note),
        p.gating,
        p.level_db == Some(level),
        !level.nan(),
        !p.params.threshold_db.nan(),
        !p.low_db.nan(),
    ensures
        level.val() > p.params.threshold_db.val() ==> final(g).open && final(g).below_since is None && final(
            g).closed_since is None && !final(g).peeking && (!old(g).open ==> final(g).closed_at is None),
        p.low_db.val() <= level.val() <= p.params.threshold_db.val() ==> final(g).open == old(g).open && final(
            g).below_since == old(g).below_since,
        level.val() <= p.params.threshold_db.val() && level.val() < p.low_db.val() ==> {
            let since = match old(g).below_since {
                Some(t) => t,
                None => p.now,
            };
            &&& final(g).below_since == Some(since)
            &&& !old(g).open ==> !final(g).open
            &&& old(g).open && since <= p.now ==> (final(g).open <==> p.now - since < p.hold)
        },
        level.val() <= p.params.threshold_db.val() && !old(g).open && !old(g).peeking && (old(g).closed_since matches Some(t)
            && p.now - t >= 4_000_000_000) ==> final(g).peeking && !final(g).open && final(g).closed_since == Some(p.now)
            && final(g).closed_at == Some(p.now) && final(g).measured_attenuation_db is None,
        level.val() <= p.params.threshold_db.val() && !old(g).open && !old(g).peeking && (old(g).closed_since matches Some(t)
            && t <= p.now && p.now - t < 4_000_000_000) ==> !final(g).peeking && final(g).closed_since == old(
            g).closed_since,
{
}

/// The microphone that is chosen is muted by its volume while that is wanted, and no other one; one
/// that is muted already stays so.
pub proof fn law_chosen_microphone_is_muted(
    m: &mut MuteSwitch,
    device_id: &Option<String>,
    mute: bool,
    change: MuteChange,
    name: Seq<char>,
)
    requires
        call_ensures(MuteSwitch::update, (m, device_id, mute), change),
    ensures
        !mute ==> (change is Keep <==> old(m).endpoint_id is None),
        !mute ==> (change matches MuteChange::Change(id) ==> id is None),
        mute && (*device_id matches Some(id) && id@ == "wasapi:"@ + name) ==> {
            &&& change is Keep <==> (old(m).endpoint_id matches Some(e) && e@ == name)
            &&& (change matches MuteChange::Change(id) ==> (id matches Some(e) && e@ == name))
        },
{
    let start = "wasapi:"@;
    if let Some(id) = device_id {
        if id@ == start + name {
            assert(id@.subrange(0, start.len() as int) =~= start);
            assert(id@.subrange(start.len() as int, id@.len() as int) =~= name);
        }
    }
}

/// What is to be done with the note is exactly what brings the one on disk up to date: it is written
/// where another one is owed, with the original volume and its microphone, deleted where none is owed
/// any more, and left alone else.
pub proof fn law_note_is_brought_up_to_date(
    g: &mut VolumeGate,
    p: &Picture,
    fig: &Figures,
    note: Option<NoteChange>,
    h: &mut VolumeGate,
    target: Single,
    off: Single,
    w: Write,
)
    requires
        old(g).valid(),
        call_ensures(VolumeGate::update, (g, p, fig), note),
        *old(h) == *final(g),
        call_ensures(VolumeGate::apply, (h, target, off), w),
    ensures
        note matches Some(NoteChange::Keep(l)) ==> l.original_db == final(g).original_db && (final(
            g).endpoint_id matches Some(id) && l.endpoint_id@ == id@),
        note matches Some(NoteChange::Forget) ==> old(g).noted is Some && final(g).noted is None,
        note is None ==> (old(g).noted is Some <==> final(g).noted is Some),
        note is None ==> (final(g).noted matches Some(l) ==> (old(g).noted matches Some(m) && l.original_db == m.original_db
            && l.endpoint_id@ == m.endpoint_id@)),
        w.note matches Some(NoteChange::Keep(l)) ==> l.original_db == final(h).original_db && (final(
            h).endpoint_id matches Some(id) && l.endpoint_id@ == id@),
        final(h).attached && final(h).applied_db != final(h).original_db ==> (final(h).noted matches Some(l)
            && l.original_db == final(h).original_db),
        final(h).open && final(h).lifted_db is None && final(h).applied_db == final(h).original_db ==> final(h).noted is None,
{
}

/// Where the volume stands open, where smoothing starts from, and how much quieter it got: each is
/// the one number that it should be.
pub proof fn law_numbers_of_the_volume(
    g: &VolumeGate,
    base: Single,
    level: Single,
    from: Single,
    difference: Single,
    quieter: Single,
)
    requires
        call_ensures(VolumeGate::base_db, (g,), base),
        call_ensures(VolumeGate::smooth_from, (g, level), from),
        call_ensures(VolumeGate::measured_attenuation, (difference,), quieter),
        !difference.nan(),
    ensures
        g.lifted_db is None ==> base == g.original_db,
        g.smoothed_db is None ==> from == level,
        g.smoothed_db matches Some(db) ==> from == db,
        difference.val() < 0 ==> quieter.val() == 0,
        difference.val() > 90 * pow2(149) ==> quieter.val() == 90 * pow2(149),
        0 <= difference.val() <= 90 * pow2(149) ==> quieter == difference,
{
    lemma_whole_val(0);
    lemma_whole_val(90);
}

/// The lower threshold lies 3 dB below the other one, and it may get quieter by up to 6 dB more than
/// wanted.
pub proof fn law_fixed_distances()
    ensures
        HYSTERESIS_DB == 3,
        BEARABLE_DB == 6,
{
}

/// What was measured counts until it is measured anew: while the volume is not lowered, and with the
/// noise gate off, a picture changes neither that nor by how much less the volume is pulled down; and
/// nothing is collected before there is anything to measure.
pub proof fn law_measurement_counts_until_the_next(
    g: &mut VolumeGate,
    p: &Picture,
    fig: &Figures,
    note: Option<NoteChange>,
)
    requires
        call_ensures(VolumeGate::update, (g, p, fig), note),
    ensures
        final(g).attached == old(g).attached && final(g).min_db == old(g).min_db && final(g).max_db == old(g).max_db && final(
            g).endpoint_id == old(g).endpoint_id,
        old(g).open || !p.gating ==> {
            &&& final(g).measured_attenuation_db == old(g).measured_attenuation_db
            &&& final(g).measured_at_db == old(g).measured_at_db
            &&& final(g).backoff_db == old(g).backoff_db
            &&& final(g).open ==> final(g).before_close_db == old(g).before_close_db && final(g).calibration_count == old(
                g).calibration_count && final(g).calibration_sum == old(g).calibration_sum
        },
        old(g).closed_at is None && p.gating && !old(g).open && !final(g).peeking ==> {
            &&& final(g).measured_attenuation_db == old(g).measured_attenuation_db
            &&& final(g).backoff_db == old(g).backoff_db
            &&& final(g).before_close_db == old(g).before_close_db
            &&& final(g).calibration_count == old(g).calibration_count
        },
{
}

/// A level that is no number neither opens nor closes, and neither does none at all.
pub proof fn law_no_number_changes_nothing(g: &mut VolumeGate, p: &Picture, fig: &Figures, note: Option<NoteChange>)
    requires
        call_ensures(VolumeGate::update, (g, p, fig), note),
        p.gating,
        p.level_db matches Some(db) ==> db.nan(),
    ensures
        final(g).open == old(g).open,
        final(g).below_since == old(g).below_since,
{
}

} // verus!
