use laermampel::dsp::GATE_SLOPE;
use laermampel::single::Single;
use laermampel::volume_gate::{
    Figures, GateParams, Leftover, MuteChange, MuteSwitch, Next, NoteChange, Picture, VolumeGate, BEARABLE_DB,
    CALIBRATION_END, CALIBRATION_SETTLE, HYSTERESIS_DB, RESYNC_INTERVAL, STUCK_AFTER,
};

fn n(x: f32) -> Single {
    Single { bits: x.to_bits() }
}

fn f(x: Single) -> f32 {
    f32::from_bits(x.bits)
}

fn id(s: &str) -> Option<String> {
    Some(s.to_string())
}

fn attached() -> VolumeGate {
    let mut g = VolumeGate::new(0);
    let (release, next) = g.begin(&id("wasapi:mic"), true, n(0.0));
    assert!(release.is_none());
    assert!(matches!(next, Next::Attach(endpoint) if endpoint == "mic"));
    assert!(g.attach(Some((n(-96.0), n(12.0), n(-6.0)))));
    g
}

/// What is wanted in a picture: the threshold stands at -40 dB.
#[derive(Clone, Copy)]
struct Wanted {
    gating: bool,
    fader: f32,
    range: f32,
    hold: u64,
    volume: Option<f32>,
}

const GATE: Wanted = Wanted { gating: true, fader: 0.0, range: 25.0, hold: 0, volume: None };

/// The disk, and what was last written to the volume.
struct World {
    note: Option<(String, f32)>,
    written: Option<f32>,
}

impl World {
    fn new() -> World {
        World { note: None, written: None }
    }

    fn keep(&mut self, change: Option<NoteChange>) {
        match change {
            Some(NoteChange::Keep(Leftover { endpoint_id, original_db })) => {
                self.note = Some((endpoint_id, f(original_db)));
            }
            Some(NoteChange::Forget) => {
                assert!(self.note.is_some());
                self.note = None;
            }
            None => {}
        }
    }

    /// A picture as the program runs it. Gives what was written to the volume.
    fn picture(&mut self, g: &mut VolumeGate, now: u64, measured: Option<f32>, wanted: Wanted) -> Option<f32> {
        let lowered = f(g.base_db()) - f(g.applied_db);
        let moved = g.measured_attenuation_db.map_or(0.0, f) + f(g.measured_at_db) - f(g.applied_db);
        let level = measured.map(|db| db + f(g.attenuation_db(n(lowered), n(moved))));
        let p = Picture {
            now,
            gating: wanted.gating,
            fader_db: n(wanted.fader),
            measured_db: measured.map(n),
            level_db: level.map(n),
            volume_db: if g.looks(wanted.gating, now) { wanted.volume.map(n) } else { None },
            params: GateParams { threshold_db: n(-40.0), range_db: n(wanted.range), hold_ms: n(0.0) },
            low_db: n(-40.0 - HYSTERESIS_DB as f32),
            hold: wanted.hold,
        };
        let current = wanted.volume.unwrap_or(f(g.applied_db));
        let level = level.unwrap_or(0.0);
        let from = f(g.smooth_from(n(level)));
        let average = f(g.calibration_sum) / g.calibration_count as f32;
        let difference = n(f(g.before_close_db) - average);
        let wants = f(g.reduction_db);
        let attenuation = f(VolumeGate::measured_attenuation(difference));
        let fig = Figures {
            lifted_db: n(f(g.original_db) + wanted.fader),
            off_db: n(current - f(g.applied_db)),
            without_db: n(current - wanted.fader),
            smoothed_db: n(from + (level - from) * 0.2),
            sum_db: n(f(g.calibration_sum) + measured.unwrap_or(0.0)),
            average_db: n(average),
            difference_db: difference,
            bearable_db: n(wants + BEARABLE_DB as f32),
            backoff_db: n(f(g.backoff_db) + (attenuation - wants) * 0.7),
            below_db: n((-40.0 - level) * GATE_SLOPE as f32),
        };
        self.keep(g.update(&p, &fig));
        let target = g.target_db(n(f(g.base_db()) - f(g.reduction_db) + f(g.backoff_db)));
        // Before the volume goes anywhere, it is noted.
        if target != g.original_db {
            assert_eq!(self.note, Some(("mic".to_string(), f(g.original_db))));
        }
        let w = g.apply(target, n(f(target) - f(g.applied_db)));
        self.keep(w.note);
        self.check(g);
        if let Some(db) = w.db {
            self.written = Some(f(db));
        }
        w.db.map(f)
    }

    /// Whenever the volume stands away from the original one, that is noted.
    fn check(&self, g: &VolumeGate) {
        let moved = g.applied_db != g.original_db || !g.is_open() || g.lifted_db.is_some();
        let owed = if g.attached && moved { Some(("mic".to_string(), f(g.original_db))) } else { None };
        assert_eq!(self.note, owed);
    }
}

/// A picture with the noise gate on.
fn update(g: &mut VolumeGate, now: u64, measured: Option<f32>, range: f32, hold: u64) -> Option<f32> {
    let mut w = World { note: g.noted.as_ref().map(|l| (l.endpoint_id.clone(), f(l.original_db))), written: None };
    w.picture(g, now, measured, Wanted { range, hold, ..GATE })
}

#[test]
fn it_closes_after_the_hold_and_opens_at_once() {
    let mut g = attached();
    assert_eq!(update(&mut g, 10, Some(-20.0), 25.0, 100), None);
    assert_eq!(update(&mut g, 20, Some(-60.0), 25.0, 100), None);
    assert_eq!(update(&mut g, 119, Some(-60.0), 25.0, 100), None);
    assert!(g.is_open());
    assert_eq!(update(&mut g, 120, Some(-60.0), 25.0, 100), Some(-31.0));
    assert!(!g.is_open());
    // Lowered by 25 dB: -60 is really -35, which is loud enough.
    assert_eq!(update(&mut g, 130, Some(-60.0), 25.0, 100), Some(-6.0));
    assert!(g.is_open() && g.closed_at.is_none() && g.below_since.is_none());
}

#[test]
fn between_the_thresholds_nothing_changes() {
    let mut g = attached();
    update(&mut g, 0, Some(-41.0), 25.0, 0);
    assert!(g.is_open() && g.below_since.is_none());
    update(&mut g, 5, Some(-44.0), 25.0, 100);
    assert_eq!(g.below_since, Some(5));
    update(&mut g, 200, Some(-41.0), 25.0, 100);
    assert!(g.is_open());
    assert_eq!(g.below_since, Some(5));
    update(&mut g, 200, None, 25.0, 100);
    assert!(g.is_open());
    // The hold counts from the first low level since the last loud one.
    update(&mut g, 201, Some(-30.0), 25.0, 100);
    assert_eq!(g.below_since, None);
    update(&mut g, 202, Some(-44.0), 25.0, 100);
    update(&mut g, 301, Some(-44.0), 25.0, 100);
    assert!(g.is_open());
    update(&mut g, 302, Some(-44.0), 25.0, 100);
    assert!(!g.is_open());
}

#[test]
fn a_device_that_lowers_too_much_is_pulled_down_less() {
    let mut g = attached();
    update(&mut g, 0, Some(-45.0), 10.0, 0);
    assert!(!g.is_open());
    assert_eq!((f(g.before_close_db), f(g.applied_db)), (-45.0, -16.0));
    let end = CALIBRATION_END;
    // -45 before, -85 after: 40 dB instead of 10, which is the range.
    update(&mut g, CALIBRATION_SETTLE - 1, Some(-85.0), 10.0, 0);
    assert_eq!(g.calibration_count, 0);
    update(&mut g, CALIBRATION_SETTLE, Some(-85.0), 10.0, 0);
    assert_eq!((g.calibration_count, f(g.calibration_sum)), (1, -85.0));
    update(&mut g, end - 1, None, 10.0, 0);
    assert_eq!(g.calibration_count, 1);
    update(&mut g, end, None, 10.0, 0);
    assert_eq!(f(g.backoff_db), 21.0);
    assert_eq!(g.closed_at, Some(end));
    assert_eq!((g.calibration_count, g.measured_attenuation_db), (0, None));
    // The volume is not raised above the original.
    assert_eq!(f(g.applied_db), -6.0);
    // Nothing measured: it ends.
    update(&mut g, 2 * end, None, 10.0, 0);
    assert_eq!((g.closed_at, g.measured_attenuation_db), (None, None));
    assert_eq!(f(VolumeGate::measured_attenuation(n(-5.0))), 0.0);
    assert_eq!(f(VolumeGate::measured_attenuation(n(500.0))), 90.0);
}

#[test]
fn it_is_never_pulled_down_less_by_more_than_sixty_db() {
    let mut g = attached();
    update(&mut g, 0, Some(-45.0), 10.0, 0);
    let mut began = 0;
    // 75 dB quieter each time, the first time 45.5 dB less far, then no more than 60.
    for backoff in [45.5, 60.0] {
        update(&mut g, began + CALIBRATION_SETTLE, Some(-120.0), 10.0, 0);
        began += CALIBRATION_END;
        update(&mut g, began, None, 10.0, 0);
        assert_eq!((f(g.backoff_db), g.closed_at), (backoff, Some(began)));
    }
    // There is no room left: what was measured is kept.
    update(&mut g, began + CALIBRATION_SETTLE, Some(-120.0), 10.0, 0);
    update(&mut g, began + CALIBRATION_END, None, 10.0, 0);
    assert_eq!((f(g.backoff_db), g.closed_at), (60.0, None));
    assert_eq!(g.measured_attenuation_db, Some(n(75.0)));
}

#[test]
fn attenuation_is_taken_out_of_the_measurement() {
    let mut g = attached();
    assert_eq!(f(g.attenuation_db(n(0.04), n(9.0))), 0.0);
    assert_eq!(f(g.attenuation_db(n(25.0), n(9.0))), 25.0);
    assert_eq!(f(g.attenuation_db(n(-25.0), n(9.0))), 0.0);
    // -60 before, -91 after, and 25 were wanted.
    update(&mut g, 0, Some(-60.0), 25.0, 0);
    update(&mut g, CALIBRATION_SETTLE, Some(-91.0), 25.0, 0);
    update(&mut g, CALIBRATION_END, None, 25.0, 0);
    assert_eq!(f(g.attenuation_db(n(25.0), n(9.0))), 31.0);
    // The volume went on since it was measured.
    g.apply(n(-20.0), n(11.0));
    assert_eq!(f(g.attenuation_db(n(25.0), n(45.0))), 45.0);
    g.release(n(0.0));
    assert_eq!(f(g.attenuation_db(n(25.0), n(9.0))), 0.0);
}

#[test]
fn letting_go_restores_the_volume() {
    let mut g = attached();
    update(&mut g, 0, Some(-60.0), 25.0, 0);
    assert_eq!(f(g.applied_db), -31.0);
    assert!(g.noted.is_some());
    let (release, next) = g.begin(&id("wasapi:mic"), false, n(25.0));
    assert_eq!(release.unwrap().write.map(f), Some(-6.0));
    assert!(matches!(next, Next::Stop));
    assert!(g.is_open() && !g.attached && g.noted.is_none());
    assert!(g.release(n(0.0)).is_none());
    // Another microphone.
    let mut h = attached();
    let (release, next) = h.begin(&id("wasapi:other"), true, n(0.0));
    assert!(release.unwrap().write.is_none());
    assert!(matches!(next, Next::Attach(e) if e == "other"));
    assert!(!h.attach(None));
    // One that is not from this audio system has no volume.
    let (_, next) = h.begin(&id("alsa:x"), true, n(0.0));
    assert!(matches!(next, Next::Stop));
    assert!(!h.attach(Some((n(-96.0), n(0.0), n(-3.0)))));
    let mut same = attached();
    let (release, next) = same.begin(&id("wasapi:mic"), true, n(0.0));
    assert!(release.is_none() && matches!(next, Next::Go));
}

#[test]
fn a_volume_moved_by_hand_is_the_new_original() {
    let mut g = attached();
    let mut w = World::new();
    let at = |db: f32| Wanted { volume: Some(db), ..GATE };
    assert!(!g.looks(true, RESYNC_INTERVAL - 1) && g.looks(true, RESYNC_INTERVAL));
    w.picture(&mut g, RESYNC_INTERVAL - 1, None, at(-12.0));
    assert_eq!(f(g.original_db), -6.0);
    // Half a dB does not matter.
    w.picture(&mut g, RESYNC_INTERVAL, None, at(-6.4));
    assert_eq!((f(g.original_db), g.last_resync), (-6.0, RESYNC_INTERVAL));
    w.picture(&mut g, 2 * RESYNC_INTERVAL, None, at(-12.0));
    assert_eq!((f(g.original_db), f(g.applied_db)), (-12.0, -12.0));
    // It could not be read.
    w.picture(&mut g, 3 * RESYNC_INTERVAL, None, GATE);
    assert_eq!((f(g.original_db), g.last_resync), (-12.0, 3 * RESYNC_INTERVAL));
    // Closed it is not looked at, unless the noise gate is turned off.
    w.picture(&mut g, 3 * RESYNC_INTERVAL, Some(-60.0), GATE);
    assert!(!g.is_open() && !g.looks(true, 9 * RESYNC_INTERVAL) && g.looks(false, 9 * RESYNC_INTERVAL));
    w.picture(&mut g, 9 * RESYNC_INTERVAL, None, at(-1.0));
    assert_eq!(f(g.original_db), -12.0);
    // Never below the lowest volume.
    assert_eq!(f(g.target_db(n(-200.0))), -96.0);
    assert!(g.apply(n(-12.0), n(0.04)).db.is_none());
}

#[test]
fn the_note_follows_a_volume_moved_by_hand_while_the_fader_moves_it() {
    let mut g = attached();
    let mut w = World::new();
    let fader = Wanted { gating: false, fader: 3.0, ..GATE };
    assert_eq!(w.picture(&mut g, 0, None, fader), Some(-3.0));
    assert_eq!(w.note, Some(("mic".to_string(), -6.0)));
    // With the fader 3 dB up, the original is 3 dB less than where it was moved to.
    assert_eq!(w.picture(&mut g, RESYNC_INTERVAL, None, Wanted { volume: Some(-20.0), ..fader }), None);
    assert_eq!((f(g.original_db), f(g.applied_db), f(g.base_db())), (-23.0, -20.0, -20.0));
    assert_eq!(w.note, Some(("mic".to_string(), -23.0)));
    // By the slider of the program it is the same.
    w.keep(g.take_level(n(-10.0), n(-13.0)));
    w.check(&g);
    assert_eq!(w.note, Some(("mic".to_string(), -13.0)));
    // Said once, it is not said again.
    assert!(g.take_level(n(-10.0), n(-13.0)).is_none());
    // The fader back at 0: the volume goes back, and then the note goes.
    assert_eq!(w.picture(&mut g, RESYNC_INTERVAL + 1, None, Wanted { fader: 0.0, ..fader }), Some(-13.0));
    assert_eq!(w.note, None);
}

#[test]
fn the_note_stays_until_the_volume_stands_where_it_was() {
    let mut g = attached();
    let mut w = World::new();
    w.picture(&mut g, 0, Some(-60.0), GATE);
    assert_eq!((w.written, &w.note), (Some(-31.0), &Some(("mic".to_string(), -6.0))));
    // A hand at the slider while it is closed: from there it goes down again.
    w.keep(g.take_level(n(-8.0), n(-8.0)));
    w.check(&g);
    assert_eq!(w.note, Some(("mic".to_string(), -8.0)));
    assert_eq!(w.picture(&mut g, 10, None, GATE), Some(-33.0));
    assert_eq!(w.picture(&mut g, 20, Some(-20.0), GATE), Some(-8.0));
    assert_eq!(w.note, None);
}

#[test]
fn a_stuck_gate_is_raised_for_a_moment_and_measured_anew() {
    let mut g = attached();
    assert_eq!(update(&mut g, 0, Some(-60.0), 25.0, 0), Some(-31.0));
    // It lowers by 80 dB instead of 25: nothing is heard any more.
    let closed = 10;
    update(&mut g, CALIBRATION_END, None, 25.0, 0);
    assert_eq!(update(&mut g, STUCK_AFTER - closed, Some(-140.0), 25.0, 0), None);
    assert!(!g.peeking);
    assert_eq!(update(&mut g, STUCK_AFTER, Some(-140.0), 25.0, 0), Some(-6.0));
    assert!(g.peeking && !g.is_open() && g.noted.is_some());
    assert_eq!((g.closed_at, g.closed_since), (Some(STUCK_AFTER), Some(STUCK_AFTER)));
    assert_eq!(g.measured_attenuation_db, None);
    // With the volume raised the level is measured.
    assert_eq!(update(&mut g, STUCK_AFTER + CALIBRATION_SETTLE, Some(-55.0), 25.0, 0), None);
    assert_eq!(g.calibration_count, 1);
    // Then it goes down again.
    let down = STUCK_AFTER + CALIBRATION_END;
    assert_eq!(update(&mut g, down, Some(-55.0), 25.0, 0), Some(-31.0));
    assert!(!g.peeking && !g.is_open());
    assert_eq!((f(g.before_close_db), g.closed_at, g.calibration_count), (-55.0, Some(down), 0));
    // Nothing else happens until it has been 4 s again; no level at all is as good as a low one.
    update(&mut g, 2 * STUCK_AFTER - 1, None, 25.0, 0);
    assert!(!g.peeking);
    update(&mut g, 2 * STUCK_AFTER, None, 25.0, 0);
    assert!(g.peeking);
    // A voice in that moment opens it.
    update(&mut g, 2 * STUCK_AFTER + 1, Some(-20.0), 25.0, 0);
    assert!(g.is_open() && !g.peeking && g.closed_since.is_none());
}

#[test]
fn the_lowering_slides_three_db_for_each_db() {
    let mut g = attached();
    // 5 dB below the threshold: 15 dB.
    assert_eq!(update(&mut g, 0, Some(-45.0), 40.0, 0), Some(-21.0));
    assert_eq!(f(g.reduction_db), 15.0);
    // It stands still while it is measured.
    update(&mut g, CALIBRATION_SETTLE, Some(-65.0), 40.0, 0);
    assert_eq!(f(g.reduction_db), 15.0);
    update(&mut g, CALIBRATION_END, None, 40.0, 0);
    assert_eq!(f(g.measured_attenuation_db.unwrap()), 20.0);
    // -67 with 20 dB lowered is -47: 21 dB.
    assert_eq!(update(&mut g, CALIBRATION_END + 10, Some(-67.0), 40.0, 0), Some(-27.0));
    // Never more than the range.
    update(&mut g, CALIBRATION_END + 20, Some(-119.0), 40.0, 0);
    assert_eq!(f(g.reduction_db), 40.0);
}

#[test]
fn the_fader_moves_the_volume_and_the_gate_lowers_from_there() {
    assert!(VolumeGate::wanted(true, n(0.0)) && VolumeGate::wanted(false, n(-3.0)));
    assert!(!VolumeGate::wanted(false, n(0.0)) && !VolumeGate::wanted(false, n(-0.0)));
    let mut g = attached();
    let mut w = World::new();
    let fader = Wanted { gating: false, fader: -10.0, ..GATE };
    assert_eq!(w.picture(&mut g, 0, Some(-60.0), fader), Some(-16.0));
    assert!(g.is_open() && !g.loses());
    assert_eq!(w.picture(&mut g, 10, Some(-60.0), Wanted { gating: true, ..fader }), Some(-41.0));
    assert!(!g.is_open());
    assert_eq!(w.picture(&mut g, 20, Some(-85.0), fader), Some(-16.0));
    assert!(g.is_open());
    // More than there is.
    assert_eq!(w.picture(&mut g, 30, None, Wanted { fader: 30.0, ..fader }), Some(12.0));
    assert_eq!((f(g.base_db()), g.loses()), (12.0, true));
    let release = g.release(n(18.0)).unwrap();
    assert_eq!(release.write.map(f), Some(-6.0));
    assert!(g.noted.is_none());
}

#[test]
fn the_microphone_is_muted_by_its_volume() {
    let mut m = MuteSwitch::new();
    assert!(matches!(m.update(&id("wasapi:mic"), false), MuteChange::Keep));
    assert!(matches!(m.update(&id("wasapi:mic"), true), MuteChange::Change(Some(e)) if e == "mic"));
    // It could not be opened: it is tried again.
    assert!(matches!(m.update(&id("wasapi:mic"), true), MuteChange::Change(Some(_))));
    m.muted("mic".to_string());
    assert!(matches!(m.update(&id("wasapi:mic"), true), MuteChange::Keep));
    assert!(matches!(m.update(&id("wasapi:other"), true), MuteChange::Change(Some(e)) if e == "other"));
    m.muted("other".to_string());
    assert!(matches!(m.update(&None, true), MuteChange::Change(None)));
    assert!(!m.release());
    m.muted("mic".to_string());
    assert!(m.release());
}

#[test]
fn a_level_set_by_hand_is_where_gate_and_fader_start() {
    let mut g = attached();
    assert!(g.take_level(n(-10.0), n(-10.0)).is_none());
    assert_eq!((f(g.original_db), f(g.applied_db), f(g.target_db(n(-50.0)))), (-10.0, -10.0, -10.0));
    let mut w = World::new();
    w.picture(&mut g, 0, None, Wanted { fader: 4.0, ..GATE });
    assert_eq!(f(g.applied_db), -6.0);
    let note = g.take_level(n(-20.0), n(-24.0));
    assert!(matches!(note, Some(NoteChange::Keep(l)) if l.endpoint_id == "mic" && f(l.original_db) == -24.0));
    assert_eq!((f(g.original_db), f(g.base_db())), (-24.0, -20.0));
}
