use laermampel::apo::{class_object, clsid_text, plan, ClassAnswer, Format, Plan, APO_CLSID, FLOAT_FORMAT};
use laermampel::apo_link::{ApoLink, ALIVE_TIMEOUT, RETRY_INTERVAL};
use laermampel::dsp::Settings;
use laermampel::shared::{mapping_name, Feedback, SharedBool, SharedF32, SharedParams, MAGIC, VERSION};
use laermampel::single::Single;

fn n(x: f32) -> Single {
    Single { bits: x.to_bits() }
}

fn f(x: Single) -> f32 {
    f32::from_bits(x.bits)
}

fn empty() -> SharedParams {
    let (w, b) = (SharedF32 { word: 0 }, SharedBool { word: 0 });
    SharedParams {
        magic: 0,
        version: 0,
        gate_enabled: b,
        gate_threshold_db: w,
        gate_range_db: w,
        gate_attack_ms: w,
        gate_hold_ms: w,
        gate_release_ms: w,
        comp_enabled: b,
        comp_target_db: w,
        comp_max_gain_db: w,
        comp_max_cut_db: w,
        comp_attack_ms: w,
        comp_release_ms: w,
        comp_pause_db: w,
        fader_db: w,
        muted: b,
        ceiling_db: w,
        heartbeat: 0,
        input_level_db: w,
        out_level_db: w,
        out_peak_db: w,
        gate_open: b,
        gate_level_db: w,
        comp_gain_db: w,
    }
}

#[test]
fn fresh_memory_is_set_up_once() {
    assert_eq!(MAGIC, u32::from_le_bytes(*b"LAPO"));
    let mut p = empty();
    assert!(!p.is_valid());
    p.init();
    assert!(p.is_valid());
    assert_eq!(p.version(), VERSION);
    assert_eq!(p.settings(), Settings::default());
    let back = p.feedback();
    assert_eq!((f(back.input_level_db), f(back.out_level_db), f(back.out_peak_db)), (-120.0, -120.0, -120.0));
    let mut s = Settings::default();
    s.muted = true;
    p.set_settings(&s);
    p.init();
    assert!(p.settings().muted, "memory that is set up stays as it is");
    assert_eq!(mapping_name(), "Global\\Laermampel.Apo");
}

#[test]
fn settings_and_feedback_come_across() {
    let mut p = empty();
    p.init();
    let mut s = Settings::default();
    s.gate.enabled = true;
    s.gate.threshold_db = n(-42.5);
    s.comp.enabled = true;
    s.comp.pause_db = n(-55.0);
    s.fader_db = n(3.0);
    s.ceiling_db = n(-1.0);
    p.set_settings(&s);
    assert_eq!(p.settings(), s);
    // The noise filter does not go across.
    s.denoise = true;
    p.set_settings(&s);
    assert!(!p.settings().denoise);
    let back = Feedback {
        input_level_db: n(-20.0),
        out_level_db: n(-21.0),
        out_peak_db: n(-3.0),
        gate_open: true,
        gate_level_db: n(-40.0),
        comp_gain_db: n(6.0),
    };
    p.set_feedback(&back);
    assert_eq!(p.feedback(), back);
    assert!(p.settings().gate.enabled);
    // Anything but zero is true.
    p.muted.word = 7;
    assert!(p.settings().muted);
}

#[test]
fn the_heartbeat_wraps() {
    let mut p = empty();
    p.beat();
    assert_eq!(p.heartbeat(), 1);
    p.heartbeat = u32::MAX;
    p.beat();
    assert_eq!(p.heartbeat(), 0);
}

#[test]
fn the_link_looks_once_in_a_second() {
    let mut l = ApoLink::new();
    assert!(l.tick(5));
    assert!(!l.tick(6));
    assert!(!l.found(true, VERSION + 1));
    assert!(!l.found(false, VERSION));
    assert!(!l.tick(5 + RETRY_INTERVAL - 1));
    assert!(l.tick(5 + RETRY_INTERVAL));
    assert!(l.found(true, VERSION));
    assert!(!l.tick(100 * RETRY_INTERVAL));
}

#[test]
fn a_standing_heartbeat_is_not_alive() {
    let mut l = ApoLink::new();
    l.heard(3, 10);
    assert!(!l.active(10), "not connected");
    l.found(true, VERSION);
    l.heard(3, 10);
    assert!(l.active(10));
    assert_eq!(l.input_level_db(10, n(-30.0)), Some(n(-30.0)));
    l.heard(3, 20);
    assert!(l.active(10 + ALIVE_TIMEOUT - 1));
    assert!(!l.active(10 + ALIVE_TIMEOUT));
    assert_eq!(l.input_level_db(10 + ALIVE_TIMEOUT, n(-30.0)), None);
}

#[test]
fn only_floating_point_is_processed() {
    let mut format = Format::new();
    assert_eq!(format, Format { channels: 1, bytes_per_sample: 4, is_float: false });
    format.lock(2, 4, FLOAT_FORMAT);
    let expected = Plan { copy: Some(480 * 8), beat: true, process: true };
    assert_eq!(plan(&format, 480, false, true, true, true), expected);
    assert_eq!(plan(&format, 480, true, true, true, true), Plan { copy: None, ..expected });
    assert_eq!(plan(&format, 480, false, false, true, true), Plan { beat: false, process: false, ..expected });
    assert_eq!(plan(&format, 480, false, true, false, true), Plan { process: false, ..expected });
    assert_eq!(plan(&format, 480, false, true, true, false), Plan { process: false, ..expected });
    assert_eq!(plan(&format, 0, false, true, true, true), Plan { copy: None, process: false, ..expected });
    format.lock(0, 0, FLOAT_FORMAT);
    assert_eq!(format, Format { channels: 1, bytes_per_sample: 1, is_float: false });
    format.lock(1, 4, 1);
    assert!(!format.is_float);
    assert_eq!(f(Format::chain_rate(n(44_100.0))), 44_100.0);
    assert_eq!(f(Format::chain_rate(n(0.0))), 8000.0);
}

#[test]
fn the_class_is_known_by_its_id() {
    assert_eq!(class_object(false, APO_CLSID), ClassAnswer::NullPointer);
    assert_eq!(class_object(true, 1), ClassAnswer::NotAvailable);
    assert_eq!(class_object(true, APO_CLSID), ClassAnswer::Factory);
    assert_eq!(clsid_text(), "{6B2F3C1E-8D4A-4F5B-9C2E-7A1D0E5F3B40}");
}
