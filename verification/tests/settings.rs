use laermampel::settings::{DenoiseLevel, DisplayMode, Settings};
use laermampel::single::Single;
use serde_json::{Number, Value};

fn n(x: f32) -> Single {
    Single { bits: x.to_bits() }
}

fn f(x: Single) -> f32 {
    f32::from_bits(x.bits)
}

/// The numbers of the settings by name.
fn numbers(s: &Settings) -> Vec<(&'static str, f32)> {
    vec![
        ("yellow_db", f(s.yellow_db)),
        ("red_db", f(s.red_db)),
        ("attack_ms", f(s.attack_ms)),
        ("release_ms", f(s.release_ms)),
        ("hold_ms", f(s.hold_ms)),
        ("brightness", f(s.brightness)),
        ("green_brightness", f(s.green_brightness)),
        ("opacity", f(s.opacity)),
        ("margin", f(s.margin)),
        ("dot_size", f(s.dot_size)),
        ("bar_width", f(s.bar_width)),
        ("bar_min_db", f(s.bar_min_db)),
        ("beep_volume", f(s.beep_volume)),
        ("gate_threshold_db", f(s.gate_threshold_db)),
        ("comp_knob", f(s.comp_knob)),
        ("fader_db", f(s.fader_db)),
        ("gate_range_db", f(s.gate_range_db)),
        ("gate_attack_ms", f(s.gate_attack_ms)),
        ("gate_hold_ms", f(s.gate_hold_ms)),
        ("gate_release_ms", f(s.gate_release_ms)),
        ("buffer_ms", f(s.buffer_ms)),
        ("agc_target_db", f(s.agc_target_db)),
        ("agc_attack_ms", f(s.agc_attack_ms)),
        ("agc_release_ms", f(s.agc_release_ms)),
        ("agc_gate_db", f(s.agc_gate_db)),
        ("agc_ceiling_db", f(s.agc_ceiling_db)),
    ]
}

/// A number that is no real one becomes `null`, as in the settings file.
fn json(s: &Settings) -> String {
    let mut map = serde_json::Map::new();
    for (name, x) in numbers(s) {
        map.insert(name.to_string(), Number::from_f64(x as f64).map_or(Value::Null, Value::Number));
    }
    serde_json::to_string(&Value::Object(map)).unwrap()
}

#[test]
fn kaputte_zahlen_kosten_nicht_alle_einstellungen() {
    let mut settings =
        Settings { dot_size: n(f32::NAN), fader_db: n(f32::INFINITY), margin: n(42.0), ..Settings::default() };
    settings.noise_profile = Some(vec![n(-80.0), n(f32::NAN)]);

    settings.repair();

    assert_eq!(f(settings.dot_size), f(Settings::default().dot_size));
    assert_eq!(f(settings.fader_db), f(Settings::default().fader_db));
    assert_eq!(f(settings.margin), 42.0, "gute Werte bleiben stehen");
    assert!(settings.noise_profile.is_none(), "kaputtes Rauschprofil wird verworfen");

    // Und die Datei lässt sich danach wieder einlesen.
    let wieder: Value = serde_json::from_str(&json(&settings)).unwrap();
    assert!(numbers(&settings).iter().all(|(name, _)| wieder[*name].is_f64()));
    assert_eq!(wieder["margin"].as_f64().unwrap() as f32, 42.0);
}

#[test]
fn starting_values() {
    let s = Settings::default();
    let expected = [
        -24.0, -18.0, 20.0, 400.0, 1500.0, 0.9, 0.25, 1.0, 12.0, 20.0, 240.0, -60.0, 0.3, -100.0, 0.0, 0.0, 25.0, 2.0, 250.0,
        150.0, 30.0, -20.0, 40.0, 1500.0, -50.0, 0.0,
    ];
    let got: Vec<f32> = numbers(&s).iter().map(|(_, x)| *x).collect();
    assert_eq!(got, expected);
    assert!(s.device_id.is_none() && s.agc_output_id.is_none() && s.noise_profile.is_none());
    assert!(!s.beep_enabled && !s.mic_muted && !s.output_off && !s.denoise);
    assert_eq!(s.display, DisplayMode::Dot);
    assert_eq!(s.denoise_level, DenoiseLevel::Medium);
    assert_eq!(s.monitor, 0);
}

#[test]
fn repair_mends_every_number_and_keeps_good_ones() {
    for broken in [f32::NAN, f32::INFINITY, f32::NEG_INFINITY] {
        let mut s = Settings {
            yellow_db: n(broken),
            red_db: n(broken),
            attack_ms: n(broken),
            release_ms: n(broken),
            hold_ms: n(broken),
            brightness: n(broken),
            green_brightness: n(broken),
            opacity: n(broken),
            margin: n(broken),
            dot_size: n(broken),
            bar_width: n(broken),
            bar_min_db: n(broken),
            beep_volume: n(broken),
            gate_threshold_db: n(broken),
            comp_knob: n(broken),
            fader_db: n(broken),
            gate_range_db: n(broken),
            gate_attack_ms: n(broken),
            gate_hold_ms: n(broken),
            gate_release_ms: n(broken),
            buffer_ms: n(broken),
            agc_target_db: n(broken),
            agc_attack_ms: n(broken),
            agc_release_ms: n(broken),
            agc_gate_db: n(broken),
            agc_ceiling_db: n(broken),
            ..Settings::default()
        };
        s.repair();
        assert_eq!(numbers(&s), numbers(&Settings::default()));
    }
    let mut good = Settings::default();
    good.red_db = n(-3.5);
    good.noise_profile = Some(vec![n(-80.0); 4]);
    let mut again = good.clone();
    again.repair();
    assert!(again.same(&good));
    assert_eq!(again.noise_profile.unwrap().len(), 4);
}

#[test]
fn settings_compare_field_by_field() {
    let a = Settings::default();
    let mut b = Settings::default();
    assert!(a.same(&b));
    b.fader_db = n(-0.0);
    assert!(a.same(&b));
    b.device_id = Some("x".to_string());
    assert!(!a.same(&b));
    let mut c = Settings::default();
    c.noise_profile = Some(vec![n(-80.0)]);
    assert!(!a.same(&c));
    let mut d = c.clone();
    assert!(c.same(&d));
    d.noise_profile = Some(vec![n(-81.0)]);
    assert!(!c.same(&d));
    let mut e = Settings::default();
    e.opacity = n(f32::NAN);
    assert!(!e.same(&e.clone()));
}

#[test]
fn filter_levels() {
    let all = DenoiseLevel::all();
    assert_eq!(all.map(|l| l.label()), ["Leicht", "Medium", "Stark"]);
    assert_eq!(all.map(|l| f(l.dry())), [0.32, 0.1, 0.0]);
    assert_eq!(all.map(|l| f(l.duck_db())), [0.0, 18.0, 40.0]);
    assert!(DenoiseLevel::Leicht.hint().starts_with("Filtert nur, senkt höchstens 10 dB ab. Klingt am natürlichsten, lässt"));
    assert!(DenoiseLevel::Medium.hint().contains("18 dB leiser. Guter Mittelweg"));
    assert!(DenoiseLevel::Stark.hint().ends_with("kann bei sehr leiser Stimme den Anfang eines Wortes streifen."));
}
