use laermampel::app::{
    act, autostart_set, bar_floor_db, chain_settings, comp_on, denoise_active, diagram_wanted, gate_on, indicator,
    indicator_opacity, indicator_size, job_done, keep_output, keep_profile, leftover_shown, leftover_stale, on_red, other_error,
    output_stays, pick_microphone, preview_end, rate_48k, route, save_due, shown_zone, slider_done, started_message, zone_brightness, zone_rgb, ApoJob, Drawing, Effect,
    LogOnce, Microphone, Placing, Windows, LEFTOVER_INTERVAL, MONITOR_SCAN_INTERVAL, PREVIEW_DURATION, REASSERT_INTERVAL,
    RETRY_INTERVAL, SAVE_INTERVAL,
};
use laermampel::audio::{missing_device, no_device, InputDevice};
use laermampel::level::Zone;
use laermampel::panel::{
    click_denoise, echo_hint, fader_hint, EchoFigures,
    automatic_chosen, band_drawn, choice, choice_text, comp_hint, denoise_chosen, details_open, device_label, diagram_top_hz,
    find_device, gate_hint, grid_drawn, latency_details, monitor_text, needs_cable, noise_hint, output_chosen, output_note,
    output_text, pick_denoise, pick_output, position_text, profile_text, reading, red_text, strip_view, update_available,
    version_view, voice_level, warning, Choice, Delay, OutputNote, OutputPick, VersionButton, Warning,
};
use laermampel::placement::{Monitor, PhysicalRect};
use laermampel::settings::{DenoiseLevel, DisplayMode, Settings};
use laermampel::shared::Feedback;
use laermampel::single::Single;
use laermampel::strip::{
    active_line, drag_code, knob_text, land, limit_label, limit_shown, line_at, meter_hint, segment_colour, segment_lit,
    start_from, take_over, title_background, toggle, turn, wheel_counts, Background, Colour, Lines, MeterLine, TitleIcon,
};
use laermampel::tray::{icon_rgb, in_ring, Menu, TrayAction, TrayState};
use laermampel::updater::{release_of, Status};

fn n(x: f32) -> Single {
    Single { bits: x.to_bits() }
}

fn f(x: Single) -> f32 {
    f32::from_bits(x.bits)
}

fn some(s: &str) -> Option<String> {
    Some(s.to_string())
}

#[test]
fn colours_of_the_traffic_light() {
    assert_eq!(zone_rgb(Zone::Green), [40, 200, 90]);
    assert_eq!(zone_rgb(Zone::Yellow), [245, 190, 20]);
    assert_eq!(zone_rgb(Zone::Red), [235, 45, 45]);
    assert_eq!(icon_rgb(Zone::Red, false), [235, 45, 45]);
    assert_eq!(icon_rgb(Zone::Red, true), [120, 120, 126]);
    assert!(in_ring(true, n(10.5)) && !in_ring(true, n(10.0)) && !in_ring(false, n(13.0)));
}

#[test]
fn the_symbol_is_drawn_only_when_it_changes() {
    let mut t = TrayState::new();
    assert!(!t.set_state(Zone::Green, false));
    assert!(t.set_state(Zone::Red, false));
    assert!(t.set_state(Zone::Red, true));
    assert!(!t.set_state(Zone::Red, true));
    let menu = Menu { settings_id: "1".to_string(), mute_id: "2".to_string(), quit_id: "3".to_string() };
    let ids = ["3", "9", "2", "1"].map(|s| s.to_string()).to_vec();
    assert_eq!(
        menu.poll(&ids, 2),
        [
            TrayAction::Quit,
            TrayAction::ToggleMute,
            TrayAction::OpenSettings,
            TrayAction::OpenSettings,
            TrayAction::OpenSettings
        ]
    );
}

#[test]
fn knobs_at_their_left_end_are_off() {
    let mut s = Settings::default();
    assert!(!gate_on(&s) && !comp_on(&s));
    s.gate_threshold_db = n(-99.5);
    s.comp_knob = n(0.05);
    assert!(!gate_on(&s) && !comp_on(&s));
    s.gate_threshold_db = n(-99.0);
    s.comp_knob = n(0.1);
    assert!(gate_on(&s) && comp_on(&s));
}

#[test]
fn the_chain_gets_what_the_surface_says() {
    let mut s = Settings::default();
    s.comp_knob = n(9.0);
    s.denoise = true;
    s.denoise_level = DenoiseLevel::Leicht;
    s.mic_muted = true;
    s.fader_db = n(-3.0);
    let c = chain_settings(&s, n(18.0), Some(48_000));
    assert!(c.denoise && c.muted && c.comp.enabled && !c.gate.enabled);
    assert_eq!((f(c.comp.max_gain_db), f(c.comp.max_cut_db), f(c.denoise_dry), f(c.denoise_duck_db)), (18.0, 18.0, 0.32, 0.0));
    assert_eq!((f(c.fader_db), f(c.gate.threshold_db), f(c.comp.pause_db)), (-3.0, -100.0, -50.0));
    assert!(!chain_settings(&s, n(18.0), Some(44_100)).denoise);
    assert!(denoise_active(&s, None) && rate_48k(None) && !rate_48k(Some(8000)));
}

#[test]
fn what_the_indicator_shows() {
    let mut s = Settings::default();
    assert_eq!(shown_zone(Some(10), 9, Zone::Green), Zone::Red);
    assert_eq!(shown_zone(Some(10), 10, Zone::Green), Zone::Green);
    assert_eq!(preview_end(5), 5 + PREVIEW_DURATION);
    assert_eq!((f(zone_brightness(Zone::Green, &s)), f(zone_brightness(Zone::Yellow, &s))), (0.25, 0.9));
    assert_eq!(indicator_size(&s), (n(20.0), n(20.0)));
    s.display = DisplayMode::Bar;
    assert_eq!(indicator_size(&s), (n(240.0), n(28.0)));
    assert_eq!(f(bar_floor_db(&s)), -60.0);
    s.bar_min_db = n(0.0);
    assert_eq!(f(bar_floor_db(&s)), -10.0);
    s.opacity = n(0.0);
    assert_eq!(f(indicator_opacity(&s)), 0.05);
    assert_eq!(indicator(DisplayMode::Dot, false, n(0.01)), Drawing::Nothing);
    assert_eq!(indicator(DisplayMode::Dot, true, n(0.0)), Drawing::MutedDot);
    assert_eq!(indicator(DisplayMode::Bar, true, n(0.0)), Drawing::MutedBar);
    assert_eq!(indicator(DisplayMode::Bar, false, n(0.02)), Drawing::Bar);
    assert_eq!(indicator(DisplayMode::Dot, false, n(0.02)), Drawing::Dot);
}

#[test]
fn windows_close_together() {
    let mut w = Windows::new(true);
    assert!(!w.settings);
    assert!(Windows::new(false).settings);
    w.open_settings();
    assert!(w.take_focus() && !w.take_focus());
    assert!(w.draw() && !w.draw());
    assert!(w.click_noise(true) && !w.click_noise(false) && w.noise && !w.click_noise(true) && !w.noise);
    w.display = true;
    w.general = true;
    assert!(!w.close_settings(true));
    assert!(!w.settings && !w.display && !w.general && !w.noise && !w.seen);
    assert!(w.close_settings(false), "without a symbol the program ends");
    let mut muted = false;
    assert_eq!(act(TrayAction::ToggleMute, &mut w, &mut muted), Effect::Nothing);
    assert!(muted && !w.settings);
    assert_eq!(act(TrayAction::OpenSettings, &mut w, &mut muted), Effect::SettingsOpened);
    assert!(w.settings && w.focus);
    assert_eq!(act(TrayAction::Quit, &mut w, &mut muted), Effect::Quit);
}

#[test]
fn the_window_is_moved_when_it_has_to() {
    let mut p = Placing::new(0);
    let r = PhysicalRect { x: 1, y: 2, w: 3, h: 4 };
    assert!(!p.place(None, 5));
    assert!(p.place(Some(r), 5));
    assert!(!p.place(Some(r), 6));
    assert!(p.place(Some(PhysicalRect { x: 9, ..r }), 7));
    assert!(p.place(Some(PhysicalRect { x: 9, ..r }), 7 + REASSERT_INTERVAL));
    assert!(!p.scan_due(MONITOR_SCAN_INTERVAL - 1));
    assert!(p.scan_due(MONITOR_SCAN_INTERVAL));
    assert_eq!(position_text(p.applied), "Position 9, 2 · 3×4 px");
    assert_eq!(position_text(None), "Kein Monitor gefunden");
}

#[test]
fn a_lost_microphone_is_tried_again() {
    let mut m = Microphone::new(0);
    assert!(!m.restart(false, 1));
    assert_eq!(m.error.as_deref(), Some(no_device()));
    assert!(m.restart(true, 2));
    m.opened(Err("belegt".to_string()));
    assert_eq!(m.error.as_deref(), Some("belegt"));
    assert!(!m.retry_due(1 + RETRY_INTERVAL) && m.retry_due(2 + RETRY_INTERVAL));
    assert_eq!(m.level_or_silence(None), Some(n(-100.0)));
    m.opened(Ok(()));
    assert!(m.open && m.error.is_none() && !m.retry_due(u64::MAX));
    assert_eq!(m.level_or_silence(None), None);
    assert_eq!(m.level_or_silence(Some(n(-3.0))), Some(n(-3.0)));
    m.failed("Gerät weg.");
    assert_eq!(m.error.as_deref(), Some("Gerät weg. Verbinde neu …"));
    assert!(!m.open);
    assert_eq!(started_message("Headset", "CABLE Input"), "Mikrofon läuft: Headset · Ausgabe: CABLE Input");
    let mut log = LogOnce { last: None };
    assert!(log.is_new("a") && !log.is_new("a") && log.is_new("b") && log.is_new("a"));
    assert_eq!(other_error(&some("belegt"), false), some("belegt"));
    assert_eq!(other_error(&some("belegt"), true), None);
    assert_eq!(other_error(&some(no_device()), false), None);
    assert_eq!(other_error(&some(missing_device()), false), None);
}

#[test]
fn red_counts_and_beeps_unless_muted() {
    let mut s = Settings::default();
    let mut count = 0;
    assert!(!on_red(&mut count, true, &s));
    assert_eq!(count, 1);
    s.beep_enabled = true;
    assert!(on_red(&mut count, true, &s));
    assert!(!on_red(&mut count, false, &s));
    s.mic_muted = true;
    assert!(!on_red(&mut count, true, &s));
    assert_eq!(count, 2);
    assert_eq!(red_text(count), "Rot seit Programmstart: 2×");
    let r = route(&s, false);
    assert!(!r.gate && r.mute);
    s.fader_db = n(4.0);
    s.gate_threshold_db = n(-40.0);
    let r = route(&s, false);
    assert!(r.gate && f(r.fader_db) == 4.0);
    let r = route(&s, true);
    assert!(!r.gate && !r.mute && f(r.fader_db) == 0.0);
    assert!(diagram_wanted(false, true) && diagram_wanted(true, false) && !diagram_wanted(false, false));
}

#[test]
fn settings_are_saved_when_they_changed() {
    let saved = Settings::default();
    let mut s = Settings::default();
    assert!(!save_due(&s, &saved, 0, 10 * SAVE_INTERVAL));
    s.mic_muted = true;
    assert!(!save_due(&s, &saved, 0, SAVE_INTERVAL - 1));
    assert!(save_due(&s, &saved, 0, SAVE_INTERVAL));
    assert!(keep_output(None) && keep_output(Some(true)) && !keep_output(Some(false)));
    assert!(slider_done(true, false, false) && slider_done(false, true, false) && !slider_done(false, true, true));
    assert_eq!(autostart_set(true, false, Ok(())), (true, None));
    assert_eq!(autostart_set(true, false, Err("x".to_string())), (false, some("x")));
}

#[test]
fn an_old_filter_is_shown_while_it_is_there() {
    assert!(leftover_stale(None, 0));
    assert!(!leftover_stale(Some((true, 0)), LEFTOVER_INTERVAL) && leftover_stale(Some((true, 0)), LEFTOVER_INTERVAL + 1));
    assert!(leftover_shown(true, &ApoJob::Idle) && !leftover_shown(false, &ApoJob::Idle));
    assert!(leftover_shown(false, &ApoJob::Running("…".to_string())));
    assert!(matches!(job_done(Ok(())), ApoJob::Idle));
    assert!(matches!(job_done(Err("x".to_string())), ApoJob::Failed(e) if e == "x"));
}

fn devices() -> Vec<InputDevice> {
    [("a", "Headset"), ("b", "CABLE Output")]
        .map(|(id, name)| InputDevice { id: id.to_string(), name: name.to_string() })
        .into_iter()
        .collect()
}

#[test]
fn the_choice_of_the_microphone() {
    let d = devices();
    assert_eq!(find_device(&d, "b"), Some(1));
    assert_eq!(choice(&None, &d), Choice::Unset);
    assert_eq!(choice(&some("x"), &d), Choice::Missing);
    assert_eq!(choice(&some("a"), &d), Choice::Device(0));
    assert_eq!(choice_text(Choice::Device(0), &d), "Headset ▾");
    assert_eq!(choice_text(Choice::Unset, &d), "Kein Mikrofon ausgewählt ▾");
    assert_eq!(choice_text(Choice::Missing, &d), "Mikrofon nicht angeschlossen ▾");
    assert_eq!(device_label(&d[0]), "Headset");
    assert_eq!(device_label(&d[1]), "CABLE Output (virtuell)");
}

#[test]
fn the_meter_shows_what_is_left() {
    let mut s = Settings::default();
    let mut feedback = Feedback::default();
    feedback.out_level_db = n(-33.0);
    let v = strip_view(&s, n(-20.0), Some(feedback), true);
    assert!(!v.gate_open && !v.volume_gating);
    assert_eq!(v.meter_db, Some(n(-33.0)));
    assert_eq!(strip_view(&s, n(-20.0), None, true).meter_db, Some(n(-20.0)));
    s.gate_threshold_db = n(-40.0);
    let v = strip_view(&s, n(-20.0), None, true);
    assert!(v.gate_open && v.volume_gating);
    assert_eq!(v.meter_db, None);
    assert!(!strip_view(&s, n(-20.0), Some(feedback), true).gate_open);
    s.mic_muted = true;
    assert_eq!(strip_view(&s, n(-20.0), Some(feedback), true).meter_db, Some(n(-20.0)));
    assert_eq!((f(voice_level(true, n(-5.0))), f(voice_level(false, n(-5.0)))), (-5.0, -120.0));
}

#[test]
fn settings_without_effect_are_named() {
    let mut s = Settings::default();
    assert!(needs_cable(&s, true).is_empty());
    s.comp_knob = n(3.0);
    assert_eq!(needs_cable(&s, true), ["Comp."]);
    let one = needs_cable(&s, true);
    assert!(matches!(warning(&one, false, false, &None), Warning::NoEffect(t) if t == "⚠ Comp. wirkt nur mit VB-Cable"));
    s.agc_ceiling_db = n(-3.0);
    s.denoise = true;
    let all = needs_cable(&s, true);
    assert_eq!(all, ["Comp.", "Limiter", "Rauschfilter"]);
    assert_eq!(needs_cable(&s, false), ["Comp.", "Limiter"]);
    assert!(matches!(warning(&all, false, true, &None),
        Warning::NoEffect(t) if t == "⚠ Comp., Limiter, Rauschfilter wirken erst mit einem Ausgang"));
    assert!(matches!(warning(&all, true, false, &None), Warning::Nothing));
    assert!(matches!(warning(&Vec::new(), false, false, &some("kaputt")), Warning::CheckOutput));
    assert!(matches!(warning(&Vec::new(), false, false, &some("VB-Cable ist nicht installiert.")), Warning::Nothing));
}

#[test]
fn hints_of_the_strip() {
    let mut s = Settings::default();
    assert_eq!(comp_hint(&s, "6", "+1.5"), "Automatische Lautstärke: aus");
    assert_eq!(gate_hint(&s, "-40", "-50"), "Noise Gate: aus (ganz links)");
    s.comp_knob = n(3.0);
    s.gate_threshold_db = n(-40.0);
    assert_eq!(comp_hint(&s, "6", "+1.5"), "Automatische Lautstärke: bis ±6 dB, gerade +1.5 dB");
    assert_eq!(gate_hint(&s, "-40", "-50"), "Noise Gate: Schwelle -40 dB, Mikrofon gerade -50 dB");
    assert_eq!(noise_hint(&s, false), "Öffnet „Rauschen“. Der Filter braucht ein Mikrofon mit 48 kHz.");
    assert_eq!(noise_hint(&s, true), "Öffnet „Rauschen“: Filter einschalten (3 Stufen), Diagramm, Rauschprofil.");
    pick_denoise(&mut s, Some(DenoiseLevel::Stark));
    assert_eq!(noise_hint(&s, true), "Rauschfilter läuft, Stufe Stark. Klick öffnet das Fenster.");
    assert!(denoise_chosen(&s, DenoiseLevel::Stark) && !denoise_chosen(&s, DenoiseLevel::Leicht));
    pick_denoise(&mut s, None);
    assert!(!s.denoise && s.denoise_level == DenoiseLevel::Stark);
    assert_eq!(reading(n(-42.0), "-42", &None), "Pegel -42 dB");
    assert_eq!(reading(n(-99.5), "-100", &some("40")), "Pegel – · 40 ms");
    assert_eq!(latency_details(&None), "Verzögerung entsteht erst mit einem Ausgang (VB-Cable).");
    let t = |s: &str| s.to_string();
    let delay = Some(Delay { total: t("60"), input: t("10"), buffer: t("30"), output: t("10"), filter: t("10") });
    assert_eq!(
        latency_details(&delay),
        "Verzögerung 60 ms: Mikrofon 10 ms + Puffer 30 ms + Ausgabe 10 ms + Rauschfilter 10 ms.\n\
         Kleiner geht über ⚙ → Feineinstellungen → Puffer."
    );
}

#[test]
fn the_choice_of_the_output() {
    let mut s = Settings::default();
    let missing = some("VB-Cable ist nicht installiert.");
    assert!(automatic_chosen(&s));
    assert_eq!(output_text(true, &some("CABLE"), &None), "aus ▾");
    assert_eq!(output_text(false, &some("CABLE"), &None), "CABLE ▾");
    assert_eq!(output_text(false, &None, &missing), "kein virtuelles Gerät ▾");
    assert_eq!(output_text(false, &None, &some("x")), "– ▾");
    pick_output(&mut s, OutputPick::Device("id".to_string()));
    assert!(output_chosen(&s, "id") && !output_chosen(&s, "other") && !automatic_chosen(&s));
    pick_output(&mut s, OutputPick::Off);
    assert!(s.output_off && s.agc_output_id.is_none() && !automatic_chosen(&s));
    pick_output(&mut s, OutputPick::Automatic);
    assert!(automatic_chosen(&s));
    assert!(matches!(output_note(false, &missing), OutputNote::NoCable));
    assert!(matches!(output_note(true, &some("x")), OutputNote::Failed(e) if e == "x"));
    assert!(matches!(output_note(true, &None), OutputNote::Running));
    assert!(matches!(output_note(false, &None), OutputNote::Nothing));
    assert!(details_open(&some("x")) && !details_open(&missing) && !details_open(&None));
}

#[test]
fn the_noise_window() {
    assert_eq!(profile_text(&some("-60"), true), "Gemessenes Rauschen: -60 dB");
    assert_eq!(profile_text(&None, true), "Messe Rauschprofil, bitte nicht sprechen …");
    assert!(profile_text(&None, false).starts_with("Sei kurz still"));
    assert_eq!(f(diagram_top_hz(n(24_000.0))), 20_000.0);
    assert_eq!(f(diagram_top_hz(n(500.0))), 1000.0);
    assert!(band_drawn(n(50.0), n(1000.0)) && !band_drawn(n(49.0), n(1000.0)) && !band_drawn(n(1001.0), n(1000.0)));
    assert!(grid_drawn(n(1000.0), n(1000.0)) && !grid_drawn(n(2000.0), n(1000.0)));
}

#[test]
fn the_version_part() {
    let release = release_of("x/tag/v0.4.1", 0).unwrap();
    let v = version_view(&Status::Idle, true);
    assert!(v.text.is_none() && v.button == Some(VersionButton::Search));
    let v = version_view(&Status::UpToDate, true);
    assert_eq!(v.text.as_deref(), Some("Du hast die neueste Version."));
    let v = version_view(&Status::Failed("x".to_string()), true);
    assert!(v.failed && v.button == Some(VersionButton::Retry) && v.text.as_deref() == Some("x"));
    let v = version_view(&Status::Checking, true);
    assert!(v.busy && v.button.is_none());
    let available = Status::Available(release.copy());
    assert!(update_available(&available) && !update_available(&Status::Idle));
    let v = version_view(&available, true);
    assert_eq!(v.text.as_deref(), Some("Neue Version v0.4.1 verfügbar"));
    assert!(v.link && v.button == Some(VersionButton::Install));
    assert!(version_view(&available, false).button.is_none());
    assert_eq!(version_view(&Status::Installing(release.copy()), true).text.as_deref(), Some("Lade v0.4.1 herunter …"));
    assert_eq!(version_view(&Status::Installed(release), true).text.as_deref(), Some("Installiere v0.4.1 …"));
    let monitors = vec![Monitor { work: [0, 0, 800, 600], scale: n(1.0), primary: true }];
    assert_eq!(monitor_text(&monitors, 0, 0), "Monitor 1 (800×600, Hauptbildschirm)");
    assert_eq!(monitor_text(&monitors, 2, 0), "Monitor 3 (nicht angeschlossen)");
}

#[test]
fn knobs_keep_small_movements() {
    assert_eq!(f(start_from(Some(n(3.4)), n(0.4), n(1.0), n(3.0))), 3.4);
    assert_eq!(f(start_from(Some(n(9.4)), n(6.4), n(1.0), n(3.0))), 3.0);
    assert_eq!(f(start_from(None, n(0.0), n(1.0), n(3.0))), 3.0);
    assert!(wheel_counts(true, true) && !wheel_counts(true, false) && !wheel_counts(false, true));
    assert_eq!(f(turn(n(20.0), false, n(0.0), n(0.0), n(10.0))), 10.0);
    assert_eq!(f(turn(n(7.0), true, n(0.0), n(0.0), n(10.0))), 0.0);
    assert_eq!(land(n(-0.0), n(-60.0), n(12.0)).bits, 0);
    assert_eq!(f(land(n(13.0), n(-60.0), n(12.0))), 12.0);
    let mut value = n(3.0);
    assert!(!take_over(&mut value, n(3.0)) && take_over(&mut value, n(4.0)));
    assert_eq!(f(value), 4.0);
    assert_eq!(knob_text(n(-99.5), n(-99.5), "-100 dB", 0), "aus");
    assert_eq!(knob_text(n(-99.5), n(-99.5), "-100 dB", 1), "off");
    assert_eq!(knob_text(n(-40.0), n(-99.5), "-40 dB", 0), "-40 dB");
}

#[test]
fn the_nearest_line_is_dragged() {
    assert_eq!(line_at(false, n(5.0), n(3.0), n(4.0)), MeterLine::Red);
    assert_eq!(line_at(false, n(2.0), n(3.0), n(4.0)), MeterLine::Yellow);
    assert_eq!(line_at(false, n(5.0), n(5.0), n(4.0)), MeterLine::Limit);
    assert_eq!(line_at(true, n(5.0), n(5.0), n(0.0)), MeterLine::Yellow);
    // The drag keeps the line that it began with.
    for line in [Some(MeterLine::Yellow), Some(MeterLine::Red), Some(MeterLine::Limit), None] {
        assert_eq!(active_line(true, Some(drag_code(line)), Some(MeterLine::Limit)), line);
    }
    assert_eq!(active_line(false, Some(0), Some(MeterLine::Red)), Some(MeterLine::Red));
    assert_eq!(active_line(true, None, Some(MeterLine::Red)), None);
}

#[test]
fn dragged_lines_keep_their_order() {
    let mut l = Lines { yellow: n(-24.0), red: n(-18.0), limit: n(0.0) };
    assert!(l.can_drag(Some(MeterLine::Yellow), Some(n(-50.0))));
    assert!(l.drag(Some(MeterLine::Yellow), Some(n(-5.0)), n(0.0), false));
    assert_eq!(f(l.yellow), -18.0);
    assert!(l.drag(Some(MeterLine::Yellow), Some(n(-130.0)), n(0.0), false));
    assert_eq!(f(l.yellow), -100.0);
    assert!(!l.drag(Some(MeterLine::Yellow), None, n(0.0), false));
    assert!(l.drag(Some(MeterLine::Red), Some(n(5.0)), n(0.0), false));
    assert_eq!(l.red.bits, 0);
    assert!(l.drag(Some(MeterLine::Limit), Some(n(-70.0)), n(0.0), false));
    assert_eq!(f(l.limit), -40.0);
    assert!(!l.drag(Some(MeterLine::Limit), None, n(-40.0), false));
    assert!(l.drag(Some(MeterLine::Limit), Some(n(-30.0)), n(-40.0), true));
    assert_eq!(f(l.limit), 0.0);
    assert!(!l.drag(None, Some(n(-30.0)), n(0.0), true));
    // Red can be dragged only above yellow, and yellow only below red; everything else always.
    let mut odd = Lines { yellow: n(1.0), red: n(2.0), limit: n(0.0) };
    assert!(!odd.can_drag(Some(MeterLine::Red), Some(n(-5.0))));
    assert!(odd.can_drag(Some(MeterLine::Yellow), Some(n(-5.0))));
    assert!(odd.drag(Some(MeterLine::Yellow), Some(n(-5.0)), n(0.0), false));
    assert_eq!(f(odd.yellow), -5.0);
    let low = Lines { yellow: n(-120.0), red: n(-110.0), limit: n(0.0) };
    assert!(!low.can_drag(Some(MeterLine::Yellow), Some(n(-5.0))));
    assert!(low.can_drag(Some(MeterLine::Red), Some(n(-5.0))));
    assert!(low.can_drag(Some(MeterLine::Limit), Some(n(-5.0))) && low.can_drag(Some(MeterLine::Yellow), None));
}

#[test]
fn what_the_meter_looks_like() {
    assert_eq!(segment_colour(n(-10.0), true, n(-24.0), n(-18.0)), Colour::Grey);
    assert_eq!(segment_colour(n(-18.0), false, n(-24.0), n(-18.0)), Colour::Red);
    assert_eq!(segment_colour(n(-20.0), false, n(-24.0), n(-18.0)), Colour::Yellow);
    assert_eq!(segment_colour(n(-30.0), false, n(-24.0), n(-18.0)), Colour::Green);
    assert!(segment_lit(n(-30.0), n(-30.0)) && !segment_lit(n(-30.0), n(-31.0)));
    assert!(limit_shown(n(-1.0), None) && !limit_shown(n(0.0), None) && limit_shown(n(0.0), Some(MeterLine::Limit)));
    assert_eq!(limit_label(n(-3.0), "-3", 0), "Lim\n-3");
    assert_eq!(limit_label(n(0.0), "0", 1), "Lim\noff");
    let hint = |line, beeps, running| meter_hint(line, beeps, running, "-20.5", "-24", "-18", 0);
    assert_eq!(hint(None, false, false), "Pegel -20.5 dB\n");
    assert_eq!(hint(Some(MeterLine::Yellow), false, false), "Pegel -20.5 dB\nGelb ab -24 dB · Pfeil ziehen");
    assert_eq!(hint(Some(MeterLine::Red), true, false), "Pegel -20.5 dB\nRot und Warnton ab -18 dB · Pfeil ziehen");
    assert_eq!(hint(Some(MeterLine::Red), false, false), "Pegel -20.5 dB\nRot ab -18 dB · Pfeil ziehen");
    assert!(hint(Some(MeterLine::Limit), false, true).ends_with("Limiter: Linie runterziehen, Doppelklick: aus."));
    assert!(hint(Some(MeterLine::Limit), false, false).ends_with("Limiter: wirkt erst mit einem Ausgang (VB-Cable). Doppelklick: aus."));
    let mut on = false;
    toggle(&mut on, true);
    assert!(on);
    toggle(&mut on, false);
    assert!(on);
    assert_eq!(title_background(true, TitleIcon::Close, false), Background::Warning);
    assert_eq!(title_background(true, TitleIcon::Gear, false), Background::Plain);
    assert_eq!(title_background(false, TitleIcon::Close, true), Background::Plain);
    assert_eq!(title_background(false, TitleIcon::Minimize, false), Background::Nothing);
}

#[test]
fn setters_change_one_thing_only() {
    let mut s = Settings::default();
    let before = s.clone();
    pick_microphone(&mut s, "wasapi:x".to_string());
    assert_eq!(s.device_id.as_deref(), Some("wasapi:x"));
    keep_profile(&mut s, Some(vec![n(-60.0)]));
    assert_eq!(s.noise_profile.as_ref().unwrap().len(), 1);
    keep_profile(&mut s, None);
    s.device_id = None;
    assert!(s.same(&before));
    click_denoise(&mut s, Some(DenoiseLevel::Stark), Some(44_100));
    assert!(s.same(&before));
    click_denoise(&mut s, Some(DenoiseLevel::Stark), Some(48_000));
    assert!(denoise_chosen(&s, DenoiseLevel::Stark));
    click_denoise(&mut s, None, None);
    assert!(!s.denoise);
}

#[test]
fn an_output_that_is_not_virtual_is_dropped_at_the_start() {
    assert!(output_stays(&None));
    assert!(output_stays(&some("CABLE Input (VB-Audio Virtual Cable)")));
    assert!(!output_stays(&some("Kopfhörer")));
}

#[test]
fn hints_of_fader_and_echo() {
    assert_eq!(fader_hint(&None), "Gain · Doppelklick: 0 dB");
    assert_eq!(
        fader_hint(&some("4")),
        "Gain · Doppelklick: 0 dB\nDer Mikrofon-Regler von Windows steht am Anschlag: 4 dB gehen verloren. Weiter hoch geht es nur mit VB-Cable als Ausgang."
    );
    let none = || EchoFigures { erle: None, delay: None };
    assert_eq!(echo_hint(false, &None), "Echo: aus. Rechnet heraus, was aus deinen Kopfhörern wieder ins Mikrofon geht.");
    assert_eq!(echo_hint(true, &None), "Echo: wirkt nur über den Ausgang.");
    assert_eq!(
        echo_hint(true, &Some(("Headset".to_string(), none()))),
        "Echo: hört „Headset“ mit.\nNoch kein Echo gefunden"
    );
    let found = EchoFigures { erle: some("12"), delay: some("35") };
    assert_eq!(
        echo_hint(true, &Some(("Headset".to_string(), found))),
        "Echo: hört „Headset“ mit.\nEcho gerade um 12 dB leiser, Versatz 35 ms"
    );
    let mut s = Settings::default();
    s.echo = true;
    assert_eq!(needs_cable(&s, true), ["Echo"]);
}

#[test]
fn dragging_keeps_the_lines_on_the_meter() {
    let mut l = Lines { yellow: n(-30.0), red: n(-10.0), limit: n(-5.0) };
    l.drag(Some(MeterLine::Yellow), Some(n(-300.0)), n(-5.0), false);
    assert_eq!(f(l.yellow), -100.0);
    l.drag(Some(MeterLine::Red), Some(n(50.0)), n(-5.0), false);
    assert_eq!((f(l.red), f(l.limit)), (0.0, -5.0));
    l.drag(Some(MeterLine::Red), Some(n(-200.0)), n(-5.0), false);
    assert_eq!((f(l.yellow), f(l.red)), (-100.0, -100.0));
}
