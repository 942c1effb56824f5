use laermampel::apo_setup::{
    any_installed, backup_path, class_paths, elevated_args, exit_code, fx_path, handle_command_line, key_error, restore,
    run_elevated, started, stopped, touched, value_error, wait_for as wait_for_service, with_audio_stopped, Elevation, Restore,
    Saved, Task, Waiting, SERVICE_TIMEOUT,
};
use laermampel::autostart::{
    buffer_units, changed, is_enabled, own_command, run_key, set_enabled, stored_command, stored_units, value_name, Change,
};
use laermampel::beep::{loudness, Beep, Tone};
use laermampel::headset::{scan, Interface, Scan, ROCCAT_VID, SCAN_TIME};
use laermampel::instance::{acquire, event_name, mutex_name, show_requested, wait_for, Attempt, UPDATE_WAIT};
use laermampel::log::{too_big, MAX_BYTES};
use laermampel::removal::{uninstall_all, Act, Answer, Removal, Stage};
use laermampel::single::Single;

fn args(list: &[&str]) -> Vec<String> {
    list.iter().map(|s| s.to_string()).collect()
}

#[test]
fn log_lines_have_the_time_of_day() {
    assert_eq!(laermampel::log::write(0, "Start"), "00:00:00 UTC  Start\n");
    assert_eq!(laermampel::log::write(86_400 + 3661, "x"), "01:01:01 UTC  x\n");
    assert_eq!(laermampel::log::write(86_399, ""), "23:59:59 UTC  \n");
    assert!(!too_big(None) && !too_big(Some(MAX_BYTES)) && too_big(Some(MAX_BYTES + 1)));
    assert_eq!(MAX_BYTES, 512 * 1024);
}

#[test]
fn a_beep_fades_in_and_out() {
    let mut b = Beep::new(5);
    let ramps: Vec<Option<Tone>> = (0..7).map(|_| b.next()).collect();
    let expected: Vec<Option<Tone>> = [(0, 0), (1, 1), (2, 2), (3, 2), (4, 1)]
        .iter()
        .map(|&(at, ramp)| Some(Tone { at, ramp }))
        .chain([None, None])
        .collect();
    assert_eq!(ramps, expected);
    let n = |x: f32| Single { bits: x.to_bits() };
    assert_eq!(loudness(n(7.0)), n(1.0));
    assert_eq!(loudness(n(-7.0)), n(0.0));
    assert_eq!(loudness(n(0.3)), n(0.3));
}

#[test]
fn a_second_start_waits_only_after_an_update() {
    assert_eq!(wait_for(&args(&["x", "--nach-update"])), UPDATE_WAIT);
    assert_eq!(wait_for(&args(&["x", "nach-update"])), 0);
    assert_eq!(acquire(false, 0, 0), Attempt::Alone);
    assert_eq!(acquire(true, 0, 0), Attempt::GiveUp);
    assert_eq!(acquire(true, UPDATE_WAIT - 1, UPDATE_WAIT), Attempt::Again);
    assert_eq!(acquire(true, UPDATE_WAIT, UPDATE_WAIT), Attempt::GiveUp);
    assert!(show_requested(true, true) && !show_requested(false, true) && !show_requested(true, false));
    assert_eq!((mutex_name(), event_name()), ("Local\\Laermampel.Instanz", "Local\\Laermampel.Anzeigen"));
}

#[test]
fn the_own_autostart_entry_is_recognised() {
    let own = Some(own_command("C:\\Programme\\Lärmampel\\laermampel.exe"));
    assert_eq!(own.as_deref(), Some("\"C:\\Programme\\Lärmampel\\laermampel.exe\""));
    let Ok(Change::Write(units)) = set_enabled(true, true, &own) else { panic!("it can be entered") };
    let mut buffer = units.clone();
    buffer.extend([7, 0, 9]);
    assert_eq!(stored_units(&buffer), &units[..units.len() - 1]);
    let stored = Some(stored_command(&buffer));
    assert_eq!(stored, own);
    assert!(is_enabled(&stored, &own));
    assert!(is_enabled(&Some("\"c:\\programme\\LärmAMPEL\\laermampel.exe\"".to_string()), &own));
    assert!(!is_enabled(&Some("\"D:\\laermampel.exe\"".to_string()), &own));
    assert!(is_enabled(&stored, &None));
    assert!(!is_enabled(&None, &own) && !is_enabled(&None, &None));
    assert_eq!((buffer_units(10), buffer_units(11), buffer_units(0)), (6, 6, 1));
    assert_eq!((run_key(), value_name()), ("Software\\Microsoft\\Windows\\CurrentVersion\\Run", "Laermampel"));
}

#[test]
fn autostart_errors() {
    let own = Some("\"x\"".to_string());
    assert!(matches!(set_enabled(true, false, &None), Ok(Change::Delete)));
    assert!(matches!(set_enabled(true, true, &None), Err(e) if e == "Eigener Pfad ist unbekannt"));
    assert!(matches!(set_enabled(false, true, &own), Err(e) if e == "Autostart gibt es bisher nur unter Windows"));
    assert!(changed(0).is_ok());
    assert_eq!(changed(5).unwrap_err(), "Autostart konnte nicht geändert werden (Fehler 5)");
}

#[test]
fn command_lines_of_the_uninstaller() {
    let all = args(&["--apo", "uninstall-all"]);
    let ask = args(&["--apo-elevate", "uninstall-all"]);
    assert_eq!(handle_command_line(true, &all, false), Some(Task::UninstallAll));
    assert_eq!(handle_command_line(true, &ask, true), Some(Task::Elevate));
    assert_eq!(handle_command_line(true, &ask, false), Some(Task::Nothing));
    assert_eq!(handle_command_line(true, &args(&["--apo"]), true), None);
    assert_eq!(handle_command_line(true, &args(&["--apo", "uninstall-all", "x"]), true), None);
    assert_eq!(handle_command_line(true, &args(&["--other", "uninstall-all"]), true), None);
    assert_eq!(handle_command_line(false, &all, true), None);
    assert!(!any_installed(&None) && !any_installed(&Some(Vec::new())) && any_installed(&Some(args(&["{guid}"]))));
    assert_eq!(elevated_args(), "--apo uninstall-all");
}

#[test]
fn outcomes_of_taking_the_filter_out() {
    assert!(run_elevated(Elevation::Ended(0)).is_ok());
    assert_eq!(run_elevated(Elevation::Ended(3)).unwrap_err(), "Einrichten fehlgeschlagen (Code 3), Details in der Log-Datei.");
    assert_eq!(run_elevated(Elevation::Refused).unwrap_err(), "Adminrechte wurden nicht erteilt.");
    assert_eq!(run_elevated(Elevation::NotWindows).unwrap_err(), "Nur unter Windows");
    let failed = |s: &str| Err::<(), String>(s.to_string());
    assert_eq!(with_audio_stopped(failed("a"), failed("b")), failed("a"));
    assert_eq!(with_audio_stopped(Ok(()), failed("b")), failed("b"));
    assert_eq!(with_audio_stopped(failed("a"), Ok(())), failed("a"));
    assert_eq!(with_audio_stopped(Ok(()), Ok(())), Ok(()));
    assert_eq!((exit_code(&Ok(())), exit_code(&failed("x"))), (0, 1));
    assert_eq!(stopped(false).unwrap_err(), "Audiodienst lässt sich nicht anhalten");
    assert_eq!(started(false).unwrap_err(), "Audiodienst startet nicht wieder");
    assert!(stopped(true).is_ok() && started(true).is_ok());
    assert_eq!(wait_for_service(0, 1, 1), Waiting::Reached);
    assert_eq!(wait_for_service(0, 4, 1), Waiting::GoOn);
    assert_eq!(wait_for_service(SERVICE_TIMEOUT, 1, 1), Waiting::TimedOut);
    assert!(matches!(restore(None), Restore::Delete));
    assert!(matches!(restore(Some(Saved { kind: 1, data: vec![2] })), Restore::Write(s) if s.data == [2]));
    assert_eq!(key_error("a\\b", 5), "Registry a\\b: Fehler 5");
    assert_eq!(value_error("x", 2), "Registry-Wert x: Fehler 2");
}

fn done() -> Answer {
    Answer::Done(Ok(()))
}

fn went_wrong(e: &str) -> Answer {
    Answer::Done(Err(e.to_string()))
}

/// The removal up to the list of saved microphones.
fn with_service_stopped() -> Removal {
    let (mut removal, act) = uninstall_all();
    assert!(matches!(act, Act::GetRights));
    assert!(matches!(removal.next(done()), Act::OpenService));
    assert!(matches!(removal.next(done()), Act::StopService));
    assert!(matches!(removal.next(done()), Act::ListSaved));
    removal
}

#[test]
fn the_filter_is_taken_out_step_by_step() {
    let mut removal = with_service_stopped();
    let act = removal.next(Answer::Listed(Some(args(&["{a}", "{b}"]))));
    assert!(matches!(act, Act::OpenSaved(path) if path == backup_path("{a}")));
    // Nothing saved of the first after all.
    assert!(matches!(removal.next(Answer::Opened(false)), Act::OpenSaved(path) if path == backup_path("{b}")));
    assert!(matches!(removal.next(Answer::Opened(true)), Act::OpenValues(path) if path == fx_path("{b}")));
    assert!(matches!(removal.next(done()), Act::Read(0)));
    let saved = Saved { kind: 3, data: vec![1, 2] };
    assert!(matches!(removal.next(Answer::Value(Some(saved))), Act::Write(0, s) if s.kind == 3 && s.data == [1, 2]));
    assert!(matches!(removal.next(done()), Act::Read(1)));
    assert!(matches!(removal.next(Answer::Value(None)), Act::Delete(1)));
    assert!(matches!(removal.next(done()), Act::Read(2)));
    assert!(matches!(removal.next(Answer::Value(None)), Act::Delete(2)));
    assert!(matches!(removal.next(done()), Act::DeleteTree(path) if path == backup_path("{b}")));
    assert!(matches!(removal.next(done()), Act::Unregister));
    assert!(matches!(removal.next(done()), Act::StartService));
    assert!(matches!(removal.next(done()), Act::End(Ok(()))));
    assert_eq!(removal.stage, Stage::Ended);
}

#[test]
fn the_audio_service_is_started_again_after_a_failure() {
    let mut removal = with_service_stopped();
    removal.next(Answer::Listed(Some(args(&["{a}", "{b}"]))));
    removal.next(Answer::Opened(true));
    removal.next(done());
    removal.next(Answer::Value(None));
    assert!(matches!(removal.next(went_wrong("kaputt")), Act::StartService));
    assert!(matches!(removal.next(went_wrong("auch")), Act::End(Err(e)) if e == "kaputt"));

    let mut removal = with_service_stopped();
    assert!(matches!(removal.next(Answer::Listed(None)), Act::Unregister));
    assert!(matches!(removal.next(done()), Act::StartService));
    assert!(matches!(removal.next(went_wrong("auch")), Act::End(Err(e)) if e == "auch"));
}

#[test]
fn nothing_is_touched_without_rights() {
    let (mut removal, _) = uninstall_all();
    assert!(matches!(removal.next(went_wrong("Recht unbekannt")), Act::End(Err(e)) if e == "Recht unbekannt"));
}

#[test]
fn registry_paths() {
    assert_eq!(backup_path("{g}"), "SOFTWARE\\LucyWolf\\Laermampel\\ApoBackup\\{g}");
    assert_eq!(fx_path("{g}"), "SOFTWARE\\Microsoft\\Windows\\CurrentVersion\\MMDevices\\Audio\\Capture\\{g}\\FxProperties");
    let (com, audio) = class_paths("{c}");
    assert_eq!(com, "SOFTWARE\\Classes\\CLSID\\{c}");
    assert_eq!(audio, "SOFTWARE\\Classes\\AudioEngine\\AudioProcessingObjects\\{c}");
    assert_eq!(touched()[2], "{d3993a3f-99c2-4402-b5ec-a92a0367664b},5");
}

fn interface(name: Option<&str>) -> Interface {
    Interface {
        vendor: ROCCAT_VID,
        product: 0x2,
        product_name: name.map(|s| s.to_string()),
        number: -1,
        usage_page: 0xff00,
        usage: 1,
    }
}

#[test]
fn a_scan_reports_every_change_once() {
    assert!(matches!(scan(false, "0.4.0"), Err(e) if e == "Nur unter Windows"));
    let Ok(mut s) = scan(true, "0.4.0") else { panic!("under Windows there is one") };
    let i = interface(Some("Elo"));
    assert!(i.wanted());
    assert_eq!(i.name(), "Gerät 0x1e7d:0x0002 „Elo“, Schnittstelle -1, Verwendung 0xff00/0x0001");
    assert_eq!(s.opened(&i), 0);
    s.taken(&interface(None), "Zugriff verweigert");
    s.deaf(&i, "kaputt");
    assert_eq!(s.opened(&i), 1);
    assert!(s.begin().is_ok());
    assert!(s.packet(0, vec![1, 0xab], "  0.50"));
    assert!(!s.packet(0, vec![1, 0xab], "  0.60"));
    assert!(s.packet(1, vec![1, 0xab], "  0.70"));
    assert!(!s.packet(1, vec![], "  0.80"));
    assert!(s.packet(0, vec![0; 12], " 10.00"));
    s.finish();
    assert_eq!(
        s.report,
        "Lärmampel v0.4.0 – Suche nach der Mute-Taste\n\
         Gesucht wird nach Geräten von ROCCAT (Hersteller-Nummer 0x1e7d).\n\n\
         [0] Gerät 0x1e7d:0x0002 „Elo“, Schnittstelle -1, Verwendung 0xff00/0x0001\n\
         (belegt) Gerät 0x1e7d:0x0002 „?“, Schnittstelle -1, Verwendung 0xff00/0x0001: Zugriff verweigert\n\
         Gerät 0x1e7d:0x0002 „Elo“, Schnittstelle -1, Verwendung 0xff00/0x0001: lässt sich nicht auf Mithören stellen (kaputt)\n\
         [1] Gerät 0x1e7d:0x0002 „Elo“, Schnittstelle -1, Verwendung 0xff00/0x0001\n\
         \nMitschrift (nur Änderungen). Jetzt die Mute-Taste mehrmals drücken:\n\
         Zeit    Schnittstelle  Länge  Pakethalt\n  \
           0.50s  [0]             2    01 ab\n  \
           0.70s  [1]             2    01 ab\n \
          10.00s  [0]            12    00 00 00 00 00 00 00 00 00 00 00 00\n\
         \n3 Änderungen mitgeschrieben.\n"
    );
    assert!(Scan::listens(SCAN_TIME - 1) && !Scan::listens(SCAN_TIME));
}

#[test]
fn a_scan_without_interfaces_or_packets() {
    let Ok(mut s) = scan(true, "0.4.0") else { panic!("under Windows there is one") };
    assert_eq!(s.begin().unwrap_err(), "Keine Schnittstelle zum Mithören gefunden");
    assert!(s.report.contains("\nKeine Schnittstelle ließ sich öffnen. Läuft die ROCCAT-Software (Swarm/Neon)? Die hält die"));
    let Ok(mut s) = scan(true, "0.4.0") else { panic!("under Windows there is one") };
    s.opened(&interface(None));
    assert!(s.begin().is_ok());
    s.finish();
    assert!(s.report.ends_with("\nEs kam gar nichts an. Entweder meldet das Headset die Taste nicht über USB, oder die geöffneten Schnittstellen sind die falschen.\n"));
}
