use laermampel::audio::{
    can_play, can_record, channel_count, choose_input, describe, missing_device, no_device, plan_voice, unknown_format,
    voice_outcome, ErrorKind, Fault, InputChoice, InputDevice, PeakSlot, Processor, RawSamples, SampleKind, VoicePlan,
};
use laermampel::single::Single;
use laermampel::spectrum::FFT_SIZE;

fn n(x: f32) -> Single {
    Single { bits: x.to_bits() }
}

fn f(x: Single) -> f32 {
    f32::from_bits(x.bits)
}

#[test]
fn only_the_first_real_fault_counts() {
    let mut fault = Fault::new();
    for hint in [ErrorKind::DeviceChanged, ErrorKind::RealtimeDenied, ErrorKind::Xrun] {
        fault.report(hint, "egal");
    }
    assert_eq!(fault.get(), None);
    fault.report(ErrorKind::DeviceNotAvailable, "weg");
    fault.report(ErrorKind::Other, "später");
    assert_eq!(fault.get().as_deref(), Some("Gerät nicht verfügbar, vermutlich abgesteckt."));
}

#[test]
fn faults_come_with_their_remedy() {
    assert_eq!(
        describe(ErrorKind::PermissionDenied, "x"),
        "Zugriff verweigert. Windows-Einstellungen → Datenschutz → Mikrofon → \
         „Desktop-Apps Zugriff auf das Mikrofon erlauben“ einschalten."
    );
    assert!(describe(ErrorKind::DeviceBusy, "x").starts_with("Gerät ist belegt. Ein anderes Programm nutzt es exklusiv (Windows-"));
    assert_eq!(describe(ErrorKind::Other, "eigene Worte"), "eigene Worte");
    assert_eq!(describe(ErrorKind::Xrun, "x"), "x");
    assert_eq!(unknown_format("i8"), "Nicht unterstütztes Audioformat: i8");
}

fn list(names: &[&str]) -> Vec<String> {
    names.iter().map(|s| s.to_string()).collect()
}

#[test]
fn the_own_output_is_not_recorded() {
    let cable = Some("CABLE Output (VB-Audio Virtual Cable)".to_string());
    let names = list(&["CABLE Output (VB-Audio Virtual Cable)", "Headset", "Webcam"]);
    assert_eq!(choose_input(true, &cable, &names), Ok(InputChoice::Chosen));
    assert_eq!(choose_input(false, &cable, &names), Ok(InputChoice::Listed(1)));
    assert_eq!(choose_input(false, &cable, &list(&["Voicemeeter"])), Ok(InputChoice::Standard));
    assert_eq!(choose_input(false, &Some("Headset".to_string()), &names), Ok(InputChoice::Standard));
    assert_eq!(choose_input(false, &None, &names), Err("Kein Mikrofon gefunden".to_string()));
}

#[test]
fn a_virtual_microphone_is_not_played_on() {
    assert!(matches!(plan_voice(false, "CABLE Output"), VoicePlan::Off));
    assert!(matches!(plan_voice(true, "Headset"), VoicePlan::Start));
    let VoicePlan::Refused(e) = plan_voice(true, "CABLE Output") else { panic!("it would feed back") };
    assert_eq!(
        e,
        "Als Mikrofon ist „CABLE Output“ gewählt, also VB-Cable selbst. Das gäbe eine Rückkopplung, \
         deshalb ist der Kanalzug aus. Bitte oben dein echtes Mikrofon auswählen."
    );
}

#[test]
fn devices_without_a_name_go_by_their_id() {
    assert_eq!(InputDevice::of("a".to_string(), None).name, "a");
    assert_eq!(InputDevice::of("a".to_string(), Some("Headset".to_string())).name, "Headset");
    assert_ne!(no_device(), missing_device());
    assert_eq!((channel_count(0), channel_count(2)), (1, 2));
    assert!(can_record(SampleKind::U8) && !can_record(SampleKind::Other));
    assert!(!can_play(SampleKind::U8) && can_play(SampleKind::U16) && !can_play(SampleKind::Other));
}

#[test]
fn the_loudest_block_is_handed_over_once() {
    let mut slot = PeakSlot::new();
    let mut p = Processor::new(3);
    assert_eq!(slot.take_peak_db(), None);
    assert_eq!([p.push(), p.push(), p.push(), p.push()], [None, None, Some(3), None]);
    p.measured(n(-30.0));
    // The slot was busy: the louder block before is not lost.
    p.measured(n(-50.0));
    p.deliver(&mut slot);
    p.measured(n(-200.0));
    p.deliver(&mut slot);
    assert_eq!(slot.take_peak_db().map(f), Some(-30.0));
    assert_eq!(slot.take_peak_db(), None);
    p.deliver(&mut slot);
    assert_eq!(slot.take_peak_db().map(f), Some(-100.0));
    assert_eq!(Processor::new(0).block_len, 1);
}

#[test]
fn only_the_last_samples_are_kept() {
    let mut raw = RawSamples::new();
    for i in 0..FFT_SIZE as u32 {
        assert!(raw.snapshot().is_none());
        raw.add(Single { bits: i });
    }
    assert_eq!(raw.snapshot().unwrap()[0].bits, 0);
    raw.add(Single { bits: 9999 });
    let list = raw.snapshot().unwrap();
    assert_eq!((list.len(), list[0].bits, list[FFT_SIZE - 1].bits), (FFT_SIZE, 1, 9999));
}

#[test]
fn a_failed_output_is_no_error_of_the_whole() {
    let off = voice_outcome(VoicePlan::Off, None);
    assert!(off.output_name.is_none() && off.error.is_none());
    let refused = voice_outcome(VoicePlan::Refused("x".to_string()), None);
    assert!(refused.output_name.is_none() && refused.error.as_deref() == Some("x"));
    let runs = voice_outcome(VoicePlan::Start, Some(Ok("CABLE Input".to_string())));
    assert!(runs.output_name.as_deref() == Some("CABLE Input") && runs.error.is_none());
    let failed = voice_outcome(VoicePlan::Start, Some(Err("kaputt".to_string())));
    assert!(failed.output_name.is_none() && failed.error.as_deref() == Some("kaputt"));
}
