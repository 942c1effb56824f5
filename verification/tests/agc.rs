use laermampel::agc::{
    admit_output, choose_output, is_cable_input, is_cable_input_name, is_virtual_device, is_virtual_name, list_output_devices,
    vb_cable_missing, vb_cable_url, ChainControl, OutputChoice, OutputState, Resampler, VoiceChain, PARAM_RELOAD_SAMPLES,
};
use laermampel::audio::InputDevice;
use laermampel::dsp::Settings;
use laermampel::ring::{queue, SampleSource};
use laermampel::single::Single;

fn n(x: f32) -> Single {
    Single { bits: x.to_bits() }
}

fn f(x: Single) -> f32 {
    f32::from_bits(x.bits)
}

/// Fills a block as the output does, with the arithmetic around the decisions.
fn fill(state: &mut OutputState, frac: &mut f64, base_step: f64, samples: &mut SampleSource, out: &mut [f32]) {
    let Some(filled) = state.look(samples) else {
        out.fill(0.0);
        return;
    };
    let error = (filled as f64 - state.target as f64) / state.target as f64;
    let step = base_step * (1.0 + (error * 0.01).clamp(-0.005, 0.005));
    for value in out {
        *frac += step;
        while *frac >= 1.0 {
            *frac -= 1.0;
            let decayed = n(f(state.resampler.current) * 0.95);
            state.resampler.shift_in(samples, decayed);
        }
        let (previous, current) = (f(state.resampler.previous), f(state.resampler.current));
        *value = previous + (current - previous) * *frac as f32;
    }
}

#[test]
fn puffer_bleibt_stabil_bei_gangunterschied() {
    // Mikrofon 48 kHz läuft 0,2 % zu schnell bzw. zu langsam, Ausgabe 44,1 kHz, 10-ms-Blöcke.
    for input_per_block in [48.096 * 10.0, 47.904 * 10.0] {
        let (mut producer, mut consumer) = queue(48_000).unwrap();
        let mut state = OutputState::new((48_000.0f32 * 0.03) as usize, (48_000.0f32 * 0.2) as usize);
        let mut frac = 0.0f64;
        let mut out = vec![0.0f32; 441];
        let (mut owed, mut underruns, mut max_fill) = (0.0f64, 0usize, 0usize);
        for block in 0..60_000 {
            owed += input_per_block;
            while owed >= 1.0 {
                let _ = producer.push(n(0.5));
                owed -= 1.0;
            }
            fill(&mut state, &mut frac, 48_000.0 / 44_100.0, &mut consumer, &mut out);
            if block > 100 {
                let filled = consumer.waiting();
                if filled == 0 {
                    underruns += 1;
                }
                max_fill = max_fill.max(filled);
            }
        }
        // 10 Minuten simuliert: keine Aussetzer, Verzögerung bleibt unter 100 ms.
        assert_eq!(underruns, 0, "Aussetzer bei {input_per_block}");
        assert!(max_fill < 4_800, "Puffer {max_fill} Samples bei {input_per_block}");
    }
}

#[test]
fn virtuelle_geraete_werden_erkannt() {
    assert!(is_virtual_device("CABLE Output (VB-Audio Virtual Cable)"));
    assert!(is_virtual_device("CABLE Input (VB-Audio Virtual Cable)"));
    assert!(is_virtual_device("VoiceMeeter Input (VB-Audio VoiceMeeter VAIO)"));
    assert!(!is_virtual_device("Headset Microphone (Arctis 7 Chat)"));
    assert!(!is_virtual_device("Lautsprecher (Realtek(R) Audio)"));
}

#[test]
fn names_are_compared_in_small_letters() {
    assert!(is_virtual_name("my virtual device"));
    assert!(!is_virtual_name("MY VIRTUAL DEVICE"));
    assert!(is_virtual_device("MY VIRTUAL DEVICE"));
    assert!(is_cable_input("CABLE Input (VB-Audio Virtual Cable)"));
    assert!(!is_cable_input("CABLE Output (VB-Audio Virtual Cable)"));
    assert!(!is_cable_input_name("CABLE Input"));
    assert!(is_cable_input_name("cable input"));
    assert!(!is_virtual_device(""));
}

fn device(id: &str, name: &str) -> InputDevice {
    InputDevice { id: id.to_string(), name: name.to_string() }
}

#[test]
fn only_virtual_devices_are_offered() {
    let all = vec![device("a", "Kopfhörer"), device("b", "CABLE Input"), device("c", "Voicemeeter In"), device("d", "Lautsprecher")];
    let ids: Vec<String> = list_output_devices(all).into_iter().map(|d| d.id).collect();
    assert_eq!(ids, ["b", "c"]);
}

fn some(names: &[&str]) -> Vec<Option<String>> {
    names.iter().map(|s| if s.is_empty() { None } else { Some(s.to_string()) }).collect()
}

#[test]
fn chosen_output_counts_only_if_virtual() {
    let names = some(&["Kopfhörer", "", "CABLE Input (VB-Audio)", "Cable Input 2"]);
    assert!(matches!(choose_output(&Some("Voicemeeter Input".to_string()), &names), OutputChoice::Chosen));
    assert!(matches!(choose_output(&Some("Kopfhörer".to_string()), &names), OutputChoice::Found(2)));
    assert!(matches!(choose_output(&None, &names), OutputChoice::Found(2)));
    assert!(matches!(choose_output(&None, &some(&["Kopfhörer", ""])), OutputChoice::Missing));
}

#[test]
fn headphones_are_refused_as_output() {
    assert!(admit_output("CABLE Input").is_ok());
    assert_eq!(
        admit_output("Kopfhörer").unwrap_err(),
        "„Kopfhörer“ ist kein virtuelles Gerät. Dort würdest du dich selbst hören \
         (bei Lautsprechern gibt es eine Rückkopplung). Bitte VB-Cable als Ausgabe wählen."
    );
    assert_eq!(vb_cable_missing(), "VB-Cable ist nicht installiert.");
    assert_eq!(vb_cable_url(), "https://vb-audio.com/Cable/");
}

#[test]
fn control_keeps_what_it_is_given() {
    let mut control = ChainControl::new();
    assert!(!control.feedback().gate_open);
    assert_eq!(f(control.feedback().out_level_db), 0.0);
    let mut s = Settings::default();
    s.muted = true;
    control.set(s);
    assert!(control.settings.muted);
}

#[test]
fn new_values_every_256_samples() {
    let (sink, _source) = queue(8).unwrap();
    let mut voice = VoiceChain::new(sink);
    let due: Vec<usize> = (0..1000).filter(|_| voice.due()).collect();
    assert_eq!(due, [0, 256, 512, 768]);
    assert_eq!(PARAM_RELOAD_SAMPLES, 256);
    let report = VoiceChain::report(n(-20.0), n(-3.0), true, n(-40.0), n(6.0));
    assert_eq!((f(report.input_level_db), f(report.out_level_db), report.gate_open), (-120.0, -20.0, true));
}

#[test]
fn full_queue_drops_the_newest() {
    let (sink, mut source) = queue(3).unwrap();
    let mut voice = VoiceChain::new(sink);
    let taken: Vec<bool> = (0..5).map(|i| voice.push(n(i as f32))).collect();
    assert_eq!(taken, [true, true, true, false, false]);
    assert_eq!(source.waiting(), 3);
    let mut r = Resampler::new();
    let got: Vec<f32> = (0..3)
        .map(|_| {
            assert!(r.shift_in(&mut source, n(-9.0)));
            f(r.current)
        })
        .collect();
    assert_eq!(got, [0.0, 1.0, 2.0]);
    // Nothing left: it runs towards silence.
    assert!(!r.shift_in(&mut source, n(1.9)));
    assert_eq!((f(r.previous), f(r.current)), (2.0, 1.9));
    assert!(voice.push(n(7.0)));
    assert!(r.shift_in(&mut source, n(0.0)));
    assert_eq!(f(r.current), 7.0);
}

#[test]
fn there_is_no_empty_queue() {
    assert!(queue(0).is_none());
    assert!(queue(usize::MAX).is_none());
    assert!(queue(1).is_some());
}

#[test]
fn output_waits_for_its_aim_and_drops_after_a_stall() {
    let (mut sink, mut source) = queue(1000).unwrap();
    let mut state = OutputState::new(10, 50);
    for i in 0..9 {
        sink.push(n(i as f32));
    }
    assert_eq!(state.look(&mut source), None);
    assert!(!state.primed);
    sink.push(n(9.0));
    assert_eq!(state.look(&mut source), Some(10));
    assert!(state.primed);
    for i in 10..100 {
        sink.push(n(i as f32));
    }
    // More than 50: down to the newest 10.
    assert_eq!(state.look(&mut source), Some(10));
    state.resampler.shift_in(&mut source, n(0.0));
    assert_eq!(f(state.resampler.current), 90.0);
    // Once it runs it goes on with an empty queue.
    while source.waiting() > 0 {
        state.resampler.shift_in(&mut source, n(0.0));
    }
    assert_eq!(state.look(&mut source), Some(0));
    // At least one sample is aimed for.
    assert_eq!(OutputState::new(0, 0).target, 1);
}
