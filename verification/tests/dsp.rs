use laermampel::dsp::{
    gate_reduction_db, limit, peak_of, Chain, Comp, CompSettings, Figures, Gate, GateSettings, Limiter, Settings, Stage,
};
use laermampel::single::Single;

const RATE: f32 = 48_000.0;

fn n(x: f32) -> Single {
    Single { bits: x.to_bits() }
}

fn f(x: Single) -> f32 {
    f32::from_bits(x.bits)
}

fn db_to_gain(db: f32) -> f32 {
    10f32.powf(db / 20.0)
}

fn smoothing(ms: f32, sample_rate: f32) -> f32 {
    if ms <= 0.0 {
        1.0
    } else {
        1.0 - (-1000.0 / (ms * sample_rate)).exp()
    }
}

fn power_db(power: f32) -> f32 {
    10.0 * power.max(1e-12).log10()
}

struct Biquad {
    b: [f32; 3],
    a: [f32; 2],
    x: [f32; 2],
    y: [f32; 2],
}

impl Biquad {
    fn prewarp(freq: f32) -> (f32, f32) {
        let w0 = 2.0 * std::f32::consts::PI * freq / RATE;
        (w0.cos(), w0.sin() / (2.0 * std::f32::consts::FRAC_1_SQRT_2))
    }

    fn highpass(freq: f32) -> Biquad {
        let (cos, alpha) = Biquad::prewarp(freq);
        Biquad::normalized((1.0 + cos) / 2.0, -(1.0 + cos), cos, alpha)
    }

    fn lowpass(freq: f32) -> Biquad {
        let (cos, alpha) = Biquad::prewarp(freq);
        Biquad::normalized((1.0 - cos) / 2.0, 1.0 - cos, cos, alpha)
    }

    fn normalized(outer: f32, middle: f32, cos: f32, alpha: f32) -> Biquad {
        let a0 = 1.0 + alpha;
        Biquad {
            b: [outer / a0, middle / a0, outer / a0],
            a: [-2.0 * cos / a0, (1.0 - alpha) / a0],
            x: [0.0; 2],
            y: [0.0; 2],
        }
    }

    fn run(&mut self, x: f32) -> f32 {
        let y = self.b[0] * x + self.b[1] * self.x[0] + self.b[2] * self.x[1] - self.a[0] * self.y[0] - self.a[1] * self.y[1];
        self.x = [x, self.x[0]];
        self.y = [y, self.y[0]];
        y
    }
}

/// The chain with the arithmetic around it.
struct Voice {
    chain: Chain,
    filter: Box<nnnoiseless::DenoiseState<'static>>,
    gate_power: f32,
    comp_power: f32,
    out_power: f32,
    meter_hp: Biquad,
    meter_lp: Biquad,
}

impl Voice {
    fn new() -> Voice {
        let chain = Chain::new(RATE as u32, n(smoothing(4.0, RATE)), n(smoothing(150.0, RATE)));
        let mut voice = Voice {
            chain,
            filter: nnnoiseless::DenoiseState::new(),
            gate_power: 0.0,
            comp_power: 0.0,
            out_power: 0.0,
            meter_hp: Biquad::highpass(100.0),
            meter_lp: Biquad::lowpass(4000.0),
        };
        voice.set(Settings::default());
        voice
    }

    fn set(&mut self, s: Settings) {
        if !self.chain.needs(&s) {
            return;
        }
        let figures = Figures {
            gate_attack_k: n(smoothing(f(s.gate.attack_ms), RATE)),
            gate_release_k: n(smoothing(f(s.gate.release_ms), RATE)),
            hold_samples: (f(s.gate.hold_ms).max(0.0) / 1000.0 * RATE) as usize,
            comp_attack_k: n(smoothing(f(s.comp.attack_ms), RATE)),
            comp_release_k: n(smoothing(f(s.comp.release_ms), RATE)),
            ceiling: n(db_to_gain(f(Chain::ceiling_db(&s)))),
        };
        self.chain.set(s, figures);
    }

    fn filter(&mut self, mono: f32) -> f32 {
        let dry_mix = f(self.chain.settings.denoise_dry).clamp(0.0, 1.0);
        let d = self.chain.denoiser.as_mut().unwrap();
        if d.begin(n(mono), n(mono * 32768.0)) {
            let input: Vec<f32> = d.input.iter().map(|&x| f(x)).collect();
            let mut output = vec![0.0f32; input.len()];
            let vad = self.filter.process_frame(&mut output, &input);
            let output: Vec<Single> = output.iter().map(|&y| n(y / 32768.0)).collect();
            d.finish(&output, n(vad));
        }
        let (wet, dry) = d.next();
        let (wet, dry) = (f(wet), f(dry));
        wet + (dry - wet) * dry_mix
    }

    fn process_frame(&mut self, frame: &mut [f32]) {
        let mut mono = frame.iter().sum::<f32>() / frame.len() as f32;
        let mut gain = 1.0f32;
        let mut done = None;
        while let Some(stage) = self.chain.stage_after(done) {
            match stage {
                Stage::Filter => {
                    mono = self.filter(mono);
                    let speech_vad = f(self.chain.speech_vad());
                    let speech = ((f(self.chain.speech()) - 0.1) / (speech_vad - 0.1)).clamp(0.0, 1.0);
                    let c = self.chain.duck(n(f(self.chain.deepest_duck_db()) * (1.0 - speech)));
                    let duck = f(self.chain.duck_db);
                    let duck = duck + (f(c.target) - duck) * f(c.k);
                    self.chain.duck_db = n(duck);
                    mono *= db_to_gain(-duck);
                    frame.fill(mono);
                }
                Stage::Gate => {
                    self.gate_power += (mono * mono - self.gate_power) * smoothing(10.0, RATE);
                    let level = power_db(self.gate_power);
                    let below = (f(self.chain.gate.threshold_db) - level) * 3.0;
                    let c = self.chain.gate.aim(n(level), n(below));
                    let r = f(self.chain.gate.reduction_db);
                    let r = r + (f(c.target) - r) * f(c.k);
                    self.chain.gate.settle(n(r));
                    gain *= db_to_gain(-r);
                }
                Stage::Comp => {
                    let x = mono * gain;
                    self.comp_power += (x * x - self.comp_power) * smoothing(50.0, RATE);
                    let level = power_db(self.comp_power);
                    let decayed = f(self.chain.comp.recent_peak_db) - 10.0 / RATE;
                    let peak = f(self.chain.comp.follow(n(level), n(decayed)));
                    let distance = f(self.chain.comp.settings.target_db) - level;
                    if let Some(c) = self.chain.comp.aim(n(level), n(distance), n(peak - 10.0)) {
                        let g = f(self.chain.comp.gain_db);
                        self.chain.comp.settle(n(g + (f(c.target) - g) * f(c.k)));
                    }
                    gain *= db_to_gain(f(self.chain.comp.gain_db()));
                }
                Stage::Fader => {
                    let target = self.chain.fader_target().map_or(0.0, |db| db_to_gain(f(db)));
                    let g = f(self.chain.fader_gain);
                    let g = g + (target - g) * smoothing(10.0, RATE);
                    self.chain.fader_gain = n(g);
                    gain *= g;
                }
                Stage::Limiter => {
                    let scaled: Vec<Single> = frame.iter().map(|s| n(s * gain)).collect();
                    let peak = f(peak_of(&scaled));
                    let envelope = f(self.chain.limiter.envelope);
                    let released = envelope + (peak - envelope) * smoothing(100.0, RATE);
                    let ceiling = self.chain.ceiling;
                    if self.chain.limiter.follow(n(peak), n(released), ceiling) {
                        gain *= f(ceiling) / f(self.chain.limiter.envelope);
                    }
                    let mut out: Vec<Single> = frame.iter().map(|s| n(s * gain)).collect();
                    limit(&mut out, ceiling);
                    for (sample, y) in frame.iter_mut().zip(out) {
                        *sample = f(y);
                    }
                }
                Stage::Meter => {
                    let out = self.meter_lp.run(self.meter_hp.run(mono * gain));
                    self.out_power += (out * out - self.out_power) * smoothing(50.0, RATE);
                }
            }
            done = Some(stage);
        }
    }

    fn out_level_db(&self) -> f32 {
        power_db(self.out_power)
    }

    fn comp_gain_db(&self) -> f32 {
        f(self.chain.comp_gain_db())
    }
}

fn comp_settings() -> Settings {
    let mut s = Settings::default();
    s.comp = CompSettings {
        enabled: true,
        target_db: n(-20.0),
        max_gain_db: n(18.0),
        max_cut_db: n(18.0),
        attack_ms: n(40.0),
        release_ms: n(1500.0),
        pause_db: n(-50.0),
    };
    s.ceiling_db = n(-1.0);
    s
}

fn gate_settings() -> Settings {
    let mut s = Settings::default();
    s.gate = GateSettings {
        enabled: true,
        threshold_db: n(-40.0),
        range_db: n(40.0),
        attack_ms: n(2.0),
        hold_ms: n(200.0),
        release_ms: n(50.0),
    };
    s
}

fn sine(count: usize, rms_db: f32) -> Vec<f32> {
    let amplitude = db_to_gain(rms_db) * std::f32::consts::SQRT_2;
    (0..count).map(|i| amplitude * (2.0 * std::f32::consts::PI * 220.0 * i as f32 / RATE).sin()).collect()
}

fn rms_db(samples: &[f32]) -> f32 {
    let power = samples.iter().map(|&x| (x * x) as f64).sum::<f64>() / samples.len() as f64;
    10.0 * power.log10() as f32
}

fn run(voice: &mut Voice, input: &[f32]) -> Vec<f32> {
    input
        .iter()
        .map(|&x| {
            let mut frame = [x];
            voice.process_frame(&mut frame);
            frame[0]
        })
        .collect()
}

fn tail_rms(samples: &[f32]) -> f32 {
    rms_db(&samples[samples.len() - RATE as usize / 2..])
}

fn noise(count: usize, level: f32) -> Vec<f32> {
    let mut state = 0x1234_5678u32;
    (0..count)
        .map(|_| {
            state = state.wrapping_mul(1_664_525).wrapping_add(1_013_904_223);
            ((state >> 8) as f32 / (1u32 << 24) as f32 * 2.0 - 1.0) * level
        })
        .collect()
}

struct Formant {
    cos: f32,
    r: f32,
    y1: f32,
    y2: f32,
}

impl Formant {
    fn new(freq: f32, bandwidth: f32) -> Formant {
        let r = (-std::f32::consts::PI * bandwidth / RATE).exp();
        Formant { cos: (2.0 * std::f32::consts::PI * freq / RATE).cos(), r, y1: 0.0, y2: 0.0 }
    }

    fn run(&mut self, x: f32) -> f32 {
        let y = x + 2.0 * self.r * self.cos * self.y1 - self.r * self.r * self.y2;
        self.y2 = self.y1;
        self.y1 = y;
        y
    }
}

fn vowel(count: usize, wanted_db: f32) -> Vec<f32> {
    let f0 = 110.0;
    let period = (RATE / f0) as usize;
    let mut formants = [Formant::new(700.0, 80.0), Formant::new(1220.0, 90.0), Formant::new(2600.0, 120.0)];
    let mut raw: Vec<f32> = (0..count)
        .map(|i| {
            let pulse = if i % period == 0 { 1.0 } else { 0.0 };
            let mut sum = 0.0;
            for (weight, f) in [1.0, 0.5, 0.25].iter().zip(formants.iter_mut()) {
                sum += weight * f.run(pulse);
            }
            let syllable = 0.55 + 0.45 * (2.0 * std::f32::consts::PI * 4.0 * i as f32 / RATE).sin();
            sum * syllable
        })
        .collect();
    let gain = db_to_gain(wanted_db - rms_db(&raw));
    for x in &mut raw {
        *x *= gain;
    }
    raw
}

fn throat(count: usize, wanted_db: f32) -> Vec<f32> {
    let mut low = Formant::new(180.0, 300.0);
    let mut middle = Formant::new(550.0, 500.0);
    let mut raw: Vec<f32> = noise(count, 1.0)
        .iter()
        .enumerate()
        .map(|(i, &x)| {
            let t = i as f32 / RATE;
            let burst = (-((t % 0.6 - 0.12) / 0.09).powi(2)).exp();
            (low.run(x) + 0.6 * middle.run(x)) * burst
        })
        .collect();
    let gain = db_to_gain(wanted_db - rms_db(&raw));
    for x in &mut raw {
        *x *= gain;
    }
    raw
}

fn filter_settings(dry: f32, duck: f32, vad: f32) -> Settings {
    let mut s = Settings::default();
    s.denoise = true;
    s.denoise_dry = n(dry);
    s.denoise_duck_db = n(duck);
    s.denoise_speech_vad = n(vad);
    s
}

#[test]
fn leise_wird_angehoben() {
    let mut voice = Voice::new();
    voice.set(comp_settings());
    let out = run(&mut voice, &sine(RATE as usize * 10, -32.0));
    assert!((tail_rms(&out) - -20.0).abs() < 1.0, "Ausgang {} dB", tail_rms(&out));
}

#[test]
fn laut_wird_abgesenkt() {
    let mut voice = Voice::new();
    voice.set(comp_settings());
    let out = run(&mut voice, &sine(RATE as usize * 3, -8.0));
    assert!((tail_rms(&out) - -20.0).abs() < 1.0, "Ausgang {} dB", tail_rms(&out));
}

#[test]
fn verstaerkung_ist_begrenzt() {
    let mut voice = Voice::new();
    voice.set(comp_settings());
    let out = run(&mut voice, &sine(RATE as usize * 15, -45.0));
    assert!((tail_rms(&out) - -27.0).abs() < 1.0, "Ausgang {} dB, erwartet -45 + 18", tail_rms(&out));
}

#[test]
fn pause_zieht_rauschen_nicht_hoch() {
    let mut voice = Voice::new();
    voice.set(comp_settings());
    run(&mut voice, &sine(RATE as usize * 3, -20.0));
    let before = voice.comp_gain_db();
    run(&mut voice, &sine(RATE as usize * 5, -65.0));
    assert!((voice.comp_gain_db() - before).abs() < 0.5, "Verstärkung {before} -> {}", voice.comp_gain_db());
}

#[test]
fn trockenweg_liegt_auf_dem_gefilterten() {
    let frame = nnnoiseless::DenoiseState::FRAME_SIZE;
    let peak_at = |dry_mix: f32| {
        let mut voice = Voice::new();
        voice.set(filter_settings(dry_mix, 0.0, 0.6));
        let out: Vec<f32> = (0..frame * 6).map(|i| voice.filter(if i == 0 { 1.0 } else { 0.0 })).collect();
        out.iter()
            .enumerate()
            .fold((0, 0.0f32), |(bi, bv), (i, &v)| if v.abs() > bv { (i, v.abs()) } else { (bi, bv) })
            .0
    };
    assert_eq!(peak_at(0.0), peak_at(1.0), "gefiltert und trocken kommen zu verschiedenen Zeiten heraus");
}

#[test]
fn stimme_ueberlebt_den_filter() {
    for (stufe, dry, duck, vad) in [("Leicht", 0.32, 0.0, 0.6), ("Medium", 0.0, 40.0, 0.6), ("Stark", 0.0, 60.0, 0.85)] {
        let mut voice = Voice::new();
        voice.set(filter_settings(dry, duck, vad));
        let input = vowel(RATE as usize * 3, -20.0);
        let out = run(&mut voice, &input);
        let verlust = tail_rms(&input) - tail_rms(&out);
        assert!(verlust < 1.5, "„{stufe}“ nimmt der Stimme {verlust:.1} dB weg");
    }
}

#[test]
fn fader_kommt_am_ausgang_an() {
    for fader in [-20.0, 0.0, 6.0, 11.0] {
        let mut voice = Voice::new();
        let mut s = Settings::default();
        s.fader_db = n(fader);
        voice.set(s);
        let out = run(&mut voice, &sine(RATE as usize * 2, -30.0));
        let erwartet = -30.0 + fader;
        assert!((tail_rms(&out) - erwartet).abs() < 0.5, "Fader {fader:+.0}: Ausgang {:.1} statt {erwartet:.1} dB", tail_rms(&out));
        assert!(
            (voice.out_level_db() - erwartet).abs() < 0.5,
            "Fader {fader:+.0}: Anzeige {:.1} statt {erwartet:.1} dB",
            voice.out_level_db()
        );
    }
}

#[test]
fn comp_frisst_den_fader_nicht() {
    let with = |fader: f32| {
        let mut voice = Voice::new();
        let mut s = comp_settings();
        s.fader_db = n(fader);
        voice.set(s);
        tail_rms(&run(&mut voice, &sine(RATE as usize * 10, -30.0)))
    };
    let unterschied = with(11.0) - with(0.0);
    assert!((unterschied - 11.0).abs() < 0.5, "Fader bringt mit Comp. nur {unterschied:.1} dB");
}

#[test]
fn nicht_stimme_fliegt_raus() {
    let taken = |dry: f32, duck: f32, vad: f32| {
        let mut voice = Voice::new();
        voice.set(filter_settings(dry, duck, vad));
        let input = throat(RATE as usize * 3, -20.0);
        let out = run(&mut voice, &input);
        tail_rms(&input) - tail_rms(&out)
    };
    assert!(taken(0.32, 0.0, 0.6) < 11.0, "„Leicht“ nimmt zu viel weg");
    assert!(taken(0.0, 40.0, 0.6) > 35.0, "„Medium“ lässt Nicht-Stimme stehen");
    assert!(taken(0.0, 60.0, 0.85) > 50.0, "„Stark“ lässt Nicht-Stimme stehen");
}

#[test]
fn gate_aus_laesst_alles_durch() {
    let input = vowel(RATE as usize, -20.0);
    let mut voice = Voice::new();
    voice.set(Settings::default());
    let out = run(&mut voice, &input);
    assert_eq!(out, input, "„aus“ verändert den Ton trotzdem");
}

#[test]
fn gate_frisst_keinen_wortanfang() {
    let mut voice = Voice::new();
    voice.set(gate_settings());
    let ruhe = noise(RATE as usize, 0.0005);
    let wort = vowel(RATE as usize, -20.0);
    let mut input = ruhe.clone();
    input.extend_from_slice(&wort);
    let out = run(&mut voice, &input);
    let start = ruhe.len();
    let fehlt = |ms: usize| {
        let count = RATE as usize * ms / 1000;
        rms_db(&input[start..start + count]) - rms_db(&out[start..start + count])
    };
    assert!(fehlt(20) < 3.0, "nach 20 ms fehlen noch {:.1} dB", fehlt(20));
    assert!(fehlt(50) < 1.0, "nach 50 ms fehlen noch {:.1} dB", fehlt(50));
}

#[test]
fn rauschfilter_entfernt_rauschen() {
    let mut voice = Voice::new();
    let mut s = Settings::default();
    s.denoise = true;
    voice.set(s);
    let input = noise(RATE as usize * 3, 0.05);
    let out = run(&mut voice, &input);
    let reduction = tail_rms(&input) - tail_rms(&out);
    assert!(reduction > 10.0, "nur {reduction:.1} dB leiser");
}

#[test]
fn kanalzug_misst_wie_die_ampel() {
    let mut voice = Voice::new();
    voice.set(Settings::default());
    let amplitude = db_to_gain(-20.0) * std::f32::consts::SQRT_2;
    let input: Vec<f32> =
        (0..RATE as usize).map(|i| amplitude * (2.0 * std::f32::consts::PI * 1000.0 * i as f32 / RATE).sin()).collect();
    let _ = run(&mut voice, &input);
    let measured = voice.out_level_db();
    assert!((measured + 20.0).abs() < 1.0, "Kanalzug misst {measured:.1} dB statt -20 dB");
}

#[test]
fn rauschfilter_hat_drei_stufen() {
    let taken = |dry: f32, duck_db: f32| {
        let mut voice = Voice::new();
        voice.set(filter_settings(dry, duck_db, 0.6));
        let input = noise(RATE as usize * 3, 0.05);
        let out = run(&mut voice, &input);
        tail_rms(&input) - tail_rms(&out)
    };
    let leicht = taken(0.32, 0.0);
    let medium = taken(0.0, 40.0);
    let stark = taken(0.0, 60.0);
    assert!(leicht < medium && medium < stark, "Stufen: {leicht:.1} / {medium:.1} / {stark:.1} dB");
    assert!(leicht < 11.0, "„Leicht“ soll höchstens 10 dB wegnehmen, nimmt aber {leicht:.1} dB");
    assert!(medium > 35.0, "„Medium“ nimmt nur {medium:.1} dB weg");
    assert!(stark > 50.0, "„Stark“ nimmt nur {stark:.1} dB weg");
}

#[test]
fn gate_senkt_leises_ab() {
    let mut voice = Voice::new();
    voice.set(gate_settings());
    let input = sine(RATE as usize, -55.0);
    let out = run(&mut voice, &input);
    let reduction = tail_rms(&input) - tail_rms(&out);
    assert!((reduction - 40.0).abs() < 1.0, "{reduction:.1} dB abgesenkt");
}

#[test]
fn gate_senkt_gleitend_ab() {
    let input = sine(RATE as usize, -48.0);
    let mut previous = f32::MAX;
    for threshold in [-50.0, -47.0, -45.0, -42.0] {
        let mut voice = Voice::new();
        let mut s = gate_settings();
        s.gate.threshold_db = n(threshold);
        voice.set(s);
        let out = tail_rms(&run(&mut voice, &input));
        assert!(out < previous || threshold == -50.0, "Schwelle {threshold}: {out:.1} dB, vorher {previous:.1}");
        previous = out;
    }
    assert!((previous - (-48.0 - 3.0 * 6.0)).abs() < 1.5, "bei -42 erwartet -66 dB, war {previous:.1}");
}

#[test]
fn gate_laesst_sprache_durch() {
    let mut voice = Voice::new();
    voice.set(gate_settings());
    let input = sine(RATE as usize, -20.0);
    let out = run(&mut voice, &input);
    let difference = tail_rms(&input) - tail_rms(&out);
    assert!(difference.abs() < 0.1, "{difference:.2} dB Unterschied");
}

#[test]
fn gate_haelt_nach_wortende() {
    let mut voice = Voice::new();
    voice.set(gate_settings());
    run(&mut voice, &sine(RATE as usize, -20.0));
    run(&mut voice, &sine(RATE as usize / 10, -60.0));
    assert!(voice.chain.gate_open(), "schon nach 100 ms zu");
    run(&mut voice, &sine(RATE as usize * 4 / 10, -60.0));
    assert!(!voice.chain.gate_open(), "nach 500 ms noch offen");
}

#[test]
fn ausgeschaltet_bleibt_signal_gleich() {
    let mut voice = Voice::new();
    let input = sine(RATE as usize / 2, -20.0);
    assert_eq!(run(&mut voice, &input), input);
}

#[test]
fn limiter_haelt_obergrenze() {
    let mut voice = Voice::new();
    let mut s = comp_settings();
    s.fader_db = n(12.0);
    voice.set(s);
    run(&mut voice, &sine(RATE as usize * 15, -45.0));
    let out = run(&mut voice, &sine(RATE as usize, -3.0));
    let peak = out.iter().fold(0.0f32, |m, y| m.max(y.abs()));
    assert!(peak <= db_to_gain(-1.0) + 1e-6, "Spitze {peak}");
}

#[test]
fn fader_und_mute_wirken() {
    let mut voice = Voice::new();
    let mut s = Settings::default();
    s.fader_db = n(-6.0);
    voice.set(s);
    let input = sine(RATE as usize, -20.0);
    let out = run(&mut voice, &input);
    let difference = tail_rms(&input) - tail_rms(&out);
    assert!((difference - 6.0).abs() < 0.1, "{difference:.2} dB leiser");
    s.muted = true;
    voice.set(s);
    let muted = run(&mut voice, &input);
    assert!(tail_rms(&muted) < -100.0, "stumm ist {} dB", tail_rms(&muted));
}

#[test]
fn stereo_bekommt_dieselbe_verstaerkung() {
    let mut voice = Voice::new();
    voice.set(gate_settings());
    let quiet = sine(RATE as usize, -55.0);
    let mut left = Vec::new();
    let mut right = Vec::new();
    for &x in &quiet {
        let mut frame = [x, x * 0.5];
        voice.process_frame(&mut frame);
        left.push(frame[0]);
        right.push(frame[1]);
    }
    let reduction_left = tail_rms(&quiet) - tail_rms(&left);
    let reduction_right = tail_rms(&quiet) - 6.02 - tail_rms(&right);
    assert!((reduction_left - reduction_right).abs() < 0.1, "links {reduction_left:.1}, rechts {reduction_right:.1}");
}

#[test]
fn reduction_slides_and_stops_at_the_range() {
    let r = |level: f32, below: f32| f(gate_reduction_db(n(level), n(-40.0), n(40.0), n(below)));
    assert_eq!(r(-40.0, 0.0), 0.0);
    assert_eq!(r(-20.0, -60.0), 0.0);
    assert_eq!(r(-45.0, 15.0), 15.0);
    assert_eq!(r(-80.0, 120.0), 40.0);
    // A negative range lowers nothing.
    assert_eq!(f(gate_reduction_db(n(-80.0), n(-40.0), n(-5.0), n(120.0))), 0.0);
    // The higher the threshold, the more is lowered.
    assert!(f(gate_reduction_db(n(-50.0), n(-45.0), n(40.0), n(15.0))) < f(gate_reduction_db(n(-50.0), n(-42.0), n(40.0), n(24.0))));
}

#[test]
fn hold_counts_down_and_keeps_the_reduction() {
    let mut gate = Gate::new();
    gate.configure(&gate_settings().gate, n(0.5), n(0.1), 3);
    assert_eq!(f(gate.range_db), 40.0);
    let c = gate.aim(n(-20.0), n(-60.0));
    assert_eq!((f(c.target), gate.hold_left), (0.0, 3));
    for left in [2, 1, 0] {
        let c = gate.aim(n(-80.0), n(120.0));
        assert_eq!((f(c.target), f(c.k), gate.hold_left), (0.0, 0.1f32, left));
    }
    let c = gate.aim(n(-80.0), n(120.0));
    assert_eq!((f(c.target), gate.hold_left), (40.0, 0));
    gate.settle(n(40.0));
    assert!(!gate.is_open());
    // It opens with the other factor.
    assert_eq!(f(gate.aim(n(-20.0), n(-60.0)).k), 0.5);
    gate.settle(n(0.9));
    assert!(gate.is_open());
}

#[test]
fn comp_goes_nowhere_in_pauses_and_while_a_word_fades() {
    let mut comp = Comp::new();
    comp.configure(&comp_settings().comp, n(0.5), n(0.25));
    assert!(comp.aim(n(-50.0), n(30.0), n(-120.0)).is_none());
    let c = comp.aim(n(-40.0), n(20.0), n(-45.0)).unwrap();
    assert_eq!((f(c.target), f(c.k)), (18.0, 0.25));
    assert!(comp.aim(n(-40.0), n(20.0), n(-30.0)).is_none());
    let c = comp.aim(n(-2.0), n(-30.0), n(0.0)).unwrap();
    assert_eq!((f(c.target), f(c.k)), (-18.0, 0.5));
    assert_eq!(f(comp.follow(n(-30.0), n(-20.0))), -20.0);
    assert_eq!(f(comp.follow(n(-10.0), n(-20.0))), -10.0);
    comp.settle(n(3.0));
    assert_eq!(f(comp.gain_db()), 3.0);
}

#[test]
fn limiter_grips_at_once() {
    let mut l = Limiter::new();
    assert!(l.follow(n(0.9), n(0.1), n(0.5)));
    assert_eq!(f(l.envelope), 0.9);
    assert!(!l.follow(n(0.2), n(0.4), n(0.5)));
    assert_eq!(f(l.envelope), 0.4);
}

#[test]
fn peak_and_limit() {
    assert_eq!(f(peak_of(&vec![n(0.25), n(-0.75), n(0.5)])), 0.75);
    assert_eq!(f(peak_of(&Vec::new())), 0.0);
    assert_eq!(f(peak_of(&vec![n(f32::NAN), n(-0.5)])), 0.5);
    let mut samples = vec![n(0.25), n(-0.75), n(2.0), n(-0.5)];
    limit(&mut samples, n(0.5));
    let out: Vec<f32> = samples.iter().map(|&x| f(x)).collect();
    assert_eq!(out, [0.25, -0.5, 0.5, -0.5]);
}

#[test]
fn stages_come_in_order() {
    let mut voice = Voice::new();
    let stages = |voice: &Voice| {
        let mut list = Vec::new();
        let mut done = None;
        while let Some(stage) = voice.chain.stage_after(done) {
            list.push(stage);
            done = Some(stage);
        }
        list
    };
    assert_eq!(stages(&voice), [Stage::Fader, Stage::Limiter, Stage::Meter]);
    let mut s = comp_settings();
    s.gate.enabled = true;
    s.denoise = true;
    voice.set(s);
    assert_eq!(
        stages(&voice),
        [Stage::Filter, Stage::Gate, Stage::Comp, Stage::Fader, Stage::Limiter, Stage::Meter]
    );
    s.gate.enabled = false;
    voice.set(s);
    assert_eq!(stages(&voice), [Stage::Filter, Stage::Comp, Stage::Fader, Stage::Limiter, Stage::Meter]);
    // Without the right rate there is no filter.
    let mut slow = Chain::new(44_100, n(1.0), n(1.0));
    slow.settings.denoise = true;
    assert!(!slow.filtering());
    assert_eq!(slow.stage_after(None), Some(Stage::Fader));
}

#[test]
fn the_same_settings_are_not_taken_over_twice() {
    let mut voice = Voice::new();
    let s = gate_settings();
    assert!(voice.chain.needs(&s));
    voice.set(s);
    assert!(!voice.chain.needs(&s));
    // Minus zero is zero, and "not a number" is never the same.
    let mut t = s;
    t.fader_db = n(-0.0);
    assert!(!voice.chain.needs(&t));
    t.fader_db = n(f32::NAN);
    assert!(voice.chain.needs(&t));
}

#[test]
fn switching_the_filter_throws_its_blocks_away() {
    let mut voice = Voice::new();
    voice.set(filter_settings(0.0, 0.0, 0.6));
    run(&mut voice, &noise(700, 0.1));
    assert!(!voice.chain.denoiser.as_ref().unwrap().input.is_empty());
    let mut s = filter_settings(0.0, 0.0, 0.6);
    s.fader_db = n(-3.0);
    voice.set(s);
    assert!(!voice.chain.denoiser.as_ref().unwrap().input.is_empty(), "nothing was switched");
    voice.set(Settings::default());
    let d = voice.chain.denoiser.as_ref().unwrap();
    assert!(d.input.is_empty() && d.ready.is_empty() && d.dry.is_empty());
}

#[test]
fn fader_and_speech_figures() {
    let mut voice = Voice::new();
    assert_eq!(f(voice.chain.fader_target().unwrap()), 0.0);
    let mut s = Settings::default();
    s.fader_db = n(100.0);
    voice.set(s);
    assert_eq!(f(voice.chain.fader_target().unwrap()), 24.0);
    s.fader_db = n(-100.0);
    s.denoise_speech_vad = n(0.0);
    s.denoise_duck_db = n(-4.0);
    voice.set(s);
    assert_eq!(f(voice.chain.fader_target().unwrap()), -60.0);
    assert_eq!(f(voice.chain.speech_vad()), 0.1f32 + 0.05f32);
    assert_eq!(f(voice.chain.deepest_duck_db()), 0.0);
    s.muted = true;
    voice.set(s);
    assert!(voice.chain.fader_target().is_none());
    assert_eq!(f(voice.chain.speech()), 1.0);
    assert_eq!(f(voice.chain.duck_db()), 0.0);
    assert!(voice.chain.gate_open());
}

#[test]
fn a_louder_level_is_lowered_less() {
    let lowered = |level: f32| {
        let below = (-40.0 - level) * laermampel::dsp::GATE_SLOPE as f32;
        f32::from_bits(laermampel::dsp::gate_reduction_db(n(level), n(-40.0), n(20.0), n(below)).bits)
    };
    assert_eq!([lowered(-39.0), lowered(-40.0), lowered(-42.0), lowered(-44.0), lowered(-90.0)], [0.0, 0.0, 6.0, 12.0, 20.0]);
}
