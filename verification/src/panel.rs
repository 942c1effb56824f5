//! What the windows show: the channel strip, the choice of an output, the noise window, the
//! version, and the settings of the indicator. Numbers that are shown come as text.

use vstd::arithmetic::power2::pow2;
use vstd::prelude::*;

use crate::agc::is_virtual_device;
use crate::agc::vb_cable_missing;
use crate::app::comp_on;
use crate::app::compresses;
use crate::app::gate_on;
use crate::app::gates;
use crate::app::rate_48k;
use crate::app::right_rate;
use crate::app::words;
use crate::audio::is_virtual;
use crate::audio::missing_device;
use crate::audio::no_device;
use crate::audio::InputDevice;
use crate::placement::is_i32;
use crate::placement::Monitor;
use crate::placement::PhysicalRect;
use crate::settings::DenoiseLevel;
use crate::settings::Settings;
use crate::shared::Feedback;
use crate::single::quarters_of;
use crate::single::whole_of;
use crate::single::Single;
use crate::strip::limit_active;
use crate::strip::limits;
use crate::text::decimal;
use crate::text::join;
use crate::text::joined;
use crate::text::number;
use crate::text::same;
use crate::text::signed_decimal;
use crate::text::signed_number;
use crate::text::texts;
use crate::updater::version_text;
use crate::updater::Status;

verus! {

/// The place of a device in the list, by its id.
pub open spec fn listed_at(devices: Seq<InputDevice>, id: Seq<char>, at: int) -> bool {
    &&& 0 <= at < devices.len()
    &&& devices[at].id@ == id
    &&& forall|j: int| 0 <= j < at ==> #[trigger] devices[j].id@ != id
}

/// There is no device with this id in the list.
pub open spec fn listed_nowhere(devices: Seq<InputDevice>, id: Seq<char>) -> bool {
    forall|j: int| 0 <= j < devices.len() ==> #[trigger] devices[j].id@ != id
}

/// Finds a device by its id.
pub fn find_device(devices: &Vec<InputDevice>, id: &str) -> (r: Option<usize>)
    ensures
        (match r {
            Some(at) => listed_at(devices@, id@, at as int),
            None => forall|j: int| 0 <= j < devices@.len() ==> #[trigger] devices@[j].id@ != id@,
        }),
        r is None ==> listed_nowhere(devices@, id@),
{
    let mut at: usize = 0;
    while at < devices.len()
        invariant
            at <= devices@.len(),
            forall|j: int| 0 <= j < at ==> #[trigger] devices@[j].id@ != id@,
        decreases devices@.len() - at,
    {
        if same(devices[at].id.as_str(), id) {
            return Some(at);
        }
        at = at + 1;
    }
    None
}

/// How the choice of the microphone stands.
#[derive(Clone, Copy, Debug, PartialEq, Eq, Structural)]
pub enum Choice {
    /// Nothing is chosen.
    Unset,
    /// The chosen one is not connected.
    Missing,
    /// The one at this place in the list.
    Device(usize),
}

/// How the choice of the microphone stands.
pub fn choice(device_id: &Option<String>, devices: &Vec<InputDevice>) -> (c: Choice)
    ensures
        (match (*device_id, c) {
            (None, Choice::Unset) => true,
            (Some(id), Choice::Missing) => forall|j: int| 0 <= j < devices@.len() ==> #[trigger] devices@[j].id@ != id@,
            (Some(id), Choice::Device(at)) => listed_at(devices@, id@, at as int),
            _ => false,
        }),
        c == Choice::Missing ==> listed_nowhere(devices@, device_id->0@),
{
    match device_id {
        None => Choice::Unset,
        Some(id) => match find_device(devices, id.as_str()) {
            Some(at) => Choice::Device(at),
            None => Choice::Missing,
        },
    }
}

/// What stands on the button that opens the choice of microphones: its name, or what is wrong.
pub fn choice_text(c: Choice, devices: &Vec<InputDevice>) -> (s: String)
    requires
        c matches Choice::Device(at) ==> at < devices@.len(),
    ensures
        s@ == (match c {
            Choice::Unset => "Kein Mikrofon ausgewählt"@,
            Choice::Missing => "Mikrofon nicht angeschlossen"@,
            Choice::Device(at) => devices@[at as int].name@,
        }) + " ▾"@,
{
    let mut s = String::new();
    match c {
        Choice::Unset => s.append(no_device()),
        Choice::Missing => s.append(missing_device()),
        Choice::Device(at) => s.append(devices[at].name.as_str()),
    }
    s.append(" ▾");
    s
}

/// What a device is called in the list: virtual ones are marked.
pub fn device_label(d: &InputDevice) -> (s: String)
    ensures
        s@ == if is_virtual(d.name@) {
            d.name@ + " (virtuell)"@
        } else {
            d.name@
        },
{
    let mut s = d.name.as_str().to_string();
    if is_virtual_device(d.name.as_str()) {
        s.append(" (virtuell)");
    }
    s
}

/// What the channel strip is drawn from.
pub struct StripView {
    /// The noise gate goes by way of the volume of Windows.
    pub volume_gating: bool,
    pub gate_open: bool,
    /// What the meter shows; `None` where the lowering of the volume has to be taken off the
    /// voice first.
    pub meter_db: Option<Single>,
}

/// What the channel strip is drawn from. `feedback` is there while an output is running. The
/// meter shows what is left after everything; only muted it shows the voice.
pub fn strip_view(s: &Settings, voice_db: Single, feedback: Option<Feedback>, volume_gate_open: bool) -> (v: StripView)
    ensures
        v.volume_gating == (feedback is None && gates(*s)),
        v.gate_open == (gates(*s) && (match feedback {
            Some(f) => f.gate_open,
            None => volume_gate_open,
        })),
        v.meter_db == if s.mic_muted {
            Some(voice_db)
        } else if feedback is Some {
            Some(feedback->0.out_level_db)
        } else if gates(*s) {
            None::<Single>
        } else {
            Some(voice_db)
        },
{
    let gated = gate_on(s);
    StripView {
        volume_gating: feedback.is_none() && gated,
        gate_open: gated && match feedback {
            Some(f) => f.gate_open,
            None => volume_gate_open,
        },
        meter_db: if s.mic_muted {
            Some(voice_db)
        } else {
            match feedback {
                Some(f) => Some(f.out_level_db),
                None => {
                    if gated {
                        None
                    } else {
                        Some(voice_db)
                    }
                },
            }
        },
    }
}

/// The level of the voice: without a microphone nothing at all.
pub fn voice_level(open: bool, display_db: Single) -> (r: Single)
    ensures
        r == if open {
            display_db
        } else {
            whole_of(-120)
        },
{
    if open {
        display_db
    } else {
        Single::whole(-120)
    }
}

/// What of the settings works in other programs only by way of an output.
pub open spec fn in_need_of_output(s: Settings, rate_48k: bool) -> Seq<Seq<char>> {
    (if compresses(s) {
        seq!["Comp."@]
    } else {
        seq![]
    }) + (if limits(s.agc_ceiling_db) {
        seq!["Limiter"@]
    } else {
        seq![]
    }) + (if s.denoise && rate_48k {
        seq!["Rauschfilter"@]
    } else {
        seq![]
    }) + (if s.echo {
        seq!["Echo"@]
    } else {
        seq![]
    })
}

/// What of the settings works in other programs only by way of an output, by name.
pub fn needs_cable(s: &Settings, rate_48k: bool) -> (list: Vec<String>)
    ensures
        texts(list@) == in_need_of_output(*s, rate_48k),
{
    let mut list: Vec<String> = Vec::new();
    if comp_on(s) {
        list.push("Comp.".to_string());
    }
    if limit_active(s.agc_ceiling_db) {
        list.push("Limiter".to_string());
    }
    if s.denoise && rate_48k {
        list.push("Rauschfilter".to_string());
    }
    if s.echo {
        list.push("Echo".to_string());
    }
    assert(texts(list@) =~= in_need_of_output(*s, rate_48k));
    list
}

/// The warning below the strip.
pub enum Warning {
    Nothing,
    /// Some settings have no effect; this is said.
    NoEffect(String),
    /// There is something wrong with the output.
    CheckOutput,
}

/// What is said of settings without effect.
pub open spec fn no_effect(list: Seq<Seq<char>>, output_off: bool) -> Seq<char> {
    "⚠ "@ + joined(list, ", "@) + (if list.len() == 1 {
        " wirkt "@
    } else {
        " wirken "@
    }) + (if output_off {
        "erst mit einem Ausgang"@
    } else {
        "nur mit VB-Cable"@
    })
}

/// The warning below the strip: settings that have no effect without an output, else an output
/// that does not work. That VB-Cable is not there at all is no fault.
pub fn warning(needs: &Vec<String>, running: bool, output_off: bool, output_error: &Option<String>) -> (w: Warning)
    ensures
        (match w {
            Warning::NoEffect(text) => needs@.len() > 0 && !running && text@ == no_effect(texts(needs@), output_off),
            Warning::CheckOutput => (needs@.len() == 0 || running) && (*output_error matches Some(e) && e@
                != "VB-Cable ist nicht installiert."@),
            Warning::Nothing => (needs@.len() == 0 || running) && !(*output_error matches Some(e) && e@
                != "VB-Cable ist nicht installiert."@),
        }),
{
    if needs.len() > 0 && !running {
        let mut text = String::new();
        text.append("⚠ ");
        text.append(join(needs, ", ").as_str());
        if needs.len() == 1 {
            text.append(" wirkt ");
        } else {
            text.append(" wirken ");
        }
        if output_off {
            text.append("erst mit einem Ausgang");
        } else {
            text.append("nur mit VB-Cable");
        }
        assert(text@ =~= no_effect(texts(needs@), output_off));
        return Warning::NoEffect(text);
    }
    match output_error {
        Some(e) => {
            if same(e.as_str(), vb_cable_missing()) {
                Warning::Nothing
            } else {
                Warning::CheckOutput
            }
        },
        None => Warning::Nothing,
    }
}

/// What is said when the knob of the automatic volume is hovered.
pub fn comp_hint(s: &Settings, range: &str, gain: &str) -> (r: String)
    ensures
        r@ == if compresses(*s) {
            "Automatische Lautstärke: bis ±"@ + range@ + " dB, gerade "@ + gain@ + " dB"@
        } else {
            "Automatische Lautstärke: aus"@
        },
{
    if !comp_on(s) {
        return "Automatische Lautstärke: aus".to_string();
    }
    let mut r = String::new();
    r.append("Automatische Lautstärke: bis ±");
    r.append(range);
    r.append(" dB, gerade ");
    r.append(gain);
    r.append(" dB");
    assert(r@ =~= "Automatische Lautstärke: bis ±"@ + range@ + " dB, gerade "@ + gain@ + " dB"@);
    r
}

/// What is said when the knob of the noise gate is hovered.
pub fn gate_hint(s: &Settings, threshold: &str, level: &str) -> (r: String)
    ensures
        r@ == if gates(*s) {
            "Noise Gate: Schwelle "@ + threshold@ + " dB, Mikrofon gerade "@ + level@ + " dB"@
        } else {
            "Noise Gate: aus (ganz links)"@
        },
{
    if !gate_on(s) {
        return "Noise Gate: aus (ganz links)".to_string();
    }
    let mut r = String::new();
    r.append("Noise Gate: Schwelle ");
    r.append(threshold);
    r.append(" dB, Mikrofon gerade ");
    r.append(level);
    r.append(" dB");
    assert(r@ =~= "Noise Gate: Schwelle "@ + threshold@ + " dB, Mikrofon gerade "@ + level@ + " dB"@);
    r
}

/// What is said when the button of the noise window is hovered.
pub fn noise_hint(s: &Settings, rate_48k: bool) -> (r: String)
    ensures
        r@ == if s.denoise && rate_48k {
            "Rauschfilter läuft, Stufe "@ + (match s.denoise_level {
                DenoiseLevel::Leicht => "Leicht"@,
                DenoiseLevel::Medium => "Medium"@,
                DenoiseLevel::Stark => "Stark"@,
            }) + ". Klick öffnet das Fenster."@
        } else if rate_48k {
            "Öffnet „Rauschen“: Filter einschalten (3 Stufen), Diagramm, Rauschprofil."@
        } else {
            "Öffnet „Rauschen“. Der Filter braucht ein Mikrofon mit 48 kHz."@
        },
{
    if s.denoise && rate_48k {
        let mut r = String::new();
        r.append("Rauschfilter läuft, Stufe ");
        r.append(s.denoise_level.label());
        r.append(". Klick öffnet das Fenster.");
        r
    } else if rate_48k {
        "Öffnet „Rauschen“: Filter einschalten (3 Stufen), Diagramm, Rauschprofil.".to_string()
    } else {
        "Öffnet „Rauschen“. Der Filter braucht ein Mikrofon mit 48 kHz.".to_string()
    }
}

/// The reading below the meter: the level, unless there is none, and the delay, if there is an
/// output.
pub fn reading(voice_db: Single, level: &str, latency: &Option<String>) -> (r: String)
    ensures
        r@ == (if quarters_of(-398).less(voice_db) {
            "Pegel "@ + level@ + " dB"@
        } else {
            "Pegel –"@
        }) + (match *latency {
            Some(ms) => " · "@ + ms@ + " ms"@,
            None => Seq::empty(),
        }),
{
    let mut r = String::new();
    if Single::quarters(-398).lt(voice_db) {
        r.append("Pegel ");
        r.append(level);
        r.append(" dB");
    } else {
        r.append("Pegel –");
    }
    let ghost begun = r@;
    if let Some(ms) = latency {
        r.append(" · ");
        r.append(ms.as_str());
        r.append(" ms");
        assert(r@ =~= begun + (" · "@ + ms@ + " ms"@));
    } else {
        assert(r@ =~= begun + Seq::empty());
    }
    assert(begun =~= if quarters_of(-398).less(voice_db) {
        "Pegel "@ + level@ + " dB"@
    } else {
        "Pegel –"@
    });
    r
}

/// What is said of the fader. Without an output it moves the volume of Windows, which may be at its
/// upper end already: then so many dB are lost.
pub fn fader_hint(lost: &Option<String>) -> (s: String)
    ensures
        s@ == "Gain · Doppelklick: 0 dB"@ + (match *lost {
            Some(db) => "\nDer Mikrofon-Regler von Windows steht am Anschlag: "@ + db@
                + " dB gehen verloren. Weiter hoch geht es nur mit VB-Cable als Ausgang."@,
            None => Seq::empty(),
        }),
{
    let mut s = String::new();
    s.append("Gain · Doppelklick: 0 dB");
    let ghost begun = s@;
    match lost {
        Some(db) => {
            s.append("\nDer Mikrofon-Regler von Windows steht am Anschlag: ");
            s.append(db.as_str());
            s.append(" dB gehen verloren. Weiter hoch geht es nur mit VB-Cable als Ausgang.");
            assert(s@ =~= begun + ("\nDer Mikrofon-Regler von Windows steht am Anschlag: "@ + db@
                + " dB gehen verloren. Weiter hoch geht es nur mit VB-Cable als Ausgang."@));
        },
        None => {
            assert(s@ =~= begun + Seq::empty());
        },
    }
    assert(begun =~= "Gain · Doppelklick: 0 dB"@);
    s
}

/// What the echo cancelling has found, as text: how much quieter the echo gets, in dB, and the
/// delay in milliseconds.
pub struct EchoFigures {
    pub erle: Option<String>,
    pub delay: Option<String>,
}

/// What is said of the figures.
pub open spec fn echo_found(figures: EchoFigures) -> Seq<char> {
    (match figures.erle {
        Some(db) => "Echo gerade um "@ + db@ + " dB leiser"@,
        None => "Noch kein Echo gefunden"@,
    }) + (match figures.delay {
        Some(ms) => ", Versatz "@ + ms@ + " ms"@,
        None => Seq::empty(),
    })
}

/// What is said of the echo cancelling: whether it is on, which device is listened to, and what it
/// found. `listening` is the name of that device with the figures while it runs.
pub fn echo_hint(on: bool, listening: &Option<(String, EchoFigures)>) -> (s: String)
    ensures
        s@ == if !on {
            "Echo: aus. Rechnet heraus, was aus deinen Kopfhörern wieder ins Mikrofon geht."@
        } else {
            match *listening {
                Some(l) => "Echo: hört „"@ + l.0@ + "“ mit.\n"@ + echo_found(l.1),
                None => "Echo: wirkt nur über den Ausgang."@,
            }
        },
{
    if !on {
        return "Echo: aus. Rechnet heraus, was aus deinen Kopfhörern wieder ins Mikrofon geht.".to_string();
    }
    match listening {
        None => "Echo: wirkt nur über den Ausgang.".to_string(),
        Some((name, figures)) => {
            let mut s = String::new();
            s.append("Echo: hört „");
            s.append(name.as_str());
            s.append("“ mit.\n");
            let ghost begun = s@;
            match &figures.erle {
                Some(db) => {
                    s.append("Echo gerade um ");
                    s.append(db.as_str());
                    s.append(" dB leiser");
                },
                None => s.append("Noch kein Echo gefunden"),
            }
            if let Some(ms) = &figures.delay {
                s.append(", Versatz ");
                s.append(ms.as_str());
                s.append(" ms");
            }
            assert(begun =~= "Echo: hört „"@ + name@ + "“ mit.\n"@);
            assert(s@ =~= begun + echo_found(*figures));
            s
        },
    }
}

/// The parts of the delay in whole milliseconds, as text.
pub struct Delay {
    pub total: String,
    pub input: String,
    pub buffer: String,
    pub output: String,
    pub filter: String,
}

/// What the delay is made of. Without an output there is none.
pub fn latency_details(delay: &Option<Delay>) -> (s: String)
    ensures
        s@ == (match *delay {
            Some(d) => "Verzögerung "@ + d.total@ + " ms: Mikrofon "@ + d.input@ + " ms + Puffer "@ + d.buffer@
                + " ms + Ausgabe "@ + d.output@ + " ms + Rauschfilter "@ + d.filter@
                + " ms.\nKleiner geht über ⚙ → Feineinstellungen → Puffer."@,
            None => "Verzögerung entsteht erst mit einem Ausgang (VB-Cable)."@,
        }),
{
    match delay {
        None => "Verzögerung entsteht erst mit einem Ausgang (VB-Cable).".to_string(),
        Some(d) => {
            let mut s = String::new();
            s.append("Verzögerung ");
            s.append(d.total.as_str());
            s.append(" ms: Mikrofon ");
            s.append(d.input.as_str());
            s.append(" ms + Puffer ");
            s.append(d.buffer.as_str());
            s.append(" ms + Ausgabe ");
            s.append(d.output.as_str());
            s.append(" ms + Rauschfilter ");
            s.append(d.filter.as_str());
            s.append(" ms.\nKleiner geht über ⚙ → Feineinstellungen → Puffer.");
            assert(s@ =~= "Verzögerung "@ + d.total@ + " ms: Mikrofon "@ + d.input@ + " ms + Puffer "@ + d.buffer@
                + " ms + Ausgabe "@ + d.output@ + " ms + Rauschfilter "@ + d.filter@
                + " ms.\nKleiner geht über ⚙ → Feineinstellungen → Puffer."@);
            s
        },
    }
}

/// What stands on the button that opens the choice of outputs.
pub open spec fn output_shown(output_off: bool, active: Option<Seq<char>>, error: Option<Seq<char>>) -> Seq<char> {
    (if output_off {
        "aus"@
    } else {
        match active {
            Some(name) => name,
            None => if error == Some("VB-Cable ist nicht installiert."@) {
                "kein virtuelles Gerät"@
            } else {
                "–"@
            },
        }
    }) + " ▾"@
}

/// What stands on the button that opens the choice of outputs.
pub fn output_text(output_off: bool, active: &Option<String>, error: &Option<String>) -> (s: String)
    ensures
        s@ == output_shown(output_off, words(*active), words(*error)),
{
    let mut s = String::new();
    if output_off {
        s.append("aus");
    } else {
        match active {
            Some(name) => s.append(name.as_str()),
            None => {
                let missing = match error {
                    Some(e) => same(e.as_str(), vb_cable_missing()),
                    None => false,
                };
                if missing {
                    s.append("kein virtuelles Gerät");
                } else {
                    s.append("–");
                }
            },
        }
    }
    s.append(" ▾");
    s
}

/// A pick in the menu of outputs.
pub enum OutputPick {
    Off,
    Automatic,
    /// The device with this id.
    Device(String),
}

/// VB-Cable is looked for.
pub open spec fn automatic(s: Settings) -> bool {
    !s.output_off && s.agc_output_id is None
}

/// The output is the device with this id.
pub open spec fn plays_to(s: Settings, id: Seq<char>) -> bool {
    !s.output_off && words(s.agc_output_id) == Some(id)
}

/// Whether the entry "automatic" is the one that is chosen.
pub fn automatic_chosen(s: &Settings) -> (r: bool)
    ensures
        r == automatic(*s),
{
    !s.output_off && s.agc_output_id.is_none()
}

/// Whether the entry of a device is the one that is chosen.
pub fn output_chosen(s: &Settings, id: &str) -> (r: bool)
    ensures
        r == plays_to(*s, id@),
{
    !s.output_off && match &s.agc_output_id {
        Some(chosen) => same(chosen.as_str(), id),
        None => false,
    }
}

/// Takes over a pick in the menu of outputs.
pub fn pick_output(s: &mut Settings, pick: OutputPick)
    ensures
        *final(s) == (Settings {
            output_off: pick is Off,
            agc_output_id: match pick {
                OutputPick::Device(id) => Some(id),
                _ => None,
            },
            ..*old(s)
        }),
{
    match pick {
        OutputPick::Off => {
            s.output_off = true;
            s.agc_output_id = None;
        },
        OutputPick::Automatic => {
            s.output_off = false;
            s.agc_output_id = None;
        },
        OutputPick::Device(id) => {
            s.output_off = false;
            s.agc_output_id = Some(id);
        },
    }
}

/// In the menu of outputs always exactly one entry is chosen: off, automatic, or the device of
/// one id.
pub proof fn law_one_output_is_chosen(s: Settings, id: Seq<char>, other: Seq<char>)
    ensures
        s.output_off || automatic(s) || exists|d: Seq<char>| #[trigger] plays_to(s, d),
        !(s.output_off && automatic(s)),
        plays_to(s, id) ==> !s.output_off && !automatic(s),
        plays_to(s, id) && plays_to(s, other) ==> id == other,
{
    if !s.output_off && !automatic(s) {
        assert(plays_to(s, s.agc_output_id->0@));
    }
}

/// What is said of the output among the details.
pub enum OutputNote {
    Nothing,
    /// VB-Cable is not there; where to get it goes along.
    NoCable,
    /// An error, as it is.
    Failed(String),
    /// What to choose in other programs.
    Running,
}

/// What is said of the output among the details.
pub fn output_note(active: bool, error: &Option<String>) -> (n: OutputNote)
    ensures
        (match n {
            OutputNote::NoCable => words(*error) == Some("VB-Cable ist nicht installiert."@),
            OutputNote::Failed(e) => words(*error) == Some(e@) && e@ != "VB-Cable ist nicht installiert."@,
            OutputNote::Running => error is None && active,
            OutputNote::Nothing => error is None && !active,
        }),
{
    match error {
        Some(e) => {
            if same(e.as_str(), vb_cable_missing()) {
                OutputNote::NoCable
            } else {
                OutputNote::Failed(e.as_str().to_string())
            }
        },
        None => {
            if active {
                OutputNote::Running
            } else {
                OutputNote::Nothing
            }
        },
    }
}

/// Whether the details are open from the start: only where there is an error to be read.
pub fn details_open(error: &Option<String>) -> (r: bool)
    ensures
        r == (*error matches Some(e) && e@ != "VB-Cable ist nicht installiert."@),
{
    match error {
        Some(e) => !same(e.as_str(), vb_cable_missing()),
        None => false,
    }
}

/// Chooses a level of the noise filter, or none. One click switches it on and sets it.
pub fn pick_denoise(s: &mut Settings, level: Option<DenoiseLevel>)
    ensures
        *final(s) == (match level {
            Some(l) => Settings { denoise: true, denoise_level: l, ..*old(s) },
            None => Settings { denoise: false, ..*old(s) },
        }),
{
    match level {
        Some(l) => {
            s.denoise = true;
            s.denoise_level = l;
        },
        None => {
            s.denoise = false;
        },
    }
}

/// A click on a level of the noise filter, or on none. With a microphone of another rate the filter
/// cannot run, and the click does nothing.
pub fn click_denoise(s: &mut Settings, level: Option<DenoiseLevel>, rate: Option<u32>)
    ensures
        !right_rate(rate) ==> *final(s) == *old(s),
        right_rate(rate) ==> *final(s) == (match level {
            Some(l) => Settings { denoise: true, denoise_level: l, ..*old(s) },
            None => Settings { denoise: false, ..*old(s) },
        }),
{
    if rate_48k(rate) {
        pick_denoise(s, level);
    }
}

/// Whether a level of the noise filter is the one that is on.
pub fn denoise_chosen(s: &Settings, level: DenoiseLevel) -> (r: bool)
    ensures
        r == (s.denoise && s.denoise_level == level),
{
    s.denoise && s.denoise_level == level
}

/// What is said of the noise.
pub fn profile_text(total: &Option<String>, measuring: bool) -> (s: String)
    ensures
        s@ == (match *total {
            Some(db) => "Gemessenes Rauschen: "@ + db@ + " dB"@,
            None => if measuring {
                "Messe Rauschprofil, bitte nicht sprechen …"@
            } else {
                "Sei kurz still und miss dein Rauschprofil, dann siehst du es als graue Linie."@
            },
        }),
{
    match total {
        Some(db) => {
            let mut s = String::new();
            s.append("Gemessenes Rauschen: ");
            s.append(db.as_str());
            s.append(" dB");
            assert(s@ =~= "Gemessenes Rauschen: "@ + db@ + " dB"@);
            s
        },
        None => {
            if measuring {
                "Messe Rauschprofil, bitte nicht sprechen …".to_string()
            } else {
                "Sei kurz still und miss dein Rauschprofil, dann siehst du es als graue Linie.".to_string()
            }
        },
    }
}

/// The upper end of the diagram: that of the spectrum, within 1 and 20 kHz.
pub fn diagram_top_hz(last_hz: Single) -> (r: Single)
    ensures
        r == last_hz.smaller(whole_of(20_000)).larger(whole_of(1000)),
{
    last_hz.min(Single::whole(20_000)).max(Single::whole(1000))
}

/// Whether a band is drawn: from 50 Hz up to the upper end.
pub fn band_drawn(hz: Single, top_hz: Single) -> (r: bool)
    ensures
        r == (whole_of(50).at_most(hz) && hz.at_most(top_hz)),
{
    Single::whole(50).le(hz) && hz.le(top_hz)
}

/// Whether a line of the grid is drawn: not beyond the upper end.
pub fn grid_drawn(hz: Single, top_hz: Single) -> (r: bool)
    ensures
        r == !top_hz.less(hz),
{
    !top_hz.lt(hz)
}

/// A button in the version part.
#[derive(Clone, Copy, Debug, PartialEq, Eq, Structural)]
pub enum VersionButton {
    Search,
    Retry,
    Install,
}

/// What the version part shows.
pub struct VersionView {
    pub text: Option<String>,
    /// Something is going on.
    pub busy: bool,
    /// The text is an error.
    pub failed: bool,
    pub button: Option<VersionButton>,
    /// There is a page to read about it.
    pub link: bool,
}

/// The text of the version part.
pub open spec fn version_words(status: Status) -> Option<Seq<char>> {
    match status {
        Status::Idle => None,
        Status::UpToDate => Some("Du hast die neueste Version."@),
        Status::Failed(e) => Some(e@),
        Status::Checking => Some("Suche nach Updates …"@),
        Status::Available(r) => Some("Neue Version v"@ + version_text(r.version@) + " verfügbar"@),
        Status::Installing(r) => Some("Lade v"@ + version_text(r.version@) + " herunter …"@),
        Status::Installed(r) => Some("Installiere v"@ + version_text(r.version@) + " …"@),
    }
}

/// The button of the version part.
pub open spec fn version_button(status: Status, installable: bool) -> Option<VersionButton> {
    match status {
        Status::Idle | Status::UpToDate => Some(VersionButton::Search),
        Status::Failed(_) => Some(VersionButton::Retry),
        Status::Available(_) => if installable {
            Some(VersionButton::Install)
        } else {
            None
        },
        _ => None,
    }
}

fn around(before: &str, middle: &str, after: &str) -> (s: String)
    ensures
        s@ == before@ + middle@ + after@,
{
    let mut s = String::new();
    s.append(before);
    s.append(middle);
    s.append(after);
    assert(s@ =~= before@ + middle@ + after@);
    s
}

/// What the version part shows.
pub fn version_view(status: &Status, installable: bool) -> (v: VersionView)
    ensures
        words(v.text) == version_words(*status),
        v.busy == (*status is Checking || *status is Installing || *status is Installed),
        v.failed == (*status is Failed),
        v.button == version_button(*status, installable),
        v.link == (*status is Available),
{
    match status {
        Status::Idle => VersionView {
            text: None,
            busy: false,
            failed: false,
            button: Some(VersionButton::Search),
            link: false,
        },
        Status::UpToDate => VersionView {
            text: Some("Du hast die neueste Version.".to_string()),
            busy: false,
            failed: false,
            button: Some(VersionButton::Search),
            link: false,
        },
        Status::Failed(e) => VersionView {
            text: Some(e.as_str().to_string()),
            busy: false,
            failed: true,
            button: Some(VersionButton::Retry),
            link: false,
        },
        Status::Checking => VersionView {
            text: Some("Suche nach Updates …".to_string()),
            busy: true,
            failed: false,
            button: None,
            link: false,
        },
        Status::Available(r) => VersionView {
            text: Some(around("Neue Version v", r.version.text().as_str(), " verfügbar")),
            busy: false,
            failed: false,
            button: if installable {
                Some(VersionButton::Install)
            } else {
                None
            },
            link: true,
        },
        Status::Installing(r) => VersionView {
            text: Some(around("Lade v", r.version.text().as_str(), " herunter …")),
            busy: true,
            failed: false,
            button: None,
            link: false,
        },
        Status::Installed(r) => VersionView {
            text: Some(around("Installiere v", r.version.text().as_str(), " …")),
            busy: true,
            failed: false,
            button: None,
            link: false,
        },
    }
}

/// While a job is running there is no button that would start another one.
pub proof fn law_no_button_while_busy(status: Status, installable: bool)
    requires
        status is Checking || status is Installing || status is Installed,
    ensures
        version_button(status, installable) is None,
{
}

/// Whether an update is on offer.
pub fn update_available(status: &Status) -> (r: bool)
    ensures
        r == (*status is Available),
{
    match status {
        Status::Available(_) => true,
        _ => false,
    }
}

/// What the choice of screens shows: the chosen one, or that it is not connected.
pub fn monitor_text(monitors: &Vec<Monitor>, index: usize, code: u8) -> (s: String)
    requires
        index < usize::MAX,
        index < monitors@.len() ==> is_i32(monitors@[index as int].work@[2] - monitors@[index as int].work@[0]) && is_i32(
            monitors@[index as int].work@[3] - monitors@[index as int].work@[1],
        ),
    ensures
        index < monitors@.len() ==> s@ == "Monitor "@ + decimal((index + 1) as nat) + " ("@ + signed_decimal(
            monitors@[index as int].work@[2] - monitors@[index as int].work@[0],
        ) + "×"@ + signed_decimal(monitors@[index as int].work@[3] - monitors@[index as int].work@[1]) + (if monitors@[index as int].primary {
            crate::lang::picked(code, ", Hauptbildschirm"@, ", main screen"@)
        } else {
            Seq::empty()
        }) + ")"@,
        index >= monitors@.len() ==> s@ == "Monitor "@ + decimal((index + 1) as nat) + " (nicht angeschlossen)"@,
{
    if index < monitors.len() {
        monitors[index].label(index, code)
    } else {
        around("Monitor ", number((index + 1) as u64).as_str(), " (nicht angeschlossen)")
    }
}

/// Where the indicator sits, or that there is no screen.
pub fn position_text(applied: Option<PhysicalRect>) -> (s: String)
    ensures
        s@ == (match applied {
            Some(r) => "Position "@ + signed_decimal(r.x as int) + ", "@ + signed_decimal(r.y as int) + " · "@
                + signed_decimal(r.w as int) + "×"@ + signed_decimal(r.h as int) + " px"@,
            None => "Kein Monitor gefunden"@,
        }),
{
    match applied {
        None => "Kein Monitor gefunden".to_string(),
        Some(r) => {
            let mut s = String::new();
            s.append("Position ");
            s.append(signed_number(r.x as i64).as_str());
            s.append(", ");
            s.append(signed_number(r.y as i64).as_str());
            s.append(" · ");
            s.append(signed_number(r.w as i64).as_str());
            s.append("×");
            s.append(signed_number(r.h as i64).as_str());
            s.append(" px");
            assert(s@ =~= "Position "@ + signed_decimal(r.x as int) + ", "@ + signed_decimal(r.y as int) + " · "@
                + signed_decimal(r.w as int) + "×"@ + signed_decimal(r.h as int) + " px"@);
            s
        },
    }
}

/// How often it was red.
pub fn red_text(count: u32) -> (s: String)
    ensures
        s@ == "Rot seit Programmstart: "@ + decimal(count as nat) + "×"@,
{
    around("Rot seit Programmstart: ", number(count as u64).as_str(), "×")
}

/// A pick in the menu of outputs is what is chosen then, and nothing else is.
pub proof fn law_pick_is_what_is_chosen(s: &mut Settings, pick: OutputPick, auto: bool, id: &str, plays: bool)
    requires
        call_ensures(pick_output, (s, pick), ()),
        call_ensures(automatic_chosen, (&*final(s),), auto),
        call_ensures(output_chosen, (&*final(s), id), plays),
    ensures
        final(s).output_off <==> pick is Off,
        auto <==> pick is Automatic,
        plays <==> (pick matches OutputPick::Device(d) && d@ == id@),
        final(s).device_id == old(s).device_id && final(s).mic_muted == old(s).mic_muted && final(s).fader_db == old(
            s).fader_db && final(s).denoise == old(s).denoise,
{
}

/// One click on a level of the noise filter switches it on at that level, one on none switches it
/// off; with a microphone that does not have 48 kHz a click does nothing.
pub proof fn law_click_sets_the_filter(
    s: &mut Settings,
    level: Option<DenoiseLevel>,
    rate: Option<u32>,
    asked: DenoiseLevel,
    chosen: bool,
)
    requires
        call_ensures(click_denoise, (s, level, rate), ()),
        call_ensures(denoise_chosen, (&*final(s), asked), chosen),
    ensures
        rate is Some && rate != Some(48_000u32) ==> *final(s) == *old(s),
        (rate is None || rate == Some(48_000u32)) && level is Some ==> (chosen <==> level == Some(asked)),
        (rate is None || rate == Some(48_000u32)) && level is None ==> !chosen && final(s).denoise_level == old(
            s).denoise_level,
        final(s).echo == old(s).echo && final(s).mic_muted == old(s).mic_muted,
{
}

/// The meter shows what is left after everything; muted it shows the voice. Without an output and
/// with the noise gate on, the lowering of the volume has to be taken off first.
pub proof fn law_meter_shows_what_is_left(
    s: &Settings,
    voice_db: Single,
    feedback: Option<Feedback>,
    gate_open: bool,
    v: StripView,
    gated: bool,
)
    requires
        call_ensures(strip_view, (s, voice_db, feedback, gate_open), v),
        call_ensures(gate_on, (s,), gated),
    ensures
        s.mic_muted ==> v.meter_db == Some(voice_db),
        !s.mic_muted ==> (feedback matches Some(f) ==> v.meter_db == Some(f.out_level_db)),
        !s.mic_muted && feedback is None ==> (v.meter_db is None <==> gated),
        v.meter_db is Some && feedback is None ==> v.meter_db == Some(voice_db),
        v.volume_gating <==> gated && feedback is None,
        !gated ==> !v.gate_open,
        gated && feedback is None ==> v.gate_open == gate_open,
        gated ==> (feedback matches Some(f) ==> v.gate_open == f.gate_open),
{
}

/// What works only by way of an output is named exactly where it is on, in this order.
pub proof fn law_what_needs_an_output(s: &Settings, rate_48k: bool, list: Vec<String>, comp: bool, limiter: bool)
    requires
        call_ensures(needs_cable, (s, rate_48k), list),
        call_ensures(comp_on, (s,), comp),
        call_ensures(limit_active, (s.agc_ceiling_db,), limiter),
    ensures
        list@.len() == (if comp {
            1int
        } else {
            0
        }) + (if limiter {
            1int
        } else {
            0
        }) + (if s.denoise && rate_48k {
            1int
        } else {
            0
        }) + (if s.echo {
            1int
        } else {
            0
        }),
        comp ==> list@[0]@ == "Comp."@,
        limiter ==> list@[if comp {
            1int
        } else {
            0
        }]@ == "Limiter"@,
        s.echo ==> list@[list@.len() - 1]@ == "Echo"@,
        s.denoise && rate_48k && !s.echo ==> list@[list@.len() - 1]@ == "Rauschfilter"@,
{
    assert(texts(list@).len() == list@.len());
    assert(forall|i: int| 0 <= i < list@.len() ==> (#[trigger] list@[i])@ == texts(list@)[i]);
}

/// A warning comes where settings have no effect, and where an output fails; that VB-Cable is not
/// there is none.
pub proof fn law_when_a_warning_comes(needs: &Vec<String>, running: bool, off: bool, error: &Option<String>, w: Warning)
    requires
        call_ensures(warning, (needs, running, off, error), w),
    ensures
        needs@.len() > 0 && !running <==> w is NoEffect,
        (needs@.len() == 0 || running) && *error is None ==> w is Nothing,
        (needs@.len() == 0 || running) && (*error matches Some(e) && e@ == "VB-Cable ist nicht installiert."@) ==> w is Nothing,
        (needs@.len() == 0 || running) && (*error matches Some(e) && e@ != "VB-Cable ist nicht installiert."@) ==> w is CheckOutput,
{
}

/// The device with an id is found at its first place, or not at all.
pub proof fn law_device_is_found_by_its_id(devices: &Vec<InputDevice>, id: &str, r: Option<usize>, at: int)
    requires
        call_ensures(find_device, (devices, id), r),
        0 <= at < devices@.len(),
    ensures
        devices@[at].id@ == id@ ==> (r matches Some(n) && n <= at && devices@[n as int].id@ == id@),
        r matches Some(n) && n == at ==> devices@[at].id@ == id@,
{
}

/// An update can be installed only where one is available and installing works; while something is
/// going on there is no button, and there is always a way to go on else.
pub proof fn law_buttons_of_the_version(status: &Status, installable: bool, v: VersionView, available: bool)
    requires
        call_ensures(version_view, (status, installable), v),
        call_ensures(update_available, (status,), available),
    ensures
        available <==> *status is Available,
        v.button == Some(VersionButton::Install) <==> available && installable,
        v.button == Some(VersionButton::Retry) <==> *status is Failed,
        v.button == Some(VersionButton::Search) <==> *status is Idle || *status is UpToDate,
        v.busy ==> v.button is None,
        v.busy <==> *status is Checking || *status is Installing || *status is Installed,
        v.link <==> available,
        v.failed <==> *status is Failed,
{
}

/// The diagram goes up to the end of the spectrum, at least to 1 kHz and at most to 20 kHz, and shows
/// the bands from 50 Hz up to there.
pub proof fn law_bounds_of_the_diagram(last_hz: Single, top: Single, hz: Single, drawn: bool, grid: bool)
    requires
        call_ensures(diagram_top_hz, (last_hz,), top),
        call_ensures(band_drawn, (hz, top), drawn),
        call_ensures(grid_drawn, (hz, top), grid),
        !last_hz.nan(),
        !hz.nan(),
    ensures
        last_hz.val() > 20_000 * pow2(149) ==> top.val() == 20_000 * pow2(149),
        last_hz.val() < 1000 * pow2(149) ==> top.val() == 1000 * pow2(149),
        1000 * pow2(149) <= last_hz.val() <= 20_000 * pow2(149) ==> top == last_hz,
        drawn <==> 50 * pow2(149) <= hz.val() <= top.val(),
        grid <==> hz.val() <= top.val(),
{
    crate::single::lemma_whole_val(20_000);
    crate::single::lemma_whole_val(1000);
    crate::single::lemma_whole_val(50);
    vstd::arithmetic::power2::lemma_pow2_pos(149);
}

/// Without a microphone there is no level.
pub proof fn law_no_level_without_a_microphone(open: bool, display_db: Single, r: Single)
    requires
        call_ensures(voice_level, (open, display_db), r),
    ensures
        open ==> r == display_db,
        !open ==> r.val() == -120 * pow2(149),
{
    crate::single::lemma_whole_val(-120);
}

/// What is shown of the choice of a microphone: nothing chosen, not connected, or the device with
/// that id; virtual ones are marked in the list.
pub proof fn law_choice_is_shown(
    device_id: &Option<String>,
    devices: &Vec<InputDevice>,
    c: Choice,
    at: int,
    d: &InputDevice,
    label: String,
    name: &str,
    virtual_one: bool,
)
    requires
        call_ensures(choice, (device_id, devices), c),
        0 <= at < devices@.len(),
        call_ensures(device_label, (d,), label),
        call_ensures(is_virtual_device, (name,), virtual_one),
        name@ == d.name@,
    ensures
        c == Choice::Unset <==> *device_id is None,
        *device_id matches Some(id) && devices@[at].id@ == id@ ==> (c matches Choice::Device(n) && n <= at),
        c matches Choice::Device(n) ==> n < devices@.len() && (*device_id matches Some(id) && devices@[n as int].id@ == id@),
        !virtual_one ==> label@ == d.name@,
        virtual_one ==> label@ == d.name@ + " (virtuell)"@,
{
}

/// What is said of an output: where it is off, that; else the name of the one that runs; else that
/// there is none. An error is shown as it is, unless VB-Cable is just not there.
pub proof fn law_what_is_said_of_the_output(
    off: bool,
    active: &Option<String>,
    error: &Option<String>,
    s: String,
    running: bool,
    n: OutputNote,
    open: bool,
)
    requires
        call_ensures(output_text, (off, active, error), s),
        call_ensures(output_note, (running, error), n),
        call_ensures(details_open, (error,), open),
    ensures
        off ==> s@ == "aus"@ + " ▾"@,
        !off ==> (*active matches Some(name) ==> s@ == name@ + " ▾"@),
        *error is None ==> (n is Running <==> running) && !open,
        *error matches Some(e) ==> (e@ == "VB-Cable ist nicht installiert."@ <==> n is NoCable),
        *error matches Some(e) ==> (e@ != "VB-Cable ist nicht installiert."@ <==> (n is Failed && open)),
{
}

/// The version that is on offer, that is loaded and that is installed is named.
pub proof fn law_version_is_named(
    status: &Status,
    installable: bool,
    v: VersionView,
    version: &crate::updater::Version,
    text: String,
)
    requires
        call_ensures(version_view, (status, installable), v),
        call_ensures(crate::updater::Version::text, (version,), text),
    ensures
        *status matches Status::Available(r) && r.version == *version ==> (v.text matches Some(s) && s@ == "Neue Version v"@
            + text@ + " verfügbar"@),
        *status matches Status::Installing(r) && r.version == *version ==> (v.text matches Some(s) && s@ == "Lade v"@ + text@
            + " herunter …"@),
        *status matches Status::Installed(r) && r.version == *version ==> (v.text matches Some(s) && s@ == "Installiere v"@
            + text@ + " …"@),
        *status matches Status::Failed(e) ==> (v.text matches Some(s) && s@ == e@),
        *status is Idle ==> v.text is None,
{
}

/// The warning names everything that has no effect, and says where it would.
pub proof fn law_warning_names_what_has_no_effect(
    needs: &Vec<String>,
    off: bool,
    error: &Option<String>,
    w: Warning,
    names: String,
)
    requires
        call_ensures(warning, (needs, false, off, error), w),
        call_ensures(join, (needs, ", "), names),
        needs@.len() > 0,
    ensures
        w matches Warning::NoEffect(text) && text@ == "⚠ "@ + names@ + (if needs@.len() == 1 {
            " wirkt "@
        } else {
            " wirken "@
        }) + (if off {
            "erst mit einem Ausgang"@
        } else {
            "nur mit VB-Cable"@
        }),
{
}

/// The hints of the knobs say that they are off exactly where they are, and else their numbers, each
/// in its place.
pub proof fn law_hints_say_the_numbers(
    s: &Settings,
    a: &str,
    b: &str,
    comp: String,
    gate: String,
    compresses: bool,
    gated: bool,
)
    requires
        call_ensures(comp_hint, (s, a, b), comp),
        call_ensures(gate_hint, (s, a, b), gate),
        call_ensures(comp_on, (s,), compresses),
        call_ensures(gate_on, (s,), gated),
    ensures
        compresses ==> comp@ == "Automatische Lautstärke: bis ±"@ + a@ + " dB, gerade "@ + b@ + " dB"@,
        !compresses ==> comp@ == "Automatische Lautstärke: aus"@,
        gated ==> gate@ == "Noise Gate: Schwelle "@ + a@ + " dB, Mikrofon gerade "@ + b@ + " dB"@,
        !gated ==> gate@ == "Noise Gate: aus (ganz links)"@,
{
}

/// What the echo cancelling found is said with the numbers in their places, and that it found none
/// yet.
pub proof fn law_echo_is_said_as_it_was_found(on: bool, listening: &Option<(String, EchoFigures)>, s: String)
    requires
        call_ensures(echo_hint, (on, listening), s),
    ensures
        !on ==> s@ == "Echo: aus. Rechnet heraus, was aus deinen Kopfhörern wieder ins Mikrofon geht."@,
        on && *listening is None ==> s@ == "Echo: wirkt nur über den Ausgang."@,
        on ==> (*listening matches Some(l) ==> {
            let begun = "Echo: hört „"@ + l.0@ + "“ mit.\n"@;
            &&& l.1.erle is None && l.1.delay is None ==> s@ == begun + "Noch kein Echo gefunden"@
            &&& l.1.erle is Some && l.1.delay is None ==> s@ == begun + ("Echo gerade um "@ + l.1.erle->0@ + " dB leiser"@)
            &&& l.1.erle is Some && l.1.delay is Some ==> s@ == begun + ("Echo gerade um "@ + l.1.erle->0@ + " dB leiser"@
                + (", Versatz "@ + l.1.delay->0@ + " ms"@))
        }),
{
    if let Some(l) = listening {
        let begun = "Echo: hört „"@ + l.0@ + "“ mit.\n"@;
        assert(on && l.1.erle is None && l.1.delay is None ==> s@ =~= begun + "Noch kein Echo gefunden"@);
        assert(on && l.1.erle is Some && l.1.delay is None ==> s@ =~= begun + ("Echo gerade um "@ + l.1.erle->0@
            + " dB leiser"@));
    }
}

} // verus!
