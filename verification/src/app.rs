//! What the program as a whole decides: the chain, the indicator, the windows, and what happens
//! with every picture.

use vstd::arithmetic::power2::pow2;
use vstd::prelude::*;

use crate::agc::is_virtual_device;
use crate::audio::is_virtual;
use crate::audio::missing_device;
use crate::audio::no_device;
use crate::clock::elapsed;
use crate::clock::passed;
use crate::dsp;
use crate::dsp::CompSettings;
use crate::dsp::GateSettings;
use crate::dsp::FILTER_RATE;
use crate::dsp::SPEECH_VAD_BITS;
use crate::level::running;
use crate::level::silence_db;
use crate::level::Zone;
use crate::level::SILENCE;
use crate::placement::PhysicalRect;
use crate::settings::DenoiseLevel;
use crate::settings::DisplayMode;
use crate::settings::Settings;
use crate::single::quarters_of;
use crate::single::whole_of;
use crate::single::Single;
use crate::text::same;
use crate::tray::TrayAction;

verus! {

/// 0.05: below this a knob from 0 to 10 is off.
pub const KNOB_OFF_BITS: u32 = 0x3d4c_cccd;

/// 0.01: up to this brightness nothing is drawn.
pub const DARK_BITS: u32 = 0x3c23_d70a;

/// 0.05: the indicator is never drawn with less opacity.
pub const LEAST_OPACITY_BITS: u32 = 0x3d4c_cccd;

/// Every 2 s a lost microphone is tried again.
pub const RETRY_INTERVAL: u64 = 2_000_000_000;

/// Changed settings are written once in a second.
pub const SAVE_INTERVAL: u64 = 1_000_000_000;

/// Every 2 s it is looked which screens there are.
pub const MONITOR_SCAN_INTERVAL: u64 = 2_000_000_000;

/// Once in a second the indicator is brought to the front, in case a game covered it.
pub const REASSERT_INTERVAL: u64 = 1_000_000_000;

/// A preview lasts 3 s.
pub const PREVIEW_DURATION: u64 = 3_000_000_000;

/// Whether a filter is still entered is read again after 5 s.
pub const LEFTOVER_INTERVAL: u64 = 5_000_000_000;

/// The colour of a zone: red, green, blue.
pub open spec fn rgb(zone: Zone) -> Seq<u8> {
    match zone {
        Zone::Green => seq![40u8, 200u8, 90u8],
        Zone::Yellow => seq![245u8, 190u8, 20u8],
        Zone::Red => seq![235u8, 45u8, 45u8],
    }
}

pub fn zone_rgb(zone: Zone) -> (r: [u8; 3])
    ensures
        r@ == rgb(zone),
{
    let r: [u8; 3] = match zone {
        Zone::Green => [40, 200, 90],
        Zone::Yellow => [245, 190, 20],
        Zone::Red => [235, 45, 45],
    };
    assert(r@ =~= rgb(zone));
    r
}

/// The noise gate is on: its threshold lies more than half a dB above the left end of its knob.
pub open spec fn gates(s: Settings) -> bool {
    quarters_of(-398).less(s.gate_threshold_db)
}

/// Whether the noise gate is on.
pub fn gate_on(s: &Settings) -> (r: bool)
    ensures
        r == gates(*s),
{
    Single::quarters(-398).lt(s.gate_threshold_db)
}

/// The automatic volume is on.
pub open spec fn compresses(s: Settings) -> bool {
    (Single { bits: KNOB_OFF_BITS }).less(s.comp_knob)
}

/// Whether the automatic volume is on.
pub fn comp_on(s: &Settings) -> (r: bool)
    ensures
        r == compresses(*s),
{
    (Single { bits: KNOB_OFF_BITS }).lt(s.comp_knob)
}

/// The microphone has the rate that the noise filter needs. Without a microphone nothing speaks
/// against it.
pub open spec fn right_rate(rate: Option<u32>) -> bool {
    rate matches Some(r) ==> r == FILTER_RATE
}

/// Whether the microphone has the rate that the noise filter needs.
pub fn rate_48k(rate: Option<u32>) -> (r: bool)
    ensures
        r == right_rate(rate),
{
    match rate {
        Some(r) => r == FILTER_RATE,
        None => true,
    }
}

/// Whether the noise filter runs. With another rate it does not, and then it must not count as
/// active anywhere.
pub fn denoise_active(s: &Settings, rate: Option<u32>) -> (r: bool)
    ensures
        r == (s.denoise && right_rate(rate)),
{
    s.denoise && rate_48k(rate)
}

/// The settings of the chain, from those of the surface. `comp_range_db` is how much the knob of
/// the automatic volume allows: 2 dB for each of its steps.
pub open spec fn for_chain(s: Settings, comp_range_db: Single, rate: Option<u32>) -> dsp::Settings {
    dsp::Settings {
        denoise: s.denoise && right_rate(rate),
        denoise_speech_vad: Single { bits: SPEECH_VAD_BITS },
        denoise_duck_db: whole_of(s.denoise_level.duck()),
        denoise_dry: s.denoise_level.dry_share(),
        gate: GateSettings {
            enabled: gates(s),
            threshold_db: s.gate_threshold_db,
            range_db: s.gate_range_db,
            attack_ms: s.gate_attack_ms,
            hold_ms: s.gate_hold_ms,
            release_ms: s.gate_release_ms,
        },
        comp: CompSettings {
            enabled: compresses(s),
            target_db: s.agc_target_db,
            max_gain_db: comp_range_db,
            max_cut_db: comp_range_db,
            attack_ms: s.agc_attack_ms,
            release_ms: s.agc_release_ms,
            pause_db: s.agc_gate_db,
        },
        fader_db: s.fader_db,
        muted: s.mic_muted,
        ceiling_db: s.agc_ceiling_db,
    }
}

/// The settings of the chain, from those of the surface.
pub fn chain_settings(s: &Settings, comp_range_db: Single, rate: Option<u32>) -> (c: dsp::Settings)
    ensures
        c == for_chain(*s, comp_range_db, rate),
{
    dsp::Settings {
        denoise: denoise_active(s, rate),
        denoise_speech_vad: Single { bits: SPEECH_VAD_BITS },
        denoise_duck_db: s.denoise_level.duck_db(),
        denoise_dry: s.denoise_level.dry(),
        gate: GateSettings {
            enabled: gate_on(s),
            threshold_db: s.gate_threshold_db,
            range_db: s.gate_range_db,
            attack_ms: s.gate_attack_ms,
            hold_ms: s.gate_hold_ms,
            release_ms: s.gate_release_ms,
        },
        comp: CompSettings {
            enabled: comp_on(s),
            target_db: s.agc_target_db,
            max_gain_db: comp_range_db,
            max_cut_db: comp_range_db,
            attack_ms: s.agc_attack_ms,
            release_ms: s.agc_release_ms,
            pause_db: s.agc_gate_db,
        },
        fader_db: s.fader_db,
        muted: s.mic_muted,
        ceiling_db: s.agc_ceiling_db,
    }
}

/// The zone that is shown: red during a preview.
pub fn shown_zone(preview_until: Option<u64>, now: u64, zone: Zone) -> (r: Zone)
    ensures
        r == if running(preview_until, now) {
            Zone::Red
        } else {
            zone
        },
{
    match preview_until {
        Some(end) if now < end => Zone::Red,
        _ => zone,
    }
}

/// When a preview that begins now ends.
pub fn preview_end(now: u64) -> (r: u64)
    requires
        now + PREVIEW_DURATION <= u64::MAX,
    ensures
        r == now + PREVIEW_DURATION,
{
    now + PREVIEW_DURATION
}

/// How bright a zone is drawn: green has its own brightness.
pub open spec fn brightness(zone: Zone, s: Settings) -> Single {
    match zone {
        Zone::Green => s.green_brightness,
        _ => s.brightness,
    }
}

pub fn zone_brightness(zone: Zone, s: &Settings) -> (r: Single)
    ensures
        r == brightness(zone, *s),
{
    match zone {
        Zone::Green => s.green_brightness,
        _ => s.brightness,
    }
}

/// Width and height of the indicator at 100 %.
pub fn indicator_size(s: &Settings) -> (r: (Single, Single))
    ensures
        r == (match s.display {
            DisplayMode::Dot => (s.dot_size, s.dot_size),
            DisplayMode::Bar => (s.bar_width, whole_of(28)),
        }),
{
    match s.display {
        DisplayMode::Dot => (s.dot_size, s.dot_size),
        DisplayMode::Bar => (s.bar_width, Single::whole(28)),
    }
}

/// How the indicator covers what is behind it: never less than a little.
pub fn indicator_opacity(s: &Settings) -> (r: Single)
    ensures
        r == s.opacity.limited(Single { bits: LEAST_OPACITY_BITS }, whole_of(1)),
{
    let low = Single { bits: LEAST_OPACITY_BITS };
    let high = Single::whole(1);
    proof {
        lemma_least_opacity();
    }
    s.opacity.clamp(low, high)
}

proof fn lemma_least_opacity()
    ensures
        (Single { bits: LEAST_OPACITY_BITS }).at_most(whole_of(1)),
{
    let low = Single { bits: LEAST_OPACITY_BITS };
    let one = Single { bits: 0x3f80_0000 };
    vstd::arithmetic::power2::lemma_pow2_adds(23, 126);
    vstd::arithmetic::power2::lemma_pow2_adds(2, 147);
    vstd::arithmetic::power2::lemma2_to64();
    reveal(Single::val);
    assert(one.magnitude() / 0x80_0000 == 127);
    assert(one.magnitude() % 0x80_0000 == 0);
    assert(one.is_whole(1));
    crate::single::lemma_quarters_unique(one, 4);
    crate::single::lemma_order(low, one);
}

/// Where the bar of the indicator begins: at least 10 dB below its upper end.
pub fn bar_floor_db(s: &Settings) -> (r: Single)
    ensures
        r == s.bar_min_db.smaller(whole_of(-10)),
{
    s.bar_min_db.min(Single::whole(-10))
}

/// What is drawn of the indicator.
#[derive(Clone, Copy, Debug, PartialEq, Eq, Structural)]
pub enum Drawing {
    /// Brightness zero means invisible.
    Nothing,
    /// A grey dot with a red ring.
    MutedDot,
    Dot,
    Bar,
    /// The bar with a red ring.
    MutedBar,
}

/// What is drawn: mute is always visible, even where green is not.
pub open spec fn drawn(display: DisplayMode, muted: bool, bright: Single) -> Drawing {
    let dark = bright.at_most(Single { bits: DARK_BITS });
    match display {
        DisplayMode::Dot => if muted {
            Drawing::MutedDot
        } else if dark {
            Drawing::Nothing
        } else {
            Drawing::Dot
        },
        DisplayMode::Bar => if muted {
            Drawing::MutedBar
        } else if dark {
            Drawing::Nothing
        } else {
            Drawing::Bar
        },
    }
}

pub fn indicator(display: DisplayMode, muted: bool, bright: Single) -> (d: Drawing)
    ensures
        d == drawn(display, muted, bright),
{
    let dark = bright.le(Single { bits: DARK_BITS });
    match display {
        DisplayMode::Dot => {
            if muted {
                Drawing::MutedDot
            } else if dark {
                Drawing::Nothing
            } else {
                Drawing::Dot
            }
        },
        DisplayMode::Bar => {
            if muted {
                Drawing::MutedBar
            } else if dark {
                Drawing::Nothing
            } else {
                Drawing::Bar
            }
        },
    }
}

/// Being muted can always be seen.
pub proof fn law_mute_is_always_seen(display: DisplayMode, bright: Single)
    ensures
        drawn(display, true, bright) == Drawing::MutedDot || drawn(display, true, bright) == Drawing::MutedBar,
{
}

/// Which windows are open.
#[derive(Clone, Copy, Debug, PartialEq, Eq, Structural)]
pub struct Windows {
    pub settings: bool,
    /// The settings are to be brought to the front.
    pub focus: bool,
    /// The settings have been drawn since they were opened.
    pub seen: bool,
    pub display: bool,
    pub general: bool,
    pub noise: bool,
}

impl Windows {
    /// At the start the settings are open only where there is no symbol by which one could get
    /// to them.
    pub fn new(tray: bool) -> (w: Windows)
        ensures
            w == (Windows { settings: !tray, focus: false, seen: false, display: false, general: false, noise: false }),
    {
        Windows { settings: !tray, focus: false, seen: false, display: false, general: false, noise: false }
    }

    /// With the settings open and in front.
    pub open spec fn opened(self) -> Windows {
        Windows { settings: true, focus: true, ..self }
    }

    /// With the settings closed, and the small windows that belong to them.
    pub open spec fn shut(self) -> Windows {
        Windows { settings: false, seen: false, display: false, general: false, noise: false, ..self }
    }

    pub fn open_settings(&mut self)
        ensures
            *final(self) == old(self).opened(),
    {
        self.settings = true;
        self.focus = true;
    }

    /// Closes the settings, and the small windows that belong to them. Says whether the program
    /// ends: without a symbol it could not be reached any more.
    pub fn close_settings(&mut self, tray: bool) -> (quit: bool)
        ensures
            quit == !tray,
            *final(self) == old(self).shut(),
    {
        self.settings = false;
        self.seen = false;
        self.display = false;
        self.general = false;
        self.noise = false;
        !tray
    }

    /// The settings are drawn. Says whether for the first time.
    pub fn draw(&mut self) -> (first: bool)
        ensures
            first == !old(self).seen,
            *final(self) == (Windows { seen: true, ..*old(self) }),
    {
        let first = !self.seen;
        self.seen = true;
        first
    }

    /// Whether the settings are to be brought to the front now; once.
    pub fn take_focus(&mut self) -> (r: bool)
        ensures
            r == old(self).focus,
            *final(self) == (Windows { focus: false, ..*old(self) }),
    {
        let r = self.focus;
        self.focus = false;
        r
    }

    /// A click on the button of the noise window. Says whether it was opened, so that the diagram
    /// begins anew.
    pub fn click_noise(&mut self, clicked: bool) -> (restart: bool)
        ensures
            *final(self) == (Windows { noise: old(self).noise != clicked, ..*old(self) }),
            restart == (clicked && final(self).noise),
    {
        if clicked {
            self.noise = !self.noise;
        }
        clicked && self.noise
    }
}

/// Closing leaves nothing open that would jump up again with the next opening.
pub proof fn law_closing_closes_everything(w: Windows)
    ensures
        !w.shut().settings,
        w.shut().opened().settings,
        !w.shut().opened().display && !w.shut().opened().general && !w.shut().opened().noise,
{
}

/// When the indicator was last placed.
#[derive(Clone, Copy, Debug, PartialEq, Eq, Structural)]
pub struct Placing {
    pub last_scan: u64,
    pub applied: Option<PhysicalRect>,
    pub last_reassert: u64,
}

impl Placing {
    pub fn new(now: u64) -> (p: Placing)
        ensures
            p == (Placing { last_scan: now, applied: None, last_reassert: now }),
    {
        Placing { last_scan: now, applied: None, last_reassert: now }
    }

    /// Whether it is to be looked which screens there are.
    pub fn scan_due(&mut self, now: u64) -> (r: bool)
        ensures
            r == (passed(old(self).last_scan, now) >= MONITOR_SCAN_INTERVAL),
            *final(self) == if r {
                Placing { last_scan: now, ..*old(self) }
            } else {
                *old(self)
            },
    {
        if elapsed(self.last_scan, now) >= MONITOR_SCAN_INTERVAL {
            self.last_scan = now;
            true
        } else {
            false
        }
    }

    /// The window has to be moved: the place is another one, or the window is due to be brought
    /// to the front.
    pub open spec fn moves(self, target: Option<PhysicalRect>, now: u64) -> bool {
        target is Some && (target != self.applied || passed(self.last_reassert, now) >= REASSERT_INTERVAL)
    }

    /// Whether the window has to be moved to `target`.
    pub fn place(&mut self, target: Option<PhysicalRect>, now: u64) -> (r: bool)
        ensures
            r == old(self).moves(target, now),
            *final(self) == if r {
                Placing { applied: target, last_reassert: now, ..*old(self) }
            } else {
                *old(self)
            },
    {
        match target {
            None => false,
            Some(rect) => {
                let there = match self.applied {
                    Some(at) => at == rect,
                    None => false,
                };
                if !there || elapsed(self.last_reassert, now) >= REASSERT_INTERVAL {
                    self.applied = Some(rect);
                    self.last_reassert = now;
                    true
                } else {
                    false
                }
            },
        }
    }
}

/// The last message in the log, so that the same one is not written again and again.
pub struct LogOnce {
    pub last: Option<String>,
}

impl LogOnce {
    /// Whether a message is to be written.
    pub fn is_new(&mut self, message: &str) -> (r: bool)
        ensures
            r == !(old(self).last matches Some(m) && m@ == message@),
            final(self).last matches Some(m) && m@ == message@,
    {
        let again = match &self.last {
            Some(m) => same(m.as_str(), message),
            None => false,
        };
        if !again {
            self.last = Some(message.to_string());
        }
        !again
    }
}

/// The state of the microphone.
pub struct Microphone {
    pub open: bool,
    pub error: Option<String>,
    pub last_retry: u64,
}

/// What a text in an option says.
pub open spec fn words(t: Option<String>) -> Option<Seq<char>> {
    match t {
        Some(t) => Some(t@),
        None => None,
    }
}

impl Microphone {
    pub fn new(now: u64) -> (m: Microphone)
        ensures
            !m.open,
            m.error is None,
            m.last_retry == now,
    {
        Microphone { open: false, error: None, last_retry: now }
    }

    /// Begins anew. Says whether there is a device to be opened; without a choice that is what is
    /// said.
    pub fn restart(&mut self, chosen: bool, now: u64) -> (open: bool)
        ensures
            open == chosen,
            !final(self).open,
            final(self).last_retry == now,
            chosen ==> final(self).error == old(self).error,
            !chosen ==> words(final(self).error) == Some("Kein Mikrofon ausgewählt"@),
    {
        self.open = false;
        self.last_retry = now;
        if !chosen {
            self.error = Some(no_device().to_string());
        }
        chosen
    }

    /// The device was opened, or not.
    pub fn opened(&mut self, outcome: Result<(), String>)
        ensures
            final(self).open == (outcome is Ok),
            final(self).error == (match outcome {
                Ok(_) => None::<String>,
                Err(e) => Some(e),
            }),
            final(self).last_retry == old(self).last_retry,
    {
        match outcome {
            Ok(_) => {
                self.open = true;
                self.error = None;
            },
            Err(e) => {
                self.open = false;
                self.error = Some(e);
            },
        }
    }

    /// The stream reported a fault: it is closed, and tried again later.
    pub fn failed(&mut self, fault: &str)
        ensures
            !final(self).open,
            words(final(self).error) == Some(fault@ + " Verbinde neu …"@),
            final(self).last_retry == old(self).last_retry,
    {
        let mut e = String::new();
        e.append(fault);
        e.append(" Verbinde neu …");
        assert(e@ =~= fault@ + " Verbinde neu …"@);
        self.open = false;
        self.error = Some(e);
    }

    /// Whether a lost microphone is tried again now.
    pub fn retry_due(&self, now: u64) -> (r: bool)
        ensures
            r == (!self.open && passed(self.last_retry, now) >= RETRY_INTERVAL),
    {
        !self.open && elapsed(self.last_retry, now) >= RETRY_INTERVAL
    }

    /// The level to be shown: without a microphone silence, rather than the last one for ever.
    pub fn level_or_silence(&self, input: Option<Single>) -> (r: Option<Single>)
        ensures
            r == (match input {
                Some(db) => Some(db),
                None => if self.open {
                    None::<Single>
                } else {
                    Some(whole_of(SILENCE as int))
                },
            }),
    {
        match input {
            Some(db) => Some(db),
            None => {
                if self.open {
                    None
                } else {
                    Some(silence_db())
                }
            },
        }
    }
}

/// What the volume of Windows has to do, where no output processes the sound.
#[derive(Clone, Copy, Debug, PartialEq, Eq, Structural)]
pub struct Routing {
    pub gate: bool,
    pub mute: bool,
    pub fader_db: Single,
}

/// Gate, mute and fader go by way of the volume of Windows only while there is no output.
pub fn route(s: &Settings, chain_running: bool) -> (r: Routing)
    ensures
        r.gate == (gates(*s) && !chain_running),
        r.mute == (s.mic_muted && !chain_running),
        r.fader_db == if chain_running {
            whole_of(0)
        } else {
            s.fader_db
        },
{
    Routing {
        gate: gate_on(s) && !chain_running,
        mute: s.mic_muted && !chain_running,
        fader_db: if chain_running {
            Single::whole(0)
        } else {
            s.fader_db
        },
    }
}

/// A jump to red: it counts and beeps, except when muted, since nobody hears it then.
pub fn on_red(count: &mut u32, became_red: bool, s: &Settings) -> (beep: bool)
    requires
        *old(count) < u32::MAX,
    ensures
        *final(count) == if became_red && !s.mic_muted {
            *old(count) + 1
        } else {
            *old(count) as int
        },
        beep == (became_red && !s.mic_muted && s.beep_enabled),
{
    if became_red && !s.mic_muted {
        *count = *count + 1;
        s.beep_enabled
    } else {
        false
    }
}

/// Whether the diagram is computed: only while somebody looks, or while a profile is measured.
pub fn diagram_wanted(noise_open: bool, measuring: bool) -> (r: bool)
    ensures
        r == (noise_open || measuring),
{
    noise_open || measuring
}

/// What an action of the symbol leads to.
#[derive(Clone, Copy, Debug, PartialEq, Eq, Structural)]
pub enum Effect {
    Nothing,
    SettingsOpened,
    Quit,
}

/// Carries out an action of the symbol.
pub fn act(action: TrayAction, windows: &mut Windows, muted: &mut bool) -> (e: Effect)
    ensures
        *final(windows) == if action == TrayAction::OpenSettings {
            old(windows).opened()
        } else {
            *old(windows)
        },
        *final(muted) == (*old(muted) != (action == TrayAction::ToggleMute)),
        e == (match action {
            TrayAction::OpenSettings => Effect::SettingsOpened,
            TrayAction::ToggleMute => Effect::Nothing,
            TrayAction::Quit => Effect::Quit,
        }),
{
    match action {
        TrayAction::OpenSettings => {
            windows.open_settings();
            Effect::SettingsOpened
        },
        TrayAction::ToggleMute => {
            *muted = !*muted;
            Effect::Nothing
        },
        TrayAction::Quit => Effect::Quit,
    }
}

/// Whether the settings are to be written: they changed, and the last time is long enough ago.
pub fn save_due(s: &Settings, saved: &Settings, last_save: u64, now: u64) -> (r: bool)
    ensures
        r == (!s.alike(*saved) && passed(last_save, now) >= SAVE_INTERVAL),
{
    !s.same(saved) && elapsed(last_save, now) >= SAVE_INTERVAL
}

/// The choice of an output at the start. Headphones and loudspeakers from before are dropped;
/// a device that is not there yet is not, else the choice would be lost for ever. `found` says
/// of the chosen one, if it is there, whether it is virtual.
pub fn keep_output(found: Option<bool>) -> (r: bool)
    ensures
        r == (found != Some(false)),
{
    match found {
        Some(virtual_one) => virtual_one,
        None => true,
    }
}

/// Whether the choice of an output stays at the start; `name` is that of the chosen device, if it
/// is there.
pub fn output_stays(name: &Option<String>) -> (r: bool)
    ensures
        r == !(*name matches Some(n) && !is_virtual(n@)),
{
    match name {
        Some(n) => keep_output(Some(is_virtual_device(n.as_str()))),
        None => keep_output(None),
    }
}

/// Another microphone is chosen; nothing else changes.
pub fn pick_microphone(s: &mut Settings, id: String)
    ensures
        *final(s) == (Settings { device_id: Some(id), ..*old(s) }),
{
    s.device_id = Some(id);
}

/// A noise profile is kept with the settings, or thrown away; nothing else changes.
pub fn keep_profile(s: &mut Settings, profile: Option<Vec<Single>>)
    ensures
        *final(s) == (Settings { noise_profile: profile, ..*old(s) }),
{
    s.noise_profile = profile;
}

/// Where taking out an old filter stands.
pub enum ApoJob {
    Idle,
    Running(String),
    Failed(String),
}

/// What came of it.
pub fn job_done(outcome: Result<(), String>) -> (job: ApoJob)
    ensures
        (match (outcome, job) {
            (Ok(_), ApoJob::Idle) => true,
            (Err(e), ApoJob::Failed(f)) => f == e,
            _ => false,
        }),
{
    match outcome {
        Ok(_) => ApoJob::Idle,
        Err(e) => ApoJob::Failed(e),
    }
}

/// Whether it has to be read again if a filter is still entered: what was read, and when.
pub fn leftover_stale(read: Option<(bool, u64)>, now: u64) -> (r: bool)
    ensures
        r == (match read {
            Some(l) => passed(l.1, now) > LEFTOVER_INTERVAL,
            None => true,
        }),
{
    match read {
        Some((_, at)) => elapsed(at, now) > LEFTOVER_INTERVAL,
        None => true,
    }
}

/// Whether anything is shown of it: a filter is entered, or one is being taken out.
pub fn leftover_shown(installed: bool, job: &ApoJob) -> (r: bool)
    ensures
        r == (installed || job is Running),
{
    if installed {
        return true;
    }
    match job {
        ApoJob::Running(_) => true,
        _ => false,
    }
}

/// Starting with Windows was switched. What is shown then: the new state, or the old one with
/// what went wrong.
pub fn autostart_set(enabled: bool, before: bool, outcome: Result<(), String>) -> (r: (bool, Option<String>))
    ensures
        r.0 == if outcome is Ok {
            enabled
        } else {
            before
        },
        r.1 == (match outcome {
            Ok(_) => None::<String>,
            Err(e) => Some(e),
        }),
{
    match outcome {
        Ok(_) => (enabled, None),
        Err(e) => (before, Some(e)),
    }
}

/// Whether a slider that changed takes effect now: when it was let go, or when its value came
/// from the keyboard.
pub fn slider_done(drag_stopped: bool, changed: bool, dragged: bool) -> (r: bool)
    ensures
        r == (drag_stopped || (changed && !dragged)),
{
    drag_stopped || (changed && !dragged)
}

/// The message in the log when a microphone runs; `output` is where its sound goes, or why it
/// goes nowhere.
pub fn started_message(input: &str, output: &str) -> (s: String)
    ensures
        s@ == "Mikrofon läuft: "@ + input@ + " · Ausgabe: "@ + output@,
{
    let mut s = String::new();
    s.append("Mikrofon läuft: ");
    s.append(input);
    s.append(" · Ausgabe: ");
    s.append(output);
    assert(s@ =~= "Mikrofon läuft: "@ + input@ + " · Ausgabe: "@ + output@);
    s
}

/// An error of the microphone that is to be shown beside the choice of devices: not one that the
/// choice itself shows already.
pub fn other_error(error: &Option<String>, device_problem: bool) -> (r: Option<String>)
    ensures
        words(r) == (match *error {
            Some(e) => if e@ != "Kein Mikrofon ausgewählt"@ && e@ != "Mikrofon nicht angeschlossen"@ && !device_problem {
                Some(e@)
            } else {
                None
            },
            None => None,
        }),
{
    match error {
        Some(e) => {
            if !same(e.as_str(), no_device()) && !same(e.as_str(), missing_device()) && !device_problem {
                Some(e.as_str().to_string())
            } else {
                None
            }
        },
        None => None,
    }
}

/// Each setting of the surface reaches its own place in the chain.
pub proof fn law_settings_reach_the_chain(s: &Settings, comp_range_db: Single, rate: Option<u32>, c: dsp::Settings)
    requires
        call_ensures(chain_settings, (s, comp_range_db, rate), c),
    ensures
        c.comp.target_db == s.agc_target_db,
        c.comp.pause_db == s.agc_gate_db,
        c.comp.attack_ms == s.agc_attack_ms,
        c.comp.release_ms == s.agc_release_ms,
        c.comp.max_gain_db == comp_range_db,
        c.comp.max_cut_db == comp_range_db,
        c.comp.enabled <==> !s.comp_knob.nan() && s.comp_knob.val() > (Single { bits: 0x3d4c_cccd }).val(),
        c.gate.threshold_db == s.gate_threshold_db,
        c.gate.range_db == s.gate_range_db,
        c.gate.attack_ms == s.gate_attack_ms,
        c.gate.hold_ms == s.gate_hold_ms,
        c.gate.release_ms == s.gate_release_ms,
        c.gate.enabled <==> !s.gate_threshold_db.nan() && s.gate_threshold_db.val() > -398 * pow2(147),
        c.fader_db == s.fader_db,
        c.muted == s.mic_muted,
        c.ceiling_db == s.agc_ceiling_db,
        c.denoise <==> s.denoise && (rate is None || rate == Some(48_000u32)),
        c.denoise_speech_vad == (Single { bits: 0x3f19_999a }),
        s.denoise_level == DenoiseLevel::Leicht ==> c.denoise_duck_db.val() == 0 && c.denoise_dry == (Single {
            bits: 0x3ea3_d70a,
        }),
        s.denoise_level == DenoiseLevel::Medium ==> c.denoise_duck_db.val() == 18 * pow2(149) && c.denoise_dry == (Single {
            bits: 0x3dcc_cccd,
        }),
        s.denoise_level == DenoiseLevel::Stark ==> c.denoise_duck_db.val() == 40 * pow2(149) && c.denoise_dry.bits == 0,
{
    crate::single::lemma_quarters_of(-398);
    crate::single::lemma_whole_val(0);
    crate::single::lemma_whole_val(18);
    crate::single::lemma_whole_val(40);
}

/// The noise gate is on from half a dB above the left end of its knob, the automatic volume from
/// 0.05 on its knob, and the noise filter runs at 48 kHz only.
pub proof fn law_switches_of_the_strip(s: &Settings, rate: Option<u32>, gate: bool, comp: bool, filter: bool)
    requires
        call_ensures(gate_on, (s,), gate),
        call_ensures(comp_on, (s,), comp),
        call_ensures(denoise_active, (s, rate), filter),
        !s.gate_threshold_db.nan(),
        !s.comp_knob.nan(),
    ensures
        gate <==> 2 * s.gate_threshold_db.val() > -199 * pow2(149),
        comp <==> s.comp_knob.val() > (Single { bits: 0x3d4c_cccd }).val(),
        filter <==> s.denoise && (rate matches Some(hz) ==> hz == 48_000),
{
    crate::single::lemma_quarters_of(-398);
    vstd::arithmetic::power2::lemma_pow2_adds(2, 147);
    vstd::arithmetic::power2::lemma2_to64();
}

/// Gate, mute and fader go either through the chain or by way of the volume of Windows: with an
/// output the volume is left alone, without one it does all of it.
pub proof fn law_one_way_for_gate_mute_and_fader(s: &Settings, chain_running: bool, r: Routing, gate: bool)
    requires
        call_ensures(route, (s, chain_running), r),
        call_ensures(gate_on, (s,), gate),
    ensures
        chain_running ==> !r.gate && !r.mute && r.fader_db.val() == 0,
        !chain_running ==> r.gate == gate && r.mute == s.mic_muted && r.fader_db == s.fader_db,
{
    crate::single::lemma_whole_val(0);
}

/// A jump to red counts once, and beeps if that is wanted; muted it does neither.
pub proof fn law_red_counts_and_beeps(count: &mut u32, became_red: bool, s: &Settings, beep: bool)
    requires
        *old(count) < u32::MAX,
        call_ensures(on_red, (count, became_red, s), beep),
    ensures
        !became_red || s.mic_muted ==> !beep && *final(count) == *old(count),
        became_red && !s.mic_muted ==> *final(count) == *old(count) + 1 && beep == s.beep_enabled,
{
}

/// A preview shows red for 3 s, and then what there is.
pub proof fn law_preview_is_red(now: u64, end: u64, later: u64, zone: Zone, shown: Zone)
    requires
        call_ensures(preview_end, (now,), end),
        call_ensures(shown_zone, (Some(end), later, zone), shown),
        now + 3_000_000_000 <= u64::MAX,
        now <= later,
    ensures
        later - now < 3_000_000_000 ==> shown == Zone::Red,
        later - now >= 3_000_000_000 ==> shown == zone,
{
}

/// What is drawn: a dot or a bar, as it was chosen, with a ring where it is muted; up to a
/// brightness of 0.01 nothing, unless it is muted. Green has its own brightness.
pub proof fn law_what_is_drawn(s: &Settings, zone: Zone, bright: Single, d: Drawing)
    requires
        call_ensures(zone_brightness, (zone, s), bright),
        call_ensures(indicator, (s.display, s.mic_muted, bright), d),
        !s.brightness.nan(),
        !s.green_brightness.nan(),
    ensures
        zone == Zone::Green ==> bright == s.green_brightness,
        zone != Zone::Green ==> bright == s.brightness,
        s.mic_muted && s.display == DisplayMode::Dot ==> d == Drawing::MutedDot,
        s.mic_muted && s.display == DisplayMode::Bar ==> d == Drawing::MutedBar,
        !s.mic_muted && bright.val() <= (Single { bits: 0x3c23_d70a }).val() ==> d == Drawing::Nothing,
        !s.mic_muted && bright.val() > (Single { bits: 0x3c23_d70a }).val() && s.display == DisplayMode::Dot ==> d
            == Drawing::Dot,
        !s.mic_muted && bright.val() > (Single { bits: 0x3c23_d70a }).val() && s.display == DisplayMode::Bar ==> d
            == Drawing::Bar,
{
}

/// The indicator is as large as it was set; it covers by as much as was set, never by less than
/// 0.05 nor by more than all; its bar begins where it was set, at -10 dB at the latest.
pub proof fn law_indicator_is_as_it_was_set(s: &Settings, size: (Single, Single), opacity: Single, floor: Single)
    requires
        call_ensures(indicator_size, (s,), size),
        call_ensures(indicator_opacity, (s,), opacity),
        call_ensures(bar_floor_db, (s,), floor),
        !s.opacity.nan(),
        !s.bar_min_db.nan(),
    ensures
        s.display == DisplayMode::Dot ==> size == (s.dot_size, s.dot_size),
        s.display == DisplayMode::Bar ==> size.0 == s.bar_width && size.1.val() == 28 * pow2(149),
        s.opacity.val() < (Single { bits: 0x3d4c_cccd }).val() ==> opacity.bits == 0x3d4c_cccd,
        s.opacity.val() > pow2(149) ==> opacity.val() == pow2(149),
        (Single { bits: 0x3d4c_cccd }).val() <= s.opacity.val() <= pow2(149) ==> opacity == s.opacity,
        s.bar_min_db.val() <= -10 * pow2(149) ==> floor == s.bar_min_db,
        s.bar_min_db.val() > -10 * pow2(149) ==> floor.val() == -10 * pow2(149),
{
    lemma_least_opacity();
    crate::single::lemma_whole_val(1);
    crate::single::lemma_whole_val(28);
    crate::single::lemma_whole_val(-10);
}

/// The colours of the lights can be told apart, and the strongest part of red is red and of green
/// green.
pub proof fn law_lights_can_be_told_apart(a: Zone, b: Zone, x: [u8; 3], y: [u8; 3])
    requires
        call_ensures(zone_rgb, (a,), x),
        call_ensures(zone_rgb, (b,), y),
    ensures
        a != b ==> x@ != y@,
        a == Zone::Red ==> x@[0] > x@[1] && x@[0] > x@[2],
        a == Zone::Green ==> x@[1] > x@[0] && x@[1] > x@[2],
        a == Zone::Yellow ==> x@[0] > x@[2] && x@[1] > x@[2],
{
    assert(rgb(a)[0] != rgb(b)[0] || a == b);
}

/// The window is moved as soon as its place is another one, and once in a second anyway; without a
/// place it is not. Which screens there are is looked at every 2 s.
pub proof fn law_window_follows_its_place(
    p: &mut Placing,
    target: Option<PhysicalRect>,
    now: u64,
    moved: bool,
    q: &mut Placing,
    scan: bool,
)
    requires
        call_ensures(Placing::place, (p, target, now), moved),
        call_ensures(Placing::scan_due, (q, now), scan),
        old(p).last_reassert <= now,
        old(q).last_scan <= now,
    ensures
        moved <==> target is Some && (old(p).applied != target || now - old(p).last_reassert >= 1_000_000_000),
        moved ==> final(p).applied == target && final(p).last_reassert == now,
        !moved ==> *final(p) == *old(p),
        scan <==> now - old(q).last_scan >= 2_000_000_000,
        scan ==> final(q).last_scan == now,
{
}

/// A lost microphone is tried again after 2 s, and shows silence until it is there; an open one is
/// not tried again and keeps its level.
pub proof fn law_lost_microphone_is_tried_again(
    m: &Microphone,
    now: u64,
    due: bool,
    input: Option<Single>,
    r: Option<Single>,
)
    requires
        call_ensures(Microphone::retry_due, (m, now), due),
        call_ensures(Microphone::level_or_silence, (m, input), r),
        m.last_retry <= now,
    ensures
        due <==> !m.open && now - m.last_retry >= 2_000_000_000,
        input is Some ==> r == input,
        input is None && m.open ==> r is None,
        input is None && !m.open ==> (r matches Some(db) && db.val() == -100 * pow2(149)),
{
    crate::single::lemma_whole_val(-100);
}

/// Changed settings are written after a second at the latest, and unchanged ones not at all.
pub proof fn law_changed_settings_are_written(
    s: &Settings,
    saved: &Settings,
    last_save: u64,
    now: u64,
    r: bool,
    same: bool,
)
    requires
        call_ensures(save_due, (s, saved, last_save, now), r),
        call_ensures(Settings::same, (s, saved), same),
        last_save <= now,
    ensures
        same ==> !r,
        !same && now - last_save >= 1_000_000_000 ==> r,
        now - last_save < 1_000_000_000 ==> !r,
{
}

/// The symbol: opening shows the settings in front, the entry for mute turns it round, and the one
/// for ending ends; each does nothing else.
pub proof fn law_symbol_does_what_it_says(action: TrayAction, w: &mut Windows, muted: &mut bool, e: Effect)
    requires
        call_ensures(act, (action, w, muted), e),
    ensures
        action == TrayAction::OpenSettings ==> final(w).settings && final(w).focus && *final(muted) == *old(muted) && e
            == Effect::SettingsOpened,
        action == TrayAction::ToggleMute ==> *final(muted) == !*old(muted) && *final(w) == *old(w) && e == Effect::Nothing,
        action == TrayAction::Quit ==> e == Effect::Quit && *final(w) == *old(w) && *final(muted) == *old(muted),
        final(w).display == old(w).display && final(w).general == old(w).general && final(w).noise == old(w).noise,
{
}

/// The settings are open at the start only without a symbol, and closing them then ends the
/// program; with a symbol it runs on.
pub proof fn law_program_stays_reachable(tray: bool, w: Windows, v: &mut Windows, quit: bool)
    requires
        call_ensures(Windows::new, (tray,), w),
        call_ensures(Windows::close_settings, (v, tray), quit),
    ensures
        w.settings == !tray,
        quit == !tray,
        !final(v).settings && !final(v).display && !final(v).general && !final(v).noise && !final(v).seen,
{
}

/// An output from before is dropped only if it is there and not virtual.
pub proof fn law_output_is_dropped_only_if_real(name: &Option<String>, r: bool, called: &str, virtual_one: bool)
    requires
        call_ensures(output_stays, (name,), r),
        call_ensures(is_virtual_device, (called,), virtual_one),
    ensures
        *name is None ==> r,
        *name matches Some(n) && n@ == called@ ==> r == virtual_one,
{
}

/// A device that was opened runs without an error, one that was not says why; a fault closes it, and
/// without a choice there is nothing to open.
pub proof fn law_states_of_the_microphone(
    m: &mut Microphone,
    chosen: bool,
    now: u64,
    open: bool,
    n: &mut Microphone,
    outcome: Result<(), String>,
    f: &mut Microphone,
    fault: &str,
)
    requires
        call_ensures(Microphone::restart, (m, chosen, now), open),
        call_ensures(Microphone::opened, (n, outcome), ()),
        call_ensures(Microphone::failed, (f, fault), ()),
    ensures
        open == chosen && !final(m).open && final(m).last_retry == now,
        !chosen ==> final(m).error is Some,
        outcome is Ok ==> final(n).open && final(n).error is None,
        outcome matches Err(e) ==> !final(n).open && final(n).error == Some(e),
        !final(f).open && final(f).error is Some && fault@.is_prefix_of(final(f).error->0@),
        final(f).last_retry == old(f).last_retry,
{
    assert(fault@ =~= final(f).error->0@.subrange(0, fault@.len() as int));
}

/// The same message is written once in a row, another one always.
pub proof fn law_same_message_is_written_once(
    l: &mut LogOnce,
    message: &str,
    first: bool,
    k: &mut LogOnce,
    again: bool,
    j: &mut LogOnce,
    other: &str,
    third: bool,
)
    requires
        call_ensures(LogOnce::is_new, (l, message), first),
        *old(k) == *final(l),
        call_ensures(LogOnce::is_new, (k, message), again),
        *old(j) == *final(k),
        call_ensures(LogOnce::is_new, (j, other), third),
    ensures
        old(l).last is None ==> first,
        !again,
        third <==> other@ != message@,
{
}

/// The settings come to the front once for each time they are asked for; that they are drawn for the
/// first time is said once; and the button of the noise window opens and closes it.
pub proof fn law_windows_do_as_they_are_told(
    w: &mut Windows,
    focus: bool,
    v: &mut Windows,
    first: bool,
    u: &mut Windows,
    clicked: bool,
    restart: bool,
    o: &mut Windows,
)
    requires
        call_ensures(Windows::take_focus, (w,), focus),
        call_ensures(Windows::draw, (v,), first),
        call_ensures(Windows::click_noise, (u, clicked), restart),
        call_ensures(Windows::open_settings, (o,), ()),
    ensures
        focus == old(w).focus && !final(w).focus && final(w).settings == old(w).settings,
        first == !old(v).seen && final(v).seen,
        clicked ==> final(u).noise == !old(u).noise,
        !clicked ==> final(u).noise == old(u).noise && !restart,
        restart <==> clicked && !old(u).noise,
        final(o).settings && final(o).focus && final(o).noise == old(o).noise,
{
}

/// Choosing a microphone and keeping a profile each change that one setting.
pub proof fn law_one_setting_changes(s: &mut Settings, id: String, t: &mut Settings, profile: Option<Vec<Single>>)
    requires
        call_ensures(pick_microphone, (s, id), ()),
        call_ensures(keep_profile, (t, profile), ()),
    ensures
        final(s).device_id == Some(id) && final(s).noise_profile == old(s).noise_profile && final(s).mic_muted == old(
            s).mic_muted && final(s).agc_output_id == old(s).agc_output_id,
        final(t).noise_profile == profile && final(t).device_id == old(t).device_id,
{
}

/// Whether an old filter is entered is read again after 5 s; it is shown while it is entered or being
/// taken out; a failure is kept.
pub proof fn law_old_filter_is_shown(
    read: Option<(bool, u64)>,
    now: u64,
    stale: bool,
    installed: bool,
    job: &ApoJob,
    shown: bool,
    outcome: Result<(), String>,
    done: ApoJob,
)
    requires
        call_ensures(leftover_stale, (read, now), stale),
        call_ensures(leftover_shown, (installed, job), shown),
        call_ensures(job_done, (outcome,), done),
    ensures
        read is None ==> stale,
        read matches Some(l) ==> (l.1 <= now ==> (stale <==> now - l.1 > 5_000_000_000)),
        shown <==> installed || *job is Running,
        outcome is Ok <==> done is Idle,
        outcome matches Err(e) ==> done == ApoJob::Failed(e),
{
}

/// A switch that could not be set stays as it was and says why; a slider takes effect when it is let
/// go, or by the keyboard.
pub proof fn law_switch_shows_what_came_of_it(
    enabled: bool,
    before: bool,
    outcome: Result<(), String>,
    r: (bool, Option<String>),
    stopped: bool,
    changed: bool,
    dragged: bool,
    done: bool,
)
    requires
        call_ensures(autostart_set, (enabled, before, outcome), r),
        call_ensures(slider_done, (stopped, changed, dragged), done),
    ensures
        outcome is Ok ==> r.0 == enabled && r.1 is None,
        outcome matches Err(e) ==> r.0 == before && r.1 == Some(e),
        stopped ==> done,
        changed && !dragged ==> done,
        !stopped && (dragged || !changed) ==> !done,
{
}

} // verus!
