//! What the user can set, with the values it starts from.

use vstd::arithmetic::power2::pow2;
use vstd::prelude::*;

use crate::placement::Anchor;
use crate::single::lemma_quarters_of;
use crate::single::lemma_whole_val;
use crate::single::quarters_of;
use crate::single::whole_of;
use crate::single::Single;
use crate::text::same;

verus! {

/// The noise gate knob at its left end, in whole dB: everything passes.
pub const GATE_OFF_DB: i32 = -100;

/// Buffer between recording and output in whole milliseconds, unless set otherwise.
pub const DEFAULT_BUFFER_MS: i32 = 30;

/// 0.9
pub const BRIGHTNESS_BITS: u32 = 0x3f66_6666;

/// 0.3
pub const BEEP_VOLUME_BITS: u32 = 0x3e99_999a;

/// 0.32
pub const DRY_LIGHT_BITS: u32 = 0x3ea3_d70a;

/// 0.1
pub const DRY_MEDIUM_BITS: u32 = 0x3dcc_cccd;

/// How the level is shown on the screen.
#[derive(Clone, Copy, Debug, PartialEq, Eq, Structural)]
pub enum DisplayMode {
    Dot,
    Bar,
}

/// How far the noise filter may go.
#[derive(Clone, Copy, Debug, PartialEq, Eq, Structural)]
pub enum DenoiseLevel {
    Leicht,
    Medium,
    Stark,
}

impl DenoiseLevel {
    /// All levels, from the mildest on.
    pub fn all() -> (list: [DenoiseLevel; 3])
        ensures
            list@ == seq![DenoiseLevel::Leicht, DenoiseLevel::Medium, DenoiseLevel::Stark],
    {
        let list = [DenoiseLevel::Leicht, DenoiseLevel::Medium, DenoiseLevel::Stark];
        assert(list@ =~= seq![DenoiseLevel::Leicht, DenoiseLevel::Medium, DenoiseLevel::Stark]);
        list
    }

    pub fn label(self) -> (r: &'static str)
        ensures
            r@ == (match self {
                DenoiseLevel::Leicht => "Leicht"@,
                DenoiseLevel::Medium => "Medium"@,
                DenoiseLevel::Stark => "Stark"@,
            }),
    {
        match self {
            DenoiseLevel::Leicht => "Leicht",
            DenoiseLevel::Medium => "Medium",
            DenoiseLevel::Stark => "Stark",
        }
    }

    /// The share of the unfiltered sound that stays: 0.32 caps the filter at 10 dB, 0.1 at
    /// 20 dB.
    pub open spec fn dry_share(self) -> Single {
        match self {
            DenoiseLevel::Leicht => Single { bits: DRY_LIGHT_BITS },
            DenoiseLevel::Medium => Single { bits: DRY_MEDIUM_BITS },
            DenoiseLevel::Stark => Single { bits: 0 },
        }
    }

    pub fn dry(self) -> (r: Single)
        ensures
            r == self.dry_share(),
    {
        match self {
            DenoiseLevel::Leicht => Single { bits: DRY_LIGHT_BITS },
            DenoiseLevel::Medium => Single { bits: DRY_MEDIUM_BITS },
            DenoiseLevel::Stark => Single { bits: 0 },
        }
    }

    /// How many dB pauses are lowered on top of the filter.
    pub open spec fn duck(self) -> int {
        match self {
            DenoiseLevel::Leicht => 0,
            DenoiseLevel::Medium => 18,
            DenoiseLevel::Stark => 40,
        }
    }

    pub fn duck_db(self) -> (r: Single)
        ensures
            r == whole_of(self.duck()),
            r.is_whole(self.duck()),
    {
        match self {
            DenoiseLevel::Leicht => Single::whole(0),
            DenoiseLevel::Medium => Single::whole(18),
            DenoiseLevel::Stark => Single::whole(40),
        }
    }

    pub fn hint(self) -> (r: &'static str)
        ensures
            r@ == (match self {
                DenoiseLevel::Leicht => "Filtert nur, senkt höchstens 10 dB ab. Klingt am natürlichsten, lässt aber Geräusche stehen."@,
                DenoiseLevel::Medium => "Filtert bis 20 dB und macht Pausen zusätzlich 18 dB leiser. Guter Mittelweg für Tastatur, Lüfter und Werkzeug."@,
                DenoiseLevel::Stark => "Filtert voll und macht Pausen praktisch still (40 dB). Auch lauter Krach verschwindet zwischen den Wörtern; kann bei sehr leiser Stimme den Anfang eines Wortes streifen."@,
            }),
    {
        match self {
            DenoiseLevel::Leicht => "Filtert nur, senkt höchstens 10 dB ab. Klingt am natürlichsten, lässt aber Geräusche stehen.",
            DenoiseLevel::Medium => "Filtert bis 20 dB und macht Pausen zusätzlich 18 dB leiser. Guter Mittelweg für Tastatur, Lüfter und Werkzeug.",
            DenoiseLevel::Stark => "Filtert voll und macht Pausen praktisch still (40 dB). Auch lauter Krach verschwindet zwischen den Wörtern; kann bei sehr leiser Stimme den Anfang eines Wortes streifen.",
        }
    }
}

/// The settings that are kept on disk.
#[derive(Clone, Debug)]
pub struct Settings {
    pub device_id: Option<String>,
    /// Thresholds in dBFS.
    pub yellow_db: Single,
    pub red_db: Single,
    pub attack_ms: Single,
    pub release_ms: Single,
    pub hold_ms: Single,
    /// 0 to 1.
    pub brightness: Single,
    pub green_brightness: Single,
    /// Opacity of the indicator: 1 covers fully.
    pub opacity: Single,
    pub display: DisplayMode,
    /// 0 is the main screen, then from left to right.
    pub monitor: usize,
    pub anchor: Anchor,
    /// Distance from the edge of the screen in pixels at 100 %.
    pub margin: Single,
    pub dot_size: Single,
    pub bar_width: Single,
    /// Where the level bar begins, in dB.
    pub bar_min_db: Single,
    pub beep_enabled: bool,
    pub beep_volume: Single,
    /// Threshold of the noise gate in dB; -100 is off.
    pub gate_threshold_db: Single,
    /// 0 to 10; 0 is off.
    pub comp_knob: Single,
    pub fader_db: Single,
    pub mic_muted: bool,
    /// How much quieter when closed.
    pub gate_range_db: Single,
    pub gate_attack_ms: Single,
    pub gate_hold_ms: Single,
    pub gate_release_ms: Single,
    pub agc_output_id: Option<String>,
    /// Nothing is sent to a virtual device.
    pub output_off: bool,
    /// Noise filter in the channel strip.
    pub denoise: bool,
    pub denoise_level: DenoiseLevel,
    /// Echo cancelling in the channel strip.
    pub echo: bool,
    /// Buffer between recording and output.
    pub buffer_ms: Single,
    /// Measured noise, one level per frequency band.
    pub noise_profile: Option<Vec<Single>>,
    /// Wanted speech level in dBFS.
    pub agc_target_db: Single,
    pub agc_attack_ms: Single,
    pub agc_release_ms: Single,
    /// Anything quieter counts as a pause.
    pub agc_gate_db: Single,
    pub agc_ceiling_db: Single,
}

/// `value` where it is a real number, else `fallback`.
pub open spec fn real_or(value: Single, fallback: Single) -> Single {
    if value.finite() {
        value
    } else {
        fallback
    }
}

/// A noise profile of real numbers only.
pub open spec fn sound(profile: Seq<Single>) -> bool {
    forall|i: int| 0 <= i < profile.len() ==> #[trigger] profile[i].finite()
}

impl Settings {
    /// The settings that everything starts from.
    pub open spec fn is_default(self) -> bool {
        &&& self.device_id is None
        &&& self.yellow_db == whole_of(-24)
        &&& self.red_db == whole_of(-18)
        &&& self.attack_ms == whole_of(20)
        &&& self.release_ms == whole_of(400)
        &&& self.hold_ms == whole_of(1500)
        &&& self.brightness == Single { bits: BRIGHTNESS_BITS }
        &&& self.green_brightness == quarters_of(1)
        &&& self.opacity == whole_of(1)
        &&& self.display == DisplayMode::Dot
        &&& self.monitor == 0
        &&& self.anchor == Anchor::TopRight
        &&& self.margin == whole_of(12)
        &&& self.dot_size == whole_of(20)
        &&& self.bar_width == whole_of(240)
        &&& self.bar_min_db == whole_of(-60)
        &&& !self.beep_enabled
        &&& self.beep_volume == Single { bits: BEEP_VOLUME_BITS }
        &&& self.gate_threshold_db == whole_of(GATE_OFF_DB as int)
        &&& self.comp_knob == whole_of(0)
        &&& self.fader_db == whole_of(0)
        &&& !self.mic_muted
        &&& self.gate_range_db == whole_of(25)
        &&& self.gate_attack_ms == whole_of(2)
        &&& self.gate_hold_ms == whole_of(250)
        &&& self.gate_release_ms == whole_of(150)
        &&& self.agc_output_id is None
        &&& !self.output_off
        &&& !self.denoise
        &&& self.denoise_level == DenoiseLevel::Medium
        &&& !self.echo
        &&& self.buffer_ms == whole_of(DEFAULT_BUFFER_MS as int)
        &&& self.noise_profile is None
        &&& self.agc_target_db == whole_of(-20)
        &&& self.agc_attack_ms == whole_of(40)
        &&& self.agc_release_ms == whole_of(1500)
        &&& self.agc_gate_db == whole_of(-50)
        &&& self.agc_ceiling_db == whole_of(0)
    }

    /// `self` is `before` with every field put back to its starting value that is no real
    /// number, and without a noise profile that holds such a field. Everything else is kept.
    pub open spec fn repair_of(self, before: Settings) -> bool {
        &&& self.device_id == before.device_id
        &&& self.yellow_db == real_or(before.yellow_db, whole_of(-24))
        &&& self.red_db == real_or(before.red_db, whole_of(-18))
        &&& self.attack_ms == real_or(before.attack_ms, whole_of(20))
        &&& self.release_ms == real_or(before.release_ms, whole_of(400))
        &&& self.hold_ms == real_or(before.hold_ms, whole_of(1500))
        &&& self.brightness == real_or(before.brightness, Single { bits: BRIGHTNESS_BITS })
        &&& self.green_brightness == real_or(before.green_brightness, quarters_of(1))
        &&& self.opacity == real_or(before.opacity, whole_of(1))
        &&& self.display == before.display
        &&& self.monitor == before.monitor
        &&& self.anchor == before.anchor
        &&& self.margin == real_or(before.margin, whole_of(12))
        &&& self.dot_size == real_or(before.dot_size, whole_of(20))
        &&& self.bar_width == real_or(before.bar_width, whole_of(240))
        &&& self.bar_min_db == real_or(before.bar_min_db, whole_of(-60))
        &&& self.beep_enabled == before.beep_enabled
        &&& self.beep_volume == real_or(before.beep_volume, Single { bits: BEEP_VOLUME_BITS })
        &&& self.gate_threshold_db == real_or(before.gate_threshold_db, whole_of(GATE_OFF_DB as int))
        &&& self.comp_knob == real_or(before.comp_knob, whole_of(0))
        &&& self.fader_db == real_or(before.fader_db, whole_of(0))
        &&& self.mic_muted == before.mic_muted
        &&& self.gate_range_db == real_or(before.gate_range_db, whole_of(25))
        &&& self.gate_attack_ms == real_or(before.gate_attack_ms, whole_of(2))
        &&& self.gate_hold_ms == real_or(before.gate_hold_ms, whole_of(250))
        &&& self.gate_release_ms == real_or(before.gate_release_ms, whole_of(150))
        &&& self.agc_output_id == before.agc_output_id
        &&& self.output_off == before.output_off
        &&& self.denoise == before.denoise
        &&& self.denoise_level == before.denoise_level
        &&& self.echo == before.echo
        &&& self.buffer_ms == real_or(before.buffer_ms, whole_of(DEFAULT_BUFFER_MS as int))
        &&& (match before.noise_profile {
            Some(profile) if sound(profile@) => self.noise_profile == before.noise_profile,
            _ => self.noise_profile is None,
        })
        &&& self.agc_target_db == real_or(before.agc_target_db, whole_of(-20))
        &&& self.agc_attack_ms == real_or(before.agc_attack_ms, whole_of(40))
        &&& self.agc_release_ms == real_or(before.agc_release_ms, whole_of(1500))
        &&& self.agc_gate_db == real_or(before.agc_gate_db, whole_of(-50))
        &&& self.agc_ceiling_db == real_or(before.agc_ceiling_db, whole_of(0))
    }

    /// Every number is a real one.
    pub open spec fn all_real(self) -> bool {
        &&& self.yellow_db.finite()
        &&& self.red_db.finite()
        &&& self.attack_ms.finite()
        &&& self.release_ms.finite()
        &&& self.hold_ms.finite()
        &&& self.brightness.finite()
        &&& self.green_brightness.finite()
        &&& self.opacity.finite()
        &&& self.margin.finite()
        &&& self.dot_size.finite()
        &&& self.bar_width.finite()
        &&& self.bar_min_db.finite()
        &&& self.beep_volume.finite()
        &&& self.gate_threshold_db.finite()
        &&& self.comp_knob.finite()
        &&& self.fader_db.finite()
        &&& self.gate_range_db.finite()
        &&& self.gate_attack_ms.finite()
        &&& self.gate_hold_ms.finite()
        &&& self.gate_release_ms.finite()
        &&& self.buffer_ms.finite()
        &&& self.agc_target_db.finite()
        &&& self.agc_attack_ms.finite()
        &&& self.agc_release_ms.finite()
        &&& self.agc_gate_db.finite()
        &&& self.agc_ceiling_db.finite()
        &&& (self.noise_profile matches Some(profile) ==> sound(profile@))
    }
}

impl Default for Settings {
    fn default() -> (s: Settings)
        ensures
            s.is_default(),
    {
        Settings {
            device_id: None,
            yellow_db: Single::whole(-24),
            red_db: Single::whole(-18),
            attack_ms: Single::whole(20),
            release_ms: Single::whole(400),
            hold_ms: Single::whole(1500),
            brightness: Single { bits: BRIGHTNESS_BITS },
            green_brightness: Single::quarters(1),
            opacity: Single::whole(1),
            display: DisplayMode::Dot,
            monitor: 0,
            anchor: Anchor::TopRight,
            margin: Single::whole(12),
            dot_size: Single::whole(20),
            bar_width: Single::whole(240),
            bar_min_db: Single::whole(-60),
            beep_enabled: false,
            beep_volume: Single { bits: BEEP_VOLUME_BITS },
            gate_threshold_db: Single::whole(GATE_OFF_DB),
            comp_knob: Single::whole(0),
            fader_db: Single::whole(0),
            mic_muted: false,
            gate_range_db: Single::whole(25),
            gate_attack_ms: Single::whole(2),
            gate_hold_ms: Single::whole(250),
            gate_release_ms: Single::whole(150),
            agc_output_id: None,
            output_off: false,
            denoise: false,
            denoise_level: DenoiseLevel::Medium,
            echo: false,
            buffer_ms: Single::whole(DEFAULT_BUFFER_MS),
            noise_profile: None,
            agc_target_db: Single::whole(-20),
            agc_attack_ms: Single::whole(40),
            agc_release_ms: Single::whole(1500),
            agc_gate_db: Single::whole(-50),
            agc_ceiling_db: Single::whole(0),
        }
    }
}

fn mend(value: Single, fallback: Single) -> (r: Single)
    ensures
        r == real_or(value, fallback),
{
    if value.is_finite() {
        value
    } else {
        fallback
    }
}

fn is_sound(profile: &Vec<Single>) -> (r: bool)
    ensures
        r == sound(profile@),
{
    let mut i: usize = 0;
    while i < profile.len()
        invariant
            i <= profile@.len(),
            forall|j: int| 0 <= j < i ==> #[trigger] profile@[j].finite(),
        decreases profile@.len() - i,
    {
        if !profile[i].is_finite() {
            return false;
        }
        i = i + 1;
    }
    true
}

impl Settings {
    /// Puts every field back that is no real number any more. Such numbers cannot be written to
    /// the settings file: reading it again would fail as a whole.
    pub fn repair(&mut self)
        ensures
            final(self).repair_of(*old(self)),
    {
        let d = Settings::default();
        self.yellow_db = mend(self.yellow_db, d.yellow_db);
        self.red_db = mend(self.red_db, d.red_db);
        self.attack_ms = mend(self.attack_ms, d.attack_ms);
        self.release_ms = mend(self.release_ms, d.release_ms);
        self.hold_ms = mend(self.hold_ms, d.hold_ms);
        self.brightness = mend(self.brightness, d.brightness);
        self.green_brightness = mend(self.green_brightness, d.green_brightness);
        self.opacity = mend(self.opacity, d.opacity);
        self.margin = mend(self.margin, d.margin);
        self.dot_size = mend(self.dot_size, d.dot_size);
        self.bar_width = mend(self.bar_width, d.bar_width);
        self.bar_min_db = mend(self.bar_min_db, d.bar_min_db);
        self.beep_volume = mend(self.beep_volume, d.beep_volume);
        self.gate_threshold_db = mend(self.gate_threshold_db, d.gate_threshold_db);
        self.comp_knob = mend(self.comp_knob, d.comp_knob);
        self.fader_db = mend(self.fader_db, d.fader_db);
        self.gate_range_db = mend(self.gate_range_db, d.gate_range_db);
        self.gate_attack_ms = mend(self.gate_attack_ms, d.gate_attack_ms);
        self.gate_hold_ms = mend(self.gate_hold_ms, d.gate_hold_ms);
        self.gate_release_ms = mend(self.gate_release_ms, d.gate_release_ms);
        self.buffer_ms = mend(self.buffer_ms, d.buffer_ms);
        self.agc_target_db = mend(self.agc_target_db, d.agc_target_db);
        self.agc_attack_ms = mend(self.agc_attack_ms, d.agc_attack_ms);
        self.agc_release_ms = mend(self.agc_release_ms, d.agc_release_ms);
        self.agc_gate_db = mend(self.agc_gate_db, d.agc_gate_db);
        self.agc_ceiling_db = mend(self.agc_ceiling_db, d.agc_ceiling_db);
        let keep = match &self.noise_profile {
            Some(profile) => is_sound(profile),
            None => false,
        };
        if !keep {
            self.noise_profile = None;
        }
    }
}

/// After a repair every number is a real one.
pub proof fn law_repair_leaves_real_numbers(before: Settings, after: Settings)
    requires
        after.repair_of(before),
    ensures
        after.all_real(),
{
    lemma_starting_values();
}

/// Settings of real numbers only are left as they are, so repairing twice does no more than
/// repairing once.
pub proof fn law_repair_keeps_good_values(before: Settings, after: Settings)
    requires
        before.all_real(),
        after.repair_of(before),
    ensures
        after == before,
{
}

proof fn lemma_starting_values()
    ensures
        forall|n: int| -0x10_0000 < n < 0x10_0000 ==> (#[trigger] whole_of(n)).finite(),
        quarters_of(1).finite(),
        (Single { bits: BRIGHTNESS_BITS }).finite(),
        (Single { bits: BEEP_VOLUME_BITS }).finite(),
{
    assert forall|n: int| -0x10_0000 < n < 0x10_0000 implies (#[trigger] whole_of(n)).finite() by {
        lemma_quarters_of(4 * n);
    }
    lemma_quarters_of(1);
}

/// Two lists of numbers, compared as numbers.
pub open spec fn same_numbers(a: Seq<Single>, b: Seq<Single>) -> bool {
    a.len() == b.len() && forall|i: int| 0 <= i < a.len() ==> (#[trigger] a[i]).equal(b[i])
}

/// Two optional texts.
pub open spec fn same_text(a: Option<String>, b: Option<String>) -> bool {
    match (a, b) {
        (Some(a), Some(b)) => a@ == b@,
        (None, None) => true,
        _ => false,
    }
}

impl Settings {
    /// Equal field by field, numbers compared as numbers.
    pub open spec fn alike(self, other: Settings) -> bool {
        &&& same_text(self.device_id, other.device_id)
        &&& self.yellow_db.equal(other.yellow_db)
        &&& self.red_db.equal(other.red_db)
        &&& self.attack_ms.equal(other.attack_ms)
        &&& self.release_ms.equal(other.release_ms)
        &&& self.hold_ms.equal(other.hold_ms)
        &&& self.brightness.equal(other.brightness)
        &&& self.green_brightness.equal(other.green_brightness)
        &&& self.opacity.equal(other.opacity)
        &&& self.display == other.display
        &&& self.monitor == other.monitor
        &&& self.anchor == other.anchor
        &&& self.margin.equal(other.margin)
        &&& self.dot_size.equal(other.dot_size)
        &&& self.bar_width.equal(other.bar_width)
        &&& self.bar_min_db.equal(other.bar_min_db)
        &&& self.beep_enabled == other.beep_enabled
        &&& self.beep_volume.equal(other.beep_volume)
        &&& self.gate_threshold_db.equal(other.gate_threshold_db)
        &&& self.comp_knob.equal(other.comp_knob)
        &&& self.fader_db.equal(other.fader_db)
        &&& self.mic_muted == other.mic_muted
        &&& self.gate_range_db.equal(other.gate_range_db)
        &&& self.gate_attack_ms.equal(other.gate_attack_ms)
        &&& self.gate_hold_ms.equal(other.gate_hold_ms)
        &&& self.gate_release_ms.equal(other.gate_release_ms)
        &&& same_text(self.agc_output_id, other.agc_output_id)
        &&& self.output_off == other.output_off
        &&& self.denoise == other.denoise
        &&& self.denoise_level == other.denoise_level
        &&& self.echo == other.echo
        &&& self.buffer_ms.equal(other.buffer_ms)
        &&& (match (self.noise_profile, other.noise_profile) {
            (Some(a), Some(b)) => same_numbers(a@, b@),
            (None, None) => true,
            _ => false,
        })
        &&& self.agc_target_db.equal(other.agc_target_db)
        &&& self.agc_attack_ms.equal(other.agc_attack_ms)
        &&& self.agc_release_ms.equal(other.agc_release_ms)
        &&& self.agc_gate_db.equal(other.agc_gate_db)
        &&& self.agc_ceiling_db.equal(other.agc_ceiling_db)
    }

    /// Whether both hold the same.
    pub fn same(&self, other: &Settings) -> (r: bool)
        ensures
            r == self.alike(*other),
    {
        let profiles = match (&self.noise_profile, &other.noise_profile) {
            (Some(a), Some(b)) => equal_lists(a, b),
            (None, None) => true,
            _ => false,
        };
        profiles
            && equal_texts(&self.device_id, &other.device_id)
            && self.yellow_db.same(other.yellow_db)
            && self.red_db.same(other.red_db)
            && self.attack_ms.same(other.attack_ms)
            && self.release_ms.same(other.release_ms)
            && self.hold_ms.same(other.hold_ms)
            && self.brightness.same(other.brightness)
            && self.green_brightness.same(other.green_brightness)
            && self.opacity.same(other.opacity)
            && self.display == other.display
            && self.monitor == other.monitor
            && self.anchor == other.anchor
            && self.margin.same(other.margin)
            && self.dot_size.same(other.dot_size)
            && self.bar_width.same(other.bar_width)
            && self.bar_min_db.same(other.bar_min_db)
            && self.beep_enabled == other.beep_enabled
            && self.beep_volume.same(other.beep_volume)
            && self.gate_threshold_db.same(other.gate_threshold_db)
            && self.comp_knob.same(other.comp_knob)
            && self.fader_db.same(other.fader_db)
            && self.mic_muted == other.mic_muted
            && self.gate_range_db.same(other.gate_range_db)
            && self.gate_attack_ms.same(other.gate_attack_ms)
            && self.gate_hold_ms.same(other.gate_hold_ms)
            && self.gate_release_ms.same(other.gate_release_ms)
            && equal_texts(&self.agc_output_id, &other.agc_output_id)
            && self.output_off == other.output_off
            && self.denoise == other.denoise
            && self.denoise_level == other.denoise_level
            && self.echo == other.echo
            && self.buffer_ms.same(other.buffer_ms)
            && self.agc_target_db.same(other.agc_target_db)
            && self.agc_attack_ms.same(other.agc_attack_ms)
            && self.agc_release_ms.same(other.agc_release_ms)
            && self.agc_gate_db.same(other.agc_gate_db)
            && self.agc_ceiling_db.same(other.agc_ceiling_db)
    }
}

fn equal_lists(a: &Vec<Single>, b: &Vec<Single>) -> (r: bool)
    ensures
        r == same_numbers(a@, b@),
{
    if a.len() != b.len() {
        return false;
    }
    let mut i: usize = 0;
    while i < a.len()
        invariant
            i <= a@.len(),
            a@.len() == b@.len(),
            forall|j: int| 0 <= j < i ==> (#[trigger] a@[j]).equal(b@[j]),
        decreases a@.len() - i,
    {
        if !a[i].same(b[i]) {
            return false;
        }
        i = i + 1;
    }
    true
}

/// Whether two optional texts are the same.
pub fn equal_texts(a: &Option<String>, b: &Option<String>) -> (r: bool)
    ensures
        r == same_text(*a, *b),
{
    match (a, b) {
        (Some(a), Some(b)) => same(a.as_str(), b.as_str()),
        (None, None) => true,
        _ => false,
    }
}

/// No change of a setting goes unnoticed: settings count as the same only where every number, every
/// switch, every text and every level of the noise profile is the same.
pub proof fn law_no_change_goes_unnoticed(a: &Settings, b: &Settings, r: bool)
    requires
        call_ensures(Settings::same, (a, b), r),
    ensures
        a.yellow_db.val() != b.yellow_db.val() || a.yellow_db.nan() ==> !r,
        a.red_db.val() != b.red_db.val() || a.red_db.nan() ==> !r,
        a.attack_ms.val() != b.attack_ms.val() || a.attack_ms.nan() ==> !r,
        a.release_ms.val() != b.release_ms.val() || a.release_ms.nan() ==> !r,
        a.hold_ms.val() != b.hold_ms.val() || a.hold_ms.nan() ==> !r,
        a.brightness.val() != b.brightness.val() || a.brightness.nan() ==> !r,
        a.green_brightness.val() != b.green_brightness.val() || a.green_brightness.nan() ==> !r,
        a.opacity.val() != b.opacity.val() || a.opacity.nan() ==> !r,
        a.margin.val() != b.margin.val() || a.margin.nan() ==> !r,
        a.dot_size.val() != b.dot_size.val() || a.dot_size.nan() ==> !r,
        a.bar_width.val() != b.bar_width.val() || a.bar_width.nan() ==> !r,
        a.bar_min_db.val() != b.bar_min_db.val() || a.bar_min_db.nan() ==> !r,
        a.beep_volume.val() != b.beep_volume.val() || a.beep_volume.nan() ==> !r,
        a.gate_threshold_db.val() != b.gate_threshold_db.val() || a.gate_threshold_db.nan() ==> !r,
        a.comp_knob.val() != b.comp_knob.val() || a.comp_knob.nan() ==> !r,
        a.fader_db.val() != b.fader_db.val() || a.fader_db.nan() ==> !r,
        a.gate_range_db.val() != b.gate_range_db.val() || a.gate_range_db.nan() ==> !r,
        a.gate_attack_ms.val() != b.gate_attack_ms.val() || a.gate_attack_ms.nan() ==> !r,
        a.gate_hold_ms.val() != b.gate_hold_ms.val() || a.gate_hold_ms.nan() ==> !r,
        a.gate_release_ms.val() != b.gate_release_ms.val() || a.gate_release_ms.nan() ==> !r,
        a.buffer_ms.val() != b.buffer_ms.val() || a.buffer_ms.nan() ==> !r,
        a.agc_target_db.val() != b.agc_target_db.val() || a.agc_target_db.nan() ==> !r,
        a.agc_attack_ms.val() != b.agc_attack_ms.val() || a.agc_attack_ms.nan() ==> !r,
        a.agc_release_ms.val() != b.agc_release_ms.val() || a.agc_release_ms.nan() ==> !r,
        a.agc_gate_db.val() != b.agc_gate_db.val() || a.agc_gate_db.nan() ==> !r,
        a.agc_ceiling_db.val() != b.agc_ceiling_db.val() || a.agc_ceiling_db.nan() ==> !r,
        a.display != b.display ==> !r,
        a.monitor != b.monitor ==> !r,
        a.anchor != b.anchor ==> !r,
        a.beep_enabled != b.beep_enabled ==> !r,
        a.mic_muted != b.mic_muted ==> !r,
        a.output_off != b.output_off ==> !r,
        a.denoise != b.denoise ==> !r,
        a.denoise_level != b.denoise_level ==> !r,
        a.echo != b.echo ==> !r,
        a.device_id is Some != b.device_id is Some ==> !r,
        a.device_id is Some && b.device_id is Some && a.device_id->0@ != b.device_id->0@ ==> !r,
        a.agc_output_id is Some != b.agc_output_id is Some ==> !r,
        a.agc_output_id is Some && b.agc_output_id is Some && a.agc_output_id->0@ != b.agc_output_id->0@ ==> !r,
        a.noise_profile is Some != b.noise_profile is Some ==> !r,
        a.noise_profile is Some && b.noise_profile is Some && a.noise_profile->0@.len() != b.noise_profile->0@.len() ==> !r,
        forall|i: int|
            #![trigger a.noise_profile->0@[i]]
            r && a.noise_profile is Some && 0 <= i < a.noise_profile->0@.len() ==> a.noise_profile->0@[i].val()
                == b.noise_profile->0@[i].val(),
{
}

/// Settings of real numbers only are the same as themselves.
pub proof fn law_settings_are_the_same_as_themselves(s: &Settings, r: bool)
    requires
        call_ensures(Settings::same, (s, s), r),
        s.all_real(),
    ensures
        r,
{
    if let Some(profile) = s.noise_profile {
        assert forall|i: int| 0 <= i < profile@.len() implies (#[trigger] profile@[i]).equal(profile@[i]) by {
            assert(profile@[i].finite());
        }
    }
}

/// A repair puts exactly those numbers back to where they start that are none, and touches nothing
/// else.
pub proof fn law_repair_puts_back_what_is_no_number(s: &mut Settings, d: Settings)
    requires
        call_ensures(Settings::repair, (s,), ()),
        d.is_default(),
    ensures
        final(s).yellow_db.finite(),
        old(s).yellow_db.finite() ==> final(s).yellow_db == old(s).yellow_db,
        !old(s).yellow_db.finite() ==> final(s).yellow_db == d.yellow_db,
        final(s).red_db.finite(),
        old(s).red_db.finite() ==> final(s).red_db == old(s).red_db,
        !old(s).red_db.finite() ==> final(s).red_db == d.red_db,
        final(s).attack_ms.finite(),
        old(s).attack_ms.finite() ==> final(s).attack_ms == old(s).attack_ms,
        !old(s).attack_ms.finite() ==> final(s).attack_ms == d.attack_ms,
        final(s).release_ms.finite(),
        old(s).release_ms.finite() ==> final(s).release_ms == old(s).release_ms,
        !old(s).release_ms.finite() ==> final(s).release_ms == d.release_ms,
        final(s).hold_ms.finite(),
        old(s).hold_ms.finite() ==> final(s).hold_ms == old(s).hold_ms,
        !old(s).hold_ms.finite() ==> final(s).hold_ms == d.hold_ms,
        final(s).brightness.finite(),
        old(s).brightness.finite() ==> final(s).brightness == old(s).brightness,
        !old(s).brightness.finite() ==> final(s).brightness == d.brightness,
        final(s).green_brightness.finite(),
        old(s).green_brightness.finite() ==> final(s).green_brightness == old(s).green_brightness,
        !old(s).green_brightness.finite() ==> final(s).green_brightness == d.green_brightness,
        final(s).opacity.finite(),
        old(s).opacity.finite() ==> final(s).opacity == old(s).opacity,
        !old(s).opacity.finite() ==> final(s).opacity == d.opacity,
        final(s).margin.finite(),
        old(s).margin.finite() ==> final(s).margin == old(s).margin,
        !old(s).margin.finite() ==> final(s).margin == d.margin,
        final(s).dot_size.finite(),
        old(s).dot_size.finite() ==> final(s).dot_size == old(s).dot_size,
        !old(s).dot_size.finite() ==> final(s).dot_size == d.dot_size,
        final(s).bar_width.finite(),
        old(s).bar_width.finite() ==> final(s).bar_width == old(s).bar_width,
        !old(s).bar_width.finite() ==> final(s).bar_width == d.bar_width,
        final(s).bar_min_db.finite(),
        old(s).bar_min_db.finite() ==> final(s).bar_min_db == old(s).bar_min_db,
        !old(s).bar_min_db.finite() ==> final(s).bar_min_db == d.bar_min_db,
        final(s).beep_volume.finite(),
        old(s).beep_volume.finite() ==> final(s).beep_volume == old(s).beep_volume,
        !old(s).beep_volume.finite() ==> final(s).beep_volume == d.beep_volume,
        final(s).gate_threshold_db.finite(),
        old(s).gate_threshold_db.finite() ==> final(s).gate_threshold_db == old(s).gate_threshold_db,
        !old(s).gate_threshold_db.finite() ==> final(s).gate_threshold_db == d.gate_threshold_db,
        final(s).comp_knob.finite(),
        old(s).comp_knob.finite() ==> final(s).comp_knob == old(s).comp_knob,
        !old(s).comp_knob.finite() ==> final(s).comp_knob == d.comp_knob,
        final(s).fader_db.finite(),
        old(s).fader_db.finite() ==> final(s).fader_db == old(s).fader_db,
        !old(s).fader_db.finite() ==> final(s).fader_db == d.fader_db,
        final(s).gate_range_db.finite(),
        old(s).gate_range_db.finite() ==> final(s).gate_range_db == old(s).gate_range_db,
        !old(s).gate_range_db.finite() ==> final(s).gate_range_db == d.gate_range_db,
        final(s).gate_attack_ms.finite(),
        old(s).gate_attack_ms.finite() ==> final(s).gate_attack_ms == old(s).gate_attack_ms,
        !old(s).gate_attack_ms.finite() ==> final(s).gate_attack_ms == d.gate_attack_ms,
        final(s).gate_hold_ms.finite(),
        old(s).gate_hold_ms.finite() ==> final(s).gate_hold_ms == old(s).gate_hold_ms,
        !old(s).gate_hold_ms.finite() ==> final(s).gate_hold_ms == d.gate_hold_ms,
        final(s).gate_release_ms.finite(),
        old(s).gate_release_ms.finite() ==> final(s).gate_release_ms == old(s).gate_release_ms,
        !old(s).gate_release_ms.finite() ==> final(s).gate_release_ms == d.gate_release_ms,
        final(s).buffer_ms.finite(),
        old(s).buffer_ms.finite() ==> final(s).buffer_ms == old(s).buffer_ms,
        !old(s).buffer_ms.finite() ==> final(s).buffer_ms == d.buffer_ms,
        final(s).agc_target_db.finite(),
        old(s).agc_target_db.finite() ==> final(s).agc_target_db == old(s).agc_target_db,
        !old(s).agc_target_db.finite() ==> final(s).agc_target_db == d.agc_target_db,
        final(s).agc_attack_ms.finite(),
        old(s).agc_attack_ms.finite() ==> final(s).agc_attack_ms == old(s).agc_attack_ms,
        !old(s).agc_attack_ms.finite() ==> final(s).agc_attack_ms == d.agc_attack_ms,
        final(s).agc_release_ms.finite(),
        old(s).agc_release_ms.finite() ==> final(s).agc_release_ms == old(s).agc_release_ms,
        !old(s).agc_release_ms.finite() ==> final(s).agc_release_ms == d.agc_release_ms,
        final(s).agc_gate_db.finite(),
        old(s).agc_gate_db.finite() ==> final(s).agc_gate_db == old(s).agc_gate_db,
        !old(s).agc_gate_db.finite() ==> final(s).agc_gate_db == d.agc_gate_db,
        final(s).agc_ceiling_db.finite(),
        old(s).agc_ceiling_db.finite() ==> final(s).agc_ceiling_db == old(s).agc_ceiling_db,
        !old(s).agc_ceiling_db.finite() ==> final(s).agc_ceiling_db == d.agc_ceiling_db,
        final(s).display == old(s).display,
        final(s).monitor == old(s).monitor,
        final(s).anchor == old(s).anchor,
        final(s).beep_enabled == old(s).beep_enabled,
        final(s).mic_muted == old(s).mic_muted,
        final(s).output_off == old(s).output_off,
        final(s).denoise == old(s).denoise,
        final(s).denoise_level == old(s).denoise_level,
        final(s).echo == old(s).echo,
        final(s).device_id == old(s).device_id,
        final(s).agc_output_id == old(s).agc_output_id,
        old(s).noise_profile is None ==> final(s).noise_profile is None,
        old(s).noise_profile matches Some(profile) ==> {
            &&& (forall|i: int| 0 <= i < profile@.len() ==> #[trigger] profile@[i].finite()) ==> final(s).noise_profile
                == old(s).noise_profile
            &&& !(forall|i: int| 0 <= i < profile@.len() ==> #[trigger] profile@[i].finite()) ==> final(
                s).noise_profile is None
        },
{
    lemma_starting_values();
}

/// Everything that could be heard or would change the sound is off at the start, and the lights
/// come at -24 and -18 dB.
pub proof fn law_everything_is_off_at_the_start(d: Settings)
    requires
        d.is_default(),
    ensures
        d.yellow_db.val() == -24 * pow2(149) && d.red_db.val() == -18 * pow2(149),
        d.hold_ms.val() == 1500 * pow2(149) && d.attack_ms.val() == 20 * pow2(149) && d.release_ms.val() == 400 * pow2(149),
        d.gate_threshold_db.val() == -100 * pow2(149) && d.comp_knob.val() == 0 && d.fader_db.val() == 0,
        d.agc_ceiling_db.val() == 0 && d.agc_target_db.val() == -20 * pow2(149) && d.agc_gate_db.val() == -50 * pow2(149),
        d.gate_range_db.val() == 25 * pow2(149) && d.buffer_ms.val() == 30 * pow2(149),
        !d.beep_enabled && !d.mic_muted && !d.denoise && !d.echo && !d.output_off,
        d.device_id is None && d.agc_output_id is None && d.noise_profile is None && d.monitor == 0,
{
    lemma_whole_val(0);
    lemma_whole_val(-24);
    lemma_whole_val(-18);
    lemma_whole_val(1500);
    lemma_whole_val(20);
    lemma_whole_val(400);
    lemma_whole_val(-100);
    lemma_whole_val(-20);
    lemma_whole_val(-50);
    lemma_whole_val(25);
    lemma_whole_val(30);
}

/// The indicator begins as a dot in the upper right corner of the main screen, green dimmer than the
/// rest, and the finer settings stand in the middle.
pub proof fn law_how_the_indicator_begins(d: Settings)
    requires
        d.is_default(),
    ensures
        d.display == DisplayMode::Dot && d.anchor == Anchor::TopRight,
        d.margin.val() == 12 * pow2(149) && d.dot_size.val() == 20 * pow2(149) && d.bar_width.val() == 240 * pow2(149),
        d.bar_min_db.val() == -60 * pow2(149) && d.opacity.val() == pow2(149) && 4 * d.green_brightness.val() == pow2(149),
        d.brightness.bits == 0x3f66_6666 && d.beep_volume.bits == 0x3e99_999a,
        d.gate_attack_ms.val() == 2 * pow2(149) && d.gate_hold_ms.val() == 250 * pow2(149) && d.gate_release_ms.val() == 150
            * pow2(149),
        d.agc_attack_ms.val() == 40 * pow2(149) && d.agc_release_ms.val() == 1500 * pow2(149),
        d.denoise_level == DenoiseLevel::Medium,
{
    lemma_whole_val(12);
    lemma_whole_val(20);
    lemma_whole_val(240);
    lemma_whole_val(-60);
    lemma_whole_val(1);
    lemma_whole_val(2);
    lemma_whole_val(250);
    lemma_whole_val(150);
    lemma_whole_val(40);
    lemma_whole_val(1500);
    lemma_quarters_of(1);
    vstd::arithmetic::power2::lemma_pow2_adds(2, 147);
    vstd::arithmetic::power2::lemma2_to64();
}

} // verus!
