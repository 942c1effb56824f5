//! What is done to the microphone: noise filter, gate, automatic volume, fader and mute,
//! limiter. The decisions and the state are here; levels, smoothing and gains are computed on
//! the samples and handed in.

use vstd::arithmetic::power2::pow2;
use vstd::prelude::*;

use crate::denoiser::Denoiser;
use crate::single::whole_of;
use crate::single::Single;

verus! {

/// 0.6
pub const SPEECH_VAD_BITS: u32 = 0x3f19_999a;

/// 0.15: a block is never held to less than this before it counts as speech, a little above
/// what is surely none.
pub const LEAST_SPEECH_VAD_BITS: u32 = 0x3e19_999a;

/// The sample rate that the noise filter works with.
pub const FILTER_RATE: u32 = 48_000;

#[derive(Clone, Copy, Debug, PartialEq, Eq, Structural)]
pub struct GateSettings {
    pub enabled: bool,
    pub threshold_db: Single,
    /// How much quieter when closed.
    pub range_db: Single,
    pub attack_ms: Single,
    pub hold_ms: Single,
    pub release_ms: Single,
}

#[derive(Clone, Copy, Debug, PartialEq, Eq, Structural)]
pub struct CompSettings {
    pub enabled: bool,
    /// Wanted speech level in dBFS.
    pub target_db: Single,
    pub max_gain_db: Single,
    pub max_cut_db: Single,
    /// How fast it turns down.
    pub attack_ms: Single,
    /// How fast it turns up.
    pub release_ms: Single,
    /// Anything quieter is a pause; the gain is then held.
    pub pause_db: Single,
}

#[derive(Clone, Copy, Debug, PartialEq, Eq, Structural)]
pub struct Settings {
    /// Noise filter. It needs 48 kHz, else it is skipped.
    pub denoise: bool,
    /// From this certainty on it counts as speech and nothing is lowered.
    pub denoise_speech_vad: Single,
    /// How much pauses are lowered on top of the filter, 0 is off.
    pub denoise_duck_db: Single,
    /// How much of the unfiltered sound stays.
    pub denoise_dry: Single,
    pub gate: GateSettings,
    pub comp: CompSettings,
    pub fader_db: Single,
    pub muted: bool,
    /// 0 dB: limiter off.
    pub ceiling_db: Single,
}

impl GateSettings {
    /// Equal field by field, numbers compared as numbers.
    pub open spec fn alike(self, other: GateSettings) -> bool {
        &&& self.enabled == other.enabled
        &&& self.threshold_db.equal(other.threshold_db)
        &&& self.range_db.equal(other.range_db)
        &&& self.attack_ms.equal(other.attack_ms)
        &&& self.hold_ms.equal(other.hold_ms)
        &&& self.release_ms.equal(other.release_ms)
    }

    pub fn same(&self, other: &GateSettings) -> (r: bool)
        ensures
            r == self.alike(*other),
    {
        self.enabled == other.enabled && self.threshold_db.same(other.threshold_db) && self.range_db.same(other.range_db)
            && self.attack_ms.same(other.attack_ms) && self.hold_ms.same(other.hold_ms) && self.release_ms.same(
            other.release_ms,
        )
    }
}

impl CompSettings {
    /// Equal field by field, numbers compared as numbers.
    pub open spec fn alike(self, other: CompSettings) -> bool {
        &&& self.enabled == other.enabled
        &&& self.target_db.equal(other.target_db)
        &&& self.max_gain_db.equal(other.max_gain_db)
        &&& self.max_cut_db.equal(other.max_cut_db)
        &&& self.attack_ms.equal(other.attack_ms)
        &&& self.release_ms.equal(other.release_ms)
        &&& self.pause_db.equal(other.pause_db)
    }

    pub fn same(&self, other: &CompSettings) -> (r: bool)
        ensures
            r == self.alike(*other),
    {
        self.enabled == other.enabled && self.target_db.same(other.target_db) && self.max_gain_db.same(other.max_gain_db)
            && self.max_cut_db.same(other.max_cut_db) && self.attack_ms.same(other.attack_ms) && self.release_ms.same(
            other.release_ms,
        ) && self.pause_db.same(other.pause_db)
    }

    /// Everything off.
    pub open spec fn is_default(self) -> bool {
        &&& !self.enabled
        &&& self.target_db == whole_of(-20)
        &&& self.max_gain_db == whole_of(0)
        &&& self.max_cut_db == whole_of(0)
        &&& self.attack_ms == whole_of(40)
        &&& self.release_ms == whole_of(1500)
        &&& self.pause_db == whole_of(-50)
    }
}

impl Settings {
    /// Equal field by field, numbers compared as numbers.
    pub open spec fn alike(self, other: Settings) -> bool {
        &&& self.denoise == other.denoise
        &&& self.denoise_speech_vad.equal(other.denoise_speech_vad)
        &&& self.denoise_duck_db.equal(other.denoise_duck_db)
        &&& self.denoise_dry.equal(other.denoise_dry)
        &&& self.gate.alike(other.gate)
        &&& self.comp.alike(other.comp)
        &&& self.fader_db.equal(other.fader_db)
        &&& self.muted == other.muted
        &&& self.ceiling_db.equal(other.ceiling_db)
    }

    pub fn same(&self, other: &Settings) -> (r: bool)
        ensures
            r == self.alike(*other),
    {
        self.denoise == other.denoise && self.denoise_speech_vad.same(other.denoise_speech_vad)
            && self.denoise_duck_db.same(other.denoise_duck_db) && self.denoise_dry.same(other.denoise_dry)
            && self.gate.same(&other.gate) && self.comp.same(&other.comp) && self.fader_db.same(other.fader_db)
            && self.muted == other.muted && self.ceiling_db.same(other.ceiling_db)
    }

    /// Everything off: the sound passes unchanged.
    pub open spec fn is_default(self) -> bool {
        &&& !self.denoise
        &&& self.denoise_speech_vad == Single { bits: SPEECH_VAD_BITS }
        &&& self.denoise_duck_db == whole_of(0)
        &&& self.denoise_dry == whole_of(0)
        &&& !self.gate.enabled
        &&& self.gate.threshold_db == whole_of(-45)
        &&& self.gate.range_db == whole_of(40)
        &&& self.gate.attack_ms == whole_of(2)
        &&& self.gate.hold_ms == whole_of(250)
        &&& self.gate.release_ms == whole_of(150)
        &&& self.comp.is_default()
        &&& self.fader_db == whole_of(0)
        &&& !self.muted
        &&& self.ceiling_db == whole_of(0)
    }
}

impl Default for Settings {
    fn default() -> (s: Settings)
        ensures
            s.is_default(),
    {
        let zero = Single::whole(0);
        Settings {
            denoise: false,
            denoise_speech_vad: Single { bits: SPEECH_VAD_BITS },
            denoise_duck_db: zero,
            denoise_dry: zero,
            gate: GateSettings {
                enabled: false,
                threshold_db: Single::whole(-45),
                range_db: Single::whole(40),
                attack_ms: Single::whole(2),
                hold_ms: Single::whole(250),
                release_ms: Single::whole(150),
            },
            comp: CompSettings {
                enabled: false,
                target_db: Single::whole(-20),
                max_gain_db: zero,
                max_cut_db: zero,
                attack_ms: Single::whole(40),
                release_ms: Single::whole(1500),
                pause_db: Single::whole(-50),
            },
            fader_db: zero,
            muted: false,
            ceiling_db: zero,
        }
    }
}

/// Where a smoothed value goes and by which factor it gets closer with each sample.
#[derive(Clone, Copy, Debug, PartialEq, Eq, Structural)]
pub struct Course {
    pub target: Single,
    pub k: Single,
}

/// Below its threshold the noise gate lowers by so many dB for each dB.
pub const GATE_SLOPE: i32 = 3;

/// How much the noise gate lowers a level: nothing from the threshold on, below it `below`, but at
/// most `range_db`.
pub open spec fn reduction(level_db: Single, threshold_db: Single, range_db: Single, below: Single) -> Single {
    if threshold_db.at_most(level_db) {
        whole_of(0)
    } else {
        below.smaller(range_db.larger(whole_of(0)))
    }
}

/// How much the noise gate lowers a level. `below` is how much it would be without a limit: the
/// distance to the threshold, times the slope of the noise gate.
pub fn gate_reduction_db(level_db: Single, threshold_db: Single, range_db: Single, below: Single) -> (r: Single)
    ensures
        r == reduction(level_db, threshold_db, range_db, below),
{
    if threshold_db.le(level_db) {
        Single::whole(0)
    } else {
        below.min(range_db.max(Single::whole(0)))
    }
}

/// The noise gate slides: the higher its threshold, the quieter the same level comes out; never by
/// more than its range, and from the threshold on not at all.
pub proof fn law_gate_slides(level: Single, low: Single, high: Single, range: Single, below_low: Single, below_high: Single)
    requires
        low.at_most(high),
        below_low.at_most(below_high),
        whole_of(0).at_most(below_high),
        !level.nan(),
    ensures
        reduction(level, low, range, below_low).at_most(reduction(level, high, range, below_high)),
        reduction(level, high, range, below_high).at_most(range.larger(whole_of(0))),
        high.at_most(level) ==> reduction(level, high, range, below_high) == whole_of(0),
{
    crate::single::lemma_quarters_of(0);
}

/// The louder a level, the less it is lowered; by nothing less than 0 and nothing more than the
/// range. `below_quiet` and `below_loud` are what the two would be lowered by without a limit.
pub proof fn law_louder_is_lowered_less(
    quiet: Single,
    loud: Single,
    threshold: Single,
    range: Single,
    below_quiet: Single,
    below_loud: Single,
)
    requires
        quiet.at_most(loud),
        !threshold.nan(),
        below_loud.at_most(below_quiet),
        !threshold.at_most(quiet) ==> whole_of(0).at_most(below_quiet),
        !threshold.at_most(loud) ==> whole_of(0).at_most(below_loud),
    ensures
        reduction(loud, threshold, range, below_loud).at_most(reduction(quiet, threshold, range, below_quiet)),
        whole_of(0).at_most(reduction(loud, threshold, range, below_loud)),
        reduction(quiet, threshold, range, below_quiet).at_most(range.larger(whole_of(0))),
{
    crate::single::lemma_quarters_of(0);
}

/// The sliding noise gate.
#[derive(Clone, Copy, Debug, PartialEq, Eq, Structural)]
pub struct Gate {
    pub attack_k: Single,
    pub release_k: Single,
    pub hold_samples: usize,
    pub threshold_db: Single,
    pub range_db: Single,
    pub reduction_db: Single,
    pub hold_left: usize,
}

impl Gate {
    /// Nothing is configured and nothing is lowered yet.
    pub open spec fn is_fresh(self) -> bool {
        &&& self.attack_k == whole_of(1)
        &&& self.release_k == whole_of(1)
        &&& self.hold_samples == 0
        &&& self.threshold_db == whole_of(-100)
        &&& self.range_db == whole_of(0)
        &&& self.reduction_db == whole_of(0)
        &&& self.hold_left == 0
    }

    pub fn new() -> (g: Gate)
        ensures
            g.is_fresh(),
    {
        Gate {
            attack_k: Single::whole(1),
            release_k: Single::whole(1),
            hold_samples: 0,
            threshold_db: Single::whole(-100),
            range_db: Single::whole(0),
            reduction_db: Single::whole(0),
            hold_left: 0,
        }
    }

    /// The noise gate with other settings, in the middle of what it is doing.
    pub open spec fn configured(self, s: GateSettings, attack_k: Single, release_k: Single, hold_samples: usize) -> Gate {
        Gate {
            attack_k,
            release_k,
            hold_samples,
            threshold_db: s.threshold_db,
            range_db: s.range_db.larger(whole_of(0)),
            ..self
        }
    }

    /// Takes over settings, with what was computed from them for the sample rate.
    pub fn configure(&mut self, s: &GateSettings, attack_k: Single, release_k: Single, hold_samples: usize)
        ensures
            *final(self) == old(self).configured(*s, attack_k, release_k, hold_samples),
    {
        self.attack_k = attack_k;
        self.release_k = release_k;
        self.threshold_db = s.threshold_db;
        self.range_db = s.range_db.max(Single::whole(0));
        self.hold_samples = hold_samples;
    }

    /// The level is below the threshold.
    pub open spec fn quiet(self, level_db: Single) -> bool {
        !self.threshold_db.at_most(level_db)
    }

    /// How long the noise gate stays open after a sample of this level.
    pub open spec fn hold_after(self, level_db: Single) -> usize {
        if !self.quiet(level_db) {
            self.hold_samples
        } else if self.hold_left > 0 {
            (self.hold_left - 1) as usize
        } else {
            0
        }
    }

    /// Where the reduction goes: while the noise gate is held after the last word, not further up.
    pub open spec fn target(self, level_db: Single, below: Single) -> Single {
        let wanted = reduction(level_db, self.threshold_db, self.range_db, below);
        if self.quiet(level_db) && self.hold_left > 0 {
            wanted.smaller(self.reduction_db)
        } else {
            wanted
        }
    }

    /// A sample of this level: where the reduction goes and how fast. It opens with the one
    /// factor and closes with the other. What it has reached goes to `settle`.
    pub fn aim(&mut self, level_db: Single, below: Single) -> (c: Course)
        ensures
            c.target == old(self).target(level_db, below),
            c.k == if c.target.less(old(self).reduction_db) {
                old(self).attack_k
            } else {
                old(self).release_k
            },
            *final(self) == (Gate { hold_left: old(self).hold_after(level_db), ..*old(self) }),
    {
        let mut target = gate_reduction_db(level_db, self.threshold_db, self.range_db, below);
        if self.threshold_db.le(level_db) {
            self.hold_left = self.hold_samples;
        } else if self.hold_left > 0 {
            self.hold_left = self.hold_left - 1;
            target = target.min(self.reduction_db);
        }
        let k = if target.lt(self.reduction_db) {
            self.attack_k
        } else {
            self.release_k
        };
        Course { target, k }
    }

    /// The reduction that has been reached.
    pub fn settle(&mut self, reduction_db: Single)
        ensures
            *final(self) == (Gate { reduction_db, ..*old(self) }),
    {
        self.reduction_db = reduction_db;
    }

    /// Open as long as hardly anything is lowered: by less than 1 dB.
    pub open spec fn opened(self) -> bool {
        self.reduction_db.less(whole_of(1))
    }

    pub fn is_open(&self) -> (r: bool)
        ensures
            r == self.opened(),
    {
        self.reduction_db.lt(Single::whole(1))
    }
}

/// After a word the noise gate does not close any further for as long as it is held.
pub proof fn law_gate_is_held(g: Gate, level_db: Single, below: Single)
    requires
        g.hold_left > 0,
        !g.reduction_db.nan(),
        whole_of(0).at_most(g.reduction_db),
    ensures
        g.target(level_db, below).at_most(g.reduction_db),
{
    crate::single::lemma_quarters_of(0);
}

/// The noise gate after some samples, with the reduction that each one led to.
pub open spec fn gate_after(g: Gate, levels: Seq<Single>, reached: Seq<Single>) -> Gate
    decreases levels.len(),
{
    if levels.len() == 0 {
        g
    } else {
        let before = gate_after(g, levels.drop_last(), reached.drop_last());
        Gate { hold_left: before.hold_after(levels.last()), reduction_db: reached.last(), ..before }
    }
}

/// A hold lasts for exactly as many quiet samples as it was set to.
pub proof fn law_hold_lasts(g: Gate, loud: Single, levels: Seq<Single>, reached: Seq<Single>)
    requires
        !g.quiet(loud),
        levels.len() == reached.len(),
        forall|i: int| 0 <= i < levels.len() ==> g.quiet(#[trigger] levels[i]),
    ensures
        ({
            let spoken = Gate { hold_left: g.hold_after(loud), ..g };
            gate_after(spoken, levels, reached).hold_left == if levels.len() <= g.hold_samples {
                g.hold_samples - levels.len()
            } else {
                0
            }
        }),
    decreases levels.len(),
{
    let spoken = Gate { hold_left: g.hold_after(loud), ..g };
    lemma_gate_keeps_threshold(spoken, levels, reached);
    if levels.len() > 0 {
        let l = levels.drop_last();
        assert forall|i: int| 0 <= i < l.len() implies g.quiet(#[trigger] l[i]) by {
            assert(l[i] == levels[i]);
        }
        law_hold_lasts(g, loud, l, reached.drop_last());
        lemma_gate_keeps_threshold(spoken, l, reached.drop_last());
        assert(g.quiet(levels[levels.len() - 1]));
    }
}

proof fn lemma_gate_keeps_threshold(g: Gate, levels: Seq<Single>, reached: Seq<Single>)
    ensures
        gate_after(g, levels, reached).threshold_db == g.threshold_db,
        gate_after(g, levels, reached).hold_samples == g.hold_samples,
    decreases levels.len(),
{
    if levels.len() > 0 {
        lemma_gate_keeps_threshold(g, levels.drop_last(), reached.drop_last());
    }
}

/// The automatic volume: quiet up, loud down, nothing up in pauses.
#[derive(Clone, Copy, Debug, PartialEq, Eq, Structural)]
pub struct Comp {
    pub attack_k: Single,
    pub release_k: Single,
    pub settings: CompSettings,
    pub recent_peak_db: Single,
    pub gain_db: Single,
}

/// A distance to the wanted level, kept within what may be cut and raised.
pub open spec fn within_reach(s: CompSettings, distance: Single) -> Single {
    let cut = s.max_cut_db.larger(whole_of(0));
    let gain = s.max_gain_db.larger(whole_of(0));
    distance.limited(minus(cut), gain)
}

/// The same number with the other sign.
pub open spec fn minus(x: Single) -> Single {
    if x.negative() {
        Single { bits: (x.bits - crate::single::SIGN_BIT) as u32 }
    } else {
        Single { bits: (x.bits + crate::single::SIGN_BIT) as u32 }
    }
}

fn negated(x: Single) -> (r: Single)
    ensures
        r == minus(x),
        r.val() == -x.val(),
        r.nan() == x.nan(),
{
    x.neg()
}

impl Comp {
    /// Nothing is configured and nothing was heard yet.
    pub open spec fn is_fresh(self) -> bool {
        &&& self.attack_k == whole_of(1)
        &&& self.release_k == whole_of(1)
        &&& self.settings.is_default()
        &&& self.recent_peak_db == whole_of(-120)
        &&& self.gain_db == whole_of(0)
    }

    pub fn new() -> (c: Comp)
        ensures
            c.is_fresh(),
    {
        Comp {
            attack_k: Single::whole(1),
            release_k: Single::whole(1),
            settings: Settings::default().comp,
            recent_peak_db: Single::whole(-120),
            gain_db: Single::whole(0),
        }
    }

    /// Takes over settings, with what was computed from them for the sample rate.
    pub fn configure(&mut self, s: &CompSettings, attack_k: Single, release_k: Single)
        ensures
            *final(self) == (Comp { attack_k, release_k, settings: *s, ..*old(self) }),
    {
        self.attack_k = attack_k;
        self.release_k = release_k;
        self.settings = *s;
    }

    /// The recent peak: the level, or what is left of the peak before. `decayed` is that.
    pub fn follow(&mut self, level_db: Single, decayed: Single) -> (peak: Single)
        ensures
            peak == decayed.larger(level_db),
            *final(self) == (Comp { recent_peak_db: peak, ..*old(self) }),
    {
        self.recent_peak_db = decayed.max(level_db);
        self.recent_peak_db
    }

    /// Where the gain goes for a level: nowhere in a pause, down at once, up only while no word
    /// is fading away.
    pub open spec fn course(self, level_db: Single, distance: Single, fading_below: Single) -> Option<Course> {
        let wanted = within_reach(self.settings, distance);
        if !self.settings.pause_db.less(level_db) {
            None
        } else if wanted.less(self.gain_db) {
            Some(Course { target: wanted, k: self.attack_k })
        } else if fading_below.less(level_db) {
            Some(Course { target: wanted, k: self.release_k })
        } else {
            None
        }
    }

    /// Where the gain goes for a level. `distance` is from the level to the wanted one; below
    /// `fading_below`, some dB under the recent peak, a word is fading away.
    pub fn aim(&self, level_db: Single, distance: Single, fading_below: Single) -> (c: Option<Course>)
        ensures
            c == self.course(level_db, distance, fading_below),
    {
        if !self.settings.pause_db.lt(level_db) {
            return None;
        }
        let zero = Single::whole(0);
        let low = negated(self.settings.max_cut_db.max(zero));
        let wanted = distance.clamp(low, self.settings.max_gain_db.max(zero));
        if wanted.lt(self.gain_db) {
            Some(Course { target: wanted, k: self.attack_k })
        } else if fading_below.lt(level_db) {
            Some(Course { target: wanted, k: self.release_k })
        } else {
            None
        }
    }

    /// The gain that has been reached.
    pub fn settle(&mut self, gain_db: Single)
        ensures
            *final(self) == (Comp { gain_db, ..*old(self) }),
    {
        self.gain_db = gain_db;
    }

    pub fn gain_db(&self) -> (r: Single)
        ensures
            r == self.gain_db,
    {
        self.gain_db
    }
}

/// In a pause the gain is held: noise is not pulled up.
pub proof fn law_pause_holds_the_gain(c: Comp, level_db: Single, distance: Single, fading_below: Single)
    requires
        level_db.at_most(c.settings.pause_db),
    ensures
        c.course(level_db, distance, fading_below) is None,
{
}

/// The gain is never driven beyond what may be raised, nor below what may be cut.
pub proof fn law_gain_is_limited(c: Comp, level_db: Single, distance: Single, fading_below: Single)
    requires
        !distance.nan(),
    ensures
        c.course(level_db, distance, fading_below) matches Some(course) ==> course.target.at_most(
            c.settings.max_gain_db.larger(whole_of(0)),
        ) && minus(c.settings.max_cut_db.larger(whole_of(0))).at_most(course.target),
{
    crate::single::lemma_quarters_of(0);
    let cut = c.settings.max_cut_db.larger(whole_of(0));
    lemma_minus(cut);
}

proof fn lemma_minus(x: Single)
    ensures
        minus(x).val() == -x.val(),
        minus(x).nan() == x.nan(),
{
    reveal(Single::val);
}

/// Lets no peak over the ceiling: grips at once, lets go slowly.
#[derive(Clone, Copy, Debug, PartialEq, Eq, Structural)]
pub struct Limiter {
    pub envelope: Single,
}

impl Limiter {
    pub fn new() -> (l: Limiter)
        ensures
            l.envelope == whole_of(0),
    {
        Limiter { envelope: Single::whole(0) }
    }

    /// A peak: a higher one counts at once, else the envelope has fallen to `released`. Says
    /// whether the ceiling is exceeded; the gain is then the ceiling by the envelope, else 1.
    pub fn follow(&mut self, peak: Single, released: Single, ceiling: Single) -> (over: bool)
        ensures
            final(self).envelope == if old(self).envelope.less(peak) {
                peak
            } else {
                released
            },
            over == ceiling.less(final(self).envelope),
    {
        if self.envelope.lt(peak) {
            self.envelope = peak;
        } else {
            self.envelope = released;
        }
        ceiling.lt(self.envelope)
    }
}

/// `peak` is the largest distance from zero in `samples`, 0 if there are none.
pub open spec fn is_peak(peak: Single, samples: Seq<Single>) -> bool {
    &&& !peak.nan()
    &&& 0 <= peak.val()
    &&& (forall|i: int| 0 <= i < samples.len() && !(#[trigger] samples[i]).nan() ==> -peak.val() <= samples[i].val()
        <= peak.val())
    &&& (peak.val() == 0 || exists|i: int|
        0 <= i < samples.len() && !(#[trigger] samples[i]).nan() && (samples[i].val() == peak.val() || samples[i].val()
            == -peak.val()))
}

/// The largest distance from zero.
pub fn peak_of(samples: &Vec<Single>) -> (peak: Single)
    ensures
        is_peak(peak, samples@),
{
    let mut peak = Single::whole(0);
    proof {
        assert(whole_of(0).val() == 0);
    }
    let mut n: usize = 0;
    while n < samples.len()
        invariant
            n <= samples@.len(),
            is_peak(peak, samples@.take(n as int)),
        decreases samples@.len() - n,
    {
        let ghost before = peak;
        peak = peak.max(samples[n].abs());
        proof {
            let done = samples@.take(n as int);
            let more = samples@.take(n + 1);
            assert(more[n as int] == samples@[n as int]);
            assert forall|i: int| 0 <= i < more.len() && !(#[trigger] more[i]).nan() implies -peak.val() <= more[i].val()
                <= peak.val() by {
                if i < n {
                    assert(done[i] == more[i]);
                }
            }
            if peak == before {
                if peak.val() != 0 {
                    let i = choose|i: int|
                        0 <= i < done.len() && !(#[trigger] done[i]).nan() && (done[i].val() == peak.val() || done[i].val()
                            == -peak.val());
                    assert(more[i] == done[i]);
                }
            } else {
                assert(more[n as int].val() == peak.val() || more[n as int].val() == -peak.val());
            }
        }
        n = n + 1;
    }
    assert(samples@.take(n as int) =~= samples@);
    peak
}

/// A frame that was cut off at the ceiling.
pub open spec fn cut_off(before: Seq<Single>, after: Seq<Single>, ceiling: Single) -> bool {
    &&& after.len() == before.len()
    &&& forall|i: int| 0 <= i < before.len() ==> #[trigger] after[i] == before[i].limited(minus(ceiling), ceiling)
}

/// No sample of a frame that was cut off lies beyond the ceiling, however far up gain and fader
/// drove it, and one that did not lie beyond it stays as it is.
pub proof fn law_no_sample_over_the_ceiling(before: Seq<Single>, after: Seq<Single>, ceiling: Single)
    requires
        whole_of(0).at_most(ceiling),
        cut_off(before, after, ceiling),
        forall|i: int| 0 <= i < before.len() ==> !(#[trigger] before[i]).nan(),
    ensures
        forall|i: int| 0 <= i < after.len() ==> (#[trigger] after[i]).at_most(ceiling) && minus(ceiling).at_most(after[i]),
        forall|i: int|
            0 <= i < after.len() && minus(ceiling).at_most(before[i]) && before[i].at_most(ceiling) ==> #[trigger] after[i]
                == before[i],
{
    crate::single::lemma_quarters_of(0);
    lemma_minus(ceiling);
    assert forall|i: int| 0 <= i < after.len() implies (#[trigger] after[i]).at_most(ceiling) && minus(ceiling).at_most(
        after[i],
    ) by {
        assert(!before[i].nan());
    }
}

/// The ceiling cannot be passed by: in every frame the limiter comes after all that make it
/// louder, and only the meter comes after it.
pub proof fn law_limiter_is_always_last(c: Chain, stage: Stage)
    ensures
        c.takes_part(Stage::Limiter),
        stage.place() > Stage::Limiter.place() ==> stage == Stage::Meter,
{
}

/// Cuts every sample off at the ceiling.
pub fn limit(samples: &mut Vec<Single>, ceiling: Single)
    requires
        whole_of(0).at_most(ceiling),
    ensures
        cut_off(old(samples)@, final(samples)@, ceiling),
        forall|i: int| 0 <= i < old(samples)@.len() && !old(samples)@[i].nan() ==> final(samples)@[i].at_most(ceiling)
            && minus(ceiling).at_most(#[trigger] final(samples)@[i]),
{
    let low = negated(ceiling);
    proof {
        crate::single::lemma_quarters_of(0);
    }
    let mut n: usize = 0;
    while n < samples.len()
        invariant
            low == minus(ceiling),
            low.at_most(ceiling),
            n <= samples@.len(),
            samples@.len() == old(samples)@.len(),
            forall|i: int| n <= i < samples@.len() ==> samples@[i] == old(samples)@[i],
            forall|i: int| 0 <= i < n ==> #[trigger] samples@[i] == old(samples)@[i].limited(low, ceiling),
            forall|i: int| 0 <= i < n && !old(samples)@[i].nan() ==> (#[trigger] samples@[i]).at_most(ceiling)
                && low.at_most(samples@[i]),
        decreases samples@.len() - n,
    {
        let cut = samples[n].clamp(low, ceiling);
        samples.set(n, cut);
        n = n + 1;
    }
}

/// The steps that a frame goes through, in their order.
#[derive(Clone, Copy, Debug, PartialEq, Eq, Structural)]
pub enum Stage {
    Filter,
    Gate,
    Comp,
    Fader,
    Limiter,
    Meter,
}

impl Stage {
    /// The place in the order.
    pub open spec fn place(self) -> int {
        match self {
            Stage::Filter => 0,
            Stage::Gate => 1,
            Stage::Comp => 2,
            Stage::Fader => 3,
            Stage::Limiter => 4,
            Stage::Meter => 5,
        }
    }
}

/// What was computed from settings for the sample rate.
#[derive(Clone, Copy, Debug, PartialEq, Eq, Structural)]
pub struct Figures {
    pub gate_attack_k: Single,
    pub gate_release_k: Single,
    pub hold_samples: usize,
    pub comp_attack_k: Single,
    pub comp_release_k: Single,
    /// The ceiling as a factor.
    pub ceiling: Single,
}

/// The state of the whole chain.
pub struct Chain {
    pub settings: Settings,
    /// Only at 48 kHz.
    pub denoiser: Option<Denoiser>,
    pub configured: bool,
    pub gate: Gate,
    pub comp: Comp,
    pub limiter: Limiter,
    pub ceiling: Single,
    pub fader_gain: Single,
    /// How much a pause is lowered right now.
    pub duck_db: Single,
    pub duck_open_k: Single,
    pub duck_close_k: Single,
}

impl Chain {
    pub open spec fn valid(self) -> bool {
        self.denoiser matches Some(d) ==> d.valid()
    }

    /// A chain for this sample rate. `set` follows with the settings and their figures.
    pub fn new(rate: u32, duck_open_k: Single, duck_close_k: Single) -> (c: Chain)
        ensures
            c.valid(),
            c.settings.is_default(),
            c.denoiser is Some <==> rate == FILTER_RATE,
            c.denoiser matches Some(d) ==> d.is_empty() && d.vad == whole_of(1),
            !c.configured,
            c.ceiling == whole_of(1),
            c.fader_gain == whole_of(1),
            c.duck_db == whole_of(0),
            c.duck_open_k == duck_open_k,
            c.duck_close_k == duck_close_k,
            c.gate.is_fresh(),
            c.comp.is_fresh(),
            c.limiter.envelope == whole_of(0),
    {
        Chain {
            settings: Settings::default(),
            denoiser: if rate == FILTER_RATE {
                Some(Denoiser::new())
            } else {
                None
            },
            configured: false,
            gate: Gate::new(),
            comp: Comp::new(),
            limiter: Limiter::new(),
            ceiling: Single::whole(1),
            fader_gain: Single::whole(1),
            duck_db: Single::whole(0),
            duck_open_k,
            duck_close_k,
        }
    }

    /// These settings are not the ones that are set.
    pub open spec fn differs(self, settings: Settings) -> bool {
        !self.configured || !settings.alike(self.settings)
    }

    /// Whether these settings have to be taken over.
    pub fn needs(&self, settings: &Settings) -> (r: bool)
        ensures
            r == self.differs(*settings),
    {
        !self.configured || !settings.same(&self.settings)
    }

    /// The ceiling in dB that the figures are to be computed for: never above 0.
    pub fn ceiling_db(settings: &Settings) -> (r: Single)
        ensures
            r == settings.ceiling_db.smaller(whole_of(0)),
    {
        settings.ceiling_db.min(Single::whole(0))
    }

    /// Takes over new settings with their figures; does nothing where they are the same. When
    /// the noise filter is switched on or off, what it had collected is thrown away.
    pub fn set(&mut self, settings: Settings, figures: Figures)
        requires
            old(self).valid(),
        ensures
            final(self).valid(),
            !old(self).differs(settings) ==> *final(self) == *old(self),
            old(self).differs(settings) ==> {
                &&& final(self).configured
                &&& final(self).settings == settings
                &&& final(self).gate == old(self).gate.configured(
                    settings.gate,
                    figures.gate_attack_k,
                    figures.gate_release_k,
                    figures.hold_samples,
                )
                &&& final(self).comp == (Comp {
                    attack_k: figures.comp_attack_k,
                    release_k: figures.comp_release_k,
                    settings: settings.comp,
                    ..old(self).comp
                })
                &&& final(self).ceiling == figures.ceiling
                &&& final(self).limiter == old(self).limiter
                &&& final(self).fader_gain == old(self).fader_gain
                &&& final(self).duck_db == old(self).duck_db
                &&& final(self).duck_open_k == old(self).duck_open_k
                &&& final(self).duck_close_k == old(self).duck_close_k
                &&& final(self).denoiser is Some <==> old(self).denoiser is Some
                &&& settings.denoise == old(self).settings.denoise ==> final(self).denoiser == old(self).denoiser
                &&& settings.denoise != old(self).settings.denoise ==> (final(self).denoiser matches Some(d)
                    ==> d.is_empty() && d.vad == old(self).denoiser->0.vad)
            },
    {
        if !self.needs(&settings) {
            return;
        }
        if settings.denoise != self.settings.denoise {
            let mut taken = self.denoiser.take();
            if let Some(d) = &mut taken {
                d.reset();
            }
            self.denoiser = taken;
        }
        self.configured = true;
        self.gate.configure(&settings.gate, figures.gate_attack_k, figures.gate_release_k, figures.hold_samples);
        self.comp.configure(&settings.comp, figures.comp_attack_k, figures.comp_release_k);
        self.ceiling = figures.ceiling;
        self.settings = settings;
    }

    /// A step has something to do with these settings.
    pub open spec fn takes_part(self, stage: Stage) -> bool {
        match stage {
            Stage::Filter => self.settings.denoise && self.denoiser is Some,
            Stage::Gate => self.settings.gate.enabled,
            Stage::Comp => self.settings.comp.enabled,
            _ => true,
        }
    }

    /// The next step of a frame after `done`, or the first one: noise filter, gate, automatic
    /// volume, fader, limiter, meter, without those that are switched off.
    pub fn stage_after(&self, done: Option<Stage>) -> (next: Option<Stage>)
        ensures
            (match next {
                Some(stage) => {
                    &&& self.takes_part(stage)
                    &&& (done matches Some(d) ==> d.place() < stage.place())
                    &&& forall|s: Stage| #[trigger]
                        self.takes_part(s) && s.place() < stage.place() ==> (done matches Some(d) && s.place() <= d.place())
                },
                None => done == Some(Stage::Meter),
            }),
    {
        if done.is_none() && self.filtering() {
            return Some(Stage::Filter);
        }
        let before_gate = match done {
            None | Some(Stage::Filter) => true,
            _ => false,
        };
        if before_gate && self.settings.gate.enabled {
            return Some(Stage::Gate);
        }
        if (before_gate || matches!(done, Some(Stage::Gate))) && self.settings.comp.enabled {
            return Some(Stage::Comp);
        }
        match done {
            Some(Stage::Fader) => Some(Stage::Limiter),
            Some(Stage::Limiter) => Some(Stage::Meter),
            Some(Stage::Meter) => None,
            _ => Some(Stage::Fader),
        }
    }

    /// Whether the noise filter replaces the sound.
    pub fn filtering(&self) -> (r: bool)
        ensures
            r == (self.settings.denoise && self.denoiser is Some),
    {
        self.settings.denoise && self.denoiser.is_some()
    }

    /// From which certainty on a block counts as speech.
    pub fn speech_vad(&self) -> (r: Single)
        ensures
            r == self.settings.denoise_speech_vad.larger(Single { bits: LEAST_SPEECH_VAD_BITS }),
    {
        self.settings.denoise_speech_vad.max(Single { bits: LEAST_SPEECH_VAD_BITS })
    }

    /// How much a pause is lowered at most.
    pub fn deepest_duck_db(&self) -> (r: Single)
        ensures
            r == self.settings.denoise_duck_db.larger(whole_of(0)),
    {
        self.settings.denoise_duck_db.max(Single::whole(0))
    }

    /// How fast the lowering in pauses goes to `target`: back up quickly, so that no first word
    /// is cut off, down slowly.
    pub fn duck(&self, target: Single) -> (c: Course)
        ensures
            c.target == target,
            c.k == if target.less(self.duck_db) {
                self.duck_open_k
            } else {
                self.duck_close_k
            },
    {
        let k = if target.lt(self.duck_db) {
            self.duck_open_k
        } else {
            self.duck_close_k
        };
        Course { target, k }
    }

    /// Where the fader goes: `None` for mute, else dB within -60 and 24.
    pub fn fader_target(&self) -> (r: Option<Single>)
        ensures
            r == if self.settings.muted {
                None::<Single>
            } else {
                Some(self.settings.fader_db.limited(whole_of(-60), whole_of(24)))
            },
    {
        if self.settings.muted {
            None
        } else {
            let low = Single::whole(-60);
            let high = Single::whole(24);
            proof {
                crate::single::lemma_quarters_order(low, -240, high, 96);
            }
            Some(self.settings.fader_db.clamp(low, high))
        }
    }

    /// Whether the noise gate lets the sound through; without a gate everything passes.
    pub fn gate_open(&self) -> (r: bool)
        ensures
            r == (!self.settings.gate.enabled || self.gate.opened()),
    {
        !self.settings.gate.enabled || self.gate.is_open()
    }

    /// How sure the noise filter is of speech. Without it everything counts as speech.
    pub fn speech(&self) -> (r: Single)
        ensures
            r == (match self.denoiser {
                Some(d) if self.settings.denoise => d.vad,
                _ => whole_of(1),
            }),
    {
        match &self.denoiser {
            Some(d) if self.settings.denoise => d.vad,
            _ => Single::whole(1),
        }
    }

    /// How much is lowered right now because nobody speaks.
    pub fn duck_db(&self) -> (r: Single)
        ensures
            r == if self.settings.denoise {
                self.duck_db
            } else {
                whole_of(0)
            },
    {
        if self.settings.denoise {
            self.duck_db
        } else {
            Single::whole(0)
        }
    }

    pub fn comp_gain_db(&self) -> (r: Single)
        ensures
            r == if self.settings.comp.enabled {
                self.comp.gain_db
            } else {
                whole_of(0)
            },
    {
        if self.settings.comp.enabled {
            self.comp.gain_db()
        } else {
            Single::whole(0)
        }
    }
}

/// Settings are taken over at most once: setting the same ones again changes nothing.
pub proof fn law_same_settings_change_nothing(c: Chain, settings: Settings)
    requires
        c.configured,
        c.settings == settings,
        settings.alike(settings),
    ensures
        !c.differs(settings),
{
}

/// Below its threshold the noise gate lowers by exactly what the distance asks for, as long as that
/// lies within its range, and by the range beyond that; from the threshold on by nothing.
pub proof fn law_lowering_is_what_the_distance_asks(
    level_db: Single,
    threshold_db: Single,
    range_db: Single,
    below: Single,
    r: Single,
)
    requires
        call_ensures(gate_reduction_db, (level_db, threshold_db, range_db, below), r),
        !level_db.nan(),
        !threshold_db.nan(),
        !range_db.nan(),
        !below.nan(),
    ensures
        level_db.val() >= threshold_db.val() ==> r.val() == 0,
        level_db.val() < threshold_db.val() && 0 <= below.val() <= range_db.val() ==> r == below,
        level_db.val() < threshold_db.val() && 0 <= range_db.val() < below.val() ==> r == range_db,
        level_db.val() < threshold_db.val() && range_db.val() < 0 <= below.val() ==> r.val() == 0,
{
    crate::single::lemma_whole_val(0);
}

/// Settings have to be taken over as soon as any one of them is another one: where they have not,
/// every number and every switch is the same.
pub proof fn law_any_change_counts(c: &Chain, settings: &Settings, r: bool)
    requires
        call_ensures(Chain::needs, (c, settings), r),
    ensures
        !c.configured ==> r,
        settings.denoise_speech_vad.val() != c.settings.denoise_speech_vad.val() || settings.denoise_speech_vad.nan() ==> r,
        settings.denoise_duck_db.val() != c.settings.denoise_duck_db.val() || settings.denoise_duck_db.nan() ==> r,
        settings.denoise_dry.val() != c.settings.denoise_dry.val() || settings.denoise_dry.nan() ==> r,
        settings.fader_db.val() != c.settings.fader_db.val() || settings.fader_db.nan() ==> r,
        settings.ceiling_db.val() != c.settings.ceiling_db.val() || settings.ceiling_db.nan() ==> r,
        settings.gate.threshold_db.val() != c.settings.gate.threshold_db.val() || settings.gate.threshold_db.nan() ==> r,
        settings.gate.range_db.val() != c.settings.gate.range_db.val() || settings.gate.range_db.nan() ==> r,
        settings.gate.attack_ms.val() != c.settings.gate.attack_ms.val() || settings.gate.attack_ms.nan() ==> r,
        settings.gate.hold_ms.val() != c.settings.gate.hold_ms.val() || settings.gate.hold_ms.nan() ==> r,
        settings.gate.release_ms.val() != c.settings.gate.release_ms.val() || settings.gate.release_ms.nan() ==> r,
        settings.comp.target_db.val() != c.settings.comp.target_db.val() || settings.comp.target_db.nan() ==> r,
        settings.comp.max_gain_db.val() != c.settings.comp.max_gain_db.val() || settings.comp.max_gain_db.nan() ==> r,
        settings.comp.max_cut_db.val() != c.settings.comp.max_cut_db.val() || settings.comp.max_cut_db.nan() ==> r,
        settings.comp.attack_ms.val() != c.settings.comp.attack_ms.val() || settings.comp.attack_ms.nan() ==> r,
        settings.comp.release_ms.val() != c.settings.comp.release_ms.val() || settings.comp.release_ms.nan() ==> r,
        settings.comp.pause_db.val() != c.settings.comp.pause_db.val() || settings.comp.pause_db.nan() ==> r,
        settings.denoise != c.settings.denoise ==> r,
        settings.muted != c.settings.muted ==> r,
        settings.gate.enabled != c.settings.gate.enabled ==> r,
        settings.comp.enabled != c.settings.comp.enabled ==> r,
        c.configured && *settings == c.settings && r ==> settings.denoise_speech_vad.nan()
            || settings.denoise_duck_db.nan()
            || settings.denoise_dry.nan()
            || settings.fader_db.nan()
            || settings.ceiling_db.nan()
            || settings.gate.threshold_db.nan()
            || settings.gate.range_db.nan()
            || settings.gate.attack_ms.nan()
            || settings.gate.hold_ms.nan()
            || settings.gate.release_ms.nan()
            || settings.comp.target_db.nan()
            || settings.comp.max_gain_db.nan()
            || settings.comp.max_cut_db.nan()
            || settings.comp.attack_ms.nan()
            || settings.comp.release_ms.nan()
            || settings.comp.pause_db.nan(),
{
}

/// New settings take effect: each one, and each figure that was computed from them, arrives where
/// it works, and what is being done goes on.
pub proof fn law_new_settings_take_effect(c: &mut Chain, settings: Settings, figures: Figures)
    requires
        old(c).valid(),
        call_ensures(Chain::set, (c, settings, figures), ()),
        !old(c).configured
            || settings.denoise_speech_vad.val() != old(c).settings.denoise_speech_vad.val()
            || settings.denoise_duck_db.val() != old(c).settings.denoise_duck_db.val()
            || settings.denoise_dry.val() != old(c).settings.denoise_dry.val()
            || settings.fader_db.val() != old(c).settings.fader_db.val()
            || settings.ceiling_db.val() != old(c).settings.ceiling_db.val()
            || settings.gate.threshold_db.val() != old(c).settings.gate.threshold_db.val()
            || settings.gate.range_db.val() != old(c).settings.gate.range_db.val()
            || settings.gate.attack_ms.val() != old(c).settings.gate.attack_ms.val()
            || settings.gate.hold_ms.val() != old(c).settings.gate.hold_ms.val()
            || settings.gate.release_ms.val() != old(c).settings.gate.release_ms.val()
            || settings.comp.target_db.val() != old(c).settings.comp.target_db.val()
            || settings.comp.max_gain_db.val() != old(c).settings.comp.max_gain_db.val()
            || settings.comp.max_cut_db.val() != old(c).settings.comp.max_cut_db.val()
            || settings.comp.attack_ms.val() != old(c).settings.comp.attack_ms.val()
            || settings.comp.release_ms.val() != old(c).settings.comp.release_ms.val()
            || settings.comp.pause_db.val() != old(c).settings.comp.pause_db.val()
            || settings.denoise != old(c).settings.denoise
            || settings.muted != old(c).settings.muted
            || settings.gate.enabled != old(c).settings.gate.enabled
            || settings.comp.enabled != old(c).settings.comp.enabled,
        !settings.gate.range_db.nan(),
    ensures
        final(c).configured,
        final(c).settings == settings,
        final(c).ceiling == figures.ceiling,
        final(c).gate.threshold_db == settings.gate.threshold_db,
        settings.gate.range_db.val() >= 0 ==> final(c).gate.range_db == settings.gate.range_db,
        settings.gate.range_db.val() < 0 ==> final(c).gate.range_db.val() == 0,
        final(c).gate.attack_k == figures.gate_attack_k,
        final(c).gate.release_k == figures.gate_release_k,
        final(c).gate.hold_samples == figures.hold_samples,
        final(c).gate.reduction_db == old(c).gate.reduction_db,
        final(c).gate.hold_left == old(c).gate.hold_left,
        final(c).comp.settings == settings.comp,
        final(c).comp.attack_k == figures.comp_attack_k,
        final(c).comp.release_k == figures.comp_release_k,
        final(c).comp.gain_db == old(c).comp.gain_db,
        final(c).comp.recent_peak_db == old(c).comp.recent_peak_db,
        final(c).limiter == old(c).limiter,
        final(c).fader_gain == old(c).fader_gain,
        settings.denoise != old(c).settings.denoise && old(c).denoiser is Some ==> final(c).denoiser->0.ready@.len() == 0
            && final(c).denoiser->0.input@.len() == 0 && final(c).denoiser->0.dry@.len() == 0,
{
    crate::single::lemma_whole_val(0);
}

/// A sample at or above the threshold opens the noise gate: nothing is to be lowered, and the hold
/// begins anew. Below it the lowering goes where the distance asks, but no further up while the hold
/// lasts. It opens with the one factor and closes with the other.
pub proof fn law_gate_opens_holds_and_closes(g: &mut Gate, level_db: Single, below: Single, c: Course)
    requires
        call_ensures(Gate::aim, (g, level_db, below), c),
        !level_db.nan(),
        !old(g).threshold_db.nan(),
        !old(g).range_db.nan(),
        !old(g).reduction_db.nan(),
        !below.nan(),
        0 <= below.val(),
        0 <= old(g).range_db.val(),
    ensures
        ({
            let wanted = if below.val() <= old(g).range_db.val() {
                below.val()
            } else {
                old(g).range_db.val()
            };
            let loud = level_db.val() >= old(g).threshold_db.val();
            &&& loud ==> c.target.val() == 0 && final(g).hold_left == old(g).hold_samples
            &&& !loud && old(g).hold_left == 0 ==> c.target.val() == wanted && final(g).hold_left == 0
            &&& !loud && old(g).hold_left > 0 ==> final(g).hold_left == old(g).hold_left - 1 && c.target.val() == (if wanted
                <= old(g).reduction_db.val() {
                wanted
            } else {
                old(g).reduction_db.val()
            })
        }),
        c.target.val() < old(g).reduction_db.val() ==> c.k == old(g).attack_k,
        c.target.val() >= old(g).reduction_db.val() ==> c.k == old(g).release_k,
        final(g).reduction_db == old(g).reduction_db && final(g).threshold_db == old(g).threshold_db && final(g).range_db
            == old(g).range_db && final(g).hold_samples == old(g).hold_samples && final(g).attack_k == old(g).attack_k && final(
            g).release_k == old(g).release_k,
{
    crate::single::lemma_whole_val(0);
}

/// The noise gate counts as open as long as it lowers by less than 1 dB; one that is switched off
/// always does.
pub proof fn law_gate_is_open_below_one_db(c: &Chain, r: bool)
    requires
        call_ensures(Chain::gate_open, (c,), r),
        !c.gate.reduction_db.nan(),
    ensures
        r <==> !c.settings.gate.enabled || c.gate.reduction_db.val() < pow2(149),
{
    crate::single::lemma_whole_val(1);
}

/// Speech goes to the wanted level: above the pause threshold the gain is driven to the distance to
/// that level, as far as raising and cutting may go, and to no other value. Down it goes at once, up
/// only while no word is fading away.
pub proof fn law_speech_goes_to_the_wanted_level(
    c: &Comp,
    level_db: Single,
    distance: Single,
    fading_below: Single,
    r: Option<Course>,
)
    requires
        call_ensures(Comp::aim, (c, level_db, distance, fading_below), r),
        !level_db.nan(),
        !distance.nan(),
        !fading_below.nan(),
        !c.gain_db.nan(),
        !c.settings.pause_db.nan(),
        !c.settings.max_cut_db.nan(),
        !c.settings.max_gain_db.nan(),
        0 <= c.settings.max_cut_db.val(),
        0 <= c.settings.max_gain_db.val(),
    ensures
        level_db.val() <= c.settings.pause_db.val() ==> r is None,
        ({
            let wanted: int = if distance.val() > c.settings.max_gain_db.val() {
                c.settings.max_gain_db.val()
            } else if distance.val() < -c.settings.max_cut_db.val() {
                -c.settings.max_cut_db.val()
            } else {
                distance.val()
            };
            let speaks = level_db.val() > c.settings.pause_db.val();
            &&& r matches Some(course) ==> course.target.val() == wanted
            &&& speaks && wanted < c.gain_db.val() ==> (r matches Some(course) && course.k == c.attack_k)
            &&& speaks && wanted >= c.gain_db.val() && level_db.val() > fading_below.val() ==> (r matches Some(course)
                && course.k == c.release_k)
            &&& speaks && wanted >= c.gain_db.val() && level_db.val() <= fading_below.val() ==> r is None
        }),
{
    crate::single::lemma_whole_val(0);
    lemma_minus(c.settings.max_cut_db.larger(whole_of(0)));
}

/// The recent peak is the level or what is left of the peak before, whichever is higher.
pub proof fn law_peak_follows_up_at_once(c: &mut Comp, level_db: Single, decayed: Single, peak: Single)
    requires
        call_ensures(Comp::follow, (c, level_db, decayed), peak),
        !level_db.nan(),
        !decayed.nan(),
    ensures
        peak.val() >= level_db.val() && peak.val() >= decayed.val(),
        peak.val() == level_db.val() || peak.val() == decayed.val(),
        final(c).recent_peak_db == peak,
        final(c).gain_db == old(c).gain_db && final(c).settings == old(c).settings && final(c).attack_k == old(c).attack_k
            && final(c).release_k == old(c).release_k,
{
}

/// The limiter grips at once: a peak above the envelope is the envelope from then on, else it falls
/// as it was let go. It works exactly while the envelope lies above the ceiling.
pub proof fn law_limiter_grips_at_once(l: &mut Limiter, peak: Single, released: Single, ceiling: Single, over: bool)
    requires
        call_ensures(Limiter::follow, (l, peak, released, ceiling), over),
        !old(l).envelope.nan(),
        !peak.nan(),
        !released.nan(),
        !ceiling.nan(),
    ensures
        peak.val() > old(l).envelope.val() ==> final(l).envelope == peak,
        peak.val() <= old(l).envelope.val() ==> final(l).envelope == released,
        over <==> final(l).envelope.val() > ceiling.val(),
{
}

/// A sample beyond the ceiling is put at the ceiling on its own side, every other one stays as it
/// is.
pub proof fn law_limit_cuts_off_exactly(samples: &mut Vec<Single>, ceiling: Single, i: int)
    requires
        whole_of(0).at_most(ceiling),
        call_ensures(limit, (samples, ceiling), ()),
        0 <= i < old(samples)@.len(),
        !old(samples)@[i].nan(),
    ensures
        final(samples)@.len() == old(samples)@.len(),
        old(samples)@[i].val() > ceiling.val() ==> final(samples)@[i] == ceiling,
        old(samples)@[i].val() < -ceiling.val() ==> final(samples)@[i].val() == -ceiling.val(),
        -ceiling.val() <= old(samples)@[i].val() <= ceiling.val() ==> final(samples)@[i] == old(samples)@[i],
{
    lemma_minus(ceiling);
}

/// No sample lies further from zero than the peak, and one lies just as far, unless all are silent.
pub proof fn law_peak_is_reached(samples: &Vec<Single>, peak: Single)
    requires
        call_ensures(peak_of, (samples,), peak),
        forall|i: int| 0 <= i < samples@.len() ==> !(#[trigger] samples@[i]).nan(),
    ensures
        forall|i: int| 0 <= i < samples@.len() ==> -peak.val() <= (#[trigger] samples@[i]).val() <= peak.val(),
        peak.val() != 0 ==> exists|i: int|
            0 <= i < samples@.len() && ((#[trigger] samples@[i]).val() == peak.val() || samples@[i].val() == -peak.val()),
{
}

/// The order of a frame: noise filter, noise gate, automatic volume, fader, limiter, meter, each
/// once, without those of the first three that are switched off.
pub proof fn law_order_of_a_frame(c: &Chain, done: Option<Stage>, next: Option<Stage>)
    requires
        call_ensures(Chain::stage_after, (c, done), next),
    ensures
        ({
            let filter = c.settings.denoise && c.denoiser is Some;
            let after_comp = Some(Stage::Fader);
            let after_gate = if c.settings.comp.enabled {
                Some(Stage::Comp)
            } else {
                after_comp
            };
            let after_filter = if c.settings.gate.enabled {
                Some(Stage::Gate)
            } else {
                after_gate
            };
            next == (match done {
                None => if filter {
                    Some(Stage::Filter)
                } else {
                    after_filter
                },
                Some(Stage::Filter) => after_filter,
                Some(Stage::Gate) => after_gate,
                Some(Stage::Comp) => after_comp,
                Some(Stage::Fader) => Some(Stage::Limiter),
                Some(Stage::Limiter) => Some(Stage::Meter),
                Some(Stage::Meter) => None,
            })
        }),
{
    assert(c.takes_part(Stage::Filter) == (c.settings.denoise && c.denoiser is Some));
    assert(c.takes_part(Stage::Gate) == c.settings.gate.enabled);
    assert(c.takes_part(Stage::Comp) == c.settings.comp.enabled);
    assert(c.takes_part(Stage::Fader));
    assert(c.takes_part(Stage::Limiter));
    assert(c.takes_part(Stage::Meter));
}

/// Muted, nothing passes; else the fader goes where it was set, but not below -60 dB and not above
/// 24 dB.
pub proof fn law_fader_goes_where_it_is_set(c: &Chain, r: Option<Single>)
    requires
        call_ensures(Chain::fader_target, (c,), r),
        !c.settings.fader_db.nan(),
    ensures
        c.settings.muted <==> r is None,
        r matches Some(db) ==> {
            let set = c.settings.fader_db.val();
            &&& set < -60 * pow2(149) ==> db.val() == -60 * pow2(149)
            &&& set > 24 * pow2(149) ==> db.val() == 24 * pow2(149)
            &&& -60 * pow2(149) <= set <= 24 * pow2(149) ==> db == c.settings.fader_db
        },
{
    crate::single::lemma_whole_val(-60);
    crate::single::lemma_whole_val(24);
}

/// The ceiling is where it was set, but never above 0 dB.
pub proof fn law_ceiling_is_never_above_zero(settings: &Settings, r: Single)
    requires
        call_ensures(Chain::ceiling_db, (settings,), r),
        !settings.ceiling_db.nan(),
    ensures
        settings.ceiling_db.val() <= 0 ==> r == settings.ceiling_db,
        settings.ceiling_db.val() > 0 ==> r.val() == 0,
{
    crate::single::lemma_whole_val(0);
}

/// The lowering in pauses is given up with the one factor and builds up with the other; it goes to
/// no less than nothing. Without the noise filter nothing is lowered, and everything counts as speech.
pub proof fn law_pauses_are_lowered(
    c: &Chain,
    target: Single,
    course: Course,
    deepest: Single,
    now_db: Single,
    speech: Single,
    gain: Single,
)
    requires
        call_ensures(Chain::duck, (c, target), course),
        call_ensures(Chain::deepest_duck_db, (c,), deepest),
        call_ensures(Chain::duck_db, (c,), now_db),
        call_ensures(Chain::speech, (c,), speech),
        call_ensures(Chain::comp_gain_db, (c,), gain),
        !target.nan(),
        !c.duck_db.nan(),
        !c.settings.denoise_duck_db.nan(),
    ensures
        course.target == target,
        target.val() < c.duck_db.val() ==> course.k == c.duck_open_k,
        target.val() >= c.duck_db.val() ==> course.k == c.duck_close_k,
        c.settings.denoise_duck_db.val() >= 0 ==> deepest == c.settings.denoise_duck_db,
        c.settings.denoise_duck_db.val() < 0 ==> deepest.val() == 0,
        c.settings.denoise ==> now_db == c.duck_db,
        !c.settings.denoise ==> now_db.val() == 0 && speech.val() == pow2(149),
        c.settings.denoise && c.denoiser is Some ==> speech == c.denoiser->0.vad,
        c.settings.comp.enabled ==> gain == c.comp.gain_db,
        !c.settings.comp.enabled ==> gain.val() == 0,
{
    crate::single::lemma_whole_val(0);
    crate::single::lemma_whole_val(1);
}

/// A chain has a noise filter at 48 kHz only, and begins with the sound passing unchanged.
pub proof fn law_new_chain_lets_everything_pass(rate: u32, open_k: Single, close_k: Single, c: Chain)
    requires
        call_ensures(Chain::new, (rate, open_k, close_k), c),
    ensures
        c.denoiser is Some <==> rate == 48_000,
        !c.configured && !c.settings.gate.enabled && !c.settings.comp.enabled && !c.settings.denoise && !c.settings.muted,
        c.gate.reduction_db.val() == 0 && c.comp.gain_db.val() == 0 && c.duck_db.val() == 0,
        c.ceiling.val() == pow2(149) && c.fader_gain.val() == pow2(149),
        c.settings.fader_db.val() == 0 && c.settings.ceiling_db.val() == 0,
{
    crate::single::lemma_whole_val(0);
    crate::single::lemma_whole_val(1);
}

/// A block counts as speech from the certainty that was set on, but from no less than 0.15; the
/// noise filter works where it is on and there is one.
pub proof fn law_when_a_block_is_speech(c: &Chain, vad: Single, filtering: bool)
    requires
        call_ensures(Chain::speech_vad, (c,), vad),
        call_ensures(Chain::filtering, (c,), filtering),
        !c.settings.denoise_speech_vad.nan(),
    ensures
        ({
            let least = (Single { bits: 0x3e19_999a }).val();
            &&& c.settings.denoise_speech_vad.val() >= least ==> vad == c.settings.denoise_speech_vad
            &&& c.settings.denoise_speech_vad.val() < least ==> vad.bits == 0x3e19_999a
        }),
        filtering <==> c.settings.denoise && c.denoiser is Some,
{
}

/// With everything off the chain has these values to start from.
pub proof fn law_values_to_start_from(s: Settings)
    requires
        s.is_default(),
    ensures
        s.gate.threshold_db.val() == -45 * pow2(149) && s.gate.range_db.val() == 40 * pow2(149),
        s.gate.attack_ms.val() == 2 * pow2(149) && s.gate.hold_ms.val() == 250 * pow2(149) && s.gate.release_ms.val() == 150
            * pow2(149),
        s.comp.target_db.val() == -20 * pow2(149) && s.comp.pause_db.val() == -50 * pow2(149),
        s.comp.attack_ms.val() == 40 * pow2(149) && s.comp.release_ms.val() == 1500 * pow2(149),
        s.comp.max_gain_db.val() == 0 && s.comp.max_cut_db.val() == 0,
        s.denoise_duck_db.val() == 0 && s.denoise_dry.val() == 0 && s.denoise_speech_vad.bits == 0x3f19_999a,
        s.fader_db.val() == 0 && s.ceiling_db.val() == 0,
        !s.denoise && !s.muted && !s.gate.enabled && !s.comp.enabled,
{
    crate::single::lemma_whole_val(-45);
    crate::single::lemma_whole_val(40);
    crate::single::lemma_whole_val(2);
    crate::single::lemma_whole_val(250);
    crate::single::lemma_whole_val(150);
    crate::single::lemma_whole_val(-20);
    crate::single::lemma_whole_val(-50);
    crate::single::lemma_whole_val(1500);
    crate::single::lemma_whole_val(0);
}

/// What was reached is kept, and is gone on from.
pub proof fn law_what_was_reached_is_kept(
    g: &mut Gate,
    reduction_db: Single,
    c: &mut Comp,
    gain_db: Single,
    k: &Comp,
    gain: Single,
)
    requires
        call_ensures(Gate::settle, (g, reduction_db), ()),
        call_ensures(Comp::settle, (c, gain_db), ()),
        *k == *final(c),
        call_ensures(Comp::gain_db, (k,), gain),
    ensures
        final(g).reduction_db == reduction_db && final(g).hold_left == old(g).hold_left && final(g).threshold_db == old(
            g).threshold_db,
        gain == gain_db && final(c).settings == old(c).settings && final(c).recent_peak_db == old(c).recent_peak_db,
{
}

/// For each dB below the threshold 3 dB are lowered.
pub proof fn law_three_db_for_each_db()
    ensures
        GATE_SLOPE == 3,
{
}

} // verus!
