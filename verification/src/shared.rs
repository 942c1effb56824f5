//! The memory that the program and the audio filter share: a row of 32 bit words.

use vstd::prelude::*;

use crate::dsp::CompSettings;
use crate::dsp::GateSettings;
use crate::dsp::Settings;
use crate::single::whole_of;
use crate::single::Single;

verus! {

/// The letters LAPO, the first in the lowest byte.
pub const MAGIC: u32 = 0x4f50_414c;

/// Goes up when the layout changes, so that an outdated filter is recognised.
pub const VERSION: u32 = 2;

pub fn mapping_name() -> (r: &'static str)
    ensures
        r@ == "Global\\Laermampel.Apo"@,
{
    "Global\\Laermampel.Apo"
}

/// A number in a word.
#[derive(Clone, Copy, Debug, PartialEq, Eq, Structural)]
pub struct SharedF32 {
    pub word: u32,
}

impl SharedF32 {
    pub fn get(&self) -> (r: Single)
        ensures
            r.bits == self.word,
    {
        Single { bits: self.word }
    }

    pub fn set(&mut self, value: Single)
        ensures
            final(self).word == value.bits,
    {
        self.word = value.bits;
    }
}

/// A truth value in a word: anything but zero is true.
#[derive(Clone, Copy, Debug, PartialEq, Eq, Structural)]
pub struct SharedBool {
    pub word: u32,
}

impl SharedBool {
    pub open spec fn on(self) -> bool {
        self.word != 0
    }

    pub fn get(&self) -> (r: bool)
        ensures
            r == self.on(),
    {
        self.word != 0
    }

    pub fn set(&mut self, value: bool)
        ensures
            final(self).word == if value {
                1u32
            } else {
                0u32
            },
    {
        self.word = if value {
            1
        } else {
            0
        };
    }
}

/// What the filter reports back.
#[derive(Clone, Copy, Debug, PartialEq, Eq, Structural)]
pub struct Feedback {
    pub input_level_db: Single,
    pub out_level_db: Single,
    pub out_peak_db: Single,
    pub gate_open: bool,
    pub gate_level_db: Single,
    pub comp_gain_db: Single,
}

impl Feedback {
    pub open spec fn is_default(self) -> bool {
        &&& self.input_level_db == whole_of(0)
        &&& self.out_level_db == whole_of(0)
        &&& self.out_peak_db == whole_of(0)
        &&& !self.gate_open
        &&& self.gate_level_db == whole_of(0)
        &&& self.comp_gain_db == whole_of(0)
    }
}

impl Default for Feedback {
    fn default() -> (f: Feedback)
        ensures
            f.is_default(),
    {
        let zero = Single::whole(0);
        Feedback {
            input_level_db: zero,
            out_level_db: zero,
            out_peak_db: zero,
            gate_open: false,
            gate_level_db: zero,
            comp_gain_db: zero,
        }
    }
}

/// The count after one more block: from the largest number back to zero.
pub open spec fn after_beat(count: u32) -> u32 {
    if count == u32::MAX {
        0
    } else {
        (count + 1) as u32
    }
}

/// The shared words, in their order in memory.
#[derive(Clone, Copy, Debug, PartialEq, Eq, Structural)]
pub struct SharedParams {
    pub magic: u32,
    pub version: u32,
    pub gate_enabled: SharedBool,
    pub gate_threshold_db: SharedF32,
    pub gate_range_db: SharedF32,
    pub gate_attack_ms: SharedF32,
    pub gate_hold_ms: SharedF32,
    pub gate_release_ms: SharedF32,
    pub comp_enabled: SharedBool,
    pub comp_target_db: SharedF32,
    pub comp_max_gain_db: SharedF32,
    pub comp_max_cut_db: SharedF32,
    pub comp_attack_ms: SharedF32,
    pub comp_release_ms: SharedF32,
    pub comp_pause_db: SharedF32,
    pub fader_db: SharedF32,
    pub muted: SharedBool,
    pub ceiling_db: SharedF32,
    /// Counts every processed block; if it stands still, no filter runs.
    pub heartbeat: u32,
    /// Level before the filter in dBFS.
    pub input_level_db: SharedF32,
    pub out_level_db: SharedF32,
    pub out_peak_db: SharedF32,
    pub gate_open: SharedBool,
    pub gate_level_db: SharedF32,
    pub comp_gain_db: SharedF32,
}

impl SharedParams {
    /// The words of the settings say `s`. The noise filter is not part of them.
    pub open spec fn says(self, s: Settings) -> bool {
        &&& self.gate_enabled.on() == s.gate.enabled
        &&& self.gate_threshold_db.word == s.gate.threshold_db.bits
        &&& self.gate_range_db.word == s.gate.range_db.bits
        &&& self.gate_attack_ms.word == s.gate.attack_ms.bits
        &&& self.gate_hold_ms.word == s.gate.hold_ms.bits
        &&& self.gate_release_ms.word == s.gate.release_ms.bits
        &&& self.comp_enabled.on() == s.comp.enabled
        &&& self.comp_target_db.word == s.comp.target_db.bits
        &&& self.comp_max_gain_db.word == s.comp.max_gain_db.bits
        &&& self.comp_max_cut_db.word == s.comp.max_cut_db.bits
        &&& self.comp_attack_ms.word == s.comp.attack_ms.bits
        &&& self.comp_release_ms.word == s.comp.release_ms.bits
        &&& self.comp_pause_db.word == s.comp.pause_db.bits
        &&& self.fader_db.word == s.fader_db.bits
        &&& self.muted.on() == s.muted
        &&& self.ceiling_db.word == s.ceiling_db.bits
    }

    /// The words of the feedback say `f`.
    pub open spec fn reports(self, f: Feedback) -> bool {
        &&& self.input_level_db.word == f.input_level_db.bits
        &&& self.out_level_db.word == f.out_level_db.bits
        &&& self.out_peak_db.word == f.out_peak_db.bits
        &&& self.gate_open.on() == f.gate_open
        &&& self.gate_level_db.word == f.gate_level_db.bits
        &&& self.comp_gain_db.word == f.comp_gain_db.bits
    }

    /// The words that are no settings are the same.
    pub open spec fn agrees_but_settings(self, other: SharedParams) -> bool {
        &&& self.magic == other.magic
        &&& self.version == other.version
        &&& self.heartbeat == other.heartbeat
        &&& self.agrees_on_feedback(other)
    }

    pub open spec fn agrees_on_feedback(self, other: SharedParams) -> bool {
        &&& self.input_level_db == other.input_level_db
        &&& self.out_level_db == other.out_level_db
        &&& self.out_peak_db == other.out_peak_db
        &&& self.gate_open == other.gate_open
        &&& self.gate_level_db == other.gate_level_db
        &&& self.comp_gain_db == other.comp_gain_db
    }

    pub open spec fn agrees_on_settings(self, other: SharedParams) -> bool {
        &&& self.gate_enabled == other.gate_enabled
        &&& self.gate_threshold_db == other.gate_threshold_db
        &&& self.gate_range_db == other.gate_range_db
        &&& self.gate_attack_ms == other.gate_attack_ms
        &&& self.gate_hold_ms == other.gate_hold_ms
        &&& self.gate_release_ms == other.gate_release_ms
        &&& self.comp_enabled == other.comp_enabled
        &&& self.comp_target_db == other.comp_target_db
        &&& self.comp_max_gain_db == other.comp_max_gain_db
        &&& self.comp_max_cut_db == other.comp_max_cut_db
        &&& self.comp_attack_ms == other.comp_attack_ms
        &&& self.comp_release_ms == other.comp_release_ms
        &&& self.comp_pause_db == other.comp_pause_db
        &&& self.fader_db == other.fader_db
        &&& self.muted == other.muted
        &&& self.ceiling_db == other.ceiling_db
    }

    /// Sets up fresh memory: everything off, the sound passes unchanged. Memory that is set up
    /// already stays as it is.
    pub fn init(&mut self)
        ensures
            final(self).valid(),
            old(self).valid() ==> *final(self) == *old(self),
            !old(self).valid() ==> {
                &&& final(self).version == VERSION
                &&& exists|s: Settings| #[trigger] s.is_default() && final(self).says(s)
                &&& final(self).input_level_db.word == whole_of(-120).bits
                &&& final(self).out_level_db.word == whole_of(-120).bits
                &&& final(self).out_peak_db.word == whole_of(-120).bits
                &&& final(self).heartbeat == old(self).heartbeat
                &&& final(self).gate_open == old(self).gate_open
                &&& final(self).gate_level_db == old(self).gate_level_db
                &&& final(self).comp_gain_db == old(self).comp_gain_db
            },
    {
        if self.magic != MAGIC {
            let quiet = Single::whole(-120);
            let s = Settings::default();
            self.set_settings(&s);
            self.input_level_db.set(quiet);
            self.out_level_db.set(quiet);
            self.out_peak_db.set(quiet);
            self.version = VERSION;
            self.magic = MAGIC;
            assert(s.is_default() && self.says(s));
        }
    }

    pub open spec fn valid(self) -> bool {
        self.magic == MAGIC
    }

    pub fn is_valid(&self) -> (r: bool)
        ensures
            r == self.valid(),
    {
        self.magic == MAGIC
    }

    pub fn version(&self) -> (r: u32)
        ensures
            r == self.version,
    {
        self.version
    }

    /// The settings that the words say; the noise filter is off.
    pub fn settings(&self) -> (s: Settings)
        ensures
            self.says(s),
            !s.denoise,
            exists|d: Settings| #[trigger] d.is_default() && s.denoise_speech_vad == d.denoise_speech_vad
                && s.denoise_duck_db == d.denoise_duck_db && s.denoise_dry == d.denoise_dry,
    {
        let d = Settings::default();
        assert(d.is_default());
        Settings {
            gate: GateSettings {
                enabled: self.gate_enabled.get(),
                threshold_db: self.gate_threshold_db.get(),
                range_db: self.gate_range_db.get(),
                attack_ms: self.gate_attack_ms.get(),
                hold_ms: self.gate_hold_ms.get(),
                release_ms: self.gate_release_ms.get(),
            },
            comp: CompSettings {
                enabled: self.comp_enabled.get(),
                target_db: self.comp_target_db.get(),
                max_gain_db: self.comp_max_gain_db.get(),
                max_cut_db: self.comp_max_cut_db.get(),
                attack_ms: self.comp_attack_ms.get(),
                release_ms: self.comp_release_ms.get(),
                pause_db: self.comp_pause_db.get(),
            },
            fader_db: self.fader_db.get(),
            muted: self.muted.get(),
            ceiling_db: self.ceiling_db.get(),
            ..d
        }
    }

    pub fn set_settings(&mut self, s: &Settings)
        ensures
            final(self).says(*s),
            final(self).agrees_but_settings(*old(self)),
    {
        self.gate_enabled.set(s.gate.enabled);
        self.gate_threshold_db.set(s.gate.threshold_db);
        self.gate_range_db.set(s.gate.range_db);
        self.gate_attack_ms.set(s.gate.attack_ms);
        self.gate_hold_ms.set(s.gate.hold_ms);
        self.gate_release_ms.set(s.gate.release_ms);
        self.comp_enabled.set(s.comp.enabled);
        self.comp_target_db.set(s.comp.target_db);
        self.comp_max_gain_db.set(s.comp.max_gain_db);
        self.comp_max_cut_db.set(s.comp.max_cut_db);
        self.comp_attack_ms.set(s.comp.attack_ms);
        self.comp_release_ms.set(s.comp.release_ms);
        self.comp_pause_db.set(s.comp.pause_db);
        self.fader_db.set(s.fader_db);
        self.muted.set(s.muted);
        self.ceiling_db.set(s.ceiling_db);
    }

    pub fn heartbeat(&self) -> (r: u32)
        ensures
            r == self.heartbeat,
    {
        self.heartbeat
    }

    /// Counts one more block.
    pub fn beat(&mut self)
        ensures
            *final(self) == (SharedParams { heartbeat: after_beat(old(self).heartbeat), ..*old(self) }),
    {
        self.heartbeat = self.heartbeat.wrapping_add(1);
    }

    pub fn feedback(&self) -> (f: Feedback)
        ensures
            self.reports(f),
    {
        Feedback {
            input_level_db: self.input_level_db.get(),
            out_level_db: self.out_level_db.get(),
            out_peak_db: self.out_peak_db.get(),
            gate_open: self.gate_open.get(),
            gate_level_db: self.gate_level_db.get(),
            comp_gain_db: self.comp_gain_db.get(),
        }
    }

    pub fn set_feedback(&mut self, f: &Feedback)
        ensures
            final(self).reports(*f),
            final(self).agrees_on_settings(*old(self)),
            final(self).magic == old(self).magic,
            final(self).version == old(self).version,
            final(self).heartbeat == old(self).heartbeat,
    {
        self.input_level_db.set(f.input_level_db);
        self.out_level_db.set(f.out_level_db);
        self.out_peak_db.set(f.out_peak_db);
        self.gate_open.set(f.gate_open);
        self.gate_level_db.set(f.gate_level_db);
        self.comp_gain_db.set(f.comp_gain_db);
    }
}

/// What one side writes, the other reads: the words say one thing only.
pub proof fn law_settings_come_across(p: SharedParams, sent: Settings, read: Settings)
    requires
        p.says(sent),
        p.says(read),
    ensures
        read.gate == sent.gate,
        read.comp == sent.comp,
        read.fader_db == sent.fader_db,
        read.muted == sent.muted,
        read.ceiling_db == sent.ceiling_db,
{
}

/// So with the feedback.
pub proof fn law_feedback_comes_across(p: SharedParams, sent: Feedback, read: Feedback)
    requires
        p.reports(sent),
        p.reports(read),
    ensures
        read == sent,
{
}

/// A block more always shows: the count is never the same after it.
pub proof fn law_heartbeat_moves(count: u32)
    ensures
        after_beat(count) != count,
{
}

/// Each setting has its own word, and each word is read as what was written there.
pub proof fn law_each_setting_has_its_word(p: &mut SharedParams, s: &Settings, read: Settings)
    requires
        call_ensures(SharedParams::set_settings, (p, s), ()),
        call_ensures(SharedParams::settings, (&*final(p),), read),
    ensures
        final(p).gate_threshold_db.word == s.gate.threshold_db.bits,
        final(p).gate_range_db.word == s.gate.range_db.bits,
        final(p).gate_attack_ms.word == s.gate.attack_ms.bits,
        final(p).gate_hold_ms.word == s.gate.hold_ms.bits,
        final(p).gate_release_ms.word == s.gate.release_ms.bits,
        final(p).comp_target_db.word == s.comp.target_db.bits,
        final(p).comp_max_gain_db.word == s.comp.max_gain_db.bits,
        final(p).comp_max_cut_db.word == s.comp.max_cut_db.bits,
        final(p).comp_attack_ms.word == s.comp.attack_ms.bits,
        final(p).comp_release_ms.word == s.comp.release_ms.bits,
        final(p).comp_pause_db.word == s.comp.pause_db.bits,
        final(p).fader_db.word == s.fader_db.bits,
        final(p).ceiling_db.word == s.ceiling_db.bits,
        final(p).gate_enabled.word != 0 <==> s.gate.enabled,
        final(p).comp_enabled.word != 0 <==> s.comp.enabled,
        final(p).muted.word != 0 <==> s.muted,
        final(p).magic == old(p).magic && final(p).version == old(p).version && final(p).heartbeat == old(p).heartbeat,
        read.gate == s.gate && read.comp == s.comp && read.fader_db == s.fader_db && read.muted == s.muted
            && read.ceiling_db == s.ceiling_db && !read.denoise,
{
}

/// Each figure that is reported back has its own word, and comes back as it was written.
pub proof fn law_each_figure_has_its_word(p: &mut SharedParams, f: &Feedback, read: Feedback)
    requires
        call_ensures(SharedParams::set_feedback, (p, f), ()),
        call_ensures(SharedParams::feedback, (&*final(p),), read),
    ensures
        final(p).input_level_db.word == f.input_level_db.bits,
        final(p).out_level_db.word == f.out_level_db.bits,
        final(p).out_peak_db.word == f.out_peak_db.bits,
        final(p).gate_level_db.word == f.gate_level_db.bits,
        final(p).comp_gain_db.word == f.comp_gain_db.bits,
        final(p).gate_open.word != 0 <==> f.gate_open,
        read == *f,
        final(p).comp_target_db == old(p).comp_target_db && final(p).muted == old(p).muted && final(p).fader_db == old(
            p).fader_db && final(p).heartbeat == old(p).heartbeat,
{
}

/// Memory counts as set up by the letters LAPO; set up anew it is of version 2, with everything off,
/// and what is set up stays as it is.
pub proof fn law_memory_is_set_up_once(p: &mut SharedParams, valid: bool)
    requires
        call_ensures(SharedParams::init, (p,), ()),
        call_ensures(SharedParams::is_valid, (&*old(p),), valid),
    ensures
        valid <==> old(p).magic == 0x4f50_414c,
        final(p).magic == 0x4f50_414c,
        valid ==> *final(p) == *old(p),
        !valid ==> final(p).version == 2 && final(p).gate_enabled.word == 0 && final(p).comp_enabled.word == 0 && final(
            p).muted.word == 0,
{
}

/// Every block counts one more.
pub proof fn law_every_block_is_counted(p: &mut SharedParams)
    requires
        call_ensures(SharedParams::beat, (p,), ()),
    ensures
        old(p).heartbeat < u32::MAX ==> final(p).heartbeat == old(p).heartbeat + 1,
        old(p).heartbeat == u32::MAX ==> final(p).heartbeat == 0,
{
}

} // verus!
