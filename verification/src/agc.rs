//! The microphone for other programs: the processed sound goes out to a virtual audio device.

use vstd::arithmetic::power2::pow2;
use vstd::prelude::*;

use crate::audio::InputDevice;
use crate::dsp;
use crate::ring::held;
use crate::ring::lemma_went_on;
use crate::ring::places;
use crate::ring::queued;
use crate::ring::room;
use crate::ring::surplus;
use crate::ring::went_on;
use crate::ring::SampleSink;
use crate::ring::SampleSource;
use crate::shared::Feedback;
use crate::single::whole_of;
use crate::single::Single;
use crate::text::contains;
use crate::text::occurs;
use crate::text::stands_at;

verus! {

pub fn vb_cable_url() -> (r: &'static str)
    ensures
        r@ == "https://vb-audio.com/Cable/"@,
{
    "https://vb-audio.com/Cable/"
}

/// What is said where there is no VB-Cable at all. That is no fault, it is just not set up.
pub fn vb_cable_missing() -> (r: &'static str)
    ensures
        r@ == "VB-Cable ist nicht installiert."@,
{
    "VB-Cable ist nicht installiert."
}

/// New values are taken over only every so many samples.
pub const PARAM_RELOAD_SAMPLES: usize = 256;

/// The text in small letters, as Unicode has them.
pub uninterp spec fn lowercase(text: Seq<char>) -> Seq<char>;

/// `str::to_lowercase`. Which letter goes with which is written in the Unicode tables; only
/// that the result depends on nothing but the text is used.
#[verifier::external_body]
fn lower(text: &str) -> (r: String)
    ensures
        r@ == lowercase(text@),
{
    text.to_lowercase()
}

/// A name in small letters that tells a virtual device.
pub open spec fn virtual_name(lowered: Seq<char>) -> bool {
    occurs(lowered, "vb-audio"@) || occurs(lowered, "cable"@) || occurs(lowered, "voicemeeter"@) || occurs(
        lowered,
        "virtual"@,
    )
}

/// Whether a name in small letters tells a virtual device: VB-Cable, Voicemeeter and the like.
pub fn is_virtual_name(lowered: &str) -> (r: bool)
    ensures
        r == virtual_name(lowered@),
{
    contains(lowered, "vb-audio") || contains(lowered, "cable") || contains(lowered, "voicemeeter") || contains(
        lowered,
        "virtual",
    )
}

/// Whether a name tells a virtual device, in whatever case it is written.
pub fn is_virtual_device(name: &str) -> (r: bool)
    ensures
        r == virtual_name(lowercase(name@)),
{
    is_virtual_name(lower(name).as_str())
}

/// Whether a name in small letters is that of the playback side of VB-Cable. Programs then take
/// "CABLE Output" as their microphone.
pub fn is_cable_input_name(lowered: &str) -> (r: bool)
    ensures
        r == occurs(lowered@, "cable input"@),
{
    contains(lowered, "cable input")
}

/// Whether a name is that of the playback side of VB-Cable.
pub fn is_cable_input(name: &str) -> (r: bool)
    ensures
        r == occurs(lowercase(name@), "cable input"@),
{
    is_cable_input_name(lower(name).as_str())
}

/// The virtual devices among `all`, in their order.
pub open spec fn virtual_ones(all: Seq<InputDevice>) -> Seq<InputDevice> {
    all.filter(|d: InputDevice| virtual_name(lowercase(d.name@)))
}

/// Which of the devices there are may be played to: virtual ones only. To headphones or
/// loudspeakers one's own microphone would be played back.
pub fn list_output_devices(all: Vec<InputDevice>) -> (list: Vec<InputDevice>)
    ensures
        list@ == virtual_ones(all@),
{
    let mut list: Vec<InputDevice> = Vec::new();
    let mut rest = all;
    let mut n: usize = 0;
    let count: usize = rest.len();
    let ghost p = |d: InputDevice| virtual_name(lowercase(d.name@));
    assert(all@.take(0).filter(p) =~= Seq::empty()) by {
        reveal(Seq::filter);
    }
    assert(all@.skip(0) =~= all@);
    while n < count
        invariant
            n <= count,
            count == all@.len(),
            rest@ == all@.skip(n as int),
            p == (|d: InputDevice| virtual_name(lowercase(d.name@))),
            list@ == all@.take(n as int).filter(p),
        decreases count - n,
    {
        let device = rest.remove(0);
        let ghost now = device;
        proof {
            assert(now == all@[n as int]);
            assert(all@.take(n + 1).drop_last() =~= all@.take(n as int));
            reveal(Seq::filter);
            assert(rest@ =~= all@.skip(n + 1));
        }
        if is_virtual_device(device.name.as_str()) {
            list.push(device);
        }
        n = n + 1;
    }
    assert(all@.take(n as int) =~= all@);
    list
}

/// Which device is played to.
pub enum OutputChoice {
    /// The chosen one.
    Chosen,
    /// The one at this place in the list of all playback devices.
    Found(usize),
    /// There is none.
    Missing,
}

/// A chosen device that is there, by its name, and virtual.
pub open spec fn usable(chosen: Option<String>) -> bool {
    chosen matches Some(name) && virtual_name(lowercase(name@))
}

/// The first name that is VB-Cable's; a device whose name cannot be read is passed over.
pub open spec fn first_cable(names: Seq<Option<String>>, at: int) -> bool {
    &&& 0 <= at < names.len()
    &&& names[at] matches Some(name) && occurs(lowercase(name@), "cable input"@)
    &&& forall|j: int| 0 <= j < at ==> (#[trigger] names[j] matches Some(name) ==> !occurs(
        lowercase(name@),
        "cable input"@,
    ))
}

/// None of the names is VB-Cable's.
pub open spec fn no_cable(names: Seq<Option<String>>) -> bool {
    forall|j: int| 0 <= j < names.len() ==> (#[trigger] names[j] matches Some(name) ==> !occurs(
        lowercase(name@),
        "cable input"@,
    ))
}

/// Looks for the device to play to. A chosen device is taken only if it is there and virtual,
/// which `chosen` with its name says; else the first of `names` that is VB-Cable's.
pub fn choose_output(chosen: &Option<String>, names: &Vec<Option<String>>) -> (r: OutputChoice)
    ensures
        (match r {
            OutputChoice::Chosen => usable(*chosen),
            OutputChoice::Found(at) => !usable(*chosen) && first_cable(names@, at as int),
            OutputChoice::Missing => !usable(*chosen) && forall|j: int|
                0 <= j < names@.len() ==> (#[trigger] names@[j] matches Some(name) ==> !occurs(
                    lowercase(name@),
                    "cable input"@,
                )),
        }),
        r is Missing ==> no_cable(names@),
{
    if let Some(name) = chosen {
        if is_virtual_device(name.as_str()) {
            return OutputChoice::Chosen;
        }
    }
    let mut at: usize = 0;
    while at < names.len()
        invariant
            at <= names@.len(),
            !usable(*chosen),
            forall|j: int| 0 <= j < at ==> (#[trigger] names@[j] matches Some(name) ==> !occurs(
                lowercase(name@),
                "cable input"@,
            )),
        decreases names@.len() - at,
    {
        if let Some(name) = &names[at] {
            if is_cable_input(name.as_str()) {
                return OutputChoice::Found(at);
            }
        }
        at = at + 1;
    }
    OutputChoice::Missing
}

/// What is said of a device that would play the microphone back.
pub open spec fn not_virtual(name: Seq<char>) -> Seq<char> {
    "„"@ + name + "“ ist kein virtuelles Gerät. Dort würdest du dich selbst hören (bei Lautsprechern gibt es eine Rückkopplung). Bitte VB-Cable als Ausgabe wählen."@
}

/// Refuses a device that is not virtual, whatever way it was found.
pub fn admit_output(name: &str) -> (r: Result<(), String>)
    ensures
        r is Ok <==> virtual_name(lowercase(name@)),
        r matches Err(e) ==> e@ == not_virtual(name@),
{
    if is_virtual_device(name) {
        Ok(())
    } else {
        let mut e = String::new();
        e.append("„");
        e.append(name);
        e.append(
            "“ ist kein virtuelles Gerät. Dort würdest du dich selbst hören (bei Lautsprechern gibt es eine Rückkopplung). Bitte VB-Cable als Ausgabe wählen.",
        );
        assert(e@ =~= not_virtual(name@));
        Err(e)
    }
}

/// What the surface and the audio thread exchange.
#[derive(Clone, Copy, Debug, PartialEq, Eq, Structural)]
pub struct ChainControl {
    pub settings: dsp::Settings,
    pub feedback: Feedback,
}

impl ChainControl {
    pub fn new() -> (c: ChainControl)
        ensures
            c.settings.is_default(),
            c.feedback.is_default(),
    {
        ChainControl { settings: dsp::Settings::default(), feedback: Feedback::default() }
    }

    pub fn set(&mut self, settings: dsp::Settings)
        ensures
            *final(self) == (ChainControl { settings, ..*old(self) }),
    {
        self.settings = settings;
    }

    pub fn feedback(&self) -> (f: Feedback)
        ensures
            f == self.feedback,
    {
        self.feedback
    }
}

/// When the chain looks for new values, and where its samples go.
pub struct VoiceChain {
    pub output: SampleSink,
    pub countdown: usize,
}

impl VoiceChain {
    pub open spec fn valid(self) -> bool {
        self.countdown <= PARAM_RELOAD_SAMPLES
    }

    pub fn new(output: SampleSink) -> (v: VoiceChain)
        ensures
            v.valid(),
            v.countdown == 0,
            v.output == output,
    {
        VoiceChain { output, countdown: 0 }
    }

    /// One more sample comes. Says whether it is time to take over new values and to report
    /// back.
    pub fn due(&mut self) -> (r: bool)
        requires
            old(self).valid(),
        ensures
            final(self).valid(),
            r == (old(self).countdown == 0),
            final(self).countdown == if r {
                PARAM_RELOAD_SAMPLES - 1
            } else {
                old(self).countdown - 1
            },
            final(self).output == old(self).output,
    {
        let due = self.countdown == 0;
        if due {
            self.countdown = PARAM_RELOAD_SAMPLES;
        }
        self.countdown = self.countdown - 1;
        due
    }

    /// A processed sample goes to the output. With a full queue the output is stuck; the sample
    /// is then dropped rather than waited for. Says whether it went in.
    pub fn push(&mut self, sample: Single) -> (taken: bool)
        ensures
            final(self).countdown == old(self).countdown,
            places(final(self).output) == places(old(self).output),
            queued(old(self).output).len() < places(old(self).output) ==> taken && queued(final(self).output) == queued(
                old(self).output,
            ).push(sample.bits),
            taken ==> exists|gone: int| #![trigger queued(old(self).output).skip(gone)]
                0 <= gone <= queued(old(self).output).len() && queued(final(self).output) == queued(old(self).output).skip(
                    gone,
                ).push(sample.bits),
            !taken ==> queued(final(self).output) == queued(old(self).output) && queued(old(self).output).len() == places(
                old(self).output,
            ),
    {
        self.output.push(sample)
    }

    /// What is reported back to the surface. The level before the chain is not measured here.
    pub fn report(
        out_level_db: Single,
        out_peak_db: Single,
        gate_open: bool,
        gate_level_db: Single,
        comp_gain_db: Single,
    ) -> (f: Feedback)
        ensures
            f == (Feedback {
                input_level_db: whole_of(-120),
                out_level_db,
                out_peak_db,
                gate_open,
                gate_level_db,
                comp_gain_db,
            }),
    {
        Feedback {
            input_level_db: Single::whole(-120),
            out_level_db,
            out_peak_db,
            gate_open,
            gate_level_db,
            comp_gain_db,
        }
    }
}

/// The countdown after `n` more samples.
pub open spec fn countdown_after(countdown: int, n: nat) -> int
    decreases n,
{
    if n == 0 {
        countdown
    } else {
        let before = countdown_after(countdown, (n - 1) as nat);
        if before == 0 {
            PARAM_RELOAD_SAMPLES - 1
        } else {
            before - 1
        }
    }
}

/// New values are looked for with the first sample and then with every 256th.
pub proof fn law_values_are_taken_over_regularly(n: nat)
    ensures
        countdown_after(0, n) == 0 <==> n % 256 == 0,
        0 <= countdown_after(0, n) < PARAM_RELOAD_SAMPLES,
        n % 256 != 0 ==> countdown_after(0, n) == 256 - n % 256,
    decreases n,
{
    if n > 0 {
        let m = (n - 1) as nat;
        law_values_are_taken_over_regularly(m);
        assert(n % 256 == if m % 256 == 255 {
            0
        } else {
            m % 256 + 1
        }) by (nonlinear_arith)
            requires
                n == m + 1,
        ;
    }
}

/// Linear conversion of the sample rate: the two samples between which it stands.
#[derive(Clone, Copy, Debug, PartialEq, Eq, Structural)]
pub struct Resampler {
    pub previous: Single,
    pub current: Single,
}

impl Resampler {
    pub fn new() -> (r: Resampler)
        ensures
            r.previous == whole_of(0),
            r.current == whole_of(0),
    {
        Resampler { previous: Single::whole(0), current: Single::whole(0) }
    }

    /// Goes on by one sample, and says whether there was one. If there was none, it runs gently
    /// towards silence: `decayed` is a little less than the current sample.
    pub fn shift_in(&mut self, samples: &mut SampleSource, decayed: Single) -> (fresh: bool)
        ensures
            final(self).previous == old(self).current,
            held(*old(samples)).len() > 0 ==> fresh && final(self).current.bits == held(*old(samples))[0] && held(
                *final(samples),
            ) == held(*old(samples)).drop_first(),
            !fresh ==> final(self).current == decayed && held(*old(samples)).len() == 0 && held(*final(samples)).len() == 0,
            went_on(*old(samples), *final(samples), if fresh {
                1
            } else {
                0
            }),
    {
        self.previous = self.current;
        match samples.try_pop() {
            Some(bits) => {
                self.current = Single { bits };
                true
            },
            None => {
                self.current = decayed;
                false
            },
        }
    }
}

/// How the output keeps up with the input.
#[derive(Clone, Copy, Debug, PartialEq, Eq, Structural)]
pub struct OutputState {
    /// How many samples there should be in the queue.
    pub target: usize,
    /// With more than this it has got stuck.
    pub max: usize,
    pub primed: bool,
    pub resampler: Resampler,
}

impl OutputState {
    /// The aim lies within what is allowed.
    pub open spec fn valid(self) -> bool {
        0 < self.target <= self.max + 1
    }

    /// `wanted` and `max` samples in the queue; at least one is aimed for.
    pub fn new(wanted: usize, max: usize) -> (s: OutputState)
        requires
            wanted <= max + 1,
        ensures
            s.valid(),
            s.target == if wanted > 1 {
                wanted
            } else {
                1
            },
            s.max == max,
            !s.primed,
            s.resampler.previous == whole_of(0),
            s.resampler.current == whole_of(0),
    {
        let target: usize = if wanted > 1 {
            wanted
        } else {
            1
        };
        OutputState { target, max, primed: false, resampler: Resampler::new() }
    }

    /// Looks at the queue before a block is filled. After a stall the oldest samples are thrown
    /// away down to the aim, so that no delay builds up. Until the aim was reached once, there
    /// is silence (`None`), else it would crackle at the start; then what is in the queue.
    pub fn look(&mut self, samples: &mut SampleSource) -> (r: Option<usize>)
        requires
            old(self).valid(),
        ensures
            final(self).valid(),
            final(self).target == old(self).target,
            final(self).max == old(self).max,
            final(self).resampler == old(self).resampler,
            exists|seen: Seq<u32>| #![trigger seen.len()]
                {
                    &&& held(*old(samples)).is_prefix_of(seen)
                    &&& seen.len() <= room(*old(samples))
                    &&& went_on(*old(samples), *final(samples), if seen.len() > old(self).max {
                        seen.len() - old(self).target
                    } else {
                        0
                    })
                    &&& final(self).primed == (old(self).primed || seen.len() >= old(self).target)
                    &&& r is Some <==> final(self).primed
                    &&& seen.len() <= old(self).max ==> seen.is_prefix_of(held(*final(samples)))
                    &&& seen.len() > old(self).max ==> seen.skip(seen.len() - old(self).target).is_prefix_of(
                        held(*final(samples)),
                    )
                },
            r matches Some(n) ==> n == held(*final(samples)).len(),
    {
        let filled = samples.occupied_len();
        let ghost seen = held(*samples);
        if filled > self.max {
            let ghost before = *samples;
            samples.skip(surplus(filled, self.target));
            proof {
                lemma_went_on(*old(samples), before, *samples, 0, filled - self.target);
                let gone = (filled - self.target) as int;
                let all = choose|all: Seq<u32>| #![trigger all.skip(gone)]
                    seen.is_prefix_of(all) && held(*samples) == all.skip(gone) && gone <= all.len();
                assert(seen.skip(gone).is_prefix_of(all.skip(gone)));
            }
        }
        if !self.primed {
            if filled < self.target {
                return None;
            }
            self.primed = true;
        }
        let ghost before = *samples;
        let n = samples.occupied_len();
        proof {
            lemma_went_on(*old(samples), before, *samples, if filled > self.max {
                filled - self.target
            } else {
                0
            }, 0);
            assert(held(before).is_prefix_of(held(*samples)));
        }
        Some(n)
    }
}

/// A name tells a virtual device as soon as one of the four words stands anywhere in it, and not
/// else.
pub proof fn law_four_words_tell_a_virtual_device(lowered: &str, at: int, r: bool)
    requires
        call_ensures(is_virtual_name, (lowered,), r),
    ensures
        stands_at(lowered@, "vb-audio"@, at) || stands_at(lowered@, "cable"@, at) || stands_at(lowered@, "voicemeeter"@, at)
            || stands_at(lowered@, "virtual"@, at) ==> r,
        r ==> exists|n: int|
            stands_at(lowered@, "vb-audio"@, n) || stands_at(lowered@, "cable"@, n) || stands_at(
                lowered@,
                "voicemeeter"@,
                n,
            ) || stands_at(lowered@, "virtual"@, n),
{
}

/// Only virtual devices are offered to be played to, each that there is, in the order in which they
/// were found.
pub proof fn law_only_virtual_outputs_are_offered(all: Vec<InputDevice>, list: Vec<InputDevice>, d: InputDevice)
    requires
        call_ensures(list_output_devices, (all,), list),
    ensures
        list@.contains(d) <==> all@.contains(d) && virtual_name(lowercase(d.name@)),
        list@.len() <= all@.len(),
        (forall|i: int| 0 <= i < all@.len() ==> virtual_name(lowercase((#[trigger] all@[i]).name@))) ==> list@ == all@,
{
    let p = |d: InputDevice| virtual_name(lowercase(d.name@));
    all@.lemma_filter_len(p);
    if all@.contains(d) && p(d) {
        let i = choose|i: int| 0 <= i < all@.len() && all@[i] == d;
        all@.lemma_filter_contains(p, i);
    }
    if list@.contains(d) {
        let i = choose|i: int| 0 <= i < list@.len() && list@[i] == d;
        all@.lemma_filter_pred(p, i);
        all@.lemma_filter_contains_rev(p, d);
    }
    if forall|i: int| 0 <= i < all@.len() ==> virtual_name(lowercase((#[trigger] all@[i]).name@)) {
        lemma_filter_all(all@, p);
    }
}

proof fn lemma_filter_all(all: Seq<InputDevice>, p: spec_fn(InputDevice) -> bool)
    requires
        forall|i: int| 0 <= i < all.len() ==> p(#[trigger] all[i]),
    ensures
        all.filter(p) == all,
    decreases all.len(),
{
    reveal(Seq::filter);
    if all.len() > 0 {
        let earlier = all.drop_last();
        assert forall|i: int| 0 <= i < earlier.len() implies p(#[trigger] earlier[i]) by {
            assert(all[i] == earlier[i]);
        }
        lemma_filter_all(earlier, p);
        assert(p(all[all.len() - 1]));
        assert(all =~= earlier.push(all.last()));
    }
}

/// The microphone is never played to headphones or loudspeakers: a device that is not virtual is
/// refused, and only such a one.
pub proof fn law_no_feedback(name: &str, virtual_one: bool, r: Result<(), String>)
    requires
        call_ensures(is_virtual_device, (name,), virtual_one),
        call_ensures(admit_output, (name,), r),
    ensures
        r is Ok <==> virtual_one,
{
}

/// The chosen device comes first where it can be used; else the first VB-Cable, and there is none
/// only where no name is that of VB-Cable.
pub proof fn law_chosen_output_comes_first(
    chosen: &Option<String>,
    names: &Vec<Option<String>>,
    r: OutputChoice,
    name: &str,
    virtual_one: bool,
    cable: bool,
    at: int,
)
    requires
        call_ensures(choose_output, (chosen, names), r),
        call_ensures(is_virtual_device, (name,), virtual_one),
        call_ensures(is_cable_input, (name,), cable),
    ensures
        *chosen matches Some(c) && c@ == name@ ==> (r is Chosen <==> virtual_one),
        *chosen is None ==> !(r is Chosen),
        0 <= at < names@.len() && (names@[at] matches Some(n) && n@ == name@) && cable ==> (match r {
            OutputChoice::Chosen => true,
            OutputChoice::Found(n) => n <= at,
            OutputChoice::Missing => false,
        }),
        0 <= at < names@.len() && (names@[at] matches Some(n) && n@ == name@) && !cable ==> !(r matches OutputChoice::Found(n)
            && n == at),
{
    if 0 <= at < names@.len() {
        let there = names@[at];
        assert(r is Missing ==> (there matches Some(n) ==> !occurs(lowercase(n@), "cable input"@)));
    }
}

/// New values are taken over with the first sample, and after that with every 256th.
pub proof fn law_values_are_due_every_256_samples(v: &mut VoiceChain, r: bool)
    requires
        old(v).valid(),
        call_ensures(VoiceChain::due, (v,), r),
    ensures
        r <==> old(v).countdown == 0,
        r ==> final(v).countdown == 255,
        !r ==> final(v).countdown == old(v).countdown - 1,
{
}

/// Each figure of the chain is reported under its own name.
pub proof fn law_figures_are_reported(out: Single, peak: Single, open: bool, gate: Single, gain: Single, f: Feedback)
    requires
        call_ensures(VoiceChain::report, (out, peak, open, gate, gain), f),
    ensures
        f.out_level_db == out,
        f.out_peak_db == peak,
        f.gate_open == open,
        f.gate_level_db == gate,
        f.comp_gain_db == gain,
        f.input_level_db.val() == -120 * pow2(149),
{
    crate::single::lemma_whole_val(-120);
}

/// The output is silent until as many samples as are aimed for are there for the first time, and
/// never waits again after that.
pub proof fn law_output_waits_once(s: &mut OutputState, samples: &mut SampleSource, r: Option<usize>)
    requires
        old(s).valid(),
        call_ensures(OutputState::look, (s, samples), r),
    ensures
        old(s).primed ==> r is Some && final(s).primed,
        held(*old(samples)).len() >= old(s).target ==> r is Some,
        r is Some ==> final(s).primed,
        r is None ==> !final(s).primed,
        final(s).target == old(s).target && final(s).max == old(s).max,
{
}

/// The sample that stood there goes one on, and the oldest one of the queue takes its place.
pub proof fn law_resampler_goes_on_by_one(r: &mut Resampler, samples: &mut SampleSource, decayed: Single, fresh: bool)
    requires
        call_ensures(Resampler::shift_in, (r, samples, decayed), fresh),
    ensures
        final(r).previous == old(r).current,
        held(*old(samples)).len() > 0 ==> fresh && final(r).current.bits == held(*old(samples))[0] && held(
            *final(samples),
        ).len() == held(*old(samples)).len() - 1,
        !fresh ==> final(r).current == decayed,
{
}

/// As many samples are aimed for as are wanted, but at least one; after a stall no fewer than that
/// stay in the queue.
pub proof fn law_output_aims_for_what_is_wanted(
    wanted: usize,
    max: usize,
    n: OutputState,
    s: &mut OutputState,
    samples: &mut SampleSource,
    r: Option<usize>,
)
    requires
        wanted <= max + 1,
        call_ensures(OutputState::new, (wanted, max), n),
        old(s).valid(),
        call_ensures(OutputState::look, (s, samples), r),
    ensures
        wanted >= 1 ==> n.target == wanted,
        wanted == 0 ==> n.target == 1,
        n.max == max && !n.primed,
        held(*old(samples)).len() > old(s).max ==> held(*final(samples)).len() >= old(s).target,
        room(*old(samples)) <= old(s).max ==> held(*old(samples)).is_prefix_of(held(*final(samples))),
{
}

/// What the surface sets is what the chain gets.
pub proof fn law_set_values_are_there(c: &mut ChainControl, settings: dsp::Settings, f: Feedback)
    requires
        call_ensures(ChainControl::set, (c, settings), ()),
        call_ensures(ChainControl::feedback, (&*final(c),), f),
    ensures
        final(c).settings == settings,
        f == old(c).feedback,
{
}

} // verus!
