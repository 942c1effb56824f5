//! Reading the microphone: which device, which faults matter, and the loudest block since
//! somebody last looked.

use std::collections::VecDeque;

use vstd::arithmetic::power2::pow2;
use vstd::prelude::*;

use crate::agc::is_virtual_device;
use crate::agc::lowercase;
use crate::agc::virtual_name;
use crate::agc::ChainControl;
use crate::level::silence_db;
use crate::level::SILENCE;
use crate::single::whole_of;
use crate::single::Single;
use crate::spectrum::FFT_SIZE;

verus! {

/// What kind of fault an audio stream reports.
#[derive(Clone, Copy, Debug, PartialEq, Eq, Structural)]
pub enum ErrorKind {
    DeviceChanged,
    RealtimeDenied,
    Xrun,
    PermissionDenied,
    DeviceBusy,
    DeviceNotAvailable,
    Other,
}

impl ErrorKind {
    /// A mere hint (no realtime priority, a short crackle, device redirected): recording goes
    /// on.
    pub open spec fn is_hint(self) -> bool {
        self == ErrorKind::DeviceChanged || self == ErrorKind::RealtimeDenied || self == ErrorKind::Xrun
    }

    pub fn hint(self) -> (r: bool)
        ensures
            r == self.is_hint(),
    {
        self == ErrorKind::DeviceChanged || self == ErrorKind::RealtimeDenied || self == ErrorKind::Xrun
    }
}

/// What is said of a fault; `text` is what the audio system itself says.
pub open spec fn described(kind: ErrorKind, text: Seq<char>) -> Seq<char> {
    match kind {
        ErrorKind::PermissionDenied => "Zugriff verweigert. Windows-Einstellungen → Datenschutz → Mikrofon → „Desktop-Apps Zugriff auf das Mikrofon erlauben“ einschalten."@,
        ErrorKind::DeviceBusy => "Gerät ist belegt. Ein anderes Programm nutzt es exklusiv (Windows-Soundeinstellungen → Gerät → Erweitert → exklusive Nutzung abschalten)."@,
        ErrorKind::DeviceNotAvailable => "Gerät nicht verfügbar, vermutlich abgesteckt."@,
        _ => text,
    }
}

/// An understandable message, for the usual causes with the remedy.
pub fn describe(kind: ErrorKind, text: &str) -> (s: String)
    ensures
        s@ == described(kind, text@),
{
    let words: &str = match kind {
        ErrorKind::PermissionDenied => "Zugriff verweigert. Windows-Einstellungen → Datenschutz → Mikrofon → „Desktop-Apps Zugriff auf das Mikrofon erlauben“ einschalten.",
        ErrorKind::DeviceBusy => "Gerät ist belegt. Ein anderes Programm nutzt es exklusiv (Windows-Soundeinstellungen → Gerät → Erweitert → exklusive Nutzung abschalten).",
        ErrorKind::DeviceNotAvailable => "Gerät nicht verfügbar, vermutlich abgesteckt.",
        _ => text,
    };
    words.to_string()
}

/// Keeps the first fault of an audio stream that makes a restart necessary.
pub struct Fault {
    pub message: Option<String>,
}

impl Fault {
    /// The message that is kept, if any.
    pub open spec fn kept(self) -> Option<Seq<char>> {
        match self.message {
            Some(m) => Some(m@),
            None => None,
        }
    }

    pub fn new() -> (f: Fault)
        ensures
            f.kept() is None,
    {
        Fault { message: None }
    }

    /// A fault is reported. Hints do not count, and after the first one no other does.
    pub fn report(&mut self, kind: ErrorKind, text: &str)
        ensures
            final(self).kept() == if kind.is_hint() || old(self).kept() is Some {
                old(self).kept()
            } else {
                Some(described(kind, text@))
            },
    {
        if kind.hint() {
            return;
        }
        if self.message.is_none() {
            self.message = Some(describe(kind, text));
        }
    }

    pub fn get(&self) -> (r: Option<String>)
        ensures
            (match r {
                Some(m) => self.kept() == Some(m@),
                None => self.kept() is None,
            }),
    {
        match &self.message {
            Some(m) => Some(m.as_str().to_string()),
            None => None,
        }
    }
}

/// A device of the system.
pub struct InputDevice {
    pub id: String,
    pub name: String,
}

impl InputDevice {
    /// A device without a readable name is called by its id.
    pub fn of(id: String, name: Option<String>) -> (d: InputDevice)
        ensures
            d.id == id,
            d.name@ == (match name {
                Some(n) => n@,
                None => id@,
            }),
    {
        let shown = match name {
            Some(n) => n,
            None => id.as_str().to_string(),
        };
        InputDevice { id, name: shown }
    }
}

/// What is said where no microphone is chosen.
pub fn no_device() -> (r: &'static str)
    ensures
        r@ == "Kein Mikrofon ausgewählt"@,
{
    "Kein Mikrofon ausgewählt"
}

/// What is said where the chosen microphone is not there.
pub fn missing_device() -> (r: &'static str)
    ensures
        r@ == "Mikrofon nicht angeschlossen"@,
{
    "Mikrofon nicht angeschlossen"
}

/// The microphone for other programs: where it goes and with which values.
pub struct VoiceSetup {
    pub output_id: Option<String>,
    pub params: ChainControl,
    /// How much is kept in the queue between recording and playing.
    pub buffer_ms: Single,
    /// What is played is taken out of the microphone.
    pub echo: bool,
}

/// Which microphone is recorded.
#[derive(Clone, Copy, Debug, PartialEq, Eq, Structural)]
pub enum InputChoice {
    /// The chosen one.
    Chosen,
    /// The one that the system takes.
    Standard,
    /// The one at this place in the list of all of them.
    Listed(usize),
}

/// The name tells a virtual device.
pub open spec fn is_virtual(name: Seq<char>) -> bool {
    virtual_name(lowercase(name))
}

/// The first device in the list that is real.
pub open spec fn first_real(names: Seq<String>, at: int) -> bool {
    &&& 0 <= at < names.len()
    &&& !is_virtual(names[at]@)
    &&& forall|j: int| 0 <= j < at ==> is_virtual(#[trigger] names[j]@)
}

/// No device in the list is real.
pub open spec fn none_real(names: Seq<String>) -> bool {
    forall|j: int| 0 <= j < names.len() ==> is_virtual(#[trigger] names[j]@)
}

/// Looks for the microphone: the chosen one where it is there, else the standard one. If that is
/// a virtual one, the program would record its own output; then the first real one, if any.
/// `names` are those of all microphones.
pub fn choose_input(chosen: bool, standard: &Option<String>, names: &Vec<String>) -> (r: Result<InputChoice, String>)
    ensures
        (match r {
            Err(e) => !chosen && standard is None && e@ == "Kein Mikrofon gefunden"@,
            Ok(InputChoice::Chosen) => chosen,
            Ok(InputChoice::Standard) => !chosen && (*standard matches Some(name) && (!is_virtual(name@) || forall|j: int|
                0 <= j < names@.len() ==> is_virtual(#[trigger] names@[j]@))),
            Ok(InputChoice::Listed(at)) => !chosen && (*standard matches Some(name) && is_virtual(name@)) && first_real(
                names@,
                at as int,
            ),
        }),
        r matches Ok(InputChoice::Standard) && (*standard matches Some(name) && is_virtual(name@)) ==> none_real(names@),
{
    if chosen {
        return Ok(InputChoice::Chosen);
    }
    match standard {
        None => Err("Kein Mikrofon gefunden".to_string()),
        Some(name) => {
            if is_virtual_device(name.as_str()) {
                let mut at: usize = 0;
                while at < names.len()
                    invariant
                        at <= names@.len(),
                        !chosen,
                        *standard matches Some(n) && is_virtual(n@),
                        forall|j: int| 0 <= j < at ==> is_virtual(#[trigger] names@[j]@),
                    decreases names@.len() - at,
                {
                    if !is_virtual_device(names[at].as_str()) {
                        return Ok(InputChoice::Listed(at));
                    }
                    at = at + 1;
                }
            }
            Ok(InputChoice::Standard)
        },
    }
}

/// What becomes of the microphone for other programs.
pub enum VoicePlan {
    /// Not wanted.
    Off,
    /// It would feed back; this is said.
    Refused(String),
    /// The output is opened.
    Start,
}

/// What is said where the recorded microphone is the virtual device itself.
pub open spec fn feeds_back(name: Seq<char>) -> Seq<char> {
    "Als Mikrofon ist „"@ + name
        + "“ gewählt, also VB-Cable selbst. Das gäbe eine Rückkopplung, deshalb ist der Kanalzug aus. Bitte oben dein echtes Mikrofon auswählen."@
}

/// Whether the processed sound can go out: not where the microphone is a virtual one.
pub fn plan_voice(wanted: bool, input_name: &str) -> (plan: VoicePlan)
    ensures
        (match plan {
            VoicePlan::Off => !wanted,
            VoicePlan::Refused(e) => wanted && is_virtual(input_name@) && e@ == feeds_back(input_name@),
            VoicePlan::Start => wanted && !is_virtual(input_name@),
        }),
{
    if !wanted {
        VoicePlan::Off
    } else if is_virtual_device(input_name) {
        let mut e = String::new();
        e.append("Als Mikrofon ist „");
        e.append(input_name);
        e.append(
            "“ gewählt, also VB-Cable selbst. Das gäbe eine Rückkopplung, deshalb ist der Kanalzug aus. Bitte oben dein echtes Mikrofon auswählen.",
        );
        assert(e@ =~= feeds_back(input_name@));
        VoicePlan::Refused(e)
    } else {
        VoicePlan::Start
    }
}

/// The output as the surface knows it: its name while it runs, or what is wrong with it.
pub struct VoiceOutcome {
    pub output_name: Option<String>,
    pub error: Option<String>,
}

/// What became of the output: `opened` is its name or what went wrong, where it was opened at all.
/// A failed output is never an error of the whole; the traffic light runs all the same.
pub fn voice_outcome(plan: VoicePlan, opened: Option<Result<String, String>>) -> (r: VoiceOutcome)
    ensures
        (match (plan, opened) {
            (VoicePlan::Refused(e), _) => r.output_name is None && r.error == Some(e),
            (VoicePlan::Start, Some(Ok(name))) => r.output_name == Some(name) && r.error is None,
            (VoicePlan::Start, Some(Err(e))) => r.output_name is None && r.error == Some(e),
            _ => r.output_name is None && r.error is None,
        }),
{
    match (plan, opened) {
        (VoicePlan::Refused(e), _) => VoiceOutcome { output_name: None, error: Some(e) },
        (VoicePlan::Start, Some(Ok(name))) => VoiceOutcome { output_name: Some(name), error: None },
        (VoicePlan::Start, Some(Err(e))) => VoiceOutcome { output_name: None, error: Some(e) },
        _ => VoiceOutcome { output_name: None, error: None },
    }
}

/// How samples are written down by a device.
#[derive(Clone, Copy, Debug, PartialEq, Eq, Structural)]
pub enum SampleKind {
    F32,
    I16,
    I32,
    U16,
    U8,
    Other,
}

/// Whether a device can be recorded from.
pub fn can_record(kind: SampleKind) -> (r: bool)
    ensures
        r == (kind != SampleKind::Other),
{
    kind != SampleKind::Other
}

/// Whether a device can be played to.
pub fn can_play(kind: SampleKind) -> (r: bool)
    ensures
        r == (kind != SampleKind::Other && kind != SampleKind::U8),
{
    kind != SampleKind::Other && kind != SampleKind::U8
}

/// What is said of a format that cannot be used.
pub fn unknown_format(name: &str) -> (s: String)
    ensures
        s@ == "Nicht unterstütztes Audioformat: "@ + name@,
{
    let mut s = String::new();
    s.append("Nicht unterstütztes Audioformat: ");
    s.append(name);
    assert(s@ =~= "Nicht unterstütztes Audioformat: "@ + name@);
    s
}

/// How many channels a device is taken to have: at least one.
pub fn channel_count(channels: u16) -> (n: usize)
    ensures
        n == if channels == 0 {
            1
        } else {
            channels as int
        },
{
    if channels == 0 {
        1
    } else {
        channels as usize
    }
}

/// The loudest block since somebody last looked.
#[derive(Clone, Copy, Debug, PartialEq, Eq, Structural)]
pub struct PeakSlot {
    pub peak_db: Single,
    pub fresh: bool,
}

impl PeakSlot {
    pub fn new() -> (s: PeakSlot)
        ensures
            s.peak_db == whole_of(SILENCE as int),
            !s.fresh,
    {
        PeakSlot { peak_db: silence_db(), fresh: false }
    }

    /// The loudest block since the last call, `None` where nothing new is there.
    pub fn take_peak_db(&mut self) -> (r: Option<Single>)
        ensures
            r == if old(self).fresh {
                Some(old(self).peak_db)
            } else {
                None::<Single>
            },
            old(self).fresh ==> final(self).peak_db == whole_of(SILENCE as int) && !final(self).fresh,
            !old(self).fresh ==> *final(self) == *old(self),
    {
        if !self.fresh {
            return None;
        }
        let peak = self.peak_db;
        self.peak_db = silence_db();
        self.fresh = false;
        Some(peak)
    }
}

/// Counts samples into blocks and keeps what could not be handed over yet.
#[derive(Clone, Copy, Debug, PartialEq, Eq, Structural)]
pub struct Processor {
    pub count: usize,
    pub block_len: usize,
    /// The loudest block that has not been handed over.
    pub pending_db: Single,
}

impl Processor {
    pub open spec fn valid(self) -> bool {
        self.count < self.block_len
    }

    /// Blocks of this many samples, at least of one.
    pub fn new(block_len: usize) -> (p: Processor)
        ensures
            p.valid(),
            p.count == 0,
            p.block_len == if block_len == 0 {
                1
            } else {
                block_len
            },
            p.pending_db == whole_of(SILENCE as int),
    {
        Processor {
            count: 0,
            block_len: if block_len == 0 {
                1
            } else {
                block_len
            },
            pending_db: silence_db(),
        }
    }

    /// One more sample. Says how many the block has once it is full.
    pub fn push(&mut self) -> (full: Option<usize>)
        requires
            old(self).valid(),
        ensures
            final(self).valid(),
            full == if old(self).count + 1 == old(self).block_len {
                Some(old(self).block_len)
            } else {
                None::<usize>
            },
            final(self).count == if full is Some {
                0
            } else {
                old(self).count + 1
            },
            final(self).block_len == old(self).block_len,
            final(self).pending_db == old(self).pending_db,
    {
        self.count = self.count + 1;
        if self.count < self.block_len {
            return None;
        }
        self.count = 0;
        Some(self.block_len)
    }

    /// The level of a full block: silence at least.
    pub fn measured(&mut self, db: Single)
        ensures
            final(self).pending_db == old(self).pending_db.larger(db.larger(whole_of(SILENCE as int))),
            final(self).count == old(self).count,
            final(self).block_len == old(self).block_len,
    {
        self.pending_db = self.pending_db.max(db.max(silence_db()));
    }

    /// Hands over what is pending. This is done when the slot is free; the audio thread never
    /// waits for it.
    pub fn deliver(&mut self, slot: &mut PeakSlot)
        ensures
            final(slot).peak_db == old(slot).peak_db.larger(old(self).pending_db),
            final(slot).fresh,
            final(self).pending_db == whole_of(SILENCE as int),
            final(self).count == old(self).count,
            final(self).block_len == old(self).block_len,
    {
        slot.peak_db = slot.peak_db.max(self.pending_db);
        slot.fresh = true;
        self.pending_db = silence_db();
    }
}

/// The loudest of what was handed over and what is pending.
pub open spec fn loudest(slot_db: Single, pending_db: Single) -> Single {
    slot_db.larger(pending_db)
}

/// No block is lost when it cannot be handed over at once: with each block the loudest of all
/// goes up to it at least, and handing over changes nothing about it.
pub proof fn law_no_block_is_lost(slot_db: Single, pending_db: Single, db: Single)
    requires
        !slot_db.nan(),
        !pending_db.nan(),
        whole_of(SILENCE as int).at_most(slot_db),
        whole_of(SILENCE as int).at_most(pending_db),
    ensures
        loudest(slot_db, pending_db.larger(db.larger(whole_of(SILENCE as int)))).val() == loudest(
            slot_db,
            pending_db,
        ).larger(db).val(),
        loudest(slot_db.larger(pending_db), whole_of(SILENCE as int)).val() == loudest(slot_db, pending_db).val(),
{
}

/// The last samples of the microphone, for the frequency diagram.
pub struct RawSamples {
    pub ring: VecDeque<Single>,
}

/// The last `n` of them.
pub open spec fn last_of(samples: Seq<Single>, n: int) -> Seq<Single> {
    if samples.len() <= n {
        samples
    } else {
        samples.skip(samples.len() - n)
    }
}

impl RawSamples {
    /// There are never more than a transform needs.
    pub open spec fn valid(self) -> bool {
        self.ring@.len() <= FFT_SIZE
    }

    pub fn new() -> (r: RawSamples)
        ensures
            r.valid(),
            r.ring@ == Seq::<Single>::empty(),
    {
        let r = RawSamples { ring: VecDeque::new() };
        assert(r.ring@ =~= Seq::empty());
        r
    }

    /// One more sample; the oldest one goes where there are as many as a transform needs.
    pub fn add(&mut self, sample: Single)
        requires
            old(self).valid(),
        ensures
            final(self).valid(),
            final(self).ring@ == last_of(old(self).ring@.push(sample), FFT_SIZE as int),
    {
        if self.ring.len() == FFT_SIZE {
            let _ = self.ring.pop_front();
        }
        self.ring.push_back(sample);
        assert(self.ring@ =~= last_of(old(self).ring@.push(sample), FFT_SIZE as int));
    }

    /// The samples for a transform, once there are enough, the oldest first.
    pub fn snapshot(&self) -> (r: Option<Vec<Single>>)
        requires
            self.valid(),
        ensures
            r is Some <==> self.ring@.len() == FFT_SIZE,
            r matches Some(list) ==> list@ == self.ring@,
    {
        if self.ring.len() != FFT_SIZE {
            return None;
        }
        let mut list: Vec<Single> = Vec::new();
        let mut i: usize = 0;
        while i < self.ring.len()
            invariant
                i <= self.ring@.len(),
                list@ == self.ring@.take(i as int),
            decreases self.ring@.len() - i,
        {
            list.push(self.ring[i]);
            assert(list@ =~= self.ring@.take(i + 1));
            i = i + 1;
        }
        assert(self.ring@.take(i as int) =~= self.ring@);
        Some(list)
    }
}

/// The samples after these were added one after another.
pub open spec fn added(start: Seq<Single>, more: Seq<Single>) -> Seq<Single>
    decreases more.len(),
{
    if more.len() == 0 {
        start
    } else {
        last_of(added(start, more.drop_last()).push(more.last()), FFT_SIZE as int)
    }
}

/// However many samples come, it is the last ones that are kept, in their order and without a gap.
pub proof fn law_last_samples_are_kept(more: Seq<Single>)
    ensures
        added(Seq::empty(), more) == last_of(more, FFT_SIZE as int),
    decreases more.len(),
{
    if more.len() > 0 {
        law_last_samples_are_kept(more.drop_last());
        assert(added(Seq::empty(), more) =~= last_of(more, FFT_SIZE as int));
    } else {
        assert(more =~= Seq::empty());
    }
}

/// Hints never stop a recording; of all other faults the first one is kept.
pub proof fn law_first_fault_is_kept(f: &mut Fault, kind: ErrorKind, text: &str)
    requires
        call_ensures(Fault::report, (f, kind, text), ()),
    ensures
        kind == ErrorKind::DeviceChanged || kind == ErrorKind::RealtimeDenied || kind == ErrorKind::Xrun ==> final(f).kept()
            == old(f).kept(),
        old(f).kept() is Some ==> final(f).kept() == old(f).kept(),
        old(f).kept() is None && (kind == ErrorKind::PermissionDenied || kind == ErrorKind::DeviceBusy || kind
            == ErrorKind::DeviceNotAvailable || kind == ErrorKind::Other) ==> final(f).kept() is Some,
        old(f).kept() is None && kind == ErrorKind::Other ==> final(f).kept() == Some(text@),
{
}

/// A virtual microphone is recorded only where it was chosen, or where there is no real one; the
/// first real one is taken.
pub proof fn law_real_microphone_is_preferred(
    chosen: bool,
    standard: &Option<String>,
    names: &Vec<String>,
    r: Result<InputChoice, String>,
    name: &str,
    virtual_one: bool,
    at: int,
)
    requires
        call_ensures(choose_input, (chosen, standard, names), r),
        call_ensures(is_virtual_device, (name,), virtual_one),
    ensures
        chosen ==> (r matches Ok(c) && c == InputChoice::Chosen),
        !chosen && *standard is None ==> r is Err,
        !chosen && *standard is Some ==> r is Ok,
        !chosen && (*standard matches Some(n) && n@ == name@) && !virtual_one ==> (r matches Ok(c) && c
            == InputChoice::Standard),
        !chosen && (*standard matches Some(n) && is_virtual(n@)) && 0 <= at < names@.len() && names@[at]@ == name@
            && !virtual_one ==> (r matches Ok(InputChoice::Listed(n)) && n <= at),
        0 <= at < names@.len() && names@[at]@ == name@ && virtual_one ==> !(r matches Ok(InputChoice::Listed(n)) && n == at),
{
    if 0 <= at < names@.len() {
        let there = names@[at];
        assert(r matches Ok(InputChoice::Listed(n)) && at < n ==> is_virtual(there@));
        assert(r matches Ok(InputChoice::Standard) && (*standard matches Some(n) && is_virtual(n@)) ==> is_virtual(there@));
    }
}

/// The output starts exactly where it is wanted and the microphone is a real one.
pub proof fn law_output_needs_a_real_microphone(wanted: bool, input_name: &str, virtual_one: bool, plan: VoicePlan)
    requires
        call_ensures(plan_voice, (wanted, input_name), plan),
        call_ensures(is_virtual_device, (input_name,), virtual_one),
    ensures
        plan is Off <==> !wanted,
        plan is Start <==> wanted && !virtual_one,
        plan is Refused <==> wanted && virtual_one,
{
}

/// A block is full after its length in samples, and the next one begins.
pub proof fn law_blocks_have_their_length(p: &mut Processor, full: Option<usize>)
    requires
        old(p).valid(),
        call_ensures(Processor::push, (p,), full),
    ensures
        full is Some <==> old(p).count + 1 >= old(p).block_len,
        full matches Some(n) ==> n == old(p).block_len && final(p).count == 0,
        full is None ==> final(p).count == old(p).count + 1,
        final(p).pending_db == old(p).pending_db,
{
}

/// The loudest block since the last look is what a look gives, whatever was pending before; a second
/// look gives nothing.
pub proof fn law_loudest_block_is_seen(
    p: &mut Processor,
    db: Single,
    q: &mut Processor,
    slot: &mut PeakSlot,
    seen: &mut PeakSlot,
    r: Option<Single>,
)
    requires
        call_ensures(Processor::measured, (p, db), ()),
        *old(q) == *final(p),
        call_ensures(Processor::deliver, (q, slot), ()),
        *old(seen) == *final(slot),
        call_ensures(PeakSlot::take_peak_db, (seen,), r),
        !db.nan(),
        !old(p).pending_db.nan(),
        !old(slot).peak_db.nan(),
        -100 * pow2(149) <= db.val(),
    ensures
        r matches Some(peak) && peak.val() >= db.val() && peak.val() >= old(p).pending_db.val() && peak.val() >= old(
            slot).peak_db.val() && (peak.val() == db.val() || peak.val() == old(p).pending_db.val() || peak.val() == old(
            slot).peak_db.val()),
        !final(seen).fresh && final(seen).peak_db.val() == -100 * pow2(149),
        final(q).pending_db.val() == -100 * pow2(149),
{
    crate::single::lemma_whole_val(-100);
}

/// The last 1024 samples are kept, the newest at the end, and only so many make a picture.
pub proof fn law_newest_sample_is_kept(r: &mut RawSamples, sample: Single, v: &RawSamples, picture: Option<Vec<Single>>)
    requires
        old(r).valid(),
        call_ensures(RawSamples::add, (r, sample), ()),
        v.valid(),
        call_ensures(RawSamples::snapshot, (v,), picture),
    ensures
        final(r).ring@.len() > 0 && final(r).ring@.last() == sample,
        old(r).ring@.len() < 1024 ==> final(r).ring@.drop_last() == old(r).ring@,
        old(r).ring@.len() == 1024 ==> final(r).ring@.drop_last() == old(r).ring@.drop_first(),
        picture is Some <==> v.ring@.len() == 1024,
        picture matches Some(list) ==> list@ == v.ring@,
{
    assert(old(r).ring@.len() < 1024 ==> final(r).ring@.drop_last() =~= old(r).ring@);
    assert(old(r).ring@.len() == 1024 ==> final(r).ring@.drop_last() =~= old(r).ring@.drop_first());
}

/// Every format that is known can be recorded; eight bits cannot be played to. There is at least one
/// channel.
pub proof fn law_known_formats(kind: SampleKind, record: bool, play: bool, channels: u16, n: usize)
    requires
        call_ensures(can_record, (kind,), record),
        call_ensures(can_play, (kind,), play),
        call_ensures(channel_count, (channels,), n),
    ensures
        kind == SampleKind::F32 || kind == SampleKind::I16 || kind == SampleKind::I32 || kind == SampleKind::U16 ==> record
            && play,
        kind == SampleKind::U8 ==> record && !play,
        kind == SampleKind::Other ==> !record && !play,
        n >= 1 && (channels > 0 ==> n == channels),
{
}

/// An output that runs is known by its name, one that does not by what is wrong; one that is not
/// wanted by neither.
pub proof fn law_what_became_of_the_output(plan: VoicePlan, opened: Option<Result<String, String>>, r: VoiceOutcome)
    requires
        call_ensures(voice_outcome, (plan, opened), r),
    ensures
        r.output_name is None || r.error is None,
        plan is Off ==> r.output_name is None && r.error is None,
        plan matches VoicePlan::Refused(e) ==> r.error == Some(e),
        plan is Start ==> (opened matches Some(Ok(name)) ==> r.output_name == Some(name)),
        plan is Start ==> (opened matches Some(Err(e)) ==> r.error == Some(e)),
{
}

/// A device is called by its name, or by its id where it has none.
pub proof fn law_device_has_a_name(id: String, name: Option<String>, d: InputDevice)
    requires
        call_ensures(InputDevice::of, (id, name), d),
    ensures
        d.id == id,
        name matches Some(n) ==> d.name@ == n@,
        name is None ==> d.name@ == id@,
{
}

/// Each of the usual causes has its own words; any other fault is said in those of the audio system.
pub proof fn law_usual_causes_have_their_words(kind: ErrorKind, text: &str, s: String)
    requires
        call_ensures(describe, (kind, text), s),
    ensures
        kind == ErrorKind::DeviceNotAvailable ==> s@ == "Gerät nicht verfügbar, vermutlich abgesteckt."@,
        kind == ErrorKind::Other || kind == ErrorKind::DeviceChanged || kind == ErrorKind::RealtimeDenied || kind
            == ErrorKind::Xrun ==> s@ == text@,
        kind == ErrorKind::PermissionDenied ==> s@.len() > 16 && s@.subrange(0, 16) == "Zugriff verweige"@,
        kind == ErrorKind::DeviceBusy ==> s@.len() > 16 && s@.subrange(0, 16) == "Gerät ist belegt"@,
{
    reveal_strlit("Zugriff verweigert. Windows-Einstellungen → Datenschutz → Mikrofon → „Desktop-Apps Zugriff auf das Mikrofon erlauben“ einschalten.");
    reveal_strlit("Gerät ist belegt. Ein anderes Programm nutzt es exklusiv (Windows-Soundeinstellungen → Gerät → Erweitert → exklusive Nutzung abschalten).");
    reveal_strlit("Zugriff verweige");
    reveal_strlit("Gerät ist belegt");
    if kind == ErrorKind::PermissionDenied {
        assert(s@.subrange(0, 16) =~= "Zugriff verweige"@);
    }
    if kind == ErrorKind::DeviceBusy {
        assert(s@.subrange(0, 16) =~= "Gerät ist belegt"@);
    }
}

} // verus!
