//! The course of taking every audio filter out: which step comes next, from how the last one went.

use vstd::prelude::*;

use crate::app::words;
use crate::apo_setup::backup_path;
use crate::apo_setup::fx_path;
use crate::apo_setup::restore;
use crate::apo_setup::with_audio_stopped;
use crate::apo_setup::Restore;
use crate::apo_setup::Saved;
use crate::text::texts;

verus! {

/// How many values of a microphone are put back.
pub const VALUES: usize = 3;

/// Which step was asked for and is not answered yet.
#[derive(Clone, Copy, Debug, PartialEq, Eq, Structural)]
pub enum Stage {
    Rights,
    Service,
    Stop,
    List,
    /// The saved values of a microphone are opened.
    Saved,
    /// The values of a microphone are opened.
    Values,
    Read,
    Put,
    /// The saved values are deleted.
    Tree,
    Unregister,
    Start,
    Ended,
}

/// A step that is to be done. A value is given by its place in the list of touched ones.
pub enum Act {
    /// Get the right to change values of the system.
    GetRights,
    /// Get hold of the audio service.
    OpenService,
    StopService,
    /// List the microphones whose values were saved.
    ListSaved,
    /// Open the saved values under this path.
    OpenSaved(String),
    /// Open the values of the microphone under this path.
    OpenValues(String),
    Read(usize),
    Write(usize, Saved),
    Delete(usize),
    DeleteTree(String),
    /// Take the filter out of the lists of COM and of the audio system.
    Unregister,
    StartService,
    /// There is nothing more to do; this came of it.
    End(Result<(), String>),
}

/// How a step went.
pub enum Answer {
    Done(Result<(), String>),
    Listed(Option<Vec<String>>),
    Opened(bool),
    Value(Option<Saved>),
}

/// A step as it is spoken of.
pub enum Doing {
    GetRights,
    OpenService,
    StopService,
    ListSaved,
    OpenSaved(Seq<char>),
    OpenValues(Seq<char>),
    Read(int),
    Write(int, u32, Seq<u8>),
    Delete(int),
    DeleteTree(Seq<char>),
    Unregister,
    StartService,
    /// With the failure, if there was one.
    End(Option<Seq<char>>),
}

/// An answer as it is spoken of.
pub enum Reply {
    /// With the failure, if there was one.
    Done(Option<Seq<char>>),
    Listed(Seq<Seq<char>>),
    Opened(bool),
    Value(Option<(u32, Seq<u8>)>),
}

/// What went wrong, if anything.
pub open spec fn failure(r: Result<(), String>) -> Option<Seq<char>> {
    match r {
        Ok(_) => None,
        Err(e) => Some(e@),
    }
}

impl View for Act {
    type V = Doing;

    open spec fn view(&self) -> Doing {
        match *self {
            Act::GetRights => Doing::GetRights,
            Act::OpenService => Doing::OpenService,
            Act::StopService => Doing::StopService,
            Act::ListSaved => Doing::ListSaved,
            Act::OpenSaved(path) => Doing::OpenSaved(path@),
            Act::OpenValues(path) => Doing::OpenValues(path@),
            Act::Read(n) => Doing::Read(n as int),
            Act::Write(n, saved) => Doing::Write(n as int, saved.kind, saved.data@),
            Act::Delete(n) => Doing::Delete(n as int),
            Act::DeleteTree(path) => Doing::DeleteTree(path@),
            Act::Unregister => Doing::Unregister,
            Act::StartService => Doing::StartService,
            Act::End(r) => Doing::End(failure(r)),
        }
    }
}

impl View for Answer {
    type V = Reply;

    open spec fn view(&self) -> Reply {
        match *self {
            Answer::Done(r) => Reply::Done(failure(r)),
            Answer::Listed(Some(list)) => Reply::Listed(texts(list@)),
            Answer::Listed(None) => Reply::Listed(Seq::empty()),
            Answer::Opened(found) => Reply::Opened(found),
            Answer::Value(Some(saved)) => Reply::Value(Some((saved.kind, saved.data@))),
            Answer::Value(None) => Reply::Value(None),
        }
    }
}

/// How far it has come: the microphones, the one at work, its value at work, and what went wrong.
pub struct Course {
    pub stage: Stage,
    pub guids: Seq<Seq<char>>,
    pub at: int,
    pub value: int,
    pub error: Option<Seq<char>>,
}

/// Where the saved values of a microphone lie.
pub open spec fn saved_path(guid: Seq<char>) -> Seq<char> {
    "SOFTWARE\\LucyWolf\\Laermampel\\ApoBackup"@ + "\\"@ + guid
}

/// Where the values of a microphone lie.
pub open spec fn values_path(guid: Seq<char>) -> Seq<char> {
    "SOFTWARE\\Microsoft\\Windows\\CurrentVersion\\MMDevices\\Audio\\Capture\\"@ + guid + "\\FxProperties"@
}

impl Course {
    /// A microphone is at work.
    pub open spec fn at_work(self) -> bool {
        self.stage == Stage::Saved || self.stage == Stage::Values || self.stage == Stage::Read || self.stage == Stage::Put
            || self.stage == Stage::Tree
    }

    pub open spec fn valid(self) -> bool {
        &&& self.at_work() ==> 0 <= self.at < self.guids.len()
        &&& self.stage == Stage::Read || self.stage == Stage::Put ==> 0 <= self.value < VALUES
    }

    /// The step that was asked for is answered in this way.
    pub open spec fn awaits(self, reply: Reply) -> bool {
        match self.stage {
            Stage::Ended => false,
            Stage::List => reply is Listed,
            Stage::Saved => reply is Opened,
            Stage::Read => reply is Value,
            _ => reply is Done,
        }
    }

    pub open spec fn to(self, stage: Stage) -> Course {
        Course { stage, ..self }
    }

    /// The microphone at `at` comes next, or, if there is none, the filter itself.
    pub open spec fn microphone(self, at: int) -> (Course, Doing) {
        if at < self.guids.len() {
            (Course { stage: Stage::Saved, at, ..self }, Doing::OpenSaved(saved_path(self.guids[at])))
        } else {
            (Course { stage: Stage::Unregister, at, ..self }, Doing::Unregister)
        }
    }

    /// Nothing was touched yet: it ends at once.
    pub open spec fn given_up(self, e: Seq<char>) -> (Course, Doing) {
        (Course { stage: Stage::Ended, error: Some(e), ..self }, Doing::End(Some(e)))
    }

    /// The service stands still: it is started again first.
    pub open spec fn broken_off(self, e: Seq<char>) -> (Course, Doing) {
        (Course { stage: Stage::Start, error: Some(e), ..self }, Doing::StartService)
    }

    /// How it goes on after an answer, and what is to be done for it.
    pub open spec fn after(self, reply: Reply) -> (Course, Doing) {
        match (self.stage, reply) {
            (Stage::Rights, Reply::Done(None)) => (self.to(Stage::Service), Doing::OpenService),
            (Stage::Service, Reply::Done(None)) => (self.to(Stage::Stop), Doing::StopService),
            (Stage::Stop, Reply::Done(None)) => (self.to(Stage::List), Doing::ListSaved),
            (Stage::Rights | Stage::Service | Stage::Stop, Reply::Done(Some(e))) => self.given_up(e),
            (Stage::List, Reply::Listed(guids)) => (Course { guids, ..self }).microphone(0),
            (Stage::Saved, Reply::Opened(true)) => (
                self.to(Stage::Values),
                Doing::OpenValues(values_path(self.guids[self.at])),
            ),
            // Nothing was saved after all: the next one.
            (Stage::Saved, Reply::Opened(false)) => self.microphone(self.at + 1),
            (Stage::Values, Reply::Done(None)) => (
                Course { stage: Stage::Read, value: 0, ..self },
                Doing::Read(0),
            ),
            (Stage::Read, Reply::Value(Some((kind, data)))) => (
                self.to(Stage::Put),
                Doing::Write(self.value, kind, data),
            ),
            (Stage::Read, Reply::Value(None)) => (self.to(Stage::Put), Doing::Delete(self.value)),
            (Stage::Put, Reply::Done(None)) => if self.value + 1 < VALUES {
                (Course { stage: Stage::Read, value: self.value + 1, ..self }, Doing::Read(self.value + 1))
            } else {
                (self.to(Stage::Tree), Doing::DeleteTree(saved_path(self.guids[self.at])))
            },
            (Stage::Values | Stage::Put, Reply::Done(Some(e))) => self.broken_off(e),
            (Stage::Tree, Reply::Done(_)) => self.microphone(self.at + 1),
            (Stage::Unregister, Reply::Done(_)) => (self.to(Stage::Start), Doing::StartService),
            (Stage::Start, Reply::Done(started)) => {
                let e = match self.error {
                    Some(e) => Some(e),
                    None => started,
                };
                (Course { stage: Stage::Ended, error: e, ..self }, Doing::End(e))
            },
            _ => (self, Doing::End(self.error)),
        }
    }

    /// Some answer leads from here to `next`.
    pub open spec fn leads_to(self, next: Course) -> bool {
        exists|reply: Reply| self.awaits(reply) && #[trigger] self.after(reply).0 == next
    }
}

/// The removal under way.
pub struct Removal {
    pub stage: Stage,
    pub guids: Vec<String>,
    pub at: usize,
    pub value: usize,
    pub error: Option<String>,
}

impl View for Removal {
    type V = Course;

    open spec fn view(&self) -> Course {
        Course {
            stage: self.stage,
            guids: texts(self.guids@),
            at: self.at as int,
            value: self.value as int,
            error: words(self.error),
        }
    }
}

/// Begins to take every filter out; needs admin rights.
pub fn uninstall_all() -> (r: (Removal, Act))
    ensures
        r.0@ == (Course { stage: Stage::Rights, guids: Seq::empty(), at: 0, value: 0, error: None }),
        r.0@.valid(),
        r.1@ == Doing::GetRights,
{
    let r = Removal { stage: Stage::Rights, guids: Vec::new(), at: 0, value: 0, error: None };
    assert(texts(r.guids@) =~= Seq::empty());
    (r, Act::GetRights)
}

impl Removal {
    fn restore_endpoint(&mut self, at: usize) -> (act: Act)
        ensures
            (final(self)@, act@) == old(self)@.microphone(at as int),
    {
        self.at = at;
        if at < self.guids.len() {
            self.stage = Stage::Saved;
            Act::OpenSaved(backup_path(self.guids[at].as_str()))
        } else {
            self.stage = Stage::Unregister;
            Act::Unregister
        }
    }

    fn give_up(&mut self, e: String) -> (act: Act)
        ensures
            (final(self)@, act@) == old(self)@.given_up(e@),
    {
        self.stage = Stage::Ended;
        self.error = Some(e.clone());
        Act::End(Err(e))
    }

    fn break_off(&mut self, e: String) -> (act: Act)
        ensures
            (final(self)@, act@) == old(self)@.broken_off(e@),
    {
        self.stage = Stage::Start;
        self.error = Some(e);
        Act::StartService
    }

    fn done(&mut self, result: Result<(), String>) -> (act: Act)
        requires
            old(self)@.valid(),
            old(self)@.awaits(Reply::Done(failure(result))),
        ensures
            final(self)@.valid(),
            (final(self)@, act@) == old(self)@.after(Reply::Done(failure(result))),
    {
        match self.stage {
            Stage::Tree => {
                assert(self@.guids.len() == self.guids.len());
                let next: usize = self.at + 1;
                return self.restore_endpoint(next);
            },
            Stage::Unregister => {
                self.stage = Stage::Start;
                return Act::StartService;
            },
            Stage::Start => {
                let work = match self.error.take() {
                    Some(e) => Err(e),
                    None => Ok(()),
                };
                let outcome = with_audio_stopped(work, result);
                self.stage = Stage::Ended;
                self.error = match &outcome {
                    Ok(_) => None,
                    Err(e) => Some(e.clone()),
                };
                return Act::End(outcome);
            },
            _ => {},
        }
        match result {
            Err(e) => match self.stage {
                Stage::Values | Stage::Put => self.break_off(e),
                _ => self.give_up(e),
            },
            Ok(_) => match self.stage {
                Stage::Rights => {
                    self.stage = Stage::Service;
                    Act::OpenService
                },
                Stage::Service => {
                    self.stage = Stage::Stop;
                    Act::StopService
                },
                Stage::Stop => {
                    self.stage = Stage::List;
                    Act::ListSaved
                },
                Stage::Values => {
                    self.stage = Stage::Read;
                    self.value = 0;
                    Act::Read(0)
                },
                _ => {
                    if self.value + 1 < VALUES {
                        self.stage = Stage::Read;
                        self.value = self.value + 1;
                        Act::Read(self.value)
                    } else {
                        self.stage = Stage::Tree;
                        Act::DeleteTree(backup_path(self.guids[self.at].as_str()))
                    }
                },
            },
        }
    }

    /// The next step, once the last one was answered.
    pub fn next(&mut self, answer: Answer) -> (act: Act)
        requires
            old(self)@.valid(),
            old(self)@.awaits(answer@),
        ensures
            final(self)@.valid(),
            (final(self)@, act@) == old(self)@.after(answer@),
    {
        match answer {
            Answer::Done(result) => self.done(result),
            Answer::Listed(list) => {
                self.guids = match list {
                    Some(list) => list,
                    None => Vec::new(),
                };
                assert(self@.guids =~= answer@->Listed_0);
                self.restore_endpoint(0)
            },
            Answer::Opened(found) => {
                if found {
                    self.stage = Stage::Values;
                    Act::OpenValues(fx_path(self.guids[self.at].as_str()))
                } else {
                    assert(self@.guids.len() == self.guids.len());
                    let next: usize = self.at + 1;
                    self.restore_endpoint(next)
                }
            },
            Answer::Value(saved) => {
                self.stage = Stage::Put;
                match restore(saved) {
                    Restore::Write(saved) => Act::Write(self.value, saved),
                    Restore::Delete => Act::Delete(self.value),
                }
            },
        }
    }
}

/// One answer after another leads through these.
pub open spec fn a_course(courses: Seq<Course>) -> bool {
    forall|i: int| 0 <= i < courses.len() - 1 ==> #[trigger] courses[i].leads_to(courses[i + 1])
}

/// The service stands still: it was stopped and is not started yet.
pub open spec fn halted(c: Course) -> bool {
    c.stage == Stage::List || c.at_work() || c.stage == Stage::Unregister || c.stage == Stage::Start
}

/// Starting the service is asked for exactly when that comes next.
pub proof fn law_start_is_asked_for(c: Course, reply: Reply)
    requires
        c.awaits(reply),
    ensures
        c.after(reply).0.stage == Stage::Start <==> c.after(reply).1 == Doing::StartService,
{
}

/// A service that was stopped is started again, whatever goes wrong in between: there is no end
/// before that.
pub proof fn law_service_comes_back(courses: Seq<Course>)
    requires
        courses.len() > 0,
        courses[0].stage == Stage::List,
        a_course(courses),
        courses.last().stage == Stage::Ended,
    ensures
        exists|i: int| 0 <= i < courses.len() && #[trigger] courses[i].stage == Stage::Start,
{
    if forall|i: int| 0 <= i < courses.len() ==> #[trigger] courses[i].stage != Stage::Start {
        lemma_halted(courses, courses.len() - 1);
    }
}

proof fn lemma_halted(courses: Seq<Course>, n: int)
    requires
        0 <= n < courses.len(),
        courses[0].stage == Stage::List,
        a_course(courses),
        forall|i: int| 0 <= i < courses.len() ==> #[trigger] courses[i].stage != Stage::Start,
    ensures
        halted(courses[n]),
    decreases n,
{
    if n > 0 {
        lemma_halted(courses, n - 1);
        assert(courses[n - 1].leads_to(courses[n - 1 + 1]));
        assert(courses[n - 1].stage != Stage::Start);
    }
}

/// Value `k` was put back before the course came to `n`.
pub open spec fn put_back(courses: Seq<Course>, n: int, k: int) -> bool {
    exists|i: int| 0 <= i < n && #[trigger] courses[i].stage == Stage::Put && courses[i].value == k && courses[i + 1].error is None
}

/// What was saved of a microphone is thrown away only after every value of it was put back.
pub proof fn law_saved_values_are_kept(courses: Seq<Course>)
    requires
        courses.len() > 0,
        courses[0].stage == Stage::Values,
        courses[0].error is None,
        a_course(courses),
        courses.last().stage == Stage::Tree,
        forall|i: int| 0 <= i < courses.len() - 1 ==> #[trigger] courses[i].stage != Stage::Tree,
    ensures
        forall|k: int| 0 <= k < VALUES ==> #[trigger] put_back(courses, courses.len() - 1, k),
{
    lemma_put_back(courses, courses.len() - 1);
}

proof fn lemma_put_back(courses: Seq<Course>, n: int)
    requires
        0 <= n < courses.len(),
        courses[0].stage == Stage::Values,
        courses[0].error is None,
        a_course(courses),
        forall|i: int| 0 <= i < courses.len() - 1 ==> #[trigger] courses[i].stage != Stage::Tree,
    ensures
        ({
            let c = courses[n];
            ||| c.stage == Stage::Start || c.stage == Stage::Ended
            ||| c.stage == Stage::Values && c.error is None
            ||| (c.stage == Stage::Read || c.stage == Stage::Put) && c.error is None && (forall|k: int|
                0 <= k < c.value ==> #[trigger] put_back(courses, n, k))
            ||| c.stage == Stage::Tree && c.error is None && (forall|k: int|
                0 <= k < VALUES ==> #[trigger] put_back(courses, n, k))
        }),
    decreases n,
{
    if n > 0 {
        lemma_put_back(courses, n - 1);
        let (b, c) = (courses[n - 1], courses[n - 1 + 1]);
        assert(b.leads_to(c));
        assert(b.stage != Stage::Tree);
        assert forall|k: int| put_back(courses, n - 1, k) implies #[trigger] put_back(courses, n, k) by {
            let i = choose|i: int|
                0 <= i < n - 1 && #[trigger] courses[i].stage == Stage::Put && courses[i].value == k && courses[i + 1].error is None;
            assert(courses[i].stage == Stage::Put);
        }
        if b.stage == Stage::Put && c.error is None {
            assert(courses[n - 1].stage == Stage::Put && courses[n - 1].value == b.value && courses[n - 1 + 1].error is None);
            assert(put_back(courses, n, b.value));
        }
    }
}

/// What goes back is what was saved: the value that was read is written to the same place, and
/// one that was not there is deleted.
pub proof fn law_originals_come_back(c: Course, saved: Option<(u32, Seq<u8>)>)
    requires
        c.stage == Stage::Read,
    ensures
        c.after(Reply::Value(saved)).1 == (match saved {
            Some((kind, data)) => Doing::Write(c.value, kind, data),
            None => Doing::Delete(c.value),
        }),
        c.after(Reply::Value(saved)).0 == c.to(Stage::Put),
{
}

/// What went wrong first is what is reported at the end, even if the service then starts.
pub proof fn law_first_failure_is_reported(c: Course, started: Option<Seq<char>>)
    requires
        c.stage == Stage::Start,
    ensures
        c.error is Some ==> c.after(Reply::Done(started)).1 == Doing::End(c.error),
        c.error is None ==> c.after(Reply::Done(started)).1 == Doing::End(started),
{
}

/// The microphone at `k` was looked at on the way to `n`.
pub open spec fn visited(courses: Seq<Course>, n: int, k: int) -> bool {
    exists|i: int| 0 <= i <= n && #[trigger] courses[i].stage == Stage::Saved && courses[i].at == k
}

/// No microphone is left out: the filter itself is taken out only after each one that was listed was
/// looked at.
pub proof fn law_no_microphone_is_left_out(courses: Seq<Course>, k: int)
    requires
        courses.len() > 0,
        courses[0].stage == Stage::List,
        a_course(courses),
        courses.last().stage == Stage::Unregister,
        0 <= k < courses.last().guids.len(),
    ensures
        visited(courses, courses.len() - 1, k),
{
    lemma_visited(courses, courses.len() - 1);
}

proof fn lemma_visited(courses: Seq<Course>, n: int)
    requires
        0 <= n < courses.len(),
        courses[0].stage == Stage::List,
        a_course(courses),
    ensures
        ({
            let c = courses[n];
            ||| c.stage == Stage::List || c.stage == Stage::Start || c.stage == Stage::Ended
            ||| c.at_work() && (forall|k: int| 0 <= k <= c.at ==> #[trigger] visited(courses, n, k))
            ||| c.stage == Stage::Unregister && (forall|k: int| 0 <= k < c.guids.len() ==> #[trigger] visited(courses, n, k))
        }),
    decreases n,
{
    if n > 0 {
        lemma_visited(courses, n - 1);
        let (b, c) = (courses[n - 1], courses[n - 1 + 1]);
        assert(b.leads_to(c));
        assert forall|k: int| visited(courses, n - 1, k) implies #[trigger] visited(courses, n, k) by {
            let i = choose|i: int| 0 <= i <= n - 1 && #[trigger] courses[i].stage == Stage::Saved && courses[i].at == k;
            assert(courses[i].stage == Stage::Saved);
        }
        if c.stage == Stage::Saved {
            assert(courses[n].stage == Stage::Saved && courses[n].at == c.at);
            assert(visited(courses, n, c.at));
        }
    }
}

/// Each step is about the microphone at work: its saved values are opened, its values are opened,
/// and its saved values are deleted.
pub proof fn law_steps_name_their_microphone(c: Course, reply: Reply, path: Seq<char>)
    requires
        c.valid(),
        c.awaits(reply),
    ensures
        c.after(reply).1 == Doing::OpenSaved(path) ==> path == "SOFTWARE\\LucyWolf\\Laermampel\\ApoBackup"@ + "\\"@
            + c.after(reply).0.guids[c.after(reply).0.at],
        c.after(reply).1 == Doing::OpenValues(path) ==> path
            == "SOFTWARE\\Microsoft\\Windows\\CurrentVersion\\MMDevices\\Audio\\Capture\\"@ + c.guids[c.at]
            + "\\FxProperties"@,
        c.after(reply).1 == Doing::DeleteTree(path) ==> c.value == 2 && path
            == "SOFTWARE\\LucyWolf\\Laermampel\\ApoBackup"@ + "\\"@ + c.guids[c.at],
        c.stage == Stage::Put && reply == Reply::Done(None) && c.value < 2 ==> c.after(reply).1 == Doing::Read(c.value + 1),
        c.stage == Stage::Values && reply == Reply::Done(None) ==> c.after(reply).1 == Doing::Read(0),
{
}

/// What fails before the service was stopped ends everything at once. What fails at a microphone
/// starts the service again and is what is said in the end. What fails after that is passed over.
pub proof fn law_what_a_failure_leads_to(c: Course, e: Seq<char>)
    requires
        c.valid(),
        c.error is None,
    ensures
        c.stage == Stage::Rights || c.stage == Stage::Service || c.stage == Stage::Stop ==> c.after(
            Reply::Done(Some(e)),
        ).1 == Doing::End(Some(e)),
        c.stage == Stage::Values || c.stage == Stage::Put ==> c.after(Reply::Done(Some(e))).1 == Doing::StartService
            && c.after(Reply::Done(Some(e))).0.error == Some(e),
        c.stage == Stage::Tree || c.stage == Stage::Unregister ==> c.after(Reply::Done(Some(e))) == c.after(
            Reply::Done(None),
        ),
        c.stage == Stage::Rights ==> c.after(Reply::Done(None)).1 == Doing::OpenService,
        c.stage == Stage::Service ==> c.after(Reply::Done(None)).1 == Doing::StopService,
        c.stage == Stage::Stop ==> c.after(Reply::Done(None)).1 == Doing::ListSaved,
        c.stage == Stage::Unregister ==> c.after(Reply::Done(None)).1 == Doing::StartService,
{
}

} // verus!
