//! Taking an audio filter of an earlier version out again: the original values of the microphone
//! are written back.

use vstd::prelude::*;

use crate::text::decimal;
use crate::text::number;
use crate::text::same;

verus! {

/// How long a service may take to stop or start: 15 s.
pub const SERVICE_TIMEOUT: u64 = 15_000_000_000;

/// The registry values that the filter touched at a microphone.
pub fn touched() -> (names: [&'static str; 3])
    ensures
        names@.len() == 3,
        names@[0]@ == "{d04e05a6-594b-4fb6-a80d-01af5eed7d1d},1"@,
        names@[1]@ == "{d04e05a6-594b-4fb6-a80d-01af5eed7d1d},5"@,
        names@[2]@ == "{d3993a3f-99c2-4402-b5ec-a92a0367664b},5"@,
{
    [
        "{d04e05a6-594b-4fb6-a80d-01af5eed7d1d},1",
        "{d04e05a6-594b-4fb6-a80d-01af5eed7d1d},5",
        "{d3993a3f-99c2-4402-b5ec-a92a0367664b},5",
    ]
}

/// Where the saved values lie.
pub fn backup_root() -> (r: &'static str)
    ensures
        r@ == "SOFTWARE\\LucyWolf\\Laermampel\\ApoBackup"@,
{
    "SOFTWARE\\LucyWolf\\Laermampel\\ApoBackup"
}

fn joined2(a: &str, b: &str) -> (s: String)
    ensures
        s@ == a@ + b@,
{
    let mut s = String::new();
    s.append(a);
    s.append(b);
    assert(s@ =~= a@ + b@);
    s
}

fn joined3(a: &str, b: &str, c: &str) -> (s: String)
    ensures
        s@ == a@ + b@ + c@,
{
    let mut s = String::new();
    s.append(a);
    s.append(b);
    s.append(c);
    assert(s@ =~= a@ + b@ + c@);
    s
}

/// Where the saved values of a microphone lie.
pub fn backup_path(guid: &str) -> (s: String)
    ensures
        s@ == "SOFTWARE\\LucyWolf\\Laermampel\\ApoBackup"@ + "\\"@ + guid@,
{
    joined3("SOFTWARE\\LucyWolf\\Laermampel\\ApoBackup", "\\", guid)
}

/// Where the values of a microphone lie.
pub fn fx_path(guid: &str) -> (s: String)
    ensures
        s@ == "SOFTWARE\\Microsoft\\Windows\\CurrentVersion\\MMDevices\\Audio\\Capture\\"@ + guid@ + "\\FxProperties"@,
{
    joined3("SOFTWARE\\Microsoft\\Windows\\CurrentVersion\\MMDevices\\Audio\\Capture\\", guid, "\\FxProperties")
}

/// Where the filter is entered for COM and for the audio system.
pub fn class_paths(clsid: &str) -> (r: (String, String))
    ensures
        r.0@ == "SOFTWARE\\Classes\\CLSID\\"@ + clsid@,
        r.1@ == "SOFTWARE\\Classes\\AudioEngine\\AudioProcessingObjects\\"@ + clsid@,
{
    (
        joined2("SOFTWARE\\Classes\\CLSID\\", clsid),
        joined2("SOFTWARE\\Classes\\AudioEngine\\AudioProcessingObjects\\", clsid),
    )
}

/// Whether a filter is still entered: there is a saved microphone. `backups` are the saved
/// ones, `None` where there is nothing at all.
pub fn any_installed(backups: &Option<Vec<String>>) -> (r: bool)
    ensures
        r == (*backups matches Some(list) && list@.len() > 0),
{
    match backups {
        Some(list) => list.len() > 0,
        None => false,
    }
}

/// What came of starting the program with administrator rights.
#[derive(Clone, Copy, Debug, PartialEq, Eq, Structural)]
pub enum Elevation {
    /// There is no such thing here.
    NotWindows,
    /// The rights were not granted.
    Refused,
    /// It ran and ended with this code.
    Ended(u32),
}

/// What is made of it.
pub fn run_elevated(outcome: Elevation) -> (r: Result<(), String>)
    ensures
        r is Ok <==> outcome == Elevation::Ended(0),
        r matches Err(e) ==> e@ == (match outcome {
            Elevation::NotWindows => "Nur unter Windows"@,
            Elevation::Refused => "Adminrechte wurden nicht erteilt."@,
            Elevation::Ended(code) => "Einrichten fehlgeschlagen (Code "@ + decimal(code as nat)
                + "), Details in der Log-Datei."@,
        }),
{
    match outcome {
        Elevation::NotWindows => Err("Nur unter Windows".to_string()),
        Elevation::Refused => Err("Adminrechte wurden nicht erteilt.".to_string()),
        Elevation::Ended(code) => {
            if code == 0 {
                Ok(())
            } else {
                Err(
                    joined3(
                        "Einrichten fehlgeschlagen (Code ",
                        number(code as u64).as_str(),
                        "), Details in der Log-Datei.",
                    ),
                )
            }
        },
    }
}

/// What the command line asks for.
#[derive(Clone, Copy, Debug, PartialEq, Eq, Structural)]
pub enum Task {
    /// Take every filter out, with administrator rights.
    UninstallAll,
    /// Start oneself with administrator rights for it.
    Elevate,
    /// Nothing is entered, so nothing is to be done.
    Nothing,
}

/// The arguments are these two.
pub open spec fn are(args: Seq<String>, first: Seq<char>, second: Seq<char>) -> bool {
    args.len() == 2 && args[0]@ == first && args[1]@ == second
}

/// What the arguments ask for, if it is about the filter. The uninstaller asks for rights only
/// if something is entered.
pub fn handle_command_line(windows: bool, args: &Vec<String>, installed: bool) -> (task: Option<Task>)
    ensures
        task == if windows && are(args@, "--apo"@, "uninstall-all"@) {
            Some(Task::UninstallAll)
        } else if windows && are(args@, "--apo-elevate"@, "uninstall-all"@) {
            if installed {
                Some(Task::Elevate)
            } else {
                Some(Task::Nothing)
            }
        } else {
            None::<Task>
        },
{
    if !windows || args.len() != 2 || !same(args[1].as_str(), "uninstall-all") {
        return None;
    }
    if same(args[0].as_str(), "--apo") {
        return Some(Task::UninstallAll);
    }
    if !same(args[0].as_str(), "--apo-elevate") {
        return None;
    }
    if installed {
        Some(Task::Elevate)
    } else {
        Some(Task::Nothing)
    }
}

/// The arguments for the start with administrator rights.
pub fn elevated_args() -> (r: &'static str)
    ensures
        r@ == "--apo uninstall-all"@,
{
    "--apo uninstall-all"
}

/// The code that the program ends with.
pub fn exit_code(result: &Result<(), String>) -> (code: i32)
    ensures
        code == if result is Ok {
            0
        } else {
            1int
        },
{
    match result {
        Ok(_) => 0,
        Err(_) => 1,
    }
}

/// A saved registry value: its kind and its bytes.
pub struct Saved {
    pub kind: u32,
    pub data: Vec<u8>,
}

/// What is to be done with a value of the microphone.
pub enum Restore {
    /// It is written back.
    Write(Saved),
    /// There was none: it is deleted.
    Delete,
}

/// What is to be done with a value, from what was saved of it.
pub fn restore(saved: Option<Saved>) -> (r: Restore)
    ensures
        (match (saved, r) {
            (Some(s), Restore::Write(w)) => w == s,
            (None, Restore::Delete) => true,
            _ => false,
        }),
{
    match saved {
        Some(s) => Restore::Write(s),
        None => Restore::Delete,
    }
}

/// The first failure of the two counts: the work, then starting the audio service again, which
/// is done even if the work failed.
pub open spec fn first_failure(work: Result<(), String>, started: Result<(), String>) -> Result<(), String> {
    match work {
        Ok(_) => started,
        Err(e) => Err(e),
    }
}

/// What came of work while the audio service was stopped.
pub fn with_audio_stopped(work: Result<(), String>, started: Result<(), String>) -> (r: Result<(), String>)
    ensures
        r == first_failure(work, started),
{
    match work {
        Ok(_) => started,
        Err(e) => Err(e),
    }
}

/// How long waiting for a service goes on.
#[derive(Clone, Copy, Debug, PartialEq, Eq, Structural)]
pub enum Waiting {
    Reached,
    TimedOut,
    GoOn,
}

/// A look at a service that is to get into the state `wanted`, after `waited`.
pub fn wait_for(waited: u64, state: u32, wanted: u32) -> (w: Waiting)
    ensures
        w == if waited >= SERVICE_TIMEOUT {
            Waiting::TimedOut
        } else if state == wanted {
            Waiting::Reached
        } else {
            Waiting::GoOn
        },
{
    if waited >= SERVICE_TIMEOUT {
        Waiting::TimedOut
    } else if state == wanted {
        Waiting::Reached
    } else {
        Waiting::GoOn
    }
}

/// Whether the service stopped.
pub fn stopped(reached: bool) -> (r: Result<(), String>)
    ensures
        r is Ok <==> reached,
        r matches Err(e) ==> e@ == "Audiodienst lässt sich nicht anhalten"@,
{
    if reached {
        Ok(())
    } else {
        Err("Audiodienst lässt sich nicht anhalten".to_string())
    }
}

/// Whether the service started again.
pub fn started(reached: bool) -> (r: Result<(), String>)
    ensures
        r is Ok <==> reached,
        r matches Err(e) ==> e@ == "Audiodienst startet nicht wieder"@,
{
    if reached {
        Ok(())
    } else {
        Err("Audiodienst startet nicht wieder".to_string())
    }
}

/// What is said of a registry key that cannot be opened.
pub fn key_error(path: &str, status: u32) -> (s: String)
    ensures
        s@ == "Registry "@ + path@ + ": Fehler "@ + decimal(status as nat),
{
    joined2(joined3("Registry ", path, ": Fehler ").as_str(), number(status as u64).as_str())
}

/// What is said of a registry value that cannot be written.
pub fn value_error(name: &str, status: u32) -> (s: String)
    ensures
        s@ == "Registry-Wert "@ + name@ + ": Fehler "@ + decimal(status as nat),
{
    joined2(joined3("Registry-Wert ", name, ": Fehler ").as_str(), number(status as u64).as_str())
}

/// A failed work is reported, whatever became of the service; one that went well is only as
/// good as the service's restart.
pub proof fn law_work_counts_first(work: Result<(), String>, started: Result<(), String>)
    ensures
        work is Err ==> first_failure(work, started) == work,
        first_failure(work, started) is Ok <==> work is Ok && started is Ok,
{
}

/// What the command line asks for: taking out at once, or with rights only where something is
/// entered; anything else, and everything outside of Windows, is not about the filter.
pub proof fn law_what_the_command_line_asks(windows: bool, args: &Vec<String>, installed: bool, task: Option<Task>)
    requires
        call_ensures(handle_command_line, (windows, args, installed), task),
    ensures
        !windows || args@.len() != 2 ==> task is None,
        args@.len() == 2 && args@[1]@ != "uninstall-all"@ ==> task is None,
        windows && args@.len() == 2 && args@[1]@ == "uninstall-all"@ && args@[0]@ == "--apo"@ ==> task == Some(
            Task::UninstallAll,
        ),
        windows && args@.len() == 2 && args@[1]@ == "uninstall-all"@ && args@[0]@ == "--apo-elevate"@ ==> task == (if installed {
            Some(Task::Elevate)
        } else {
            Some(Task::Nothing)
        }),
{
    reveal_strlit("--apo");
    reveal_strlit("--apo-elevate");
    assert("--apo"@.len() != "--apo-elevate"@.len());
}

/// A service is waited for 15 s at the most, and no longer than until it is there.
pub proof fn law_service_is_waited_for(waited: u64, state: u32, wanted: u32, w: Waiting)
    requires
        call_ensures(wait_for, (waited, state, wanted), w),
    ensures
        waited >= 15_000_000_000 ==> w == Waiting::TimedOut,
        waited < 15_000_000_000 ==> (w == Waiting::Reached <==> state == wanted) && (w == Waiting::GoOn <==> state != wanted),
{
}

/// Something is still entered exactly where a microphone is saved; taking it out with rights went
/// well exactly with the code 0, which is that of success.
pub proof fn law_when_something_is_entered(
    backups: &Option<Vec<String>>,
    r: bool,
    outcome: Elevation,
    ran: Result<(), String>,
    code: i32,
)
    requires
        call_ensures(any_installed, (backups,), r),
        call_ensures(run_elevated, (outcome,), ran),
        call_ensures(exit_code, (&ran,), code),
    ensures
        r <==> (*backups matches Some(list) && list@.len() > 0),
        code == 0 <==> (outcome matches Elevation::Ended(n) && n == 0),
        code != 0 ==> code == 1,
{
}

} // verus!
