//! Only one program at a time. A second start opens the settings of the running one instead.

use vstd::prelude::*;

use crate::text::same;

verus! {

/// After an update the new version waits so long for the old one to end: 30 s.
pub const UPDATE_WAIT: u64 = 30_000_000_000;

pub fn mutex_name() -> (r: &'static str)
    ensures
        r@ == "Local\\Laermampel.Instanz"@,
{
    "Local\\Laermampel.Instanz"
}

pub fn event_name() -> (r: &'static str)
    ensures
        r@ == "Local\\Laermampel.Anzeigen"@,
{
    "Local\\Laermampel.Anzeigen"
}

/// One of the arguments is this.
pub open spec fn has(args: Seq<String>, arg: Seq<char>) -> bool {
    exists|i: int| 0 <= i < args.len() && #[trigger] args[i]@ == arg
}

/// How long to wait for an old instance: only when started after an update.
pub fn wait_for(args: &Vec<String>) -> (wait: u64)
    ensures
        wait == if has(args@, "--nach-update"@) {
            UPDATE_WAIT
        } else {
            0
        },
{
    let mut i: usize = 0;
    while i < args.len()
        invariant
            i <= args@.len(),
            forall|j: int| 0 <= j < i ==> #[trigger] args@[j]@ != "--nach-update"@,
        decreases args@.len() - i,
    {
        if same(args[i].as_str(), "--nach-update") {
            assert(args@[i as int]@ == "--nach-update"@);
            return UPDATE_WAIT;
        }
        i = i + 1;
    }
    0
}

/// What comes of an attempt to be the only one.
#[derive(Clone, Copy, Debug, PartialEq, Eq, Structural)]
pub enum Attempt {
    /// It is ours.
    Alone,
    /// The other one is told to show itself, and this one ends.
    GiveUp,
    /// Once more in a moment.
    Again,
}

/// An attempt: `taken` if another one is running, tried for `tried` so far.
pub fn acquire(taken: bool, tried: u64, wait: u64) -> (a: Attempt)
    ensures
        a == if !taken {
            Attempt::Alone
        } else if tried >= wait {
            Attempt::GiveUp
        } else {
            Attempt::Again
        },
{
    if !taken {
        Attempt::Alone
    } else if tried >= wait {
        Attempt::GiveUp
    } else {
        Attempt::Again
    }
}

/// A request to show oneself is there: the event exists and was set.
pub fn show_requested(event: bool, signalled: bool) -> (r: bool)
    ensures
        r == (event && signalled),
{
    event && signalled
}

/// Only one program runs: the place is ours exactly where nobody has it. Else it is tried again only
/// within the time to wait, which is 30 s after an update and none otherwise.
pub proof fn law_only_one_runs(args: &Vec<String>, wait: u64, taken: bool, tried: u64, a: Attempt, i: int)
    requires
        call_ensures(wait_for, (args,), wait),
        call_ensures(acquire, (taken, tried, wait), a),
    ensures
        a == Attempt::Alone <==> !taken,
        0 <= i < args@.len() && args@[i]@ == "--nach-update"@ ==> wait == 30_000_000_000,
        (forall|j: int| 0 <= j < args@.len() ==> #[trigger] args@[j]@ != "--nach-update"@) ==> wait == 0,
        taken && tried < wait ==> a == Attempt::Again,
        taken && tried >= wait ==> a == Attempt::GiveUp,
{
}

} // verus!
