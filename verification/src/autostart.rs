//! Starting with Windows, by an entry of the user in the registry.

use vstd::prelude::*;

use crate::text::number;
use crate::text::decimal;
use crate::text::same_but_case;
use crate::text::same_ignoring_case;
use crate::wide::law_zero_ends_the_text;
use crate::wide::lossy;
use crate::wide::text_from;
use crate::wide::utf16;
use crate::wide::wide;
use crate::wide::without_zero;
use crate::wide::zero_at;

verus! {

pub fn run_key() -> (r: &'static str)
    ensures
        r@ == "Software\\Microsoft\\Windows\\CurrentVersion\\Run"@,
{
    "Software\\Microsoft\\Windows\\CurrentVersion\\Run"
}

pub fn value_name() -> (r: &'static str)
    ensures
        r@ == "Laermampel"@,
{
    "Laermampel"
}

/// How many units a buffer for a value of so many bytes has: room for a closing zero too.
pub fn buffer_units(bytes: u32) -> (n: usize)
    ensures
        n == bytes / 2 + 1,
{
    (bytes / 2) as usize + 1
}

/// The units of a stored text: those before the first zero.
pub fn stored_units(buffer: &Vec<u16>) -> (units: Vec<u16>)
    ensures
        units@.is_prefix_of(buffer@),
        forall|i: int| 0 <= i < units@.len() ==> units@[i] != 0,
        units@.len() < buffer@.len() ==> buffer@[units@.len() as int] == 0,
{
    let end = zero_at(buffer);
    let mut units: Vec<u16> = Vec::new();
    let mut i: usize = 0;
    while i < end
        invariant
            i <= end <= buffer@.len(),
            units@ == buffer@.take(i as int),
        decreases end - i,
    {
        units.push(buffer[i]);
        assert(units@ =~= buffer@.take(i + 1));
        i = i + 1;
    }
    units
}

/// What is stored: the text before the first zero.
pub fn stored_command(buffer: &Vec<u16>) -> (s: String)
    ensures
        forall|text: Seq<char>|
            without_zero(text) && #[trigger] utf16(text).push(0).is_prefix_of(buffer@) ==> s@ == text,
        exists|end: int| #![trigger buffer@.take(end)]
            0 <= end <= buffer@.len() && s@ == lossy(buffer@.take(end)) && (forall|i: int|
                0 <= i < end ==> buffer@[i] != 0) && (end < buffer@.len() ==> buffer@[end] == 0),
{
    let units = stored_units(buffer);
    let s = text_from(&units);
    proof {
        let end = units@.len() as int;
        assert(buffer@.take(end) =~= units@);
        assert forall|i: int| 0 <= i < end implies buffer@[i] != 0 by {
            assert(units@[i] == buffer@[i]);
        }
        assert forall|text: Seq<char>|
            without_zero(text) && #[trigger] utf16(text).push(0).is_prefix_of(buffer@) implies s@ == text by {
            law_zero_ends_the_text(text);
            let n = utf16(text).len() as int;
            let stored = utf16(text).push(0);
            assert(stored[n] == buffer@[n]);
            assert(forall|i: int| 0 <= i < n ==> stored[i] == buffer@[i]);
            if end < n {
                assert(stored[end] == buffer@[end]);
                assert(stored[end] == utf16(text)[end]);
            }
            if n < end {
                assert(units@[n] == buffer@[n]);
            }
            assert(units@ =~= utf16(text));
        }
    }
    s
}

/// The command that this program enters: its own path in quotes.
pub open spec fn quoted(path: Seq<char>) -> Seq<char> {
    "\""@ + path + "\""@
}

/// The command that this program enters.
pub fn own_command(path: &str) -> (s: String)
    ensures
        s@ == quoted(path@),
{
    let mut s = String::new();
    s.append("\"");
    s.append(path);
    s.append("\"");
    assert(s@ =~= quoted(path@));
    s
}

/// The entry is there and starts this program. One for another file does not count; if one's
/// own path is unknown, any does.
pub open spec fn starts_us(stored: Option<String>, own: Option<String>) -> bool {
    match (stored, own) {
        (Some(s), Some(o)) => same_but_case(s@, o@),
        (Some(_), None) => true,
        _ => false,
    }
}

/// Whether the program starts with Windows: what the registry says, and what it would say.
pub fn is_enabled(stored: &Option<String>, own: &Option<String>) -> (r: bool)
    ensures
        r == starts_us(*stored, *own),
{
    match (stored, own) {
        (Some(s), Some(o)) => same_ignoring_case(s.as_str(), o.as_str()),
        (Some(_), None) => true,
        _ => false,
    }
}

/// What is to be done in the registry.
pub enum Change {
    /// These units are written, the closing zero among them.
    Write(Vec<u16>),
    Delete,
}

/// Switches starting with Windows on or off. `own` is the command that starts this program.
pub fn set_enabled(windows: bool, enabled: bool, own: &Option<String>) -> (r: Result<Change, String>)
    ensures
        (match r {
            Ok(Change::Write(units)) => windows && enabled && (*own matches Some(o) && units@ == utf16(o@).push(0)),
            Ok(Change::Delete) => windows && !enabled,
            Err(e) => (!windows && e@ == "Autostart gibt es bisher nur unter Windows"@) || (windows && enabled && own is None
                && e@ == "Eigener Pfad ist unbekannt"@),
        }),
{
    if !windows {
        return Err("Autostart gibt es bisher nur unter Windows".to_string());
    }
    if !enabled {
        return Ok(Change::Delete);
    }
    match own {
        Some(o) => Ok(Change::Write(wide(o.as_str()))),
        None => Err("Eigener Pfad ist unbekannt".to_string()),
    }
}

/// What came of the change: zero is success.
pub fn changed(status: u32) -> (r: Result<(), String>)
    ensures
        r is Ok <==> status == 0,
        r matches Err(e) ==> e@ == "Autostart konnte nicht geändert werden (Fehler "@ + decimal(status as nat) + ")"@,
{
    if status == 0 {
        return Ok(());
    }
    let mut e = String::new();
    e.append("Autostart konnte nicht geändert werden (Fehler ");
    e.append(number(status as u64).as_str());
    e.append(")");
    assert(e@ =~= "Autostart konnte nicht geändert werden (Fehler "@ + decimal(status as nat) + ")"@);
    Err(e)
}

/// What was entered is recognised again: a command that comes back from the registry as it was
/// written starts this program.
pub proof fn law_own_entry_counts(own: String, buffer: Seq<u16>, stored: String)
    requires
        without_zero(own@),
        buffer == utf16(own@).push(0),
        forall|text: Seq<char>|
            without_zero(text) && #[trigger] utf16(text).push(0).is_prefix_of(buffer) ==> stored@ == text,
    ensures
        starts_us(Some(stored), Some(own)),
{
    assert(utf16(own@).push(0).is_prefix_of(buffer));
}

/// What stands in the registry after a change: what was there before where it failed.
pub open spec fn entry_after(before: Option<Seq<u16>>, change: Change, status: u32) -> Option<Seq<u16>> {
    if status != 0 {
        before
    } else {
        match change {
            Change::Write(units) => Some(units@),
            Change::Delete => None,
        }
    }
}

/// What is read of an entry is what stands before its first zero.
pub open spec fn reads(entry: Option<Seq<u16>>, stored: Option<String>) -> bool {
    match (entry, stored) {
        (Some(units), Some(s)) => forall|text: Seq<char>|
            without_zero(text) && #[trigger] utf16(text).push(0).is_prefix_of(units) ==> s@ == text,
        (None, None) => true,
        _ => false,
    }
}

/// Once starting with Windows was switched on or off, that is how it is read again; a change that
/// failed leaves the entry as it was.
pub proof fn law_switch_takes_effect(
    before: Option<Seq<u16>>,
    change: Change,
    status: u32,
    enabled: bool,
    own: String,
    stored: Option<String>,
)
    requires
        without_zero(own@),
        change is Write <==> enabled,
        change matches Change::Write(units) ==> units@ == utf16(own@).push(0),
        reads(entry_after(before, change, status), stored),
    ensures
        status == 0 ==> starts_us(stored, Some(own)) == enabled,
        status != 0 ==> entry_after(before, change, status) == before,
{
    if status == 0 && enabled {
        assert(utf16(own@).push(0).is_prefix_of(entry_after(before, change, status)->0));
    }
}

/// What is entered is the own path in quotes, with the closing zero; switching off deletes it. It
/// fails only outside of Windows, or where the own path is not known.
pub proof fn law_what_is_entered(
    windows: bool,
    enabled: bool,
    path: &str,
    own: String,
    r: Result<Change, String>,
    none: Result<Change, String>,
)
    requires
        call_ensures(own_command, (path,), own),
        call_ensures(set_enabled, (windows, enabled, &Some(own)), r),
        call_ensures(set_enabled, (windows, enabled, &None::<String>), none),
    ensures
        own@.len() == path@.len() + 2 && own@[0] == '"' && own@[own@.len() - 1] == '"',
        own@.subrange(1, own@.len() - 1) == path@,
        r is Ok <==> windows,
        windows && enabled ==> (r matches Ok(Change::Write(units)) && units@ == utf16(own@).push(0)),
        windows && !enabled ==> (r matches Ok(Change::Delete)),
        none is Ok <==> windows && !enabled,
{
    reveal_strlit("\"");
    assert(own@.subrange(1, own@.len() - 1) =~= path@);
}

/// The entry counts whatever the case of its letters, and one for another file does not; where the
/// own path is not known, any entry does.
pub proof fn law_entry_of_another_file_does_not_count(stored: &Option<String>, own: &Option<String>, r: bool)
    requires
        call_ensures(is_enabled, (stored, own), r),
    ensures
        *stored is None ==> !r,
        *stored is Some && *own is None ==> r,
        *stored is Some && *own is Some && stored->0@ == own->0@ ==> r,
        *stored is Some && *own is Some && stored->0@.len() != own->0@.len() ==> !r,
{
}

} // verus!
