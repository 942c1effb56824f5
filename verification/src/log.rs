//! The lines of the log file.

use vstd::prelude::*;

use crate::text::lemma_two_digits;
use crate::text::padded;
use crate::text::two_digits;
use crate::text::value_of;

verus! {

/// A file larger than this is begun anew at the next start.
pub const MAX_BYTES: u64 = 524_288;

/// Whether the file is begun anew; one that is not there has no length.
pub fn too_big(length: Option<u64>) -> (r: bool)
    ensures
        r == (length matches Some(n) && n > MAX_BYTES),
{
    match length {
        Some(n) => n > MAX_BYTES,
        None => false,
    }
}

/// The time of day of a moment, in seconds since 1970, in UTC.
pub open spec fn time_of_day(seconds: nat) -> Seq<char> {
    two_digits((seconds / 3600) % 24) + ":"@ + two_digits((seconds / 60) % 60) + ":"@ + two_digits(seconds % 60)
}

/// The line for a message.
pub fn write(seconds: u64, message: &str) -> (line: String)
    ensures
        line@ == time_of_day(seconds as nat) + " UTC  "@ + message@ + "\n"@,
{
    let mut line = padded((seconds / 3600) % 24);
    line.append(":");
    line.append(padded((seconds / 60) % 60).as_str());
    line.append(":");
    line.append(padded(seconds % 60).as_str());
    line.append(" UTC  ");
    line.append(message);
    line.append("\n");
    assert(line@ =~= time_of_day(seconds as nat) + " UTC  "@ + message@ + "\n"@);
    line
}

/// The log is begun anew beyond 512 KiB only.
pub proof fn law_log_stays_small(length: Option<u64>, r: bool)
    requires
        call_ensures(too_big, (length,), r),
    ensures
        r <==> (length matches Some(n) && n > 512 * 1024),
{
}

/// A line begins with the hours, minutes and seconds of the day, two digits each, and ends with the
/// message.
pub proof fn law_line_begins_with_the_time(seconds: u64, message: &str, line: String)
    requires
        call_ensures(write, (seconds, message), line),
    ensures
        value_of(line@.subrange(0, 2)) * 3600 + value_of(line@.subrange(3, 5)) * 60 + value_of(line@.subrange(6, 8))
            == seconds % 86_400,
        (" UTC  "@ + message@ + "\n"@).is_suffix_of(line@),
{
    let s = seconds as nat;
    let (h, m, t) = ((s / 3600) % 24, (s / 60) % 60, s % 60);
    lemma_two_digits(h);
    lemma_two_digits(m);
    lemma_two_digits(t);
    reveal_strlit(":");
    assert(line@.subrange(0, 2) =~= two_digits(h));
    assert(line@.subrange(3, 5) =~= two_digits(m));
    assert(line@.subrange(6, 8) =~= two_digits(t));
    assert(h * 3600 + m * 60 + t == s % 86_400);
    let tail = " UTC  "@ + message@ + "\n"@;
    assert(tail =~= line@.subrange(line@.len() - tail.len(), line@.len() as int));
}

} // verus!
