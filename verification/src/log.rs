//! The lines of the log.
use crate::text;
use crate::text::push_padded;
use vstd::prelude::*;
use vstd::string::*;

verus! {

/// The directory of the log.
pub const LOG_DIR: &'static str = "C:\\windows\\logs";

/// The file of the log.
pub const LOG_FILE: &'static str = "C:\\windows\\logs\\xbridge.log";

/// A point in time, in UTC.
pub struct SystemTime {
    pub year: u16,
    pub month: u16,
    pub day: u16,
    pub hour: u16,
    pub minute: u16,
    pub second: u16,
}

/// A point in time as the log shows it.
pub open spec fn stamp(t: SystemTime) -> Seq<char> {
    text::padded(t.year as nat, 4) + "-"@ + text::padded(t.month as nat, 2) + "-"@ + text::padded(
        t.day as nat,
        2,
    ) + " "@ + text::padded(t.hour as nat, 2) + ":"@ + text::padded(t.minute as nat, 2) + ":"@
        + text::padded(t.second as nat, 2)
}

/// The log shows a point in time by its six numbers, in order of size, with the year filled
/// up to four digits and the others to two.
pub proof fn stamps_show_the_time(t: SystemTime)
    requires
        t.year < 10_000,
        t.month < 100,
        t.day < 100,
        t.hour < 100,
        t.minute < 100,
        t.second < 100,
    ensures
        stamp(t).len() == 19,
        text::value_of(stamp(t).subrange(0, 4)) == t.year,
        text::value_of(stamp(t).subrange(5, 7)) == t.month,
        text::value_of(stamp(t).subrange(8, 10)) == t.day,
        text::value_of(stamp(t).subrange(11, 13)) == t.hour,
        text::value_of(stamp(t).subrange(14, 16)) == t.minute,
        text::value_of(stamp(t).subrange(17, 19)) == t.second,
        stamp(t)[4] == '-' && stamp(t)[7] == '-' && stamp(t)[10] == ' ' && stamp(t)[13] == ':'
            && stamp(t)[16] == ':',
{
    reveal_strlit("-");
    reveal_strlit(" ");
    reveal_strlit(":");
    lemma_width(t.year as nat, 4);
    lemma_width(t.month as nat, 2);
    lemma_width(t.day as nat, 2);
    lemma_width(t.hour as nat, 2);
    lemma_width(t.minute as nat, 2);
    lemma_width(t.second as nat, 2);
    let shown = stamp(t);
    assert(shown.subrange(0, 4) =~= text::padded(t.year as nat, 4));
    assert(shown.subrange(5, 7) =~= text::padded(t.month as nat, 2));
    assert(shown.subrange(8, 10) =~= text::padded(t.day as nat, 2));
    assert(shown.subrange(11, 13) =~= text::padded(t.hour as nat, 2));
    assert(shown.subrange(14, 16) =~= text::padded(t.minute as nat, 2));
    assert(shown.subrange(17, 19) =~= text::padded(t.second as nat, 2));
}

/// A number that is wider than its place is shown in full all the same.
pub proof fn stamp_shows_each_number_in_full(t: SystemTime)
    ensures
        stamp(t) == text::padded(t.year as nat, 4) + "-"@ + text::padded(t.month as nat, 2) + "-"@
            + text::padded(t.day as nat, 2) + " "@ + text::padded(t.hour as nat, 2) + ":"@
            + text::padded(t.minute as nat, 2) + ":"@ + text::padded(t.second as nat, 2),
{
}

proof fn lemma_width(n: nat, width: nat)
    requires
        width == 4 && n < 10_000 || width == 2 && n < 100,
    ensures
        text::padded(n, width).len() == width,
        text::value_of(text::padded(n, width)) == n,
{
    reveal_with_fuel(text::decimal, 5);
    text::padding_keeps_the_number(n, width);
}

/// A point in time as the log shows it.
pub fn timestamp(t: &SystemTime) -> (r: String)
    ensures
        r@ == stamp(*t),
{
    let mut out = String::new();
    push_padded(&mut out, t.year as u64, 4);
    assert(out@ =~= text::padded(t.year as nat, 4));
    out.append("-");
    push_padded(&mut out, t.month as u64, 2);
    out.append("-");
    push_padded(&mut out, t.day as u64, 2);
    out.append(" ");
    push_padded(&mut out, t.hour as u64, 2);
    out.append(":");
    push_padded(&mut out, t.minute as u64, 2);
    out.append(":");
    push_padded(&mut out, t.second as u64, 2);
    out
}

/// The line that records a message.
pub fn write(t: &SystemTime, msg: &str) -> (r: String)
    ensures
        r@ == "["@ + stamp(*t) + "] "@ + msg@ + "\n"@,
{
    let mut line: String = "[".to_owned();
    line.append(timestamp(t).as_str());
    line.append("] ");
    line.append(msg);
    line.append("\n");
    line
}

} // verus!
