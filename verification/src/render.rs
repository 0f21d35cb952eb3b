//! The fixed console-line layout:
//! `[DATE TIME.NANOS] TARGET <MODULE> - LEVEL: MESSAGE`.

use vstd::prelude::*;
use vstd::string::StringExecFns;

use crate::clock::UtcTimestamp;
use crate::level::Level;
use crate::level::level_text;
use crate::record::LogRecord;
use crate::text::dec_text;
use crate::text::pad2_text;
use crate::text::push_dec_u32;
use crate::text::push_pad2;
use crate::text::push_year;
use crate::text::year_text;

verus! {

/// The date part of the console line: `YEAR-MONTH-DAY`, month and day
/// zero-padded to two digits.
pub open spec fn date_text(ts: UtcTimestamp) -> Seq<char> {
    year_text(ts.year as int) + seq!['-'] + pad2_text(ts.month as nat) + seq!['-'] + pad2_text(
        ts.day as nat,
    )
}

/// The time part of the console line: `HOUR:MINUTE:SECOND`, each zero-padded
/// to two digits.
pub open spec fn time_text(ts: UtcTimestamp) -> Seq<char> {
    pad2_text(ts.hour as nat) + seq![':'] + pad2_text(ts.minute as nat) + seq![':'] + pad2_text(
        ts.second as nat,
    )
}

/// The whole console line for one record at one clock reading:
/// `[DATE TIME.NANOS] TARGET <MODULE> - LEVEL: MESSAGE`. The nanosecond
/// count is printed unpadded.
pub open spec fn console_line_text(
    ts: UtcTimestamp,
    target: Seq<char>,
    module: Seq<char>,
    level: Level,
    message: Seq<char>,
) -> Seq<char> {
    seq!['['] + date_text(ts) + seq![' '] + time_text(ts) + seq!['.'] + dec_text(ts.nanos as nat)
        + seq![']', ' '] + target + seq![' ', '<'] + module + seq!['>', ' ', '-', ' '] + level_text(
        level,
    ) + seq![':', ' '] + message
}

/// Appends the date part, `YEAR-MONTH-DAY`, to `out`.
fn push_date(out: &mut String, ts: &UtcTimestamp)
    requires
        ts.year > i32::MIN,
    ensures
        final(out)@ == old(out)@ + date_text(*ts),
{
    push_year(out, ts.year);
    out.append("-");
    push_pad2(out, ts.month);
    out.append("-");
    push_pad2(out, ts.day);
    proof {
        reveal_strlit("-");
        assert(out@ =~= old(out)@ + date_text(*ts));
    }
}

/// Appends the time part, `HOUR:MINUTE:SECOND`, to `out`.
fn push_time(out: &mut String, ts: &UtcTimestamp)
    ensures
        final(out)@ == old(out)@ + time_text(*ts),
{
    push_pad2(out, ts.hour);
    out.append(":");
    push_pad2(out, ts.minute);
    out.append(":");
    push_pad2(out, ts.second);
    proof {
        reveal_strlit(":");
        assert(out@ =~= old(out)@ + time_text(*ts));
    }
}

/// Renders the console line for `record` at the clock reading `ts`.
#[verifier::rlimit(50)]
pub fn format_console_line(ts: &UtcTimestamp, record: &LogRecord) -> (r: String)
    requires
        ts.wf(),
        record.module is Some,
    ensures
        r@ == console_line_text(
            *ts,
            record.target@,
            record.module->0@,
            record.level,
            record.message@,
        ),
{
    let mut out = String::new();
    out.append("[");
    push_date(&mut out, ts);
    out.append(" ");
    push_time(&mut out, ts);
    out.append(".");
    push_dec_u32(&mut out, ts.nanos);
    out.append("] ");
    out.append(record.target.as_str());
    out.append(" <");
    let module = record.module.as_ref().unwrap();
    out.append(module.as_str());
    out.append("> - ");
    out.append(record.level.name());
    out.append(": ");
    out.append(record.message.as_str());
    proof {
        reveal_strlit("[");
        reveal_strlit(" ");
        reveal_strlit(".");
        reveal_strlit("] ");
        reveal_strlit(" <");
        reveal_strlit("> - ");
        reveal_strlit(": ");
        assert(out@ =~= console_line_text(
            *ts,
            record.target@,
            record.module->0@,
            record.level,
            record.message@,
        ));
    }
    out
}

} // verus!
