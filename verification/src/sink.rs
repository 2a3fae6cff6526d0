//! The file sink's stable wire format: one fixed-column text line per entry,
//! appended to a file named from the calendar date and the severity. The
//! line and path are computed here, exactly; the clock readings come from a
//! trusted wrapper over the date-time library, and the actual append is done
//! by whoever runs the worker loop.

use vstd::prelude::*;

use crate::dispatcher::LogData;
use crate::level::{level_name, Level};

verus! {

/// `n` spaces.
pub open spec fn spaces(n: nat) -> Seq<char> {
    Seq::new(n, |i: int| ' ')
}

/// `s` padded on the right with spaces to width `w`; a longer `s` is kept
/// whole, never truncated.
pub open spec fn padded(s: Seq<char>, w: nat) -> Seq<char> {
    if s.len() >= w {
        s
    } else {
        s + spaces((w - s.len()) as nat)
    }
}

/// The character of one decimal digit.
pub open spec fn digit_char(d: nat) -> char {
    ((d + 48) as u8) as char
}

/// The decimal rendering of a number, most significant digit first.
pub open spec fn dec_digits(n: nat) -> Seq<char>
    decreases n,
{
    if n < 10 {
        seq![digit_char(n)]
    } else {
        dec_digits(n / 10).push(digit_char(n % 10))
    }
}

/// The persisted line for one entry: severity, source, message, date-time
/// and worker identity, each in its own fixed-width bracketed column.
pub open spec fn spec_file_line(
    level: Level,
    source: Seq<char>,
    args: Seq<char>,
    timestamp: Seq<char>,
    worker: nat,
) -> Seq<char> {
    "["@ + level_name(level) + "] - ["@ + padded(source, 60) + "] - ["@ + padded(args, 30)
        + "] - ["@ + padded(timestamp, 19) + "] - ["@ + dec_digits(worker) + "]"@
}

/// The file that holds a day's entries of one severity.
pub open spec fn spec_log_path(date: Seq<char>, level: Level) -> Seq<char> {
    date + "_"@ + level_name(level) + ".log"@
}

/// The lines of a log file joined with single newlines, as the read-back
/// interface presents them.
pub open spec fn joined_lines(ls: Seq<Seq<char>>) -> Seq<char>
    decreases ls.len(),
{
    if ls.len() == 0 {
        Seq::<char>::empty()
    } else if ls.len() == 1 {
        ls[0]
    } else {
        joined_lines(ls.drop_last()) + "\n"@ + ls.last()
    }
}

/// Pads `s` on the right with spaces to width `width`.
pub fn pad_right(s: &str, width: usize) -> (r: String)
    ensures
        r@ == padded(s@, width as nat),
{
    proof {
        reveal_strlit(" ");
    }
    let mut out = s.to_owned();
    let len0 = s.unicode_len();
    if len0 >= width {
        return out;
    }
    let mut i: usize = len0;
    while i < width
        invariant
            len0 == s@.len(),
            len0 <= i <= width,
            out@ == s@ + spaces((i - len0) as nat),
            " "@ == seq![' '],
        decreases width - i,
    {
        out.append(" ");
        i += 1;
        proof {
            assert(out@ =~= s@ + spaces((i - len0) as nat));
        }
    }
    proof {
        assert(out@ =~= padded(s@, width as nat));
    }
    out
}

/// The one-character string of a decimal digit.
fn digit_str(d: u64) -> (r: &'static str)
    requires
        d < 10,
    ensures
        r@ == seq![digit_char(d as nat)],
{
    proof {
        reveal_strlit("0");
        reveal_strlit("1");
        reveal_strlit("2");
        reveal_strlit("3");
        reveal_strlit("4");
        reveal_strlit("5");
        reveal_strlit("6");
        reveal_strlit("7");
        reveal_strlit("8");
        reveal_strlit("9");
    }
    match d {
        0 => "0",
        1 => "1",
        2 => "2",
        3 => "3",
        4 => "4",
        5 => "5",
        6 => "6",
        7 => "7",
        8 => "8",
        _ => "9",
    }
}

/// Renders a number in decimal.
pub fn u64_to_dec_string(n: u64) -> (r: String)
    ensures
        r@ == dec_digits(n as nat),
    decreases n,
{
    if n < 10 {
        digit_str(n).to_owned()
    } else {
        let rest = u64_to_dec_string(n / 10);
        let r = rest.concat(digit_str(n % 10));
        proof {
            assert(r@ =~= dec_digits(n as nat));
        }
        r
    }
}

/// Renders the persisted line for one entry.
pub fn render_file_line(
    level: Level,
    source: &str,
    args: &str,
    timestamp: &str,
    worker: u64,
) -> (r: String)
    ensures
        r@ == spec_file_line(level, source@, args@, timestamp@, worker as nat),
{
    let mut out = String::new();
    out.append("[");
    out.append(level.as_str());
    out.append("] - [");
    let padded_source = pad_right(source, 60);
    out.append(padded_source.as_str());
    out.append("] - [");
    let padded_args = pad_right(args, 30);
    out.append(padded_args.as_str());
    out.append("] - [");
    let padded_ts = pad_right(timestamp, 19);
    out.append(padded_ts.as_str());
    out.append("] - [");
    let worker_str = u64_to_dec_string(worker);
    out.append(worker_str.as_str());
    out.append("]");
    proof {
        reveal_strlit("[");
        reveal_strlit("]");
        reveal_strlit("] - [");
        assert(out@ =~= spec_file_line(level, source@, args@, timestamp@, worker as nat));
    }
    out
}

/// Computes the file that one entry belongs to, from the calendar date and
/// the severity.
pub fn log_file_path(date: &str, level: Level) -> (r: String)
    ensures
        r@ == spec_log_path(date@, level),
{
    let mut out = date.to_owned();
    out.append("_");
    out.append(level.as_str());
    out.append(".log");
    proof {
        assert(out@ =~= spec_log_path(date@, level));
    }
    out
}

/// Joins file lines with single newlines, as the read-back interface hands
/// a whole log file back.
pub fn join_lines(lines: &Vec<String>) -> (r: String)
    ensures
        r@ == joined_lines(lines@.map_values(|s: String| s@)),
{
    let ghost views = lines@.map_values(|s: String| s@);
    let mut out = String::new();
    let mut i: usize = 0;
    while i < lines.len()
        invariant
            views == lines@.map_values(|s: String| s@),
            i <= lines@.len(),
            out@ == joined_lines(views.take(i as int)),
        decreases lines@.len() - i,
    {
        if i > 0 {
            out.append("\n");
        }
        out.append(lines[i].as_str());
        i += 1;
        proof {
            assert(views.take(i as int).drop_last() =~= views.take(i as int - 1));
            assert(out@ =~= joined_lines(views.take(i as int)));
        }
    }
    proof {
        assert(views.take(lines@.len() as int) =~= views);
    }
    out
}

/// Relies on chrono::Utc::now and chrono::DateTime::format: the current UTC
/// calendar date rendered as year-month-day. The reading depends on the
/// clock, so nothing is promised of the result.
#[verifier::external_body]
pub fn utc_date_string() -> String {
    chrono::Utc::now().format("%Y-%m-%d").to_string()
}

/// Relies on chrono::Utc::now and chrono::DateTime::format: the current UTC
/// date and time rendered to the second. The reading depends on the clock,
/// so nothing is promised of the result.
#[verifier::external_body]
pub fn utc_datetime_string() -> String {
    chrono::Utc::now().format("%Y-%m-%d %H:%M:%S").to_string()
}

/// Prepares one queue entry for persistence: the path of its (date,
/// severity) file and its fixed-column line, stamped with the current clock
/// readings and the worker's identity.
pub fn render_for_persist(d: &LogData, worker: u64) -> (r: (String, String))
    ensures
        exists|date: Seq<char>, ts: Seq<char>|
            r.0@ == #[trigger] spec_log_path(date, d.level) && r.1@ == #[trigger] spec_file_line(
                d.level,
                d.source@,
                d.args@,
                ts,
                worker as nat,
            ),
{
    let date = utc_date_string();
    let ts = utc_datetime_string();
    let path = log_file_path(date.as_str(), d.level);
    let line = render_file_line(d.level, d.source.as_str(), d.args.as_str(), ts.as_str(), worker);
    proof {
        assert(path@ == spec_log_path(date@, d.level) && line@ == spec_file_line(
            d.level,
            d.source@,
            d.args@,
            ts@,
            worker as nat,
        ));
    }
    (path, line)
}

} // verus!
