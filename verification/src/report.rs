//! The human-readable record emitted for each finished task.
//!
//! A record names the task, its output file, and either the time it took
//! or the error that stopped it. Records are observability only: nothing
//! the batch decides depends on them.

use crate::plan::TaskResult;
use vstd::prelude::*;
use vstd::string::StringExecFns;

verus! {

/// The character of a single decimal digit.
pub open spec fn digit_char(d: int) -> char {
    if d == 0 {
        '0'
    } else if d == 1 {
        '1'
    } else if d == 2 {
        '2'
    } else if d == 3 {
        '3'
    } else if d == 4 {
        '4'
    } else if d == 5 {
        '5'
    } else if d == 6 {
        '6'
    } else if d == 7 {
        '7'
    } else if d == 8 {
        '8'
    } else {
        '9'
    }
}

/// The decimal digits of a non-negative number, most significant first.
pub open spec fn dec_str(n: int) -> Seq<char>
    decreases n,
{
    if n < 10 {
        seq![digit_char(n)]
    } else {
        dec_str(n / 10).push(digit_char(n % 10))
    }
}

/// An elapsed time shown as whole seconds once it reaches one second, else
/// as milliseconds.
pub open spec fn duration_str(millis: int) -> Seq<char> {
    if millis >= 1000 {
        dec_str(millis / 1000) + "s"@
    } else {
        dec_str(millis) + "ms"@
    }
}

/// The record for one task outcome: the task's identifier and output file,
/// then the elapsed time on success or the cause on failure.
pub open spec fn report_line_spec(r: TaskResult, filename: Seq<char>) -> Seq<char> {
    match r.error {
        None => "[task "@ + dec_str(r.task_id as int) + "] Generated: '"@ + filename + "' in "@
            + duration_str(r.elapsed_millis as int),
        Some(e) => "[task "@ + dec_str(r.task_id as int) + "] Failed to generate '"@ + filename
            + "' Caused by: "@ + e@,
    }
}

/// One decimal digit as a string slice.
fn digit_str(d: u8) -> (r: &'static str)
    requires
        d < 10,
    ensures
        r@ == seq![digit_char(d as int)],
{
    proof {
        reveal_strlit("0");
        reveal_strlit("1");
        reveal_strlit("2");
        reveal_strlit("3");
        reveal_strlit("4");
        reveal_strlit("5");
        reveal_strlit("6");
        reveal_strlit("7");
        reveal_strlit("8");
        reveal_strlit("9");
    }
    match d {
        0 => "0",
        1 => "1",
        2 => "2",
        3 => "3",
        4 => "4",
        5 => "5",
        6 => "6",
        7 => "7",
        8 => "8",
        _ => "9",
    }
}

/// A non-negative number written in decimal.
pub fn u64_to_string(n: u64) -> (r: String)
    ensures
        r@ == dec_str(n as int),
    decreases n,
{
    if n < 10 {
        String::from_str(digit_str(n as u8))
    } else {
        let mut s = u64_to_string(n / 10);
        s.append(digit_str((n % 10) as u8));
        s
    }
}

/// An elapsed time written as `Ns` once it reaches one second, else `Nms`.
pub fn format_duration(millis: u64) -> (r: String)
    ensures
        r@ == duration_str(millis as int),
{
    if millis >= 1000 {
        let mut s = u64_to_string(millis / 1000);
        s.append("s");
        s
    } else {
        let mut s = u64_to_string(millis);
        s.append("ms");
        s
    }
}

/// Builds the record for one task outcome. Pure: siblings' outcomes play
/// no part in it.
pub fn report_line(result: &TaskResult, filename: &str) -> (r: String)
    ensures
        r@ == report_line_spec(*result, filename@),
{
    let mut s = String::from_str("[task ");
    let id = u64_to_string(result.task_id as u64);
    s.append(id.as_str());
    match &result.error {
        None => {
            s.append("] Generated: '");
            s.append(filename);
            s.append("' in ");
            let d = format_duration(result.elapsed_millis);
            s.append(d.as_str());
        },
        Some(e) => {
            s.append("] Failed to generate '");
            s.append(filename);
            s.append("' Caused by: ");
            s.append(e.as_str());
        },
    }
    s
}

} // verus!
