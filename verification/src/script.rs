//! Reports for the direct-script diagnostic: running the interpreter once
//! on a script and summarising what happened. The file checks, the spawn
//! and the output capture are the surrounding program's work; the texts it
//! surfaces are decided here.

use vstd::prelude::*;
use crate::text::{int_chars, push_signed_decimal};

verus! {

/// The message for an interpreter executable that is not on disk.
pub fn missing_executable_text(path: &str) -> (r: String)
    ensures
        r@ == "executable not found at: "@ + path@,
{
    let mut s = String::from_str("executable not found at: ");
    s.append(path);
    s
}

/// The message for a script file that could not be read.
pub fn read_failure_text(err: &str) -> (r: String)
    ensures
        r@ == "failed to read script: "@ + err@,
{
    let mut s = String::from_str("failed to read script: ");
    s.append(err);
    s
}

/// The message for an interpreter that could not be run at all.
pub fn exec_failure_text(err: &str) -> (r: String)
    ensures
        r@ == "failed to execute script: "@ + err@,
{
    let mut s = String::from_str("failed to execute script: ");
    s.append(err);
    s
}

/// The exit-code part of a failure report: the code's decimal text, or a
/// word for a process that returned none (killed by a signal).
pub open spec fn exit_code_chars(code: Option<i32>) -> Seq<char> {
    match code {
        Some(v) => int_chars(v as int),
        None => "unknown"@,
    }
}

/// Summarises one interpreter run: its captured standard output on
/// success, its exit code and captured standard error on failure —
/// success exactly when the process exited successfully.
pub fn script_report(success: bool, code: Option<i32>, stdout: &str, stderr: &str) -> (r: Result<
    String,
    String,
>)
    ensures
        r is Ok <==> success,
        r matches Ok(s) ==> s@ == "script ran successfully\noutput: "@ + stdout@,
        r matches Err(s) ==> s@ == "script failed with exit code "@ + exit_code_chars(code)
            + "\nstderr: "@ + stderr@,
{
    if success {
        let mut s = String::from_str("script ran successfully\noutput: ");
        s.append(stdout);
        Ok(s)
    } else {
        let mut s = String::from_str("script failed with exit code ");
        match code {
            Some(v) => {
                push_signed_decimal(&mut s, v as i64);
            },
            None => {
                s.append("unknown");
            },
        }
        s.append("\nstderr: ");
        s.append(stderr);
        Err(s)
    }
}

} // verus!
