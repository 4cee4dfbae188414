//! What a finished process produced, and the text that is recorded of it.

use crate::platform::{from_utf8_lossy, utf8_lossy};
use crate::text::{decimal, push_decimal};
use vstd::prelude::*;
use vstd::utf8::{decode_utf8, valid_utf8};

verus! {

/// What a finished process produced.
pub struct Output {
    /// Whether the process reported success.
    pub success: bool,
    /// The exit code; none where the process ended without one, as when
    /// a signal ended it.
    pub code: Option<i32>,
    /// What the process wrote to its standard output.
    pub stdout: Vec<u8>,
    /// What the process wrote to its standard error.
    pub stderr: Vec<u8>,
}

/// What an `Output` holds, as plain values.
pub struct OutputView {
    pub success: bool,
    pub code: Option<i32>,
    pub stdout: Seq<u8>,
    pub stderr: Seq<u8>,
}

impl View for Output {
    type V = OutputView;

    open spec fn view(&self) -> OutputView {
        OutputView {
            success: self.success,
            code: self.code,
            stdout: self.stdout@,
            stderr: self.stderr@,
        }
    }
}

/// The number recorded as the exit code: -1, all bits set, where the
/// process ended without one.
pub open spec fn exit_code_of(code: Option<i32>) -> int {
    match code {
        Some(c) => c as int,
        None => -1,
    }
}

/// The word recorded for success or failure.
pub open spec fn bool_text(b: bool) -> Seq<char> {
    if b {
        "true"@
    } else {
        "false"@
    }
}

/// The snapshot text of a process that ended with `exit_code` and wrote
/// the texts `stdout` and `stderr`.
pub open spec fn snapshot_text(
    success: bool,
    exit_code: int,
    stdout: Seq<char>,
    stderr: Seq<char>,
) -> Seq<char> {
    "success: "@ + bool_text(success) + "\nexit_code: "@ + decimal(exit_code)
        + "\n----- stdout -----\n"@ + stdout + "\n----- stderr -----\n"@ + stderr
}

/// The snapshot text of an output; what it wrote is read leniently.
pub open spec fn rendered(output: OutputView) -> Seq<char> {
    snapshot_text(
        output.success,
        exit_code_of(output.code),
        utf8_lossy(output.stdout),
        utf8_lossy(output.stderr),
    )
}

/// The number recorded as the exit code.
pub fn exit_code(code: Option<i32>) -> (r: i32)
    ensures
        r == exit_code_of(code),
{
    match code {
        Some(c) => c,
        None => -1,
    }
}

/// Renders the snapshot text of a process that ended with `exit_code`
/// and wrote the texts `stdout` and `stderr`.
pub fn format_snapshot(success: bool, exit_code: i32, stdout: &str, stderr: &str) -> (r: String)
    ensures
        r@ == snapshot_text(success, exit_code as int, stdout@, stderr@),
{
    let mut r = String::from_str("success: ");
    if success {
        r.append("true");
    } else {
        r.append("false");
    }
    r.append("\nexit_code: ");
    push_decimal(&mut r, exit_code);
    r.append("\n----- stdout -----\n");
    r.append(stdout);
    r.append("\n----- stderr -----\n");
    r.append(stderr);
    r
}

/// Renders the snapshot text of an output.
pub fn render_snapshot(output: &Output) -> (r: String)
    ensures
        r@ == rendered(output@),
        valid_utf8(output@.stdout) && valid_utf8(output@.stderr) ==> r@ == snapshot_text(
            output@.success,
            exit_code_of(output@.code),
            decode_utf8(output@.stdout),
            decode_utf8(output@.stderr),
        ),
{
    let stdout = from_utf8_lossy(output.stdout.as_slice());
    let stderr = from_utf8_lossy(output.stderr.as_slice());
    format_snapshot(output.success, exit_code(output.code), stdout.as_str(), stderr.as_str())
}

} // verus!
