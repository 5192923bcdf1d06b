//! Small verified text builders of the application surface.
//!
//! The greeting of the demonstration command, and the report of the
//! machine-information diagnostic: the diagnostic runs an external tool and
//! shows its text output, and these functions assemble that text from the
//! plain values the application collected.

use vstd::prelude::*;
use vstd::string::StringExecFns;

verus! {

/// The greeting returned for a name.
pub open spec fn spec_greeting(name: Seq<char>) -> Seq<char> {
    "Hello, "@ + name + "! You've been greeted from Rust!"@
}

/// Builds the greeting for `name`.
pub fn greet(name: &str) -> (r: String)
    ensures
        r@ == spec_greeting(name@),
{
    let mut r = String::from_str("Hello, ");
    r.append(name);
    r.append("! You've been greeted from Rust!");
    r
}

/// The diagnostic text shown for a finished tool run: on success the
/// standard output alone; on failure the standard output (when any), then
/// the labelled standard error (when any), then the exit status line.
pub open spec fn spec_diagnostic_report(
    stdout: Seq<char>,
    stderr: Seq<char>,
    success: bool,
    status: Seq<char>,
) -> Seq<char> {
    if success {
        stdout
    } else {
        (if stdout.len() > 0 {
            stdout
        } else {
            Seq::empty()
        }) + (if stderr.len() > 0 {
            (if stdout.len() > 0 {
                "\n"@
            } else {
                Seq::empty()
            }) + "STDERR:\n"@ + stderr
        } else {
            Seq::empty()
        }) + "\nExit status: "@ + status
    }
}

/// Assembles the diagnostic report from a tool run's collected output.
pub fn diagnostic_report(stdout: &str, stderr: &str, success: bool, status: &str) -> (r: String)
    ensures
        r@ == spec_diagnostic_report(stdout@, stderr@, success, status@),
{
    if success {
        return String::from_str(stdout);
    }
    let mut r = String::new();
    if !stdout.is_empty() {
        r.append(stdout);
    }
    if !stderr.is_empty() {
        if !stdout.is_empty() {
            r.append("\n");
        }
        r.append("STDERR:\n");
        r.append(stderr);
    }
    r.append("\nExit status: ");
    r.append(status);
    proof {
        assert(r@ =~= spec_diagnostic_report(stdout@, stderr@, success, status@));
    }
    r
}

/// The message shown when the diagnostic tool could not be started at all.
pub open spec fn spec_spawn_failure_report(error_text: Seq<char>) -> Seq<char> {
    "Failed to spawn `neofetch`: "@ + error_text
        + "\nMake sure `neofetch` is installed and available on PATH."@
}

/// Builds the message for a diagnostic tool that failed to start.
pub fn spawn_failure_report(error_text: &str) -> (r: String)
    ensures
        r@ == spec_spawn_failure_report(error_text@),
{
    let mut r = String::from_str("Failed to spawn `neofetch`: ");
    r.append(error_text);
    r.append("\nMake sure `neofetch` is installed and available on PATH.");
    r
}

} // verus!
