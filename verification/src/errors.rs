//! Error taxonomy of the player control client.
//!
//! Every failure of a facade operation is one of these variants; none of the
//! verified functions panics.  The variants that carry a `String` hold the
//! operating-system or parser text that the embedding application handed in.

use vstd::prelude::*;
use vstd::string::StringExecFns;

verus! {

/// What went wrong during a command.
#[derive(Debug)]
pub enum MpvError {
    /// The player executable could not be launched; carries the OS error text.
    SpawnFailure(String),
    /// The player was spawned but its socket never became connectable within
    /// the bounded readiness poll.
    ReadinessTimeout,
    /// A connection or write to the control socket failed at send time;
    /// carries the OS error text.
    ConnectFailure(String),
    /// The reply line was not a well-formed JSON value; carries the parser's
    /// error text.
    ProtocolError(String),
    /// The local-socket mechanism is not available on this platform.
    UnsupportedPlatform,
}

/// The descriptive text of an error, as the embedding application surfaces it.
pub open spec fn spec_message(e: MpvError) -> Seq<char> {
    match e {
        MpvError::SpawnFailure(s) => "Failed to spawn mpv: "@ + s@,
        MpvError::ReadinessTimeout => "mpv IPC socket did not become connectable in time"@,
        MpvError::ConnectFailure(s) => "mpv connect failed: "@ + s@,
        MpvError::ProtocolError(s) => s@,
        MpvError::UnsupportedPlatform => "mpv IPC over a local socket is not supported on this platform"@,
    }
}

impl MpvError {
    /// Renders the error as the descriptive string shown to callers.
    pub fn message(&self) -> (m: String)
        ensures
            m@ == spec_message(*self),
    {
        match self {
            MpvError::SpawnFailure(s) => {
                let mut m = String::from_str("Failed to spawn mpv: ");
                m.append(s.as_str());
                m
            },
            MpvError::ReadinessTimeout => String::from_str(
                "mpv IPC socket did not become connectable in time",
            ),
            MpvError::ConnectFailure(s) => {
                let mut m = String::from_str("mpv connect failed: ");
                m.append(s.as_str());
                m
            },
            MpvError::ProtocolError(s) => s.clone(),
            MpvError::UnsupportedPlatform => String::from_str(
                "mpv IPC over a local socket is not supported on this platform",
            ),
        }
    }
}

} // verus!
