//! The failure taxonomy of the bridge. None of these ever reaches the
//! entry-point caller: the public call always succeeds, and failures are only
//! visible on the operator-facing diagnostics channel, for which each kind
//! renders its own message.

use vstd::prelude::*;
use vstd::string::*;

verus! {

/// What went wrong inside one background delivery. `Config` is a malformed
/// connection URL, fatal only to that attempt; `Connect` is a failed
/// handshake, and a later call that still finds no handle retries; `Write` is
/// a failed store operation after a connection existed, and the one event is
/// dropped, never retried.
pub enum IngestError {
    Config(String),
    Connect(String),
    Write(String),
}

impl IngestError {
    /// The diagnostics line for this failure: a fixed kind prefix, then the
    /// underlying cause.
    pub open spec fn message_spec(&self) -> Seq<char> {
        match self {
            IngestError::Config(cause) => "Error parsing DB URL: "@ + cause@,
            IngestError::Connect(cause) => "Error connecting to DB: "@ + cause@,
            IngestError::Write(cause) => "Error writing log: "@ + cause@,
        }
    }

    /// Renders the operator-facing message for this failure.
    pub fn message(&self) -> (r: String)
        ensures
            r@ == self.message_spec(),
    {
        match self {
            IngestError::Config(cause) => {
                let mut s = String::from_str("Error parsing DB URL: ");
                s.append(cause.as_str());
                proof {
                    assert(s@ =~= self.message_spec());
                }
                s
            },
            IngestError::Connect(cause) => {
                let mut s = String::from_str("Error connecting to DB: ");
                s.append(cause.as_str());
                proof {
                    assert(s@ =~= self.message_spec());
                }
                s
            },
            IngestError::Write(cause) => {
                let mut s = String::from_str("Error writing log: ");
                s.append(cause.as_str());
                proof {
                    assert(s@ =~= self.message_spec());
                }
                s
            },
        }
    }
}

} // verus!
