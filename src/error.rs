use vstd::prelude::*;

verus! {

/// The ways in which starting the application can fail. Both are fatal:
/// the user interface is useless without its backend.
#[derive(Debug, PartialEq, Eq)]
pub enum StartupError {
    /// The operating system offered no unused port.
    NoPortAvailable,
    /// The backend process could not be created.
    SpawnFailed { reason: String },
}

/// The text shown to the user for an error.
pub open spec fn message_of(e: StartupError) -> Seq<char> {
    match e {
        StartupError::NoPortAvailable => "No free port available"@,
        StartupError::SpawnFailed { reason } => "Failed to spawn opencode serve: "@ + reason@,
    }
}

impl StartupError {
    /// A human-readable description of the error.
    pub fn message(&self) -> (r: String)
        ensures
            r@ == message_of(*self),
    {
        match self {
            StartupError::NoPortAvailable => String::from_str("No free port available"),
            StartupError::SpawnFailed { reason } => {
                String::from_str("Failed to spawn opencode serve: ").concat(reason.as_str())
            },
        }
    }
}

} // verus!
